//! The rules a submitted subscriber has to meet before anything is stored.

use vstd::prelude::*;

verus! {

/// The two fields of a submission, as plain text.
pub struct Submission {
    pub email: Seq<char>,
    pub name: Seq<char>,
}

/// Why a submission was turned down by the rules.
#[derive(Debug, Clone, Copy, PartialEq, Eq, Structural)]
pub enum ValidationError {
    /// The name is empty once surrounding white space is trimmed.
    EmptyName,
    /// The email lacks an `@` with text on both sides.
    MalformedEmail,
}

/// Whether `c` carries the Unicode `White_Space` property.
pub open spec fn is_whitespace(c: char) -> bool {
    let code = c as u32;
    ||| 0x09 <= code <= 0x0D
    ||| code == 0x20
    ||| code == 0x85
    ||| code == 0xA0
    ||| code == 0x1680
    ||| 0x2000 <= code <= 0x200A
    ||| code == 0x2028
    ||| code == 0x2029
    ||| code == 0x202F
    ||| code == 0x205F
    ||| code == 0x3000
}

/// Whether every character of `text` is white space, so that trimming it
/// leaves nothing.
pub open spec fn is_blank(text: Seq<char>) -> bool {
    forall|i: int| 0 <= i < text.len() ==> is_whitespace(#[trigger] text[i])
}

/// Whether position `at` of `text` holds an `@` that has at least one
/// character before it and at least one after it.
pub open spec fn splits_email(text: Seq<char>, at: int) -> bool {
    0 < at < text.len() - 1 && text[at] == '@'
}

/// Whether `text` has the minimal shape `local-part@domain`: some `@` in it
/// has a non-empty segment on either side.
pub open spec fn has_email_shape(text: Seq<char>) -> bool {
    exists|at: int| splits_email(text, at)
}

/// The rule that a submission breaks, if any. The name is judged first.
pub open spec fn broken_rule(email: Seq<char>, name: Seq<char>) -> Option<ValidationError> {
    if is_blank(name) {
        Some(ValidationError::EmptyName)
    } else if !has_email_shape(email) {
        Some(ValidationError::MalformedEmail)
    } else {
        None
    }
}

/// A submission that has passed every rule. The fields are kept exactly as
/// they were submitted: nothing is trimmed or re-cased.
pub struct NewSubscriber {
    email: String,
    name: String,
}

impl View for NewSubscriber {
    type V = Submission;

    closed spec fn view(&self) -> Submission {
        Submission { email: self.email@, name: self.name@ }
    }
}

impl NewSubscriber {
    #[verifier::type_invariant]
    spec fn rules_hold(self) -> bool {
        broken_rule(self.email@, self.name@) is None
    }

    /// The email as submitted; it has the shape `local-part@domain`.
    pub fn email(&self) -> (r: &str)
        ensures
            r@ == self@.email,
            has_email_shape(r@),
    {
        proof {
            use_type_invariant(self);
        }
        self.email.as_str()
    }

    /// The name as submitted; it is not blank.
    pub fn name(&self) -> (r: &str)
        ensures
            r@ == self@.name,
            !is_blank(r@),
    {
        proof {
            use_type_invariant(self);
        }
        self.name.as_str()
    }

    /// Hands out the two fields, email first.
    pub fn into_parts(self) -> (r: (String, String))
        ensures
            r.0@ == self@.email,
            r.1@ == self@.name,
            broken_rule(r.0@, r.1@) is None,
    {
        proof {
            use_type_invariant(&self);
        }
        (self.email, self.name)
    }
}

/// Decides whether `c` is white space.
pub fn whitespace(c: char) -> (r: bool)
    ensures
        r == is_whitespace(c),
{
    let code: u32 = c as u32;
    (0x09 <= code && code <= 0x0D) || code == 0x20 || code == 0x85 || code == 0xA0 || code
        == 0x1680 || (0x2000 <= code && code <= 0x200A) || code == 0x2028 || code == 0x2029 || code
        == 0x202F || code == 0x205F || code == 0x3000
}

/// Decides whether `text` is empty after trimming white space.
pub fn blank(text: &str) -> (r: bool)
    ensures
        r == is_blank(text@),
{
    let mut all: bool = true;
    for c in it: text.chars()
        invariant
            it.seq() == text@,
            all == is_blank(text@.take(it.index() as int)),
    {
        proof {
            let done = it.index() as int;
            assert(text@.take(done + 1) =~= text@.take(done).push(c));
            assert(forall|i: int| 0 <= i < done ==> text@.take(done)[i] == text@.take(done + 1)[i]);
            assert(text@.take(done + 1)[done] == c);
        }
        all = all && whitespace(c);
    }
    assert(text@.take(text@.len() as int) =~= text@);
    all
}

/// Decides whether `text` has the shape `local-part@domain`.
pub fn email_shaped(text: &str) -> (r: bool)
    ensures
        r == has_email_shape(text@),
{
    // `open`: an `@` stands at a position from 1 on, before the current one.
    // `closed`: some such `@` is followed by a further character.
    let mut started: bool = false;
    let mut open: bool = false;
    let mut closed: bool = false;
    for c in it: text.chars()
        invariant
            it.seq() == text@,
            started == (it.index() > 0),
            open == (exists|at: int| 0 < at < it.index() && text@[at] == '@'),
            closed == (exists|at: int| 0 < at < it.index() - 1 && text@[at] == '@'),
    {
        let ghost here = it.index() as int;
        closed = open;
        if started && c == '@' {
            open = true;
        }
        started = true;
        proof {
            assert(text@[here] == c);
            assert(open == (exists|at: int| 0 < at < here + 1 && text@[at] == '@'));
        }
    }
    proof {
        assert(closed == has_email_shape(text@)) by {
            if closed {
                let at = choose|at: int| 0 < at < text@.len() - 1 && text@[at] == '@';
                assert(splits_email(text@, at));
            }
        }
    }
    closed
}

/// Checks a submitted email and name against the rules.
///
/// A name that is blank is refused first, then an email without the shape
/// `local-part@domain`. What passes is kept unchanged.
pub fn validate(email: &str, name: &str) -> (r: Result<NewSubscriber, ValidationError>)
    ensures
        match r {
            Ok(subscriber) => broken_rule(email@, name@) is None && subscriber@ == (Submission {
                email: email@,
                name: name@,
            }),
            Err(error) => broken_rule(email@, name@) == Some(error),
        },
{
    if blank(name) {
        Err(ValidationError::EmptyName)
    } else if !email_shaped(email) {
        Err(ValidationError::MalformedEmail)
    } else {
        Ok(NewSubscriber { email: email.to_owned(), name: name.to_owned() })
    }
}

/// A local part and a domain, neither of them empty, joined by an `@` have
/// the shape of an email.
pub proof fn lemma_local_at_domain_has_shape(local: Seq<char>, domain: Seq<char>)
    requires
        local.len() > 0,
        domain.len() > 0,
    ensures
        has_email_shape(local + seq!['@'] + domain),
{
    let text = local + seq!['@'] + domain;
    assert(text[local.len() as int] == '@');
    assert(splits_email(text, local.len() as int));
}

/// Text with the shape of an email falls into a local part and a domain,
/// neither of them empty, around one of its `@`.
pub proof fn lemma_shape_has_local_and_domain(text: Seq<char>)
    requires
        has_email_shape(text),
    ensures
        exists|local: Seq<char>, domain: Seq<char>|
            local.len() > 0 && domain.len() > 0 && text == #[trigger] (local + seq!['@']
                + domain),
{
    let at = choose|at: int| splits_email(text, at);
    let local = text.take(at);
    let domain = text.skip(at + 1);
    assert(text =~= local + seq!['@'] + domain);
}

} // verus!
