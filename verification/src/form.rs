//! Reading the two fields of a subscription out of a form-encoded body.

use crate::validation::Submission;
use vstd::prelude::*;

verus! {

/// A field that a subscription form has to carry.
#[derive(Debug, Clone, Copy, PartialEq, Eq, Structural)]
pub enum Field {
    Email,
    Name,
}

impl Field {
    /// The key under which the field travels in the body.
    pub open spec fn key(self) -> Seq<char> {
        match self {
            Field::Email => "email"@,
            Field::Name => "name"@,
        }
    }
}

/// Why a body does not yield a subscription form.
#[derive(Debug, Clone, Copy, PartialEq, Eq, Structural)]
pub enum FormError {
    /// The body is not a sequence of form-encoded pairs.
    Undecodable,
    /// The field occurs a second time.
    DuplicateField(Field),
    /// The field does not occur.
    MissingField(Field),
}

/// The fields of a subscription form, as they were submitted.
pub struct FormData {
    pub email: String,
    pub name: String,
}

impl View for FormData {
    type V = Submission;

    open spec fn view(&self) -> Submission {
        Submission { email: self.email@, name: self.name@ }
    }
}

/// Whether one of the first `end` pairs goes by `key`.
pub open spec fn has_key(pairs: Seq<(Seq<char>, Seq<char>)>, key: Seq<char>, end: int) -> bool {
    exists|i: int| 0 <= i < end && i < pairs.len() && (#[trigger] pairs[i]).0 == key
}

/// The field that the pair at `at` repeats: its key is that of a form field
/// and an earlier pair goes by the same key.
pub open spec fn repeated_at(pairs: Seq<(Seq<char>, Seq<char>)>, at: int) -> Option<Field> {
    if 0 <= at < pairs.len() && pairs[at].0 == Field::Email.key() && has_key(
        pairs,
        Field::Email.key(),
        at,
    ) {
        Some(Field::Email)
    } else if 0 <= at < pairs.len() && pairs[at].0 == Field::Name.key() && has_key(
        pairs,
        Field::Name.key(),
        at,
    ) {
        Some(Field::Name)
    } else {
        None
    }
}

/// Whether the pair at `at` is the first one to repeat a form field.
pub open spec fn is_first_repeat(pairs: Seq<(Seq<char>, Seq<char>)>, at: int) -> bool {
    &&& repeated_at(pairs, at) is Some
    &&& forall|k: int| 0 <= k < at ==> repeated_at(pairs, k) is None
}

/// The place of some pair that goes by `key`. Where exactly one pair does,
/// this is its place.
pub open spec fn place_of(pairs: Seq<(Seq<char>, Seq<char>)>, key: Seq<char>) -> int {
    choose|i: int| 0 <= i < pairs.len() && (#[trigger] pairs[i]).0 == key
}

/// The value of the pair at `place_of(pairs, key)`.
pub open spec fn value_of(pairs: Seq<(Seq<char>, Seq<char>)>, key: Seq<char>) -> Seq<char> {
    pairs[place_of(pairs, key)].1
}

/// The form that a sequence of decoded pairs stands for.
///
/// Pairs under other keys are ignored. The first pair that repeats a field
/// makes the whole sequence a duplicate of that field. Without a repeat, a
/// lacking email is reported before a lacking name. Otherwise the form holds
/// the values of the two fields.
pub open spec fn selected_fields(pairs: Seq<(Seq<char>, Seq<char>)>) -> Result<
    Submission,
    FormError,
> {
    if exists|at: int| is_first_repeat(pairs, at) {
        let at = choose|at: int| is_first_repeat(pairs, at);
        Err(FormError::DuplicateField(repeated_at(pairs, at).unwrap()))
    } else if !has_key(pairs, Field::Email.key(), pairs.len() as int) {
        Err(FormError::MissingField(Field::Email))
    } else if !has_key(pairs, Field::Name.key(), pairs.len() as int) {
        Err(FormError::MissingField(Field::Name))
    } else {
        Ok(
            Submission {
                email: value_of(pairs, Field::Email.key()),
                name: value_of(pairs, Field::Name.key()),
            },
        )
    }
}

/// The pairs that a form-encoded body decodes to, or `None` where the decoder
/// refuses the body.
pub uninterp spec fn urlencoded_pairs(body: Seq<u8>) -> Option<Seq<(Seq<char>, Seq<char>)>>;

/// The form that the outcome of decoding a body stands for.
pub open spec fn parsed_form(decoded: Option<Seq<(Seq<char>, Seq<char>)>>) -> Result<
    Submission,
    FormError,
> {
    match decoded {
        None => Err(FormError::Undecodable),
        Some(pairs) => selected_fields(pairs),
    }
}

/// Decodes a form-encoded body into its pairs, in the order of the body.
///
/// Calls `serde_urlencoded::from_bytes` for a vector of pairs of strings. The
/// contract gives the outcome a name and claims only that it is a function of
/// the body.
#[verifier::external_body]
pub(crate) fn decode_pairs(body: &[u8]) -> (r: Option<Vec<(String, String)>>)
    ensures
        r.deep_view() == urlencoded_pairs(body@),
{
    match serde_urlencoded::from_bytes::<Vec<(String, String)>>(body) {
        Ok(pairs) => Some(pairs),
        Err(_) => None,
    }
}

/// The two field keys differ, and so a pair goes by at most one of them.
pub proof fn lemma_keys_differ()
    ensures
        Field::Email.key() != Field::Name.key(),
        Field::Email.key().len() == 5,
        Field::Name.key().len() == 4,
{
    reveal_strlit("email");
    reveal_strlit("name");
    assert("email"@.len() == 5);
    assert("name"@.len() == 4);
}

impl FormData {
    /// Picks the two fields out of decoded pairs.
    pub fn from_pairs(pairs: &Vec<(String, String)>) -> (r: Result<FormData, FormError>)
        ensures
            match r {
                Ok(form) => selected_fields(pairs.deep_view()) == Ok::<Submission, FormError>(
                    form@,
                ),
                Err(error) => selected_fields(pairs.deep_view()) == Err::<Submission, FormError>(
                    error,
                ),
            },
    {
        let ghost all = pairs.deep_view();
        let email_key = String::from_str("email");
        let name_key = String::from_str("name");
        let mut email: Option<String> = None;
        let mut name: Option<String> = None;
        let mut email_at: Ghost<int> = Ghost(0);
        let mut name_at: Ghost<int> = Ghost(0);
        proof {
            lemma_keys_differ();
        }
        let mut i: usize = 0;
        while i < pairs.len()
            invariant
                i <= pairs.len(),
                all == pairs.deep_view(),
                all.len() == pairs.len(),
                email_key@ == Field::Email.key(),
                name_key@ == Field::Name.key(),
                Field::Email.key() != Field::Name.key(),
                forall|k: int| 0 <= k < i ==> repeated_at(all, k) is None,
                email is Some == has_key(all, Field::Email.key(), i as int),
                name is Some == has_key(all, Field::Name.key(), i as int),
                email matches Some(text) ==> 0 <= email_at@ < i && all[email_at@] == (
                    Field::Email.key(),
                    text@,
                ),
                name matches Some(text) ==> 0 <= name_at@ < i && all[name_at@] == (
                    Field::Name.key(),
                    text@,
                ),
            decreases pairs.len() - i,
        {
            let pair = &pairs[i];
            assert(all[i as int] == (pair.0@, pair.1@));
            if pair.0 == email_key {
                if email.is_some() {
                    proof {
                        assert(repeated_at(all, i as int) == Some(Field::Email));
                        assert(is_first_repeat(all, i as int));
                        lemma_first_repeat_unique(all, i as int);
                    }
                    return Err(FormError::DuplicateField(Field::Email));
                }
                email = Some(pair.1.clone());
                proof {
                    email_at@ = i as int;
                }
            } else if pair.0 == name_key {
                if name.is_some() {
                    proof {
                        assert(repeated_at(all, i as int) == Some(Field::Name));
                        assert(is_first_repeat(all, i as int));
                        lemma_first_repeat_unique(all, i as int);
                    }
                    return Err(FormError::DuplicateField(Field::Name));
                }
                name = Some(pair.1.clone());
                proof {
                    name_at@ = i as int;
                }
            }
            i += 1;
        }
        proof {
            assert forall|at: int| !is_first_repeat(all, at) by {
                if 0 <= at < all.len() {
                    assert(repeated_at(all, at) is None);
                }
            }
        }
        match (email, name) {
            (Some(email), Some(name)) => {
                proof {
                    lemma_value_of_unique(all, Field::Email.key(), email_at@);
                    lemma_value_of_unique(all, Field::Name.key(), name_at@);
                }
                Ok(FormData { email, name })
            },
            (None, _) => Err(FormError::MissingField(Field::Email)),
            (Some(_), None) => Err(FormError::MissingField(Field::Name)),
        }
    }

    /// Reads a subscription form out of a form-encoded body.
    pub fn parse(body: &[u8]) -> (r: Result<FormData, FormError>)
        ensures
            match r {
                Ok(form) => parsed_form(urlencoded_pairs(body@)) == Ok::<Submission, FormError>(
                    form@,
                ),
                Err(error) => parsed_form(urlencoded_pairs(body@)) == Err::<
                    Submission,
                    FormError,
                >(error),
            },
    {
        match decode_pairs(body) {
            None => Err(FormError::Undecodable),
            Some(pairs) => FormData::from_pairs(&pairs),
        }
    }
}

/// Only one pair can be the first to repeat a field.
proof fn lemma_first_repeat_unique(pairs: Seq<(Seq<char>, Seq<char>)>, at: int)
    requires
        is_first_repeat(pairs, at),
    ensures
        forall|other: int| is_first_repeat(pairs, other) ==> other == at,
        (choose|other: int| is_first_repeat(pairs, other)) == at,
{
    assert forall|other: int| is_first_repeat(pairs, other) implies other == at by {
        if other < at {
            assert(repeated_at(pairs, other) is None);
        } else if at < other {
            assert(repeated_at(pairs, at) is None);
        }
    }
}

/// Where no pair repeats a field, the pair that goes by a field's key is the
/// only one, and its value is the field's value.
proof fn lemma_value_of_unique(pairs: Seq<(Seq<char>, Seq<char>)>, key: Seq<char>, at: int)
    requires
        key == Field::Email.key() || key == Field::Name.key(),
        0 <= at < pairs.len(),
        pairs[at].0 == key,
        forall|k: int| 0 <= k < pairs.len() ==> repeated_at(pairs, k) is None,
    ensures
        value_of(pairs, key) == pairs[at].1,
{
    let found = place_of(pairs, key);
    assert(0 <= found < pairs.len() && pairs[found].0 == key);
    if found < at {
        assert(has_key(pairs, key, at));
        assert(repeated_at(pairs, at) is Some);
    } else if at < found {
        assert(has_key(pairs, key, found));
        assert(repeated_at(pairs, found) is Some);
    }
}

/// Where exactly one pair goes by each of the two keys, the form holds the
/// values of those two pairs, wherever they stand and whatever other pairs
/// surround them.
pub proof fn lemma_fields_occurring_once_are_selected(
    pairs: Seq<(Seq<char>, Seq<char>)>,
    email_at: int,
    name_at: int,
)
    requires
        0 <= email_at < pairs.len(),
        0 <= name_at < pairs.len(),
        forall|k: int|
            0 <= k < pairs.len() ==> ((#[trigger] pairs[k]).0 == Field::Email.key() <==> k
                == email_at),
        forall|k: int|
            0 <= k < pairs.len() ==> ((#[trigger] pairs[k]).0 == Field::Name.key() <==> k
                == name_at),
    ensures
        selected_fields(pairs) == Ok::<Submission, FormError>(
            Submission { email: pairs[email_at].1, name: pairs[name_at].1 },
        ),
{
    assert forall|at: int| repeated_at(pairs, at) is None by {
        if 0 <= at < pairs.len() {
            if pairs[at].0 == Field::Email.key() && has_key(pairs, Field::Email.key(), at) {
                let earlier = choose|i: int|
                    0 <= i < at && i < pairs.len() && (#[trigger] pairs[i]).0
                        == Field::Email.key();
                assert(earlier == email_at && at == email_at);
            }
            if pairs[at].0 == Field::Name.key() && has_key(pairs, Field::Name.key(), at) {
                let earlier = choose|i: int|
                    0 <= i < at && i < pairs.len() && (#[trigger] pairs[i]).0 == Field::Name.key();
                assert(earlier == name_at && at == name_at);
            }
        }
    }
    assert(pairs[email_at].0 == Field::Email.key());
    assert(pairs[name_at].0 == Field::Name.key());
    assert(has_key(pairs, Field::Email.key(), pairs.len() as int));
    assert(has_key(pairs, Field::Name.key(), pairs.len() as int));
    lemma_value_of_unique(pairs, Field::Email.key(), email_at);
    lemma_value_of_unique(pairs, Field::Name.key(), name_at);
}

} // verus!
