//! Taking in a new subscriber: from the body of a request to the row to
//! insert, and from the outcome of the insert to the answer.

use crate::clock::now_micros;
use crate::form::decode_pairs;
use crate::form::has_key;
use crate::form::parsed_form;
use crate::form::repeated_at;
use crate::form::selected_fields;
use crate::form::urlencoded_pairs;
use crate::form::Field;
use crate::form::FormError;
use crate::gateway::table_after_insert;
use crate::gateway::PersistenceError;
use crate::identifier::hyphenated;
use crate::identifier::hyphenated_text;
use crate::identifier::is_random_uuid;
use crate::identifier::random_uuid;
use crate::response::Response;
use crate::subscriber::Row;
use crate::subscriber::Subscriber;
use crate::telemetry::failure_line;
use crate::telemetry::failure_message;
use crate::telemetry::RequestSpan;
use crate::telemetry::SpanFields;
use crate::validation::broken_rule;
use crate::validation::validate;
use crate::validation::NewSubscriber;
use crate::validation::Submission;
use crate::validation::ValidationError;
use vstd::prelude::*;

pub use crate::form::FormData;

verus! {

/// Why a request is turned down, as plain values.
pub enum RejectionView {
    /// The body did not yield the two fields.
    Malformed(FormError),
    /// The fields were read and break a rule.
    Invalid(Submission, ValidationError),
}

/// Why a request is turned down.
pub enum Rejection {
    /// The body did not yield the two fields.
    Malformed(FormError),
    /// The fields were read and break a rule.
    Invalid { form: FormData, error: ValidationError },
}

impl View for Rejection {
    type V = RejectionView;

    open spec fn view(&self) -> RejectionView {
        match self {
            Rejection::Malformed(error) => RejectionView::Malformed(*error),
            Rejection::Invalid { form, error } => RejectionView::Invalid(form@, *error),
        }
    }
}

/// What the handler has decided on a request, as plain values.
pub enum IntakeView {
    /// Nothing is written; the answer is 400.
    Rejected { request_id: u128, rejection: RejectionView },
    /// One row is to be inserted; the answer waits for the store.
    Accepted { request_id: u128, row: Row },
}

impl IntakeView {
    /// The correlation identifier of the request.
    pub open spec fn request_id(self) -> u128 {
        match self {
            IntakeView::Rejected { request_id, .. } => request_id,
            IntakeView::Accepted { request_id, .. } => request_id,
        }
    }
}

/// An insert that the handler asks for and whose outcome it waits for.
pub struct PendingInsert {
    /// The correlation identifier of the request.
    pub request_id: u128,
    /// The row to insert, once.
    pub row: Subscriber,
}

/// A request that the handler has turned down.
pub struct Rejected {
    /// The correlation identifier of the request.
    pub request_id: u128,
    /// Why it was turned down.
    pub rejection: Rejection,
}

/// What the handler has decided on a request.
pub enum Intake {
    /// Nothing is written; the answer is 400.
    Rejected(Rejected),
    /// One row is to be inserted; the answer waits for the store.
    Accepted(PendingInsert),
}

impl View for Intake {
    type V = IntakeView;

    open spec fn view(&self) -> IntakeView {
        match self {
            Intake::Rejected(rejected) => IntakeView::Rejected {
                request_id: rejected.request_id,
                rejection: rejected.rejection@,
            },
            Intake::Accepted(pending) => IntakeView::Accepted {
                request_id: pending.request_id,
                row: pending.row@,
            },
        }
    }
}

/// How a request ends once the store has answered.
pub struct Completion {
    /// The answer to the client.
    pub response: Response,
    /// The line to log, where the write failed.
    pub log: Option<String>,
}

/// Whether the fields that decoding gave are admitted, and why not.
///
/// A body that yields no form is malformed. A form that breaks a rule is
/// invalid. Anything else is admitted as it was submitted.
pub open spec fn admission(decoded: Option<Seq<(Seq<char>, Seq<char>)>>) -> Result<
    Submission,
    RejectionView,
> {
    match parsed_form(decoded) {
        Err(error) => Err(RejectionView::Malformed(error)),
        Ok(form) => match broken_rule(form.email, form.name) {
            Some(error) => Err(RejectionView::Invalid(form, error)),
            None => Ok(form),
        },
    }
}

/// The decision on a request, given everything that was drawn from outside:
/// its correlation identifier, what decoding its body gave, and the
/// identifier and time that an accepted row gets.
pub open spec fn intake_of(
    request_id: u128,
    decoded: Option<Seq<(Seq<char>, Seq<char>)>>,
    id: u128,
    at: i64,
) -> IntakeView {
    match admission(decoded) {
        Err(rejection) => IntakeView::Rejected { request_id, rejection },
        Ok(form) => IntakeView::Accepted {
            request_id,
            row: Row { id, email: form.email, name: form.name, subscribed_at: at },
        },
    }
}

/// The status that a request is answered with; `stored` says whether the
/// store reported the insert as done.
pub open spec fn final_status(intake: IntakeView, stored: bool) -> u16 {
    match intake {
        IntakeView::Rejected { .. } => 400,
        IntakeView::Accepted { .. } => if stored {
            200
        } else {
            500
        },
    }
}

/// The rows of the table after a request: a rejected request attempts no
/// insert, an accepted one attempts exactly one, of its row.
pub open spec fn table_after(before: Seq<Row>, intake: IntakeView, stored: bool) -> Seq<Row> {
    match intake {
        IntakeView::Rejected { .. } => before,
        IntakeView::Accepted { row, .. } => table_after_insert(before, row, stored),
    }
}

/// The attributes that tag the span of a request.
pub open spec fn span_of(intake: IntakeView) -> SpanFields {
    match intake {
        IntakeView::Rejected { request_id, rejection: RejectionView::Malformed(_) } => SpanFields {
            request_id: hyphenated(request_id),
            request_email: None,
            request_name: None,
        },
        IntakeView::Rejected {
            request_id,
            rejection: RejectionView::Invalid(form, _),
        } => SpanFields {
            request_id: hyphenated(request_id),
            request_email: Some(form.email),
            request_name: Some(form.name),
        },
        IntakeView::Accepted { request_id, row } => SpanFields {
            request_id: hyphenated(request_id),
            request_email: Some(row.email),
            request_name: Some(row.name),
        },
    }
}

/// Judges what decoding a body gave: reads the two fields and holds them to
/// the rules.
pub fn judge(decoded: Option<Vec<(String, String)>>) -> (r: Result<NewSubscriber, Rejection>)
    ensures
        match r {
            Ok(subscriber) => admission(decoded.deep_view()) == Ok::<Submission, RejectionView>(
                subscriber@,
            ),
            Err(rejection) => admission(decoded.deep_view()) == Err::<Submission, RejectionView>(
                rejection@,
            ),
        },
{
    let pairs = match decoded {
        None => {
            return Err(Rejection::Malformed(FormError::Undecodable));
        },
        Some(pairs) => pairs,
    };
    match FormData::from_pairs(&pairs) {
        Err(error) => Err(Rejection::Malformed(error)),
        Ok(form) => match validate(form.email.as_str(), form.name.as_str()) {
            Err(error) => Err(Rejection::Invalid { form, error }),
            Ok(subscriber) => Ok(subscriber),
        },
    }
}

/// Handles the body of a request to subscribe.
///
/// Every request gets a fresh correlation identifier. A body that does not
/// yield an email and a name, or whose fields break a rule, is rejected and
/// nothing is to be written. Otherwise the fields are joined with a fresh
/// identifier and the current time into the one row to insert.
pub fn subscribe(body: &[u8]) -> (intake: Intake)
    ensures
        is_random_uuid(intake@.request_id()),
        exists|id: u128, at: i64|
            is_random_uuid(id) && intake@ == #[trigger] intake_of(
                intake@.request_id(),
                urlencoded_pairs(body@),
                id,
                at,
            ),
{
    let request_id = random_uuid();
    let decoded = decode_pairs(body);
    let ghost pairs = decoded.deep_view();
    match judge(decoded) {
        Err(rejection) => {
            let intake = Intake::Rejected(Rejected { request_id, rejection });
            assert(intake@ == intake_of(request_id, pairs, request_id, 0));
            intake
        },
        Ok(subscriber) => {
            let id = random_uuid();
            let at = now_micros();
            let intake = Intake::Accepted(
                PendingInsert { request_id, row: Subscriber::new(id, subscriber, at) },
            );
            assert(intake@ == intake_of(request_id, pairs, id, at));
            intake
        },
    }
}

impl Intake {
    /// The correlation identifier of the request.
    pub fn request_id(&self) -> (r: u128)
        ensures
            r == self@.request_id(),
    {
        match self {
            Intake::Rejected(rejected) => rejected.request_id,
            Intake::Accepted(pending) => pending.request_id,
        }
    }

    /// The attributes to tag the span of the request with.
    pub fn span(&self) -> (r: RequestSpan)
        ensures
            r@ == span_of(self@),
    {
        match self {
            Intake::Rejected(Rejected { request_id, rejection: Rejection::Malformed(_) }) => {
                RequestSpan {
                    request_id: hyphenated_text(*request_id),
                    request_email: None,
                    request_name: None,
                }
            },
            Intake::Rejected(
                Rejected { request_id, rejection: Rejection::Invalid { form, .. } },
            ) => RequestSpan {
                request_id: hyphenated_text(*request_id),
                request_email: Some(form.email.clone()),
                request_name: Some(form.name.clone()),
            },
            Intake::Accepted(pending) => RequestSpan {
                request_id: hyphenated_text(pending.request_id),
                request_email: Some(pending.row.email().to_owned()),
                request_name: Some(pending.row.name().to_owned()),
            },
        }
    }
}

impl Rejected {
    /// The answer to a rejected request: 400 with an empty body. Nothing is
    /// written before or after it.
    pub fn response(&self) -> (r: Response)
        ensures
            r.is_bare(
                final_status(
                    IntakeView::Rejected {
                        request_id: self.request_id,
                        rejection: self.rejection@,
                    },
                    false,
                ),
            ),
            r.is_bare(400),
    {
        Response::bad_request()
    }
}

impl PendingInsert {
    /// Ends the request with the outcome of its one insert: 200 where the
    /// store took the row; 500 and a line to log where it gave an error, whose
    /// detail the line carries in full. Either way the body is empty and no
    /// second attempt follows.
    pub fn complete(self, outcome: Result<(), PersistenceError>) -> (c: Completion)
        ensures
            c.response.is_bare(
                final_status(
                    IntakeView::Accepted { request_id: self.request_id, row: self.row@ },
                    outcome is Ok,
                ),
            ),
            match outcome {
                Ok(_) => c.response.is_bare(200) && c.log is None,
                Err(error) => c.response.is_bare(500) && (c.log matches Some(line) && line@
                    == failure_line(self.request_id, error.detail@)),
            },
    {
        match outcome {
            Ok(_) => Completion { response: Response::ok(), log: None },
            Err(error) => Completion {
                response: Response::internal_server_error(),
                log: Some(failure_message(self.request_id, error.detail.as_str())),
            },
        }
    }
}

/// A request that carries, once each, an email of the shape
/// `local-part@domain` and a name that is not blank is accepted, whatever
/// identifiers and time are drawn for it. Once the store has taken its row the
/// answer is 200, and the table holds exactly one row more than before, with
/// that email and that name.
pub proof fn lemma_valid_submission_adds_one_row(
    pairs: Seq<(Seq<char>, Seq<char>)>,
    form: Submission,
    request_id: u128,
    id: u128,
    at: i64,
    before: Seq<Row>,
)
    requires
        selected_fields(pairs) == Ok::<Submission, FormError>(form),
        broken_rule(form.email, form.name) is None,
    ensures
        ({
            let intake = intake_of(request_id, Some(pairs), id, at);
            let row = Row { id, email: form.email, name: form.name, subscribed_at: at };
            &&& intake == IntakeView::Accepted { request_id, row }
            &&& final_status(intake, true) == 200
            &&& table_after(before, intake, true) == before.push(row)
            &&& table_after(before, intake, true).len() == before.len() + 1
        }),
{
}

/// A request that lacks the email, the name or both is turned down as
/// malformed, answered with 400, and writes nothing.
pub proof fn lemma_missing_field_rejected(
    pairs: Seq<(Seq<char>, Seq<char>)>,
    request_id: u128,
    id: u128,
    at: i64,
    before: Seq<Row>,
    stored: bool,
)
    requires
        !has_key(pairs, Field::Email.key(), pairs.len() as int) || !has_key(
            pairs,
            Field::Name.key(),
            pairs.len() as int,
        ),
    ensures
        ({
            let intake = intake_of(request_id, Some(pairs), id, at);
            &&& intake matches IntakeView::Rejected { rejection: RejectionView::Malformed(_), .. }
            &&& intake.request_id() == request_id
            &&& final_status(intake, stored) == 400
            &&& table_after(before, intake, stored) == before
        }),
{
}

/// Where no field is repeated, the rejection names the field that is
/// lacking, the email before the name.
pub proof fn lemma_missing_field_named(pairs: Seq<(Seq<char>, Seq<char>)>)
    requires
        forall|at: int| repeated_at(pairs, at) is None,
    ensures
        !has_key(pairs, Field::Email.key(), pairs.len() as int) ==> admission(Some(pairs)) == Err::<
            Submission,
            RejectionView,
        >(RejectionView::Malformed(FormError::MissingField(Field::Email))),
        has_key(pairs, Field::Email.key(), pairs.len() as int) && !has_key(
            pairs,
            Field::Name.key(),
            pairs.len() as int,
        ) ==> admission(Some(pairs)) == Err::<Submission, RejectionView>(
            RejectionView::Malformed(FormError::MissingField(Field::Name)),
        ),
{
}

/// A request whose body cannot be decoded, or whose fields break a rule, is
/// answered with 400 and writes nothing.
pub proof fn lemma_rejection_writes_nothing(
    decoded: Option<Seq<(Seq<char>, Seq<char>)>>,
    request_id: u128,
    id: u128,
    at: i64,
    before: Seq<Row>,
    stored: bool,
)
    requires
        admission(decoded) is Err,
    ensures
        ({
            let intake = intake_of(request_id, decoded, id, at);
            &&& intake is Rejected
            &&& final_status(intake, stored) == 400
            &&& table_after(before, intake, stored) == before
        }),
{
}

/// A write that the store refuses is answered with 500 and leaves the table
/// as it was: the one attempt is not repeated.
pub proof fn lemma_failed_write_changes_nothing(
    decoded: Option<Seq<(Seq<char>, Seq<char>)>>,
    request_id: u128,
    id: u128,
    at: i64,
    before: Seq<Row>,
)
    requires
        admission(decoded) is Ok,
    ensures
        ({
            let intake = intake_of(request_id, decoded, id, at);
            &&& intake is Accepted
            &&& final_status(intake, false) == 500
            &&& table_after(before, intake, false) == before
        }),
{
}

/// Two accepted requests, one after the other, whose emails differ leave two
/// rows more in the table, and the two rows differ. Each row carries the
/// identifier that was drawn for it.
pub proof fn lemma_distinct_emails_distinct_rows(
    first: Seq<(Seq<char>, Seq<char>)>,
    second: Seq<(Seq<char>, Seq<char>)>,
    first_request: u128,
    second_request: u128,
    first_id: u128,
    second_id: u128,
    first_at: i64,
    second_at: i64,
    before: Seq<Row>,
)
    requires
        admission(Some(first)) matches Ok(one) && admission(Some(second)) matches Ok(other)
            && one.email != other.email,
    ensures
        ({
            let earlier = intake_of(first_request, Some(first), first_id, first_at);
            let later = intake_of(second_request, Some(second), second_id, second_at);
            let between = table_after(before, earlier, true);
            let after = table_after(between, later, true);
            &&& earlier matches IntakeView::Accepted { row: one, .. }
            &&& later matches IntakeView::Accepted { row: other, .. }
            &&& earlier->row != later->row
            &&& earlier->row.id == first_id
            &&& later->row.id == second_id
            &&& after == before.push(earlier->row).push(later->row)
            &&& after.len() == before.len() + 2
        }),
{
}

} // verus!
