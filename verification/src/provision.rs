//! Setting up a database of its own for one run: a name that no other run
//! has, the statement that creates it, and the order of the steps.
//!
//! The steps themselves (connecting, executing, migrating) are carried out by
//! the caller, who reports after each one whether it succeeded.

use crate::identifier::hyphenated;
use crate::identifier::hyphenated_text;
use crate::identifier::is_random_uuid;
use crate::identifier::lemma_hyphenated_injective;
use crate::identifier::random_uuid;
use vstd::prelude::*;

verus! {

/// A step of setting up a database, in the order in which the steps are taken.
#[derive(Debug, Clone, Copy, PartialEq, Eq, Structural)]
pub enum Stage {
    /// Connect to the server without selecting a database.
    ConnectToServer,
    /// Create the database.
    CreateDatabase,
    /// Open a pool against the new database.
    ConnectToDatabase,
    /// Run all pending migrations, in version order.
    Migrate,
}

/// How far setting up has come.
#[derive(Debug, Clone, Copy, PartialEq, Eq, Structural)]
pub enum Progress {
    /// The stage is the next to be carried out.
    Pending(Stage),
    /// Every stage succeeded.
    Ready,
    /// The stage failed; nothing further is attempted.
    Failed(Stage),
}

/// A stage failed, which ends the run.
#[derive(Debug, Clone, Copy, PartialEq, Eq, Structural)]
pub struct ProvisioningError {
    pub stage: Stage,
}

/// What the caller is to do next, as plain values.
pub enum ActionView {
    ConnectToServer,
    Execute(Seq<char>),
    ConnectToDatabase(Seq<char>),
    Migrate,
    Finish,
    Abort(ProvisioningError),
}

/// What the caller is to do next.
pub enum Action {
    /// Connect to the server without selecting a database.
    ConnectToServer,
    /// Execute the statement on that connection.
    Execute(String),
    /// Open a pool against the database of this name.
    ConnectToDatabase(String),
    /// Run all pending migrations through that pool, in version order.
    Migrate,
    /// The database is ready.
    Finish,
    /// Give up: the stage failed.
    Abort(ProvisioningError),
}

impl View for Action {
    type V = ActionView;

    open spec fn view(&self) -> ActionView {
        match self {
            Action::ConnectToServer => ActionView::ConnectToServer,
            Action::Execute(statement) => ActionView::Execute(statement@),
            Action::ConnectToDatabase(name) => ActionView::ConnectToDatabase(name@),
            Action::Migrate => ActionView::Migrate,
            Action::Finish => ActionView::Finish,
            Action::Abort(error) => ActionView::Abort(*error),
        }
    }
}

/// A run of setting up, as plain values.
pub struct Run {
    pub name: Seq<char>,
    pub progress: Progress,
}

/// The statement that creates the database `name`.
pub open spec fn create_statement(name: Seq<char>) -> Seq<char> {
    "CREATE DATABASE \""@ + name + "\";"@
}

/// Where a run starts.
pub open spec fn start() -> Progress {
    Progress::Pending(Stage::ConnectToServer)
}

/// The progress after the pending stage has ended; `succeeded` says how.
/// A failure is final, and so is readiness.
pub open spec fn advance(progress: Progress, succeeded: bool) -> Progress {
    match progress {
        Progress::Pending(stage) => if !succeeded {
            Progress::Failed(stage)
        } else {
            match stage {
                Stage::ConnectToServer => Progress::Pending(Stage::CreateDatabase),
                Stage::CreateDatabase => Progress::Pending(Stage::ConnectToDatabase),
                Stage::ConnectToDatabase => Progress::Pending(Stage::Migrate),
                Stage::Migrate => Progress::Ready,
            }
        },
        Progress::Ready => Progress::Ready,
        Progress::Failed(stage) => Progress::Failed(stage),
    }
}

/// The progress of a run after the first `count` of its stages have ended,
/// each as `outcomes` says.
pub open spec fn progress_after(outcomes: Seq<bool>, count: nat) -> Progress
    decreases count,
{
    if count == 0 {
        start()
    } else {
        advance(progress_after(outcomes, (count - 1) as nat), outcomes[count - 1])
    }
}

/// What is to be done next in a run.
pub open spec fn action_of(run: Run) -> ActionView {
    match run.progress {
        Progress::Pending(Stage::ConnectToServer) => ActionView::ConnectToServer,
        Progress::Pending(Stage::CreateDatabase) => ActionView::Execute(create_statement(run.name)),
        Progress::Pending(Stage::ConnectToDatabase) => ActionView::ConnectToDatabase(run.name),
        Progress::Pending(Stage::Migrate) => ActionView::Migrate,
        Progress::Ready => ActionView::Finish,
        Progress::Failed(stage) => ActionView::Abort(ProvisioningError { stage }),
    }
}

/// What the failure of a stage is reported as.
pub open spec fn failure_text(stage: Stage) -> Seq<char> {
    match stage {
        Stage::ConnectToServer => "Failed to connect to Postgres."@,
        Stage::CreateDatabase => "Failed to create database."@,
        Stage::ConnectToDatabase => "Failed to connect to Postgres."@,
        Stage::Migrate => "Failed migrating the database!"@,
    }
}

impl ProvisioningError {
    /// What the failure is reported as.
    pub fn message(&self) -> (text: String)
        ensures
            text@ == failure_text(self.stage),
    {
        match self.stage {
            Stage::ConnectToServer => String::from_str("Failed to connect to Postgres."),
            Stage::CreateDatabase => String::from_str("Failed to create database."),
            Stage::ConnectToDatabase => String::from_str("Failed to connect to Postgres."),
            Stage::Migrate => String::from_str("Failed migrating the database!"),
        }
    }
}

/// Writes the statement that creates the database `name`.
pub fn create_database_statement(name: &str) -> (statement: String)
    ensures
        statement@ == create_statement(name@),
{
    let mut statement = String::from_str("CREATE DATABASE \"");
    statement.append(name);
    statement.append("\";");
    statement
}

/// The name of the database that belongs to `token`: the token in hyphenated
/// form.
pub fn database_name(token: u128) -> (name: String)
    ensures
        name@ == hyphenated(token),
{
    hyphenated_text(token)
}

/// One run of setting up a database.
pub struct Provisioner {
    name: String,
    progress: Progress,
}

impl View for Provisioner {
    type V = Run;

    closed spec fn view(&self) -> Run {
        Run { name: self.name@, progress: self.progress }
    }
}

impl Provisioner {
    /// Starts a run under a freshly drawn name.
    pub fn new() -> (r: Provisioner)
        ensures
            r@.progress == start(),
            exists|token: u128| is_random_uuid(token) && r@.name == #[trigger] hyphenated(token),
    {
        let token = random_uuid();
        Provisioner::with_token(token)
    }

    /// Starts a run for the database that belongs to `token`.
    pub fn with_token(token: u128) -> (r: Provisioner)
        ensures
            r@ == (Run { name: hyphenated(token), progress: start() }),
    {
        Provisioner { name: database_name(token), progress: Progress::Pending(Stage::ConnectToServer) }
    }

    /// The name of the database of this run.
    pub fn database_name(&self) -> (name: &str)
        ensures
            name@ == self@.name,
    {
        self.name.as_str()
    }

    /// How far the run has come.
    pub fn progress(&self) -> (progress: Progress)
        ensures
            progress == self@.progress,
    {
        self.progress
    }

    /// What is to be done next.
    pub fn action(&self) -> (action: Action)
        ensures
            action@ == action_of(self@),
    {
        match self.progress {
            Progress::Pending(Stage::ConnectToServer) => Action::ConnectToServer,
            Progress::Pending(Stage::CreateDatabase) => Action::Execute(
                create_database_statement(self.name.as_str()),
            ),
            Progress::Pending(Stage::ConnectToDatabase) => Action::ConnectToDatabase(
                self.name.clone(),
            ),
            Progress::Pending(Stage::Migrate) => Action::Migrate,
            Progress::Ready => Action::Finish,
            Progress::Failed(stage) => Action::Abort(ProvisioningError { stage }),
        }
    }

    /// Takes note of how the pending stage ended. The name stays.
    pub fn record(&mut self, succeeded: bool)
        ensures
            final(self)@ == (Run {
                name: old(self)@.name,
                progress: advance(old(self)@.progress, succeeded),
            }),
    {
        let next = match self.progress {
            Progress::Pending(stage) => if !succeeded {
                Progress::Failed(stage)
            } else {
                match stage {
                    Stage::ConnectToServer => Progress::Pending(Stage::CreateDatabase),
                    Stage::CreateDatabase => Progress::Pending(Stage::ConnectToDatabase),
                    Stage::ConnectToDatabase => Progress::Pending(Stage::Migrate),
                    Stage::Migrate => Progress::Ready,
                }
            },
            Progress::Ready => Progress::Ready,
            Progress::Failed(stage) => Progress::Failed(stage),
        };
        self.progress = next;
    }
}

/// A failure is final: whatever is reported afterwards, the run stays failed
/// at the same stage, so nothing is built on a half-made database.
pub proof fn lemma_failure_is_final(outcomes: Seq<bool>, failed: nat, later: nat, stage: Stage)
    requires
        failed <= later <= outcomes.len(),
        progress_after(outcomes, failed) == Progress::Failed(stage),
    ensures
        progress_after(outcomes, later) == Progress::Failed(stage),
    decreases later,
{
    if failed < later {
        lemma_failure_is_final(outcomes, failed, (later - 1) as nat, stage);
    }
}

/// Readiness is final.
pub proof fn lemma_ready_is_final(outcomes: Seq<bool>, ready: nat, later: nat)
    requires
        ready <= later <= outcomes.len(),
        progress_after(outcomes, ready) == Progress::Ready,
    ensures
        progress_after(outcomes, later) == Progress::Ready,
    decreases later,
{
    if ready < later {
        lemma_ready_is_final(outcomes, ready, (later - 1) as nat);
    }
}

/// A run is ready exactly when its four stages have all ended and each of
/// them succeeded.
pub proof fn lemma_ready_iff_all_stages_succeeded(outcomes: Seq<bool>, count: nat)
    requires
        count <= outcomes.len(),
    ensures
        progress_after(outcomes, count) == Progress::Ready <==> count >= 4 && outcomes[0]
            && outcomes[1] && outcomes[2] && outcomes[3],
{
    reveal_with_fuel(progress_after, 5);
    if count >= 4 {
        match progress_after(outcomes, 4) {
            Progress::Ready => lemma_ready_is_final(outcomes, 4, count),
            Progress::Failed(stage) => lemma_failure_is_final(outcomes, 4, count, stage),
            Progress::Pending(_) => {},
        }
    }
}

/// The stages are taken in one order: connect to the server, create the
/// database, connect to the database, migrate. While all stages so far have
/// succeeded, the run waits at the stage of that place.
pub proof fn lemma_stages_in_order(outcomes: Seq<bool>, count: nat)
    requires
        count < 4,
        count <= outcomes.len(),
        forall|i: int| 0 <= i < count ==> outcomes[i],
    ensures
        progress_after(outcomes, count) == Progress::Pending(
            if count == 0 {
                Stage::ConnectToServer
            } else if count == 1 {
                Stage::CreateDatabase
            } else if count == 2 {
                Stage::ConnectToDatabase
            } else {
                Stage::Migrate
            },
        ),
{
    reveal_with_fuel(progress_after, 5);
}

/// The first stage that fails ends the run at that stage, whatever is
/// reported afterwards.
pub proof fn lemma_first_failure_ends_run(outcomes: Seq<bool>, first: nat, count: nat)
    requires
        first < 4,
        first < count <= outcomes.len(),
        !outcomes[first as int],
        forall|i: int| 0 <= i < first ==> outcomes[i],
    ensures
        progress_after(outcomes, first) matches Progress::Pending(stage) && progress_after(
            outcomes,
            count,
        ) == Progress::Failed(stage),
{
    lemma_stages_in_order(outcomes, first);
    let stage = progress_after(outcomes, first)->Pending_0;
    assert(progress_after(outcomes, first + 1) == Progress::Failed(stage));
    lemma_failure_is_final(outcomes, first + 1, count, stage);
}

/// Runs under different tokens work on different databases: their names
/// differ, and so do the statements that create them.
pub proof fn lemma_distinct_tokens_distinct_databases(a: u128, b: u128)
    requires
        a != b,
    ensures
        hyphenated(a) != hyphenated(b),
        create_statement(hyphenated(a)) != create_statement(hyphenated(b)),
{
    if hyphenated(a) == hyphenated(b) {
        lemma_hyphenated_injective(a, b);
    }
    if create_statement(hyphenated(a)) == create_statement(hyphenated(b)) {
        lemma_statement_injective(hyphenated(a), hyphenated(b));
    }
}

/// The statement names its database: two names with the same statement are
/// the same name.
pub proof fn lemma_statement_injective(first: Seq<char>, second: Seq<char>)
    requires
        create_statement(first) == create_statement(second),
    ensures
        first == second,
{
    let head = "CREATE DATABASE \""@;
    assert(create_statement(first).len() == head.len() + first.len() + "\";"@.len());
    assert(create_statement(second).len() == head.len() + second.len() + "\";"@.len());
    assert forall|i: int| 0 <= i < first.len() implies first[i] == second[i] by {
        assert(create_statement(first)[head.len() + i] == first[i]);
        assert(create_statement(second)[head.len() + i] == second[i]);
    }
    assert(first =~= second);
}

} // verus!
