//! Bringing the backing database up: which step follows which, and how a
//! failed step is reported.
//!
//! The embedding program performs each step and reports what happened; the
//! decision what to do next is taken here. The steps run in the order
//! probe, create (only if the database is not known to exist), connect,
//! migrate. A failure of any step but the probe ends the start-up.

use crate::extension::AuthExtensionSQLite;
use crate::model::InitializationError;
use vstd::prelude::*;

verus! {

/// A step of the start-up that the embedding program performs.
#[derive(Debug, Clone, Copy, PartialEq, Eq, Structural)]
pub enum InitStep {
    /// Ask whether the database exists.
    ProbeDatabase,
    /// Create the database.
    CreateDatabase,
    /// Open the connection pool.
    Connect,
    /// Apply the pending schema migrations.
    Migrate,
}

/// What the embedding program reports of a step it performed.
#[derive(Debug, Clone, PartialEq, Eq)]
pub enum InitEvent {
    /// The probe's answer.
    Exists(bool),
    /// The step was carried out.
    Completed,
    /// The step failed, with the detail given.
    Failed(String),
}

/// An `InitEvent` as the contracts see it.
pub enum InitEventView {
    Exists(bool),
    Completed,
    Failed(Seq<char>),
}

impl View for InitEvent {
    type V = InitEventView;

    open spec fn view(&self) -> InitEventView {
        match *self {
            InitEvent::Exists(exists) => InitEventView::Exists(exists),
            InitEvent::Completed => InitEventView::Completed,
            InitEvent::Failed(detail) => InitEventView::Failed(detail@),
        }
    }
}

/// What follows a step.
#[derive(Debug, Clone, PartialEq, Eq)]
pub enum InitDecision {
    /// Perform this step next.
    Proceed(InitStep),
    /// The store is ready for requests.
    Ready,
    /// The start-up has failed; nothing more is done.
    Abort(InitializationError),
}

/// An `InitDecision` as the contracts see it.
pub enum InitDecisionView {
    Proceed(InitStep),
    Ready,
    Abort(Seq<char>),
}

impl View for InitDecision {
    type V = InitDecisionView;

    open spec fn view(&self) -> InitDecisionView {
        match *self {
            InitDecision::Proceed(step) => InitDecisionView::Proceed(step),
            InitDecision::Ready => InitDecisionView::Ready,
            InitDecision::Abort(error) => InitDecisionView::Abort(error@),
        }
    }
}

/// The words that open the message for a failure of `step`.
pub open spec fn failure_prefix(step: InitStep) -> Seq<char> {
    match step {
        InitStep::ProbeDatabase => Seq::empty(),
        InitStep::CreateDatabase => "Failed to create database: "@,
        InitStep::Connect => "Failed to connect to database: "@,
        InitStep::Migrate => "Failed to run migrations: "@,
    }
}

/// What follows a step other than the probe: the start-up is aborted with
/// the step's message if the step failed, and goes `onward` if it did not.
pub open spec fn unless_failed(
    step: InitStep,
    event: InitEventView,
    onward: InitDecisionView,
) -> InitDecisionView {
    match event {
        InitEventView::Failed(detail) => InitDecisionView::Abort(failure_prefix(step) + detail),
        _ => onward,
    }
}

/// What follows `step` after `event` was reported for it.
///
/// The probe cannot fail the start-up: whatever it reports other than
/// "exists", the database is created. Every other step is taken to have been
/// carried out unless it reports a failure.
pub open spec fn init_decision(step: InitStep, event: InitEventView) -> InitDecisionView {
    match step {
        InitStep::ProbeDatabase => if event == InitEventView::Exists(true) {
            InitDecisionView::Proceed(InitStep::Connect)
        } else {
            InitDecisionView::Proceed(InitStep::CreateDatabase)
        },
        InitStep::CreateDatabase => unless_failed(
            step,
            event,
            InitDecisionView::Proceed(InitStep::Connect),
        ),
        InitStep::Connect => unless_failed(
            step,
            event,
            InitDecisionView::Proceed(InitStep::Migrate),
        ),
        InitStep::Migrate => unless_failed(step, event, InitDecisionView::Ready),
    }
}

/// Where the database lives.
pub fn database_url() -> (url: &'static str)
    ensures
        url@ == "sqlite:auth.db"@,
{
    "sqlite:auth.db"
}

/// The step with which the start-up begins.
pub fn first_step() -> (step: InitStep)
    ensures
        step == InitStep::ProbeDatabase,
{
    InitStep::ProbeDatabase
}

/// The error that reports a failure of `step` with this detail.
fn failure(step: InitStep, detail: &str) -> (error: InitializationError)
    ensures
        error@ == failure_prefix(step) + detail@,
{
    let mut message = match step {
        InitStep::ProbeDatabase => String::new(),
        InitStep::CreateDatabase => "Failed to create database: ".to_owned(),
        InitStep::Connect => "Failed to connect to database: ".to_owned(),
        InitStep::Migrate => "Failed to run migrations: ".to_owned(),
    };
    message.append(detail);
    InitializationError { message }
}

impl AuthExtensionSQLite {
    /// Decides what follows `step` after `event` was reported for it.
    pub fn init_db(step: InitStep, event: InitEvent) -> (decision: InitDecision)
        ensures
            decision@ == init_decision(step, event@),
    {
        match step {
            InitStep::ProbeDatabase => match event {
                InitEvent::Exists(true) => InitDecision::Proceed(InitStep::Connect),
                _ => InitDecision::Proceed(InitStep::CreateDatabase),
            },
            _ => match event {
                InitEvent::Failed(detail) => InitDecision::Abort(failure(step, detail.as_str())),
                _ => match step {
                    InitStep::CreateDatabase => InitDecision::Proceed(InitStep::Connect),
                    InitStep::Connect => InitDecision::Proceed(InitStep::Migrate),
                    _ => InitDecision::Ready,
                },
            },
        }
    }
}

} // verus!
