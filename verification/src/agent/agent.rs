//! A run over the declared entries, as a machine that is driven from outside:
//! it asks for one thing at a time and is told what came of it.

use vstd::prelude::*;
use crate::agent::operation::{Observation, Operation, OperationView, Outcome, stage_of, views_of};
use crate::agent::plan::{case_of, classify, expanded, plan, plan_of, settle, settled};
use crate::agent::report::{diagnostic, report_line};
use crate::parser::dto::ConfigView;
use crate::parser::parser::Parser;
use crate::paths::{base_directory, expand_tilde, resolve_base};

verus! {

/// What the caller tells a run.
#[derive(Clone, Copy, Debug, PartialEq, Eq, Structural)]
pub enum Reply {
    /// Nothing to tell: at the start of a run, or after a report was delivered.
    Acknowledged,
    /// What the probes of the two paths found.
    Observed(Observation),
    /// Whether the operation completed.
    Completed(bool),
}

/// A request, with every string as a sequence of characters.
pub enum RequestView {
    Probe { target: Seq<char>, external: Seq<char> },
    Perform(OperationView),
    Report { name: Seq<char>, outcome: Outcome, line: Seq<char> },
    Finish,
}

/// What a run asks of the caller.
#[derive(Clone, Debug)]
pub enum Request {
    /// Probe `target` through links and `external` without following it.
    Probe { target: String, external: String },
    /// Perform the operation and say whether it completed.
    Perform(Operation),
    /// Deliver `line`, which says that the entry `name` ended in `outcome`.
    Report { name: String, outcome: Outcome, line: String },
    /// Every entry has been dealt with.
    Finish,
}

impl View for Request {
    type V = RequestView;

    open spec fn view(&self) -> RequestView {
        match *self {
            Request::Probe { target, external } => RequestView::Probe {
                target: target@,
                external: external@,
            },
            Request::Perform(operation) => RequestView::Perform(operation@),
            Request::Report { name, outcome, line } => RequestView::Report {
                name: name@,
                outcome,
                line: line@,
            },
            Request::Finish => RequestView::Finish,
        }
    }
}

/// Where a run stands within the current entry.
pub enum PhaseView {
    /// The entry has not been observed yet.
    Observing,
    /// The first `done` operations of the plan completed; the next is awaited.
    Performing { observation: Observation, operations: Seq<OperationView>, done: nat },
    /// The entry ended and its report has not been delivered yet.
    Reporting { outcome: Outcome },
}

/// The state of a run.
pub struct SessionView {
    /// What `~` stands for in the paths of this run.
    pub base: Seq<char>,
    /// The number of entries that have been dealt with.
    pub index: nat,
    pub phase: PhaseView,
}

/// The state in which every run starts.
pub open spec fn initial(home: Option<Seq<char>>) -> SessionView {
    SessionView { base: base_directory(home), index: 0, phase: PhaseView::Observing }
}

/// The state that follows the observation of `entry`: its plan is fixed here,
/// and an entry without operations ends at once.
pub open spec fn observed(state: SessionView, entry: ConfigView, observation: Observation)
    -> SessionView {
    let operations = plan_of(expanded(entry, state.base), observation);
    SessionView {
        phase: if operations.len() == 0 {
            PhaseView::Reporting { outcome: settled(case_of(observation, entry.repo is Some)) }
        } else {
            PhaseView::Performing { observation, operations, done: 0 }
        },
        ..state
    }
}

/// The state that follows the completion of the awaited operation: a failure
/// ends the entry at that operation's stage, a success moves on to the next
/// operation, and the entry has converged after the last.
pub open spec fn completed(
    state: SessionView,
    observation: Observation,
    operations: Seq<OperationView>,
    done: nat,
    succeeded: bool,
) -> SessionView {
    SessionView {
        phase: if !succeeded {
            PhaseView::Reporting { outcome: Outcome::Failed(stage_of(operations[done as int])) }
        } else if done + 1 < operations.len() {
            PhaseView::Performing { observation, operations, done: done + 1 }
        } else {
            PhaseView::Reporting { outcome: Outcome::Converged }
        },
        ..state
    }
}

/// The state that follows `state` when the caller says `reply`. A reply that
/// does not answer what was asked leaves the state as it is, and so does every
/// reply once all entries have been dealt with.
pub open spec fn next(entries: Seq<ConfigView>, state: SessionView, reply: Reply) -> SessionView {
    if state.index >= entries.len() {
        state
    } else {
        match (state.phase, reply) {
            (PhaseView::Observing, Reply::Observed(observation)) => observed(
                state,
                entries[state.index as int],
                observation,
            ),
            (
                PhaseView::Performing { observation, operations, done },
                Reply::Completed(succeeded),
            ) => completed(state, observation, operations, done, succeeded),
            (PhaseView::Reporting { .. }, Reply::Acknowledged) => SessionView {
                index: state.index + 1,
                phase: PhaseView::Observing,
                ..state
            },
            _ => state,
        }
    }
}

/// What a run in `state` asks of the caller.
pub open spec fn pending(entries: Seq<ConfigView>, state: SessionView) -> RequestView {
    if state.index >= entries.len() {
        RequestView::Finish
    } else {
        let entry = expanded(entries[state.index as int], state.base);
        match state.phase {
            PhaseView::Observing => RequestView::Probe {
                target: entry.target,
                external: entry.external,
            },
            PhaseView::Performing { operations, done, .. } => RequestView::Perform(
                operations[done as int],
            ),
            PhaseView::Reporting { outcome } => RequestView::Report {
                name: entry.name,
                outcome,
                line: diagnostic(entry.name, outcome),
            },
        }
    }
}

/// Where a run stands within the current entry, with the plan as it is held.
enum Phase {
    Observing,
    Performing { observation: Observation, operations: Vec<Operation>, done: usize },
    Reporting { outcome: Outcome },
}

/// How the phase of a run changes when a reply is taken in.
enum Change {
    Stay,
    Enter(Phase),
    Advance,
    Leave,
}

/// Counts one more operation of the plan as completed.
fn step_forward(phase: &mut Phase)
    requires
        *old(phase) matches Phase::Performing { operations, done, .. } && done + 1
            < operations.len(),
    ensures
        *old(phase) matches Phase::Performing { observation, operations, done } && *final(phase)
            == (Phase::Performing { observation, operations, done: (done + 1) as usize }),
    no_unwind
{
    match phase {
        Phase::Performing { done, .. } => {
            *done = *done + 1;
        },
        _ => {},
    }
}

/// The state of a run: which entry it is at, and how far within it.
pub struct Session {
    base: String,
    index: usize,
    phase: Phase,
}

impl Session {
    #[verifier::type_invariant]
    spec fn operation_awaited(self) -> bool {
        self.phase matches Phase::Performing { operations, done, .. } ==> done < operations.len()
    }

    /// Starts a run in which `~` stands for `home`.
    pub fn new(home: Option<String>) -> (session: Session)
        ensures
            session@ == initial(
                match home {
                    Some(directory) => Some(directory@),
                    None => None,
                },
            ),
    {
        Session { base: resolve_base(home), index: 0, phase: Phase::Observing }
    }
}

impl View for Session {
    type V = SessionView;

    closed spec fn view(&self) -> SessionView {
        SessionView {
            base: self.base@,
            index: self.index as nat,
            phase: match self.phase {
                Phase::Observing => PhaseView::Observing,
                Phase::Performing { observation, operations, done } => PhaseView::Performing {
                    observation,
                    operations: views_of(operations@),
                    done: done as nat,
                },
                Phase::Reporting { outcome } => PhaseView::Reporting { outcome },
            },
        }
    }
}

/// The driver of a run over the entries of a loaded configuration.
pub struct Agent<'a> {
    pub parser: &'a Parser,
}

impl<'a> Agent<'a> {
    /// An agent for the entries that `parser` holds.
    pub fn new(parser: &'a Parser) -> (agent: Self)
        ensures
            agent.parser == parser,
    {
        Self { parser }
    }

    /// Advances a run by one step: takes in `reply`, then says what is asked
    /// next. Called with `Reply::Acknowledged` on a fresh session, it asks for
    /// the first entry to be probed.
    pub fn run(&self, session: &mut Session, reply: Reply) -> (request: Request)
        ensures
            final(session)@ == next(self.parser.data@, old(session)@, reply),
            request@ == pending(self.parser.data@, final(session)@),
    {
        self.take_in(session, reply);
        self.ask(session)
    }

    /// Moves `session` to the state that follows when the caller says `reply`.
    fn take_in(&self, session: &mut Session, reply: Reply)
        ensures
            final(session)@ == next(self.parser.data@, old(session)@, reply),
    {
        proof {
            use_type_invariant(&*session);
        }
        let entries = &self.parser.data.item;
        if session.index >= entries.len() {
            return ;
        }
        let entry = &entries[session.index];
        assert(entry@ == self.parser.data@[session.index as int]);
        let change = match (&session.phase, reply) {
            (Phase::Observing, Reply::Observed(observation)) => {
                let operations = plan(entry, session.base.as_str(), observation);
                if operations.len() == 0 {
                    Change::Enter(
                        Phase::Reporting {
                            outcome: settle(classify(observation, entry.repo.is_some())),
                        },
                    )
                } else {
                    Change::Enter(Phase::Performing { observation, operations, done: 0 })
                }
            },
            (Phase::Performing { operations, done, .. }, Reply::Completed(succeeded)) => {
                if !succeeded {
                    Change::Enter(
                        Phase::Reporting { outcome: Outcome::Failed(operations[*done].stage()) },
                    )
                } else if *done + 1 < operations.len() {
                    Change::Advance
                } else {
                    Change::Enter(Phase::Reporting { outcome: Outcome::Converged })
                }
            },
            (Phase::Reporting { .. }, Reply::Acknowledged) => Change::Leave,
            _ => Change::Stay,
        };
        match change {
            Change::Stay => {},
            Change::Enter(phase) => {
                session.phase = phase;
            },
            Change::Advance => {
                step_forward(&mut session.phase);
            },
            Change::Leave => {
                session.phase = Phase::Observing;
                session.index = session.index + 1;
            },
        }
    }

    /// Says what a run in the state of `session` asks of the caller.
    fn ask(&self, session: &Session) -> (request: Request)
        ensures
            request@ == pending(self.parser.data@, session@),
    {
        proof {
            use_type_invariant(session);
        }
        let entries = &self.parser.data.item;
        if session.index >= entries.len() {
            return Request::Finish;
        }
        let entry = &entries[session.index];
        assert(entry@ == self.parser.data@[session.index as int]);
        let base = session.base.as_str();
        match &session.phase {
            Phase::Observing => Request::Probe {
                target: expand_tilde(entry.target.as_str(), base),
                external: expand_tilde(entry.external.as_str(), base),
            },
            Phase::Performing { operations, done, .. } => Request::Perform(
                operations[*done].duplicate(),
            ),
            Phase::Reporting { outcome } => Request::Report {
                name: entry.name.clone(),
                outcome: *outcome,
                line: report_line(entry.name.as_str(), *outcome),
            },
        }
    }
}

} // verus!
