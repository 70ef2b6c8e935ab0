//! Runs as a whole: the states that a run passes through while the caller
//! replies, and the order in which operations are asked for.

use vstd::prelude::*;
use crate::agent::agent::{PhaseView, Reply, RequestView, SessionView, initial, next, pending};
use crate::agent::operation::{
    Observation, OperationView, Outcome, PathState, Stage, stage_of,
};
use crate::agent::plan::{case_of, expanded, linking, plan_of, provisioning, settled};
use crate::parser::dto::ConfigView;
use crate::paths::{base_directory, sidecar};

verus! {

/// The state of a run that started with `home` after the caller has said
/// `replies`, one after the other.
pub open spec fn state_after(
    entries: Seq<ConfigView>,
    home: Option<Seq<char>>,
    replies: Seq<Reply>,
) -> SessionView
    decreases replies.len(),
{
    if replies.len() == 0 {
        initial(home)
    } else {
        next(entries, state_after(entries, home, replies.drop_last()), replies.last())
    }
}

/// What holds of every state that a run can be in: the plan that is being
/// performed is the one that the table gives for the entry and for what was
/// observed of it, and an operation of it is still awaited.
pub open spec fn well_formed(
    entries: Seq<ConfigView>,
    home: Option<Seq<char>>,
    state: SessionView,
) -> bool {
    &&& state.base == base_directory(home)
    &&& state.index <= entries.len()
    &&& state.phase matches PhaseView::Performing { observation, operations, done } ==> {
        &&& state.index < entries.len()
        &&& operations == plan_of(
            expanded(entries[state.index as int], state.base),
            observation,
        )
        &&& done < operations.len()
    }
}

/// The state after one more reply is the successor of the state before it.
pub proof fn lemma_state_after_one_more(
    entries: Seq<ConfigView>,
    home: Option<Seq<char>>,
    replies: Seq<Reply>,
    at: int,
)
    requires
        0 <= at < replies.len(),
    ensures
        state_after(entries, home, replies.take(at + 1)) == next(
            entries,
            state_after(entries, home, replies.take(at)),
            replies[at],
        ),
{
    assert(replies.take(at + 1).drop_last() =~= replies.take(at));
}

/// Every state that a run reaches is well formed.
pub proof fn lemma_reached_states_are_well_formed(
    entries: Seq<ConfigView>,
    home: Option<Seq<char>>,
    replies: Seq<Reply>,
)
    ensures
        well_formed(entries, home, state_after(entries, home, replies)),
    decreases replies.len(),
{
    if replies.len() > 0 {
        lemma_reached_states_are_well_formed(entries, home, replies.drop_last());
    }
}

/// An operation other than the first of a plan is asked for only after the
/// one before it was asked for and completed successfully: if the run awaits
/// the operation number `done > 0` after `at` replies, then at some earlier
/// point it awaited the operation number `done - 1` of the same entry and was
/// told that it had succeeded.
pub proof fn law_operation_follows_success(
    entries: Seq<ConfigView>,
    home: Option<Seq<char>>,
    replies: Seq<Reply>,
    at: int,
) -> (earlier: int)
    requires
        0 <= at <= replies.len(),
        state_after(entries, home, replies.take(at)).phase matches PhaseView::Performing {
            done,
            ..
        } && done > 0,
    ensures
        0 <= earlier < at,
        replies[earlier] == Reply::Completed(true),
        state_after(entries, home, replies.take(at)).phase matches PhaseView::Performing {
            observation,
            operations,
            done,
        } && state_after(entries, home, replies.take(earlier)) == (SessionView {
            phase: PhaseView::Performing { observation, operations, done: (done - 1) as nat },
            ..state_after(entries, home, replies.take(at))
        }),
    decreases at,
{
    let now = state_after(entries, home, replies.take(at));
    if at == 0 {
        assert(replies.take(0).len() == 0);
        0
    } else {
        let before = state_after(entries, home, replies.take(at - 1));
        lemma_state_after_one_more(entries, home, replies, at - 1);
        if before == now {
            law_operation_follows_success(entries, home, replies, at - 1)
        } else {
            at - 1
        }
    }
}

/// Every operation of a plan that comes before the awaited one was asked for
/// and completed successfully at some earlier point of the run.
pub proof fn law_earlier_operations_succeeded(
    entries: Seq<ConfigView>,
    home: Option<Seq<char>>,
    replies: Seq<Reply>,
    at: int,
    position: nat,
) -> (earlier: int)
    requires
        0 <= at <= replies.len(),
        state_after(entries, home, replies.take(at)).phase matches PhaseView::Performing {
            done,
            ..
        } && position < done,
    ensures
        0 <= earlier < at,
        replies[earlier] == Reply::Completed(true),
        state_after(entries, home, replies.take(at)).phase matches PhaseView::Performing {
            observation,
            operations,
            ..
        } && state_after(entries, home, replies.take(earlier)) == (SessionView {
            phase: PhaseView::Performing { observation, operations, done: position },
            ..state_after(entries, home, replies.take(at))
        }),
    decreases at,
{
    let previous = law_operation_follows_success(entries, home, replies, at);
    let done = state_after(entries, home, replies.take(at)).phase->Performing_done;
    if position + 1 == done {
        previous
    } else {
        law_earlier_operations_succeeded(entries, home, replies, previous, position)
    }
}

/// The state that follows `state` when the caller reports `count` successes
/// in a row.
pub open spec fn after_successes(entries: Seq<ConfigView>, state: SessionView, count: nat)
    -> SessionView
    decreases count,
{
    if count == 0 {
        state
    } else {
        next(
            entries,
            after_successes(entries, state, (count - 1) as nat),
            Reply::Completed(true),
        )
    }
}

/// While the caller reports successes, a run goes through the plan of the
/// observed entry one operation after the other.
proof fn lemma_successes_advance(
    entries: Seq<ConfigView>,
    state: SessionView,
    observation: Observation,
    count: nat,
)
    requires
        state.index < entries.len(),
        state.phase is Observing,
        count < plan_of(expanded(entries[state.index as int], state.base), observation).len(),
    ensures
        after_successes(entries, next(entries, state, Reply::Observed(observation)), count)
            == (SessionView {
            phase: PhaseView::Performing {
                observation,
                operations: plan_of(
                    expanded(entries[state.index as int], state.base),
                    observation,
                ),
                done: count,
            },
            ..state
        }),
    decreases count,
{
    if count > 0 {
        lemma_successes_advance(entries, state, observation, (count - 1) as nat);
    }
}

/// An entry is reconciled by its plan, and fails fast: once it has been
/// observed, the run asks for the operations of its plan in order for as long
/// as each is reported to have succeeded. After the last it reports how the
/// entry has settled; a failure instead ends the entry at once, at the stage
/// of the operation that failed.
pub proof fn law_run_follows_plan(
    entries: Seq<ConfigView>,
    state: SessionView,
    observation: Observation,
)
    requires
        state.index < entries.len(),
        state.phase is Observing,
    ensures
        ({
            let entry = entries[state.index as int];
            let operations = plan_of(expanded(entry, state.base), observation);
            let started = next(entries, state, Reply::Observed(observation));
            &&& forall|count: nat|
                count < operations.len() ==> #[trigger] pending(
                    entries,
                    after_successes(entries, started, count),
                ) == RequestView::Perform(operations[count as int])
            &&& forall|count: nat|
                count < operations.len() ==> #[trigger] next(
                    entries,
                    after_successes(entries, started, count),
                    Reply::Completed(false),
                ) == (SessionView {
                    phase: PhaseView::Reporting {
                        outcome: Outcome::Failed(stage_of(operations[count as int])),
                    },
                    ..state
                })
            &&& after_successes(entries, started, operations.len()) == (SessionView {
                phase: PhaseView::Reporting {
                    outcome: settled(case_of(observation, entry.repo is Some)),
                },
                ..state
            })
        }),
{
    let entry = entries[state.index as int];
    let operations = plan_of(expanded(entry, state.base), observation);
    let started = next(entries, state, Reply::Observed(observation));
    assert forall|count: nat| count < operations.len() implies #[trigger] pending(
        entries,
        after_successes(entries, started, count),
    ) == RequestView::Perform(operations[count as int]) && #[trigger] next(
        entries,
        after_successes(entries, started, count),
        Reply::Completed(false),
    ) == (SessionView {
        phase: PhaseView::Reporting {
            outcome: Outcome::Failed(stage_of(operations[count as int])),
        },
        ..state
    }) by {
        lemma_successes_advance(entries, state, observation, count);
    }
    if operations.len() > 0 {
        lemma_successes_advance(entries, state, observation, (operations.len() - 1) as nat);
    }
}

/// A link is never asked for before the content is in place: when the run
/// asks for the link of an entry whose target was observed absent, it has at
/// an earlier point asked for the provisioning step of that entry, a clone
/// where a repository is declared and a copy otherwise, and was told that it
/// had succeeded.
pub proof fn law_link_follows_provisioning(
    entries: Seq<ConfigView>,
    home: Option<Seq<char>>,
    replies: Seq<Reply>,
    at: int,
) -> (earlier: int)
    requires
        0 <= at <= replies.len(),
        state_after(entries, home, replies.take(at)).phase matches PhaseView::Performing {
            observation,
            operations,
            done,
        } && observation.target == PathState::Absent && operations[done as int]
            is CreateSymlink,
    ensures
        0 <= earlier < at,
        replies[earlier] == Reply::Completed(true),
        state_after(entries, home, replies.take(earlier)).index == state_after(
            entries,
            home,
            replies.take(at),
        ).index,
        state_after(entries, home, replies.take(at)).index < entries.len(),
        pending(entries, state_after(entries, home, replies.take(earlier)))
            == RequestView::Perform(
            provisioning(
                expanded(
                    entries[state_after(entries, home, replies.take(at)).index as int],
                    base_directory(home),
                ),
            ),
        ),
        pending(entries, state_after(entries, home, replies.take(at))) == RequestView::Perform(
            linking(
                expanded(
                    entries[state_after(entries, home, replies.take(at)).index as int],
                    base_directory(home),
                ),
            ),
        ),
{
    let now = state_after(entries, home, replies.take(at));
    lemma_reached_states_are_well_formed(entries, home, replies.take(at));
    let done = now.phase->Performing_done;
    assert(done > 0);
    law_earlier_operations_succeeded(entries, home, replies, at, 0)
}

/// Content at the link location is set aside before it is removed: when the
/// run asks for the removal of what was set aside, it has at an earlier point
/// asked for the content at the link location to be renamed aside, and was
/// told that this had succeeded.
pub proof fn law_removal_follows_setting_aside(
    entries: Seq<ConfigView>,
    home: Option<Seq<char>>,
    replies: Seq<Reply>,
    at: int,
) -> (earlier: int)
    requires
        0 <= at <= replies.len(),
        state_after(entries, home, replies.take(at)).phase matches PhaseView::Performing {
            operations,
            done,
            ..
        } && operations[done as int] is RemoveTree,
    ensures
        0 <= earlier < at,
        replies[earlier] == Reply::Completed(true),
        state_after(entries, home, replies.take(earlier)).index == state_after(
            entries,
            home,
            replies.take(at),
        ).index,
        state_after(entries, home, replies.take(at)).index < entries.len(),
        pending(entries, state_after(entries, home, replies.take(earlier)))
            == RequestView::Perform(
            OperationView::RenameAside {
                path: expanded(
                    entries[state_after(entries, home, replies.take(at)).index as int],
                    base_directory(home),
                ).external,
            },
        ),
        pending(entries, state_after(entries, home, replies.take(at))) == RequestView::Perform(
            OperationView::RemoveTree {
                path: sidecar(
                    expanded(
                        entries[state_after(entries, home, replies.take(at)).index as int],
                        base_directory(home),
                    ).external,
                ),
            },
        ),
{
    lemma_reached_states_are_well_formed(entries, home, replies.take(at));
    law_operation_follows_success(entries, home, replies, at)
}

/// Content at the link location is removed before the link is made: when the
/// run asks for the link of an entry whose link location was observed to hold
/// content, it has at an earlier point asked for the removal of what was set
/// aside, and was told that it had succeeded.
pub proof fn law_link_follows_removal(
    entries: Seq<ConfigView>,
    home: Option<Seq<char>>,
    replies: Seq<Reply>,
    at: int,
) -> (earlier: int)
    requires
        0 <= at <= replies.len(),
        state_after(entries, home, replies.take(at)).phase matches PhaseView::Performing {
            observation,
            operations,
            done,
        } && observation.external == PathState::RegularOrDirectory && operations[done as int]
            is CreateSymlink,
    ensures
        0 <= earlier < at,
        replies[earlier] == Reply::Completed(true),
        state_after(entries, home, replies.take(earlier)).index == state_after(
            entries,
            home,
            replies.take(at),
        ).index,
        state_after(entries, home, replies.take(at)).index < entries.len(),
        pending(entries, state_after(entries, home, replies.take(earlier)))
            == RequestView::Perform(
            OperationView::RemoveTree {
                path: sidecar(
                    expanded(
                        entries[state_after(entries, home, replies.take(at)).index as int],
                        base_directory(home),
                    ).external,
                ),
            },
        ),
        pending(entries, state_after(entries, home, replies.take(at))) == RequestView::Perform(
            linking(
                expanded(
                    entries[state_after(entries, home, replies.take(at)).index as int],
                    base_directory(home),
                ),
            ),
        ),
{
    lemma_reached_states_are_well_formed(entries, home, replies.take(at));
    law_operation_follows_success(entries, home, replies, at)
}

/// An entry for which nothing is found at either path and no repository is
/// declared ends as a configuration failure as soon as it is observed, and
/// no operation is asked for: whatever the caller says next, the run stays
/// at the report or goes on to the next entry.
pub proof fn law_invalid_config_changes_nothing(
    entries: Seq<ConfigView>,
    state: SessionView,
    observation: Observation,
    reply: Reply,
)
    requires
        state.index < entries.len(),
        state.phase is Observing,
        observation.target == PathState::Absent,
        observation.external == PathState::Absent,
        entries[state.index as int].repo is None,
    ensures
        next(entries, state, Reply::Observed(observation)) == (SessionView {
            phase: PhaseView::Reporting { outcome: Outcome::Failed(Stage::Configuration) },
            ..state
        }),
        pending(entries, next(entries, state, Reply::Observed(observation))) is Report,
        next(entries, next(entries, state, Reply::Observed(observation)), reply) == next(
            entries,
            state,
            Reply::Observed(observation),
        ) || next(entries, next(entries, state, Reply::Observed(observation)), reply)
            == (SessionView { index: state.index + 1, ..state }),
{
}

/// An entry whose target holds content and whose link location is a link is
/// skipped as soon as it is observed, and no operation is asked for: whatever
/// the caller says next, the run stays at the report or goes on to the next
/// entry.
pub proof fn law_linked_entry_is_skipped(
    entries: Seq<ConfigView>,
    state: SessionView,
    observation: Observation,
    reply: Reply,
)
    requires
        state.index < entries.len(),
        state.phase is Observing,
        observation.target != PathState::Absent,
        observation.external == PathState::Symlink,
    ensures
        next(entries, state, Reply::Observed(observation)) == (SessionView {
            phase: PhaseView::Reporting { outcome: Outcome::Skipped },
            ..state
        }),
        pending(entries, next(entries, state, Reply::Observed(observation))) is Report,
        next(entries, next(entries, state, Reply::Observed(observation)), reply) == next(
            entries,
            state,
            Reply::Observed(observation),
        ) || next(entries, next(entries, state, Reply::Observed(observation)), reply)
            == (SessionView { index: state.index + 1, ..state }),
{
}

} // verus!
