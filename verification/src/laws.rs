//! What holds of every run, whatever the caller reports to it.
//!
//! A run is followed here through the events reported to it so far: it
//! begins in the starting directory and takes the events in one by one.

use vstd::prelude::*;
use crate::command::{checkout_of, copy_of};
use crate::layout::{binding_root_of, include_root_of, lemma_layout_is_rooted, stamp_path_of};
use crate::paths::is_absolute;
use crate::pin::allow_list;
use crate::plan::{
    absorbed, answers, awaited, begun, rank, ActionView, Cursor, EventView, Outcome, RunView, Step,
};
use crate::stamp::{fingerprint_of, stamp_of};

verus! {

/// The run that began in `origin`, after `events` have been reported to it
/// in order.
pub open spec fn after(origin: Seq<char>, events: Seq<EventView>) -> RunView
    decreases events.len(),
{
    if events.len() == 0 {
        begun(origin)
    } else {
        absorbed(after(origin, events.drop_last()), events.last())
    }
}

/// The step that stands at position `place` of the script.
pub open spec fn step_at(place: int) -> Step {
    let entries = allow_list().len() as int;
    if place <= 0 {
        Step::Stage
    } else if place == 1 {
        Step::Fetch
    } else if place == 2 {
        Step::Toolchain
    } else if place == 3 {
        Step::Library
    } else if place < 4 + entries {
        Step::Vendor((place - 4) as usize)
    } else if place == 4 + entries {
        Step::Inspect
    } else if place == 5 + entries {
        Step::Stamp
    } else {
        Step::Cleanup
    }
}

/// Number of steps of the script.
pub open spec fn script_len() -> int {
    7 + allow_list().len() as int
}

/// A run awaits a step only after exactly as many events as the step has
/// steps before it, and only the step that the script has there.
proof fn lemma_awaited_step(origin: Seq<char>, events: Seq<EventView>)
    ensures
        after(origin, events).cursor matches Cursor::Awaiting(step) ==> {
            &&& is_absolute(origin)
            &&& events.len() < script_len()
            &&& step == step_at(events.len() as int)
            &&& rank(step) == events.len()
        },
    decreases events.len(),
{
    if events.len() > 0 {
        lemma_awaited_step(origin, events.drop_last());
    }
}

/// A run takes nothing in but the path of its workspace and the
/// fingerprint: where it began and where the binding crate lies never
/// change.
proof fn lemma_origin_is_kept(origin: Seq<char>, events: Seq<EventView>)
    ensures
        after(origin, events).origin == origin,
        after(origin, events).binding == binding_root_of(origin),
    decreases events.len(),
{
    if events.len() > 0 {
        lemma_origin_is_kept(origin, events.drop_last());
    }
}

/// A run that awaits a step has awaited a step after every shorter run of
/// the same events, and the next event answered that step.
proof fn lemma_awaiting_all_along(origin: Seq<char>, events: Seq<EventView>, count: int)
    requires
        after(origin, events).cursor is Awaiting,
        0 <= count < events.len(),
    ensures
        after(origin, events.take(count)).cursor matches Cursor::Awaiting(earlier) && answers(
            earlier,
            events[count],
        ),
    decreases events.len(),
{
    let shorter = events.drop_last();
    assert(after(origin, shorter).cursor is Awaiting);
    if count == events.len() - 1 {
        assert(events.take(count) =~= shorter);
    } else {
        lemma_awaiting_all_along(origin, shorter, count);
        assert(shorter.take(count) =~= events.take(count));
    }
}

/// A run that completed has awaited the last step after the events before
/// its first end, all of which were answered.
proof fn lemma_completed_through_cleanup(origin: Seq<char>, events: Seq<EventView>) -> (count: int)
    requires
        after(origin, events).cursor == Cursor::Ended(Outcome::Completed),
    ensures
        0 <= count < events.len(),
        after(origin, events.take(count)).cursor == Cursor::Awaiting(Step::Cleanup),
        answers(Step::Cleanup, events[count]),
    decreases events.len(),
{
    let shorter = events.drop_last();
    if after(origin, shorter).cursor is Ended {
        let count = lemma_completed_through_cleanup(origin, shorter);
        assert(shorter.take(count) =~= events.take(count));
        count
    } else {
        assert(events.take(events.len() - 1) =~= shorter);
        events.len() - 1
    }
}

/// The steps are taken in the order of the script, each only after all
/// those before it have succeeded.
///
/// Whenever a run awaits a step, the number of events reported so far is
/// the number of steps that the script has before that step; and after
/// each smaller number of events the run awaited the step that the script
/// has at that place, which the next event then reported as succeeded. So
/// the fetch is never awaited before staging has succeeded, neither build
/// before the fetch, no copy before both builds, and neither the listing
/// nor the stamp before every copy.
pub proof fn law_steps_in_order(origin: Seq<char>, events: Seq<EventView>, step: Step)
    requires
        after(origin, events).cursor == Cursor::Awaiting(step),
    ensures
        rank(step) == events.len(),
        step == step_at(events.len() as int),
        forall|count: int|
            0 <= count < events.len() ==> {
                &&& #[trigger] after(origin, events.take(count)).cursor == Cursor::Awaiting(
                    step_at(count),
                )
                &&& rank(step_at(count)) == count
                &&& answers(step_at(count), events[count])
            },
{
    lemma_awaited_step(origin, events);
    assert forall|count: int| 0 <= count < events.len() implies {
        &&& #[trigger] after(origin, events.take(count)).cursor == Cursor::Awaiting(step_at(count))
        &&& rank(step_at(count)) == count
        &&& answers(step_at(count), events[count])
    } by {
        lemma_awaiting_all_along(origin, events, count);
        lemma_awaited_step(origin, events.take(count));
    }
}

/// A run that completed took every step of the script, in order.
///
/// At least as many events were reported to it as the script has steps;
/// after each smaller number of events it awaited the step that the script
/// has at that place, and the next event reported that step as succeeded.
pub proof fn law_completed_run_took_every_step(origin: Seq<char>, events: Seq<EventView>)
    requires
        after(origin, events).cursor == Cursor::Ended(Outcome::Completed),
    ensures
        script_len() <= events.len(),
        forall|count: int|
            0 <= count < script_len() ==> {
                &&& #[trigger] after(origin, events.take(count)).cursor == Cursor::Awaiting(
                    step_at(count),
                )
                &&& answers(step_at(count), events[count])
            },
{
    let last = lemma_completed_through_cleanup(origin, events);
    let through = events.take(last);
    law_steps_in_order(origin, through, Step::Cleanup);
    assert forall|count: int| 0 <= count < script_len() implies {
        &&& #[trigger] after(origin, events.take(count)).cursor == Cursor::Awaiting(step_at(count))
        &&& answers(step_at(count), events[count])
    } by {
        if count < last {
            assert(through.take(count) =~= events.take(count));
            assert(after(origin, through.take(count)).cursor == Cursor::Awaiting(step_at(count)));
            assert(through[count] == events[count]);
        }
    }
}

/// Once a step has failed, no later step is ever taken.
///
/// If a run awaited `step` and the next event did not report its success,
/// then after these and any further events the run is either waiting for
/// the removal of the workspace or over, aborted at `step`. What it awaits
/// is that removal or nothing: never a command or a write.
pub proof fn law_failure_ends_the_work(
    origin: Seq<char>,
    events: Seq<EventView>,
    count: int,
    step: Step,
)
    requires
        0 <= count < events.len(),
        after(origin, events.take(count)).cursor == Cursor::Awaiting(step),
        !answers(step, events[count]),
    ensures
        ({
            let cursor = after(origin, events).cursor;
            cursor == Cursor::Closing(step) || cursor == Cursor::Ended(Outcome::Aborted(step))
        }),
        ({
            let run = after(origin, events);
            awaited(run) == (ActionView::RemoveWorkspace { path: run.workspace }) || awaited(run)
                == ActionView::Finish(Outcome::Aborted(step))
        }),
    decreases events.len(),
{
    let shorter = events.drop_last();
    if count == events.len() - 1 {
        assert(events.take(count) =~= shorter);
    } else {
        assert(shorter.take(count) =~= events.take(count));
        law_failure_ends_the_work(origin, shorter, count, step);
    }
}

/// The destination of the headers depends on the starting directory alone.
///
/// Whatever has been reported to a run, and so wherever its work is
/// carried out, the run holds the starting directory and the root of the
/// binding crate that it began with; every copy that it awaits goes to the
/// include root derived from them; and a run that awaits anything but its
/// end began in an absolute directory, so that this destination is an
/// absolute path under the starting directory.
pub proof fn law_destination_is_stable(origin: Seq<char>, events: Seq<EventView>)
    ensures
        after(origin, events).origin == origin,
        after(origin, events).binding == binding_root_of(origin),
        include_root_of(after(origin, events).binding) == include_root_of(begun(origin).binding),
        after(origin, events).cursor matches Cursor::Awaiting(Step::Vendor(index)) ==> awaited(
            after(origin, events),
        ) == ActionView::Execute(
            copy_of(
                checkout_of(after(origin, events).workspace),
                allow_list()[index as int],
                include_root_of(binding_root_of(origin)),
            ),
        ),
        is_absolute(origin) ==> is_absolute(include_root_of(binding_root_of(origin)))
            && origin.is_prefix_of(include_root_of(binding_root_of(origin))),
        !(after(origin, events).cursor is Ended) ==> is_absolute(origin),
    decreases events.len(),
{
    lemma_origin_is_kept(origin, events);
    if is_absolute(origin) {
        lemma_layout_is_rooted(origin);
    }
    if events.len() > 0 {
        law_destination_is_stable(origin, events.drop_last());
    }
}

/// A run that completed has copied every directory of the allow-list.
///
/// For each entry of the allow-list, a completed run awaited, at the
/// entry's place in the script, the recursive copy of that entry from the
/// fetched tree in its workspace into the include root of the binding
/// crate, and was told that the copy succeeded.
pub proof fn law_allow_list_is_copied(origin: Seq<char>, events: Seq<EventView>, index: int)
    requires
        after(origin, events).cursor == Cursor::Ended(Outcome::Completed),
        0 <= index < allow_list().len(),
    ensures
        4 + index < events.len(),
        events[0] is Created,
        awaited(after(origin, events.take(4 + index))) == ActionView::Execute(
            copy_of(
                checkout_of(events[0]->Created_0),
                allow_list()[index],
                include_root_of(binding_root_of(origin)),
            ),
        ),
        events[4 + index] == EventView::Succeeded,
{
    law_completed_run_took_every_step(origin, events);
    let place = 4 + index;
    assert(after(origin, events.take(place)).cursor == Cursor::Awaiting(step_at(place)));
    assert(after(origin, events.take(0)).cursor == Cursor::Awaiting(step_at(0)));
    lemma_origin_is_kept(origin, events.take(place));
    lemma_workspace_is_kept(origin, events.take(place));
    assert(events.take(place)[0] == events[0]);
}

/// Once staging has succeeded, the run holds the path that staging
/// reported as the path of its workspace.
proof fn lemma_workspace_is_kept(origin: Seq<char>, events: Seq<EventView>)
    requires
        events.len() > 0,
        after(origin, events).cursor is Awaiting,
    ensures
        events[0] is Created,
        after(origin, events).workspace == events[0]->Created_0,
    decreases events.len(),
{
    let shorter = events.drop_last();
    lemma_awaited_step(origin, shorter);
    lemma_awaited_step(origin, events);
    if shorter.len() > 0 {
        lemma_workspace_is_kept(origin, shorter);
    }
}

/// The stamp records the fingerprint of the tree that this run fetched.
///
/// When a run awaits the stamp, it awaits one write, to the stamp file of
/// the binding crate under the starting directory, of the stamp of the
/// fingerprint of the listing that was last reported to it. Nothing of an
/// earlier stamp enters, and the write replaces what the file held.
pub proof fn law_stamp_follows_the_listing(origin: Seq<char>, events: Seq<EventView>)
    requires
        after(origin, events).cursor == Cursor::Awaiting(Step::Stamp),
    ensures
        events.len() > 0,
        events.last() is Output,
        awaited(after(origin, events)) == (ActionView::WriteFile {
            path: stamp_path_of(binding_root_of(origin)),
            contents: stamp_of(fingerprint_of(events.last()->Output_0)),
        }),
{
    lemma_awaited_step(origin, events);
    lemma_awaited_step(origin, events.drop_last());
    lemma_origin_is_kept(origin, events);
}

/// The workspace is removed on every way out.
///
/// A run that is over and got as far as having a workspace, that is, one
/// that did not abort at staging, has awaited the removal of its workspace
/// before it ended.
pub proof fn law_workspace_is_removed(origin: Seq<char>, events: Seq<EventView>) -> (count: int)
    requires
        after(origin, events).cursor matches Cursor::Ended(outcome) && outcome != Outcome::Aborted(
            Step::Stage,
        ),
    ensures
        0 <= count < events.len(),
        awaited(after(origin, events.take(count))) == (ActionView::RemoveWorkspace {
            path: after(origin, events).workspace,
        }),
    decreases events.len(),
{
    let shorter = events.drop_last();
    if after(origin, shorter).cursor is Ended {
        let count = law_workspace_is_removed(origin, shorter);
        assert(shorter.take(count) =~= events.take(count));
        count
    } else {
        assert(events.take(events.len() - 1) =~= shorter);
        events.len() - 1
    }
}

} // verus!
