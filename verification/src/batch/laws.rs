//! What holds of every run.

use crate::adapter::pitch_offset;
use crate::batch::events::{BatchState, CommandView, EventView, StepView};
use crate::batch::machine::{RunView, StageView, quiet_step};
use crate::config::effective_config_of;
use crate::drill::{ConvertError, conversion_of};
use crate::naming::{dir_name_of, file_name_of};
use crate::notice::{Channel, complete_notice_of, generating_notice_of};
use crate::wave::{Clip, wav_payload};
use vstd::prelude::*;

verus! {

/// Every transition keeps the counters in agreement with the stage.
pub proof fn law_advance_keeps_wf(run: RunView, event: EventView)
    requires
        run.wf(),
    ensures
        run.advance_of(event).0.wf(),
        run.advance_of(event).0.files_written <= run.advance_of(event).0.count,
        run.advance_of(event).0.count == run.count,
        run.advance_of(event).0.files_written >= run.files_written,
{
}

/// A run that has ended stays as it is and has nothing more done.
pub proof fn law_ended_run_stays(run: RunView, event: EventView)
    requires
        run.ended(),
    ensures
        run.advance_of(event).0 == run,
        run.advance_of(event).1 == quiet_step(CommandView::Stop),
{
}

/// A batch of no problems is complete as soon as it starts: no file, no
/// command, and the one notification that it has finished.
pub proof fn law_empty_batch_completes(run: RunView, stamp: Seq<char>)
    requires
        run.wf(),
        run.stage == StageView::Idle,
        run.count == 0,
    ensures
        run.advance_of(EventView::Start(stamp)).0.state() == BatchState::Completed,
        run.advance_of(EventView::Start(stamp)).0.files_written == 0,
        run.advance_of(EventView::Start(stamp)).1 == (StepView {
            notices: seq![complete_notice_of(Channel::Finish)],
            command: CommandView::Stop,
        }),
{
}

/// A batch of at least one problem starts with the first problem: the
/// listener is told so and the generator is asked.
pub proof fn law_batch_starts_with_first_problem(run: RunView, stamp: Seq<char>)
    requires
        run.wf(),
        run.stage == StageView::Idle,
        run.count >= 1,
    ensures
        run.advance_of(EventView::Start(stamp)).0.state() == BatchState::Running,
        run.advance_of(EventView::Start(stamp)).0.index == 0,
        run.advance_of(EventView::Start(stamp)).0.dir == dir_name_of(run.config, stamp),
        run.advance_of(EventView::Start(stamp)).1 == (StepView {
            notices: seq![generating_notice_of(0, run.count)],
            command: CommandView::Generate(effective_config_of(run.policy, run.config, 0)),
        }),
{
}

/// The cancellation flag is read when the file of a problem is written. If
/// it is raised then, after the problem at position `k`, the batch is
/// cancelled with exactly `k + 1` files and nothing more is done. If it is
/// not, the next problem starts, or the batch is complete after the last.
pub proof fn law_cancel_between_problems(run: RunView, raised: bool)
    requires
        run.wf(),
        run.stage == StageView::AwaitCancel,
    ensures
        ({
            let (next, step) = run.advance_of(EventView::CancelFlag(raised));
            &&& raised ==> next.state() == BatchState::Cancelled && next.files_written
                == run.index + 1 && step == quiet_step(CommandView::Stop)
            &&& !raised && run.index + 1 < run.count ==> next.stage == StageView::AwaitProblem
                && next.index == run.index + 1 && next.files_written == run.index + 1
            &&& !raised && run.index + 1 == run.count ==> next.state() == BatchState::Completed
                && next.files_written == run.count && step == (StepView {
                notices: seq![
                    complete_notice_of(Channel::Progress),
                    complete_notice_of(Channel::Finish),
                ],
                command: CommandView::Stop,
            })
        }),
{
}

/// A batch is cancelled by a raised flag between two problems and by nothing
/// else: a transition into the cancelled state comes from the stage that
/// waits for the flag.
pub proof fn law_cancelled_only_by_flag(run: RunView, event: EventView)
    requires
        run.state() != BatchState::Cancelled,
        run.advance_of(event).0.state() == BatchState::Cancelled,
    ensures
        run.stage == StageView::AwaitCancel,
        event == EventView::CancelFlag(true),
{
}

/// After a sequence of events the counters still agree with the stage.
pub proof fn law_run_through_keeps_wf(run: RunView, events: Seq<EventView>)
    requires
        run.wf(),
    ensures
        run.run_through(events).wf(),
        run.run_through(events).count == run.count,
        run.run_through(events).files_written <= run.count,
        run.run_through(events).files_written >= run.files_written,
    decreases events.len(),
{
    if events.len() > 0 {
        law_run_through_keeps_wf(run, events.drop_last());
        law_advance_keeps_wf(run.run_through(events.drop_last()), events.last());
    }
}

/// Running through two sequences of events one after the other is running
/// through their concatenation.
pub proof fn lemma_run_through_concat(run: RunView, first: Seq<EventView>, second: Seq<EventView>)
    ensures
        run.run_through(first + second) == run.run_through(first).run_through(second),
    decreases second.len(),
{
    if second.len() == 0 {
        assert(first + second =~= first);
    } else {
        lemma_run_through_concat(run, first, second.drop_last());
        assert((first + second).drop_last() =~= first + second.drop_last());
        assert((first + second).last() == second.last());
    }
}

/// A run that has ended is not changed by any sequence of events.
pub proof fn law_ended_run_stays_through(run: RunView, events: Seq<EventView>)
    requires
        run.ended(),
    ensures
        run.run_through(events) == run,
    decreases events.len(),
{
    if events.len() > 0 {
        law_ended_run_stays_through(run, events.drop_last());
        law_ended_run_stays(run, events.last());
    }
}

/// Cancellation: let any events bring a run to the point where the file of
/// the problem at position `k` is written; if the flag is found raised then,
/// the batch ends cancelled with exactly `k + 1` files, whatever is reported
/// afterwards.
pub proof fn law_cancellation(
    run: RunView,
    before: Seq<EventView>,
    after: Seq<EventView>,
)
    requires
        run.wf(),
        run.run_through(before).stage == StageView::AwaitCancel,
    ensures
        ({
            let k = run.run_through(before).index;
            let end = run.run_through(before + seq![EventView::CancelFlag(true)] + after);
            end.state() == BatchState::Cancelled && end.files_written == k + 1
        }),
{
    let at_poll = run.run_through(before);
    let flag = seq![EventView::CancelFlag(true)];
    law_run_through_keeps_wf(run, before);
    law_cancel_between_problems(at_poll, true);
    lemma_run_through_concat(run, before, flag);
    assert(flag.drop_last() =~= Seq::<EventView>::empty());
    assert(at_poll.run_through(flag.drop_last()) == at_poll);
    assert(flag.last() == EventView::CancelFlag(true));
    assert(at_poll.run_through(flag) == at_poll.advance_of(EventView::CancelFlag(true)).0);
    lemma_run_through_concat(run, before + flag, after);
    law_ended_run_stays_through(at_poll.run_through(flag), after);
}

/// Whenever a problem is asked of the generator, it is asked with the
/// settings in force at the position of that problem: the configured ones
/// with the subtraction setting that the policy derives.
pub proof fn law_generate_uses_effective_config(run: RunView, event: EventView)
    requires
        run.wf(),
        run.advance_of(event).1.command is Generate,
    ensures
        ({
            let (next, step) = run.advance_of(event);
            &&& next.stage == StageView::AwaitProblem
            &&& step.command == CommandView::Generate(
                effective_config_of(run.policy, run.config, next.index),
            )
            &&& step.notices == seq![generating_notice_of(next.index, run.count)]
        }),
{
}

/// Whenever a clip is asked of the engine, the pitch is raised by the fixed
/// offset and the voice is the adapter's; the speed is overridden, with the
/// requested speed, exactly for the problem statement.
pub proof fn law_synthesis_parameters(run: RunView, event: EventView)
    requires
        run.advance_of(event).1.command is Synthesize,
    ensures
        ({
            let (next, step) = run.advance_of(event);
            let plan = step.command->Synthesize_0;
            &&& plan.pitch_offset == pitch_offset()
            &&& plan.speaker_id == run.adapter.speaker_id
            &&& next.stage is AwaitAnnouncement ==> plan.speed_override.is_none() && plan.text
                == next.stage->AwaitAnnouncement_0.announcement
            &&& next.stage is AwaitStatement ==> plan.speed_override == Some(run.speed)
                && plan.text == next.stage->AwaitStatement_0.problem
            &&& next.stage is AwaitAnswer ==> plan.speed_override.is_none() && plan.text
                == next.stage->AwaitAnswer_0.answer
            &&& next.stage is AwaitAnnouncement || next.stage is AwaitStatement
                || next.stage is AwaitAnswer
        }),
{
}

/// The model is loaded at most once: the engine is asked to load only after
/// it has said that it lacks the model, and an adapter that knows the model
/// to be loaded keeps knowing it and never asks again.
pub proof fn law_model_loaded_once(run: RunView, event: EventView)
    ensures
        run.adapter.loaded ==> run.advance_of(event).0.adapter.loaded,
        run.adapter.loaded ==> !(run.advance_of(event).1.command is LoadModel) && !(
        run.advance_of(event).1.command is QueryModel),
        run.advance_of(event).1.command is LoadModel ==> run.stage is AwaitModelStatus && event
            == EventView::ModelStatus(false),
        run.stage is AwaitModelLoad && event == EventView::ModelLoaded ==> run.advance_of(
            event,
        ).0.adapter.loaded,
        run.advance_of(event).0.adapter.speaker_id == run.adapter.speaker_id,
{
}

/// A failure ends the batch at once: no notification, no further command,
/// and the files written before stay counted.
pub proof fn law_failure_ends_batch(run: RunView, event: EventView)
    requires
        !run.ended(),
        run.advance_of(event).0.state() is Failed,
    ensures
        run.advance_of(event).1 == quiet_step(CommandView::Stop),
        run.advance_of(event).0.files_written == run.files_written,
{
}

/// A file is written for a problem only once its three clips are rendered
/// and converted, and it is named after the problem's number, counted from
/// one, and its type.
pub proof fn law_file_after_conversion(run: RunView, event: EventView)
    requires
        run.advance_of(event).1.command is WriteFile,
    ensures
        ({
            let (next, step) = run.advance_of(event);
            &&& run.stage is AwaitAnswer
            &&& event is Rendered
            &&& next.stage == StageView::AwaitWrite
            &&& step.command->WriteFile_root == run.root
            &&& step.command->WriteFile_dir == run.dir
            &&& step.command->WriteFile_file == file_name_of(
                run.stage->AwaitAnswer_0.config.subtractions,
                (run.index + 1) as u32,
            )
            &&& Ok::<Clip, ConvertError>(step.command->WriteFile_audio) == conversion_of(
                wav_payload(run.stage->AwaitAnswer_1),
                wav_payload(run.stage->AwaitAnswer_2),
                wav_payload(event->Rendered_0),
            )
        }),
{
}

/// Every event brings a run that has not ended nearer to its end: a batch
/// of `count` problems ends after at most `9 * count + 1` events, whatever
/// the driver reports.
pub proof fn law_every_event_makes_progress(run: RunView, event: EventView)
    requires
        run.wf(),
        !run.ended(),
    ensures
        run.advance_of(event).0.events_left() < run.events_left(),
        run.events_left() <= 9 * run.count + 1,
{
}

/// The command of a step is to stop exactly when the run has ended.
pub proof fn law_stop_means_ended(run: RunView, event: EventView)
    requires
        run.wf(),
    ensures
        run.advance_of(event).1.command is Stop <==> run.advance_of(event).0.ended(),
{
}

} // verus!
