//! What a caller observes of an item and of a batch, for every way the
//! outside work can go.

use vstd::prelude::*;
use crate::batch::{failed, ignored, next_step, ReplyView, RequestView, StageView, WriteOutcome};
use crate::events::{NotificationView, TranscodeError};
use crate::item::{ImageView, ParametersView};
use crate::raster::RasterView;
use crate::transcode::kilobytes;

verus! {

/// How the outside work on one item goes: what each request is answered
/// with, should the item get that far.
pub struct Answers {
    /// The flag as read before the item is dispatched.
    pub cancelled_at_dispatch: bool,
    pub loaded: Result<RasterView, TranscodeError>,
    pub encoded: Option<Seq<u8>>,
    /// The flag as read between encoding and writing.
    pub cancelled_before_write: bool,
    pub written: WriteOutcome,
}

/// Whether `reply` is of the kind that answers `request`.
pub open spec fn answers_request(request: RequestView, reply: ReplyView) -> bool {
    match request {
        RequestView::ReadFlag => reply is Cancelled,
        RequestView::Load { .. } => reply is Loaded,
        RequestView::Encode { .. } => reply is Encoded,
        RequestView::Write { .. } => reply is Written,
        RequestView::Nothing => false,
    }
}

/// Whether `reply` is of the kind that `stage` waits for.
pub open spec fn expects(stage: StageView, reply: ReplyView) -> bool {
    match stage {
        StageView::Queued => reply is Cancelled,
        StageView::Loading => reply is Loaded,
        StageView::Encoding => reply is Encoded,
        StageView::ReadyToWrite { .. } => reply is Cancelled,
        StageView::Writing => reply is Written,
        StageView::Finished => false,
    }
}

/// The reply that a worker gives to the request pending in `stage`.
pub open spec fn reply_to(stage: StageView, answers: Answers) -> ReplyView {
    match stage {
        StageView::Queued => ReplyView::Cancelled(answers.cancelled_at_dispatch),
        StageView::Loading => ReplyView::Loaded(answers.loaded),
        StageView::Encoding => ReplyView::Encoded(answers.encoded),
        StageView::ReadyToWrite { .. } => ReplyView::Cancelled(answers.cancelled_before_write),
        StageView::Writing => ReplyView::Written(answers.written),
        StageView::Finished => ReplyView::Cancelled(false),
    }
}

/// The stage an item is in after `steps` replies.
pub open spec fn stage_after(stage: StageView, item: ImageView, parameters: ParametersView, answers: Answers, steps: nat) -> StageView
    decreases steps,
{
    if steps == 0 {
        stage
    } else {
        stage_after(
            next_step(stage, item, parameters, reply_to(stage, answers)).stage,
            item,
            parameters,
            answers,
            (steps - 1) as nat,
        )
    }
}

/// The notifications that `steps` replies give rise to, in the order in
/// which they are sent.
pub open spec fn notified(stage: StageView, item: ImageView, parameters: ParametersView, answers: Answers, steps: nat) -> Seq<
    NotificationView,
>
    decreases steps,
{
    if steps == 0 {
        Seq::empty()
    } else {
        let step = next_step(stage, item, parameters, reply_to(stage, answers));
        let rest = notified(step.stage, item, parameters, answers, (steps - 1) as nat);
        match step.notify {
            Some(notification) => seq![notification] + rest,
            None => rest,
        }
    }
}

/// The number of replies after which every item is finished.
pub open spec fn full_run() -> nat {
    5
}

/// Everything that is sent about one item.
pub open spec fn item_trace(item: ImageView, parameters: ParametersView, answers: Answers) -> Seq<NotificationView> {
    notified(StageView::Queued, item, parameters, answers, full_run())
}

/// The terminal notification of an item that was dispatched, if it has one.
pub open spec fn conclusion(item: ImageView, answers: Answers) -> Option<NotificationView> {
    match answers.loaded {
        Err(error) => Some(NotificationView::Error { full_path: item.full_path, error: error.text() }),
        Ok(_) => match answers.encoded {
            None => Some(
                NotificationView::Error { full_path: item.full_path, error: TranscodeError::Encode.text() },
            ),
            Some(_) => if answers.cancelled_before_write {
                None
            } else {
                match answers.written {
                    WriteOutcome::Failed => Some(
                        NotificationView::Error { full_path: item.full_path, error: TranscodeError::Write.text() },
                    ),
                    WriteOutcome::Saved { size_on_disk } => if kilobytes(size_on_disk) > 0 {
                        Some(
                            NotificationView::Success {
                                full_path: item.full_path,
                                size: kilobytes(size_on_disk),
                            },
                        )
                    } else {
                        None
                    },
                }
            },
        },
    }
}

/// The items that end without a terminal notification: those that the flag
/// stopped, before dispatch or before the write, and those whose written
/// file is reported as zero kilobytes.
pub open spec fn ends_quietly(answers: Answers) -> bool {
    answers.cancelled_at_dispatch || (answers.loaded is Ok && answers.encoded is Some && (
        answers.cancelled_before_write || (answers.written matches WriteOutcome::Saved { size_on_disk }
            && kilobytes(size_on_disk) == 0)))
}

/// The number of notifications in `trace` that `select` holds of.
pub open spec fn count(trace: Seq<NotificationView>, select: spec_fn(NotificationView) -> bool) -> nat
    decreases trace.len(),
{
    if trace.len() == 0 {
        0
    } else {
        count(trace.drop_last(), select) + if select(trace.last()) {
            1nat
        } else {
            0nat
        }
    }
}

/// The terminal notifications.
pub open spec fn terminal() -> spec_fn(NotificationView) -> bool {
    |notification: NotificationView| notification.is_terminal()
}

/// The terminal notifications about the item at `full_path`.
pub open spec fn terminal_about(full_path: Seq<char>) -> spec_fn(NotificationView) -> bool {
    |notification: NotificationView| notification.is_terminal() && notification.full_path() == full_path
}

/// The `success` notifications.
pub open spec fn success() -> spec_fn(NotificationView) -> bool {
    |notification: NotificationView| notification is Success
}

/// The `success` notifications about the item at `full_path`.
pub open spec fn success_about(full_path: Seq<char>) -> spec_fn(NotificationView) -> bool {
    |notification: NotificationView| notification is Success && notification.full_path() == full_path
}

/// Everything that is sent about a batch, item after item. In a running
/// batch the notifications of different items interleave; the counts below
/// do not depend on the order.
pub open spec fn batch_trace(items: Seq<ImageView>, parameters: ParametersView, answers: Seq<Answers>) -> Seq<
    NotificationView,
>
    decreases items.len(),
{
    if items.len() == 0 {
        Seq::empty()
    } else {
        batch_trace(items.drop_last(), parameters, answers.drop_last()) + item_trace(
            items.last(),
            parameters,
            answers.last(),
        )
    }
}

/// A reply that the stage does not wait for changes nothing.
pub proof fn lemma_unexpected_reply_is_ignored(stage: StageView, item: ImageView, parameters: ParametersView, reply: ReplyView)
    requires
        !expects(stage, reply),
    ensures
        next_step(stage, item, parameters, reply) == ignored(stage),
{
}

/// After a reply that the stage waits for, the new stage waits for exactly
/// the replies that answer the new request; a finished item requests
/// nothing.
pub proof fn lemma_request_matches_stage(stage: StageView, item: ImageView, parameters: ParametersView, reply: ReplyView, answer: ReplyView)
    requires
        expects(stage, reply),
    ensures
        ({
            let step = next_step(stage, item, parameters, reply);
            &&& answers_request(step.request, answer) <==> expects(step.stage, answer)
            &&& step.stage is Finished <==> step.request is Nothing
        }),
{
}

/// Whatever the answers, an item is sent nothing where the flag was raised
/// before dispatch, and `progress` followed by its conclusion otherwise.
pub proof fn lemma_item_trace(item: ImageView, parameters: ParametersView, answers: Answers)
    ensures
        item_trace(item, parameters, answers) == if answers.cancelled_at_dispatch {
            Seq::<NotificationView>::empty()
        } else {
            match conclusion(item, answers) {
                Some(last) => seq![NotificationView::Progress { full_path: item.full_path }, last],
                None => seq![NotificationView::Progress { full_path: item.full_path }],
            }
        },
        stage_after(StageView::Queued, item, parameters, answers, full_run()) is Finished,
{
    reveal_with_fuel(notified, 6);
    reveal_with_fuel(stage_after, 6);
}

/// A finished item sends nothing more, however long the worker goes on.
pub proof fn lemma_finished_is_final(item: ImageView, parameters: ParametersView, answers: Answers, steps: nat)
    ensures
        notified(StageView::Finished, item, parameters, answers, steps) == Seq::<NotificationView>::empty(),
        stage_after(StageView::Finished, item, parameters, answers, steps) is Finished,
    decreases steps,
{
    if steps > 0 {
        lemma_finished_is_final(item, parameters, answers, (steps - 1) as nat);
    }
}

proof fn lemma_notified_in_two_runs(
    stage: StageView,
    item: ImageView,
    parameters: ParametersView,
    answers: Answers,
    first: nat,
    second: nat,
)
    ensures
        notified(stage, item, parameters, answers, first + second) == notified(stage, item, parameters, answers, first)
            + notified(stage_after(stage, item, parameters, answers, first), item, parameters, answers, second),
    decreases first,
{
    if first > 0 {
        let step = next_step(stage, item, parameters, reply_to(stage, answers));
        lemma_notified_in_two_runs(step.stage, item, parameters, answers, (first - 1) as nat, second);
        assert((first + second - 1) as nat == (first - 1) as nat + second);
        let head = notified(step.stage, item, parameters, answers, (first - 1) as nat);
        let tail = notified(
            stage_after(stage, item, parameters, answers, first),
            item,
            parameters,
            answers,
            second,
        );
        if let Some(notification) = step.notify {
            assert(seq![notification] + (head + tail) =~= (seq![notification] + head) + tail);
        }
    } else {
        assert(Seq::<NotificationView>::empty() + notified(stage, item, parameters, answers, second) =~= notified(
            stage,
            item,
            parameters,
            answers,
            second,
        ));
    }
}

/// The trace of an item is all there is: a worker that goes on beyond a
/// full run is sent nothing to add.
pub proof fn lemma_trace_is_complete(item: ImageView, parameters: ParametersView, answers: Answers, steps: nat)
    requires
        steps >= full_run(),
    ensures
        notified(StageView::Queued, item, parameters, answers, steps) == item_trace(item, parameters, answers),
{
    let extra = (steps - full_run()) as nat;
    lemma_notified_in_two_runs(StageView::Queued, item, parameters, answers, full_run(), extra);
    lemma_item_trace(item, parameters, answers);
    lemma_finished_is_final(item, parameters, answers, extra);
    assert(item_trace(item, parameters, answers) + Seq::<NotificationView>::empty() =~= item_trace(
        item,
        parameters,
        answers,
    ));
}

/// Counting goes through concatenation.
pub proof fn lemma_count_concat(
    first: Seq<NotificationView>,
    second: Seq<NotificationView>,
    select: spec_fn(NotificationView) -> bool,
)
    ensures
        count(first + second, select) == count(first, select) + count(second, select),
    decreases second.len(),
{
    if second.len() == 0 {
        assert(first + second =~= first);
    } else {
        assert((first + second).drop_last() =~= first + second.drop_last());
        lemma_count_concat(first, second.drop_last(), select);
    }
}

proof fn lemma_count_short(trace: Seq<NotificationView>, select: spec_fn(NotificationView) -> bool)
    requires
        trace.len() <= 2,
    ensures
        trace.len() == 0 ==> count(trace, select) == 0,
        trace.len() == 1 ==> count(trace, select) == if select(trace[0]) {
            1nat
        } else {
            0nat
        },
        trace.len() == 2 ==> count(trace, select) == (if select(trace[0]) {
            1nat
        } else {
            0nat
        }) + (if select(trace[1]) {
            1nat
        } else {
            0nat
        }),
{
    reveal_with_fuel(count, 3);
    if trace.len() == 2 {
        assert(trace.drop_last().last() == trace[0]);
    }
}

/// The notifications about an item are all about that item; `progress`
/// comes first, and only the second, where there is one, is terminal.
pub proof fn lemma_progress_comes_first(item: ImageView, parameters: ParametersView, answers: Answers)
    ensures
        ({
            let trace = item_trace(item, parameters, answers);
            &&& trace.len() <= 2
            &&& forall|k: int| 0 <= k < trace.len() ==> (#[trigger] trace[k]).full_path() == item.full_path
            &&& forall|k: int| 0 <= k < trace.len() ==> ((#[trigger] trace[k]).is_terminal() <==> k == 1)
        }),
{
    lemma_item_trace(item, parameters, answers);
}

/// An item has one terminal notification, unless it ends quietly: then it
/// has none.
pub proof fn lemma_item_terminals(item: ImageView, parameters: ParametersView, answers: Answers)
    ensures
        count(item_trace(item, parameters, answers), terminal()) == if ends_quietly(answers) {
            0nat
        } else {
            1nat
        },
{
    lemma_item_trace(item, parameters, answers);
    lemma_count_short(item_trace(item, parameters, answers), terminal());
}

/// At most one terminal notification is about a given path, and none where
/// the path is not the item's.
pub proof fn lemma_item_terminals_about(item: ImageView, parameters: ParametersView, answers: Answers, full_path: Seq<char>)
    ensures
        count(item_trace(item, parameters, answers), terminal_about(full_path)) <= 1,
        full_path != item.full_path ==> count(item_trace(item, parameters, answers), terminal_about(full_path)) == 0,
{
    lemma_item_trace(item, parameters, answers);
    lemma_count_short(item_trace(item, parameters, answers), terminal_about(full_path));
}

/// Once the flag was read as raised, before dispatch or before the write,
/// no `success` is sent about the item.
pub proof fn lemma_no_success_once_cancelled(item: ImageView, parameters: ParametersView, answers: Answers)
    requires
        answers.cancelled_at_dispatch || answers.cancelled_before_write,
    ensures
        count(item_trace(item, parameters, answers), success()) == 0,
{
    lemma_item_trace(item, parameters, answers);
    lemma_count_short(item_trace(item, parameters, answers), success());
}

/// An item whose flag was raised before dispatch is sent nothing at all.
pub proof fn lemma_cancelled_at_dispatch_is_silent(item: ImageView, parameters: ParametersView, answers: Answers)
    requires
        answers.cancelled_at_dispatch,
    ensures
        item_trace(item, parameters, answers) == Seq::<NotificationView>::empty(),
{
    lemma_item_trace(item, parameters, answers);
}

/// A source that cannot be loaded gives `progress` and one `error` about
/// the item, and nothing is requested to be written.
pub proof fn lemma_unloadable_item_fails(item: ImageView, parameters: ParametersView, answers: Answers, error: TranscodeError)
    requires
        !answers.cancelled_at_dispatch,
        answers.loaded == Err::<RasterView, TranscodeError>(error),
    ensures
        item_trace(item, parameters, answers) == seq![
            NotificationView::Progress { full_path: item.full_path },
            NotificationView::Error { full_path: item.full_path, error: error.text() },
        ],
        next_step(StageView::Loading, item, parameters, ReplyView::Loaded(answers.loaded)) == failed(item, error),
{
    lemma_item_trace(item, parameters, answers);
}

/// A batch in which no item ends quietly has exactly one terminal
/// notification for each of its items.
pub proof fn lemma_batch_terminals(items: Seq<ImageView>, parameters: ParametersView, answers: Seq<Answers>)
    requires
        answers.len() == items.len(),
        forall|i: int| 0 <= i < answers.len() ==> !ends_quietly(#[trigger] answers[i]),
    ensures
        count(batch_trace(items, parameters, answers), terminal()) == items.len(),
    decreases items.len(),
{
    if items.len() > 0 {
        lemma_batch_terminals(items.drop_last(), parameters, answers.drop_last());
        lemma_item_terminals(items.last(), parameters, answers.last());
        lemma_count_concat(
            batch_trace(items.drop_last(), parameters, answers.drop_last()),
            item_trace(items.last(), parameters, answers.last()),
            terminal(),
        );
    }
}

/// Whether the written file of an item is reported as zero kilobytes.
pub open spec fn saved_below_a_kilobyte(answers: Answers) -> bool {
    &&& answers.loaded is Ok
    &&& answers.encoded is Some
    &&& answers.written matches WriteOutcome::Saved { size_on_disk }
    &&& kilobytes(size_on_disk) == 0
}

/// Without cancellation a batch of N items has exactly N terminal
/// notifications, as long as no written file is reported as zero kilobytes.
pub proof fn lemma_uncancelled_batch_terminals(items: Seq<ImageView>, parameters: ParametersView, answers: Seq<Answers>)
    requires
        answers.len() == items.len(),
        forall|i: int|
            0 <= i < answers.len() ==> {
                &&& !(#[trigger] answers[i]).cancelled_at_dispatch
                &&& !answers[i].cancelled_before_write
                &&& !saved_below_a_kilobyte(answers[i])
            },
    ensures
        count(batch_trace(items, parameters, answers), terminal()) == items.len(),
{
    lemma_batch_terminals(items, parameters, answers);
}

/// In a batch whose items have different paths, at most one terminal
/// notification is about any path: never two of `success`, never two of
/// `error`, never one of each.
pub proof fn lemma_path_reported_once(items: Seq<ImageView>, parameters: ParametersView, answers: Seq<Answers>, full_path: Seq<char>)
    requires
        answers.len() == items.len(),
        forall|i: int, j: int| 0 <= i < j < items.len() ==> (#[trigger] items[i]).full_path != (#[trigger] items[j]).full_path,
    ensures
        count(batch_trace(items, parameters, answers), terminal_about(full_path)) <= 1,
        (forall|i: int| 0 <= i < items.len() ==> (#[trigger] items[i]).full_path != full_path) ==> count(
            batch_trace(items, parameters, answers),
            terminal_about(full_path),
        ) == 0,
    decreases items.len(),
{
    if items.len() > 0 {
        let earlier = items.drop_last();
        lemma_path_reported_once(earlier, parameters, answers.drop_last(), full_path);
        lemma_item_terminals_about(items.last(), parameters, answers.last(), full_path);
        lemma_count_concat(
            batch_trace(earlier, parameters, answers.drop_last()),
            item_trace(items.last(), parameters, answers.last()),
            terminal_about(full_path),
        );
        if items.last().full_path == full_path {
            assert forall|i: int| 0 <= i < earlier.len() implies (#[trigger] earlier[i]).full_path != full_path by {
                assert(earlier[i] == items[i]);
                assert(items[items.len() - 1] == items.last());
            }
        }
    }
}

/// In a batch whose items have different paths, no `success` is sent about
/// an item that read the flag as raised, before dispatch or before the
/// write, whatever happens to the other items.
pub proof fn lemma_no_success_about_cancelled_item(
    items: Seq<ImageView>,
    parameters: ParametersView,
    answers: Seq<Answers>,
    cancelled: int,
)
    requires
        answers.len() == items.len(),
        forall|i: int, j: int| 0 <= i < j < items.len() ==> (#[trigger] items[i]).full_path != (#[trigger] items[j]).full_path,
        0 <= cancelled < items.len(),
        answers[cancelled].cancelled_at_dispatch || answers[cancelled].cancelled_before_write,
    ensures
        count(batch_trace(items, parameters, answers), success_about(items[cancelled].full_path)) == 0,
{
    lemma_success_about(items, parameters, answers, items[cancelled].full_path, cancelled);
}

proof fn lemma_success_about(
    items: Seq<ImageView>,
    parameters: ParametersView,
    answers: Seq<Answers>,
    full_path: Seq<char>,
    cancelled: int,
)
    requires
        answers.len() == items.len(),
        forall|i: int| 0 <= i < items.len() && i != cancelled ==> (#[trigger] items[i]).full_path != full_path,
        0 <= cancelled < items.len() ==> answers[cancelled].cancelled_at_dispatch || answers[cancelled].cancelled_before_write,
    ensures
        count(batch_trace(items, parameters, answers), success_about(full_path)) == 0,
    decreases items.len(),
{
    if items.len() > 0 {
        let earlier = items.drop_last();
        assert forall|i: int| 0 <= i < earlier.len() && i != cancelled implies (#[trigger] earlier[i]).full_path
            != full_path by {
            assert(earlier[i] == items[i]);
        }
        lemma_success_about(earlier, parameters, answers.drop_last(), full_path, cancelled);
        lemma_item_trace(items.last(), parameters, answers.last());
        lemma_count_short(item_trace(items.last(), parameters, answers.last()), success_about(full_path));
        lemma_count_concat(
            batch_trace(earlier, parameters, answers.drop_last()),
            item_trace(items.last(), parameters, answers.last()),
            success_about(full_path),
        );
        if cancelled != items.len() - 1 {
            assert(items[items.len() - 1].full_path != full_path);
        }
    }
}

} // verus!
