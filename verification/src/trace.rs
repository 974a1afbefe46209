//! Whole runs: what holds of a flashing run whatever the machine answers.

use vstd::prelude::*;
use crate::artifact::{Artifact, ImageSetView, Source};
use crate::endpoint::{resolve_spec, EndpointView};
use crate::messages::{lemma_notices_in_range, success_text, Failure};
use crate::operation::{
    lemma_following_is_later, lemma_position_tells_apart, longest_run, Operation,
};
use crate::pipeline::{
    lemma_advance_keeps_well_formed, lemma_start_is_well_formed, ActionView, PipelineView,
    ReplyView, Stage,
};

verus! {

/// The run `run` after it has heard `replies`, one after the other.
pub open spec fn after(run: PipelineView, replies: Seq<ReplyView>) -> PipelineView
    decreases replies.len(),
{
    if replies.len() == 0 {
        run
    } else {
        after(run, replies.drop_last()).advance(replies.last()).state
    }
}

/// The run for the endpoint called `port` and the source selector
/// `selector` after it has heard `replies`.
pub open spec fn run_of(
    port: Seq<char>,
    selector: Seq<char>,
    replies: Seq<ReplyView>,
) -> PipelineView {
    after(PipelineView::start(port, selector).state, replies)
}

/// What a step asks for is what the run then waits for: the operation of
/// its stage, or, once it is over, that its final message be handed out.
pub proof fn lemma_step_asks_what_is_pending(run: PipelineView, reply: ReplyView)
    ensures
        run.advance(reply).step.action == run.advance(reply).state.pending(),
{
}

/// A run begins by asking for what it then waits for, after it has told the
/// user that it starts: for the scratch directory, or, where the selector
/// names no source, for nothing.
pub proof fn lemma_start_asks_what_is_pending(port: Seq<char>, selector: Seq<char>)
    ensures
        PipelineView::start(port, selector).step.action == PipelineView::start(
            port,
            selector,
        ).state.pending(),
        PipelineView::start(port, selector).state.port == port,
        PipelineView::start(port, selector).state.source == Source::parse_spec(selector),
        PipelineView::start(port, selector).state.stage == match Source::parse_spec(selector) {
            Some(_) => Stage::Awaiting(Operation::CreateScratchDir),
            None => Stage::Failed(Failure::InvalidSource),
        },
{
}

/// A run that is over stays as it is: whatever it hears, it asks for no
/// operation, tells the user nothing and hands out the same final message.
pub proof fn lemma_over_stays_over(run: PipelineView, reply: ReplyView)
    requires
        run.stage.is_terminal(),
    ensures
        run.advance(reply).state == run,
        run.advance(reply).step.notices.len() == 0,
        run.advance(reply).step.action == ActionView::Return(run.outcome),
{
}

/// One step of a run that is not over. A failed operation ends the run as
/// failed at that operation. After a success the run waits for the
/// operation that follows, or is done after the last operation; it fails
/// only where the listing holds no endpoint to flash or where it has no
/// source. A failed run hands out the message for its failure. No step
/// changes the name of the endpoint or the source.
pub proof fn lemma_step_moves_on(run: PipelineView, reply: ReplyView)
    requires
        run.stage is Awaiting,
    ensures
        run.advance(reply).state.port == run.port,
        run.advance(reply).state.source == run.source,
        match run.advance(reply).state.stage {
            Stage::Failed(failure) => {
                &&& run.advance(reply).state.outcome == failure.text(reply.detail(), run.port)
                &&& if !reply.confirms(run.stage->Awaiting_0) {
                    failure == Failure::of_operation(run.stage->Awaiting_0)
                } else if run.source is None {
                    failure == Failure::InvalidSource
                } else {
                    &&& run.stage == Stage::Awaiting(Operation::ListEndpoints)
                    &&& failure matches Failure::Endpoint(reason)
                    &&& resolve_spec(reply.endpoints(), run.port) == Err::<EndpointView, _>(reason)
                }
            },
            Stage::Done => {
                &&& reply.confirms(Operation::Program)
                &&& run.stage == Stage::Awaiting(Operation::Program)
                &&& run.advance(reply).state.outcome == success_text()
            },
            Stage::Awaiting(next) => {
                &&& reply.confirms(run.stage->Awaiting_0)
                &&& run.source matches Some(source)
                &&& run.stage->Awaiting_0.following_spec(source) == Some(next)
                &&& run.advance(reply).state.outcome == run.outcome
            },
        },
        run.stage.position() < longest_run(),
        run.advance(reply).state.stage !is Failed ==> run.stage.position() < run.advance(
            reply,
        ).state.stage.position(),
{
    let operation = run.stage->Awaiting_0;
    if let Some(source) = run.source {
        lemma_following_is_later(operation, source);
    } else {
        lemma_following_is_later(operation, Source::Local);
    }
}

/// Whatever a step tells the user, the percentage is between 0 and 100.
pub proof fn lemma_step_notices_in_range(run: PipelineView, reply: ReplyView)
    ensures
        forall|i: int|
            0 <= i < run.advance(reply).step.notices.len() ==> (
            #[trigger] run.advance(reply).step.notices[i]).progress.in_range(),
{
    if let Stage::Awaiting(operation) = run.stage {
        if let Some(source) = run.source {
            lemma_notices_in_range(operation, source, run.port);
        }
    }
}

/// Whatever a run hears, it stays well formed and keeps the name of its
/// endpoint and its source; while it is not over, it has heard no more
/// replies than its stage is far from the beginning.
pub proof fn lemma_run_keeps_pace(port: Seq<char>, selector: Seq<char>, replies: Seq<ReplyView>)
    ensures
        run_of(port, selector, replies).well_formed(),
        run_of(port, selector, replies).port == port,
        run_of(port, selector, replies).source == Source::parse_spec(selector),
        run_of(port, selector, replies).stage is Awaiting ==> replies.len() <= run_of(
            port,
            selector,
            replies,
        ).stage.position() < longest_run(),
    decreases replies.len(),
{
    let begun = PipelineView::start(port, selector).state;
    lemma_start_is_well_formed(port, selector);
    if replies.len() > 0 {
        let before = after(begun, replies.drop_last());
        lemma_run_keeps_pace(port, selector, replies.drop_last());
        lemma_advance_keeps_well_formed(before, replies.last());
        if before.stage is Awaiting {
            lemma_step_moves_on(before, replies.last());
        }
    }
    let now = after(begun, replies);
    if let Stage::Awaiting(operation) = now.stage {
        lemma_following_is_later(operation, Source::Local);
    }
}

/// Every run ends: once it has heard as many replies as the longest run has
/// operations, it is over, whatever the replies were.
pub proof fn lemma_run_is_bounded(port: Seq<char>, selector: Seq<char>, replies: Seq<ReplyView>)
    requires
        replies.len() >= longest_run(),
    ensures
        run_of(port, selector, replies).stage.is_terminal(),
{
    lemma_run_keeps_pace(port, selector, replies);
}

/// A run that opens, connects to, erases or programs an endpoint does so on
/// a USB endpoint of the name that the user gave.
pub proof fn lemma_flashed_endpoint_is_usb(
    port: Seq<char>,
    selector: Seq<char>,
    replies: Seq<ReplyView>,
)
    requires
        run_of(port, selector, replies).stage matches Stage::Awaiting(operation)
            && operation.position() >= Operation::OpenTransport.position(),
    ensures
        run_of(port, selector, replies).endpoint matches Some(endpoint) && endpoint.name == port
            && endpoint.is_usb(),
{
    lemma_run_keeps_pace(port, selector, replies);
}

/// A run with a local source stays off the network, and a run that
/// downloads its images does not look for them in the working directory.
pub proof fn lemma_source_decides_acquisition(
    port: Seq<char>,
    selector: Seq<char>,
    replies: Seq<ReplyView>,
)
    ensures
        run_of(port, selector, replies).stage matches Stage::Awaiting(operation)
            ==> Source::parse_spec(selector) matches Some(source) && operation.suits(source),
{
    lemma_run_keeps_pace(port, selector, replies);
}

/// A run that has failed never programs, nor does anything else: from the
/// failure on it asks for no operation and hands out the same message.
pub proof fn lemma_failed_run_asks_nothing(run: PipelineView, replies: Seq<ReplyView>)
    requires
        run.stage is Failed,
    ensures
        after(run, replies) == run,
        run.pending() == ActionView::Return(run.outcome),
    decreases replies.len(),
{
    if replies.len() > 0 {
        lemma_failed_run_asks_nothing(run, replies.drop_last());
    }
}

/// A run whose source selector names no source has failed before it began:
/// whatever it hears, it asks for no operation and hands out the message of
/// the invalid source.
pub proof fn lemma_invalid_source_does_nothing(
    port: Seq<char>,
    selector: Seq<char>,
    replies: Seq<ReplyView>,
)
    requires
        Source::parse_spec(selector) is None,
    ensures
        run_of(port, selector, replies).stage == Stage::Failed(Failure::InvalidSource),
        run_of(port, selector, replies).pending() == ActionView::Return(
            Failure::InvalidSource.text(Seq::empty(), port),
        ),
{
    lemma_failed_run_asks_nothing(PipelineView::start(port, selector).state, replies);
}

/// Nothing is done before what comes before it has succeeded. Where a run
/// has reached a stage without failing, it has asked earlier for each
/// operation that suits its source and stands before that stage, and has
/// heard that the operation succeeded, with what the operation was to hand
/// over.
pub proof fn lemma_earlier_operation_succeeded(
    port: Seq<char>,
    selector: Seq<char>,
    replies: Seq<ReplyView>,
    earlier: Operation,
)
    requires
        run_of(port, selector, replies).stage !is Failed,
        Source::parse_spec(selector) matches Some(source) && earlier.suits(source),
        earlier.position() < run_of(port, selector, replies).stage.position(),
    ensures
        exists|k: int|
            {
                &&& 0 <= k < replies.len()
                &&& run_of(port, selector, replies.take(k)).stage == Stage::Awaiting(earlier)
                &&& (#[trigger] replies[k]).confirms(earlier)
            },
    decreases replies.len(),
{
    let begun = PipelineView::start(port, selector).state;
    let source = Source::parse_spec(selector)->0;
    if replies.len() > 0 {
        let shorter = replies.drop_last();
        let before = after(begun, shorter);
        let last = replies.len() - 1;
        assert(shorter == replies.take(last));
        lemma_run_keeps_pace(port, selector, shorter);
        let mut found = last;
        if before.stage.is_terminal() {
            lemma_over_stays_over(before, replies.last());
        } else {
            let operation = before.stage->Awaiting_0;
            lemma_step_moves_on(before, replies.last());
            lemma_following_is_later(operation, source);
            if earlier.position() == operation.position() {
                lemma_position_tells_apart(earlier, operation, source);
            }
        }
        if before.stage != Stage::Awaiting(earlier) {
            lemma_earlier_operation_succeeded(port, selector, shorter, earlier);
            found = choose|k: int|
                {
                    &&& 0 <= k < shorter.len()
                    &&& run_of(port, selector, shorter.take(k)).stage == Stage::Awaiting(earlier)
                    &&& (#[trigger] shorter[k]).confirms(earlier)
                };
            assert(shorter.take(found) == replies.take(found));
        }
        assert(replies[found].confirms(earlier));
    }
}

/// The flash is never written before it has been erased: a run that asks
/// for programming has asked for the erasure before and has heard that it
/// succeeded.
pub proof fn lemma_programming_follows_erasure(
    port: Seq<char>,
    selector: Seq<char>,
    replies: Seq<ReplyView>,
)
    requires
        run_of(port, selector, replies).stage == Stage::Awaiting(Operation::Program),
    ensures
        exists|k: int|
            {
                &&& 0 <= k < replies.len()
                &&& run_of(port, selector, replies.take(k)).stage == Stage::Awaiting(
                    Operation::Erase,
                )
                &&& (#[trigger] replies[k]).is_ok()
            },
{
    lemma_run_keeps_pace(port, selector, replies);
    lemma_earlier_operation_succeeded(port, selector, replies, Operation::Erase);
}

/// An image that has been read stays as it was read: once a run has been
/// handed the bytes of an image, it holds those bytes, whatever it hears
/// afterwards, and does not ask for that image again.
pub proof fn lemma_image_is_kept(
    port: Seq<char>,
    selector: Seq<char>,
    replies: Seq<ReplyView>,
    k: int,
    artifact: Artifact,
)
    requires
        0 <= k < replies.len(),
        run_of(port, selector, replies.take(k)).stage == Stage::Awaiting(
            Operation::ReadImage(artifact),
        ),
        replies[k] is Image,
    ensures
        run_of(port, selector, replies).images.get(artifact) == Some(replies[k]->Image_0),
        run_of(port, selector, replies).stage matches Stage::Awaiting(operation)
            ==> Operation::ReadImage(artifact).position() < operation.position(),
    decreases replies.len(),
{
    let begun = PipelineView::start(port, selector).state;
    let shorter = replies.drop_last();
    let before = after(begun, shorter);
    lemma_run_keeps_pace(port, selector, shorter);
    if replies.len() == k + 1 {
        assert(shorter == replies.take(k));
        lemma_step_moves_on(before, replies.last());
    } else {
        assert(shorter.take(k) == replies.take(k));
        lemma_image_is_kept(port, selector, shorter, k, artifact);
        if before.stage is Awaiting {
            lemma_step_moves_on(before, replies.last());
        }
    }
}

/// No session with the device begins before all three images are in
/// memory: a run that asks for the connection has asked for each image
/// before, has been handed its bytes, and holds those bytes. A reply
/// without bytes does not count: it ends the run as a failed read.
pub proof fn lemma_session_follows_acquisition(
    port: Seq<char>,
    selector: Seq<char>,
    replies: Seq<ReplyView>,
    artifact: Artifact,
)
    requires
        run_of(port, selector, replies).stage == Stage::Awaiting(Operation::Connect),
    ensures
        run_of(port, selector, replies).images.is_complete(),
        exists|k: int|
            {
                &&& 0 <= k < replies.len()
                &&& run_of(port, selector, replies.take(k)).stage == Stage::Awaiting(
                    Operation::ReadImage(artifact),
                )
                &&& (#[trigger] replies[k]) matches ReplyView::Image(bytes)
                &&& run_of(port, selector, replies).images.get(artifact) == Some(bytes)
            },
{
    let now = run_of(port, selector, replies);
    lemma_run_keeps_pace(port, selector, replies);
    assert(now.images.get(Artifact::Firmware) is Some);
    assert(now.images.get(Artifact::Bootloader) is Some);
    assert(now.images.get(Artifact::Partitions) is Some);
    lemma_earlier_operation_succeeded(port, selector, replies, Operation::ReadImage(artifact));
    let k = choose|k: int|
        {
            &&& 0 <= k < replies.len()
            &&& run_of(port, selector, replies.take(k)).stage == Stage::Awaiting(
                Operation::ReadImage(artifact),
            )
            &&& (#[trigger] replies[k]).confirms(Operation::ReadImage(artifact))
        };
    lemma_image_is_kept(port, selector, replies, k, artifact);
}

/// No endpoint is opened that the host has not listed: a run that asks for
/// the endpoint to be opened has asked for the listing before and has been
/// handed one. A reply without a listing does not count: it ends the run as
/// a failed listing.
pub proof fn lemma_opening_follows_listing(
    port: Seq<char>,
    selector: Seq<char>,
    replies: Seq<ReplyView>,
)
    requires
        run_of(port, selector, replies).stage == Stage::Awaiting(Operation::OpenTransport),
    ensures
        exists|k: int|
            {
                &&& 0 <= k < replies.len()
                &&& run_of(port, selector, replies.take(k)).stage == Stage::Awaiting(
                    Operation::ListEndpoints,
                )
                &&& (#[trigger] replies[k]) is Endpoints
            },
{
    lemma_run_keeps_pace(port, selector, replies);
    lemma_earlier_operation_succeeded(port, selector, replies, Operation::ListEndpoints);
}

/// A run that downloads its images begins no session before each of them
/// has been written to its file: a run from the server that asks for the
/// connection has asked for each file to be written before, and has heard
/// that it was.
pub proof fn lemma_session_follows_download(
    port: Seq<char>,
    selector: Seq<char>,
    replies: Seq<ReplyView>,
    artifact: Artifact,
)
    requires
        Source::parse_spec(selector) == Some(Source::Server),
        run_of(port, selector, replies).stage == Stage::Awaiting(Operation::Connect),
    ensures
        exists|k: int|
            {
                &&& 0 <= k < replies.len()
                &&& run_of(port, selector, replies.take(k)).stage == Stage::Awaiting(
                    Operation::WriteFile(artifact),
                )
                &&& (#[trigger] replies[k]).is_ok()
            },
{
    lemma_earlier_operation_succeeded(port, selector, replies, Operation::WriteFile(artifact));
}

/// Hearing one reply more is one step more.
proof fn lemma_after_one_more(run: PipelineView, replies: Seq<ReplyView>, reply: ReplyView)
    ensures
        after(run, replies.push(reply)) == after(run, replies).advance(reply).state,
{
    assert(replies.push(reply).drop_last() == replies);
}

/// A local acquisition in which nothing fails yields the three images as
/// they were read, and touches no network. With the scratch directory
/// made, the working directory found, and the three files read as
/// `firmware`, `bootloader` and `partitions`, the run asks in turn for
/// these five operations and no other, then holds exactly those bytes,
/// each image as long as what was read, and goes on to list the endpoints.
/// Where the three files hold bytes, none of the three images is empty.
pub proof fn lemma_local_acquisition_yields_the_images(
    port: Seq<char>,
    selector: Seq<char>,
    made: ReplyView,
    found: ReplyView,
    firmware: Seq<u8>,
    bootloader: Seq<u8>,
    partitions: Seq<u8>,
)
    requires
        Source::parse_spec(selector) == Some(Source::Local),
        made.is_ok(),
        found.is_ok(),
    ensures
        ({
            let replies = seq![
                made,
                found,
                ReplyView::Image(firmware),
                ReplyView::Image(bootloader),
                ReplyView::Image(partitions),
            ];
            &&& run_of(port, selector, replies.take(0)).stage == Stage::Awaiting(
                Operation::CreateScratchDir,
            )
            &&& run_of(port, selector, replies.take(1)).stage == Stage::Awaiting(
                Operation::LocateWorkingDir,
            )
            &&& run_of(port, selector, replies.take(2)).stage == Stage::Awaiting(
                Operation::ReadImage(Artifact::Firmware),
            )
            &&& run_of(port, selector, replies.take(3)).stage == Stage::Awaiting(
                Operation::ReadImage(Artifact::Bootloader),
            )
            &&& run_of(port, selector, replies.take(4)).stage == Stage::Awaiting(
                Operation::ReadImage(Artifact::Partitions),
            )
            &&& run_of(port, selector, replies).stage == Stage::Awaiting(Operation::ListEndpoints)
            &&& run_of(port, selector, replies).images == (ImageSetView {
                application: Some(firmware),
                bootloader: Some(bootloader),
                partitions: Some(partitions),
            })
            &&& run_of(port, selector, replies).images.get(Artifact::Firmware)->0.len()
                == firmware.len()
            &&& run_of(port, selector, replies).images.get(Artifact::Bootloader)->0.len()
                == bootloader.len()
            &&& run_of(port, selector, replies).images.get(Artifact::Partitions)->0.len()
                == partitions.len()
            &&& firmware.len() > 0 && bootloader.len() > 0 && partitions.len() > 0 ==> {
                &&& run_of(port, selector, replies).images.get(Artifact::Firmware)->0.len() > 0
                &&& run_of(port, selector, replies).images.get(Artifact::Bootloader)->0.len() > 0
                &&& run_of(port, selector, replies).images.get(Artifact::Partitions)->0.len() > 0
            }
        }),
{
    let begun = PipelineView::start(port, selector).state;
    let replies = seq![
        made,
        found,
        ReplyView::Image(firmware),
        ReplyView::Image(bootloader),
        ReplyView::Image(partitions),
    ];
    let none = Seq::<ReplyView>::empty();
    let one = none.push(made);
    let two = one.push(found);
    let three = two.push(ReplyView::Image(firmware));
    let four = three.push(ReplyView::Image(bootloader));
    let five = four.push(ReplyView::Image(partitions));
    assert(replies.take(0) =~= none);
    assert(replies.take(1) =~= one);
    assert(replies.take(2) =~= two);
    assert(replies.take(3) =~= three);
    assert(replies.take(4) =~= four);
    assert(replies =~= five);
    lemma_after_one_more(begun, none, made);
    lemma_after_one_more(begun, one, found);
    lemma_after_one_more(begun, two, ReplyView::Image(firmware));
    lemma_after_one_more(begun, three, ReplyView::Image(bootloader));
    lemma_after_one_more(begun, four, ReplyView::Image(partitions));
    assert(after(begun, none) == begun);
    assert(after(begun, one).stage == Stage::Awaiting(Operation::LocateWorkingDir));
    assert(after(begun, two).stage == Stage::Awaiting(Operation::ReadImage(Artifact::Firmware)));
    assert(after(begun, three).stage == Stage::Awaiting(
        Operation::ReadImage(Artifact::Bootloader),
    ));
    assert(after(begun, four).stage == Stage::Awaiting(
        Operation::ReadImage(Artifact::Partitions),
    ));
}

} // verus!
