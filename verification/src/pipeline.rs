//! A flashing run as a state machine. The run itself touches nothing: it
//! asks its caller for one operation at a time, hears how the operation
//! went, and says what to tell the user and what to do next, until it hands
//! out the final message.

use vstd::prelude::*;
use crate::artifact::{Artifact, ImageSet, ImageSetView, Source};
use crate::endpoint::{
    find_endpoint, lemma_resolution_is_justified, resolve_spec, EndpointDescriptor, EndpointView,
};
use crate::messages::{
    notices_after, starting, starting_notice, success_message, success_notices, success_text,
    Failure,
};
use crate::notice::{Notification, NotificationView};
use crate::operation::{lemma_following_is_later, longest_run, Operation};

verus! {

/// Where a run stands.
#[derive(Clone, Copy, Debug, PartialEq, Eq, Structural)]
pub enum Stage {
    /// The run has asked for the operation and waits to hear how it went.
    Awaiting(Operation),
    /// The device has been flashed.
    Done,
    /// The run has failed, in this way.
    Failed(Failure),
}

/// What the caller reports of the operation it was asked for.
#[derive(Debug, PartialEq, Eq)]
pub enum Reply {
    /// The operation succeeded. This is no answer to `ListEndpoints` and
    /// `ReadImage`, which have something to hand over: after them it counts
    /// as a failure.
    Succeeded,
    /// The operation succeeded, and these are the endpoints that the host
    /// lists. It is the only good answer to `ListEndpoints`; after
    /// `ReadImage` it counts as a failure, and elsewhere the list is not
    /// read.
    Endpoints(Vec<EndpointDescriptor>),
    /// The operation succeeded, and these are the bytes of the image that
    /// was read. It is the only good answer to `ReadImage`; after
    /// `ListEndpoints` it counts as a failure, and elsewhere the bytes are
    /// not kept.
    Image(Vec<u8>),
    /// The operation failed. The text is the path of the file for the
    /// operations on files, and the device's own words for `Connect` and
    /// `Erase`; elsewhere it is not read.
    Failed(String),
}

/// What the caller is to do next.
#[derive(Debug, PartialEq, Eq)]
pub enum Action {
    /// Perform the operation and report how it went.
    Perform(Operation),
    /// Release the endpoint and hand the message to the user: the run is
    /// over.
    Return(String),
}

/// What a run says after it has heard a reply.
#[derive(Debug, PartialEq, Eq)]
pub struct Step {
    /// What to tell the user, in this order, before anything else is done.
    pub notices: Vec<Notification>,
    pub action: Action,
}

/// One flashing run.
#[derive(Debug, PartialEq, Eq)]
pub struct Pipeline {
    pub stage: Stage,
    /// Where the images come from; `None` where the selector named no
    /// source.
    pub source: Option<Source>,
    /// The name of the endpoint to flash, as the user gave it.
    pub port: String,
    /// The images, each once it has been read.
    pub images: ImageSet,
    /// The endpoint to flash, once the host's listing has been searched.
    pub endpoint: Option<EndpointDescriptor>,
    /// The final message, once the run is over.
    pub outcome: String,
}

/// `Reply` as a mathematical value.
pub enum ReplyView {
    Succeeded,
    Endpoints(Seq<EndpointView>),
    Image(Seq<u8>),
    Failed(Seq<char>),
}

/// `Action` as a mathematical value.
pub enum ActionView {
    Perform(Operation),
    Return(Seq<char>),
}

/// `Step` as a mathematical value.
pub struct StepView {
    pub notices: Seq<NotificationView>,
    pub action: ActionView,
}

/// `Pipeline` as a mathematical value.
pub struct PipelineView {
    pub stage: Stage,
    pub source: Option<Source>,
    pub port: Seq<char>,
    pub images: ImageSetView,
    pub endpoint: Option<EndpointView>,
    pub outcome: Seq<char>,
}

/// A run after a step, together with what the step says.
pub struct Transition {
    pub state: PipelineView,
    pub step: StepView,
}

impl View for Reply {
    type V = ReplyView;

    open spec fn view(&self) -> ReplyView {
        match self {
            Reply::Succeeded => ReplyView::Succeeded,
            Reply::Endpoints(ports) => ReplyView::Endpoints(ports.deep_view()),
            Reply::Image(bytes) => ReplyView::Image(bytes@),
            Reply::Failed(detail) => ReplyView::Failed(detail@),
        }
    }
}

impl View for Action {
    type V = ActionView;

    open spec fn view(&self) -> ActionView {
        match self {
            Action::Perform(operation) => ActionView::Perform(*operation),
            Action::Return(message) => ActionView::Return(message@),
        }
    }
}

impl View for Step {
    type V = StepView;

    open spec fn view(&self) -> StepView {
        StepView { notices: self.notices.deep_view(), action: self.action@ }
    }
}

impl View for Pipeline {
    type V = PipelineView;

    open spec fn view(&self) -> PipelineView {
        PipelineView {
            stage: self.stage,
            source: self.source,
            port: self.port@,
            images: self.images@,
            endpoint: match self.endpoint {
                Some(endpoint) => Some(endpoint@),
                None => None,
            },
            outcome: self.outcome@,
        }
    }
}

impl Stage {
    /// Whether the run is over.
    pub open spec fn is_terminal(self) -> bool {
        self is Done || self is Failed
    }

    /// The place of the stage in the longest run: that of the operation the
    /// run waits for; a run that is over stands behind every operation.
    pub open spec fn position(self) -> nat {
        match self {
            Stage::Awaiting(operation) => operation.position(),
            _ => longest_run(),
        }
    }
}

impl ReplyView {
    /// Whether the operation succeeded.
    pub open spec fn is_ok(self) -> bool {
        !(self is Failed)
    }

    /// Whether the reply says that `operation` succeeded and hands over
    /// what the operation was asked for: the bytes after the read of an
    /// image, the listing after the listing of the endpoints.
    pub open spec fn confirms(self, operation: Operation) -> bool {
        match operation {
            Operation::ReadImage(_) => self is Image,
            Operation::ListEndpoints => self is Endpoints,
            _ => self.is_ok(),
        }
    }

    /// The endpoints that the reply lists; none where it lists none.
    pub open spec fn endpoints(self) -> Seq<EndpointView> {
        match self {
            ReplyView::Endpoints(ports) => ports,
            _ => Seq::empty(),
        }
    }

    /// The bytes of the image that the reply holds; none where it holds no
    /// image.
    pub open spec fn image(self) -> Seq<u8> {
        match self {
            ReplyView::Image(bytes) => bytes,
            _ => Seq::empty(),
        }
    }

    /// What the reply says of a failure; nothing where it reports none.
    pub open spec fn detail(self) -> Seq<char> {
        match self {
            ReplyView::Failed(detail) => detail,
            _ => Seq::empty(),
        }
    }
}

impl PipelineView {
    /// What holds of every run, from its beginning on. While it waits for
    /// an operation, it has a source, which the operation suits, and no
    /// final message yet; it holds each image that was to be read before
    /// that operation, so all three from the listing of the endpoints on.
    /// From the opening of the endpoint on, it knows the endpoint: a USB
    /// endpoint of the name that the user gave. Once it is over, its final
    /// message is that of the success or of its failure.
    pub open spec fn well_formed(self) -> bool {
        match self.stage {
            Stage::Awaiting(operation) => {
                &&& self.source matches Some(source)
                &&& operation.suits(source)
                &&& self.outcome.len() == 0
                &&& self.holds_images_before(operation)
                &&& operation.position() >= Operation::OpenTransport.position()
                    ==> self.knows_endpoint()
            },
            Stage::Done => {
                &&& self.outcome == success_text()
                &&& self.knows_endpoint()
                &&& self.images.is_complete()
            },
            Stage::Failed(failure) => exists|detail: Seq<char>|
                self.outcome == #[trigger] failure.text(detail, self.port),
        }
    }

    /// Whether the run holds each image that is read before `operation`.
    pub open spec fn holds_images_before(self, operation: Operation) -> bool {
        forall|artifact: Artifact|
            Operation::ReadImage(artifact).position() < operation.position() ==> (
            #[trigger] self.images.get(artifact)) is Some
    }

    /// Whether the run has picked its endpoint: a USB endpoint of the name
    /// that the user gave.
    pub open spec fn knows_endpoint(self) -> bool {
        &&& self.endpoint matches Some(endpoint)
        &&& endpoint.name == self.port
        &&& endpoint.is_usb()
    }

    /// What a run asks of its caller while it stands at its stage: the
    /// operation it waits for, or, once it is over, to hand out the final
    /// message.
    pub open spec fn pending(self) -> ActionView {
        match self.stage {
            Stage::Awaiting(operation) => ActionView::Perform(operation),
            _ => ActionView::Return(self.outcome),
        }
    }

    /// The run, failed in the way `failure`, where `detail` is what the
    /// caller reported.
    pub open spec fn fail(self, failure: Failure, detail: Seq<char>) -> Transition {
        let message = failure.text(detail, self.port);
        Transition {
            state: PipelineView { stage: Stage::Failed(failure), outcome: message, ..self },
            step: StepView { notices: seq![], action: ActionView::Return(message) },
        }
    }

    /// The run, completed.
    pub open spec fn complete(self) -> Transition {
        Transition {
            state: PipelineView { stage: Stage::Done, outcome: success_text(), ..self },
            step: StepView { notices: seq![], action: ActionView::Return(success_text()) },
        }
    }

    /// The run, waiting for `operation`, after the user has been told
    /// `notices`.
    pub open spec fn proceed(
        self,
        operation: Operation,
        notices: Seq<NotificationView>,
    ) -> Transition {
        Transition {
            state: PipelineView { stage: Stage::Awaiting(operation), ..self },
            step: StepView { notices, action: ActionView::Perform(operation) },
        }
    }

    /// The run with what a good reply to `operation` hands over: the bytes
    /// of the image after a read. Any other operation hands nothing over.
    pub open spec fn keep(self, operation: Operation, reply: ReplyView) -> PipelineView {
        match operation {
            Operation::ReadImage(artifact) => PipelineView {
                images: self.images.with(artifact, reply.image()),
                ..self
            },
            _ => self,
        }
    }

    /// The run after the success of `operation`, which `reply` reports.
    pub open spec fn succeed(self, operation: Operation, reply: ReplyView) -> Transition {
        match self.source {
            None => self.fail(Failure::InvalidSource, Seq::empty()),
            Some(source) => {
                if operation == Operation::ListEndpoints {
                    match resolve_spec(reply.endpoints(), self.port) {
                        Ok(endpoint) => PipelineView { endpoint: Some(endpoint), ..self }.proceed(
                            Operation::OpenTransport,
                            success_notices(operation, source, self.port),
                        ),
                        Err(failure) => self.fail(Failure::Endpoint(failure), Seq::empty()),
                    }
                } else {
                    match operation.following_spec(source) {
                        Some(next) => self.keep(operation, reply).proceed(
                            next,
                            success_notices(operation, source, self.port),
                        ),
                        None => self.complete(),
                    }
                }
            },
        }
    }

    /// The run after it has heard `reply`, and what it says then. A run
    /// that is over stays as it is and hands out its final message again.
    /// A failed operation ends the run with the message for that failure,
    /// and so does a reply that does not hand over the image or the listing
    /// that was asked for.
    /// After a success the run asks for the next operation; after the
    /// read of an image it first keeps the bytes; after the listing of the
    /// endpoints it first picks the one to flash, and fails where there is
    /// none; after the last operation it is done.
    pub open spec fn advance(self, reply: ReplyView) -> Transition {
        match self.stage {
            Stage::Awaiting(operation) => {
                if reply.confirms(operation) {
                    self.succeed(operation, reply)
                } else {
                    self.fail(Failure::of_operation(operation), reply.detail())
                }
            },
            _ => Transition {
                state: self,
                step: StepView { notices: seq![], action: self.pending() },
            },
        }
    }

    /// A run for the endpoint called `port` and the source selector
    /// `selector`, as it begins: the user is told that it starts; then it
    /// asks for the scratch directory, or has failed already where the
    /// selector names no source.
    pub open spec fn start(port: Seq<char>, selector: Seq<char>) -> Transition {
        let fresh = PipelineView {
            stage: Stage::Awaiting(Operation::CreateScratchDir),
            source: Source::parse_spec(selector),
            port,
            images: ImageSetView::empty(),
            endpoint: None,
            outcome: Seq::empty(),
        };
        let begun = match fresh.source {
            Some(_) => fresh.proceed(Operation::CreateScratchDir, seq![]),
            None => fresh.fail(Failure::InvalidSource, Seq::empty()),
        };
        Transition {
            state: begun.state,
            step: StepView { notices: seq![starting_notice()], action: begun.step.action },
        }
    }
}

/// A run is well formed as it begins.
pub proof fn lemma_start_is_well_formed(port: Seq<char>, selector: Seq<char>)
    ensures
        PipelineView::start(port, selector).state.well_formed(),
{
    let begun = PipelineView::start(port, selector).state;
    if let Stage::Failed(failure) = begun.stage {
        let detail = Seq::<char>::empty();
        assert(begun.outcome == failure.text(detail, begun.port));
    }
}

/// A run that is well formed stays so, whatever it hears.
pub proof fn lemma_advance_keeps_well_formed(run: PipelineView, reply: ReplyView)
    requires
        run.well_formed(),
    ensures
        run.advance(reply).state.well_formed(),
{
    let next = run.advance(reply).state;
    if let Stage::Awaiting(operation) = run.stage {
        let source = run.source->0;
        lemma_following_is_later(operation, source);
        if operation == Operation::ListEndpoints && reply.confirms(operation) {
            lemma_resolution_is_justified(reply.endpoints(), run.port);
        }
        if let Stage::Awaiting(following) = next.stage {
            assert forall|artifact: Artifact|
                Operation::ReadImage(artifact).position() < following.position() implies (
            #[trigger] next.images.get(artifact)) is Some by {
                if Operation::ReadImage(artifact).position() < operation.position() {
                    assert(run.images.get(artifact) is Some);
                }
            }
        }
        if next.stage is Done {
            assert(run.images.get(Artifact::Firmware) is Some);
            assert(run.images.get(Artifact::Bootloader) is Some);
            assert(run.images.get(Artifact::Partitions) is Some);
        }
        if let Stage::Failed(failure) = next.stage {
            let detail = if reply.confirms(operation) {
                Seq::<char>::empty()
            } else {
                reply.detail()
            };
            assert(next.outcome == failure.text(detail, next.port));
        }
    }
}

impl Reply {
    /// Whether the operation succeeded.
    pub fn is_ok(&self) -> (ok: bool)
        ensures
            ok == self@.is_ok(),
    {
        match self {
            Reply::Failed(_) => false,
            _ => true,
        }
    }

    /// Whether the reply says that `operation` succeeded and hands over
    /// what the operation was asked for.
    pub fn confirms(&self, operation: Operation) -> (confirmed: bool)
        ensures
            confirmed == self@.confirms(operation),
    {
        match operation {
            Operation::ReadImage(_) => match self {
                Reply::Image(_) => true,
                _ => false,
            },
            Operation::ListEndpoints => match self {
                Reply::Endpoints(_) => true,
                _ => false,
            },
            _ => self.is_ok(),
        }
    }
}

impl Pipeline {
    /// Begins a run for the endpoint called `port_str`, with the images
    /// from `source`.
    pub fn start(port_str: &str, source: &str) -> (begun: (Pipeline, Step))
        ensures
            begun.0@ == PipelineView::start(port_str@, source@).state,
            begun.1@ == PipelineView::start(port_str@, source@).step,
            begun.0@.well_formed(),
    {
        proof {
            lemma_start_is_well_formed(port_str@, source@);
        }
        let mut notices: Vec<Notification> = Vec::new();
        notices.push(starting());
        assert(notices.deep_view() =~= seq![starting_notice()]);
        let parsed = Source::parse(source);
        let port = port_str.to_owned();
        match parsed {
            Some(_) => {
                let run = Pipeline {
                    stage: Stage::Awaiting(Operation::CreateScratchDir),
                    source: parsed,
                    port,
                    images: ImageSet::new(),
                    endpoint: None,
                    outcome: String::new(),
                };
                (run, Step { notices, action: Action::Perform(Operation::CreateScratchDir) })
            },
            None => {
                let message = Failure::InvalidSource.message("", port_str);
                let run = Pipeline {
                    stage: Stage::Failed(Failure::InvalidSource),
                    source: parsed,
                    port,
                    images: ImageSet::new(),
                    endpoint: None,
                    outcome: message.clone(),
                };
                (run, Step { notices, action: Action::Return(message) })
            },
        }
    }

    /// Whether the run is over.
    pub fn is_over(&self) -> (over: bool)
        ensures
            over == self@.stage.is_terminal(),
    {
        match self.stage {
            Stage::Awaiting(_) => false,
            _ => true,
        }
    }

    /// Ends the run as failed.
    fn fail(&mut self, failure: Failure, detail: &str) -> (step: Step)
        ensures
            final(self)@ == old(self)@.fail(failure, detail@).state,
            step@ == old(self)@.fail(failure, detail@).step,
    {
        let message = failure.message(detail, self.port.as_str());
        self.stage = Stage::Failed(failure);
        self.outcome = message.clone();
        let step = Step { notices: Vec::new(), action: Action::Return(message) };
        assert(step@.notices =~= seq![]);
        step
    }

    /// Hears how the operation went that the run has asked for, and says
    /// what to tell the user and what to do next.
    pub fn advance(&mut self, reply: Reply) -> (step: Step)
        ensures
            final(self)@ == old(self)@.advance(reply@).state,
            step@ == old(self)@.advance(reply@).step,
            old(self)@.well_formed() ==> final(self)@.well_formed(),
    {
        proof {
            if old(self)@.well_formed() {
                lemma_advance_keeps_well_formed(old(self)@, reply@);
            }
        }
        let operation = match self.stage {
            Stage::Awaiting(operation) => operation,
            _ => {
                let step = Step {
                    notices: Vec::new(),
                    action: Action::Return(self.outcome.clone()),
                };
                assert(step@.notices =~= seq![]);
                return step;
            },
        };
        if !reply.confirms(operation) {
            let detail = match reply {
                Reply::Failed(detail) => detail,
                _ => String::new(),
            };
            return self.fail(Failure::from_operation(operation), detail.as_str());
        }
        let (listed, image): (Vec<EndpointDescriptor>, Vec<u8>) = match reply {
            Reply::Failed(_) => (Vec::new(), Vec::new()),
            Reply::Endpoints(ports) => (ports, Vec::new()),
            Reply::Image(bytes) => (Vec::new(), bytes),
            Reply::Succeeded => (Vec::new(), Vec::new()),
        };
        assert(listed.deep_view() =~= reply@.endpoints());
        assert(image@ =~= reply@.image());
        let source = match self.source {
            Some(source) => source,
            None => {
                return self.fail(Failure::InvalidSource, "");
            },
        };
        let next = match operation {
            Operation::ListEndpoints => {
                match find_endpoint(&listed, self.port.as_str()) {
                    Ok(endpoint) => {
                        self.endpoint = Some(endpoint);
                        Some(Operation::OpenTransport)
                    },
                    Err(failure) => {
                        return self.fail(Failure::Endpoint(failure), "");
                    },
                }
            },
            Operation::ReadImage(artifact) => {
                self.images.store(artifact, image);
                operation.following(source)
            },
            _ => operation.following(source),
        };
        match next {
            Some(next) => {
                self.stage = Stage::Awaiting(next);
                Step {
                    notices: notices_after(operation, source, self.port.as_str()),
                    action: Action::Perform(next),
                }
            },
            None => {
                let message = success_message();
                self.stage = Stage::Done;
                self.outcome = message.clone();
                let step = Step { notices: Vec::new(), action: Action::Return(message) };
                assert(step@.notices =~= seq![]);
                step
            },
        }
    }
}

} // verus!
