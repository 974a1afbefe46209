//! The texts of a flashing run: what the user is told after each operation,
//! and the final message of the run.

use vstd::prelude::*;
use crate::artifact::{Artifact, Source};
use crate::endpoint::EndpointResolutionFailure;
use crate::notice::{Notification, NotificationView, Tag};
use crate::operation::Operation;
use crate::text::{
    contains_spec, join2, join3, lemma_contained_in_wrapped, lemma_middle_is_contained,
};

verus! {

/// Why a run has failed.
#[derive(Clone, Copy, Debug, PartialEq, Eq, Structural)]
pub enum Failure {
    /// The source selector names no source.
    InvalidSource,
    /// The operation failed on the machine.
    Operation(Operation),
    /// No endpoint to flash was found.
    Endpoint(EndpointResolutionFailure),
}

/// The final message of a run that failed for `reason`.
pub open spec fn failure_text(reason: Seq<char>) -> Seq<char> {
    Tag::Red.wrap_spec("Failed to flash firmware! ("@ + reason + ")"@)
}

/// The final message of a run that succeeded.
pub open spec fn success_text() -> Seq<char> {
    Tag::Green.wrap_spec("Successfully flashed firmware!"@)
}

/// The final message of a run whose source selector names no source.
pub open spec fn invalid_source_text() -> Seq<char> {
    failure_text("Invalid source"@)
}

/// Why an operation failed, in words. `detail` is what the caller
/// reported: the path of the file for the operations on files, the device's
/// own words for the connection and the erasure. `port` is the name of the
/// endpoint.
pub open spec fn failure_reason(operation: Operation, detail: Seq<char>, port: Seq<char>) -> Seq<
    char,
> {
    match operation {
        Operation::CreateScratchDir => "Couldn't create temp directory"@,
        Operation::LocateWorkingDir => "Couldn't fetch current directory"@,
        Operation::Fetch(artifact) => "Couldn't fetch "@ + artifact.label_spec()
            + " binary from QTShock servers"@,
        Operation::ResolvePath(_) => "Invalid new file path"@,
        Operation::CreateFile(_) => "Couldn't create file: "@ + detail,
        Operation::ReadBody(_) => "Couldn't read bytes from response for: "@ + detail,
        Operation::WriteFile(_) => "Couldn't write binary bytes to file '"@ + detail + "'"@,
        Operation::ReadImage(_) => "Local binary not found or invalid at '"@ + detail + "'"@,
        Operation::ListEndpoints => "Couldn't list serial ports"@,
        Operation::OpenTransport => "Couldn't open serial port '"@ + port
            + "'. Is it already in use?"@,
        Operation::Connect => detail,
        Operation::Erase => detail,
        Operation::LoadFlashData => "Bad flash data"@,
        Operation::QueryCrystal => "Couldn't fetch crystal frequency"@,
        Operation::Program => "Flashing FAILED"@,
    }
}

/// The final message of a run in which `operation` failed, on the endpoint
/// called `port`. The message for an endpoint that could not be opened ends
/// with its question; every other message closes its bracket.
pub open spec fn operation_failure_text(
    operation: Operation,
    detail: Seq<char>,
    port: Seq<char>,
) -> Seq<char> {
    if operation == Operation::OpenTransport {
        Tag::Red.wrap_spec(
            "Failed to flash firmware! ("@ + failure_reason(operation, detail, port),
        )
    } else {
        failure_text(failure_reason(operation, detail, port))
    }
}

/// The final message of a run that found no endpoint to flash.
pub open spec fn resolution_failure_text(
    failure: EndpointResolutionFailure,
    port: Seq<char>,
) -> Seq<char> {
    match failure {
        EndpointResolutionFailure::NoSuchEndpoint => failure_text(
            "Port '"@ + port + "' doesn't exist"@,
        ),
        EndpointResolutionFailure::NotUsb => failure_text("Invalid port '"@ + port + "'"@),
        EndpointResolutionFailure::EnumerationFailed => failure_text(
            failure_reason(Operation::ListEndpoints, Seq::empty(), port),
        ),
    }
}

impl Failure {
    /// The failure of a run in which `operation` failed. A host that cannot
    /// list its endpoints leaves the run without an endpoint.
    pub open spec fn of_operation(operation: Operation) -> Failure {
        if operation == Operation::ListEndpoints {
            Failure::Endpoint(EndpointResolutionFailure::EnumerationFailed)
        } else {
            Failure::Operation(operation)
        }
    }

    /// The final message of a run that has failed in this way, on the
    /// endpoint called `port`; `detail` is what the caller reported of a
    /// failed operation.
    pub open spec fn text(self, detail: Seq<char>, port: Seq<char>) -> Seq<char> {
        match self {
            Failure::InvalidSource => invalid_source_text(),
            Failure::Operation(operation) => operation_failure_text(operation, detail, port),
            Failure::Endpoint(failure) => resolution_failure_text(failure, port),
        }
    }

    /// The failure of a run in which `operation` failed.
    pub fn from_operation(operation: Operation) -> (failure: Failure)
        ensures
            failure == Failure::of_operation(operation),
    {
        match operation {
            Operation::ListEndpoints => Failure::Endpoint(
                EndpointResolutionFailure::EnumerationFailed,
            ),
            _ => Failure::Operation(operation),
        }
    }

    /// Builds the final message of a run that has failed in this way.
    pub fn message(self, detail: &str, port: &str) -> (message: String)
        ensures
            message@ == self.text(detail@, port@),
    {
        match self {
            Failure::InvalidSource => invalid_source_message(),
            Failure::Operation(operation) => operation_failure_message(operation, detail, port),
            Failure::Endpoint(failure) => resolution_failure_message(failure, port),
        }
    }
}

/// What the user is told when a run begins.
pub open spec fn starting_notice() -> NotificationView {
    NotificationView::tagged(Tag::Yellow, "Starting flash..."@, 0)
}

/// What the user is told once the endpoint called `port` has been found.
pub open spec fn found_notice(port: Seq<char>) -> NotificationView {
    NotificationView::tagged(Tag::Yellow, "Found USB port '"@ + port + "'!"@, 20)
}

/// What the user is told after `operation` has succeeded, in a run that
/// takes its images from `source` and flashes the endpoint called `port`.
pub open spec fn success_notices(operation: Operation, source: Source, port: Seq<char>) -> Seq<
    NotificationView,
> {
    match operation {
        Operation::CreateScratchDir => match source {
            Source::Server => seq![
                NotificationView::tagged(Tag::Blue, "Downloading binaries..."@, 15),
            ],
            Source::Local => seq![],
        },
        Operation::ReadImage(Artifact::Firmware) => seq![
            NotificationView::tagged(Tag::Yellow, "Read local firmware binary!"@, 70),
        ],
        Operation::ListEndpoints => seq![found_notice(port)],
        Operation::OpenTransport => seq![
            NotificationView::tagged(
                Tag::Yellow,
                "Opened connection on serial port '"@ + port + "'!"@,
                40,
            ),
            NotificationView::tagged(Tag::Blue, "Connecting to QTShock flash..."@, 45),
        ],
        Operation::Connect => seq![
            NotificationView::tagged(Tag::Yellow, "Set up flasher!"@, 55),
            NotificationView::tagged(Tag::Blue, "Erasing existing flash..."@, 65),
        ],
        Operation::Erase => seq![
            NotificationView::tagged(Tag::Yellow, "Erased existing flash!"@, 70),
        ],
        Operation::LoadFlashData => seq![
            NotificationView::tagged(Tag::Yellow, "Set up flash data!"@, 85),
        ],
        Operation::QueryCrystal => seq![
            NotificationView::tagged(Tag::Yellow, "Got crystal frequency!"@, 100),
        ],
        _ => seq![],
    }
}

/// Builds the final message of a run that failed for `reason`.
pub fn failure_message(reason: &str) -> (message: String)
    ensures
        message@ == failure_text(reason@),
{
    let inner = join3("Failed to flash firmware! (", reason, ")");
    Tag::Red.wrap(inner.as_str())
}

/// Builds the final message of a run that succeeded.
pub fn success_message() -> (message: String)
    ensures
        message@ == success_text(),
{
    Tag::Green.wrap("Successfully flashed firmware!")
}

/// Builds the final message of a run whose source selector names no source.
pub fn invalid_source_message() -> (message: String)
    ensures
        message@ == invalid_source_text(),
{
    failure_message("Invalid source")
}

/// Builds the final message of a run in which `operation` failed.
pub fn operation_failure_message(
    operation: Operation,
    detail: &str,
    port: &str,
) -> (message: String)
    ensures
        message@ == operation_failure_text(operation, detail@, port@),
{
    match operation {
        Operation::CreateScratchDir => failure_message("Couldn't create temp directory"),
        Operation::LocateWorkingDir => failure_message("Couldn't fetch current directory"),
        Operation::Fetch(artifact) => {
            let reason = join3("Couldn't fetch ", artifact.label(), " binary from QTShock servers");
            failure_message(reason.as_str())
        },
        Operation::ResolvePath(_) => failure_message("Invalid new file path"),
        Operation::CreateFile(_) => {
            let reason = join2("Couldn't create file: ", detail);
            failure_message(reason.as_str())
        },
        Operation::ReadBody(_) => {
            let reason = join2("Couldn't read bytes from response for: ", detail);
            failure_message(reason.as_str())
        },
        Operation::WriteFile(_) => {
            let reason = join3("Couldn't write binary bytes to file '", detail, "'");
            failure_message(reason.as_str())
        },
        Operation::ReadImage(_) => {
            let reason = join3("Local binary not found or invalid at '", detail, "'");
            failure_message(reason.as_str())
        },
        Operation::ListEndpoints => failure_message("Couldn't list serial ports"),
        Operation::OpenTransport => {
            let reason = join3("Couldn't open serial port '", port, "'. Is it already in use?");
            let inner = join2("Failed to flash firmware! (", reason.as_str());
            Tag::Red.wrap(inner.as_str())
        },
        Operation::Connect => failure_message(detail),
        Operation::Erase => failure_message(detail),
        Operation::LoadFlashData => failure_message("Bad flash data"),
        Operation::QueryCrystal => failure_message("Couldn't fetch crystal frequency"),
        Operation::Program => failure_message("Flashing FAILED"),
    }
}

/// Builds the final message of a run that found no endpoint to flash.
pub fn resolution_failure_message(
    failure: EndpointResolutionFailure,
    port: &str,
) -> (message: String)
    ensures
        message@ == resolution_failure_text(failure, port@),
{
    match failure {
        EndpointResolutionFailure::NoSuchEndpoint => {
            let reason = join3("Port '", port, "' doesn't exist");
            failure_message(reason.as_str())
        },
        EndpointResolutionFailure::NotUsb => {
            let reason = join3("Invalid port '", port, "'");
            failure_message(reason.as_str())
        },
        EndpointResolutionFailure::EnumerationFailed => failure_message(
            "Couldn't list serial ports",
        ),
    }
}

/// Builds what the user is told when a run begins.
pub fn starting() -> (notice: Notification)
    ensures
        notice@ == starting_notice(),
{
    Notification::tagged(Tag::Yellow, "Starting flash...", 0)
}

/// Builds what the user is told after `operation` has succeeded.
pub fn notices_after(
    operation: Operation,
    source: Source,
    port: &str,
) -> (notices: Vec<Notification>)
    ensures
        notices.deep_view() == success_notices(operation, source, port@),
{
    let mut notices: Vec<Notification> = Vec::new();
    match operation {
        Operation::CreateScratchDir => match source {
            Source::Server => {
                notices.push(Notification::tagged(Tag::Blue, "Downloading binaries...", 15));
            },
            Source::Local => {},
        },
        Operation::ReadImage(Artifact::Firmware) => {
            notices.push(Notification::tagged(Tag::Yellow, "Read local firmware binary!", 70));
        },
        Operation::ListEndpoints => {
            let text = join3("Found USB port '", port, "'!");
            notices.push(Notification::tagged(Tag::Yellow, text.as_str(), 20));
        },
        Operation::OpenTransport => {
            let text = join3("Opened connection on serial port '", port, "'!");
            notices.push(Notification::tagged(Tag::Yellow, text.as_str(), 40));
            notices.push(Notification::tagged(Tag::Blue, "Connecting to QTShock flash...", 45));
        },
        Operation::Connect => {
            notices.push(Notification::tagged(Tag::Yellow, "Set up flasher!", 55));
            notices.push(Notification::tagged(Tag::Blue, "Erasing existing flash...", 65));
        },
        Operation::Erase => {
            notices.push(Notification::tagged(Tag::Yellow, "Erased existing flash!", 70));
        },
        Operation::LoadFlashData => {
            notices.push(Notification::tagged(Tag::Yellow, "Set up flash data!", 85));
        },
        Operation::QueryCrystal => {
            notices.push(Notification::tagged(Tag::Yellow, "Got crystal frequency!", 100));
        },
        _ => {},
    }
    assert(notices.deep_view() =~= success_notices(operation, source, port@));
    notices
}

/// Every message that says how far a run has come gives a percentage, and
/// none is above 100.
pub proof fn lemma_notices_in_range(operation: Operation, source: Source, port: Seq<char>)
    ensures
        starting_notice().progress.in_range(),
        forall|i: int|
            0 <= i < success_notices(operation, source, port).len() ==> (
            #[trigger] success_notices(operation, source, port)[i]).progress.in_range(),
{
}

/// Whatever went wrong, the final message of a failed run is marked up as a
/// failure, and the final message of a successful run as a success.
pub proof fn lemma_final_messages_are_tagged(failure: Failure, detail: Seq<char>, port: Seq<char>)
    ensures
        exists|inner: Seq<char>| failure.text(detail, port) == #[trigger] Tag::Red.wrap_spec(inner),
        exists|inner: Seq<char>| success_text() == #[trigger] Tag::Green.wrap_spec(inner),
{
    let text = failure.text(detail, port);
    let inner = text.subrange(3, text.len() - 4);
    reveal_strlit("<r>");
    reveal_strlit("</r>");
    assert(text =~= Tag::Red.wrap_spec(inner));
    assert(success_text() == Tag::Green.wrap_spec("Successfully flashed firmware!"@));
}

/// The message of a failed download names the image that could not be
/// fetched, and no two images share a message.
pub proof fn lemma_fetch_failure_names_image(
    artifact: Artifact,
    other: Artifact,
    detail: Seq<char>,
    port: Seq<char>,
)
    ensures
        contains_spec(
            Failure::Operation(Operation::Fetch(artifact)).text(detail, port),
            artifact.label_spec(),
        ),
        artifact != other ==> Failure::Operation(Operation::Fetch(artifact)).text(detail, port)
            != Failure::Operation(Operation::Fetch(other)).text(detail, port),
{
    let head = "Couldn't fetch "@;
    let tail = " binary from QTShock servers"@;
    let reason = head + artifact.label_spec() + tail;
    lemma_middle_is_contained(head, artifact.label_spec(), tail);
    lemma_contained_in_wrapped(
        "Failed to flash firmware! ("@,
        reason,
        ")"@,
        artifact.label_spec(),
    );
    lemma_contained_in_wrapped(
        Tag::Red.opening(),
        "Failed to flash firmware! ("@ + reason + ")"@,
        Tag::Red.closing(),
        artifact.label_spec(),
    );
    if artifact != other {
        reveal_strlit("firmware");
        reveal_strlit("bootloader");
        reveal_strlit("partitions");
        let mine = Failure::Operation(Operation::Fetch(artifact)).text(detail, port);
        let theirs = Failure::Operation(Operation::Fetch(other)).text(detail, port);
        let at = Tag::Red.opening().len() + "Failed to flash firmware! ("@.len() + head.len();
        assert(mine[at as int] == artifact.label_spec()[0]);
        assert(theirs[at as int] == other.label_spec()[0]);
    }
}

/// The message of a run that found no endpoint to flash, or could not open
/// it, holds the name of the endpoint as the user gave it.
pub proof fn lemma_endpoint_failure_names_port(detail: Seq<char>, port: Seq<char>)
    ensures
        contains_spec(
            Failure::Endpoint(EndpointResolutionFailure::NoSuchEndpoint).text(detail, port),
            port,
        ),
        contains_spec(
            Failure::Endpoint(EndpointResolutionFailure::NotUsb).text(detail, port),
            port,
        ),
        contains_spec(Failure::Operation(Operation::OpenTransport).text(detail, port), port),
{
    let open = "Failed to flash firmware! ("@;
    lemma_middle_is_contained("Port '"@, port, "' doesn't exist"@);
    lemma_contained_in_wrapped(open, "Port '"@ + port + "' doesn't exist"@, ")"@, port);
    lemma_contained_in_wrapped(
        Tag::Red.opening(),
        open + ("Port '"@ + port + "' doesn't exist"@) + ")"@,
        Tag::Red.closing(),
        port,
    );
    lemma_middle_is_contained("Invalid port '"@, port, "'"@);
    lemma_contained_in_wrapped(open, "Invalid port '"@ + port + "'"@, ")"@, port);
    lemma_contained_in_wrapped(
        Tag::Red.opening(),
        open + ("Invalid port '"@ + port + "'"@) + ")"@,
        Tag::Red.closing(),
        port,
    );
    let question = "Couldn't open serial port '"@ + port + "'. Is it already in use?"@;
    lemma_middle_is_contained("Couldn't open serial port '"@, port, "'. Is it already in use?"@);
    lemma_contained_in_wrapped(open, question, Seq::empty(), port);
    assert(open + question + Seq::<char>::empty() =~= open + question);
    lemma_contained_in_wrapped(Tag::Red.opening(), open + question, Tag::Red.closing(), port);
}

} // verus!
