//! The operations of a flashing run: what the caller is asked to do on the
//! machine, one at a time, and in which order.

use vstd::prelude::*;
use crate::artifact::{Artifact, Source};

verus! {

/// One piece of work on the machine that the caller performs for a run.
#[derive(Clone, Copy, Debug, PartialEq, Eq, Structural)]
pub enum Operation {
    /// Create the scratch directory of the run.
    CreateScratchDir,
    /// Find the working directory, below which the local images lie.
    LocateWorkingDir,
    /// Request the image from the server.
    Fetch(Artifact),
    /// Put the path of the image's file in the scratch directory into text.
    ResolvePath(Artifact),
    /// Create the image's file in the scratch directory.
    CreateFile(Artifact),
    /// Read the bytes that the server sent for the image.
    ReadBody(Artifact),
    /// Write those bytes to the image's file.
    WriteFile(Artifact),
    /// Read the image into memory, from where the acquisition has put or
    /// found it.
    ReadImage(Artifact),
    /// List the serial endpoints of the host.
    ListEndpoints,
    /// Open the endpoint at the opening baud rate, without flow control.
    OpenTransport,
    /// Synchronise with the bootloader of the device.
    Connect,
    /// Erase the whole flash.
    Erase,
    /// Load the bootloader and the partition table for programming.
    LoadFlashData,
    /// Ask the device for its crystal frequency.
    QueryCrystal,
    /// Write the images to the flash.
    Program,
}

impl Operation {
    /// The operation after this one has succeeded, for a run that takes its
    /// images from `source`; `None` after the last one.
    pub open spec fn following_spec(self, source: Source) -> Option<Operation> {
        match self {
            Operation::CreateScratchDir => match source {
                Source::Server => Some(Operation::Fetch(Artifact::Firmware)),
                Source::Local => Some(Operation::LocateWorkingDir),
            },
            Operation::LocateWorkingDir => Some(Operation::ReadImage(Artifact::Firmware)),
            Operation::Fetch(artifact) => match artifact.following_spec() {
                Some(next) => Some(Operation::Fetch(next)),
                None => Some(Operation::ResolvePath(Artifact::Firmware)),
            },
            Operation::ResolvePath(artifact) => Some(Operation::CreateFile(artifact)),
            Operation::CreateFile(artifact) => Some(Operation::ReadBody(artifact)),
            Operation::ReadBody(artifact) => Some(Operation::WriteFile(artifact)),
            Operation::WriteFile(artifact) => match artifact.following_spec() {
                Some(next) => Some(Operation::ResolvePath(next)),
                None => Some(Operation::ReadImage(Artifact::Firmware)),
            },
            Operation::ReadImage(artifact) => match artifact.following_spec() {
                Some(next) => Some(Operation::ReadImage(next)),
                None => Some(Operation::ListEndpoints),
            },
            Operation::ListEndpoints => Some(Operation::OpenTransport),
            Operation::OpenTransport => Some(Operation::Connect),
            Operation::Connect => Some(Operation::Erase),
            Operation::Erase => Some(Operation::LoadFlashData),
            Operation::LoadFlashData => Some(Operation::QueryCrystal),
            Operation::QueryCrystal => Some(Operation::Program),
            Operation::Program => None,
        }
    }

    /// The operation after this one has succeeded; `None` after the last
    /// one.
    pub fn following(self, source: Source) -> (next: Option<Operation>)
        ensures
            next == self.following_spec(source),
    {
        match self {
            Operation::CreateScratchDir => match source {
                Source::Server => Some(Operation::Fetch(Artifact::Firmware)),
                Source::Local => Some(Operation::LocateWorkingDir),
            },
            Operation::LocateWorkingDir => Some(Operation::ReadImage(Artifact::Firmware)),
            Operation::Fetch(artifact) => match artifact.following() {
                Some(next) => Some(Operation::Fetch(next)),
                None => Some(Operation::ResolvePath(Artifact::Firmware)),
            },
            Operation::ResolvePath(artifact) => Some(Operation::CreateFile(artifact)),
            Operation::CreateFile(artifact) => Some(Operation::ReadBody(artifact)),
            Operation::ReadBody(artifact) => Some(Operation::WriteFile(artifact)),
            Operation::WriteFile(artifact) => match artifact.following() {
                Some(next) => Some(Operation::ResolvePath(next)),
                None => Some(Operation::ReadImage(Artifact::Firmware)),
            },
            Operation::ReadImage(artifact) => match artifact.following() {
                Some(next) => Some(Operation::ReadImage(next)),
                None => Some(Operation::ListEndpoints),
            },
            Operation::ListEndpoints => Some(Operation::OpenTransport),
            Operation::OpenTransport => Some(Operation::Connect),
            Operation::Connect => Some(Operation::Erase),
            Operation::Erase => Some(Operation::LoadFlashData),
            Operation::LoadFlashData => Some(Operation::QueryCrystal),
            Operation::QueryCrystal => Some(Operation::Program),
            Operation::Program => None,
        }
    }

    /// The place of an image in the order in which the images are handled.
    pub open spec fn artifact_index(artifact: Artifact) -> nat {
        match artifact {
            Artifact::Firmware => 0,
            Artifact::Bootloader => 1,
            Artifact::Partitions => 2,
        }
    }

    /// The place of the operation in the longest run: the scratch directory
    /// comes first, programming last.
    pub open spec fn position(self) -> nat {
        match self {
            Operation::CreateScratchDir => 0,
            Operation::Fetch(artifact) => 1 + Self::artifact_index(artifact),
            Operation::ResolvePath(artifact) => 4 + 4 * Self::artifact_index(artifact),
            Operation::CreateFile(artifact) => 5 + 4 * Self::artifact_index(artifact),
            Operation::ReadBody(artifact) => 6 + 4 * Self::artifact_index(artifact),
            Operation::WriteFile(artifact) => 7 + 4 * Self::artifact_index(artifact),
            Operation::LocateWorkingDir => 15,
            Operation::ReadImage(artifact) => 16 + Self::artifact_index(artifact),
            Operation::ListEndpoints => 19,
            Operation::OpenTransport => 20,
            Operation::Connect => 21,
            Operation::Erase => 22,
            Operation::LoadFlashData => 23,
            Operation::QueryCrystal => 24,
            Operation::Program => 25,
        }
    }

    /// Whether the operation belongs to the download of the images.
    pub open spec fn is_download(self) -> bool {
        match self {
            Operation::Fetch(_)
            | Operation::ResolvePath(_)
            | Operation::CreateFile(_)
            | Operation::ReadBody(_)
            | Operation::WriteFile(_) => true,
            _ => false,
        }
    }

    /// Whether a run that takes its images from `source` ever performs the
    /// operation: a local run downloads nothing, and a run that downloads
    /// does not look into the working directory.
    pub open spec fn suits(self, source: Source) -> bool {
        match source {
            Source::Local => !self.is_download(),
            Source::Server => self != Operation::LocateWorkingDir,
        }
    }

}

/// The longest run performs this many operations.
pub open spec fn longest_run() -> nat {
    26
}

/// Each operation is followed by one that stands later in the order and
/// suits the same source, and no operation that suits the source stands
/// between the two.
pub proof fn lemma_following_is_later(operation: Operation, source: Source)
    ensures
        operation.position() < longest_run(),
        operation.following_spec(source) matches Some(next) ==> {
            &&& operation.position() < next.position()
            &&& operation.suits(source) ==> next.suits(source)
            &&& forall|between: Operation|
                between.suits(source) && #[trigger] between.position() < next.position()
                    ==> between.position() <= operation.position()
        },
{
}

/// The image at a place in the order in which the images are handled.
pub open spec fn artifact_at(index: nat) -> Artifact {
    if index == 0 {
        Artifact::Firmware
    } else if index == 1 {
        Artifact::Bootloader
    } else {
        Artifact::Partitions
    }
}

/// The operation that a run from `source` performs at a place of the
/// order.
pub open spec fn operation_at(position: nat, source: Source) -> Operation {
    if position == 0 {
        Operation::CreateScratchDir
    } else if position <= 3 {
        Operation::Fetch(artifact_at((position - 1) as nat))
    } else if position <= 14 || (position == 15 && source == Source::Server) {
        let artifact = artifact_at(((position - 4) / 4) as nat);
        let step = (position - 4) % 4;
        if step == 0 {
            Operation::ResolvePath(artifact)
        } else if step == 1 {
            Operation::CreateFile(artifact)
        } else if step == 2 {
            Operation::ReadBody(artifact)
        } else {
            Operation::WriteFile(artifact)
        }
    } else if position == 15 {
        Operation::LocateWorkingDir
    } else if position <= 18 {
        Operation::ReadImage(artifact_at((position - 16) as nat))
    } else if position == 19 {
        Operation::ListEndpoints
    } else if position == 20 {
        Operation::OpenTransport
    } else if position == 21 {
        Operation::Connect
    } else if position == 22 {
        Operation::Erase
    } else if position == 23 {
        Operation::LoadFlashData
    } else if position == 24 {
        Operation::QueryCrystal
    } else {
        Operation::Program
    }
}

/// An operation that suits a source is the one that stands at its place.
pub proof fn lemma_operation_stands_at_its_position(operation: Operation, source: Source)
    requires
        operation.suits(source),
    ensures
        operation_at(operation.position(), source) == operation,
{
    match operation {
        Operation::Fetch(artifact)
        | Operation::ResolvePath(artifact)
        | Operation::CreateFile(artifact)
        | Operation::ReadBody(artifact)
        | Operation::WriteFile(artifact)
        | Operation::ReadImage(artifact) => {
            assert(artifact_at(Operation::artifact_index(artifact)) == artifact);
        },
        _ => {},
    }
}

/// Among the operations that suit one source, each has a place of its own.
pub proof fn lemma_position_tells_apart(first: Operation, second: Operation, source: Source)
    requires
        first.suits(source),
        second.suits(source),
        first.position() == second.position(),
    ensures
        first == second,
{
    lemma_operation_stands_at_its_position(first, source);
    lemma_operation_stands_at_its_position(second, source);
}

} // verus!
