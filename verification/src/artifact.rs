//! The binary images that make up a firmware: where they come from, and
//! the set of the three once they are in memory.

use vstd::prelude::*;
use crate::text::same_text;

verus! {

/// One of the three images that are written to the device.
#[derive(Clone, Copy, Debug, PartialEq, Eq, Structural)]
pub enum Artifact {
    /// The application image, an ELF file.
    Firmware,
    /// The bootloader, a raw binary.
    Bootloader,
    /// The partition table, a raw binary.
    Partitions,
}

/// Where the images are taken from.
#[derive(Clone, Copy, Debug, PartialEq, Eq, Structural)]
pub enum Source {
    /// Downloaded from the vendor's server into a scratch directory.
    Server,
    /// Read from the `bin` directory under the working directory.
    Local,
}

impl Source {
    /// The source that a selector names: `server` or `local`, nothing else.
    pub open spec fn parse_spec(selector: Seq<char>) -> Option<Source> {
        if selector == "server"@ {
            Some(Source::Server)
        } else if selector == "local"@ {
            Some(Source::Local)
        } else {
            None
        }
    }

    /// Reads a source selector.
    pub fn parse(selector: &str) -> (source: Option<Source>)
        ensures
            source == Source::parse_spec(selector@),
    {
        if same_text(selector, "server") {
            Some(Source::Server)
        } else if same_text(selector, "local") {
            Some(Source::Local)
        } else {
            None
        }
    }
}

impl Artifact {
    /// The word for the image in messages.
    pub open spec fn label_spec(self) -> Seq<char> {
        match self {
            Artifact::Firmware => "firmware"@,
            Artifact::Bootloader => "bootloader"@,
            Artifact::Partitions => "partitions"@,
        }
    }

    /// The name of the image's file.
    pub open spec fn file_name_spec(self) -> Seq<char> {
        match self {
            Artifact::Firmware => "firmware.elf"@,
            Artifact::Bootloader => "bootloader.bin"@,
            Artifact::Partitions => "partitions.bin"@,
        }
    }

    /// The address from which the image is downloaded.
    pub open spec fn url_spec(self) -> Seq<char> {
        match self {
            Artifact::Firmware => "https://qtshock.com/downloads/bin/firmware.elf"@,
            Artifact::Bootloader => "https://qtshock.com/downloads/bin/bootloader.bin"@,
            Artifact::Partitions => "https://qtshock.com/downloads/bin/partitions.bin"@,
        }
    }

    /// The image's path below the working directory.
    pub open spec fn local_path_spec(self) -> Seq<char> {
        match self {
            Artifact::Firmware => "bin/firmware.elf"@,
            Artifact::Bootloader => "bin/bootloader.bin"@,
            Artifact::Partitions => "bin/partitions.bin"@,
        }
    }

    /// The word for the image in messages.
    pub fn label(self) -> (word: &'static str)
        ensures
            word@ == self.label_spec(),
    {
        match self {
            Artifact::Firmware => "firmware",
            Artifact::Bootloader => "bootloader",
            Artifact::Partitions => "partitions",
        }
    }

    /// The name of the image's file, in the scratch directory as on the
    /// server.
    pub fn file_name(self) -> (name: &'static str)
        ensures
            name@ == self.file_name_spec(),
    {
        match self {
            Artifact::Firmware => "firmware.elf",
            Artifact::Bootloader => "bootloader.bin",
            Artifact::Partitions => "partitions.bin",
        }
    }

    /// The address from which the image is downloaded.
    pub fn url(self) -> (address: &'static str)
        ensures
            address@ == self.url_spec(),
    {
        match self {
            Artifact::Firmware => "https://qtshock.com/downloads/bin/firmware.elf",
            Artifact::Bootloader => "https://qtshock.com/downloads/bin/bootloader.bin",
            Artifact::Partitions => "https://qtshock.com/downloads/bin/partitions.bin",
        }
    }

    /// The image's path below the working directory, for a local source.
    pub fn local_path(self) -> (path: &'static str)
        ensures
            path@ == self.local_path_spec(),
    {
        match self {
            Artifact::Firmware => "bin/firmware.elf",
            Artifact::Bootloader => "bin/bootloader.bin",
            Artifact::Partitions => "bin/partitions.bin",
        }
    }

    /// The image that is handled after this one, if any: the firmware first,
    /// then the bootloader, then the partition table.
    pub open spec fn following_spec(self) -> Option<Artifact> {
        match self {
            Artifact::Firmware => Some(Artifact::Bootloader),
            Artifact::Bootloader => Some(Artifact::Partitions),
            Artifact::Partitions => None,
        }
    }

    /// The image that is handled after this one, if any.
    pub fn following(self) -> (next: Option<Artifact>)
        ensures
            next == self.following_spec(),
    {
        match self {
            Artifact::Firmware => Some(Artifact::Bootloader),
            Artifact::Bootloader => Some(Artifact::Partitions),
            Artifact::Partitions => None,
        }
    }
}

/// The directory on the server that holds the images.
pub open spec fn download_base() -> Seq<char> {
    "https://qtshock.com/downloads/bin/"@
}

/// Each image is downloaded from the server's directory under its file
/// name, and read locally from `bin/` under that same name.
pub proof fn lemma_artifact_locations(artifact: Artifact)
    ensures
        artifact.url_spec() == download_base() + artifact.file_name_spec(),
        artifact.local_path_spec() == "bin/"@ + artifact.file_name_spec(),
{
    reveal_strlit("https://qtshock.com/downloads/bin/");
    reveal_strlit("bin/");
    reveal_strlit("firmware.elf");
    reveal_strlit("bootloader.bin");
    reveal_strlit("partitions.bin");
    reveal_strlit("https://qtshock.com/downloads/bin/firmware.elf");
    reveal_strlit("https://qtshock.com/downloads/bin/bootloader.bin");
    reveal_strlit("https://qtshock.com/downloads/bin/partitions.bin");
    reveal_strlit("bin/firmware.elf");
    reveal_strlit("bin/bootloader.bin");
    reveal_strlit("bin/partitions.bin");
    assert(artifact.url_spec() =~= download_base() + artifact.file_name_spec());
    assert(artifact.local_path_spec() =~= "bin/"@ + artifact.file_name_spec());
}

/// The three images of a firmware as bytes in memory, each once it has been
/// read.
#[derive(Clone, Debug, PartialEq, Eq)]
pub struct ImageSet {
    /// The application image.
    pub application: Option<Vec<u8>>,
    pub bootloader: Option<Vec<u8>>,
    /// The partition table.
    pub partitions: Option<Vec<u8>>,
}

/// `ImageSet` as a mathematical value.
pub struct ImageSetView {
    pub application: Option<Seq<u8>>,
    pub bootloader: Option<Seq<u8>>,
    pub partitions: Option<Seq<u8>>,
}

/// The bytes of an image that may not have been read yet, as a
/// mathematical value.
pub open spec fn bytes_view(bytes: Option<Vec<u8>>) -> Option<Seq<u8>> {
    match bytes {
        Some(held) => Some(held@),
        None => None,
    }
}

impl View for ImageSet {
    type V = ImageSetView;

    open spec fn view(&self) -> ImageSetView {
        ImageSetView {
            application: bytes_view(self.application),
            bootloader: bytes_view(self.bootloader),
            partitions: bytes_view(self.partitions),
        }
    }
}

impl ImageSetView {
    /// The set in which no image has been read.
    pub open spec fn empty() -> ImageSetView {
        ImageSetView { application: None, bootloader: None, partitions: None }
    }

    /// The bytes of one image, once it has been read.
    pub open spec fn get(self, artifact: Artifact) -> Option<Seq<u8>> {
        match artifact {
            Artifact::Firmware => self.application,
            Artifact::Bootloader => self.bootloader,
            Artifact::Partitions => self.partitions,
        }
    }

    /// The set with `bytes` as one image and the others as they were.
    pub open spec fn with(self, artifact: Artifact, bytes: Seq<u8>) -> ImageSetView {
        match artifact {
            Artifact::Firmware => ImageSetView { application: Some(bytes), ..self },
            Artifact::Bootloader => ImageSetView { bootloader: Some(bytes), ..self },
            Artifact::Partitions => ImageSetView { partitions: Some(bytes), ..self },
        }
    }

    /// Whether all three images have been read.
    pub open spec fn is_complete(self) -> bool {
        self.application is Some && self.bootloader is Some && self.partitions is Some
    }
}

impl ImageSet {
    /// The set in which no image has been read.
    pub fn new() -> (images: ImageSet)
        ensures
            images@ == ImageSetView::empty(),
    {
        ImageSet { application: None, bootloader: None, partitions: None }
    }

    /// Keeps `bytes` as one image and leaves the others as they are.
    pub fn store(&mut self, artifact: Artifact, bytes: Vec<u8>)
        ensures
            final(self)@ == old(self)@.with(artifact, bytes@),
    {
        match artifact {
            Artifact::Firmware => {
                self.application = Some(bytes);
            },
            Artifact::Bootloader => {
                self.bootloader = Some(bytes);
            },
            Artifact::Partitions => {
                self.partitions = Some(bytes);
            },
        }
    }

    /// Whether all three images have been read.
    pub fn is_complete(&self) -> (complete: bool)
        ensures
            complete == self@.is_complete(),
    {
        self.application.is_some() && self.bootloader.is_some() && self.partitions.is_some()
    }
}

} // verus!
