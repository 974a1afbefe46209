//! What the user is told: a line of text, marked up with a colour tag, and
//! how far the work has come.

use vstd::prelude::*;
use crate::text::join3;

verus! {

/// The colour tags that the user interface understands.
#[derive(Clone, Copy, Debug, PartialEq, Eq, Structural)]
pub enum Tag {
    /// `<y>`: a step has been completed.
    Yellow,
    /// `<bl>`: a step is under way.
    Blue,
    /// `<g>`: success.
    Green,
    /// `<r>`: failure.
    Red,
}

/// How far the work has come.
#[derive(Clone, Copy, Debug, PartialEq, Eq, Structural)]
pub enum Progress {
    /// A whole percentage, 0 to 100.
    Percent(u8),
    /// The total is not known, so no percentage can be given.
    Unknown,
}

/// One message for the user interface.
#[derive(Clone, Debug, PartialEq, Eq)]
pub struct Notification {
    pub message: String,
    pub progress: Progress,
}

/// A `Notification` as a mathematical value.
pub struct NotificationView {
    pub message: Seq<char>,
    pub progress: Progress,
}

impl View for Notification {
    type V = NotificationView;

    open spec fn view(&self) -> NotificationView {
        NotificationView { message: self.message@, progress: self.progress }
    }
}

impl DeepView for Notification {
    type V = NotificationView;

    open spec fn deep_view(&self) -> NotificationView {
        self@
    }
}

impl Tag {
    /// The tag that opens a marked-up text.
    pub open spec fn opening(self) -> Seq<char> {
        match self {
            Tag::Yellow => "<y>"@,
            Tag::Blue => "<bl>"@,
            Tag::Green => "<g>"@,
            Tag::Red => "<r>"@,
        }
    }

    /// The tag that closes a marked-up text.
    pub open spec fn closing(self) -> Seq<char> {
        match self {
            Tag::Yellow => "</y>"@,
            Tag::Blue => "</bl>"@,
            Tag::Green => "</g>"@,
            Tag::Red => "</r>"@,
        }
    }

    /// `text` between the opening and the closing tag.
    pub open spec fn wrap_spec(self, text: Seq<char>) -> Seq<char> {
        self.opening() + text + self.closing()
    }

    /// Marks `text` up with this tag.
    pub fn wrap(self, text: &str) -> (marked: String)
        ensures
            marked@ == self.wrap_spec(text@),
    {
        match self {
            Tag::Yellow => join3("<y>", text, "</y>"),
            Tag::Blue => join3("<bl>", text, "</bl>"),
            Tag::Green => join3("<g>", text, "</g>"),
            Tag::Red => join3("<r>", text, "</r>"),
        }
    }
}

impl Progress {
    /// A percentage is at most 100; an unknown progress is always in order.
    pub open spec fn in_range(self) -> bool {
        self matches Progress::Percent(p) ==> p <= 100
    }

    /// The number from 0 to 100 that the user interface is sent: the
    /// percentage, and never more than 100. An unknown progress is sent as
    /// 0, which is what a transfer starts with, so that the bar stays where
    /// it is until the transfer is over.
    pub open spec fn shown_spec(self) -> nat {
        match self {
            Progress::Percent(p) => if p <= 100 {
                p as nat
            } else {
                100
            },
            Progress::Unknown => 0,
        }
    }

    /// The number from 0 to 100 that the user interface is sent.
    pub fn shown(self) -> (percent: u8)
        ensures
            percent == self.shown_spec(),
            percent <= 100,
    {
        match self {
            Progress::Percent(p) => if p <= 100 {
                p
            } else {
                100
            },
            Progress::Unknown => 0,
        }
    }
}

impl NotificationView {
    /// The message `text` marked up with `tag`, at `percent` percent.
    pub open spec fn tagged(tag: Tag, text: Seq<char>, percent: u8) -> NotificationView {
        NotificationView { message: tag.wrap_spec(text), progress: Progress::Percent(percent) }
    }
}

impl Notification {
    /// Builds the notification that says `text`, marked up with `tag`, at
    /// `percent` percent.
    pub(crate) fn tagged(tag: Tag, text: &str, percent: u8) -> (notice: Notification)
        requires
            percent <= 100,
        ensures
            notice@ == NotificationView::tagged(tag, text@, percent),
            notice@.progress.in_range(),
    {
        Notification { message: tag.wrap(text), progress: Progress::Percent(percent) }
    }
}

/// The name of the channel on which notifications are sent to the user
/// interface.
pub fn progress_channel() -> (name: &'static str)
    ensures
        name@ == "update-progress-text"@,
{
    "update-progress-text"
}

} // verus!
