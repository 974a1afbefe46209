//! Progress of a byte transfer: the percentage that a byte count stands for,
//! and the reporter that turns the events of a transfer into notifications.

use vstd::prelude::*;
use crate::notice::{Notification, NotificationView, Progress, Tag};

verus! {

/// The share of `total` that `current` stands for, in whole percent, rounded
/// down and never above 100. Without a total there is no share.
pub open spec fn percent_spec(current: nat, total: nat) -> Option<nat> {
    if total == 0 {
        None
    } else if current >= total {
        Some(100)
    } else {
        Some(current * 100 / total)
    }
}

/// `percent_spec` as a `Progress`.
pub open spec fn progress_spec(current: nat, total: nat) -> Progress {
    match percent_spec(current, total) {
        Some(p) => Progress::Percent(p as u8),
        None => Progress::Unknown,
    }
}

/// Below the total, the rounded share stays below 100.
proof fn lemma_share_below_100(current: nat, total: nat)
    by (nonlinear_arith)
    requires
        current < total,
    ensures
        current * 100 / total < 100,
{
}

/// A larger byte count never has a smaller share of the same total.
proof fn lemma_share_grows(earlier: nat, later: nat, total: nat)
    by (nonlinear_arith)
    requires
        earlier <= later,
        total > 0,
    ensures
        earlier * 100 / total <= later * 100 / total,
{
}

/// The percentage that `current` bytes of `total` stand for; `None` where
/// `total` is 0.
pub fn percent_of(current: usize, total: usize) -> (percent: Option<u8>)
    ensures
        percent is Some <==> total != 0,
        percent matches Some(p) ==> percent_spec(current as nat, total as nat) == Some(p as nat),
        percent matches Some(p) ==> p <= 100,
        total != 0 && current > total ==> percent == Some(100u8),
{
    if total == 0 {
        None
    } else if current >= total {
        Some(100)
    } else {
        let scaled: u128 = (current as u128) * 100;
        let whole: u128 = scaled / (total as u128);
        proof {
            lemma_share_below_100(current as nat, total as nat);
        }
        Some(whole as u8)
    }
}

/// No percentage is above 100.
pub proof fn lemma_percent_in_range(current: nat, total: nat)
    ensures
        percent_spec(current, total) matches Some(p) ==> p <= 100,
        progress_spec(current, total).in_range(),
{
    if total != 0 && current < total {
        lemma_share_below_100(current, total);
    }
}

/// A byte count above a known total is reported as 100 percent.
pub proof fn lemma_percent_clamps(current: nat, total: nat)
    requires
        total > 0,
        current > total,
    ensures
        percent_spec(current, total) == Some(100nat),
        progress_spec(current, total) == Progress::Percent(100),
{
}

/// Without a total the progress is unknown, whatever the byte count.
pub proof fn lemma_percent_unknown(current: nat)
    ensures
        percent_spec(current, 0) is None,
        progress_spec(current, 0) == Progress::Unknown,
{
}

/// Against one total, a byte count that does not fall gives a percentage
/// that does not fall.
pub proof fn lemma_percent_monotonic(earlier: nat, later: nat, total: nat)
    requires
        earlier <= later,
        total > 0,
    ensures
        percent_spec(earlier, total)->0 <= percent_spec(later, total)->0 <= 100,
{
    lemma_percent_in_range(later, total);
    if later < total {
        lemma_share_grows(earlier, later, total);
    } else if earlier < total {
        lemma_share_below_100(earlier, total);
    }
}

/// The events of one transfer.
#[derive(Clone, Copy, Debug, PartialEq, Eq, Structural)]
pub enum ProgressEvent {
    /// A transfer of `total` bytes begins.
    Init { total: usize },
    /// `current` bytes have been transferred so far.
    Update { current: usize },
    /// The transfer is complete.
    Finish,
}

/// Turns the events of a transfer into notifications. `app` is the handle of
/// the user interface; without one the reporter stays silent.
pub struct QTShockProgress<H> {
    pub app: Option<H>,
    pub total_progress: usize,
}

/// The percentage that is shown when a transfer begins: nothing has been
/// transferred yet, and no update can report less.
pub const STARTED_PERCENT: u8 = 0;

/// The notification that a transfer has begun.
pub open spec fn started_notice() -> NotificationView {
    NotificationView::tagged(Tag::Blue, "Started flashing firmware!"@, STARTED_PERCENT)
}

/// The notification that `current` bytes of `total` have been transferred.
pub open spec fn flashing_notice(current: nat, total: nat) -> NotificationView {
    NotificationView {
        message: Tag::Blue.wrap_spec("Flashing firmware..."@),
        progress: progress_spec(current, total),
    }
}

/// The notification that a transfer is complete.
pub open spec fn finished_notice() -> NotificationView {
    NotificationView::tagged(Tag::Green, "Finished segment!"@, 100)
}

/// What a reporter that knows the total `total` has to say about `event`.
pub open spec fn notice_for(event: ProgressEvent, total: nat) -> NotificationView {
    match event {
        ProgressEvent::Init { total: _ } => started_notice(),
        ProgressEvent::Update { current } => flashing_notice(current as nat, total),
        ProgressEvent::Finish => finished_notice(),
    }
}

/// The total that a reporter knows after `event`.
pub open spec fn total_after(event: ProgressEvent, total: nat) -> nat {
    match event {
        ProgressEvent::Init { total: fresh } => fresh as nat,
        _ => total,
    }
}

impl<H> QTShockProgress<H> {
    /// A reporter that has seen no transfer yet.
    pub fn new(app: Option<H>) -> (reporter: Self)
        ensures
            reporter.app == app,
            reporter.total_progress == 0,
    {
        Self { app, total_progress: 0 }
    }

    /// Wraps what there is to say: `Some` where a user interface is attached.
    fn say(&self, notice: Notification) -> (said: Option<Notification>)
        ensures
            said is Some <==> self.app is Some,
            said matches Some(n) ==> n == notice,
    {
        match &self.app {
            Some(_) => Some(notice),
            None => None,
        }
    }

    /// A transfer of `total` bytes to the address `addr` begins: the total is
    /// kept, and the user is told that flashing has started, at 0 percent.
    pub fn init(&mut self, addr: u32, total: usize) -> (said: Option<Notification>)
        ensures
            final(self).total_progress == total,
            final(self).app == old(self).app,
            said is Some <==> old(self).app is Some,
            said matches Some(n) ==> {
                &&& n@ == started_notice()
                &&& n@.progress == Progress::Percent(0)
            },
    {
        self.total_progress = total;
        let notice = Notification::tagged(Tag::Blue, "Started flashing firmware!", STARTED_PERCENT);
        self.say(notice)
    }

    /// `current` bytes have been transferred: the user is told the
    /// percentage of the total that this is, or that it is unknown where the
    /// total is 0.
    pub fn update(&mut self, current: usize) -> (said: Option<Notification>)
        ensures
            *final(self) == *old(self),
            said is Some <==> old(self).app is Some,
            said matches Some(n) ==> {
                &&& n@ == flashing_notice(current as nat, old(self).total_progress as nat)
                &&& n@.progress.in_range()
                &&& old(self).total_progress == 0 ==> n@.progress == Progress::Unknown
                &&& 0 < old(self).total_progress < current ==> n@.progress == Progress::Percent(100)
            },
    {
        let progress = match percent_of(current, self.total_progress) {
            Some(p) => Progress::Percent(p),
            None => Progress::Unknown,
        };
        let notice = Notification { message: Tag::Blue.wrap("Flashing firmware..."), progress };
        self.say(notice)
    }

    /// The transfer is complete: the user is told so, at 100 percent.
    pub fn finish(&mut self) -> (said: Option<Notification>)
        ensures
            *final(self) == *old(self),
            said is Some <==> old(self).app is Some,
            said matches Some(n) ==> n@ == finished_notice(),
    {
        let notice = Notification::tagged(Tag::Green, "Finished segment!", 100);
        self.say(notice)
    }

    /// Handles one event of a transfer, whichever it is. The address to
    /// which a transfer writes plays no part in what is reported.
    pub fn handle(&mut self, event: ProgressEvent) -> (said: Option<Notification>)
        ensures
            final(self).app == old(self).app,
            final(self).total_progress == total_after(event, old(self).total_progress as nat),
            said is Some <==> old(self).app is Some,
            said matches Some(n) ==> n@ == notice_for(event, old(self).total_progress as nat),
    {
        match event {
            ProgressEvent::Init { total } => self.init(0, total),
            ProgressEvent::Update { current } => self.update(current),
            ProgressEvent::Finish => self.finish(),
        }
    }
}

/// Whether a progress that is reported after `earlier` may be this one: a
/// percentage does not fall below an earlier percentage.
pub open spec fn follows(later: Progress, earlier: Progress) -> bool {
    match (earlier, later) {
        (Progress::Percent(before), Progress::Percent(now)) => before <= now,
        _ => true,
    }
}

/// Within one transfer, from its beginning to its end, the percentage never
/// falls and ends at exactly 100. The beginning reports 0, and no update
/// reports less than that. Where the byte counts `counts` of the updates do
/// not fall, no update reports less than an update before it. The end of
/// the transfer reports 100, which is not less than anything reported
/// before it. Where the total is unknown every update says so.
pub proof fn lemma_cycle_is_monotonic(total: nat, counts: Seq<nat>)
    requires
        forall|i: int, j: int| 0 <= i <= j < counts.len() ==> counts[i] <= counts[j],
    ensures
        started_notice().progress == Progress::Percent(0),
        forall|i: int|
            0 <= i < counts.len() ==> follows(
                flashing_notice(#[trigger] counts[i], total).progress,
                started_notice().progress,
            ),
        forall|i: int, j: int|
            0 <= i <= j < counts.len() ==> follows(
                flashing_notice(#[trigger] counts[j], total).progress,
                flashing_notice(#[trigger] counts[i], total).progress,
            ),
        forall|i: int|
            0 <= i < counts.len() ==> follows(
                finished_notice().progress,
                flashing_notice(#[trigger] counts[i], total).progress,
            ),
        follows(finished_notice().progress, started_notice().progress),
        finished_notice().progress == Progress::Percent(100),
        total == 0 ==> forall|i: int|
            0 <= i < counts.len() ==> flashing_notice(#[trigger] counts[i], total).progress
                == Progress::Unknown,
{
    assert forall|i: int, j: int| 0 <= i <= j < counts.len() implies follows(
        flashing_notice(#[trigger] counts[j], total).progress,
        flashing_notice(#[trigger] counts[i], total).progress,
    ) by {
        if total > 0 {
            lemma_percent_monotonic(counts[i], counts[j], total);
        }
    }
    assert forall|i: int| 0 <= i < counts.len() implies follows(
        finished_notice().progress,
        flashing_notice(#[trigger] counts[i], total).progress,
    ) by {
        lemma_percent_in_range(counts[i], total);
    }
}

/// What a reporter with a user interface says in one transfer of `total`
/// bytes: that it has started, then one notification for each byte count of
/// `counts`, then that it has finished.
pub open spec fn cycle_notices(total: nat, counts: Seq<nat>) -> Seq<NotificationView> {
    seq![started_notice()] + Seq::new(counts.len(), |i: int| flashing_notice(counts[i], total))
        + seq![finished_notice()]
}

/// The notifications of one transfer, in the order in which they are made,
/// never fall: each follows every one before it, from the first, which
/// reports 0, to the last, which reports 100. The same holds of the
/// numbers that the user interface is sent for them, also where the total
/// is unknown: none is smaller than one before it, and none is above 100.
pub proof fn lemma_cycle_notices_never_fall(total: nat, counts: Seq<nat>)
    requires
        forall|i: int, j: int| 0 <= i <= j < counts.len() ==> counts[i] <= counts[j],
    ensures
        cycle_notices(total, counts).len() == counts.len() + 2,
        cycle_notices(total, counts).first().progress == Progress::Percent(0),
        cycle_notices(total, counts).last().progress == Progress::Percent(100),
        forall|i: int, j: int|
            0 <= i <= j < cycle_notices(total, counts).len() ==> follows(
                (#[trigger] cycle_notices(total, counts)[j]).progress,
                (#[trigger] cycle_notices(total, counts)[i]).progress,
            ),
        forall|i: int|
            0 <= i < cycle_notices(total, counts).len() ==> (#[trigger] cycle_notices(
                total,
                counts,
            )[i]).progress.in_range(),
        forall|i: int, j: int|
            0 <= i <= j < cycle_notices(total, counts).len() ==> (#[trigger] cycle_notices(
                total,
                counts,
            )[i]).progress.shown_spec() <= (#[trigger] cycle_notices(
                total,
                counts,
            )[j]).progress.shown_spec() <= 100,
{
    lemma_cycle_is_monotonic(total, counts);
    let notices = cycle_notices(total, counts);
    let last = counts.len() + 1;
    assert forall|i: int| 0 <= i < notices.len() implies (
    #[trigger] notices[i]).progress.in_range() by {
        if 1 <= i < last {
            assert(notices[i] == flashing_notice(counts[i - 1], total));
            lemma_percent_in_range(counts[i - 1], total);
        }
    }
    assert forall|i: int, j: int| 0 <= i <= j < notices.len() implies follows(
        (#[trigger] notices[j]).progress,
        (#[trigger] notices[i]).progress,
    ) by {
        if 1 <= i < last {
            assert(notices[i] == flashing_notice(counts[i - 1], total));
        }
        if 1 <= j < last {
            assert(notices[j] == flashing_notice(counts[j - 1], total));
        }
    }
}

} // verus!
