//! What the game reports of the player, and when a death is answered with
//! a shock.

use vstd::prelude::*;

verus! {

/// What the game reports of a player.
#[derive(Clone, Debug, PartialEq, Eq)]
pub struct PlayerReport {
    pub steam_id: Option<String>,
    /// How often the player has died in the match; `None` where the report
    /// holds no statistics of the match.
    pub deaths: Option<u16>,
}

/// One report of the game. A report may lack any of its parts.
#[derive(Clone, Debug, PartialEq, Eq)]
pub struct GameReport {
    /// Whose game sends the report.
    pub provider_steam_id: Option<String>,
    /// The player that the report is about: the user, or whoever the user
    /// is watching.
    pub player: Option<PlayerReport>,
}

/// What follows from a report.
#[derive(Clone, Copy, Debug, PartialEq, Eq, Structural)]
pub struct DeathCheck {
    /// The number of deaths that is known from now on.
    pub count: u16,
    /// Whether the user has died and is to be shocked.
    pub died: bool,
}

/// `PlayerReport` as a mathematical value.
pub struct PlayerReportView {
    pub steam_id: Option<Seq<char>>,
    pub deaths: Option<u16>,
}

/// `GameReport` as a mathematical value.
pub struct GameReportView {
    pub provider_steam_id: Option<Seq<char>>,
    pub player: Option<PlayerReportView>,
}

impl View for PlayerReport {
    type V = PlayerReportView;

    open spec fn view(&self) -> PlayerReportView {
        PlayerReportView {
            steam_id: match self.steam_id {
                Some(steam_id) => Some(steam_id@),
                None => None,
            },
            deaths: self.deaths,
        }
    }
}

impl View for GameReport {
    type V = GameReportView;

    open spec fn view(&self) -> GameReportView {
        GameReportView {
            provider_steam_id: match self.provider_steam_id {
                Some(steam_id) => Some(steam_id@),
                None => None,
            },
            player: match self.player {
                Some(player) => Some(player@),
                None => None,
            },
        }
    }
}

/// How often the user has died, as far as the report says: the deaths of
/// the player it is about, if that player is the one whose game sends it.
pub open spec fn own_deaths(report: GameReportView) -> Option<u16> {
    match (report.player, report.provider_steam_id) {
        (Some(player), Some(provider)) => match (player.deaths, player.steam_id) {
            (Some(deaths), Some(steam_id)) => if steam_id == provider {
                Some(deaths)
            } else {
                None
            },
            _ => None,
        },
        _ => None,
    }
}

/// Whether the report says how often a player has died and whose game sends
/// it, but not who that player is. Such a report cannot be weighed: nobody
/// can tell whether the deaths are the user's.
pub open spec fn lacks_player_id(report: GameReportView) -> bool {
    &&& report.player matches Some(player)
    &&& player.deaths is Some
    &&& report.provider_steam_id is Some
    &&& player.steam_id is None
}

/// What follows from a report for one who is known to have died `count`
/// times. A report that does not say how often the user has died changes
/// nothing. Otherwise the reported number is the one to know; the user has
/// died if it differs from the known one and is not zero, which is how a
/// new match begins.
pub open spec fn death_check_spec(count: u16, report: GameReportView) -> DeathCheck {
    match own_deaths(report) {
        Some(deaths) => DeathCheck { count: deaths, died: deaths != count && deaths != 0 },
        None => DeathCheck { count, died: false },
    }
}

/// Whether the report names no player though it counts deaths; see
/// `lacks_player_id`.
pub fn report_lacks_player_id(report: &GameReport) -> (lacks: bool)
    ensures
        lacks == lacks_player_id(report@),
        lacks ==> own_deaths(report@) is None,
{
    match &report.player {
        Some(player) => player.deaths.is_some() && report.provider_steam_id.is_some()
            && player.steam_id.is_none(),
        None => false,
    }
}

/// Weighs a report of the game against the number of deaths known so far.
/// A report that counts deaths without naming the player changes nothing.
pub fn death_check(count: u16, report: &GameReport) -> (check: DeathCheck)
    ensures
        check == death_check_spec(count, report@),
{
    let unchanged = DeathCheck { count, died: false };
    let player = match &report.player {
        Some(player) => player,
        None => {
            return unchanged;
        },
    };
    let deaths = match player.deaths {
        Some(deaths) => deaths,
        None => {
            return unchanged;
        },
    };
    let provider = match &report.provider_steam_id {
        Some(provider) => provider,
        None => {
            return unchanged;
        },
    };
    let own = match &player.steam_id {
        Some(steam_id) => *steam_id == *provider,
        None => false,
    };
    if !own {
        return unchanged;
    }
    let mut known = count;
    if known > deaths {
        known = 0;
    }
    if known < deaths {
        DeathCheck { count: deaths, died: true }
    } else {
        DeathCheck { count: known, died: false }
    }
}

/// A report that is heard twice shocks at most once: after a report, the
/// same report finds nothing new.
pub proof fn lemma_report_is_answered_once(count: u16, report: GameReportView)
    ensures
        death_check_spec(death_check_spec(count, report).count, report) == (DeathCheck {
            count: death_check_spec(count, report).count,
            died: false,
        }),
{
}

} // verus!
