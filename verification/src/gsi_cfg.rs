//! The game-state integration file that makes Counter-Strike 2 report to
//! this application, and the decision whether and where to write it.

use vstd::prelude::*;
use vstd::string::StringExecFns;
use crate::text::{ends_with, ends_with_spec, join2};

verus! {

/// The token by which the game identifies itself.
#[allow(non_camel_case_types)]
#[derive(Clone, Debug, PartialEq, Eq)]
pub struct gsi_auth {
    pub token: String,
}

/// How precisely the game reports numbers.
#[allow(non_camel_case_types)]
#[derive(Clone, Debug, PartialEq, Eq)]
pub struct gsi_output {
    pub precision: String,
    pub precision_position: String,
    pub precision_vector: String,
}

/// Which parts of its state the game reports: `1` for each part that it
/// does.
#[allow(non_camel_case_types)]
#[derive(Clone, Debug, PartialEq, Eq)]
pub struct gsi_data {
    pub map_round_wins: String,
    pub map: String,
    pub player_id: String,
    pub player_match_stats: String,
    pub player_state: String,
    pub player_weapons: String,
    pub provider: String,
    pub round: String,
    pub allgrenades: String,
    pub allplayers_id: String,
    pub allplayers_match_stats: String,
    pub allplayers_position: String,
    pub allplayers_state: String,
    pub allplayers_weapons: String,
    pub bomb: String,
    pub phase_countdowns: String,
    pub player_position: String,
}

/// The whole integration file; in the file its name is `QTShock`.
#[allow(non_camel_case_types)]
#[derive(Clone, Debug, PartialEq, Eq)]
pub struct gsi_cfg {
    pub uri: String,
    pub timeout: String,
    pub buffer: String,
    pub throttle: String,
    pub heartbeat: String,
    pub auth: gsi_auth,
    pub output: gsi_output,
    pub data: gsi_data,
}

/// What the user did with the dialog that asks for the game's directory.
#[derive(Clone, Debug, PartialEq, Eq)]
pub enum FolderChoice {
    /// Closed it without choosing.
    Dismissed,
    /// Chose a directory whose path is no text.
    Unreadable,
    /// Chose the directory with this path.
    Chosen(String),
}

/// What is to be done about the integration file.
#[derive(Clone, Debug, PartialEq, Eq)]
pub enum SetupPlan {
    /// Nothing; the user is told why.
    Refuse(String),
    /// Write `config` to the file at `path`.
    Write { path: String, config: gsi_cfg },
}

/// The last part of the path of every installation of the game.
pub open spec fn game_directory_name() -> Seq<char> {
    "Counter-Strike Global Offensive"@
}

/// Where the integration file lies below the game's directory.
pub open spec fn config_location() -> Seq<char> {
    "/game/csgo/cfg/gamestate_integration_qtshock.cfg"@
}

/// What the user is told where no directory was chosen.
pub open spec fn dismissed_text() -> Seq<char> {
    "Setup failed. You must select your CS2 game directory to set up QTShock integration."@
}

/// What the user is told where the path of the directory is no text.
pub open spec fn unreadable_text() -> Seq<char> {
    "Setup failed. Something is wrong with the name of your selected directory."@
}

/// What the user is told where the directory is not the game's.
pub open spec fn wrong_directory_text() -> Seq<char> {
    "Setup failed. This is not the path to CS2.."@
}

/// What the user is told where the integration file could not be put into
/// text.
pub open spec fn unwritable_text() -> Seq<char> {
    "Setup failed. Something went wrong when creating the gsi config."@
}

/// Whether `config` is the integration file of this application: the game
/// reports every part of its state to the local listener.
pub open spec fn is_integration_config(config: gsi_cfg) -> bool {
    &&& config.uri@ == "http://127.0.0.1:3005"@
    &&& config.timeout@ == "1.0"@
    &&& config.buffer@ == "0.0"@
    &&& config.throttle@ == "0.0"@
    &&& config.heartbeat@ == "60.0"@
    &&& config.auth.token@ == "TOKEN"@
    &&& config.output.precision@ == "3"@
    &&& config.output.precision_position@ == "1"@
    &&& config.output.precision_vector@ == "3"@
    &&& config.data.map_round_wins@ == "1"@
    &&& config.data.map@ == "1"@
    &&& config.data.player_id@ == "1"@
    &&& config.data.player_match_stats@ == "1"@
    &&& config.data.player_state@ == "1"@
    &&& config.data.player_weapons@ == "1"@
    &&& config.data.provider@ == "1"@
    &&& config.data.round@ == "1"@
    &&& config.data.allgrenades@ == "1"@
    &&& config.data.allplayers_id@ == "1"@
    &&& config.data.allplayers_match_stats@ == "1"@
    &&& config.data.allplayers_position@ == "1"@
    &&& config.data.allplayers_state@ == "1"@
    &&& config.data.allplayers_weapons@ == "1"@
    &&& config.data.bomb@ == "1"@
    &&& config.data.phase_countdowns@ == "1"@
    &&& config.data.player_position@ == "1"@
}

/// Whether a plan is the right one for what the user chose: the file is
/// written below the chosen directory if that is the game's, and the user is
/// told why not otherwise.
pub open spec fn is_plan_for(choice: FolderChoice, plan: SetupPlan) -> bool {
    match choice {
        FolderChoice::Dismissed => plan matches SetupPlan::Refuse(message) && message@
            == dismissed_text(),
        FolderChoice::Unreadable => plan matches SetupPlan::Refuse(message) && message@
            == unreadable_text(),
        FolderChoice::Chosen(directory) => if ends_with_spec(directory@, game_directory_name()) {
            &&& plan matches SetupPlan::Write { path, config }
            &&& path@ == directory@ + config_location()
            &&& is_integration_config(config)
        } else {
            plan matches SetupPlan::Refuse(message) && message@ == wrong_directory_text()
        },
    }
}

/// Builds the integration file of this application.
pub fn integration_config() -> (config: gsi_cfg)
    ensures
        is_integration_config(config),
{
    gsi_cfg {
        uri: String::from_str("http://127.0.0.1:3005"),
        timeout: String::from_str("1.0"),
        buffer: String::from_str("0.0"),
        throttle: String::from_str("0.0"),
        heartbeat: String::from_str("60.0"),
        auth: gsi_auth { token: String::from_str("TOKEN") },
        output: gsi_output {
            precision: String::from_str("3"),
            precision_position: String::from_str("1"),
            precision_vector: String::from_str("3"),
        },
        data: gsi_data {
            map_round_wins: String::from_str("1"),
            map: String::from_str("1"),
            player_id: String::from_str("1"),
            player_match_stats: String::from_str("1"),
            player_state: String::from_str("1"),
            player_weapons: String::from_str("1"),
            provider: String::from_str("1"),
            round: String::from_str("1"),
            allgrenades: String::from_str("1"),
            allplayers_id: String::from_str("1"),
            allplayers_match_stats: String::from_str("1"),
            allplayers_position: String::from_str("1"),
            allplayers_state: String::from_str("1"),
            allplayers_weapons: String::from_str("1"),
            bomb: String::from_str("1"),
            phase_countdowns: String::from_str("1"),
            player_position: String::from_str("1"),
        },
    }
}

/// Whether the path is that of an installation of the game.
pub fn is_game_directory(path: &str) -> (game: bool)
    ensures
        game == ends_with_spec(path@, game_directory_name()),
{
    ends_with(path, "Counter-Strike Global Offensive")
}

/// Decides what to do about the integration file after the user has been
/// asked for the game's directory.
pub fn create_cs_config(choice: &FolderChoice) -> (plan: SetupPlan)
    ensures
        is_plan_for(*choice, plan),
{
    match choice {
        FolderChoice::Dismissed => SetupPlan::Refuse(
            String::from_str(
                "Setup failed. You must select your CS2 game directory to set up QTShock integration.",
            ),
        ),
        FolderChoice::Unreadable => SetupPlan::Refuse(
            String::from_str(
                "Setup failed. Something is wrong with the name of your selected directory.",
            ),
        ),
        FolderChoice::Chosen(directory) => {
            if is_game_directory(directory.as_str()) {
                SetupPlan::Write {
                    path: join2(
                        directory.as_str(),
                        "/game/csgo/cfg/gamestate_integration_qtshock.cfg",
                    ),
                    config: integration_config(),
                }
            } else {
                SetupPlan::Refuse(String::from_str("Setup failed. This is not the path to CS2.."))
            }
        },
    }
}

/// What the user is told where the integration file could not be put into
/// text.
pub fn unwritable_message() -> (message: String)
    ensures
        message@ == unwritable_text(),
{
    String::from_str("Setup failed. Something went wrong when creating the gsi config.")
}

} // verus!
