use qtshock::gsi_cfg::{
    create_cs_config, integration_config, is_game_directory, unwritable_message, FolderChoice,
    SetupPlan,
};

#[test]
fn the_integration_file_reports_everything_to_the_listener() {
    let config = integration_config();
    assert_eq!(config.uri, "http://127.0.0.1:3005");
    assert_eq!(config.timeout, "1.0");
    assert_eq!(config.buffer, "0.0");
    assert_eq!(config.throttle, "0.0");
    assert_eq!(config.heartbeat, "60.0");
    assert_eq!(config.auth.token, "TOKEN");
    assert_eq!(config.output.precision, "3");
    assert_eq!(config.output.precision_position, "1");
    assert_eq!(config.output.precision_vector, "3");
    let data = &config.data;
    for part in [
        &data.map_round_wins,
        &data.map,
        &data.player_id,
        &data.player_match_stats,
        &data.player_state,
        &data.player_weapons,
        &data.provider,
        &data.round,
        &data.allgrenades,
        &data.allplayers_id,
        &data.allplayers_match_stats,
        &data.allplayers_position,
        &data.allplayers_state,
        &data.allplayers_weapons,
        &data.bomb,
        &data.phase_countdowns,
        &data.player_position,
    ] {
        assert_eq!(part, "1");
    }
}

#[test]
fn the_game_directory_is_known_by_its_name() {
    assert!(is_game_directory("C:/Steam/steamapps/common/Counter-Strike Global Offensive"));
    assert!(is_game_directory("Counter-Strike Global Offensive"));
    assert!(!is_game_directory("C:/Steam/steamapps/common/Counter-Strike Global Offensive/"));
    assert!(!is_game_directory("C:/Steam/steamapps/common/counter-strike global offensive"));
    assert!(!is_game_directory(""));
}

#[test]
fn the_file_is_written_below_the_game_directory() {
    let choice = FolderChoice::Chosen("/games/Counter-Strike Global Offensive".to_string());
    assert_eq!(
        create_cs_config(&choice),
        SetupPlan::Write {
            path: "/games/Counter-Strike Global Offensive/game/csgo/cfg/gamestate_integration_qtshock.cfg"
                .to_string(),
            config: integration_config(),
        }
    );
}

#[test]
fn nothing_is_written_without_the_game_directory() {
    assert_eq!(
        create_cs_config(&FolderChoice::Dismissed),
        SetupPlan::Refuse(
            "Setup failed. You must select your CS2 game directory to set up QTShock integration."
                .to_string()
        )
    );
    assert_eq!(
        create_cs_config(&FolderChoice::Unreadable),
        SetupPlan::Refuse(
            "Setup failed. Something is wrong with the name of your selected directory."
                .to_string()
        )
    );
    assert_eq!(
        create_cs_config(&FolderChoice::Chosen("/games/Portal 2".to_string())),
        SetupPlan::Refuse("Setup failed. This is not the path to CS2..".to_string())
    );
}

#[test]
fn a_file_that_cannot_be_put_into_text_has_its_message() {
    assert_eq!(
        unwritable_message(),
        "Setup failed. Something went wrong when creating the gsi config."
    );
}
