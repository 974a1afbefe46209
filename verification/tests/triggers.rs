use qtshock::config::TriggerConfig;
use qtshock::defines::{QTSInteraction, QTSOSCType};
use qtshock::device::{beep, confirmation, path, shock, trigger_qtshock, url, vibrate, DeviceCall};
use qtshock::game::{
    death_check, report_lacks_player_id, DeathCheck, GameReport, PlayerReport,
};
use qtshock::number::decimal;
use qtshock::datagram::{
    handle_datagram, handle_packet, level_of, value_of, Argument, Fault, Handling, Packet, MTU,
};
use qtshock::osc::{
    react, read_address, AddressFailure, AddressReading, Level, OscValue, Reaction, Remark,
    TriggerCommand,
};
use rosc::{OscBundle, OscMessage, OscPacket, OscTime, OscType};
use qtshock::text::{contains, split};

fn call(interaction: QTSInteraction, shocker: u8, strength: Option<&str>) -> DeviceCall {
    DeviceCall { interaction, shocker, strength: strength.map(|s| s.to_string()) }
}

fn report(provider: Option<&str>, player: Option<(Option<&str>, Option<u16>)>) -> GameReport {
    GameReport {
        provider_steam_id: provider.map(|s| s.to_string()),
        player: player.map(|(steam_id, deaths)| PlayerReport {
            steam_id: steam_id.map(|s| s.to_string()),
            deaths,
        }),
    }
}

fn own(deaths: u16) -> GameReport {
    report(Some("7656"), Some((Some("7656"), Some(deaths))))
}

#[test]
fn the_settings_start_with_their_defaults() {
    let config = TriggerConfig::new();
    assert_eq!(config.shock_strength, 10);
    assert_eq!(config.vibrate_strength, 80);
    assert_eq!(config.ip, "");
}

#[test]
fn each_setting_is_changed_alone() {
    let mut config = TriggerConfig::new();
    config.set_shock_strength(33);
    assert_eq!(
        config,
        TriggerConfig { shock_strength: 33, vibrate_strength: 80, ip: String::new() }
    );
    config.set_vibrate_strength(5);
    assert_eq!(
        config,
        TriggerConfig { shock_strength: 33, vibrate_strength: 5, ip: String::new() }
    );
    config.set_ip("192.168.1.20");
    assert_eq!(
        config,
        TriggerConfig { shock_strength: 33, vibrate_strength: 5, ip: "192.168.1.20".to_string() }
    );
}

#[test]
fn numbers_are_written_without_leading_zeros() {
    assert_eq!(decimal(0), "0");
    assert_eq!(decimal(7), "7");
    assert_eq!(decimal(10), "10");
    assert_eq!(decimal(42), "42");
    assert_eq!(decimal(99), "99");
    assert_eq!(decimal(100), "100");
    assert_eq!(decimal(205), "205");
    assert_eq!(decimal(255), "255");
    for number in 0..=255u8 {
        assert_eq!(decimal(number), number.to_string());
    }
}

#[test]
fn a_strength_from_1_to_99_is_sent_as_written() {
    assert_eq!(shock(0, "1"), Ok(call(QTSInteraction::SHOCK, 0, Some("1"))));
    assert_eq!(shock(2, "99"), Ok(call(QTSInteraction::SHOCK, 2, Some("99"))));
    assert_eq!(shock(2, "+50"), Ok(call(QTSInteraction::SHOCK, 2, Some("+50"))));
    assert_eq!(shock(1, "007"), Ok(call(QTSInteraction::SHOCK, 1, Some("007"))));
    assert_eq!(vibrate(3, "80"), Ok(call(QTSInteraction::VIBRATE, 3, Some("80"))));
}

#[test]
fn a_strength_out_of_range_is_answered_with_nothing() {
    assert_eq!(shock(0, "0"), Err(String::new()));
    assert_eq!(shock(0, "100"), Err(String::new()));
    assert_eq!(shock(0, "-5"), Err(String::new()));
    assert_eq!(shock(0, "32767"), Err(String::new()));
    assert_eq!(shock(0, "-32768"), Err(String::new()));
    assert_eq!(vibrate(0, "0"), Err(String::new()));
    assert_eq!(vibrate(0, "100"), Err(String::new()));
}

#[test]
fn a_strength_that_is_no_number_is_a_bad_call() {
    for text in ["", "abc", "12a", " 12", "12 ", "1_0", "+", "-", "+-5", "32768", "-32769", "1.5"] {
        assert_eq!(shock(0, text), Err("BAD SHOCK CALL".to_string()), "{:?}", text);
        assert_eq!(vibrate(0, text), Err("BAD VIBRATE CALL".to_string()), "{:?}", text);
    }
}

#[test]
fn a_beep_has_no_strength() {
    assert_eq!(beep(4), call(QTSInteraction::BEEP, 4, None));
}

#[test]
fn calls_have_their_paths_and_addresses() {
    assert_eq!(path(QTSInteraction::SHOCK), "/shock");
    assert_eq!(path(QTSInteraction::VIBRATE), "/vibrate");
    assert_eq!(path(QTSInteraction::BEEP), "/beep");
    assert_eq!(url("10.0.0.7", QTSInteraction::SHOCK), "http://10.0.0.7/shock");
    assert_eq!(url("10.0.0.7", QTSInteraction::VIBRATE), "http://10.0.0.7/vibrate");
    assert_eq!(url("", QTSInteraction::BEEP), "http:///beep");
}

#[test]
fn calls_are_confirmed() {
    assert_eq!(
        confirmation(&call(QTSInteraction::SHOCK, 0, Some("25"))),
        "Shock was called with: 25"
    );
    assert_eq!(
        confirmation(&call(QTSInteraction::VIBRATE, 0, Some("80"))),
        "Vibrate was called with: 80"
    );
    assert_eq!(confirmation(&beep(0)), "Beep was called");
}

#[test]
fn a_trigger_calls_with_the_strength_of_shocks() {
    let mut config = TriggerConfig::new();
    assert_eq!(
        trigger_qtshock(0, QTSInteraction::SHOCK, &config),
        Some(call(QTSInteraction::SHOCK, 0, Some("10")))
    );
    assert_eq!(
        trigger_qtshock(1, QTSInteraction::VIBRATE, &config),
        Some(call(QTSInteraction::VIBRATE, 1, Some("10")))
    );
    assert_eq!(trigger_qtshock(2, QTSInteraction::BEEP, &config), Some(beep(2)));
    config.set_shock_strength(99);
    assert_eq!(
        trigger_qtshock(0, QTSInteraction::SHOCK, &config),
        Some(call(QTSInteraction::SHOCK, 0, Some("99")))
    );
}

#[test]
fn a_trigger_calls_nothing_with_a_strength_out_of_range() {
    let mut config = TriggerConfig::new();
    config.set_shock_strength(0);
    assert_eq!(trigger_qtshock(0, QTSInteraction::SHOCK, &config), None);
    assert_eq!(trigger_qtshock(0, QTSInteraction::VIBRATE, &config), None);
    assert_eq!(trigger_qtshock(0, QTSInteraction::BEEP, &config), Some(beep(0)));
    config.set_shock_strength(100);
    assert_eq!(trigger_qtshock(0, QTSInteraction::SHOCK, &config), None);
}

#[test]
fn what_a_trigger_sends_is_accepted_by_hand() {
    for level in 1..=99u8 {
        let mut config = TriggerConfig::new();
        config.set_shock_strength(level);
        let made = trigger_qtshock(0, QTSInteraction::SHOCK, &config).unwrap();
        assert_eq!(shock(0, made.strength.as_ref().unwrap()), Ok(made));
    }
}

#[test]
fn a_death_is_answered_with_a_shock() {
    assert_eq!(death_check(0, &own(1)), DeathCheck { count: 1, died: true });
    assert_eq!(death_check(3, &own(4)), DeathCheck { count: 4, died: true });
    assert_eq!(death_check(3, &own(9)), DeathCheck { count: 9, died: true });
}

#[test]
fn no_new_death_is_no_shock() {
    assert_eq!(death_check(0, &own(0)), DeathCheck { count: 0, died: false });
    assert_eq!(death_check(4, &own(4)), DeathCheck { count: 4, died: false });
}

#[test]
fn a_new_match_starts_the_count_again() {
    assert_eq!(death_check(5, &own(0)), DeathCheck { count: 0, died: false });
    assert_eq!(death_check(5, &own(2)), DeathCheck { count: 2, died: true });
}

#[test]
fn a_report_about_someone_else_changes_nothing() {
    let watched = report(Some("7656"), Some((Some("9999"), Some(8))));
    assert_eq!(death_check(3, &watched), DeathCheck { count: 3, died: false });
}

#[test]
fn a_report_with_a_part_missing_changes_nothing() {
    let unchanged = DeathCheck { count: 3, died: false };
    assert_eq!(death_check(3, &report(Some("7656"), None)), unchanged);
    assert_eq!(death_check(3, &report(None, Some((Some("7656"), Some(8))))), unchanged);
    assert_eq!(death_check(3, &report(Some("7656"), Some((Some("7656"), None)))), unchanged);
    assert_eq!(death_check(3, &report(Some("7656"), Some((None, Some(8))))), unchanged);
    assert_eq!(death_check(3, &report(None, None)), unchanged);
}

#[test]
fn a_report_that_counts_deaths_without_a_player_is_told_apart() {
    assert!(report_lacks_player_id(&report(Some("7656"), Some((None, Some(8))))));
    assert!(!report_lacks_player_id(&report(Some("7656"), Some((Some("7656"), Some(8))))));
    assert!(!report_lacks_player_id(&report(Some("7656"), Some((None, None)))));
    assert!(!report_lacks_player_id(&report(None, Some((None, Some(8))))));
    assert!(!report_lacks_player_id(&report(Some("7656"), None)));
    assert!(!report_lacks_player_id(&own(3)));
}

#[test]
fn a_report_heard_twice_shocks_once() {
    let first = death_check(2, &own(3));
    assert!(first.died);
    let second = death_check(first.count, &own(3));
    assert_eq!(second, DeathCheck { count: 3, died: false });
}

#[test]
fn texts_are_searched_and_cut() {
    assert!(contains("/avatar/parameters/QTS_0_PUSH_SHOCK", "QTS_"));
    assert!(contains("QTS_", "QTS_"));
    assert!(contains("abc", ""));
    assert!(contains("", ""));
    assert!(!contains("/avatar/parameters/QTS", "QTS_"));
    assert!(!contains("QT_S_", "QTS_"));
    assert!(!contains("", "a"));
    assert!(contains("xxQTS_", "QTS_"));
    assert_eq!(split("a_b_c", '_'), vec!["a", "b", "c"]);
    assert_eq!(split("abc", '_'), vec!["abc"]);
    assert_eq!(split("", '_'), vec![""]);
    assert_eq!(split("_", '_'), vec!["", ""]);
    assert_eq!(split("a__b_", '_'), vec!["a", "", "b", ""]);
    assert_eq!(split("é_ü", '_'), vec!["é", "ü"]);
}

#[test]
fn an_address_names_its_trigger() {
    assert_eq!(
        read_address("/avatar/parameters/QTS_2_PUSH_SHOCK"),
        AddressReading {
            index_is_valid: true,
            command: Ok(TriggerCommand {
                shocker: 2,
                kind: QTSOSCType::PUSH,
                interaction: QTSInteraction::SHOCK,
            }),
        }
    );
    assert_eq!(
        read_address("/avatar/parameters/QTS_255_HIT_BEEP_extra"),
        AddressReading {
            index_is_valid: true,
            command: Ok(TriggerCommand {
                shocker: 255,
                kind: QTSOSCType::HIT,
                interaction: QTSInteraction::BEEP,
            }),
        }
    );
}

#[test]
fn a_bad_index_means_the_first_shocker() {
    for address in ["/QTS_x_HIT_VIBRATE", "/QTS_256_HIT_VIBRATE", "/QTS__HIT_VIBRATE", "/QTS_-1_HIT_VIBRATE"] {
        assert_eq!(
            read_address(address),
            AddressReading {
                index_is_valid: false,
                command: Ok(TriggerCommand {
                    shocker: 0,
                    kind: QTSOSCType::HIT,
                    interaction: QTSInteraction::VIBRATE,
                }),
            },
            "{}",
            address
        );
    }
}

#[test]
fn an_address_that_names_no_trigger_says_why() {
    assert_eq!(
        read_address("/avatar/parameters/VelocityX"),
        AddressReading { index_is_valid: true, command: Err(AddressFailure::NotForUs) }
    );
    assert_eq!(
        read_address("/QTS_1_PULL_SHOCK"),
        AddressReading { index_is_valid: true, command: Err(AddressFailure::BadKind) }
    );
    assert_eq!(
        read_address("/QTS_1_PUSH_ZAP"),
        AddressReading { index_is_valid: true, command: Err(AddressFailure::BadInteraction) }
    );
    assert_eq!(
        read_address("/QTS_x_PULL_SHOCK"),
        AddressReading { index_is_valid: false, command: Err(AddressFailure::BadKind) }
    );
    assert_eq!(
        read_address("/QTS_1_PUSH"),
        AddressReading { index_is_valid: true, command: Err(AddressFailure::TooShort) }
    );
    assert_eq!(
        read_address("/QTS_IN"),
        AddressReading { index_is_valid: false, command: Err(AddressFailure::TooShort) }
    );
}

#[test]
fn a_bad_kind_is_remarked_on_before_the_address_is_found_short() {
    assert_eq!(
        read_address("/avatar/parameters/QTS_1_FOO"),
        AddressReading { index_is_valid: true, command: Err(AddressFailure::BadKind) }
    );
    assert_eq!(
        read_address("/avatar/parameters/QTS_x_FOO"),
        AddressReading { index_is_valid: false, command: Err(AddressFailure::BadKind) }
    );
    assert_eq!(
        read_address("/QTS_1_"),
        AddressReading { index_is_valid: true, command: Err(AddressFailure::BadKind) }
    );
    assert_eq!(
        read_address("/QTS_1_HIT"),
        AddressReading { index_is_valid: true, command: Err(AddressFailure::TooShort) }
    );
    assert_eq!(
        read_address("/QTS_1"),
        AddressReading { index_is_valid: true, command: Err(AddressFailure::TooShort) }
    );
    let packet = message("/avatar/parameters/QTS_1_FOO", Argument::Bool(true));
    assert_eq!(
        handle_packet(&packet, true),
        Handling {
            says_before: says(&[
                "VRC OSC msg | /avatar/parameters/QTS_1_FOO: [..]",
                "Invalid QTShock OSC data received. Bad command type.",
            ]),
            trigger: None,
            says_after: vec![],
            can_shock: true,
            fault: None,
        }
    );
}

#[test]
fn numbers_are_read_digit_by_digit() {
    assert_eq!(shock(0, "0000000000000000000000000000042").unwrap().strength.unwrap().len(), 31);
    assert_eq!(shock(0, "+0000099"), Ok(call(QTSInteraction::SHOCK, 0, Some("+0000099"))));
    assert_eq!(shock(0, "-0"), Err(String::new()));
    assert_eq!(shock(0, "99999999999999999999"), Err("BAD SHOCK CALL".to_string()));
    assert_eq!(shock(0, "-99999999999999999999"), Err("BAD SHOCK CALL".to_string()));
    assert_eq!(shock(0, "٣"), Err("BAD SHOCK CALL".to_string()));
    assert_eq!(shock(0, "4２"), Err("BAD SHOCK CALL".to_string()));
    assert_eq!(shock(0, "--5"), Err("BAD SHOCK CALL".to_string()));
    for number in -40000i32..=40000 {
        let text = number.to_string();
        let expected = match text.parse::<i16>() {
            Ok(level) if (1..=99).contains(&level) => {
                Ok(call(QTSInteraction::SHOCK, 0, Some(text.as_str())))
            }
            Ok(_) => Err(String::new()),
            Err(_) => Err("BAD SHOCK CALL".to_string()),
        };
        assert_eq!(shock(0, &text), expected, "{}", text);
    }
    for number in 0u32..=300 {
        for text in [number.to_string(), format!("+{}", number), format!("0{}", number)] {
            let reading = read_address(&format!("/QTS_{}_HIT_BEEP", text));
            assert_eq!(reading.index_is_valid, text.parse::<u8>().is_ok(), "{}", text);
            assert_eq!(
                reading.command.unwrap().shocker,
                text.parse::<u8>().unwrap_or(0),
                "{}",
                text
            );
        }
    }
    for text in ["-0", "-1", "", "+", "1 ", " 1", "1_", "0x1", "١"] {
        let reading = read_address(&format!("/QTS_{}_HIT_BEEP", text));
        if !text.contains('_') {
            assert_eq!(reading.index_is_valid, text.parse::<u8>().is_ok(), "{:?}", text);
        }
    }
}

#[test]
fn failures_of_an_address_have_their_remarks() {
    assert_eq!(AddressFailure::BadKind.remark(), Some(Remark::BadKind));
    assert_eq!(AddressFailure::BadInteraction.remark(), Some(Remark::BadInteraction));
    assert_eq!(AddressFailure::NotForUs.remark(), None);
    assert_eq!(AddressFailure::TooShort.remark(), None);
}

#[test]
fn remarks_have_their_words() {
    assert_eq!(
        Remark::BadIndex.text(),
        "Invalid QTShock OSC data received. Bad invalid shocker index."
    );
    assert_eq!(Remark::BadKind.text(), "Invalid QTShock OSC data received. Bad command type.");
    assert_eq!(
        Remark::BadInteraction.text(),
        "Invalid QTShock OSC data received. Bad interaction type."
    );
    assert_eq!(Remark::BadValue.text(), "Invalid QTShock OSC data received. Bad value type.");
    assert_eq!(Remark::Boop.text(), "Boop");
    assert_eq!(Remark::Unboop.text(), "Unboop");
    assert_eq!(Remark::Hit.text(), "HIT!!!!!!!!!!!!!!!!!!!!");
}

#[test]
fn a_push_shocks_once_until_it_is_released() {
    let pressed = OscValue::Float(Level::Above);
    let released = OscValue::Float(Level::Below);
    let first = react(QTSOSCType::PUSH, pressed, true);
    assert_eq!(first, Reaction { can_shock: false, trigger: true, remark: Some(Remark::Boop) });
    let held = react(QTSOSCType::PUSH, pressed, first.can_shock);
    assert_eq!(held, Reaction { can_shock: false, trigger: false, remark: None });
    let between = react(QTSOSCType::PUSH, OscValue::Float(Level::Between), held.can_shock);
    assert_eq!(between, Reaction { can_shock: false, trigger: false, remark: None });
    let free = react(QTSOSCType::PUSH, released, between.can_shock);
    assert_eq!(free, Reaction { can_shock: true, trigger: false, remark: Some(Remark::Unboop) });
    let idle = react(QTSOSCType::PUSH, released, free.can_shock);
    assert_eq!(idle, Reaction { can_shock: true, trigger: false, remark: None });
    let again = react(QTSOSCType::PUSH, pressed, idle.can_shock);
    assert!(again.trigger);
}

#[test]
fn a_hit_shocks_when_it_is_switched_on() {
    for can_shock in [true, false] {
        assert_eq!(
            react(QTSOSCType::HIT, OscValue::Bool(true), can_shock),
            Reaction { can_shock, trigger: true, remark: Some(Remark::Hit) }
        );
        assert_eq!(
            react(QTSOSCType::HIT, OscValue::Bool(false), can_shock),
            Reaction { can_shock, trigger: false, remark: Some(Remark::Hit) }
        );
    }
}

#[test]
fn a_value_of_the_wrong_type_leads_to_nothing() {
    let bad = |can_shock| Reaction { can_shock, trigger: false, remark: Some(Remark::BadValue) };
    assert_eq!(react(QTSOSCType::PUSH, OscValue::Bool(true), true), bad(true));
    assert_eq!(react(QTSOSCType::PUSH, OscValue::Other, false), bad(false));
    assert_eq!(react(QTSOSCType::HIT, OscValue::Float(Level::Above), true), bad(true));
    assert_eq!(react(QTSOSCType::HIT, OscValue::Other, false), bad(false));
}

fn level_by_comparison(value: f32) -> Level {
    if value > 0.8f32 {
        Level::Above
    } else if value < 0.2f32 {
        Level::Below
    } else {
        Level::Between
    }
}

fn message(addr: &str, first: Argument) -> Packet {
    Packet::Message { addr: addr.to_string(), shown: "[..]".to_string(), args: vec![first] }
}

fn message_with(addr: &str, args: Vec<Argument>) -> Packet {
    Packet::Message { addr: addr.to_string(), shown: "[..]".to_string(), args }
}

fn says(lines: &[&str]) -> Vec<String> {
    lines.iter().map(|line| line.to_string()).collect()
}

fn datagram(addr: &str, args: Vec<OscType>) -> Vec<u8> {
    rosc::encoder::encode(&OscPacket::Message(OscMessage { addr: addr.to_string(), args }))
        .unwrap()
}

const SHOCK_0: TriggerCommand =
    TriggerCommand { shocker: 0, kind: QTSOSCType::PUSH, interaction: QTSInteraction::SHOCK };

#[test]
fn levels_are_those_of_the_numbers() {
    let samples = [
        0.0f32, -0.0, 0.1, 0.19999999, 0.2, 0.20000002, 0.5, 0.79999995, 0.8, 0.8000001, 0.9, 1.0,
        2.5, -0.1, -1.0, -0.8, -1.0e30, 1.0e30, f32::MIN_POSITIVE, f32::MAX, f32::MIN,
        f32::INFINITY, f32::NEG_INFINITY, f32::NAN, -f32::NAN, f32::EPSILON, 1.0e-45, -1.0e-45,
    ];
    for value in samples {
        assert_eq!(level_of(value.to_bits()), level_by_comparison(value), "{}", value);
    }
    for bits in [0x7F80_0001u32, 0x7FC0_0000, 0x7FFF_FFFF, 0xFF80_0001, 0xFFC0_0000, 0xFFFF_FFFF] {
        assert!(f32::from_bits(bits).is_nan());
        assert_eq!(level_of(bits), Level::Between);
    }
}

#[test]
fn levels_change_at_the_thresholds() {
    assert_eq!(level_of(0.8f32.to_bits()), Level::Between);
    assert_eq!(level_of(0.8f32.to_bits() + 1), Level::Above);
    assert_eq!(level_of(0.2f32.to_bits()), Level::Between);
    assert_eq!(level_of(0.2f32.to_bits() - 1), Level::Below);
    assert_eq!(level_of(0), Level::Below);
    assert_eq!(level_of(0x8000_0000), Level::Below);
    assert_eq!(level_of(0x7F80_0000), Level::Above);
    assert_eq!(level_of(0xFF80_0000), Level::Below);
    let mut bits = 0u32;
    loop {
        assert_eq!(level_of(bits), level_by_comparison(f32::from_bits(bits)), "{:#x}", bits);
        match bits.checked_add(0x0001_0001) {
            Some(next) => bits = next,
            None => break,
        }
    }
}

#[test]
fn a_bundle_is_shown_and_nothing_else() {
    let packet = Packet::Bundle { shown: "OscBundle { .. }".to_string() };
    assert_eq!(
        handle_packet(&packet, true),
        Handling {
            says_before: says(&["VRC OSC bundle | OscBundle { .. }"]),
            trigger: None,
            says_after: vec![],
            can_shock: true,
            fault: None,
        }
    );
}

#[test]
fn a_message_for_someone_else_is_passed_over() {
    for can_shock in [true, false] {
        assert_eq!(
            handle_packet(&message("/avatar/parameters/VelocityX", Argument::Float(0)), can_shock),
            Handling {
                says_before: vec![],
                trigger: None,
                says_after: vec![],
                can_shock,
                fault: None
            }
        );
    }
}

#[test]
fn a_pressed_push_shocks_and_boops() {
    let pressed = Argument::Float(0.9f32.to_bits());
    assert_eq!(
        handle_packet(&message("/avatar/parameters/QTS_0_PUSH_SHOCK", pressed), true),
        Handling {
            says_before: says(&["VRC OSC msg | /avatar/parameters/QTS_0_PUSH_SHOCK: [..]"]),
            trigger: Some(SHOCK_0),
            says_after: says(&["Boop"]),
            can_shock: false,
            fault: None,
        }
    );
    assert_eq!(
        handle_packet(&message("/avatar/parameters/QTS_0_PUSH_SHOCK", pressed), false),
        Handling {
            says_before: says(&["VRC OSC msg | /avatar/parameters/QTS_0_PUSH_SHOCK: [..]"]),
            trigger: None,
            says_after: vec![],
            can_shock: false,
            fault: None,
        }
    );
}

#[test]
fn a_released_push_unboops() {
    let released = Argument::Float(0.1f32.to_bits());
    assert_eq!(
        handle_packet(&message("/QTS_0_PUSH_SHOCK", released), false),
        Handling {
            says_before: says(&["VRC OSC msg | /QTS_0_PUSH_SHOCK: [..]"]),
            trigger: None,
            says_after: says(&["Unboop"]),
            can_shock: true,
            fault: None,
        }
    );
}

#[test]
fn a_hit_is_announced_before_it_shocks() {
    let command =
        TriggerCommand { shocker: 3, kind: QTSOSCType::HIT, interaction: QTSInteraction::BEEP };
    assert_eq!(
        handle_packet(&message("/QTS_3_HIT_BEEP", Argument::Bool(true)), false),
        Handling {
            says_before: says(&["VRC OSC msg | /QTS_3_HIT_BEEP: [..]", "HIT!!!!!!!!!!!!!!!!!!!!"]),
            trigger: Some(command),
            says_after: vec![],
            can_shock: false,
            fault: None,
        }
    );
    assert_eq!(
        handle_packet(&message("/QTS_3_HIT_BEEP", Argument::Bool(false)), true),
        Handling {
            says_before: says(&["VRC OSC msg | /QTS_3_HIT_BEEP: [..]", "HIT!!!!!!!!!!!!!!!!!!!!"]),
            trigger: None,
            says_after: vec![],
            can_shock: true,
            fault: None,
        }
    );
}

#[test]
fn bad_messages_are_remarked_on() {
    let bad_index = "Invalid QTShock OSC data received. Bad invalid shocker index.";
    assert_eq!(
        handle_packet(&message("/QTS_x_PULL_SHOCK", Argument::Bool(true)), true),
        Handling {
            says_before: says(&[
                "VRC OSC msg | /QTS_x_PULL_SHOCK: [..]",
                bad_index,
                "Invalid QTShock OSC data received. Bad command type.",
            ]),
            trigger: None,
            says_after: vec![],
            can_shock: true,
            fault: None,
        }
    );
    assert_eq!(
        handle_packet(&message("/QTS_1_HIT_ZAP", Argument::Bool(true)), true).says_before,
        says(&[
            "VRC OSC msg | /QTS_1_HIT_ZAP: [..]",
            "Invalid QTShock OSC data received. Bad interaction type.",
        ])
    );
    assert_eq!(
        handle_packet(&message("/QTS_x_HIT_SHOCK", Argument::Other), true),
        Handling {
            says_before: says(&["VRC OSC msg | /QTS_x_HIT_SHOCK: [..]", bad_index]),
            trigger: None,
            says_after: says(&["Invalid QTShock OSC data received. Bad value type."]),
            can_shock: true,
            fault: None,
        }
    );
}

#[test]
fn messages_that_cannot_be_handled_are_faults() {
    let short = handle_packet(&message("/QTS_1_HIT", Argument::Bool(true)), true);
    assert_eq!(short.fault, Some(Fault::ShortAddress));
    assert_eq!(short.says_before, says(&["VRC OSC msg | /QTS_1_HIT: [..]"]));
    assert_eq!(short.trigger, None);
    let empty = handle_packet(&message_with("/QTS_1_HIT_SHOCK", vec![]), false);
    assert_eq!(empty.fault, Some(Fault::NoValue));
    assert_eq!(empty.trigger, None);
    assert!(!empty.can_shock);
}

#[test]
fn only_the_first_argument_decides() {
    let pressed = Argument::Float(0.9f32.to_bits());
    let later = vec![Argument::Other, pressed, Argument::Bool(true)];
    assert_eq!(
        handle_packet(&message_with("/QTS_0_PUSH_SHOCK", later), true),
        handle_packet(&message("/QTS_0_PUSH_SHOCK", Argument::Other), true)
    );
    let first = vec![pressed, Argument::Other, Argument::Bool(false)];
    assert_eq!(
        handle_packet(&message_with("/QTS_0_PUSH_SHOCK", first), true),
        handle_packet(&message("/QTS_0_PUSH_SHOCK", pressed), true)
    );
    assert_eq!(value_of(Argument::Bool(true)), OscValue::Bool(true));
    assert_eq!(value_of(Argument::Other), OscValue::Other);
    assert_eq!(value_of(pressed), OscValue::Float(Level::Above));
}

#[test]
fn a_datagram_is_decoded_and_handled() {
    let bytes = datagram("/avatar/parameters/QTS_0_PUSH_SHOCK", vec![OscType::Float(0.95)]);
    assert_eq!(
        handle_datagram(&bytes, true),
        Handling {
            says_before: says(&[
                "VRC OSC msg | /avatar/parameters/QTS_0_PUSH_SHOCK: [Float(0.95)]"
            ]),
            trigger: Some(SHOCK_0),
            says_after: says(&["Boop"]),
            can_shock: false,
            fault: None,
        }
    );
    let bytes = datagram("/avatar/parameters/QTS_2_HIT_VIBRATE", vec![OscType::Bool(true)]);
    let handling = handle_datagram(&bytes, true);
    assert_eq!(
        handling.trigger,
        Some(TriggerCommand {
            shocker: 2,
            kind: QTSOSCType::HIT,
            interaction: QTSInteraction::VIBRATE
        })
    );
    assert_eq!(
        handling.says_before,
        says(&[
            "VRC OSC msg | /avatar/parameters/QTS_2_HIT_VIBRATE: [Bool(true)]",
            "HIT!!!!!!!!!!!!!!!!!!!!"
        ])
    );
}

#[test]
fn a_datagram_shows_all_its_arguments_and_reads_the_first() {
    let bytes = datagram(
        "/QTS_0_PUSH_SHOCK",
        vec![OscType::Int(7), OscType::Float(0.95), OscType::String("x".to_string())],
    );
    assert_eq!(
        handle_datagram(&bytes, true),
        Handling {
            says_before: says(&[
                "VRC OSC msg | /QTS_0_PUSH_SHOCK: [Int(7), Float(0.95), String(\"x\")]"
            ]),
            trigger: None,
            says_after: says(&["Invalid QTShock OSC data received. Bad value type."]),
            can_shock: true,
            fault: None,
        }
    );
    let bytes = datagram("/QTS_0_PUSH_SHOCK", vec![]);
    assert_eq!(handle_datagram(&bytes, true).fault, Some(Fault::NoValue));
}

#[test]
fn a_datagram_with_a_bundle_is_shown() {
    let bundle = OscBundle { timetag: OscTime { seconds: 1, fractional: 2 }, content: vec![] };
    let shown = format!("VRC OSC bundle | {:?}", bundle);
    let bytes = rosc::encoder::encode(&OscPacket::Bundle(bundle)).unwrap();
    assert_eq!(
        handle_datagram(&bytes, false),
        Handling {
            says_before: vec![shown],
            trigger: None,
            says_after: vec![],
            can_shock: false,
            fault: None
        }
    );
}

#[test]
fn bytes_that_are_no_packet_are_a_fault() {
    for bytes in [&b""[..], &b"hello"[..], &[0u8; 16][..], &b"/QTS_0_PUSH_SHOCK"[..]] {
        assert_eq!(
            handle_datagram(bytes, true),
            Handling {
                says_before: vec![],
                trigger: None,
                says_after: vec![],
                can_shock: true,
                fault: Some(Fault::Undecodable),
            }
        );
    }
}

#[test]
fn a_datagram_that_is_too_long_is_a_fault() {
    let mut bytes = datagram("/QTS_0_HIT_SHOCK", vec![OscType::Bool(true)]);
    assert!(handle_datagram(&bytes, true).fault.is_none());
    bytes.resize(MTU, 0);
    assert!(handle_datagram(&bytes, true).fault.is_none());
    bytes.resize(MTU + 1, 0);
    assert_eq!(handle_datagram(&bytes, true).fault, Some(Fault::Undecodable));
}
