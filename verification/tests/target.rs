use qtshock::target::{
    app_partition, flash_settings, scratch_prefix, session_plan, Chip, FlashFrequency, FlashMode,
    FlashSettings, FlashSize, ResetAfter, ResetBefore, SessionPlan, MIN_CHIP_REVISION,
    OPENING_BAUD, PARTITION_TABLE_OFFSET, SYNC_BAUD,
};

#[test]
fn the_target_has_its_numbers() {
    assert_eq!(OPENING_BAUD, 115200);
    assert_eq!(SYNC_BAUD, 460800);
    assert_eq!(PARTITION_TABLE_OFFSET, 0x8000);
    assert_eq!(MIN_CHIP_REVISION, 101);
    assert_eq!(app_partition(), "app0");
    assert_eq!(scratch_prefix(), "qtstmp");
}

#[test]
fn the_flash_has_its_settings() {
    assert_eq!(
        flash_settings(),
        FlashSettings {
            mode: FlashMode::Dio,
            size: FlashSize::Mb4,
            frequency: FlashFrequency::Mhz40
        }
    );
}

#[test]
fn the_session_is_opened_slowly_and_raised() {
    assert_eq!(
        session_plan(),
        SessionPlan {
            opening_baud: 115200,
            flow_control: false,
            sync_baud: 460800,
            chip: Chip::Esp32,
            use_stub: true,
            verify: true,
            skip: false,
            reset_before: ResetBefore::Default,
            reset_after: ResetAfter::Hard,
        }
    );
}
