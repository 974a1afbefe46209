//! The hardware that is flashed: one chip, one flash layout and one way of
//! talking to it. None of this is open to the user.

use vstd::prelude::*;

verus! {

/// The baud rate at which the endpoint is opened.
pub const OPENING_BAUD: u32 = 115200;

/// The baud rate to which the link is raised once the device has answered.
pub const SYNC_BAUD: u32 = 460800;

/// The address at which the partition table begins.
pub const PARTITION_TABLE_OFFSET: u32 = 0x8000;

/// The lowest chip revision that the images run on, as major times 100 plus
/// minor.
pub const MIN_CHIP_REVISION: u16 = 101;

/// The microcontroller families that can be flashed.
#[derive(Clone, Copy, Debug, PartialEq, Eq, Structural)]
pub enum Chip {
    Esp32,
}

/// How the flash is wired to the chip.
#[derive(Clone, Copy, Debug, PartialEq, Eq, Structural)]
pub enum FlashMode {
    /// Two data lines, addresses and data.
    Dio,
}

/// How much flash the device has.
#[derive(Clone, Copy, Debug, PartialEq, Eq, Structural)]
pub enum FlashSize {
    /// Four megabytes.
    Mb4,
}

/// How fast the flash is clocked.
#[derive(Clone, Copy, Debug, PartialEq, Eq, Structural)]
pub enum FlashFrequency {
    /// Forty megahertz.
    Mhz40,
}

/// How the device is reset before the session.
#[derive(Clone, Copy, Debug, PartialEq, Eq, Structural)]
pub enum ResetBefore {
    /// The usual sequence on the control lines, which suits boards that
    /// reset themselves.
    Default,
}

/// How the device is reset after the session.
#[derive(Clone, Copy, Debug, PartialEq, Eq, Structural)]
pub enum ResetAfter {
    /// A hard reset, so that the device boots what has been written.
    Hard,
}

/// The settings of the flash.
#[derive(Clone, Copy, Debug, PartialEq, Eq, Structural)]
pub struct FlashSettings {
    pub mode: FlashMode,
    pub size: FlashSize,
    pub frequency: FlashFrequency,
}

/// How the endpoint is opened and the session with the bootloader is set
/// up.
#[derive(Clone, Copy, Debug, PartialEq, Eq, Structural)]
pub struct SessionPlan {
    pub opening_baud: u32,
    /// Whether the endpoint is opened with flow control.
    pub flow_control: bool,
    pub sync_baud: u32,
    pub chip: Chip,
    /// Whether the flasher stub is loaded into the device.
    pub use_stub: bool,
    /// Whether what was written is read back and compared.
    pub verify: bool,
    /// Whether regions that already hold the right bytes are skipped.
    pub skip: bool,
    pub reset_before: ResetBefore,
    pub reset_after: ResetAfter,
}

/// The settings of the flash of the device.
pub fn flash_settings() -> (settings: FlashSettings)
    ensures
        settings == (FlashSettings {
            mode: FlashMode::Dio,
            size: FlashSize::Mb4,
            frequency: FlashFrequency::Mhz40,
        }),
{
    FlashSettings { mode: FlashMode::Dio, size: FlashSize::Mb4, frequency: FlashFrequency::Mhz40 }
}

/// How a session with the device is set up: the endpoint is opened at the
/// opening baud rate without flow control, and the link is raised to the
/// synchronisation baud rate; the device is reset in the usual way before
/// and hard after.
pub fn session_plan() -> (plan: SessionPlan)
    ensures
        plan == (SessionPlan {
            opening_baud: OPENING_BAUD,
            flow_control: false,
            sync_baud: SYNC_BAUD,
            chip: Chip::Esp32,
            use_stub: true,
            verify: true,
            skip: false,
            reset_before: ResetBefore::Default,
            reset_after: ResetAfter::Hard,
        }),
        plan.opening_baud < plan.sync_baud,
{
    SessionPlan {
        opening_baud: OPENING_BAUD,
        flow_control: false,
        sync_baud: SYNC_BAUD,
        chip: Chip::Esp32,
        use_stub: true,
        verify: true,
        skip: false,
        reset_before: ResetBefore::Default,
        reset_after: ResetAfter::Hard,
    }
}

/// The name of the partition that takes the application image.
pub fn app_partition() -> (name: &'static str)
    ensures
        name@ == "app0"@,
{
    "app0"
}

/// The first letters of the name of every scratch directory.
pub fn scratch_prefix() -> (prefix: &'static str)
    ensures
        prefix@ == "qtstmp"@,
{
    "qtstmp"
}

} // verus!
