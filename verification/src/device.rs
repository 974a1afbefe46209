//! The control interface of the device: which call a trigger or a command
//! of the user leads to, and what is said about it.

use vstd::prelude::*;
use vstd::string::StringExecFns;
use crate::config::TriggerConfig;
use crate::defines::QTSInteraction;
use crate::number::{decimal, decimal_text, i16_of_text, parse_i16};
use crate::text::{join2, join3};

verus! {

/// The weakest shock or vibration that the device takes.
pub const MIN_STRENGTH: i16 = 1;

/// The strongest shock or vibration that the device takes.
pub const MAX_STRENGTH: i16 = 99;

/// One call of the device's control interface.
#[derive(Clone, Debug, PartialEq, Eq)]
pub struct DeviceCall {
    pub interaction: QTSInteraction,
    /// Which of the shockers of the device is meant.
    pub shocker: u8,
    /// The strength as it is sent; a beep has none.
    pub strength: Option<String>,
}

/// `DeviceCall` as a mathematical value.
pub struct DeviceCallView {
    pub interaction: QTSInteraction,
    pub shocker: u8,
    pub strength: Option<Seq<char>>,
}

impl View for DeviceCall {
    type V = DeviceCallView;

    open spec fn view(&self) -> DeviceCallView {
        DeviceCallView {
            interaction: self.interaction,
            shocker: self.shocker,
            strength: match self.strength {
                Some(text) => Some(text@),
                None => None,
            },
        }
    }
}

/// Whether a text gives a strength that the device takes: a number from 1
/// to 99.
pub open spec fn is_strength(text: Seq<char>) -> bool {
    i16_of_text(text) matches Some(level) && MIN_STRENGTH <= level <= MAX_STRENGTH
}

/// The word for an interaction at the beginning of a sentence.
pub open spec fn interaction_name(interaction: QTSInteraction) -> Seq<char> {
    match interaction {
        QTSInteraction::SHOCK => "Shock"@,
        QTSInteraction::VIBRATE => "Vibrate"@,
        QTSInteraction::BEEP => "Beep"@,
    }
}

/// The call for a shock or a vibration of the strength that `strength`
/// gives, or what is answered instead: nothing where the number is not
/// from 1 to 99, and `complaint` where the text is no number.
pub open spec fn strength_call(
    interaction: QTSInteraction,
    shocker: u8,
    strength: Seq<char>,
    complaint: Seq<char>,
) -> Result<DeviceCallView, Seq<char>> {
    if is_strength(strength) {
        Ok(DeviceCallView { interaction, shocker, strength: Some(strength) })
    } else if i16_of_text(strength) is Some {
        Err(Seq::empty())
    } else {
        Err(complaint)
    }
}

/// The call for a shock of the strength that `strength` gives, or what is
/// answered instead.
pub open spec fn shock_spec(shocker: u8, strength: Seq<char>) -> Result<DeviceCallView, Seq<char>> {
    strength_call(QTSInteraction::SHOCK, shocker, strength, "BAD SHOCK CALL"@)
}

/// The call for a vibration of the strength that `strength` gives, or what
/// is answered instead.
pub open spec fn vibrate_spec(shocker: u8, strength: Seq<char>) -> Result<
    DeviceCallView,
    Seq<char>,
> {
    strength_call(QTSInteraction::VIBRATE, shocker, strength, "BAD VIBRATE CALL"@)
}

/// The outcome of a command as a mathematical value.
pub open spec fn outcome_view(outcome: Result<DeviceCall, String>) -> Result<
    DeviceCallView,
    Seq<char>,
> {
    match outcome {
        Ok(call) => Ok(call@),
        Err(message) => Err(message@),
    }
}

/// The path of an interaction on the device.
pub open spec fn path_spec(interaction: QTSInteraction) -> Seq<char> {
    match interaction {
        QTSInteraction::SHOCK => "/shock"@,
        QTSInteraction::VIBRATE => "/vibrate"@,
        QTSInteraction::BEEP => "/beep"@,
    }
}

/// What is said once a call has been made.
pub open spec fn confirmation_spec(call: DeviceCallView) -> Seq<char> {
    match call.strength {
        Some(strength) => interaction_name(call.interaction) + " was called with: "@ + strength,
        None => interaction_name(call.interaction) + " was called"@,
    }
}

/// The call that a trigger leads to, if any. A shock and a vibration are
/// both as strong as shocks are set to be, and are not called where that
/// is not from 1 to 99; a beep has no strength.
pub open spec fn trigger_spec(
    shocker: u8,
    interaction: QTSInteraction,
    shock_strength: u8,
) -> Option<DeviceCallView> {
    match interaction {
        QTSInteraction::BEEP => Some(DeviceCallView { interaction, shocker, strength: None }),
        _ => if MIN_STRENGTH <= shock_strength <= MAX_STRENGTH {
            Some(
                DeviceCallView {
                    interaction,
                    shocker,
                    strength: Some(decimal_text(shock_strength as nat)),
                },
            )
        } else {
            None
        },
    }
}

/// The call for a shock or a vibration, from the strength as the user
/// wrote it.
fn call_with_strength(
    interaction: QTSInteraction,
    shocker: u8,
    strength: &str,
    complaint: &str,
) -> (outcome: Result<DeviceCall, String>)
    ensures
        outcome_view(outcome) == strength_call(interaction, shocker, strength@, complaint@),
{
    match parse_i16(strength) {
        Some(level) => {
            if level < MIN_STRENGTH || level > MAX_STRENGTH {
                Err(String::new())
            } else {
                Ok(DeviceCall { interaction, shocker, strength: Some(strength.to_owned()) })
            }
        },
        None => Err(complaint.to_owned()),
    }
}

/// The call for a shock of the strength that the user wrote.
pub fn shock(shocker: u8, strength: &str) -> (outcome: Result<DeviceCall, String>)
    ensures
        outcome_view(outcome) == shock_spec(shocker, strength@),
{
    call_with_strength(QTSInteraction::SHOCK, shocker, strength, "BAD SHOCK CALL")
}

/// The call for a vibration of the strength that the user wrote.
pub fn vibrate(shocker: u8, strength: &str) -> (outcome: Result<DeviceCall, String>)
    ensures
        outcome_view(outcome) == vibrate_spec(shocker, strength@),
{
    call_with_strength(QTSInteraction::VIBRATE, shocker, strength, "BAD VIBRATE CALL")
}

/// The call for a beep.
pub fn beep(shocker: u8) -> (call: DeviceCall)
    ensures
        call@ == (DeviceCallView { interaction: QTSInteraction::BEEP, shocker, strength: None }),
{
    DeviceCall { interaction: QTSInteraction::BEEP, shocker, strength: None }
}

/// The call that a trigger leads to, if any, with the settings `config`.
pub fn trigger_qtshock(
    shocker: u8,
    interaction: QTSInteraction,
    config: &TriggerConfig,
) -> (call: Option<DeviceCall>)
    ensures
        match call {
            Some(made) => trigger_spec(shocker, interaction, config.shock_strength) == Some(made@),
            None => trigger_spec(shocker, interaction, config.shock_strength) is None,
        },
{
    match interaction {
        QTSInteraction::BEEP => Some(beep(shocker)),
        _ => {
            let level = config.shock_strength;
            if level < 1 || level > 99 {
                None
            } else {
                Some(DeviceCall { interaction, shocker, strength: Some(decimal(level)) })
            }
        },
    }
}

/// The path of an interaction on the device.
pub fn path(interaction: QTSInteraction) -> (path: &'static str)
    ensures
        path@ == path_spec(interaction),
{
    match interaction {
        QTSInteraction::SHOCK => "/shock",
        QTSInteraction::VIBRATE => "/vibrate",
        QTSInteraction::BEEP => "/beep",
    }
}

/// The address of an interaction on the device that is found at `ip`.
pub fn url(ip: &str, interaction: QTSInteraction) -> (address: String)
    ensures
        address@ == "http://"@ + ip@ + path_spec(interaction),
{
    join3("http://", ip, path(interaction))
}

/// What is said once a call has been made.
pub fn confirmation(call: &DeviceCall) -> (message: String)
    ensures
        message@ == confirmation_spec(call@),
{
    let name = match call.interaction {
        QTSInteraction::SHOCK => "Shock",
        QTSInteraction::VIBRATE => "Vibrate",
        QTSInteraction::BEEP => "Beep",
    };
    match &call.strength {
        Some(strength) => join3(name, " was called with: ", strength.as_str()),
        None => join2(name, " was called"),
    }
}

/// A trigger calls what the user could have called by hand: the strength
/// that it sends is one that `shock` and `vibrate` accept.
pub proof fn lemma_trigger_sends_a_valid_strength(
    shocker: u8,
    interaction: QTSInteraction,
    shock_strength: u8,
    complaint: Seq<char>,
)
    requires
        interaction != QTSInteraction::BEEP,
    ensures
        trigger_spec(shocker, interaction, shock_strength) matches Some(call) ==> {
            &&& call.strength matches Some(strength)
            &&& strength_call(interaction, shocker, strength, complaint) == Ok::<
                DeviceCallView,
                Seq<char>,
            >(call)
        },
{
    crate::number::lemma_decimal_is_read_back(shock_strength);
}

} // verus!
