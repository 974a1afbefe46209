//! Triggers that arrive as OSC messages: how the address of a message is
//! read, and what its value leads to.

use vstd::prelude::*;
use std::str::FromStr;
use crate::defines::{QTSInteraction, QTSOSCType};
use crate::number::{parse_u8, u8_of_text};
use crate::text::{contains, contains_spec, split, split_spec};

verus! {

/// Why the address of a message names no trigger.
#[derive(Clone, Copy, Debug, PartialEq, Eq, Structural)]
pub enum AddressFailure {
    /// The address does not hold `QTS_`: the message is for someone else.
    NotForUs,
    /// The address ends before the piece that is to be read next: it has
    /// no third piece, or a third piece that is a kind of trigger and no
    /// fourth.
    TooShort,
    /// The third piece is no kind of trigger.
    BadKind,
    /// The fourth piece is no interaction.
    BadInteraction,
}

/// The trigger that an address names.
#[derive(Clone, Copy, Debug, PartialEq, Eq, Structural)]
pub struct TriggerCommand {
    pub shocker: u8,
    pub kind: QTSOSCType,
    pub interaction: QTSInteraction,
}

/// What an address says.
#[derive(Clone, Copy, Debug, PartialEq, Eq)]
pub struct AddressReading {
    /// Whether the second piece of an address for us is the number of a
    /// shocker. Where it is not, the first shocker is meant.
    pub index_is_valid: bool,
    pub command: Result<TriggerCommand, AddressFailure>,
}

/// Where the value of a push stands.
#[derive(Clone, Copy, Debug, PartialEq, Eq, Structural)]
pub enum Level {
    /// Above the upper threshold: pressed.
    Above,
    /// Below the lower threshold: released.
    Below,
    /// Between the two thresholds, or no number at all.
    Between,
}

/// The first value of a message.
#[derive(Clone, Copy, Debug, PartialEq, Eq, Structural)]
pub enum OscValue {
    Float(Level),
    Bool(bool),
    /// Anything else.
    Other,
}

/// What is said about a message.
#[derive(Clone, Copy, Debug, PartialEq, Eq, Structural)]
pub enum Remark {
    BadIndex,
    BadKind,
    BadInteraction,
    BadValue,
    Boop,
    Unboop,
    Hit,
}

/// What a message leads to.
#[derive(Clone, Copy, Debug, PartialEq, Eq, Structural)]
pub struct Reaction {
    /// Whether a push may shock from now on.
    pub can_shock: bool,
    /// Whether the trigger is raised.
    pub trigger: bool,
    pub remark: Option<Remark>,
}

/// The mark of the addresses that are meant for this application.
pub open spec fn address_mark() -> Seq<char> {
    "QTS_"@
}

/// Whether the address is meant for this application.
pub open spec fn is_for_us(address: Seq<char>) -> bool {
    contains_spec(address, address_mark())
}

/// The trigger that the pieces of an address name: the second piece is the
/// shocker, the third the kind of trigger, the fourth the interaction. The
/// pieces are read in this order, and the first that is missing or wrong
/// decides: an address without a third piece is too short; a third piece
/// that is no kind of trigger is a bad kind, whether a fourth follows or
/// not; an address without a fourth piece is too short; a fourth piece that
/// is no interaction is a bad interaction.
pub open spec fn command_spec(pieces: Seq<Seq<char>>) -> Result<TriggerCommand, AddressFailure> {
    if pieces.len() < 3 {
        Err(AddressFailure::TooShort)
    } else {
        match QTSOSCType::parse_spec(pieces[2]) {
            Err(_) => Err(AddressFailure::BadKind),
            Ok(kind) => if pieces.len() < 4 {
                Err(AddressFailure::TooShort)
            } else {
                match QTSInteraction::parse_spec(pieces[3]) {
                    Err(_) => Err(AddressFailure::BadInteraction),
                    Ok(interaction) => Ok(
                        TriggerCommand {
                            shocker: match u8_of_text(pieces[1]) {
                                Some(shocker) => shocker,
                                None => 0,
                            },
                            kind,
                            interaction,
                        },
                    ),
                }
            },
        }
    }
}

/// What an address says: cut at each `_`, an address for us names a
/// trigger by its pieces.
pub open spec fn address_spec(address: Seq<char>) -> AddressReading {
    if is_for_us(address) {
        let pieces = split_spec(address, '_');
        AddressReading {
            index_is_valid: pieces.len() >= 2 && u8_of_text(pieces[1]) is Some,
            command: command_spec(pieces),
        }
    } else {
        AddressReading { index_is_valid: true, command: Err(AddressFailure::NotForUs) }
    }
}

/// What the first value of a message leads to, for a trigger of the kind
/// `kind`. A push shocks once when it is pressed and can shock again after
/// it has been released. A hit shocks when it is switched on. A value of
/// the wrong type is remarked on and leads to nothing.
pub open spec fn react_spec(kind: QTSOSCType, value: OscValue, can_shock: bool) -> Reaction {
    match kind {
        QTSOSCType::PUSH => match value {
            OscValue::Float(Level::Above) => if can_shock {
                Reaction { can_shock: false, trigger: true, remark: Some(Remark::Boop) }
            } else {
                Reaction { can_shock, trigger: false, remark: None }
            },
            OscValue::Float(Level::Below) => if !can_shock {
                Reaction { can_shock: true, trigger: false, remark: Some(Remark::Unboop) }
            } else {
                Reaction { can_shock, trigger: false, remark: None }
            },
            OscValue::Float(Level::Between) => Reaction { can_shock, trigger: false, remark: None },
            _ => Reaction { can_shock, trigger: false, remark: Some(Remark::BadValue) },
        },
        QTSOSCType::HIT => match value {
            OscValue::Bool(on) => Reaction { can_shock, trigger: on, remark: Some(Remark::Hit) },
            _ => Reaction { can_shock, trigger: false, remark: Some(Remark::BadValue) },
        },
    }
}

impl Remark {
    /// The words of the remark.
    pub open spec fn text_spec(self) -> Seq<char> {
        match self {
            Remark::BadIndex => "Invalid QTShock OSC data received. Bad invalid shocker index."@,
            Remark::BadKind => "Invalid QTShock OSC data received. Bad command type."@,
            Remark::BadInteraction => "Invalid QTShock OSC data received. Bad interaction type."@,
            Remark::BadValue => "Invalid QTShock OSC data received. Bad value type."@,
            Remark::Boop => "Boop"@,
            Remark::Unboop => "Unboop"@,
            Remark::Hit => "HIT!!!!!!!!!!!!!!!!!!!!"@,
        }
    }

    /// The words of the remark.
    pub fn text(self) -> (words: &'static str)
        ensures
            words@ == self.text_spec(),
    {
        match self {
            Remark::BadIndex => "Invalid QTShock OSC data received. Bad invalid shocker index.",
            Remark::BadKind => "Invalid QTShock OSC data received. Bad command type.",
            Remark::BadInteraction => "Invalid QTShock OSC data received. Bad interaction type.",
            Remark::BadValue => "Invalid QTShock OSC data received. Bad value type.",
            Remark::Boop => "Boop",
            Remark::Unboop => "Unboop",
            Remark::Hit => "HIT!!!!!!!!!!!!!!!!!!!!",
        }
    }
}

impl AddressFailure {
    /// What is said about an address that names no trigger, if anything.
    pub fn remark(self) -> (remark: Option<Remark>)
        ensures
            remark == match self {
                AddressFailure::BadKind => Some(Remark::BadKind),
                AddressFailure::BadInteraction => Some(Remark::BadInteraction),
                _ => None,
            },
    {
        match self {
            AddressFailure::BadKind => Some(Remark::BadKind),
            AddressFailure::BadInteraction => Some(Remark::BadInteraction),
            _ => None,
        }
    }
}

/// Reads the address of a message.
pub fn read_address(address: &str) -> (reading: AddressReading)
    ensures
        reading == address_spec(address@),
{
    if !contains(address, "QTS_") {
        return AddressReading { index_is_valid: true, command: Err(AddressFailure::NotForUs) };
    }
    let pieces = split(address, '_');
    let ghost cut = split_spec(address@, '_');
    assert(pieces.len() == cut.len());
    let index = if pieces.len() >= 2 {
        assert(pieces[1]@ == cut[1]);
        parse_u8(pieces[1].as_str())
    } else {
        None
    };
    let index_is_valid = index.is_some();
    if pieces.len() < 3 {
        return AddressReading { index_is_valid, command: Err(AddressFailure::TooShort) };
    }
    assert(pieces[2]@ == cut[2]);
    let kind = match QTSOSCType::from_str(pieces[2].as_str()) {
        Ok(kind) => kind,
        Err(_) => {
            return AddressReading { index_is_valid, command: Err(AddressFailure::BadKind) };
        },
    };
    if pieces.len() < 4 {
        return AddressReading { index_is_valid, command: Err(AddressFailure::TooShort) };
    }
    assert(pieces[3]@ == cut[3]);
    let interaction = match QTSInteraction::from_str(pieces[3].as_str()) {
        Ok(interaction) => interaction,
        Err(_) => {
            return AddressReading { index_is_valid, command: Err(AddressFailure::BadInteraction) };
        },
    };
    let shocker = match index {
        Some(shocker) => shocker,
        None => 0,
    };
    AddressReading { index_is_valid, command: Ok(TriggerCommand { shocker, kind, interaction }) }
}

/// Decides what the first value of a message leads to.
pub fn react(kind: QTSOSCType, value: OscValue, can_shock: bool) -> (reaction: Reaction)
    ensures
        reaction == react_spec(kind, value, can_shock),
{
    let nothing = Reaction { can_shock, trigger: false, remark: None };
    let bad_value = Reaction { can_shock, trigger: false, remark: Some(Remark::BadValue) };
    match kind {
        QTSOSCType::PUSH => match value {
            OscValue::Float(level) => match level {
                Level::Above => if can_shock {
                    Reaction { can_shock: false, trigger: true, remark: Some(Remark::Boop) }
                } else {
                    nothing
                },
                Level::Below => if !can_shock {
                    Reaction { can_shock: true, trigger: false, remark: Some(Remark::Unboop) }
                } else {
                    nothing
                },
                Level::Between => nothing,
            },
            _ => bad_value,
        },
        QTSOSCType::HIT => match value {
            OscValue::Bool(on) => Reaction { can_shock, trigger: on, remark: Some(Remark::Hit) },
            _ => bad_value,
        },
    }
}

/// A push does not shock twice in a row: once it has shocked, it shocks
/// again only after it has been released.
pub proof fn lemma_push_shocks_once(value: OscValue, next: OscValue, can_shock: bool)
    ensures
        react_spec(QTSOSCType::PUSH, value, can_shock).trigger ==> !react_spec(
            QTSOSCType::PUSH,
            value,
            can_shock,
        ).can_shock,
        !can_shock ==> !react_spec(QTSOSCType::PUSH, next, can_shock).trigger,
        !can_shock && react_spec(QTSOSCType::PUSH, next, can_shock).can_shock ==> next
            == OscValue::Float(Level::Below),
{
}

} // verus!
