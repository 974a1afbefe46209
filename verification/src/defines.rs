//! The words of the trigger protocol: how a trigger is raised, and what it
//! makes the device do.

use vstd::prelude::*;
use crate::text::same_text;

verus! {

/// How a trigger is raised.
#[allow(non_camel_case_types)]
#[derive(Clone, Copy, Debug, PartialEq, Eq, Structural)]
pub enum QTSOSCType {
    /// By a value that rises and falls, such as a touch.
    PUSH,
    /// By a switch that is on or off.
    HIT,
}

/// What a trigger makes the device do.
#[allow(non_camel_case_types)]
#[derive(Clone, Copy, Debug, PartialEq, Eq, Structural)]
pub enum QTSInteraction {
    SHOCK,
    VIBRATE,
    BEEP,
}

impl QTSOSCType {
    /// The kind of trigger that a word names: `PUSH` or `HIT`, in capitals.
    pub open spec fn parse_spec(input: Seq<char>) -> Result<QTSOSCType, ()> {
        if input == "PUSH"@ {
            Ok(QTSOSCType::PUSH)
        } else if input == "HIT"@ {
            Ok(QTSOSCType::HIT)
        } else {
            Err(())
        }
    }
}

impl QTSInteraction {
    /// The interaction that a word names: `SHOCK`, `VIBRATE` or `BEEP`, in
    /// capitals.
    pub open spec fn parse_spec(input: Seq<char>) -> Result<QTSInteraction, ()> {
        if input == "SHOCK"@ {
            Ok(QTSInteraction::SHOCK)
        } else if input == "VIBRATE"@ {
            Ok(QTSInteraction::VIBRATE)
        } else if input == "BEEP"@ {
            Ok(QTSInteraction::BEEP)
        } else {
            Err(())
        }
    }
}

impl std::str::FromStr for QTSOSCType {
    type Err = ();

    /// Reads the kind of a trigger.
    fn from_str(input: &str) -> (parsed: Result<QTSOSCType, ()>)
        ensures
            parsed == QTSOSCType::parse_spec(input@),
    {
        if same_text(input, "PUSH") {
            Ok(QTSOSCType::PUSH)
        } else if same_text(input, "HIT") {
            Ok(QTSOSCType::HIT)
        } else {
            Err(())
        }
    }
}

impl std::str::FromStr for QTSInteraction {
    type Err = ();

    /// Reads an interaction.
    fn from_str(input: &str) -> (parsed: Result<QTSInteraction, ()>)
        ensures
            parsed == QTSInteraction::parse_spec(input@),
    {
        if same_text(input, "SHOCK") {
            Ok(QTSInteraction::SHOCK)
        } else if same_text(input, "VIBRATE") {
            Ok(QTSInteraction::VIBRATE)
        } else if same_text(input, "BEEP") {
            Ok(QTSInteraction::BEEP)
        } else {
            Err(())
        }
    }
}

} // verus!
