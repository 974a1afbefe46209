//! Datagrams from the OSC sender: how one is decoded, and what is to be
//! done about the packet that it holds.

use vstd::prelude::*;
use vstd::string::StringExecFns;
use rosc::{OscPacket, OscType};
use crate::osc::{
    address_spec, react, react_spec, read_address, AddressFailure, Level, OscValue, Remark,
    TriggerCommand,
};
use crate::text::join2;

verus! {

/// The largest datagram that is decoded, in bytes.
pub const MTU: usize = 1536;

/// The bit pattern of 0.8 as a single-precision number: a push above it is
/// pressed.
pub const UPPER_THRESHOLD_BITS: u32 = 0x3F4C_CCCD;

/// The bit pattern of 0.2 as a single-precision number: a push below it is
/// released.
pub const LOWER_THRESHOLD_BITS: u32 = 0x3E4C_CCCD;

/// The bit pattern of positive infinity; the patterns above it, up to the
/// sign bit, are no numbers.
pub const INFINITY_BITS: u32 = 0x7F80_0000;

/// The sign bit: the patterns from it on are negative.
pub const SIGN_BIT: u32 = 0x8000_0000;

/// The bit pattern of negative infinity; the patterns above it are no
/// numbers.
pub const NEGATIVE_INFINITY_BITS: u32 = 0xFF80_0000;

/// One argument of a message as it arrived.
#[derive(Clone, Copy, Debug, PartialEq, Eq, Structural)]
pub enum Argument {
    /// A single-precision number, by its bit pattern.
    Float(u32),
    Bool(bool),
    /// An argument of any other type.
    Other,
}

/// What a datagram holds.
#[derive(Clone, Debug, PartialEq, Eq)]
pub enum Packet {
    Message {
        addr: String,
        /// The arguments as they are shown to the user.
        shown: String,
        /// The arguments, in their order.
        args: Vec<Argument>,
    },
    Bundle {
        /// The bundle as it is shown to the user.
        shown: String,
    },
}

/// `Packet` as a mathematical value.
pub enum PacketView {
    Message { addr: Seq<char>, shown: Seq<char>, args: Seq<Argument> },
    Bundle { shown: Seq<char> },
}

impl View for Packet {
    type V = PacketView;

    open spec fn view(&self) -> PacketView {
        match self {
            Packet::Message { addr, shown, args } => PacketView::Message {
                addr: addr@,
                shown: shown@,
                args: args@,
            },
            Packet::Bundle { shown } => PacketView::Bundle { shown: shown@ },
        }
    }
}

/// Why a message could not be handled.
#[derive(Clone, Copy, Debug, PartialEq, Eq, Structural)]
pub enum Fault {
    /// The datagram is too long or no OSC packet.
    Undecodable,
    /// The address of a message for us ends before the piece that is to be
    /// read next: it has no third piece, or a third piece that is a kind of
    /// trigger and no fourth.
    ShortAddress,
    /// A message that names a trigger has no argument.
    NoValue,
}

/// What is to be done about a datagram.
#[derive(Clone, Debug, PartialEq, Eq)]
pub struct Handling {
    /// What the user is told first, in this order.
    pub says_before: Vec<String>,
    /// The trigger to raise then, if any.
    pub trigger: Option<TriggerCommand>,
    /// What the user is told once the trigger has been raised.
    pub says_after: Vec<String>,
    /// Whether a push may shock from now on.
    pub can_shock: bool,
    /// Why the message could not be handled, if it could not.
    pub fault: Option<Fault>,
}

/// `Handling` as a mathematical value.
pub struct HandlingView {
    pub says_before: Seq<Seq<char>>,
    pub trigger: Option<TriggerCommand>,
    pub says_after: Seq<Seq<char>>,
    pub can_shock: bool,
    pub fault: Option<Fault>,
}

impl View for Handling {
    type V = HandlingView;

    open spec fn view(&self) -> HandlingView {
        HandlingView {
            says_before: self.says_before.deep_view(),
            trigger: self.trigger,
            says_after: self.says_after.deep_view(),
            can_shock: self.can_shock,
            fault: self.fault,
        }
    }
}

/// What `rosc::decoder::decode_udp` makes of the bytes of a datagram: the
/// packet, or nothing where the bytes are no OSC packet. The texts in which
/// a packet is shown are those of the `Debug` formatting that rosc derives
/// for what it has decoded; nothing is decided on them.
pub uninterp spec fn decoded(bytes: Seq<u8>) -> Option<PacketView>;

/// Where a single-precision number stands between the thresholds, by its
/// bit pattern. Positive numbers are ordered as their patterns are; every
/// negative number, zero with a sign included, is below the lower
/// threshold; a pattern that is no number is neither above nor below.
pub open spec fn level_spec(bits: u32) -> Level {
    if UPPER_THRESHOLD_BITS < bits <= INFINITY_BITS {
        Level::Above
    } else if bits < LOWER_THRESHOLD_BITS || SIGN_BIT <= bits <= NEGATIVE_INFINITY_BITS {
        Level::Below
    } else {
        Level::Between
    }
}

/// The value that an argument stands for.
pub open spec fn value_spec(argument: Argument) -> OscValue {
    match argument {
        Argument::Float(bits) => OscValue::Float(level_spec(bits)),
        Argument::Bool(on) => OscValue::Bool(on),
        Argument::Other => OscValue::Other,
    }
}

/// The value that decides what a trigger does: that of the first argument;
/// none where the message has no argument.
pub open spec fn first_value(args: Seq<Argument>) -> Option<OscValue> {
    if args.len() == 0 {
        None
    } else {
        Some(value_spec(args[0]))
    }
}

/// How a message is shown to the user.
pub open spec fn message_echo(addr: Seq<char>, shown: Seq<char>) -> Seq<char> {
    "VRC OSC msg | "@ + addr + ": "@ + shown
}

/// How a bundle is shown to the user.
pub open spec fn bundle_echo(shown: Seq<char>) -> Seq<char> {
    "VRC OSC bundle | "@ + shown
}

/// A handling that tells the user `says` and does nothing else.
pub open spec fn only_says(
    says: Seq<Seq<char>>,
    can_shock: bool,
    fault: Option<Fault>,
) -> HandlingView {
    HandlingView { says_before: says, trigger: None, says_after: seq![], can_shock, fault }
}

/// What is to be done about a packet, where `can_shock` says whether a
/// push may shock. A bundle is shown and nothing else. A message for
/// someone else is passed over. A message for us is shown; a bad index is
/// remarked on; then the address decides: where it names no trigger, that
/// is remarked on, and where it does, the first argument decides what the
/// trigger does.
pub open spec fn handle_spec(packet: PacketView, can_shock: bool) -> HandlingView {
    match packet {
        PacketView::Bundle { shown } => only_says(seq![bundle_echo(shown)], can_shock, None),
        PacketView::Message { addr, shown, args } => {
            let reading = address_spec(addr);
            let opening = if reading.index_is_valid {
                seq![message_echo(addr, shown)]
            } else {
                seq![message_echo(addr, shown), Remark::BadIndex.text_spec()]
            };
            match reading.command {
                Err(AddressFailure::NotForUs) => only_says(seq![], can_shock, None),
                Err(AddressFailure::TooShort) => only_says(
                    opening,
                    can_shock,
                    Some(Fault::ShortAddress),
                ),
                Err(AddressFailure::BadKind) => only_says(
                    opening.push(Remark::BadKind.text_spec()),
                    can_shock,
                    None,
                ),
                Err(AddressFailure::BadInteraction) => only_says(
                    opening.push(Remark::BadInteraction.text_spec()),
                    can_shock,
                    None,
                ),
                Ok(command) => match first_value(args) {
                    None => only_says(opening, can_shock, Some(Fault::NoValue)),
                    Some(value) => {
                        let reaction = react_spec(command.kind, value, can_shock);
                        HandlingView {
                            says_before: if reaction.remark == Some(Remark::Hit) {
                                opening.push(Remark::Hit.text_spec())
                            } else {
                                opening
                            },
                            trigger: if reaction.trigger {
                                Some(command)
                            } else {
                                None
                            },
                            says_after: match reaction.remark {
                                Some(Remark::Hit) | None => seq![],
                                Some(remark) => seq![remark.text_spec()],
                            },
                            can_shock: reaction.can_shock,
                            fault: None,
                        }
                    },
                },
            }
        },
    }
}

/// What is to be done about a datagram, from what it was decoded to.
pub open spec fn handle_decoded_spec(packet: Option<PacketView>, can_shock: bool) -> HandlingView {
    match packet {
        Some(packet) => handle_spec(packet, can_shock),
        None => only_says(seq![], can_shock, Some(Fault::Undecodable)),
    }
}

/// Decodes a datagram with `rosc::decoder::decode_udp`. The result is a
/// function of the bytes alone, which `decoded` names: the address of a
/// message, its arguments in the form in which they are shown and one by
/// one, or the bundle in the form in which it is shown. Bytes after the
/// packet are dropped.
///
/// No more bytes than a datagram has are handed over, because the decoder
/// and the formatting of what it returns go as deep as the packet is
/// nested. A bundle within a bundle costs twenty bytes, so bundles nest
/// fewer than eighty deep. An array within an array costs two bytes of type
/// tags, so arrays nest fewer than eight hundred deep; the decoder keeps
/// them on a stack of its own, and only the formatting descends into them,
/// one level at a time. Both depths are far from what the stack of a
/// thread holds.
#[verifier::external_body]
fn decode(bytes: &[u8]) -> (packet: Option<Packet>)
    requires
        bytes@.len() <= MTU,
    ensures
        packet.is_some() == decoded(bytes@).is_some(),
        packet matches Some(held) ==> decoded(bytes@) == Some(held@),
{
    match rosc::decoder::decode_udp(bytes) {
        Ok((_, OscPacket::Message(message))) => Some(Packet::Message {
            shown: format!("{:?}", message.args),
            args: message.args.iter().map(|argument| match argument {
                OscType::Float(value) => Argument::Float(value.to_bits()),
                OscType::Bool(value) => Argument::Bool(*value),
                _ => Argument::Other,
            }).collect(),
            addr: message.addr,
        }),
        Ok((_, OscPacket::Bundle(all))) => Some(Packet::Bundle { shown: format!("{:?}", all) }),
        Err(_) => None,
    }
}

/// Where a single-precision number stands between the thresholds, by its
/// bit pattern.
pub fn level_of(bits: u32) -> (level: Level)
    ensures
        level == level_spec(bits),
{
    if UPPER_THRESHOLD_BITS < bits && bits <= INFINITY_BITS {
        Level::Above
    } else if bits < LOWER_THRESHOLD_BITS || (SIGN_BIT <= bits && bits <= NEGATIVE_INFINITY_BITS) {
        Level::Below
    } else {
        Level::Between
    }
}

/// The value that an argument stands for.
pub fn value_of(argument: Argument) -> (value: OscValue)
    ensures
        value == value_spec(argument),
{
    match argument {
        Argument::Float(bits) => OscValue::Float(level_of(bits)),
        Argument::Bool(on) => OscValue::Bool(on),
        Argument::Other => OscValue::Other,
    }
}

/// A handling that tells the user `says` and does nothing else.
fn say_only(says: Vec<String>, can_shock: bool, fault: Option<Fault>) -> (handling: Handling)
    ensures
        handling@ == only_says(says.deep_view(), can_shock, fault),
{
    let handling = Handling {
        says_before: says,
        trigger: None,
        says_after: Vec::new(),
        can_shock,
        fault,
    };
    assert(handling@.says_after =~= seq![]);
    handling
}

/// Adds the words of a remark to what the user is told.
fn add_remark(says: &mut Vec<String>, remark: Remark)
    ensures
        final(says).deep_view() == old(says).deep_view().push(remark.text_spec()),
{
    let words = remark.text().to_owned();
    says.push(words);
    assert(says.deep_view() =~= old(says).deep_view().push(remark.text_spec()));
}

/// Decides what is to be done about a packet, where `can_shock` says
/// whether a push may shock.
pub fn handle_packet(packet: &Packet, can_shock: bool) -> (handling: Handling)
    ensures
        handling@ == handle_spec(packet@, can_shock),
{
    let mut says: Vec<String> = Vec::new();
    assert(says.deep_view() =~= seq![]);
    match packet {
        Packet::Bundle { shown } => {
            says.push(join2("VRC OSC bundle | ", shown.as_str()));
            assert(says.deep_view() =~= seq![bundle_echo(shown@)]);
            say_only(says, can_shock, None)
        },
        Packet::Message { addr, shown, args } => {
            let reading = read_address(addr.as_str());
            let command = match reading.command {
                Err(AddressFailure::NotForUs) => {
                    return say_only(says, can_shock, None);
                },
                other => other,
            };
            let mut echo = join2("VRC OSC msg | ", addr.as_str());
            echo.append(": ");
            echo.append(shown.as_str());
            says.push(echo);
            assert(says.deep_view() =~= seq![message_echo(addr@, shown@)]);
            if !reading.index_is_valid {
                add_remark(&mut says, Remark::BadIndex);
            }
            let ghost opening = if reading.index_is_valid {
                seq![message_echo(addr@, shown@)]
            } else {
                seq![message_echo(addr@, shown@), Remark::BadIndex.text_spec()]
            };
            assert(says.deep_view() =~= opening);
            let command = match command {
                Ok(command) => command,
                Err(failure) => {
                    let fault = match failure {
                        AddressFailure::TooShort => Some(Fault::ShortAddress),
                        _ => None,
                    };
                    match failure.remark() {
                        Some(remark) => add_remark(&mut says, remark),
                        None => {},
                    }
                    return say_only(says, can_shock, fault);
                },
            };
            if args.len() == 0 {
                return say_only(says, can_shock, Some(Fault::NoValue));
            }
            let value = value_of(args[0]);
            let reaction = react(command.kind, value, can_shock);
            let mut says_after: Vec<String> = Vec::new();
            assert(says_after.deep_view() =~= seq![]);
            match reaction.remark {
                Some(Remark::Hit) => add_remark(&mut says, Remark::Hit),
                Some(remark) => {
                    add_remark(&mut says_after, remark);
                    assert(says_after.deep_view() =~= seq![remark.text_spec()]);
                },
                None => {},
            }
            assert(says.deep_view() =~= if reaction.remark == Some(Remark::Hit) {
                opening.push(Remark::Hit.text_spec())
            } else {
                opening
            });
            Handling {
                says_before: says,
                trigger: if reaction.trigger {
                    Some(command)
                } else {
                    None
                },
                says_after,
                can_shock: reaction.can_shock,
                fault: None,
            }
        },
    }
}

/// Decides what is to be done about a datagram: it is decoded, and the
/// packet is handled; a datagram that is too long or no OSC packet is a
/// fault.
pub fn handle_datagram(bytes: &[u8], can_shock: bool) -> (handling: Handling)
    ensures
        handling@ == if bytes@.len() <= MTU {
            handle_decoded_spec(decoded(bytes@), can_shock)
        } else {
            only_says(seq![], can_shock, Some(Fault::Undecodable))
        },
{
    let nothing: Vec<String> = Vec::new();
    assert(nothing.deep_view() =~= seq![]);
    if bytes.len() > MTU {
        return say_only(nothing, can_shock, Some(Fault::Undecodable));
    }
    match decode(bytes) {
        Some(packet) => handle_packet(&packet, can_shock),
        None => say_only(nothing, can_shock, Some(Fault::Undecodable)),
    }
}

} // verus!
