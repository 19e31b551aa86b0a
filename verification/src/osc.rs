//! The OSC messages that the suite facade sends and receives, their wire
//! form, and the calls into `rosc` that produce and read it.

use vstd::prelude::*;
use vstd::utf8::encode_utf8;

use crate::text::opt_view;

verus! {

/// An argument of an OSC message as the facade builds them: a 32-bit
/// integer (type tag `i`) or a string (type tag `s`).
#[derive(Debug, Clone)]
pub enum OscArg {
    Int(i32),
    Str(String),
}

/// An OSC message: an address pattern and its arguments.
#[derive(Debug, Clone)]
pub struct OscMessage {
    pub addr: String,
    pub args: Vec<OscArg>,
}

/// The mathematical value of an [`OscArg`].
pub enum ArgModel {
    Int(i32),
    Str(Seq<char>),
}

/// The mathematical value of an [`OscMessage`].
pub struct MessageModel {
    pub addr: Seq<char>,
    pub args: Seq<ArgModel>,
}

impl View for OscArg {
    type V = ArgModel;

    open spec fn view(&self) -> ArgModel {
        match self {
            OscArg::Int(i) => ArgModel::Int(*i),
            OscArg::Str(s) => ArgModel::Str(s@),
        }
    }
}

impl View for OscMessage {
    type V = MessageModel;

    open spec fn view(&self) -> MessageModel {
        MessageModel { addr: self.addr@, args: self.args@.map_values(|a: OscArg| a@) }
    }
}

/// `bytes` followed by the 1 to 4 zero bytes that end it and bring its
/// length to a multiple of four.
pub open spec fn osc_padded(bytes: Seq<u8>) -> Seq<u8> {
    bytes + Seq::new((4 - bytes.len() % 4) as nat, |i: int| 0u8)
}

/// An OSC-string: the UTF-8 bytes of `s`, zero-terminated and padded.
pub open spec fn osc_string(s: Seq<char>) -> Seq<u8> {
    osc_padded(encode_utf8(s))
}

/// The type tag byte of an argument.
pub open spec fn type_tag(a: ArgModel) -> u8 {
    match a {
        ArgModel::Int(_) => 0x69u8,
        ArgModel::Str(_) => 0x73u8,
    }
}

/// The big-endian two's-complement bytes of a 32-bit integer.
pub open spec fn int_bytes(x: i32) -> Seq<u8> {
    let u: int = if x < 0 {
        x + 0x1_0000_0000
    } else {
        x as int
    };
    seq![
        (u / 0x100_0000) as u8,
        (u / 0x1_0000 % 0x100) as u8,
        (u / 0x100 % 0x100) as u8,
        (u % 0x100) as u8,
    ]
}

/// The data bytes of one argument.
pub open spec fn arg_bytes(a: ArgModel) -> Seq<u8> {
    match a {
        ArgModel::Int(x) => int_bytes(x),
        ArgModel::Str(s) => osc_string(s),
    }
}

/// The data bytes of the arguments, in order.
pub open spec fn args_bytes(args: Seq<ArgModel>) -> Seq<u8>
    decreases args.len(),
{
    if args.len() == 0 {
        Seq::empty()
    } else {
        arg_bytes(args[0]) + args_bytes(args.drop_first())
    }
}

/// The OSC 1.0 wire form of a message: the address as an OSC-string, the
/// type tag string (`,` and one tag per argument) as an OSC-string, then
/// the data of each argument.
pub open spec fn osc_message_bytes(m: MessageModel) -> Seq<u8> {
    osc_string(m.addr) + osc_padded(seq![0x2cu8] + m.args.map_values(|a: ArgModel| type_tag(a)))
        + args_bytes(m.args)
}

/// A message that reads back as it was written: its address starts with
/// `/`, and neither the address nor a string argument holds a zero
/// character.
pub open spec fn is_routable(m: MessageModel) -> bool {
    &&& m.addr.len() > 0
    &&& m.addr[0] == '/'
    &&& !m.addr.contains('\0')
    &&& forall|i: int|
        0 <= i < m.args.len() ==> (#[trigger] m.args[i] matches ArgModel::Str(s) ==> !s.contains(
            '\0',
        ))
}

/// The address of the message that `rosc` reads from a datagram, `None`
/// where the datagram does not decode or holds a bundle.
pub uninterp spec fn osc_decoded_address(datagram: Seq<u8>) -> Option<Seq<char>>;

#[verifier::external_type_specification]
#[verifier::external_body]
pub struct ExOscError(rosc::OscError);

/// Calls `rosc::encoder::encode` on the message, as an `OscPacket::Message`
/// with `OscType::Int` and `OscType::String` arguments. `encode` writes into
/// a `Vec`, whose output cannot fail, and always returns `Ok`; its
/// `encode_message` writes the OSC-string of the address, the OSC-string of
/// `,` and the type tags, then each argument (an `Int` as four big-endian
/// bytes, a `String` as an OSC-string).
#[verifier::external_body]
fn rosc_encode(msg: &OscMessage) -> (r: Result<Vec<u8>, rosc::OscError>)
    ensures
        r is Ok,
        r matches Ok(bytes) ==> bytes@ == osc_message_bytes(msg@),
{
    let args = msg.args.iter().map(|a| match a {
        OscArg::Int(i) => rosc::OscType::Int(*i),
        OscArg::Str(s) => rosc::OscType::String(s.clone()),
    }).collect();
    rosc::encoder::encode(&rosc::OscPacket::Message(rosc::OscMessage { addr: msg.addr.clone(), args }))
}

/// Calls `rosc::decoder::decode_udp` on a datagram and gives the address of
/// the message it holds; `None` where decoding fails or the packet is a
/// bundle. Of the result this states its name, and that a datagram which
/// is the encoding of a routable message reads back with that message's
/// address (the decoder reads the zero-terminated address, requires a
/// leading `/`, then reads each `i` and `s` argument as the encoder wrote it).
#[verifier::external_body]
pub(crate) fn rosc_decoded_address(datagram: &[u8]) -> (addr: Option<String>)
    ensures
        opt_view(addr) == osc_decoded_address(datagram@),
        forall|m: MessageModel|
            #[trigger] osc_message_bytes(m) == datagram@ && is_routable(m) ==> opt_view(addr)
                == Some(m.addr),
{
    match rosc::decoder::decode_udp(datagram) {
        Ok((_, rosc::OscPacket::Message(msg))) => Some(msg.addr),
        _ => None,
    }
}

/// The wire form of a message.
pub fn encode(msg: &OscMessage) -> (bytes: Vec<u8>)
    ensures
        bytes@ == osc_message_bytes(msg@),
{
    match rosc_encode(msg) {
        Ok(bytes) => bytes,
        Err(_) => Vec::new(),
    }
}

} // verus!
