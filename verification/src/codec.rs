//! The wire codec, behind trusted wrappers.
//!
//! The bridge treats the self-describing typed serialization of its wire
//! format as an opaque encode/decode pair and never inspects the byte
//! layout.  Each encoding, and what the decoder makes of arbitrary bytes,
//! is a function of the values alone, so both directions are given names
//! here (spec functions with no body) and every contract above speaks of
//! those names; the candid crate computes them.  The decode direction is
//! trusted to invert the encode direction — the round trip is what the
//! crate's own documentation promises of every example pair.  For the
//! argument shapes used here the encoder cannot fail: the types are
//! primitive or text, which take no type-table entry that could be
//! rejected, and every write goes to a growable byte buffer.

use vstd::prelude::*;

verus! {

/// The wire encoding of the empty argument tuple: the four magic bytes, a
/// zero type-table count and a zero argument count, nothing else.
pub open spec fn unit_args_wire() -> Seq<u8> {
    seq![0x44u8, 0x49u8, 0x44u8, 0x4cu8, 0x00u8, 0x00u8]
}

/// The wire encoding of one 64-bit natural argument.
pub uninterp spec fn nat64_args_wire(x: u64) -> Seq<u8>;

/// The wire encoding of a pair of arguments, a 64-bit natural and a text.
pub uninterp spec fn nat64_text_args_wire(x: u64, s: Seq<char>) -> Seq<u8>;

/// Whether arbitrary bytes decode as an empty argument tuple: a function
/// of the bytes alone.
pub uninterp spec fn unit_args_decoded(bytes: Seq<u8>) -> bool;

/// What the decoder makes of arbitrary bytes read as a one-element 64-bit
/// natural tuple: a function of the bytes alone.
pub uninterp spec fn nat64_args_decoded(bytes: Seq<u8>) -> Option<u64>;

/// What the decoder makes of arbitrary bytes read as a pair of a 64-bit
/// natural and a text: a function of the bytes alone.
pub uninterp spec fn nat64_text_args_decoded(bytes: Seq<u8>) -> Option<(u64, Seq<char>)>;

/// Relies on candid::utils::encode_args for the empty tuple: it writes the
/// magic header, an empty type table and a zero argument count, into a
/// growable buffer, and cannot fail.
#[verifier::external_body]
pub fn encode_unit_args() -> (r: Option<Vec<u8>>)
    ensures
        r is Some,
        r matches Some(v) ==> v@ == unit_args_wire(),
{
    candid::utils::encode_args(()).ok()
}

/// Relies on candid::utils::decode_args for the empty tuple: the verdict
/// depends on the bytes alone, and the exact empty-tuple encoding decodes.
#[verifier::external_body]
pub fn decode_unit_args(bytes: &Vec<u8>) -> (r: bool)
    ensures
        r == unit_args_decoded(bytes@),
        bytes@ == unit_args_wire() ==> r,
{
    candid::utils::decode_args::<()>(bytes.as_slice()).is_ok()
}

/// Relies on candid::utils::encode_args for a one-element tuple of a
/// 64-bit natural: the encoding depends on the value alone, and encoding a
/// primitive into a growable buffer cannot fail.
#[verifier::external_body]
pub fn encode_nat64_args(x: u64) -> (r: Option<Vec<u8>>)
    ensures
        r is Some,
        r matches Some(v) ==> v@ == nat64_args_wire(x),
{
    candid::utils::encode_args((x,)).ok()
}

/// Relies on candid::utils::decode_args for a one-element tuple of a
/// 64-bit natural: the result depends on the bytes alone, and decoding an
/// encoded tuple yields the encoded value.
#[verifier::external_body]
pub fn decode_nat64_args(bytes: &Vec<u8>) -> (r: Option<u64>)
    ensures
        r == nat64_args_decoded(bytes@),
        forall|x: u64| bytes@ == #[trigger] nat64_args_wire(x) ==> r == Some(x),
{
    candid::utils::decode_args::<(u64,)>(bytes.as_slice()).ok().map(|t| t.0)
}

/// Relies on candid::utils::encode_args for a pair of a 64-bit natural and
/// a text: the encoding depends on the two values alone, and encoding a
/// primitive and a text into a growable buffer cannot fail.
#[verifier::external_body]
pub fn encode_nat64_text_args(x: u64, s: &String) -> (r: Option<Vec<u8>>)
    ensures
        r is Some,
        r matches Some(v) ==> v@ == nat64_text_args_wire(x, s@),
{
    candid::utils::encode_args((x, s.as_str())).ok()
}

/// Relies on candid::utils::decode_args for a pair of a 64-bit natural and
/// a text: the result depends on the bytes alone, and decoding an encoded
/// pair yields the encoded values.
#[verifier::external_body]
pub fn decode_nat64_text_args(bytes: &Vec<u8>) -> (r: Option<(u64, String)>)
    ensures
        r is Some <==> nat64_text_args_decoded(bytes@) is Some,
        r matches Some(p) ==> nat64_text_args_decoded(bytes@) == Some((p.0, p.1@)),
        forall|x: u64, t: Seq<char>|
            bytes@ == #[trigger] nat64_text_args_wire(x, t) ==> {
                &&& r is Some
                &&& r.unwrap().0 == x
                &&& r.unwrap().1@ == t
            },
{
    candid::utils::decode_args::<(u64, String)>(bytes.as_slice()).ok()
}

} // verus!
