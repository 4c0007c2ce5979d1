//! A fixed-width numeric value read from a `payload,width` pair, held as a
//! 32-bit quantity by truncation.

use vstd::prelude::*;

use crate::error::{ErrorModel, ParseError};
use crate::text::{parse_hex, parse_hex_str, split_on, split_str, strip_0x, strip_0x_str, trim,
    trim_str};

verus! {

broadcast use vstd::string::group_string_axioms;

/// A numeric value truncated to 32 bits.
#[derive(Clone, Copy, Debug, PartialEq, Eq, Structural)]
pub struct Value {
    pub data: i32,
}

impl Value {
    /// Keeps the low 32 bits of a 64-bit quantity.
    pub fn from_quad(input: u64) -> (r: Self)
        ensures
            r.data == input as i32,
    {
        Self { data: #[verifier::truncate] (input as i32) }
    }

    /// Keeps a 32-bit quantity bit for bit.
    pub fn from_word(input: u32) -> (r: Self)
        ensures
            r.data == input as i32,
    {
        Self { data: #[verifier::truncate] (input as i32) }
    }

    /// Widens a 16-bit quantity; the value is preserved.
    pub fn from_half(input: u16) -> (r: Self)
        ensures
            r.data == input as i32,
            r.data == input as int,
    {
        Self { data: input as i32 }
    }

    /// Widens an 8-bit quantity; the value is preserved.
    pub fn from_byte(input: u8) -> (r: Self)
        ensures
            r.data == input as i32,
            r.data == input as int,
    {
        Self { data: input as i32 }
    }
}

/// The value a `payload,width` pair decodes to.  The payload is hexadecimal
/// with one optional leading `0x`; the width selects how many bytes the
/// payload may span.  An empty payload with width `8` stands for the literal
/// value zero; widths other than `1`, `2`, `4` and that one `8` form are not
/// representable here and are failures.
pub open spec fn spec_value(s: Seq<char>) -> Result<Value, ErrorModel> {
    let fields = split_on(s, ',');
    if fields.len() != 2 {
        Err(ErrorModel::MalformedOperand(s))
    } else {
        let payload = strip_0x(trim(fields[0]));
        let w = trim(fields[1]);
        if payload.len() == 0 && w == "8"@ {
            Ok(Value { data: 0 })
        } else if w == "4"@ {
            match parse_hex(payload, u32::MAX as u64) {
                Some(v) => Ok(Value { data: v as u32 as i32 }),
                None => Err(ErrorModel::MalformedOperand(s)),
            }
        } else if w == "2"@ {
            match parse_hex(payload, u16::MAX as u64) {
                Some(v) => Ok(Value { data: v as u16 as i32 }),
                None => Err(ErrorModel::MalformedOperand(s)),
            }
        } else if w == "1"@ {
            match parse_hex(payload, u8::MAX as u64) {
                Some(v) => Ok(Value { data: v as u8 as i32 }),
                None => Err(ErrorModel::MalformedOperand(s)),
            }
        } else {
            Err(ErrorModel::MalformedOperand(s))
        }
    }
}

impl Value {
    /// Decodes a `payload,width` pair, as `spec_value` says.
    pub fn from_str(s: &str) -> (r: Result<Value, ParseError>)
        ensures
            spec_value(s@) matches Ok(v) ==> r == Ok::<Value, ParseError>(v),
            spec_value(s@) matches Err(e) ==> (r matches Err(pe) && pe@ == e),
    {
        let fields = split_str(s, ',');
        if fields.len() != 2 {
            return Err(ParseError::MalformedOperand(s.to_owned()));
        }
        let payload = strip_0x_str(trim_str(fields[0]));
        let w = trim_str(fields[1]);
        proof {
            assert(fields.deep_view()[0] == fields[0]@);
            assert(fields.deep_view()[1] == fields[1]@);
        }
        if payload.unicode_len() == 0 && crate::text::eq_str(w, "8") {
            Ok(Value { data: 0 })
        } else if crate::text::eq_str(w, "4") {
            match parse_hex_str(payload, 0xffff_ffff) {
                Some(v) => Ok(Value::from_word(v as u32)),
                None => Err(ParseError::MalformedOperand(s.to_owned())),
            }
        } else if crate::text::eq_str(w, "2") {
            match parse_hex_str(payload, 0xffff) {
                Some(v) => Ok(Value::from_half(v as u16)),
                None => Err(ParseError::MalformedOperand(s.to_owned())),
            }
        } else if crate::text::eq_str(w, "1") {
            match parse_hex_str(payload, 0xff) {
                Some(v) => Ok(Value::from_byte(v as u8)),
                None => Err(ParseError::MalformedOperand(s.to_owned())),
            }
        } else {
            Err(ParseError::MalformedOperand(s.to_owned()))
        }
    }
}

} // verus!
