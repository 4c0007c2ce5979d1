//! Operand width classes and their decoder.  Only the closed set of width
//! tokens `1`, `2`, `4`, `8`, `16`, `32` (byte counts) is accepted.

use vstd::prelude::*;

use crate::error::{ErrorModel, ParseError};
use crate::text::{eq_str, is_space};

verus! {

broadcast use vstd::string::group_string_axioms;

/// The width of an operand, as a class of byte counts.
#[derive(Clone, Copy, Debug, PartialEq, Eq, Structural, PartialOrd)]
pub enum Size {
    Byte,
    Half,
    Word,
    Quad,
    DoubleQuad,
    QuadQuad,
}

/// The width class a width token decodes to, or `None` for any text outside
/// the closed token set.
pub open spec fn size_of_token(s: Seq<char>) -> Option<Size> {
    if s == "1"@ {
        Some(Size::Byte)
    } else if s == "2"@ {
        Some(Size::Half)
    } else if s == "4"@ {
        Some(Size::Word)
    } else if s == "8"@ {
        Some(Size::Quad)
    } else if s == "16"@ {
        Some(Size::DoubleQuad)
    } else if s == "32"@ {
        Some(Size::QuadQuad)
    } else {
        None
    }
}

/// The number of bits a width class spans.
pub open spec fn bit_width(sz: Size) -> u32 {
    match sz {
        Size::Byte => 8,
        Size::Half => 16,
        Size::Word => 32,
        Size::Quad => 64,
        Size::DoubleQuad => 128,
        Size::QuadQuad => 256,
    }
}

impl Size {
    /// Decodes a width token; anything outside the closed set is an
    /// `InvalidWidth` failure.
    pub fn from_str(s: &str) -> (r: Result<Size, ParseError>)
        ensures
            size_of_token(s@) matches Some(sz) ==> r == Ok::<Size, ParseError>(sz),
            size_of_token(s@) is None ==> (r matches Err(e) && e@ == ErrorModel::InvalidWidth(s@)),
    {
        if eq_str(s, "1") {
            Ok(Size::Byte)
        } else if eq_str(s, "2") {
            Ok(Size::Half)
        } else if eq_str(s, "4") {
            Ok(Size::Word)
        } else if eq_str(s, "8") {
            Ok(Size::Quad)
        } else if eq_str(s, "16") {
            Ok(Size::DoubleQuad)
        } else if eq_str(s, "32") {
            Ok(Size::QuadQuad)
        } else {
            Err(ParseError::InvalidWidth(s.to_owned()))
        }
    }

    /// The width in bits of this class.
    pub fn to_bitvector_size(self) -> (r: u32)
        ensures
            r == bit_width(self),
    {
        match self {
            Size::Byte => 8,
            Size::Half => 16,
            Size::Word => 32,
            Size::Quad => 64,
            Size::DoubleQuad => 128,
            Size::QuadQuad => 256,
        }
    }
}

/// A width token is non-empty and holds neither blanks nor commas nor
/// parentheses.
pub proof fn lemma_width_token_benign(w: Seq<char>)
    requires
        size_of_token(w) is Some,
    ensures
        w.len() > 0,
        forall|i: int|
            0 <= i < w.len() ==> (w[i] != ',' && !is_space(w[i]) && w[i] != '(' && w[i] != ')'),
{
    reveal_strlit("1");
    reveal_strlit("2");
    reveal_strlit("4");
    reveal_strlit("8");
    reveal_strlit("16");
    reveal_strlit("32");
    assert("1"@ =~= seq!['1']);
    assert("2"@ =~= seq!['2']);
    assert("4"@ =~= seq!['4']);
    assert("8"@ =~= seq!['8']);
    assert("16"@ =~= seq!['1', '6']);
    assert("32"@ =~= seq!['3', '2']);
}

/// Width decoding is injective: distinct tokens decode to distinct width
/// classes.
pub proof fn lemma_width_decoding_injective(s1: Seq<char>, s2: Seq<char>)
    requires
        s1 != s2,
        size_of_token(s1) is Some,
        size_of_token(s2) is Some,
    ensures
        size_of_token(s1) != size_of_token(s2),
{
    reveal_strlit("1");
    reveal_strlit("2");
    reveal_strlit("4");
    reveal_strlit("8");
    reveal_strlit("16");
    reveal_strlit("32");
    assert("1"@.len() == 1);
    assert("2"@.len() == 1);
    assert("4"@.len() == 1);
    assert("8"@.len() == 1);
    assert("16"@.len() == 2);
    assert("32"@.len() == 2);
    assert("1"@[0] == '1');
    assert("2"@[0] == '2');
    assert("4"@[0] == '4');
    assert("8"@[0] == '8');
    assert("16"@[0] == '1');
    assert("32"@[0] == '3');
}

} // verus!
