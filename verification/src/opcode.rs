//! The closed vocabulary of primitive operations and its decoder.
//!
//! The mnemonic table is the single authority: the spec-level decoder
//! `opcode_of`, the spec-level formatter `mnemonic_of`, the executable
//! decoder and the executable formatter all walk the same entries, and the
//! round-trip lemmas below tie them together.

use vstd::prelude::*;

use crate::error::{ErrorModel, ParseError};
use crate::text::eq_str;

verus! {

broadcast use vstd::string::group_string_axioms;

/// The tag of one primitive operation.
///
/// `Blank` is the one tag without a mnemonic: it stands for "no operation
/// recorded" and is never produced by the decoder.
#[derive(Clone, Copy, Debug, PartialEq, Eq, Structural)]
pub enum Opcode {
    Blank,
    BoolAnd,
    BoolNegate,
    BoolOr,
    BoolXor,
    Branch,
    BranchInd,
    Build,
    Call,
    CallInd,
    CallOther,
    CBranch,
    Ceil,
    Copy,
    CPoolRef,
    CrossBuild,
    DelaySlot,
    Float2Float,
    FloatAbs,
    FloatAdd,
    FloatDiv,
    FloatEqual,
    FloatLess,
    FloatLessEqual,
    FloatMult,
    FloatNaN,
    FloatNeg,
    FloatNotEqual,
    FloatSqrt,
    FloatSub,
    Floor,
    Int2Float,
    Int2Comp,
    IntAdd,
    IntAnd,
    IntCarry,
    IntDiv,
    IntEqual,
    IntLeft,
    IntLess,
    IntLessEqual,
    IntMult,
    IntNegate,
    IntNotEqual,
    IntOr,
    IntRem,
    IntRight,
    IntSBorrow,
    IntSCarry,
    IntSDiv,
    IntSExt,
    IntSLess,
    IntSLessEqual,
    IntSRem,
    IntSRight,
    IntSub,
    IntXor,
    IntZExt,
    Label,
    Load,
    LZCount,
    New,
    Piece,
    PopCount,
    Return,
    Round,
    SegmentOp,
    Store,
    SubPiece,
    Trunc,
    Unused1,
}

/// The operation tag a mnemonic decodes to, or `None` for any text outside
/// the fixed vocabulary.
pub open spec fn opcode_of(s: Seq<char>) -> Option<Opcode> {
    if s == "BOOL_AND"@ {
        Some(Opcode::BoolAnd)
    } else if s == "BOOL_NEGATE"@ {
        Some(Opcode::BoolNegate)
    } else if s == "BOOL_OR"@ {
        Some(Opcode::BoolOr)
    } else if s == "BOOL_XOR"@ {
        Some(Opcode::BoolXor)
    } else if s == "BRANCH"@ {
        Some(Opcode::Branch)
    } else if s == "BRANCHIND"@ {
        Some(Opcode::BranchInd)
    } else if s == "BUILD"@ {
        Some(Opcode::Build)
    } else if s == "CALL"@ {
        Some(Opcode::Call)
    } else if s == "CALLIND"@ {
        Some(Opcode::CallInd)
    } else if s == "CALLOTHER"@ {
        Some(Opcode::CallOther)
    } else if s == "CBRANCH"@ {
        Some(Opcode::CBranch)
    } else if s == "CEIL"@ {
        Some(Opcode::Ceil)
    } else if s == "COPY"@ {
        Some(Opcode::Copy)
    } else if s == "CPOOLREF"@ {
        Some(Opcode::CPoolRef)
    } else if s == "CROSSBUILD"@ {
        Some(Opcode::CrossBuild)
    } else if s == "DELAYSLOT"@ {
        Some(Opcode::DelaySlot)
    } else if s == "FLOAT2FLOAT"@ {
        Some(Opcode::Float2Float)
    } else if s == "FLOAT_ABS"@ {
        Some(Opcode::FloatAbs)
    } else if s == "FLOAT_ADD"@ {
        Some(Opcode::FloatAdd)
    } else if s == "FLOAT_DIV"@ {
        Some(Opcode::FloatDiv)
    } else if s == "FLOAT_EQUAL"@ {
        Some(Opcode::FloatEqual)
    } else if s == "FLOAT_LESS"@ {
        Some(Opcode::FloatLess)
    } else if s == "FLOAT_LESSEQUAL"@ {
        Some(Opcode::FloatLessEqual)
    } else if s == "FLOAT_MULT"@ {
        Some(Opcode::FloatMult)
    } else if s == "FLOAT_NAN"@ {
        Some(Opcode::FloatNaN)
    } else if s == "FLOAT_NEG"@ {
        Some(Opcode::FloatNeg)
    } else if s == "FLOAT_NOTEQUAL"@ {
        Some(Opcode::FloatNotEqual)
    } else if s == "FLOAT_SQRT"@ {
        Some(Opcode::FloatSqrt)
    } else if s == "FLOAT_SUB"@ {
        Some(Opcode::FloatSub)
    } else if s == "FLOAT_FLOOR"@ {
        Some(Opcode::Floor)
    } else if s == "INT2FLOAT"@ {
        Some(Opcode::Int2Float)
    } else if s == "INT_2COMP"@ {
        Some(Opcode::Int2Comp)
    } else if s == "INT_ADD"@ {
        Some(Opcode::IntAdd)
    } else if s == "INT_AND"@ {
        Some(Opcode::IntAnd)
    } else if s == "INT_CARRY"@ {
        Some(Opcode::IntCarry)
    } else if s == "INT_DIV"@ {
        Some(Opcode::IntDiv)
    } else if s == "INT_EQUAL"@ {
        Some(Opcode::IntEqual)
    } else if s == "INT_LEFT"@ {
        Some(Opcode::IntLeft)
    } else if s == "INT_LESS"@ {
        Some(Opcode::IntLess)
    } else if s == "INT_LESSEQUAL"@ {
        Some(Opcode::IntLessEqual)
    } else if s == "INT_MULT"@ {
        Some(Opcode::IntMult)
    } else if s == "INT_NEGATE"@ {
        Some(Opcode::IntNegate)
    } else if s == "INT_NOTEQUAL"@ {
        Some(Opcode::IntNotEqual)
    } else if s == "INT_OR"@ {
        Some(Opcode::IntOr)
    } else if s == "INT_REM"@ {
        Some(Opcode::IntRem)
    } else if s == "INT_RIGHT"@ {
        Some(Opcode::IntRight)
    } else if s == "INT_SBORROW"@ {
        Some(Opcode::IntSBorrow)
    } else if s == "INT_SCARRY"@ {
        Some(Opcode::IntSCarry)
    } else if s == "INT_SDIV"@ {
        Some(Opcode::IntSDiv)
    } else if s == "INT_SEXT"@ {
        Some(Opcode::IntSExt)
    } else if s == "INT_SLESS"@ {
        Some(Opcode::IntSLess)
    } else if s == "INT_SLESSEQUAL"@ {
        Some(Opcode::IntSLessEqual)
    } else if s == "INT_SREM"@ {
        Some(Opcode::IntSRem)
    } else if s == "INT_SRIGHT"@ {
        Some(Opcode::IntSRight)
    } else if s == "INT_SUB"@ {
        Some(Opcode::IntSub)
    } else if s == "INT_XOR"@ {
        Some(Opcode::IntXor)
    } else if s == "INT_ZEXT"@ {
        Some(Opcode::IntZExt)
    } else if s == "LABEL"@ {
        Some(Opcode::Label)
    } else if s == "LOAD"@ {
        Some(Opcode::Load)
    } else if s == "LZCOUNT"@ {
        Some(Opcode::LZCount)
    } else if s == "NEW"@ {
        Some(Opcode::New)
    } else if s == "PIECE"@ {
        Some(Opcode::Piece)
    } else if s == "POPCOUNT"@ {
        Some(Opcode::PopCount)
    } else if s == "RETURN"@ {
        Some(Opcode::Return)
    } else if s == "ROUND"@ {
        Some(Opcode::Round)
    } else if s == "SEGMENTOP"@ {
        Some(Opcode::SegmentOp)
    } else if s == "STORE"@ {
        Some(Opcode::Store)
    } else if s == "SUBPIECE"@ {
        Some(Opcode::SubPiece)
    } else if s == "TRUNC"@ {
        Some(Opcode::Trunc)
    } else if s == "UNUSED1"@ {
        Some(Opcode::Unused1)
    } else {
        None
    }
}

/// The canonical mnemonic of an operation tag; `None` only for `Blank`.
pub open spec fn mnemonic_of(op: Opcode) -> Option<Seq<char>> {
    match op {
        Opcode::Blank => None,
        Opcode::BoolAnd => Some("BOOL_AND"@),
        Opcode::BoolNegate => Some("BOOL_NEGATE"@),
        Opcode::BoolOr => Some("BOOL_OR"@),
        Opcode::BoolXor => Some("BOOL_XOR"@),
        Opcode::Branch => Some("BRANCH"@),
        Opcode::BranchInd => Some("BRANCHIND"@),
        Opcode::Build => Some("BUILD"@),
        Opcode::Call => Some("CALL"@),
        Opcode::CallInd => Some("CALLIND"@),
        Opcode::CallOther => Some("CALLOTHER"@),
        Opcode::CBranch => Some("CBRANCH"@),
        Opcode::Ceil => Some("CEIL"@),
        Opcode::Copy => Some("COPY"@),
        Opcode::CPoolRef => Some("CPOOLREF"@),
        Opcode::CrossBuild => Some("CROSSBUILD"@),
        Opcode::DelaySlot => Some("DELAYSLOT"@),
        Opcode::Float2Float => Some("FLOAT2FLOAT"@),
        Opcode::FloatAbs => Some("FLOAT_ABS"@),
        Opcode::FloatAdd => Some("FLOAT_ADD"@),
        Opcode::FloatDiv => Some("FLOAT_DIV"@),
        Opcode::FloatEqual => Some("FLOAT_EQUAL"@),
        Opcode::FloatLess => Some("FLOAT_LESS"@),
        Opcode::FloatLessEqual => Some("FLOAT_LESSEQUAL"@),
        Opcode::FloatMult => Some("FLOAT_MULT"@),
        Opcode::FloatNaN => Some("FLOAT_NAN"@),
        Opcode::FloatNeg => Some("FLOAT_NEG"@),
        Opcode::FloatNotEqual => Some("FLOAT_NOTEQUAL"@),
        Opcode::FloatSqrt => Some("FLOAT_SQRT"@),
        Opcode::FloatSub => Some("FLOAT_SUB"@),
        Opcode::Floor => Some("FLOAT_FLOOR"@),
        Opcode::Int2Float => Some("INT2FLOAT"@),
        Opcode::Int2Comp => Some("INT_2COMP"@),
        Opcode::IntAdd => Some("INT_ADD"@),
        Opcode::IntAnd => Some("INT_AND"@),
        Opcode::IntCarry => Some("INT_CARRY"@),
        Opcode::IntDiv => Some("INT_DIV"@),
        Opcode::IntEqual => Some("INT_EQUAL"@),
        Opcode::IntLeft => Some("INT_LEFT"@),
        Opcode::IntLess => Some("INT_LESS"@),
        Opcode::IntLessEqual => Some("INT_LESSEQUAL"@),
        Opcode::IntMult => Some("INT_MULT"@),
        Opcode::IntNegate => Some("INT_NEGATE"@),
        Opcode::IntNotEqual => Some("INT_NOTEQUAL"@),
        Opcode::IntOr => Some("INT_OR"@),
        Opcode::IntRem => Some("INT_REM"@),
        Opcode::IntRight => Some("INT_RIGHT"@),
        Opcode::IntSBorrow => Some("INT_SBORROW"@),
        Opcode::IntSCarry => Some("INT_SCARRY"@),
        Opcode::IntSDiv => Some("INT_SDIV"@),
        Opcode::IntSExt => Some("INT_SEXT"@),
        Opcode::IntSLess => Some("INT_SLESS"@),
        Opcode::IntSLessEqual => Some("INT_SLESSEQUAL"@),
        Opcode::IntSRem => Some("INT_SREM"@),
        Opcode::IntSRight => Some("INT_SRIGHT"@),
        Opcode::IntSub => Some("INT_SUB"@),
        Opcode::IntXor => Some("INT_XOR"@),
        Opcode::IntZExt => Some("INT_ZEXT"@),
        Opcode::Label => Some("LABEL"@),
        Opcode::Load => Some("LOAD"@),
        Opcode::LZCount => Some("LZCOUNT"@),
        Opcode::New => Some("NEW"@),
        Opcode::Piece => Some("PIECE"@),
        Opcode::PopCount => Some("POPCOUNT"@),
        Opcode::Return => Some("RETURN"@),
        Opcode::Round => Some("ROUND"@),
        Opcode::SegmentOp => Some("SEGMENTOP"@),
        Opcode::Store => Some("STORE"@),
        Opcode::SubPiece => Some("SUBPIECE"@),
        Opcode::Trunc => Some("TRUNC"@),
        Opcode::Unused1 => Some("UNUSED1"@),
    }
}

impl Opcode {
    /// Decodes a mnemonic token.  The match is exact and case-sensitive;
    /// anything outside the vocabulary is an `UnrecognizedMnemonic` failure,
    /// never a fallback tag.
    pub fn from_str(s: &str) -> (r: Result<Opcode, ParseError>)
        ensures
            opcode_of(s@) matches Some(op) ==> r == Ok::<Opcode, ParseError>(op),
            opcode_of(s@) is None ==> (r matches Err(e) && e@ == ErrorModel::UnrecognizedMnemonic(
                s@,
            )),
    {
        if eq_str(s, "BOOL_AND") {
            Ok(Opcode::BoolAnd)
        } else if eq_str(s, "BOOL_NEGATE") {
            Ok(Opcode::BoolNegate)
        } else if eq_str(s, "BOOL_OR") {
            Ok(Opcode::BoolOr)
        } else if eq_str(s, "BOOL_XOR") {
            Ok(Opcode::BoolXor)
        } else if eq_str(s, "BRANCH") {
            Ok(Opcode::Branch)
        } else if eq_str(s, "BRANCHIND") {
            Ok(Opcode::BranchInd)
        } else if eq_str(s, "BUILD") {
            Ok(Opcode::Build)
        } else if eq_str(s, "CALL") {
            Ok(Opcode::Call)
        } else if eq_str(s, "CALLIND") {
            Ok(Opcode::CallInd)
        } else if eq_str(s, "CALLOTHER") {
            Ok(Opcode::CallOther)
        } else if eq_str(s, "CBRANCH") {
            Ok(Opcode::CBranch)
        } else if eq_str(s, "CEIL") {
            Ok(Opcode::Ceil)
        } else if eq_str(s, "COPY") {
            Ok(Opcode::Copy)
        } else if eq_str(s, "CPOOLREF") {
            Ok(Opcode::CPoolRef)
        } else if eq_str(s, "CROSSBUILD") {
            Ok(Opcode::CrossBuild)
        } else if eq_str(s, "DELAYSLOT") {
            Ok(Opcode::DelaySlot)
        } else if eq_str(s, "FLOAT2FLOAT") {
            Ok(Opcode::Float2Float)
        } else if eq_str(s, "FLOAT_ABS") {
            Ok(Opcode::FloatAbs)
        } else if eq_str(s, "FLOAT_ADD") {
            Ok(Opcode::FloatAdd)
        } else if eq_str(s, "FLOAT_DIV") {
            Ok(Opcode::FloatDiv)
        } else if eq_str(s, "FLOAT_EQUAL") {
            Ok(Opcode::FloatEqual)
        } else if eq_str(s, "FLOAT_LESS") {
            Ok(Opcode::FloatLess)
        } else if eq_str(s, "FLOAT_LESSEQUAL") {
            Ok(Opcode::FloatLessEqual)
        } else if eq_str(s, "FLOAT_MULT") {
            Ok(Opcode::FloatMult)
        } else if eq_str(s, "FLOAT_NAN") {
            Ok(Opcode::FloatNaN)
        } else if eq_str(s, "FLOAT_NEG") {
            Ok(Opcode::FloatNeg)
        } else if eq_str(s, "FLOAT_NOTEQUAL") {
            Ok(Opcode::FloatNotEqual)
        } else if eq_str(s, "FLOAT_SQRT") {
            Ok(Opcode::FloatSqrt)
        } else if eq_str(s, "FLOAT_SUB") {
            Ok(Opcode::FloatSub)
        } else if eq_str(s, "FLOAT_FLOOR") {
            Ok(Opcode::Floor)
        } else if eq_str(s, "INT2FLOAT") {
            Ok(Opcode::Int2Float)
        } else if eq_str(s, "INT_2COMP") {
            Ok(Opcode::Int2Comp)
        } else if eq_str(s, "INT_ADD") {
            Ok(Opcode::IntAdd)
        } else if eq_str(s, "INT_AND") {
            Ok(Opcode::IntAnd)
        } else if eq_str(s, "INT_CARRY") {
            Ok(Opcode::IntCarry)
        } else if eq_str(s, "INT_DIV") {
            Ok(Opcode::IntDiv)
        } else if eq_str(s, "INT_EQUAL") {
            Ok(Opcode::IntEqual)
        } else if eq_str(s, "INT_LEFT") {
            Ok(Opcode::IntLeft)
        } else if eq_str(s, "INT_LESS") {
            Ok(Opcode::IntLess)
        } else if eq_str(s, "INT_LESSEQUAL") {
            Ok(Opcode::IntLessEqual)
        } else if eq_str(s, "INT_MULT") {
            Ok(Opcode::IntMult)
        } else if eq_str(s, "INT_NEGATE") {
            Ok(Opcode::IntNegate)
        } else if eq_str(s, "INT_NOTEQUAL") {
            Ok(Opcode::IntNotEqual)
        } else if eq_str(s, "INT_OR") {
            Ok(Opcode::IntOr)
        } else if eq_str(s, "INT_REM") {
            Ok(Opcode::IntRem)
        } else if eq_str(s, "INT_RIGHT") {
            Ok(Opcode::IntRight)
        } else if eq_str(s, "INT_SBORROW") {
            Ok(Opcode::IntSBorrow)
        } else if eq_str(s, "INT_SCARRY") {
            Ok(Opcode::IntSCarry)
        } else if eq_str(s, "INT_SDIV") {
            Ok(Opcode::IntSDiv)
        } else if eq_str(s, "INT_SEXT") {
            Ok(Opcode::IntSExt)
        } else if eq_str(s, "INT_SLESS") {
            Ok(Opcode::IntSLess)
        } else if eq_str(s, "INT_SLESSEQUAL") {
            Ok(Opcode::IntSLessEqual)
        } else if eq_str(s, "INT_SREM") {
            Ok(Opcode::IntSRem)
        } else if eq_str(s, "INT_SRIGHT") {
            Ok(Opcode::IntSRight)
        } else if eq_str(s, "INT_SUB") {
            Ok(Opcode::IntSub)
        } else if eq_str(s, "INT_XOR") {
            Ok(Opcode::IntXor)
        } else if eq_str(s, "INT_ZEXT") {
            Ok(Opcode::IntZExt)
        } else if eq_str(s, "LABEL") {
            Ok(Opcode::Label)
        } else if eq_str(s, "LOAD") {
            Ok(Opcode::Load)
        } else if eq_str(s, "LZCOUNT") {
            Ok(Opcode::LZCount)
        } else if eq_str(s, "NEW") {
            Ok(Opcode::New)
        } else if eq_str(s, "PIECE") {
            Ok(Opcode::Piece)
        } else if eq_str(s, "POPCOUNT") {
            Ok(Opcode::PopCount)
        } else if eq_str(s, "RETURN") {
            Ok(Opcode::Return)
        } else if eq_str(s, "ROUND") {
            Ok(Opcode::Round)
        } else if eq_str(s, "SEGMENTOP") {
            Ok(Opcode::SegmentOp)
        } else if eq_str(s, "STORE") {
            Ok(Opcode::Store)
        } else if eq_str(s, "SUBPIECE") {
            Ok(Opcode::SubPiece)
        } else if eq_str(s, "TRUNC") {
            Ok(Opcode::Trunc)
        } else if eq_str(s, "UNUSED1") {
            Ok(Opcode::Unused1)
        } else {
            Err(ParseError::UnrecognizedMnemonic(s.to_owned()))
        }
    }

    /// The canonical mnemonic of this tag, or `None` for `Blank`.
    pub fn mnemonic(self) -> (r: Option<&'static str>)
        ensures
            match r {
                Some(m) => mnemonic_of(self) == Some(m@),
                None => mnemonic_of(self) is None,
            },
    {
        match self {
            Opcode::Blank => None,
            Opcode::BoolAnd => Some("BOOL_AND"),
            Opcode::BoolNegate => Some("BOOL_NEGATE"),
            Opcode::BoolOr => Some("BOOL_OR"),
            Opcode::BoolXor => Some("BOOL_XOR"),
            Opcode::Branch => Some("BRANCH"),
            Opcode::BranchInd => Some("BRANCHIND"),
            Opcode::Build => Some("BUILD"),
            Opcode::Call => Some("CALL"),
            Opcode::CallInd => Some("CALLIND"),
            Opcode::CallOther => Some("CALLOTHER"),
            Opcode::CBranch => Some("CBRANCH"),
            Opcode::Ceil => Some("CEIL"),
            Opcode::Copy => Some("COPY"),
            Opcode::CPoolRef => Some("CPOOLREF"),
            Opcode::CrossBuild => Some("CROSSBUILD"),
            Opcode::DelaySlot => Some("DELAYSLOT"),
            Opcode::Float2Float => Some("FLOAT2FLOAT"),
            Opcode::FloatAbs => Some("FLOAT_ABS"),
            Opcode::FloatAdd => Some("FLOAT_ADD"),
            Opcode::FloatDiv => Some("FLOAT_DIV"),
            Opcode::FloatEqual => Some("FLOAT_EQUAL"),
            Opcode::FloatLess => Some("FLOAT_LESS"),
            Opcode::FloatLessEqual => Some("FLOAT_LESSEQUAL"),
            Opcode::FloatMult => Some("FLOAT_MULT"),
            Opcode::FloatNaN => Some("FLOAT_NAN"),
            Opcode::FloatNeg => Some("FLOAT_NEG"),
            Opcode::FloatNotEqual => Some("FLOAT_NOTEQUAL"),
            Opcode::FloatSqrt => Some("FLOAT_SQRT"),
            Opcode::FloatSub => Some("FLOAT_SUB"),
            Opcode::Floor => Some("FLOAT_FLOOR"),
            Opcode::Int2Float => Some("INT2FLOAT"),
            Opcode::Int2Comp => Some("INT_2COMP"),
            Opcode::IntAdd => Some("INT_ADD"),
            Opcode::IntAnd => Some("INT_AND"),
            Opcode::IntCarry => Some("INT_CARRY"),
            Opcode::IntDiv => Some("INT_DIV"),
            Opcode::IntEqual => Some("INT_EQUAL"),
            Opcode::IntLeft => Some("INT_LEFT"),
            Opcode::IntLess => Some("INT_LESS"),
            Opcode::IntLessEqual => Some("INT_LESSEQUAL"),
            Opcode::IntMult => Some("INT_MULT"),
            Opcode::IntNegate => Some("INT_NEGATE"),
            Opcode::IntNotEqual => Some("INT_NOTEQUAL"),
            Opcode::IntOr => Some("INT_OR"),
            Opcode::IntRem => Some("INT_REM"),
            Opcode::IntRight => Some("INT_RIGHT"),
            Opcode::IntSBorrow => Some("INT_SBORROW"),
            Opcode::IntSCarry => Some("INT_SCARRY"),
            Opcode::IntSDiv => Some("INT_SDIV"),
            Opcode::IntSExt => Some("INT_SEXT"),
            Opcode::IntSLess => Some("INT_SLESS"),
            Opcode::IntSLessEqual => Some("INT_SLESSEQUAL"),
            Opcode::IntSRem => Some("INT_SREM"),
            Opcode::IntSRight => Some("INT_SRIGHT"),
            Opcode::IntSub => Some("INT_SUB"),
            Opcode::IntXor => Some("INT_XOR"),
            Opcode::IntZExt => Some("INT_ZEXT"),
            Opcode::Label => Some("LABEL"),
            Opcode::Load => Some("LOAD"),
            Opcode::LZCount => Some("LZCOUNT"),
            Opcode::New => Some("NEW"),
            Opcode::Piece => Some("PIECE"),
            Opcode::PopCount => Some("POPCOUNT"),
            Opcode::Return => Some("RETURN"),
            Opcode::Round => Some("ROUND"),
            Opcode::SegmentOp => Some("SEGMENTOP"),
            Opcode::Store => Some("STORE"),
            Opcode::SubPiece => Some("SUBPIECE"),
            Opcode::Trunc => Some("TRUNC"),
            Opcode::Unused1 => Some("UNUSED1"),
        }
    }
}

/// Decoding is one-to-one: a mnemonic that decodes to a tag is that tag's
/// canonical mnemonic, so distinct mnemonics decode to distinct tags.
pub proof fn lemma_opcode_decode_then_format(s: Seq<char>, op: Opcode)
    requires
        opcode_of(s) == Some(op),
    ensures
        mnemonic_of(op) == Some(s),
{
}

/// Each tag corresponds to one mnemonic alone: two mnemonics that decode to
/// the same tag are the same text.
pub proof fn lemma_opcode_decoding_injective(s1: Seq<char>, s2: Seq<char>)
    requires
        opcode_of(s1) is Some,
        opcode_of(s1) == opcode_of(s2),
    ensures
        s1 == s2,
{
    let op = opcode_of(s1)->Some_0;
    lemma_opcode_decode_then_format(s1, op);
    lemma_opcode_decode_then_format(s2, op);
}

/// The whole vocabulary is supported: the canonical mnemonic of every tag
/// that has one decodes back to exactly that tag.
pub proof fn lemma_opcode_format_then_decode(op: Opcode)
    ensures
        mnemonic_of(op) matches Some(m) ==> opcode_of(m) == Some(op),
{
    reveal_strlit("BOOL_AND");
    reveal_strlit("BOOL_NEGATE");
    reveal_strlit("BOOL_OR");
    reveal_strlit("BOOL_XOR");
    reveal_strlit("BRANCH");
    reveal_strlit("BRANCHIND");
    reveal_strlit("BUILD");
    reveal_strlit("CALL");
    reveal_strlit("CALLIND");
    reveal_strlit("CALLOTHER");
    reveal_strlit("CBRANCH");
    reveal_strlit("CEIL");
    reveal_strlit("COPY");
    reveal_strlit("CPOOLREF");
    reveal_strlit("CROSSBUILD");
    reveal_strlit("DELAYSLOT");
    reveal_strlit("FLOAT2FLOAT");
    reveal_strlit("FLOAT_ABS");
    reveal_strlit("FLOAT_ADD");
    reveal_strlit("FLOAT_DIV");
    reveal_strlit("FLOAT_EQUAL");
    reveal_strlit("FLOAT_LESS");
    reveal_strlit("FLOAT_LESSEQUAL");
    reveal_strlit("FLOAT_MULT");
    reveal_strlit("FLOAT_NAN");
    reveal_strlit("FLOAT_NEG");
    reveal_strlit("FLOAT_NOTEQUAL");
    reveal_strlit("FLOAT_SQRT");
    reveal_strlit("FLOAT_SUB");
    reveal_strlit("FLOAT_FLOOR");
    reveal_strlit("INT2FLOAT");
    reveal_strlit("INT_2COMP");
    reveal_strlit("INT_ADD");
    reveal_strlit("INT_AND");
    reveal_strlit("INT_CARRY");
    reveal_strlit("INT_DIV");
    reveal_strlit("INT_EQUAL");
    reveal_strlit("INT_LEFT");
    reveal_strlit("INT_LESS");
    reveal_strlit("INT_LESSEQUAL");
    reveal_strlit("INT_MULT");
    reveal_strlit("INT_NEGATE");
    reveal_strlit("INT_NOTEQUAL");
    reveal_strlit("INT_OR");
    reveal_strlit("INT_REM");
    reveal_strlit("INT_RIGHT");
    reveal_strlit("INT_SBORROW");
    reveal_strlit("INT_SCARRY");
    reveal_strlit("INT_SDIV");
    reveal_strlit("INT_SEXT");
    reveal_strlit("INT_SLESS");
    reveal_strlit("INT_SLESSEQUAL");
    reveal_strlit("INT_SREM");
    reveal_strlit("INT_SRIGHT");
    reveal_strlit("INT_SUB");
    reveal_strlit("INT_XOR");
    reveal_strlit("INT_ZEXT");
    reveal_strlit("LABEL");
    reveal_strlit("LOAD");
    reveal_strlit("LZCOUNT");
    reveal_strlit("NEW");
    reveal_strlit("PIECE");
    reveal_strlit("POPCOUNT");
    reveal_strlit("RETURN");
    reveal_strlit("ROUND");
    reveal_strlit("SEGMENTOP");
    reveal_strlit("STORE");
    reveal_strlit("SUBPIECE");
    reveal_strlit("TRUNC");
    reveal_strlit("UNUSED1");
    assert("BOOL_AND"@ =~= seq!['B', 'O', 'O', 'L', '_', 'A', 'N', 'D']);
    assert("BOOL_NEGATE"@ =~= seq!['B', 'O', 'O', 'L', '_', 'N', 'E', 'G', 'A', 'T', 'E']);
    assert("BOOL_OR"@ =~= seq!['B', 'O', 'O', 'L', '_', 'O', 'R']);
    assert("BOOL_XOR"@ =~= seq!['B', 'O', 'O', 'L', '_', 'X', 'O', 'R']);
    assert("BRANCH"@ =~= seq!['B', 'R', 'A', 'N', 'C', 'H']);
    assert("BRANCHIND"@ =~= seq!['B', 'R', 'A', 'N', 'C', 'H', 'I', 'N', 'D']);
    assert("BUILD"@ =~= seq!['B', 'U', 'I', 'L', 'D']);
    assert("CALL"@ =~= seq!['C', 'A', 'L', 'L']);
    assert("CALLIND"@ =~= seq!['C', 'A', 'L', 'L', 'I', 'N', 'D']);
    assert("CALLOTHER"@ =~= seq!['C', 'A', 'L', 'L', 'O', 'T', 'H', 'E', 'R']);
    assert("CBRANCH"@ =~= seq!['C', 'B', 'R', 'A', 'N', 'C', 'H']);
    assert("CEIL"@ =~= seq!['C', 'E', 'I', 'L']);
    assert("COPY"@ =~= seq!['C', 'O', 'P', 'Y']);
    assert("CPOOLREF"@ =~= seq!['C', 'P', 'O', 'O', 'L', 'R', 'E', 'F']);
    assert("CROSSBUILD"@ =~= seq!['C', 'R', 'O', 'S', 'S', 'B', 'U', 'I', 'L', 'D']);
    assert("DELAYSLOT"@ =~= seq!['D', 'E', 'L', 'A', 'Y', 'S', 'L', 'O', 'T']);
    assert("FLOAT2FLOAT"@ =~= seq!['F', 'L', 'O', 'A', 'T', '2', 'F', 'L', 'O', 'A', 'T']);
    assert("FLOAT_ABS"@ =~= seq!['F', 'L', 'O', 'A', 'T', '_', 'A', 'B', 'S']);
    assert("FLOAT_ADD"@ =~= seq!['F', 'L', 'O', 'A', 'T', '_', 'A', 'D', 'D']);
    assert("FLOAT_DIV"@ =~= seq!['F', 'L', 'O', 'A', 'T', '_', 'D', 'I', 'V']);
    assert("FLOAT_EQUAL"@ =~= seq!['F', 'L', 'O', 'A', 'T', '_', 'E', 'Q', 'U', 'A', 'L']);
    assert("FLOAT_LESS"@ =~= seq!['F', 'L', 'O', 'A', 'T', '_', 'L', 'E', 'S', 'S']);
    assert("FLOAT_LESSEQUAL"@ =~= seq!['F', 'L', 'O', 'A', 'T', '_', 'L', 'E', 'S', 'S', 'E', 'Q', 'U', 'A', 'L']);
    assert("FLOAT_MULT"@ =~= seq!['F', 'L', 'O', 'A', 'T', '_', 'M', 'U', 'L', 'T']);
    assert("FLOAT_NAN"@ =~= seq!['F', 'L', 'O', 'A', 'T', '_', 'N', 'A', 'N']);
    assert("FLOAT_NEG"@ =~= seq!['F', 'L', 'O', 'A', 'T', '_', 'N', 'E', 'G']);
    assert("FLOAT_NOTEQUAL"@ =~= seq!['F', 'L', 'O', 'A', 'T', '_', 'N', 'O', 'T', 'E', 'Q', 'U', 'A', 'L']);
    assert("FLOAT_SQRT"@ =~= seq!['F', 'L', 'O', 'A', 'T', '_', 'S', 'Q', 'R', 'T']);
    assert("FLOAT_SUB"@ =~= seq!['F', 'L', 'O', 'A', 'T', '_', 'S', 'U', 'B']);
    assert("FLOAT_FLOOR"@ =~= seq!['F', 'L', 'O', 'A', 'T', '_', 'F', 'L', 'O', 'O', 'R']);
    assert("INT2FLOAT"@ =~= seq!['I', 'N', 'T', '2', 'F', 'L', 'O', 'A', 'T']);
    assert("INT_2COMP"@ =~= seq!['I', 'N', 'T', '_', '2', 'C', 'O', 'M', 'P']);
    assert("INT_ADD"@ =~= seq!['I', 'N', 'T', '_', 'A', 'D', 'D']);
    assert("INT_AND"@ =~= seq!['I', 'N', 'T', '_', 'A', 'N', 'D']);
    assert("INT_CARRY"@ =~= seq!['I', 'N', 'T', '_', 'C', 'A', 'R', 'R', 'Y']);
    assert("INT_DIV"@ =~= seq!['I', 'N', 'T', '_', 'D', 'I', 'V']);
    assert("INT_EQUAL"@ =~= seq!['I', 'N', 'T', '_', 'E', 'Q', 'U', 'A', 'L']);
    assert("INT_LEFT"@ =~= seq!['I', 'N', 'T', '_', 'L', 'E', 'F', 'T']);
    assert("INT_LESS"@ =~= seq!['I', 'N', 'T', '_', 'L', 'E', 'S', 'S']);
    assert("INT_LESSEQUAL"@ =~= seq!['I', 'N', 'T', '_', 'L', 'E', 'S', 'S', 'E', 'Q', 'U', 'A', 'L']);
    assert("INT_MULT"@ =~= seq!['I', 'N', 'T', '_', 'M', 'U', 'L', 'T']);
    assert("INT_NEGATE"@ =~= seq!['I', 'N', 'T', '_', 'N', 'E', 'G', 'A', 'T', 'E']);
    assert("INT_NOTEQUAL"@ =~= seq!['I', 'N', 'T', '_', 'N', 'O', 'T', 'E', 'Q', 'U', 'A', 'L']);
    assert("INT_OR"@ =~= seq!['I', 'N', 'T', '_', 'O', 'R']);
    assert("INT_REM"@ =~= seq!['I', 'N', 'T', '_', 'R', 'E', 'M']);
    assert("INT_RIGHT"@ =~= seq!['I', 'N', 'T', '_', 'R', 'I', 'G', 'H', 'T']);
    assert("INT_SBORROW"@ =~= seq!['I', 'N', 'T', '_', 'S', 'B', 'O', 'R', 'R', 'O', 'W']);
    assert("INT_SCARRY"@ =~= seq!['I', 'N', 'T', '_', 'S', 'C', 'A', 'R', 'R', 'Y']);
    assert("INT_SDIV"@ =~= seq!['I', 'N', 'T', '_', 'S', 'D', 'I', 'V']);
    assert("INT_SEXT"@ =~= seq!['I', 'N', 'T', '_', 'S', 'E', 'X', 'T']);
    assert("INT_SLESS"@ =~= seq!['I', 'N', 'T', '_', 'S', 'L', 'E', 'S', 'S']);
    assert("INT_SLESSEQUAL"@ =~= seq!['I', 'N', 'T', '_', 'S', 'L', 'E', 'S', 'S', 'E', 'Q', 'U', 'A', 'L']);
    assert("INT_SREM"@ =~= seq!['I', 'N', 'T', '_', 'S', 'R', 'E', 'M']);
    assert("INT_SRIGHT"@ =~= seq!['I', 'N', 'T', '_', 'S', 'R', 'I', 'G', 'H', 'T']);
    assert("INT_SUB"@ =~= seq!['I', 'N', 'T', '_', 'S', 'U', 'B']);
    assert("INT_XOR"@ =~= seq!['I', 'N', 'T', '_', 'X', 'O', 'R']);
    assert("INT_ZEXT"@ =~= seq!['I', 'N', 'T', '_', 'Z', 'E', 'X', 'T']);
    assert("LABEL"@ =~= seq!['L', 'A', 'B', 'E', 'L']);
    assert("LOAD"@ =~= seq!['L', 'O', 'A', 'D']);
    assert("LZCOUNT"@ =~= seq!['L', 'Z', 'C', 'O', 'U', 'N', 'T']);
    assert("NEW"@ =~= seq!['N', 'E', 'W']);
    assert("PIECE"@ =~= seq!['P', 'I', 'E', 'C', 'E']);
    assert("POPCOUNT"@ =~= seq!['P', 'O', 'P', 'C', 'O', 'U', 'N', 'T']);
    assert("RETURN"@ =~= seq!['R', 'E', 'T', 'U', 'R', 'N']);
    assert("ROUND"@ =~= seq!['R', 'O', 'U', 'N', 'D']);
    assert("SEGMENTOP"@ =~= seq!['S', 'E', 'G', 'M', 'E', 'N', 'T', 'O', 'P']);
    assert("STORE"@ =~= seq!['S', 'T', 'O', 'R', 'E']);
    assert("SUBPIECE"@ =~= seq!['S', 'U', 'B', 'P', 'I', 'E', 'C', 'E']);
    assert("TRUNC"@ =~= seq!['T', 'R', 'U', 'N', 'C']);
    assert("UNUSED1"@ =~= seq!['U', 'N', 'U', 'S', 'E', 'D', '1']);
}


} // verus!
