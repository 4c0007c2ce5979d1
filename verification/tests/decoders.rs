//! Tests for the primitive decoders: operation tags, widths, values and
//! operands, and the line-level instruction decoder.

use pcode_parser::error::ParseError;
use pcode_parser::inst::Inst;
use pcode_parser::opcode::Opcode;
use pcode_parser::size::Size;
use pcode_parser::value::Value;
use pcode_parser::varnode::{Var, Varnode};

#[test]
fn opcode_decodes_sample_mnemonics() {
    assert_eq!(Opcode::from_str("LOAD"), Ok(Opcode::Load));
    assert_eq!(Opcode::from_str("STORE"), Ok(Opcode::Store));
    assert_eq!(Opcode::from_str("INT_ADD"), Ok(Opcode::IntAdd));
    assert_eq!(Opcode::from_str("INT_AND"), Ok(Opcode::IntAnd));
    assert_eq!(Opcode::from_str("BOOL_NEGATE"), Ok(Opcode::BoolNegate));
    assert_eq!(Opcode::from_str("FLOAT_LESSEQUAL"), Ok(Opcode::FloatLessEqual));
    assert_eq!(Opcode::from_str("FLOAT_FLOOR"), Ok(Opcode::Floor));
    assert_eq!(Opcode::from_str("CEIL"), Ok(Opcode::Ceil));
    assert_eq!(Opcode::from_str("UNUSED1"), Ok(Opcode::Unused1));
    assert_eq!(Opcode::from_str("CBRANCH"), Ok(Opcode::CBranch));
}

#[test]
fn opcode_round_trips_through_its_mnemonic() {
    let samples = [
        Opcode::BoolAnd,
        Opcode::Branch,
        Opcode::Call,
        Opcode::Copy,
        Opcode::FloatNaN,
        Opcode::Int2Comp,
        Opcode::IntSLessEqual,
        Opcode::IntZExt,
        Opcode::Load,
        Opcode::LZCount,
        Opcode::Piece,
        Opcode::PopCount,
        Opcode::Return,
        Opcode::SegmentOp,
        Opcode::Store,
        Opcode::SubPiece,
        Opcode::Trunc,
    ];
    for op in samples {
        let m = op.mnemonic().expect("every tag but Blank has a mnemonic");
        assert_eq!(Opcode::from_str(m), Ok(op));
    }
}

#[test]
fn opcode_blank_has_no_mnemonic() {
    assert_eq!(Opcode::Blank.mnemonic(), None);
}

#[test]
fn opcode_rejects_unknown_mnemonics() {
    assert_eq!(
        Opcode::from_str("NOT_AN_OP"),
        Err(ParseError::UnrecognizedMnemonic("NOT_AN_OP".to_string()))
    );
    // the match is exact and case-sensitive: no partial match, no folding
    assert_eq!(
        Opcode::from_str("load"),
        Err(ParseError::UnrecognizedMnemonic("load".to_string()))
    );
    assert_eq!(
        Opcode::from_str("LOADX"),
        Err(ParseError::UnrecognizedMnemonic("LOADX".to_string()))
    );
    assert_eq!(
        Opcode::from_str(""),
        Err(ParseError::UnrecognizedMnemonic("".to_string()))
    );
}

#[test]
fn width_decodes_the_closed_set() {
    assert_eq!(Size::from_str("1"), Ok(Size::Byte));
    assert_eq!(Size::from_str("2"), Ok(Size::Half));
    assert_eq!(Size::from_str("4"), Ok(Size::Word));
    assert_eq!(Size::from_str("8"), Ok(Size::Quad));
    assert_eq!(Size::from_str("16"), Ok(Size::DoubleQuad));
    assert_eq!(Size::from_str("32"), Ok(Size::QuadQuad));
}

#[test]
fn width_decoding_is_injective() {
    let tokens = ["1", "2", "4", "8", "16", "32"];
    for a in tokens {
        for b in tokens {
            let sa = Size::from_str(a).unwrap();
            let sb = Size::from_str(b).unwrap();
            assert_eq!(a == b, sa == sb);
        }
    }
}

#[test]
fn width_rejects_everything_else() {
    for bad in ["0", "3", "64", "08", "1 ", "", "one"] {
        assert_eq!(
            Size::from_str(bad),
            Err(ParseError::InvalidWidth(bad.to_string()))
        );
    }
}

#[test]
fn width_bit_sizes() {
    assert_eq!(Size::Byte.to_bitvector_size(), 8);
    assert_eq!(Size::Half.to_bitvector_size(), 16);
    assert_eq!(Size::Word.to_bitvector_size(), 32);
    assert_eq!(Size::Quad.to_bitvector_size(), 64);
    assert_eq!(Size::DoubleQuad.to_bitvector_size(), 128);
    assert_eq!(Size::QuadQuad.to_bitvector_size(), 256);
}

#[test]
fn value_constructors_truncate_to_32_bits() {
    assert_eq!(Value::from_byte(0xff).data, 255);
    assert_eq!(Value::from_half(0xffff).data, 65535);
    assert_eq!(Value::from_word(0xffff_ffff).data, -1);
    assert_eq!(Value::from_quad(0x1_0000_0001).data, 1);
    assert_eq!(Value::from_quad(0).data, 0);
}

#[test]
fn value_decodes_payload_width_pairs() {
    assert_eq!(Value::from_str("0x10,4"), Ok(Value { data: 16 }));
    assert_eq!(Value::from_str("ff,1"), Ok(Value { data: 255 }));
    assert_eq!(Value::from_str("dead,2"), Ok(Value { data: 0xdead }));
    assert_eq!(Value::from_str("deadbeef,4"), Ok(Value { data: -559038737 }));
    // an empty payload of quad width is the literal value zero
    assert_eq!(Value::from_str(",8"), Ok(Value { data: 0 }));
    assert_eq!(Value::from_str("0x,8"), Ok(Value { data: 0 }));
}

#[test]
fn value_rejects_malformed_pairs() {
    for bad in ["0x10", "1,2,3", "zz,4", ",4", "0x10,8", "0x10,16", "100,1", "10000,2"] {
        assert!(Value::from_str(bad).is_err(), "{bad} should not decode");
    }
}

#[test]
fn operand_register_triple() {
    assert_eq!(
        Varnode::from_str("(register,0x10,4)"),
        Ok(Varnode { var: Var::Register(16), size: Size::Word })
    );
}

#[test]
fn operand_const_preserves_payload_text() {
    assert_eq!(
        Varnode::from_str("(const,0x5,8)"),
        Ok(Varnode { var: Var::Const("0x5".to_string()), size: Size::Quad })
    );
    // wide payloads stay lossless: the text is kept verbatim
    assert_eq!(
        Varnode::from_str("(const,0x1ffffffffffffffff,8)"),
        Ok(Varnode {
            var: Var::Const("0x1ffffffffffffffff".to_string()),
            size: Size::Quad
        })
    );
}

#[test]
fn operand_empty_const_of_quad_width_is_zero() {
    assert_eq!(
        Varnode::from_str("(const,,8)"),
        Ok(Varnode { var: Var::Const("0".to_string()), size: Size::Quad })
    );
}

#[test]
fn operand_ram_unique_and_bare_triples() {
    assert_eq!(
        Varnode::from_str("(ram,0xdeadbeef,8)"),
        Ok(Varnode { var: Var::Memory(0xdeadbeef), size: Size::Quad })
    );
    assert_eq!(
        Varnode::from_str("(unique,0x3b80,1)"),
        Ok(Varnode { var: Var::Unique(0x3b80), size: Size::Byte })
    );
    // the outer parentheses are optional
    assert_eq!(
        Varnode::from_str("register,10,4"),
        Ok(Varnode { var: Var::Register(16), size: Size::Word })
    );
    // fields may carry surrounding blanks
    assert_eq!(
        Varnode::from_str("( register , 0x2 , 2 )"),
        Ok(Varnode { var: Var::Register(2), size: Size::Half })
    );
}

#[test]
fn operand_rejects_bad_hex_payload() {
    assert_eq!(
        Varnode::from_str("(register,zzzz,4)"),
        Err(ParseError::MalformedOperand("zzzz".to_string()))
    );
    // an empty payload is only meaningful for const
    assert_eq!(
        Varnode::from_str("(register,,4)"),
        Err(ParseError::MalformedOperand("".to_string()))
    );
    // a second 0x is not part of a hexadecimal numeral
    assert_eq!(
        Varnode::from_str("(register,0x0x10,4)"),
        Err(ParseError::MalformedOperand("0x0x10".to_string()))
    );
    // an address wider than 64 bits cannot be a register id
    assert_eq!(
        Varnode::from_str("(register,0x1ffffffffffffffff,4)"),
        Err(ParseError::MalformedOperand("0x1ffffffffffffffff".to_string()))
    );
}

#[test]
fn operand_rejects_unknown_kind_and_bad_shape() {
    assert_eq!(
        Varnode::from_str("(stack,0x10,4)"),
        Err(ParseError::MalformedOperand("stack".to_string()))
    );
    assert_eq!(
        Varnode::from_str("(register,0x10)"),
        Err(ParseError::MalformedOperand("(register,0x10)".to_string()))
    );
    assert_eq!(
        Varnode::from_str("(register,0x10,4,9)"),
        Err(ParseError::MalformedOperand("(register,0x10,4,9)".to_string()))
    );
    assert_eq!(
        Varnode::from_str("(register,0x10,3)"),
        Err(ParseError::InvalidWidth("3".to_string()))
    );
}

#[test]
fn instruction_with_destination() {
    let inst =
        Inst::from_str("(unique,0x5380,1) = LOAD (const,0x55e4a78f0330,8) (register,0x0,8)")
            .unwrap();
    assert_eq!(inst.opcode, Opcode::Load);
    assert_eq!(
        inst.output,
        Some(Varnode { var: Var::Unique(0x5380), size: Size::Byte })
    );
    assert_eq!(
        inst.inputs,
        vec![
            Varnode {
                var: Var::Const("0x55e4a78f0330".to_string()),
                size: Size::Quad
            },
            Varnode { var: Var::Register(0), size: Size::Quad },
        ]
    );
}

#[test]
fn instruction_without_destination() {
    let inst =
        Inst::from_str("STORE (const,0x5636d09d0d50,8) (register,0x0,4) (unique,0x3b80,1)")
            .unwrap();
    assert_eq!(inst.opcode, Opcode::Store);
    assert_eq!(inst.output, None);
    assert_eq!(
        inst.inputs,
        vec![
            Varnode {
                var: Var::Const("0x5636d09d0d50".to_string()),
                size: Size::Quad
            },
            Varnode { var: Var::Register(0), size: Size::Word },
            Varnode { var: Var::Unique(0x3b80), size: Size::Byte },
        ]
    );
}

#[test]
fn instruction_dash_means_no_destination() {
    let inst = Inst::from_str("- = CALL (ram,0x401000,8)").unwrap();
    assert_eq!(inst.opcode, Opcode::Call);
    assert_eq!(inst.output, None);
    assert_eq!(
        inst.inputs,
        vec![Varnode { var: Var::Memory(0x401000), size: Size::Quad }]
    );
}

#[test]
fn instruction_separator_needs_no_blanks() {
    let inst = Inst::from_str("(register,0x0,4)=COPY (const,0x1,4)").unwrap();
    assert_eq!(inst.opcode, Opcode::Copy);
    assert_eq!(
        inst.output,
        Some(Varnode { var: Var::Register(0), size: Size::Word })
    );
}

#[test]
fn instruction_without_operands() {
    let inst = Inst::from_str("RETURN").unwrap();
    assert_eq!(inst.opcode, Opcode::Return);
    assert_eq!(inst.output, None);
    assert_eq!(inst.inputs, vec![]);
}

#[test]
fn instruction_rejects_malformed_lines() {
    assert_eq!(
        Inst::from_str(""),
        Err(ParseError::MalformedInstruction("".to_string()))
    );
    // two separators are a broken structure
    let doubled = "(register,0x0,4) = COPY = (const,0x1,4)";
    assert_eq!(
        Inst::from_str(doubled),
        Err(ParseError::MalformedInstruction(doubled.to_string()))
    );
    // a destination with nothing after the separator has no mnemonic
    assert_eq!(
        Inst::from_str("(register,0x0,4) = "),
        Err(ParseError::MalformedInstruction("(register,0x0,4) = ".to_string()))
    );
    // an address marker is not an instruction
    assert_eq!(
        Inst::from_str("0x1000"),
        Err(ParseError::MalformedInstruction("0x1000".to_string()))
    );
}

#[test]
fn instruction_propagates_nested_failures() {
    assert_eq!(
        Inst::from_str("(register,0x0,4) = FROB (const,0x1,4)"),
        Err(ParseError::UnrecognizedMnemonic("FROB".to_string()))
    );
    assert_eq!(
        Inst::from_str("(register,zzzz,4) = COPY (const,0x1,4)"),
        Err(ParseError::MalformedOperand("zzzz".to_string()))
    );
    assert_eq!(
        Inst::from_str("COPY (const,0x1,7)"),
        Err(ParseError::InvalidWidth("7".to_string()))
    );
}

#[test]
fn opcode_vocabulary_is_total() {
    let mnemonics = [
        "BOOL_AND", "BOOL_NEGATE", "BOOL_OR", "BOOL_XOR", "BRANCH", "BRANCHIND", "BUILD",
        "CALL", "CALLIND", "CALLOTHER", "CBRANCH", "CEIL", "COPY", "CPOOLREF", "CROSSBUILD",
        "DELAYSLOT", "FLOAT2FLOAT", "FLOAT_ABS", "FLOAT_ADD", "FLOAT_DIV", "FLOAT_EQUAL",
        "FLOAT_LESS", "FLOAT_LESSEQUAL", "FLOAT_MULT", "FLOAT_NAN", "FLOAT_NEG",
        "FLOAT_NOTEQUAL", "FLOAT_SQRT", "FLOAT_SUB", "FLOAT_FLOOR", "INT2FLOAT", "INT_2COMP",
        "INT_ADD", "INT_AND", "INT_CARRY", "INT_DIV", "INT_EQUAL", "INT_LEFT", "INT_LESS",
        "INT_LESSEQUAL", "INT_MULT", "INT_NEGATE", "INT_NOTEQUAL", "INT_OR", "INT_REM",
        "INT_RIGHT", "INT_SBORROW", "INT_SCARRY", "INT_SDIV", "INT_SEXT", "INT_SLESS",
        "INT_SLESSEQUAL", "INT_SREM", "INT_SRIGHT", "INT_SUB", "INT_XOR", "INT_ZEXT",
        "LABEL", "LOAD", "LZCOUNT", "NEW", "PIECE", "POPCOUNT", "RETURN", "ROUND",
        "SEGMENTOP", "STORE", "SUBPIECE", "TRUNC", "UNUSED1",
    ];
    assert_eq!(mnemonics.len(), 70);
    for m in mnemonics {
        let op = Opcode::from_str(m).unwrap_or_else(|_| panic!("{m} must decode"));
        // the decoded tag formats back to the very same mnemonic
        assert_eq!(op.mnemonic(), Some(m));
    }
}
