//! Tests for the listing assembler: grouping, ordering, per-line recovery,
//! and the top-level failures.

use pcode_parser::error::ParseError;
use pcode_parser::listing::CodeListing;
use pcode_parser::opcode::Opcode;
use pcode_parser::size::Size;
use pcode_parser::varnode::{Var, Varnode};

#[test]
fn two_blocks_in_ascending_order() {
    let text = "0x1000\n\
                (register,0x0,4) = COPY (const,0x1,4)\n\
                (register,0x8,8) = INT_ADD (register,0x0,8) (const,0x2,8)\n\
                0x1004\n\
                STORE (const,0x1,8) (register,0x0,4) (unique,0x3b80,1)\n";
    let (listing, diags) = CodeListing::from_str(text).unwrap();
    assert!(diags.is_empty());
    assert_eq!(listing.len(), 2);
    assert_eq!(listing.address_at(0), 0x1000);
    assert_eq!(listing.address_at(1), 0x1004);
    let first = listing.instructions_at(0);
    assert_eq!(first.len(), 2);
    assert_eq!(first[0].opcode, Opcode::Copy);
    assert_eq!(first[1].opcode, Opcode::IntAdd);
    assert_eq!(
        first[1].output,
        Some(Varnode { var: Var::Register(8), size: Size::Quad })
    );
    let second = listing.instructions_at(1);
    assert_eq!(second.len(), 1);
    assert_eq!(second[0].opcode, Opcode::Store);
}

#[test]
fn lookup_by_address() {
    let text = "0x2000\nRETURN (register,0x0,8)\n";
    let (listing, _) = CodeListing::from_str(text).unwrap();
    let insts = listing.get(0x2000).unwrap();
    assert_eq!(insts.len(), 1);
    assert_eq!(insts[0].opcode, Opcode::Return);
    assert!(listing.get(0x2004).is_none());
}

#[test]
fn malformed_line_is_reported_and_siblings_survive() {
    let text = "0x1000\n\
                (register,0x0,4) = COPY (const,0x1,4)\n\
                (register,zzzz,4) = COPY (const,0x1,4)\n\
                (register,0x4,4) = COPY (const,0x2,4)\n\
                0x1004\n\
                RETURN\n";
    let (listing, diags) = CodeListing::from_str(text).unwrap();
    assert_eq!(diags.len(), 1);
    assert_eq!(diags[0].line, 2);
    assert_eq!(
        diags[0].error,
        ParseError::MalformedOperand("zzzz".to_string())
    );
    assert_eq!(listing.len(), 2);
    assert_eq!(listing.instructions_at(0).len(), 2);
    assert_eq!(listing.instructions_at(1).len(), 1);
}

#[test]
fn malformed_marker_is_reported_and_scan_continues() {
    let text = "0x1000\n\
                RETURN\n\
                0xnothex\n\
                RETURN\n";
    let (listing, diags) = CodeListing::from_str(text).unwrap();
    assert_eq!(diags.len(), 1);
    assert_eq!(diags[0].line, 2);
    assert_eq!(
        diags[0].error,
        ParseError::MalformedAddressMarker("0xnothex".to_string())
    );
    // both instruction lines land under the one valid marker
    assert_eq!(listing.len(), 1);
    assert_eq!(listing.instructions_at(0).len(), 2);
}

#[test]
fn marker_too_wide_orphans_following_instructions() {
    let text = "0x1ffffffffffffffff\nRETURN\n";
    assert_eq!(
        CodeListing::from_str(text).unwrap_err(),
        ParseError::InstructionBeforeAddress
    );
}

#[test]
fn trailing_marker_keeps_an_empty_entry() {
    let text = "0x1000\nRETURN\n0x1004\n";
    let (listing, diags) = CodeListing::from_str(text).unwrap();
    assert!(diags.is_empty());
    assert_eq!(listing.len(), 2);
    assert_eq!(listing.instructions_at(0).len(), 1);
    assert_eq!(listing.instructions_at(1).len(), 0);
}

#[test]
fn repeated_address_blocks_are_merged_in_order() {
    let text = "0x1000\n\
                (register,0x0,4) = COPY (const,0x1,4)\n\
                0x1000\n\
                RETURN\n";
    let (listing, diags) = CodeListing::from_str(text).unwrap();
    assert!(diags.is_empty());
    assert_eq!(listing.len(), 1);
    let insts = listing.instructions_at(0);
    assert_eq!(insts.len(), 2);
    assert_eq!(insts[0].opcode, Opcode::Copy);
    assert_eq!(insts[1].opcode, Opcode::Return);
}

#[test]
fn out_of_order_markers_still_iterate_ascending() {
    let text = "0x2000\nRETURN\n0x1000\nRETURN\n";
    let (listing, _) = CodeListing::from_str(text).unwrap();
    assert_eq!(listing.len(), 2);
    assert_eq!(listing.address_at(0), 0x1000);
    assert_eq!(listing.address_at(1), 0x2000);
}

#[test]
fn blank_lines_are_skipped() {
    let text = "\n0x1000\n\nRETURN\n   \n";
    let (listing, diags) = CodeListing::from_str(text).unwrap();
    assert!(diags.is_empty());
    assert_eq!(listing.len(), 1);
    assert_eq!(listing.instructions_at(0).len(), 1);
}

#[test]
fn instruction_before_any_address_is_a_failure() {
    assert_eq!(
        CodeListing::from_str("RETURN\n0x1000\nRETURN\n").unwrap_err(),
        ParseError::InstructionBeforeAddress
    );
}

#[test]
fn empty_input_is_an_empty_listing_failure() {
    assert_eq!(CodeListing::from_str("").unwrap_err(), ParseError::EmptyListing);
    assert_eq!(
        CodeListing::from_str("\n \n\t\n").unwrap_err(),
        ParseError::EmptyListing
    );
}

#[test]
fn only_malformed_markers_is_an_empty_listing_failure() {
    assert_eq!(
        CodeListing::from_str("0xzz\n0x\n").unwrap_err(),
        ParseError::EmptyListing
    );
}

#[test]
fn new_listing_is_empty() {
    let listing = CodeListing::new();
    assert_eq!(listing.len(), 0);
    assert!(listing.get(0).is_none());
}
