//! A parser for textual p-code listings: low-level intermediate-representation
//! dumps in which primitive operations, grouped under hexadecimal address
//! markers, are written one per line as
//! `[<dest-varnode> =] <MNEMONIC> [<varnode> ...]`.
//!
//! The crate turns such text into a typed, address-ordered instruction
//! listing.  Every decoder is specified by a spec-level parsing function over
//! sequences of characters, and each executable decoder is proved to return
//! exactly what its spec function says.

pub mod error;
pub mod inst;
pub mod listing;
pub mod opcode;
pub mod size;
pub mod text;
pub mod value;
pub mod varnode;
