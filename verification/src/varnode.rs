//! Typed operands ("varnodes"): a storage reference paired with a width,
//! decoded from a `(kind,payload,width)` triple.

use vstd::prelude::*;

use crate::error::{ErrorModel, ParseError};
use crate::size::{size_of_token, Size};
use crate::text::{eq_str, is_space, lemma_hex_digit_benign, lemma_parse_hex_digits,
    lemma_split_on_prefix, lemma_split_on_whole, lemma_trim_identity, parse_hex, parse_hex_str,
    split_on, split_str, strip_0x, strip_0x_str, strip_parens, strip_parens_str, trim, trim_str};

verus! {

broadcast use vstd::string::group_string_axioms;

/// A numeric instruction, register, temporary or memory address.
pub type Addr = u64;

/// A storage reference: where an operand's value lives.
///
/// A `Const` holds the literal textual payload verbatim, not a parsed
/// number: constant payloads may be wider than any fixed native integer, and
/// the raw text is the only lossless representation.
#[derive(Clone, Debug, PartialEq, Eq, Hash)]
pub enum Var {
    Const(String),
    Unique(Addr),
    Register(Addr),
    Memory(Addr),
}

/// The spec-level model of a `Var`, with the constant text as a sequence of
/// characters.
pub enum VarModel {
    Const(Seq<char>),
    Unique(Addr),
    Register(Addr),
    Memory(Addr),
}

impl View for Var {
    type V = VarModel;

    open spec fn view(&self) -> VarModel {
        match self {
            Var::Const(s) => VarModel::Const(s@),
            Var::Unique(a) => VarModel::Unique(*a),
            Var::Register(a) => VarModel::Register(*a),
            Var::Memory(a) => VarModel::Memory(*a),
        }
    }
}

/// An operand: a storage reference and the width it is accessed at.
#[derive(Clone, Debug, PartialEq)]
pub struct Varnode {
    pub var: Var,
    pub size: Size,
}

/// The spec-level model of a `Varnode`.
pub struct VarnodeModel {
    pub var: VarModel,
    pub size: Size,
}

impl View for Varnode {
    type V = VarnodeModel;

    open spec fn view(&self) -> VarnodeModel {
        VarnodeModel { var: self.var@, size: self.size }
    }
}

impl DeepView for Varnode {
    type V = VarnodeModel;

    open spec fn deep_view(&self) -> VarnodeModel {
        self@
    }
}

/// The operand a `(kind,payload,width)` triple decodes to.
///
/// One optional outer layer of parentheses is removed, the text is split on
/// commas into exactly three trimmed fields, and then:
/// - the width field must be a token of the closed width set;
/// - the kind field selects the storage variant; only `register`, `ram`,
///   `unique` and `const` are valid;
/// - for the three non-`const` kinds the payload is a hexadecimal numeral
///   with one optional leading `0x`;
/// - for `const` the payload text is kept verbatim, except that an empty
///   payload of quad width stands for the literal value zero.
pub open spec fn spec_varnode(s: Seq<char>) -> Result<VarnodeModel, ErrorModel> {
    let fields = split_on(strip_parens(s), ',');
    if fields.len() != 3 {
        Err(ErrorModel::MalformedOperand(s))
    } else {
        let kind = trim(fields[0]);
        let payload = trim(fields[1]);
        let wtok = trim(fields[2]);
        match size_of_token(wtok) {
            None => Err(ErrorModel::InvalidWidth(wtok)),
            Some(sz) => if kind == "register"@ {
                match parse_hex(strip_0x(payload), u64::MAX) {
                    Some(a) => Ok(VarnodeModel { var: VarModel::Register(a), size: sz }),
                    None => Err(ErrorModel::MalformedOperand(payload)),
                }
            } else if kind == "ram"@ {
                match parse_hex(strip_0x(payload), u64::MAX) {
                    Some(a) => Ok(VarnodeModel { var: VarModel::Memory(a), size: sz }),
                    None => Err(ErrorModel::MalformedOperand(payload)),
                }
            } else if kind == "unique"@ {
                match parse_hex(strip_0x(payload), u64::MAX) {
                    Some(a) => Ok(VarnodeModel { var: VarModel::Unique(a), size: sz }),
                    None => Err(ErrorModel::MalformedOperand(payload)),
                }
            } else if kind == "const"@ {
                if payload.len() == 0 && sz == Size::Quad {
                    Ok(VarnodeModel { var: VarModel::Const("0"@), size: sz })
                } else {
                    Ok(VarnodeModel { var: VarModel::Const(payload), size: sz })
                }
            } else {
                Err(ErrorModel::MalformedOperand(kind))
            },
        }
    }
}

/// The text of a `(kind,payload,width)` triple.
pub open spec fn triple_text(k: Seq<char>, p: Seq<char>, w: Seq<char>) -> Seq<char> {
    seq!['('] + k + seq![','] + p + seq![','] + w + seq![')']
}

/// A payload that reads as a hexadecimal numeral, its one optional leading
/// `0x` included, is non-empty and holds neither blanks nor commas nor
/// parentheses.
proof fn lemma_payload_benign(p: Seq<char>, max: u64)
    requires
        parse_hex(strip_0x(p), max) is Some,
    ensures
        p.len() > 0,
        forall|i: int|
            0 <= i < p.len() ==> (p[i] != ',' && !is_space(p[i]) && p[i] != '(' && p[i] != ')'),
{
    let q = strip_0x(p);
    lemma_parse_hex_digits(q, max);
    assert forall|i: int|
        0 <= i < p.len() implies (p[i] != ',' && !is_space(p[i]) && p[i] != '(' && p[i]
        != ')') by {
        if p.len() >= 2 && p[0] == '0' && p[1] == 'x' {
            if i >= 2 {
                assert(q[i - 2] == p[i]);
                lemma_hex_digit_benign(p[i]);
            }
        } else {
            lemma_hex_digit_benign(p[i]);
        }
    }
}

/// The facts the triple lemmas need about the four storage keywords: their
/// exact characters, hence their lengths and mutual distinctness.
proof fn lemma_kind_literals()
    ensures
        "register"@ =~= seq!['r', 'e', 'g', 'i', 's', 't', 'e', 'r'],
        "ram"@ =~= seq!['r', 'a', 'm'],
        "unique"@ =~= seq!['u', 'n', 'i', 'q', 'u', 'e'],
        "const"@ =~= seq!['c', 'o', 'n', 's', 't'],
{
    reveal_strlit("register");
    reveal_strlit("ram");
    reveal_strlit("unique");
    reveal_strlit("const");
}

/// Splits the body of a well-formed triple into its three fields.
proof fn lemma_triple_fields(k: Seq<char>, p: Seq<char>, w: Seq<char>)
    requires
        forall|i: int| 0 <= i < k.len() ==> k[i] != ',',
        forall|i: int| 0 <= i < p.len() ==> p[i] != ',',
        forall|i: int| 0 <= i < w.len() ==> w[i] != ',',
    ensures
        strip_parens(triple_text(k, p, w)) == k + seq![','] + p + seq![','] + w,
        split_on(k + seq![','] + p + seq![','] + w, ',') == seq![k, p, w],
{
    let t = triple_text(k, p, w);
    let body = k + seq![','] + p + seq![','] + w;
    assert(t[0] == '(');
    assert(t.drop_first() =~= body + seq![')']);
    let after = body + seq![')'];
    assert(after[after.len() - 1] == ')');
    assert(after.drop_last() =~= body);
    assert(body =~= k + seq![','] + (p + seq![','] + w));
    lemma_split_on_prefix(k, p + seq![','] + w, ',');
    lemma_split_on_prefix(p, w, ',');
    lemma_split_on_whole(w, ',');
    assert(seq![k] + (seq![p] + split_on(w, ',')) =~= seq![k, p, w]);
}

/// Operand decoding is total and type-correct over well-formed triples of
/// the three numeric storage kinds: a triple whose kind keyword is
/// `register`, `ram` or `unique`, whose payload reads as a 64-bit
/// hexadecimal numeral, and whose width is a token of the closed width set
/// always decodes, to the storage variant its keyword selects, the numeric
/// id its payload names, and the width class its width token names.
pub proof fn lemma_varnode_decoding_total(k: Seq<char>, p: Seq<char>, w: Seq<char>, sz: Size, a: u64)
    requires
        k == "register"@ || k == "ram"@ || k == "unique"@,
        parse_hex(strip_0x(p), u64::MAX) == Some(a),
        size_of_token(w) == Some(sz),
    ensures
        spec_varnode(triple_text(k, p, w)) == Ok::<VarnodeModel, ErrorModel>(
            VarnodeModel {
                var: if k == "register"@ {
                    VarModel::Register(a)
                } else if k == "ram"@ {
                    VarModel::Memory(a)
                } else {
                    VarModel::Unique(a)
                },
                size: sz,
            },
        ),
{
    lemma_kind_literals();
    lemma_payload_benign(p, u64::MAX);
    crate::size::lemma_width_token_benign(w);
    lemma_triple_fields(k, p, w);
    lemma_trim_identity(k);
    lemma_trim_identity(p);
    lemma_trim_identity(w);
}

/// Operand decoding is total over well-formed `const` triples: any payload
/// without blanks at its ends and without commas is kept verbatim as the
/// constant's text, except that the empty payload of quad width stands for
/// the literal value zero.
pub proof fn lemma_varnode_const_total(p: Seq<char>, w: Seq<char>, sz: Size)
    requires
        forall|i: int| 0 <= i < p.len() ==> p[i] != ',',
        trim(p) == p,
        size_of_token(w) == Some(sz),
    ensures
        spec_varnode(triple_text("const"@, p, w)) == Ok::<VarnodeModel, ErrorModel>(
            VarnodeModel {
                var: VarModel::Const(
                    if p.len() == 0 && sz == Size::Quad {
                        "0"@
                    } else {
                        p
                    },
                ),
                size: sz,
            },
        ),
{
    lemma_kind_literals();
    crate::size::lemma_width_token_benign(w);
    lemma_triple_fields("const"@, p, w);
    lemma_trim_identity("const"@);
    lemma_trim_identity(w);
}

impl Varnode {
    /// Decodes a `(kind,payload,width)` triple, as `spec_varnode` says.
    pub fn from_str(s: &str) -> (r: Result<Varnode, ParseError>)
        ensures
            spec_varnode(s@) matches Ok(v) ==> (r matches Ok(rv) && rv@ == v),
            spec_varnode(s@) matches Err(e) ==> (r matches Err(pe) && pe@ == e),
    {
        let body = strip_parens_str(s);
        let fields = split_str(body, ',');
        if fields.len() != 3 {
            return Err(ParseError::MalformedOperand(s.to_owned()));
        }
        proof {
            assert(fields.deep_view()[0] == fields[0]@);
            assert(fields.deep_view()[1] == fields[1]@);
            assert(fields.deep_view()[2] == fields[2]@);
        }
        let kind = trim_str(fields[0]);
        let payload = trim_str(fields[1]);
        let wtok = trim_str(fields[2]);
        let sz = match Size::from_str(wtok) {
            Ok(sz) => sz,
            Err(e) => {
                return Err(e);
            },
        };
        if eq_str(kind, "register") {
            match parse_hex_str(strip_0x_str(payload), u64::MAX) {
                Some(a) => Ok(Varnode { var: Var::Register(a), size: sz }),
                None => Err(ParseError::MalformedOperand(payload.to_owned())),
            }
        } else if eq_str(kind, "ram") {
            match parse_hex_str(strip_0x_str(payload), u64::MAX) {
                Some(a) => Ok(Varnode { var: Var::Memory(a), size: sz }),
                None => Err(ParseError::MalformedOperand(payload.to_owned())),
            }
        } else if eq_str(kind, "unique") {
            match parse_hex_str(strip_0x_str(payload), u64::MAX) {
                Some(a) => Ok(Varnode { var: Var::Unique(a), size: sz }),
                None => Err(ParseError::MalformedOperand(payload.to_owned())),
            }
        } else if eq_str(kind, "const") {
            if payload.unicode_len() == 0 && matches!(sz, Size::Quad) {
                Ok(Varnode { var: Var::Const("0".to_owned()), size: sz })
            } else {
                Ok(Varnode { var: Var::Const(payload.to_owned()), size: sz })
            }
        } else {
            Err(ParseError::MalformedOperand(kind.to_owned()))
        }
    }
}

} // verus!
