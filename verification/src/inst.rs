//! Instructions: one operation tag, an optional destination operand, and the
//! source operands in source order, decoded from one textual line.

use vstd::prelude::*;

use crate::error::{ErrorModel, ParseError};
use crate::opcode::{opcode_of, Opcode};
use crate::text::{eq_str, split_on, split_str, split_whitespace_str, split_ws, trim, trim_str};
use crate::varnode::{spec_varnode, Varnode, VarnodeModel};

verus! {

broadcast use vstd::string::group_string_axioms;

/// One decoded instruction.  The order of `inputs` is semantically
/// significant and is exactly the source order of the operand tokens.
#[derive(Clone, Debug, PartialEq)]
pub struct Inst {
    pub opcode: Opcode,
    pub output: Option<Varnode>,
    pub inputs: Vec<Varnode>,
}

/// The spec-level model of an `Inst`.
pub struct InstModel {
    pub opcode: Opcode,
    pub output: Option<VarnodeModel>,
    pub inputs: Seq<VarnodeModel>,
}

impl View for Inst {
    type V = InstModel;

    open spec fn view(&self) -> InstModel {
        InstModel {
            opcode: self.opcode,
            output: match self.output {
                Some(v) => Some(v@),
                None => None,
            },
            inputs: self.inputs@.map_values(|v: Varnode| v@),
        }
    }
}

impl DeepView for Inst {
    type V = InstModel;

    open spec fn deep_view(&self) -> InstModel {
        self@
    }
}

/// The operands a sequence of tokens decodes to, in order; the first failing
/// token fails the whole sequence.
pub open spec fn spec_operands(toks: Seq<Seq<char>>) -> Result<Seq<VarnodeModel>, ErrorModel>
    decreases toks.len(),
{
    if toks.len() == 0 {
        Ok(Seq::empty())
    } else {
        match spec_varnode(toks[0]) {
            Err(e) => Err(e),
            Ok(v) => match spec_operands(toks.drop_first()) {
                Err(e) => Err(e),
                Ok(rest) => Ok(seq![v] + rest),
            },
        }
    }
}

/// The instruction a textual line decodes to.
///
/// A line that still looks like an address marker is refused.  At most one
/// top-level `=` is allowed; its left side, unless it is the placeholder `-`
/// meaning "no destination", is the destination operand.  The remainder is
/// split on blanks: the first token is the mnemonic, every further token a
/// source operand.  The first nested failure fails the whole line.
pub open spec fn spec_inst(s: Seq<char>) -> Result<InstModel, ErrorModel> {
    if s.len() >= 2 && s[0] == '0' && s[1] == 'x' {
        Err(ErrorModel::MalformedInstruction(s))
    } else {
        let parts = split_on(s, '=');
        if parts.len() > 2 {
            Err(ErrorModel::MalformedInstruction(s))
        } else {
            let output = if parts.len() == 1 {
                Ok(None)
            } else {
                let d = trim(parts[0]);
                if d == "-"@ {
                    Ok(None)
                } else {
                    match spec_varnode(d) {
                        Ok(v) => Ok(Some(v)),
                        Err(e) => Err(e),
                    }
                }
            };
            match output {
                Err(e) => Err(e),
                Ok(out) => {
                    let toks = split_ws(
                        if parts.len() == 1 {
                            parts[0]
                        } else {
                            parts[1]
                        },
                    );
                    if toks.len() == 0 {
                        Err(ErrorModel::MalformedInstruction(s))
                    } else {
                        match opcode_of(toks[0]) {
                            None => Err(ErrorModel::UnrecognizedMnemonic(toks[0])),
                            Some(op) => match spec_operands(toks.drop_first()) {
                                Err(e) => Err(e),
                                Ok(ins) => Ok(
                                    InstModel { opcode: op, output: out, inputs: ins },
                                ),
                            },
                        }
                    }
                },
            }
        }
    }
}

impl Inst {
    /// Decodes one textual line, as `spec_inst` says.
    #[verifier::loop_isolation(false)]
    pub fn from_str(s: &str) -> (r: Result<Inst, ParseError>)
        ensures
            spec_inst(s@) matches Ok(m) ==> (r matches Ok(inst) && inst@ == m),
            spec_inst(s@) matches Err(e) ==> (r matches Err(pe) && pe@ == e),
    {
        let n = s.unicode_len();
        if n >= 2 && s.get_char(0) == '0' && s.get_char(1) == 'x' {
            return Err(ParseError::MalformedInstruction(s.to_owned()));
        }
        let parts = split_str(s, '=');
        if parts.len() > 2 {
            return Err(ParseError::MalformedInstruction(s.to_owned()));
        }
        proof {
            assert(parts.deep_view()[0] == parts[0]@);
            if parts.len() == 2 {
                assert(parts.deep_view()[1] == parts[1]@);
            }
        }
        let output: Option<Varnode> = if parts.len() == 2 {
            let d = trim_str(parts[0]);
            if eq_str(d, "-") {
                None
            } else {
                match Varnode::from_str(d) {
                    Ok(v) => Some(v),
                    Err(e) => {
                        return Err(e);
                    },
                }
            }
        } else {
            None
        };
        let rest: &str = if parts.len() == 2 {
            parts[1]
        } else {
            parts[0]
        };
        let toks = split_whitespace_str(rest);
        if toks.len() == 0 {
            return Err(ParseError::MalformedInstruction(s.to_owned()));
        }
        proof {
            assert(toks.deep_view()[0] == toks[0]@);
        }
        let op = match Opcode::from_str(toks[0]) {
            Ok(op) => op,
            Err(e) => {
                return Err(e);
            },
        };
        let ghost optoks: Seq<Seq<char>> = toks.deep_view().drop_first();
        let mut inputs: Vec<Varnode> = Vec::new();
        let mut i: usize = 1;
        proof {
            assert(optoks.skip(0) =~= optoks);
            assert(inputs@.map_values(|v: Varnode| v@) =~= Seq::<VarnodeModel>::empty());
            if spec_operands(optoks) is Ok {
                let full = spec_operands(optoks)->Ok_0;
                assert(Seq::<VarnodeModel>::empty() + full =~= full);
            }
        }
        while i < toks.len()
            invariant
                1 <= i <= toks.len(),
                optoks == toks.deep_view().drop_first(),
                spec_operands(optoks) matches Ok(full) ==> (spec_operands(
                    optoks.skip(i - 1),
                ) matches Ok(rest) && full == inputs@.map_values(|v: Varnode| v@) + rest),
                spec_operands(optoks) matches Err(e) ==> spec_operands(optoks.skip(i - 1))
                    == Err::<Seq<VarnodeModel>, ErrorModel>(e),
            decreases toks.len() - i,
        {
            proof {
                assert(toks.deep_view()[i as int] == toks[i as int]@);
                assert(optoks.skip(i - 1)[0] == optoks[i - 1]);
                assert(optoks[i - 1] == toks.deep_view()[i as int]);
                assert(optoks.skip(i - 1).drop_first() =~= optoks.skip(i as int));
            }
            match Varnode::from_str(toks[i]) {
                Ok(v) => {
                    proof {
                        assert(inputs@.push(v).map_values(|x: Varnode| x@) =~= inputs@.map_values(
                            |x: Varnode| x@,
                        ).push(v@));
                        if spec_operands(optoks) is Ok {
                            let rest = spec_operands(optoks.skip(i - 1))->Ok_0;
                            assert(inputs@.map_values(|x: Varnode| x@) + rest =~= inputs@
                                .map_values(|x: Varnode| x@).push(v@) + rest.drop_first());
                        }
                    }
                    inputs.push(v);
                },
                Err(e) => {
                    proof {
                        assert(spec_operands(optoks.skip(i - 1)) == Err::<
                            Seq<VarnodeModel>,
                            ErrorModel,
                        >(e@));
                        if spec_operands(optoks) is Ok {
                            assert(spec_operands(optoks.skip(i - 1)) is Ok);
                        }
                        assert(spec_operands(optoks) == Err::<Seq<VarnodeModel>, ErrorModel>(e@));
                    }
                    return Err(e);
                },
            }
            i = i + 1;
        }
        proof {
            assert(optoks.skip(i - 1) =~= Seq::<Seq<char>>::empty());
            if spec_operands(optoks) is Ok {
                assert(inputs@.map_values(|v: Varnode| v@) + Seq::<VarnodeModel>::empty()
                    =~= inputs@.map_values(|v: Varnode| v@));
            }
        }
        Ok(Inst { opcode: op, output, inputs })
    }
}

} // verus!
