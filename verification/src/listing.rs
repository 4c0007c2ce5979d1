//! The listing assembler: a single pass over the lines of a whole text
//! block, grouping decoded instructions under their address markers into an
//! address-ordered listing.
//!
//! Malformed lines are reported as diagnostics and do not stop the scan.
//! Every valid address marker yields an entry, an entry with no following
//! instruction lines included, so "no operations recorded at this address"
//! stays distinguishable from "address never seen".  Only two conditions
//! fail the whole parse: an instruction line before any valid address marker
//! and an input out of which no address block at all was read.

use vstd::prelude::*;

use crate::error::{ErrorModel, ParseError};
use crate::inst::{spec_inst, Inst, InstModel};
use crate::text::{parse_hex, parse_hex_str, split_on, split_str, trim, trim_str};
use crate::varnode::Addr;

verus! {

/// A per-line failure report: the zero-based index of the line in the input
/// and the failure itself.
#[derive(Clone, Debug, PartialEq)]
pub struct Diagnostic {
    pub line: usize,
    pub error: ParseError,
}

/// The spec-level model of a `Diagnostic`.
pub struct DiagnosticModel {
    pub line: int,
    pub error: ErrorModel,
}

impl View for Diagnostic {
    type V = DiagnosticModel;

    open spec fn view(&self) -> DiagnosticModel {
        DiagnosticModel { line: self.line as int, error: self.error@ }
    }
}

impl DeepView for Diagnostic {
    type V = DiagnosticModel;

    open spec fn deep_view(&self) -> DiagnosticModel {
        self@
    }
}

/// The model of a listing: address-keyed instruction sequences in ascending
/// address order.
pub type ListingModel = Seq<(Addr, Seq<InstModel>)>;

/// The model of the diagnostics gathered during one scan.
pub type DiagSeq = Seq<DiagnosticModel>;

/// Whether the entries of `m` are keyed by strictly ascending addresses.
pub open spec fn sorted_addrs(m: ListingModel) -> bool {
    forall|i: int, j: int| 0 <= i < j < m.len() ==> m[i].0 < m[j].0
}

/// Inserts a flushed block into a listing kept in ascending address order;
/// a block at an address already present is appended to that entry.
pub open spec fn listing_insert(m: ListingModel, a: Addr, is: Seq<InstModel>) -> ListingModel
    decreases m.len(),
{
    if m.len() == 0 {
        seq![(a, is)]
    } else if a < m[0].0 {
        seq![(a, is)] + m
    } else if a == m[0].0 {
        seq![(m[0].0, m[0].1 + is)] + m.drop_first()
    } else {
        seq![m[0]] + listing_insert(m.drop_first(), a, is)
    }
}

proof fn lemma_listing_insert_sorted(m: ListingModel, a: Addr, is: Seq<InstModel>)
    requires
        sorted_addrs(m),
    ensures
        sorted_addrs(listing_insert(m, a, is)),
        listing_insert(m, a, is).len() >= 1,
        forall|k: int|
            0 <= k < listing_insert(m, a, is).len() ==> (listing_insert(m, a, is)[k].0 == a
                || exists|j: int| 0 <= j < m.len() && m[j].0 == #[trigger] listing_insert(
                m,
                a,
                is,
            )[k].0),
    decreases m.len(),
{
    if m.len() == 0 || a < m[0].0 || a == m[0].0 {
    } else {
        assert(forall|i: int, j: int|
            0 <= i < j < m.drop_first().len() ==> m.drop_first()[i].0 < m.drop_first()[j].0);
        lemma_listing_insert_sorted(m.drop_first(), a, is);
        let r = listing_insert(m, a, is);
        let rr = listing_insert(m.drop_first(), a, is);
        assert forall|i: int, j: int| 0 <= i < j < r.len() implies r[i].0 < r[j].0 by {
            if i == 0 {
                assert(r[j].0 == rr[j - 1].0);
                if rr[j - 1].0 != a {
                    let w = choose|w: int|
                        0 <= w < m.drop_first().len() && m.drop_first()[w].0 == rr[j - 1].0;
                    assert(m[w + 1].0 == rr[j - 1].0);
                }
            } else {
                assert(r[i].0 == rr[i - 1].0 && r[j].0 == rr[j - 1].0);
            }
        }
    }
}

proof fn lemma_listing_insert_skip(m: ListingModel, a: Addr, is: Seq<InstModel>, i: int)
    requires
        0 <= i <= m.len(),
        forall|k: int| 0 <= k < i ==> m[k].0 < a,
    ensures
        listing_insert(m, a, is) == m.take(i) + listing_insert(m.skip(i), a, is),
    decreases i,
{
    if i == 0 {
        assert(m.skip(0) =~= m);
        assert(m.take(0) + listing_insert(m, a, is) =~= listing_insert(m, a, is));
    } else {
        lemma_listing_insert_skip(m.drop_first(), a, is, i - 1);
        assert(m.drop_first().take(i - 1) =~= m.take(i).drop_first());
        assert(m.drop_first().skip(i - 1) =~= m.skip(i));
        assert(seq![m[0]] + (m.take(i).drop_first() + listing_insert(m.skip(i), a, is)) =~= m.take(
            i,
        ) + listing_insert(m.skip(i), a, is));
    }
}

/// One scan state folded over the remaining lines: `cur` is the open block,
/// `acc` the listing built so far, `diags` the failures reported so far.
/// At the end of the lines the open block is flushed; an input that yielded
/// no block at all is the `EmptyListing` failure.
pub open spec fn spec_assemble(
    lines: Seq<Seq<char>>,
    i: int,
    cur: Option<(Addr, Seq<InstModel>)>,
    acc: ListingModel,
    diags: DiagSeq,
) -> Result<(ListingModel, DiagSeq), ErrorModel>
    decreases lines.len() - i,
{
    if i < 0 || i >= lines.len() {
        let done = match cur {
            Some((a, is)) => listing_insert(acc, a, is),
            None => acc,
        };
        if done.len() == 0 {
            Err(ErrorModel::EmptyListing)
        } else {
            Ok((done, diags))
        }
    } else {
        let t = trim(lines[i]);
        if t.len() == 0 {
            spec_assemble(lines, i + 1, cur, acc, diags)
        } else if t.len() >= 2 && t[0] == '0' && t[1] == 'x' {
            match parse_hex(t.skip(2), u64::MAX) {
                Some(a) => {
                    let acc2 = match cur {
                        Some((pa, is)) => listing_insert(acc, pa, is),
                        None => acc,
                    };
                    spec_assemble(lines, i + 1, Some((a, Seq::empty())), acc2, diags)
                },
                None => spec_assemble(
                    lines,
                    i + 1,
                    cur,
                    acc,
                    diags + seq![
                        DiagnosticModel { line: i, error: ErrorModel::MalformedAddressMarker(t) },
                    ],
                ),
            }
        } else {
            match cur {
                None => Err(ErrorModel::InstructionBeforeAddress),
                Some((a, is)) => match spec_inst(t) {
                    Ok(inst) => spec_assemble(lines, i + 1, Some((a, is.push(inst))), acc, diags),
                    Err(e) => spec_assemble(
                        lines,
                        i + 1,
                        cur,
                        acc,
                        diags + seq![DiagnosticModel { line: i, error: e }],
                    ),
                },
            }
        }
    }
}

/// The listing and diagnostics a whole text block parses to, or the one
/// top-level failure when nothing could be parsed.
pub open spec fn spec_listing(text: Seq<char>) -> Result<(ListingModel, DiagSeq), ErrorModel> {
    spec_assemble(split_on(text, '\n'), 0, None, Seq::empty(), Seq::empty())
}

/// An address-keyed, address-ordered collection of instruction sequences:
/// for each machine-instruction address, the primitive operations lowered
/// from the instruction at that address, in source order.
#[derive(Debug)]
pub struct CodeListing {
    entries: Vec<(Addr, Vec<Inst>)>,
}

impl View for CodeListing {
    type V = ListingModel;

    closed spec fn view(&self) -> ListingModel {
        self.entries.deep_view()
    }
}

/// Appends the elements of `extra` to `dst`, leaving `extra` empty.
fn append_insts(dst: &mut Vec<Inst>, extra: Vec<Inst>)
    ensures
        final(dst).deep_view() == old(dst).deep_view() + extra.deep_view(),
{
    let ghost d0 = dst.deep_view();
    let ghost e0 = extra.deep_view();
    let mut extra = extra;
    dst.append(&mut extra);
    proof {
        assert(dst.deep_view() =~= d0 + e0);
    }
}

/// Inserts a flushed block, keeping the entries in ascending address order.
#[verifier::loop_isolation(false)]
fn insert_block(entries: &mut Vec<(Addr, Vec<Inst>)>, addr: Addr, insts: Vec<Inst>)
    requires
        sorted_addrs(old(entries).deep_view()),
    ensures
        final(entries).deep_view() == listing_insert(
            old(entries).deep_view(),
            addr,
            insts.deep_view(),
        ),
        sorted_addrs(final(entries).deep_view()),
{
    proof {
        lemma_listing_insert_sorted(old(entries).deep_view(), addr, insts.deep_view());
    }
    let ghost m = entries.deep_view();
    let mut i: usize = 0;
    while i < entries.len() && entries[i].0 < addr
        invariant
            i <= entries.len(),
            forall|k: int| 0 <= k < i ==> m[k].0 < addr,
        decreases entries.len() - i,
    {
        proof {
            assert(m[i as int].0 == entries@[i as int].0);
        }
        i = i + 1;
    }
    proof {
        lemma_listing_insert_skip(m, addr, insts.deep_view(), i as int);
        if i < entries.len() {
            assert(m.skip(i as int)[0] == m[i as int]);
            assert(m[i as int].0 == entries@[i as int].0);
        }
    }
    if i < entries.len() && entries[i].0 == addr {
        let mut pair = entries.remove(i);
        append_insts(&mut pair.1, insts);
        entries.insert(i, pair);
        proof {
            assert(m.skip(i as int).drop_first() =~= m.skip(i + 1));
            assert(entries.deep_view() =~= m.take(i as int) + (seq![
                (m[i as int].0, m[i as int].1 + insts.deep_view()),
            ] + m.skip(i + 1)));
        }
    } else {
        entries.insert(i, (addr, insts));
        proof {
            assert(entries.deep_view() =~= m.take(i as int) + (seq![
                (addr, insts.deep_view()),
            ] + m.skip(i as int)));
        }
    }
}

impl CodeListing {
    /// An empty listing.
    pub fn new() -> (r: Self)
        ensures
            r@ == Seq::<(Addr, Seq<InstModel>)>::empty(),
            r.wf(),
    {
        let r = CodeListing { entries: Vec::new() };
        proof {
            assert(r@ =~= Seq::<(Addr, Seq<InstModel>)>::empty());
        }
        r
    }

    /// Whether the entries are in strictly ascending address order; every
    /// listing this module hands out satisfies it.
    pub open spec fn wf(&self) -> bool {
        sorted_addrs(self@)
    }

    /// Parses a whole text block, as `spec_listing` says: the listing and
    /// the per-line diagnostics on success, the one top-level failure when
    /// nothing could be parsed.
    #[verifier::loop_isolation(false)]
    pub fn from_str(s: &str) -> (r: Result<(CodeListing, Vec<Diagnostic>), ParseError>)
        ensures
            spec_listing(s@) matches Ok((m, ds)) ==> (r matches Ok(p) && p.0@ == m
                && p.1.deep_view() == ds && p.0.wf()),
            spec_listing(s@) matches Err(e) ==> (r matches Err(pe) && pe@ == e),
    {
        let lines = split_str(s, '\n');
        let ghost linesm = lines.deep_view();
        let mut entries: Vec<(Addr, Vec<Inst>)> = Vec::new();
        let mut diags: Vec<Diagnostic> = Vec::new();
        let mut cur_addr: Option<Addr> = None;
        let mut cur_insts: Vec<Inst> = Vec::new();
        let mut i: usize = 0;
        proof {
            assert(entries.deep_view() =~= Seq::<(Addr, Seq<InstModel>)>::empty());
            assert(diags.deep_view() =~= Seq::<DiagnosticModel>::empty());
        }
        while i < lines.len()
            invariant
                i <= lines.len(),
                sorted_addrs(entries.deep_view()),
                cur_addr is None ==> cur_insts@.len() == 0,
                spec_listing(s@) == spec_assemble(
                    linesm,
                    i as int,
                    match cur_addr {
                        Some(a) => Some((a, cur_insts.deep_view())),
                        None => None,
                    },
                    entries.deep_view(),
                    diags.deep_view(),
                ),
            decreases lines.len() - i,
        {
            let ghost curm0: Option<(Addr, Seq<InstModel>)> = match cur_addr {
                Some(a) => Some((a, cur_insts.deep_view())),
                None => None,
            };
            let ghost accm0 = entries.deep_view();
            let ghost diagm0 = diags.deep_view();
            let ghost pre = spec_assemble(linesm, i as int, curm0, accm0, diagm0);
            proof {
                assert(linesm[i as int] == lines@[i as int]@);
            }
            let line = trim_str(lines[i]);
            let n = line.unicode_len();
            if n == 0 {
                proof {
                    assert(spec_assemble(linesm, i as int + 1, curm0, accm0, diagm0) == pre);
                }
            } else if n >= 2 && line.get_char(0) == '0' && line.get_char(1) == 'x' {
                proof {
                    assert(line@.subrange(2, n as int) =~= line@.skip(2));
                }
                match parse_hex_str(line.substring_char(2, n), u64::MAX) {
                    Some(a) => {
                        match cur_addr {
                            Some(pa) => {
                                let flushed = cur_insts;
                                cur_insts = Vec::new();
                                insert_block(&mut entries, pa, flushed);
                            },
                            None => {},
                        }
                        cur_addr = Some(a);
                        proof {
                            assert(cur_insts.deep_view() =~= Seq::<InstModel>::empty());
                            assert(spec_assemble(
                                linesm,
                                i as int + 1,
                                Some((a, cur_insts.deep_view())),
                                entries.deep_view(),
                                diagm0,
                            ) == pre);
                        }
                    },
                    None => {
                        let d = Diagnostic {
                            line: i,
                            error: ParseError::MalformedAddressMarker(line.to_owned()),
                        };
                        diags.push(d);
                        proof {
                            assert(diags.deep_view() =~= diagm0 + seq![d@]);
                            assert(spec_assemble(
                                linesm,
                                i as int + 1,
                                curm0,
                                accm0,
                                diags.deep_view(),
                            ) == pre);
                        }
                    },
                }
            } else {
                match cur_addr {
                    None => {
                        return Err(ParseError::InstructionBeforeAddress);
                    },
                    Some(_) => {
                        match Inst::from_str(line) {
                            Ok(inst) => {
                                let ghost before = cur_insts.deep_view();
                                cur_insts.push(inst);
                                proof {
                                    assert(cur_insts.deep_view() =~= before.push(inst@));
                                    assert(spec_assemble(
                                        linesm,
                                        i as int + 1,
                                        Some((cur_addr->Some_0, cur_insts.deep_view())),
                                        accm0,
                                        diagm0,
                                    ) == pre);
                                }
                            },
                            Err(e) => {
                                let d = Diagnostic { line: i, error: e };
                                diags.push(d);
                                proof {
                                    assert(diags.deep_view() =~= diagm0 + seq![d@]);
                                    assert(spec_assemble(
                                        linesm,
                                        i as int + 1,
                                        curm0,
                                        accm0,
                                        diags.deep_view(),
                                    ) == pre);
                                }
                            },
                        }
                    },
                }
            }
            i = i + 1;
        }
        match cur_addr {
            Some(pa) => {
                let flushed = cur_insts;
                insert_block(&mut entries, pa, flushed);
            },
            None => {},
        }
        if entries.is_empty() {
            proof {
                assert(entries.deep_view().len() == 0);
            }
            Err(ParseError::EmptyListing)
        } else {
            let listing = CodeListing { entries };
            Ok((listing, diags))
        }
    }

    /// The number of address entries.
    pub fn len(&self) -> (r: usize)
        ensures
            r == self@.len(),
    {
        self.entries.len()
    }

    /// The address keying the entry at position `i`.
    pub fn address_at(&self, i: usize) -> (r: Addr)
        requires
            i < self@.len(),
        ensures
            r == self@[i as int].0,
    {
        proof {
            assert(self@[i as int] == self.entries@[i as int].deep_view());
        }
        self.entries[i].0
    }

    /// The instructions of the entry at position `i`, in source order.
    pub fn instructions_at(&self, i: usize) -> (r: &Vec<Inst>)
        requires
            i < self@.len(),
        ensures
            r.deep_view() == self@[i as int].1,
    {
        proof {
            assert(self@[i as int] == self.entries@[i as int].deep_view());
        }
        &self.entries[i].1
    }

    /// The instructions recorded at address `a`, if an entry for `a` exists.
    pub fn get(&self, a: Addr) -> (r: Option<&Vec<Inst>>)
        ensures
            match r {
                Some(v) => exists|j: int|
                    0 <= j < self@.len() && self@[j].0 == a && v.deep_view() == self@[j].1,
                None => forall|j: int| 0 <= j < self@.len() ==> self@[j].0 != a,
            },
    {
        let mut i: usize = 0;
        while i < self.entries.len()
            invariant
                i <= self@.len(),
                self@.len() == self.entries@.len(),
                forall|j: int| 0 <= j < i ==> self@[j].0 != a,
            decreases self@.len() - i,
        {
            proof {
                assert(self@[i as int] == self.entries@[i as int].deep_view());
            }
            if self.entries[i].0 == a {
                return Some(&self.entries[i].1);
            }
            i = i + 1;
        }
        None
    }
}

/// Line failures are recoverable: an instruction line that fails to decode
/// inside an open block contributes exactly one diagnostic, and the open
/// block, the listing built so far, and the scan of all later lines are
/// what they would have been had the line carried no instruction at all.
pub proof fn lemma_malformed_line_recoverable(
    lines: Seq<Seq<char>>,
    j: int,
    cur: (Addr, Seq<InstModel>),
    acc: ListingModel,
    diags: DiagSeq,
)
    requires
        0 <= j < lines.len(),
        trim(lines[j]).len() > 0,
        !(trim(lines[j]).len() >= 2 && trim(lines[j])[0] == '0' && trim(lines[j])[1] == 'x'),
        spec_inst(trim(lines[j])) is Err,
    ensures
        spec_assemble(lines, j, Some(cur), acc, diags) == spec_assemble(
            lines,
            j + 1,
            Some(cur),
            acc,
            diags.push(
                DiagnosticModel { line: j, error: spec_inst(trim(lines[j]))->Err_0 },
            ),
        ),
{
    let d = DiagnosticModel { line: j, error: spec_inst(trim(lines[j]))->Err_0 };
    assert(diags + seq![d] =~= diags.push(d));
}

/// An input out of which nothing can be parsed fails with `EmptyListing`:
/// when every line is blank after trimming, or is an address marker whose
/// payload is not a hexadecimal address, the parse yields no block and the
/// whole input is rejected.
pub proof fn lemma_nothing_parsed_is_empty_listing(text: Seq<char>)
    requires
        forall|k: int|
            0 <= k < split_on(text, '\n').len() ==> {
                let t = trim(#[trigger] split_on(text, '\n')[k]);
                t.len() == 0 || (t.len() >= 2 && t[0] == '0' && t[1] == 'x' && parse_hex(
                    t.skip(2),
                    u64::MAX,
                ) is None)
            },
    ensures
        spec_listing(text) == Err::<(ListingModel, DiagSeq), ErrorModel>(ErrorModel::EmptyListing),
{
    lemma_assemble_nothing(split_on(text, '\n'), 0, Seq::empty());
}

proof fn lemma_assemble_nothing(lines: Seq<Seq<char>>, i: int, diags: DiagSeq)
    requires
        0 <= i <= lines.len(),
        forall|k: int|
            0 <= k < lines.len() ==> {
                let t = trim(#[trigger] lines[k]);
                t.len() == 0 || (t.len() >= 2 && t[0] == '0' && t[1] == 'x' && parse_hex(
                    t.skip(2),
                    u64::MAX,
                ) is None)
            },
    ensures
        spec_assemble(lines, i, None, Seq::empty(), diags) == Err::<
            (ListingModel, DiagSeq),
            ErrorModel,
        >(ErrorModel::EmptyListing),
    decreases lines.len() - i,
{
    if i < lines.len() {
        let t = trim(lines[i]);
        if t.len() == 0 {
            lemma_assemble_nothing(lines, i + 1, diags);
        } else {
            lemma_assemble_nothing(
                lines,
                i + 1,
                diags + seq![
                    DiagnosticModel { line: i, error: ErrorModel::MalformedAddressMarker(t) },
                ],
            );
        }
    }
}

} // verus!
