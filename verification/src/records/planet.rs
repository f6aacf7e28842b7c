//! The planet record and its tribute sub-block.
//!
//! A planet header names the planet; every field after it is optional.
//! The description, spaceport, shipyard and outfitter fields accumulate
//! in source order; attributes, bribe and security are scalars where the
//! last occurrence wins; the tribute sub-block carries its value on its
//! own tag line and requires a threshold and a fleet beneath it.

use vstd::prelude::*;

use crate::err::{
    err_ok, push_ctx, shift_err, step_ok, ErrV, RecordKind, SpecStep, Step, StructuredError,
};
use crate::fields::{parse_fields, spec_parse_fields, Desc, FieldsRes, ItemV, ValueKind};
use crate::records::common::{
    conv_fault, conv_fault_err, missing_field, missing_field_err, spec_str_header,
    spec_u64_header, str_header_tok, u64_header_tok,
};
use crate::slots::{
    opt_dec_slot, opt_str_list_slot, opt_str_u64_slot, opt_u64_slot, strs_slot, take_dec,
    take_str_list, take_str_u64, take_u64,
};
use crate::types::{FleetV, PlanetV, TributeV, Fleet, Planet, Tribute};

verus! {

/// The leaf-field table of a tribute block.
pub open spec fn tribute_descs() -> Seq<Desc> {
    seq![
        Desc { depth: 2, tag: "threshold", kind: ValueKind::KU64, slot: 0 },
        Desc { depth: 2, tag: "fleet", kind: ValueKind::KStrU64, slot: 1 },
    ]
}

/// Builds the executable [`tribute_descs`] table.
fn tribute_desc_vec() -> (r: Vec<Desc>)
    ensures
        r@ == tribute_descs(),
{
    let mut r: Vec<Desc> = Vec::new();
    r.push(Desc { depth: 2, tag: "threshold", kind: ValueKind::KU64, slot: 0 });
    r.push(Desc { depth: 2, tag: "fleet", kind: ValueKind::KStrU64, slot: 1 });
    proof {
        assert(r@ =~= tribute_descs());
    }
    r
}

/// A tribute block: its value on the tag line at depth one, then the
/// mandatory threshold and fleet fields at depth two, in either order.
#[verifier::opaque]
pub open spec fn spec_tribute(s: Seq<char>) -> SpecStep<TributeV> {
    match spec_u64_header(1, "tribute"@, s) {
        SpecStep::Miss => SpecStep::Miss,
        SpecStep::Fatal(f) => SpecStep::Fatal(push_ctx(f, RecordKind::Tribute)),
        SpecStep::Hit(nh, value) => if 1 <= nh <= s.len() {
            if value > u32::MAX {
                SpecStep::Fatal(push_ctx(conv_fault("tribute"@, 0), RecordKind::Tribute))
            } else {
                match spec_parse_fields(tribute_descs(), s.skip(nh)) {
                    FieldsRes::Fatal(f) => SpecStep::Fatal(
                        push_ctx(shift_err(f, nh), RecordKind::Tribute),
                    ),
                    FieldsRes::Items(nf, items) => {
                        let end = nh + nf;
                        match opt_u64_slot(items, 0) {
                            Option::None => SpecStep::Fatal(
                                push_ctx(missing_field("threshold"@, end), RecordKind::Tribute),
                            ),
                            Option::Some(th) => if th > u32::MAX {
                                SpecStep::Fatal(
                                    push_ctx(conv_fault("threshold"@, end), RecordKind::Tribute),
                                )
                            } else {
                                match opt_str_u64_slot(items, 1) {
                                    Option::None => SpecStep::Fatal(
                                        push_ctx(
                                            missing_field("fleet"@, end),
                                            RecordKind::Tribute,
                                        ),
                                    ),
                                    Option::Some(fl) => if fl.1 > u16::MAX {
                                        SpecStep::Fatal(
                                            push_ctx(
                                                conv_fault("fleet"@, end),
                                                RecordKind::Tribute,
                                            ),
                                        )
                                    } else {
                                        SpecStep::Hit(
                                            end,
                                            TributeV {
                                                value: value as u32,
                                                threshold: th as u32,
                                                fleet: FleetV {
                                                    kind: fl.0,
                                                    count: fl.1 as u16,
                                                },
                                            },
                                        )
                                    },
                                }
                            },
                        }
                    },
                }
            }
        } else {
            SpecStep::Miss
        },
    }
}

/// A tribute hit consumes at least one character and at most the whole
/// suffix.
pub proof fn lemma_spec_tribute_len(s: Seq<char>)
    ensures
        spec_tribute(s) matches SpecStep::Hit(n, _) ==> 1 <= n <= s.len(),
{
    reveal(spec_tribute);
    crate::records::common::lemma_spec_u64_header_len(1, "tribute"@, s);
    match spec_u64_header(1, "tribute"@, s) {
        SpecStep::Hit(nh, _) => {
            if 1 <= nh <= s.len() {
                crate::fields::lemma_spec_parse_fields_len(tribute_descs(), s.skip(nh));
            }
        },
        _ => {},
    }
}

/// Executable twin of [`spec_tribute`].
#[verifier::rlimit(100)]
#[verifier::spinoff_prover]
pub fn parse_tribute(src: &str, v: &Vec<char>, pos: usize) -> (r: Step<Tribute>)
    requires
        v@ == src@,
        pos <= v@.len(),
    ensures
        step_ok(r, spec_tribute(v@.skip(pos as int)), pos as int),
        r matches Step::Hit(n, _) ==> pos + n <= v@.len(),
{
    proof {
        reveal(spec_tribute);
    }
    let ghost s = v@.skip(pos as int);
    let vlen = v.len();
    let (nh, value) = match u64_header_tok(v, pos, 1, "tribute") {
        Step::Miss => {
            return Step::Miss;
        },
        Step::Fatal(e) => {
            return Step::Fatal(e.with_ctx(RecordKind::Tribute));
        },
        Step::Hit(nh, value) => (nh, value),
    };
    proof {
        crate::records::common::lemma_spec_u64_header_len(1, "tribute"@, s);
    }
    if value > 0xffffffffu64 {
        return Step::Fatal(conv_fault_err("tribute", pos).with_ctx(RecordKind::Tribute));
    }
    proof {
        assert(v@.skip((pos + nh) as int) == s.skip(nh as int));
    }
    let descs = tribute_desc_vec();
    let (nf, items) = match parse_fields(src, v, pos + nh, &descs) {
        Result::Err(e) => {
            return Step::Fatal(e.with_ctx(RecordKind::Tribute));
        },
        Result::Ok((nf, items)) => (nf, items),
    };
    let end = pos + nh + nf;
    let th = match take_u64(&items, 0) {
        Option::None => {
            return Step::Fatal(missing_field_err("threshold", end).with_ctx(RecordKind::Tribute));
        },
        Option::Some(th) => th,
    };
    if th > 0xffffffffu64 {
        return Step::Fatal(conv_fault_err("threshold", end).with_ctx(RecordKind::Tribute));
    }
    let fl = match take_str_u64(&items, 1) {
        Option::None => {
            return Step::Fatal(missing_field_err("fleet", end).with_ctx(RecordKind::Tribute));
        },
        Option::Some(fl) => fl,
    };
    if fl.1 > 0xffffu64 {
        return Step::Fatal(conv_fault_err("fleet", end).with_ctx(RecordKind::Tribute));
    }
    Step::Hit(
        nh + nf,
        Tribute {
            value: value as u32,
            threshold: th as u32,
            fleet: Fleet { kind: fl.0, count: fl.1 as u16 },
        },
    )
}

/// The leaf-field table of a planet.
pub open spec fn planet_descs() -> Seq<Desc> {
    seq![
        Desc { depth: 1, tag: "attributes", kind: ValueKind::KStrList, slot: 0 },
        Desc { depth: 1, tag: "description", kind: ValueKind::KStr, slot: 1 },
        Desc { depth: 1, tag: "spaceport", kind: ValueKind::KStr, slot: 2 },
        Desc { depth: 1, tag: "shipyard", kind: ValueKind::KStr, slot: 3 },
        Desc { depth: 1, tag: "outfitter", kind: ValueKind::KStr, slot: 4 },
        Desc { depth: 1, tag: "bribe", kind: ValueKind::KDec, slot: 5 },
        Desc { depth: 1, tag: "security", kind: ValueKind::KDec, slot: 6 },
    ]
}

/// Builds the executable [`planet_descs`] table.
fn planet_desc_vec() -> (r: Vec<Desc>)
    ensures
        r@ == planet_descs(),
{
    let mut r: Vec<Desc> = Vec::new();
    r.push(Desc { depth: 1, tag: "attributes", kind: ValueKind::KStrList, slot: 0 });
    r.push(Desc { depth: 1, tag: "description", kind: ValueKind::KStr, slot: 1 });
    r.push(Desc { depth: 1, tag: "spaceport", kind: ValueKind::KStr, slot: 2 });
    r.push(Desc { depth: 1, tag: "shipyard", kind: ValueKind::KStr, slot: 3 });
    r.push(Desc { depth: 1, tag: "outfitter", kind: ValueKind::KStr, slot: 4 });
    r.push(Desc { depth: 1, tag: "bribe", kind: ValueKind::KDec, slot: 5 });
    r.push(Desc { depth: 1, tag: "security", kind: ValueKind::KDec, slot: 6 });
    proof {
        assert(r@ =~= planet_descs());
    }
    r
}

/// The outcome of a planet body: the characters consumed, the leaf items
/// in source order, and the last tribute block, or a fatal error.
pub enum PlanetBody {
    Fatal(ErrV),
    Done(int, Seq<ItemV>, Option<TributeV>),
}

/// The body of a planet: engine passes over the leaf-field table
/// alternate with tribute blocks until neither matches.  A later tribute
/// block overwrites an earlier one.
pub open spec fn spec_planet_body(s: Seq<char>) -> PlanetBody
    decreases s.len(),
{
    match spec_parse_fields(planet_descs(), s) {
        FieldsRes::Fatal(f) => PlanetBody::Fatal(f),
        FieldsRes::Items(n1, items1) => if 0 <= n1 <= s.len() {
            match spec_tribute(s.skip(n1)) {
                SpecStep::Fatal(f) => PlanetBody::Fatal(shift_err(f, n1)),
                SpecStep::Miss => PlanetBody::Done(n1, items1, Option::None),
                SpecStep::Hit(n2, tr) => if 1 <= n2 <= s.len() - n1 {
                    match spec_planet_body(s.skip(n1 + n2)) {
                        PlanetBody::Fatal(f) => PlanetBody::Fatal(shift_err(f, n1 + n2)),
                        PlanetBody::Done(m, items2, tr2) => PlanetBody::Done(
                            n1 + n2 + m,
                            items1 + items2,
                            if tr2 is Some {
                                tr2
                            } else {
                                Option::Some(tr)
                            },
                        ),
                    }
                } else {
                    PlanetBody::Done(n1, items1, Option::Some(tr))
                },
            }
        } else {
            PlanetBody::Done(0, Seq::empty(), Option::None)
        },
    }
}

/// A planet body consumes at most the whole suffix.
pub proof fn lemma_spec_planet_body_len(s: Seq<char>)
    ensures
        spec_planet_body(s) matches PlanetBody::Done(n, _, _) ==> 0 <= n <= s.len(),
    decreases s.len(),
{
    crate::fields::lemma_spec_parse_fields_len(planet_descs(), s);
    match spec_parse_fields(planet_descs(), s) {
        FieldsRes::Items(n1, items1) => {
            if 0 <= n1 <= s.len() {
                lemma_spec_tribute_len(s.skip(n1));
                match spec_tribute(s.skip(n1)) {
                    SpecStep::Hit(n2, tr) => {
                        if 1 <= n2 <= s.len() - n1 {
                            lemma_spec_planet_body_len(s.skip(n1 + n2));
                        }
                    },
                    _ => {},
                }
            }
        },
        _ => {},
    }
}

/// The finalized planet: the name from the header, each scalar slot's
/// last value, each repeatable slot's values in source order, and the
/// defaults for everything absent.
pub open spec fn spec_finalize_planet(
    name: Seq<char>,
    items: Seq<ItemV>,
    tribute: Option<TributeV>,
) -> PlanetV {
    PlanetV {
        name: name,
        attributes: match opt_str_list_slot(items, 0) {
            Option::Some(a) => a,
            Option::None => Seq::empty(),
        },
        landscape: Option::None,
        government: Option::None,
        music: Option::None,
        description: strs_slot(items, 1),
        spaceport: strs_slot(items, 2),
        shipyard: strs_slot(items, 3),
        outfitter: strs_slot(items, 4),
        bribe: opt_dec_slot(items, 5),
        security: opt_dec_slot(items, 6),
        tribute: tribute,
        required_reputation: Option::None,
    }
}

/// A planet record: the header line naming it, then its body.
#[verifier::opaque]
pub open spec fn spec_parse_planet(s: Seq<char>) -> SpecStep<PlanetV> {
    match spec_str_header(0, "planet"@, s) {
        SpecStep::Miss => SpecStep::Miss,
        SpecStep::Fatal(f) => SpecStep::Fatal(push_ctx(f, RecordKind::Planet)),
        SpecStep::Hit(nh, name) => if 1 <= nh <= s.len() {
            match spec_planet_body(s.skip(nh)) {
                PlanetBody::Fatal(f) => SpecStep::Fatal(
                    push_ctx(shift_err(f, nh), RecordKind::Planet),
                ),
                PlanetBody::Done(nb, items, tr) => SpecStep::Hit(
                    nh + nb,
                    spec_finalize_planet(name, items, tr),
                ),
            }
        } else {
            SpecStep::Miss
        },
    }
}

/// A planet hit consumes at least one character and at most the whole
/// suffix.
pub proof fn lemma_spec_parse_planet_len(s: Seq<char>)
    ensures
        spec_parse_planet(s) matches SpecStep::Hit(n, _) ==> 1 <= n <= s.len(),
{
    reveal(spec_parse_planet);
    crate::records::common::lemma_spec_str_header_len(0, "planet"@, s);
    match spec_str_header(0, "planet"@, s) {
        SpecStep::Hit(nh, _) => {
            if 1 <= nh <= s.len() {
                lemma_spec_planet_body_len(s.skip(nh));
            }
        },
        _ => {},
    }
}

/// Executable twin of [`spec_planet_body`]: the characters consumed, the
/// leaf items, and the last tribute block, or the fatal error.
#[verifier::rlimit(100)]
#[verifier::spinoff_prover]
fn planet_body(src: &str, v: &Vec<char>, start: usize) -> (r: Result<
    (usize, Vec<crate::fields::Item>, Option<Tribute>),
    StructuredError,
>)
    requires
        v@ == src@,
        start <= v@.len(),
    ensures
        match r {
            Result::Ok((n, items, tr)) => spec_planet_body(v@.skip(start as int))
                == PlanetBody::Done(
                n as int,
                crate::fields::vitems(items@),
                match tr {
                    Option::None => Option::<TributeV>::None,
                    Option::Some(t) => Option::Some(t@),
                },
            ) && start + n <= v@.len(),
            Result::Err(e) => spec_planet_body(v@.skip(start as int)) matches PlanetBody::Fatal(f)
                && err_ok(e, f, start as int),
        },
{
    let ghost sb = v@.skip(start as int);
    let vlen = v.len();
    let descs = planet_desc_vec();
    let mut cur: usize = start;
    let mut items: Vec<crate::fields::Item> = Vec::new();
    let mut tribute: Option<Tribute> = Option::None;
    loop
        invariant
            v@ == src@,
            vlen == v@.len(),
            start <= cur <= v@.len(),
            sb == v@.skip(start as int),
            descs@ == planet_descs(),
            ({
                let trv = match tribute {
                    Option::None => Option::<TributeV>::None,
                    Option::Some(t) => Option::Some(t@),
                };
                match spec_planet_body(v@.skip(cur as int)) {
                    PlanetBody::Done(m, items2, tr2) => spec_planet_body(sb) == PlanetBody::Done(
                        cur - start + m,
                        crate::fields::vitems(items@) + items2,
                        if tr2 is Some {
                            tr2
                        } else {
                            trv
                        },
                    ),
                    PlanetBody::Fatal(f) => spec_planet_body(sb) == PlanetBody::Fatal(
                        shift_err(f, cur - start),
                    ),
                }
            }),
        decreases v@.len() - cur,
    {
        let ghost scur = v@.skip(cur as int);
        let (n1, mut items1) = match parse_fields(src, v, cur, &descs) {
            Result::Err(e) => {
                return Result::Err(e);
            },
            Result::Ok(x) => x,
        };
        proof {
            crate::fields::lemma_spec_parse_fields_len(planet_descs(), scur);
            assert(v@.skip((cur + n1) as int) == scur.skip(n1 as int));
        }
        let ghost prev_items = crate::fields::vitems(items@);
        let ghost new_items = crate::fields::vitems(items1@);
        items.append(&mut items1);
        proof {
            assert(crate::fields::vitems(items@) =~= prev_items + new_items);
        }
        match parse_tribute(src, v, cur + n1) {
            Step::Fatal(e) => {
                return Result::Err(e);
            },
            Step::Miss => {
                proof {
                    assert((prev_items + new_items) + Seq::<ItemV>::empty() =~= (prev_items
                        + new_items));
                }
                return Result::Ok((cur + n1 - start, items, tribute));
            },
            Step::Hit(n2, tr) => {
                proof {
                    lemma_spec_tribute_len(scur.skip(n1 as int));
                    assert(v@.skip((cur + n1 + n2) as int) == scur.skip(n1 + n2));
                    match spec_planet_body(scur.skip(n1 + n2)) {
                        PlanetBody::Done(m3, items3, tr3) => {
                            assert((prev_items + (new_items + items3)) =~= ((prev_items
                                + new_items) + items3));
                        },
                        PlanetBody::Fatal(_) => {},
                    }
                }
                tribute = Option::Some(tr);
                cur = cur + n1 + n2;
            },
        }
    }
}

/// Builds the finalized planet from its header name, its parsed leaf
/// items and its last tribute block.
fn finalize_planet(name: String, items: &Vec<crate::fields::Item>, tribute: Option<Tribute>) -> (r:
    Planet)
    ensures
        r@ == spec_finalize_planet(
            name@,
            crate::fields::vitems(items@),
            match tribute {
                Option::None => Option::<TributeV>::None,
                Option::Some(t) => Option::Some(t@),
            },
        ),
{
    let attributes = match take_str_list(items, 0) {
        Option::Some(a) => a,
        Option::None => {
            let e: Vec<String> = Vec::new();
            proof {
                assert(crate::types::strs_view(e@) =~= Seq::<Seq<char>>::empty());
            }
            e
        },
    };
    Planet {
        name: name,
        attributes: attributes,
        landscape: Option::None,
        government: Option::None,
        music: Option::None,
        description: crate::slots::all_strs(items, 1),
        spaceport: crate::slots::all_strs(items, 2),
        shipyard: crate::slots::all_strs(items, 3),
        outfitter: crate::slots::all_strs(items, 4),
        bribe: take_dec(items, 5),
        security: take_dec(items, 6),
        tribute: tribute,
        required_reputation: Option::None,
    }
}

/// Executable twin of [`spec_parse_planet`].
pub fn parse_planet(src: &str, v: &Vec<char>, pos: usize) -> (r: Step<Planet>)
    requires
        v@ == src@,
        pos <= v@.len(),
    ensures
        step_ok(r, spec_parse_planet(v@.skip(pos as int)), pos as int),
        r matches Step::Hit(n, _) ==> pos + n <= v@.len(),
{
    proof {
        reveal(spec_parse_planet);
    }
    let ghost s = v@.skip(pos as int);
    let vlen = v.len();
    let (nh, name) = match str_header_tok(src, v, pos, 0, "planet") {
        Step::Miss => {
            return Step::Miss;
        },
        Step::Fatal(e) => {
            return Step::Fatal(e.with_ctx(RecordKind::Planet));
        },
        Step::Hit(nh, name) => (nh, name),
    };
    proof {
        crate::records::common::lemma_spec_str_header_len(0, "planet"@, s);
        assert(v@.skip((pos + nh) as int) == s.skip(nh as int));
    }
    match planet_body(src, v, pos + nh) {
        Result::Err(e) => Step::Fatal(e.with_ctx(RecordKind::Planet)),
        Result::Ok((nb, items, tribute)) => Step::Hit(
            nh + nb,
            finalize_planet(name, &items, tribute),
        ),
    }
}

} // verus!
