//! The system record and its recursive positional objects.
//!
//! A system names itself on its header line; position, government and
//! habitable value are mandatory, and links, asteroid and minable
//! populations, trade goods and fleets accumulate in source order.  A
//! positional object carries an optional name on its own tag line and
//! optional orbital parameters beneath it, except the mandatory period;
//! its child objects stand one indentation level deeper and the
//! recursion bottoms out when no line matches at the expected depth.

use vstd::prelude::*;

use crate::err::{
    err_ok, push_ctx, shift_err, step_ok, ErrV, RecordKind, SpecStep, Step, StructuredError,
};
use crate::fields::{parse_fields, spec_parse_fields, tag_match, Desc, FieldsRes, ItemV, ValueKind};
use crate::records::common::{
    conv_fault, conv_fault_err, missing_field, missing_field_err, spec_opt_str_header,
    spec_str_header, opt_str_header_tok, str_header_tok,
};
use crate::slots::{
    opt_dec_pair_slot, opt_dec_slot, opt_str_slot, opt_u64_slot, str_u64_dec_triples_view,
    str_u64_decs_slot, str_u64_pairs_view, str_u64s_slot, strs_slot, all_str_u64_decs,
    all_str_u64s, all_strs, take_dec, take_dec_pair, take_str, take_u64,
};
use crate::types::{
    objs_view, sys_obj_view, Asteroids, AsteroidsV, Decimal, Fleet, FleetV, Minables, MinablesV,
    Position, System, SystemObject, SystemObjectV, SystemV, Trade, TradeV,
};

verus! {

/// The leaf-field table of a positional object whose fields stand at
/// depth `child`.
pub open spec fn sysobj_descs(child: usize) -> Seq<Desc> {
    seq![
        Desc { depth: child, tag: "sprite", kind: ValueKind::KStr, slot: 0 },
        Desc { depth: child, tag: "distance", kind: ValueKind::KDec, slot: 1 },
        Desc { depth: child, tag: "period", kind: ValueKind::KDec, slot: 2 },
        Desc { depth: child, tag: "offset", kind: ValueKind::KDec, slot: 3 },
    ]
}

/// Builds the executable [`sysobj_descs`] table.
fn sysobj_desc_vec(child: usize) -> (r: Vec<Desc>)
    ensures
        r@ == sysobj_descs(child),
{
    let r: Vec<Desc> = vec![
        Desc { depth: child, tag: "sprite", kind: ValueKind::KStr, slot: 0 },
        Desc { depth: child, tag: "distance", kind: ValueKind::KDec, slot: 1 },
        Desc { depth: child, tag: "period", kind: ValueKind::KDec, slot: 2 },
        Desc { depth: child, tag: "offset", kind: ValueKind::KDec, slot: 3 },
    ];
    proof {
        assert(r@ =~= sysobj_descs(child));
    }
    r
}

/// The outcome of a positional object's body: the characters consumed,
/// the leaf items, and the child objects in source order, or a fatal
/// error.
pub enum SysObjBody {
    Fatal(ErrV),
    Done(int, Seq<ItemV>, Seq<SystemObjectV>),
}

/// A positional object at header depth `d`: its optional name on the
/// tag line, then its body one level deeper.  The period is mandatory.
#[verifier::opaque]
pub open spec fn spec_sys_object(d: usize, s: Seq<char>) -> SpecStep<SystemObjectV>
    decreases s.len(), 0int,
{
    if d + 6 > s.len() {
        SpecStep::Miss
    } else {
        match spec_opt_str_header(d as nat, "object"@, s) {
            SpecStep::Miss => SpecStep::Miss,
            SpecStep::Fatal(f) => SpecStep::Fatal(push_ctx(f, RecordKind::SystemObject)),
            SpecStep::Hit(nh, name) => if 1 <= nh <= s.len() {
                match spec_sysobj_body(d, s.skip(nh)) {
                    SysObjBody::Fatal(f) => SpecStep::Fatal(
                        push_ctx(shift_err(f, nh), RecordKind::SystemObject),
                    ),
                    SysObjBody::Done(nb, items, objs) => {
                        let end = nh + nb;
                        match opt_dec_slot(items, 2) {
                            Option::None => SpecStep::Fatal(
                                push_ctx(
                                    missing_field("period"@, end),
                                    RecordKind::SystemObject,
                                ),
                            ),
                            Option::Some(period) => SpecStep::Hit(
                                end,
                                SystemObjectV {
                                    name: name,
                                    sprite: opt_str_slot(items, 0),
                                    distance: opt_dec_slot(items, 1),
                                    period: period,
                                    offset: opt_dec_slot(items, 3),
                                    objects: objs,
                                },
                            ),
                        }
                    },
                }
            } else {
                SpecStep::Miss
            },
        }
    }
}

/// The body of a positional object at header depth `d`: engine passes
/// over the leaf-field table at depth `d + 1` alternate with child
/// objects at the same deeper level, accumulating the children in
/// source order.
pub open spec fn spec_sysobj_body(d: usize, s: Seq<char>) -> SysObjBody
    decreases s.len(), 1int,
{
    match spec_parse_fields(sysobj_descs((d + 1) as usize), s) {
        FieldsRes::Fatal(f) => SysObjBody::Fatal(f),
        FieldsRes::Items(n1, items1) => if 0 <= n1 <= s.len() {
            match spec_sys_object((d + 1) as usize, s.skip(n1)) {
                SpecStep::Fatal(f) => SysObjBody::Fatal(shift_err(f, n1)),
                SpecStep::Miss => SysObjBody::Done(n1, items1, Seq::empty()),
                SpecStep::Hit(n2, child) => if 1 <= n2 <= s.len() - n1 {
                    match spec_sysobj_body(d, s.skip(n1 + n2)) {
                        SysObjBody::Fatal(f) => SysObjBody::Fatal(shift_err(f, n1 + n2)),
                        SysObjBody::Done(m, items2, objs2) => SysObjBody::Done(
                            n1 + n2 + m,
                            items1 + items2,
                            seq![child] + objs2,
                        ),
                    }
                } else {
                    SysObjBody::Done(n1, items1, seq![child])
                },
            }
        } else {
            SysObjBody::Done(0, Seq::empty(), Seq::empty())
        },
    }
}

/// A positional-object hit consumes at least one character and at most
/// the whole suffix, and its body at most the whole suffix.
pub proof fn lemma_spec_sys_object_len(d: usize, s: Seq<char>)
    ensures
        spec_sys_object(d, s) matches SpecStep::Hit(n, _) ==> 1 <= n <= s.len(),
    decreases s.len(), 0int,
{
    reveal(spec_sys_object);
    if d + 6 <= s.len() {
        crate::records::common::lemma_spec_opt_str_header_len(d as nat, "object"@, s);
        match spec_opt_str_header(d as nat, "object"@, s) {
            SpecStep::Hit(nh, _) => {
                if 1 <= nh <= s.len() {
                    lemma_spec_sysobj_body_len(d, s.skip(nh));
                }
            },
            _ => {},
        }
    }
}

/// A positional object's body consumes at most the whole suffix.
pub proof fn lemma_spec_sysobj_body_len(d: usize, s: Seq<char>)
    ensures
        spec_sysobj_body(d, s) matches SysObjBody::Done(n, _, _) ==> 0 <= n <= s.len(),
    decreases s.len(), 1int,
{
    reveal(spec_sys_object);
    reveal_with_fuel(spec_sysobj_body, 2);
    crate::fields::lemma_spec_parse_fields_len(sysobj_descs((d + 1) as usize), s);
    match spec_parse_fields(sysobj_descs((d + 1) as usize), s) {
        FieldsRes::Items(n1, items1) => {
            if 0 <= n1 <= s.len() {
                lemma_spec_sys_object_len((d + 1) as usize, s.skip(n1));
                match spec_sys_object((d + 1) as usize, s.skip(n1)) {
                    SpecStep::Hit(n2, _) => {
                        if 1 <= n2 <= s.len() - n1 {
                            lemma_spec_sysobj_body_len(d, s.skip(n1 + n2));
                        }
                    },
                    _ => {},
                }
            }
        },
        _ => {},
    }
}

/// Executable twin of [`spec_sys_object`].
#[verifier::rlimit(100)]
#[verifier::spinoff_prover]
pub fn parse_sys_object(src: &str, v: &Vec<char>, pos: usize, d: usize) -> (r: Step<SystemObject>)
    requires
        v@ == src@,
        pos <= v@.len(),
    ensures
        step_ok(r, spec_sys_object(d, v@.skip(pos as int)), pos as int),
        r matches Step::Hit(n, _) ==> pos + n <= v@.len(),
    decreases v@.len() - pos, 0int,
{
    proof {
        reveal(spec_sys_object);
    }
    let ghost s = v@.skip(pos as int);
    let vlen = v.len();
    let remaining = vlen - pos;
    if remaining < 6 || d > remaining - 6 {
        proof {
            assert(d + 6 > s.len());
        }
        return Step::Miss;
    }
    proof {
        assert(d + 6 <= s.len());
    }
    let (nh, name) = match opt_str_header_tok(src, v, pos, d, "object") {
        Step::Miss => {
            return Step::Miss;
        },
        Step::Fatal(e) => {
            return Step::Fatal(e.with_ctx(RecordKind::SystemObject));
        },
        Step::Hit(nh, name) => (nh, name),
    };
    proof {
        crate::records::common::lemma_spec_opt_str_header_len(d as nat, "object"@, s);
        assert(v@.skip((pos + nh) as int) == s.skip(nh as int));
    }
    let (nb, items, objs) = match sysobj_body(src, v, pos + nh, d) {
        Result::Err(e) => {
            return Step::Fatal(e.with_ctx(RecordKind::SystemObject));
        },
        Result::Ok(x) => x,
    };
    let end = pos + nh + nb;
    let period = match take_dec(&items, 2) {
        Option::None => {
            return Step::Fatal(
                missing_field_err("period", end).with_ctx(RecordKind::SystemObject),
            );
        },
        Option::Some(x) => x,
    };
    Step::Hit(
        nh + nb,
        SystemObject {
            name: name,
            sprite: take_str(&items, 0),
            distance: take_dec(&items, 1),
            period: period,
            offset: take_dec(&items, 3),
            objects: objs,
        },
    )
}

/// Executable twin of [`spec_sysobj_body`].
#[verifier::rlimit(100)]
#[verifier::spinoff_prover]
fn sysobj_body(src: &str, v: &Vec<char>, start: usize, d: usize) -> (r: Result<
    (usize, Vec<crate::fields::Item>, Vec<SystemObject>),
    StructuredError,
>)
    requires
        v@ == src@,
        start <= v@.len(),
        d + 6 <= v@.len(),
    ensures
        match r {
            Result::Ok((n, items, objs)) => spec_sysobj_body(d, v@.skip(start as int))
                == SysObjBody::Done(n as int, crate::fields::vitems(items@), objs_view(objs@))
                && start + n <= v@.len(),
            Result::Err(e) => spec_sysobj_body(d, v@.skip(start as int)) matches SysObjBody::Fatal(
                f,
            ) && err_ok(e, f, start as int),
        },
    decreases v@.len() - start, 1int,
{
    let ghost sb = v@.skip(start as int);
    let vlen = v.len();
    let child = d + 1;
    let descs = sysobj_desc_vec(child);
    let mut cur: usize = start;
    let mut items: Vec<crate::fields::Item> = Vec::new();
    let mut objs: Vec<SystemObject> = Vec::new();
    proof {
        assert(objs_view(objs@) =~= Seq::<SystemObjectV>::empty());
    }
    loop
        invariant
            v@ == src@,
            vlen == v@.len(),
            start <= cur <= v@.len(),
            sb == v@.skip(start as int),
            child == d + 1,
            descs@ == sysobj_descs(child),
            ({
                match spec_sysobj_body(d, v@.skip(cur as int)) {
                    SysObjBody::Done(m, items2, objs2) => spec_sysobj_body(d, sb)
                        == SysObjBody::Done(
                        cur - start + m,
                        crate::fields::vitems(items@) + items2,
                        objs_view(objs@) + objs2,
                    ),
                    SysObjBody::Fatal(f) => spec_sysobj_body(d, sb) == SysObjBody::Fatal(
                        shift_err(f, cur - start),
                    ),
                }
            }),
        decreases v@.len() - cur,
    {
        let ghost scur = v@.skip(cur as int);
        let (n1, mut items1) = match parse_fields(src, v, cur, &descs) {
            Result::Err(e) => {
                return Result::Err(e);
            },
            Result::Ok(x) => x,
        };
        proof {
            crate::fields::lemma_spec_parse_fields_len(sysobj_descs(child), scur);
            assert(v@.skip((cur + n1) as int) == scur.skip(n1 as int));
        }
        let ghost prev_items = crate::fields::vitems(items@);
        let ghost new_items = crate::fields::vitems(items1@);
        items.append(&mut items1);
        proof {
            assert(crate::fields::vitems(items@) =~= prev_items + new_items);
        }
        match parse_sys_object(src, v, cur + n1, child) {
            Step::Fatal(e) => {
                return Result::Err(e);
            },
            Step::Miss => {
                proof {
                    assert((prev_items + new_items) + Seq::<ItemV>::empty() =~= (prev_items
                        + new_items));
                    assert(objs_view(objs@) + Seq::<SystemObjectV>::empty() =~= objs_view(objs@));
                }
                return Result::Ok((cur + n1 - start, items, objs));
            },
            Step::Hit(n2, child_obj) => {
                let ghost cv = child_obj@;
                let ghost prev_seq = objs@;
                let ghost prev_objs = objs_view(objs@);
                proof {
                    lemma_spec_sys_object_len(child, scur.skip(n1 as int));
                    assert(v@.skip((cur + n1 + n2) as int) == scur.skip(n1 + n2));
                }
                objs.push(child_obj);
                proof {
                    assert(objs@.drop_last() =~= prev_seq);
                    assert(objs@.last() == child_obj);
                    assert(objs_view(objs@) == objs_view(objs@.drop_last()).push(
                        sys_obj_view(objs@.last()),
                    ));
                    assert(objs_view(objs@) =~= prev_objs.push(cv));
                    match spec_sysobj_body(d, scur.skip(n1 + n2)) {
                        SysObjBody::Done(m3, items3, objs3) => {
                            assert((prev_items + (new_items + items3)) =~= ((prev_items
                                + new_items) + items3));
                            assert((prev_objs + (seq![cv] + objs3)) =~= (objs_view(objs@)
                                + objs3));
                        },
                        SysObjBody::Fatal(_) => {},
                    }
                }
                cur = cur + n1 + n2;
            },
        }
    }
}

/// The leaf-field table of a system.
pub open spec fn system_descs() -> Seq<Desc> {
    seq![
        Desc { depth: 1, tag: "pos", kind: ValueKind::KDecPair, slot: 0 },
        Desc { depth: 1, tag: "government", kind: ValueKind::KStr, slot: 1 },
        Desc { depth: 1, tag: "habitable", kind: ValueKind::KDec, slot: 2 },
        Desc { depth: 1, tag: "belt", kind: ValueKind::KU64, slot: 3 },
        Desc { depth: 1, tag: "haze", kind: ValueKind::KStr, slot: 4 },
        Desc { depth: 1, tag: "link", kind: ValueKind::KStr, slot: 5 },
        Desc { depth: 1, tag: "asteroids", kind: ValueKind::KStrU64Dec, slot: 6 },
        Desc { depth: 1, tag: "minables", kind: ValueKind::KStrU64Dec, slot: 7 },
        Desc { depth: 1, tag: "trade", kind: ValueKind::KStrU64, slot: 8 },
        Desc { depth: 1, tag: "fleet", kind: ValueKind::KStrU64, slot: 9 },
    ]
}

/// Builds the executable [`system_descs`] table.
fn system_desc_vec() -> (r: Vec<Desc>)
    ensures
        r@ == system_descs(),
{
    let r: Vec<Desc> = vec![
        Desc { depth: 1, tag: "pos", kind: ValueKind::KDecPair, slot: 0 },
        Desc { depth: 1, tag: "government", kind: ValueKind::KStr, slot: 1 },
        Desc { depth: 1, tag: "habitable", kind: ValueKind::KDec, slot: 2 },
        Desc { depth: 1, tag: "belt", kind: ValueKind::KU64, slot: 3 },
        Desc { depth: 1, tag: "haze", kind: ValueKind::KStr, slot: 4 },
        Desc { depth: 1, tag: "link", kind: ValueKind::KStr, slot: 5 },
        Desc { depth: 1, tag: "asteroids", kind: ValueKind::KStrU64Dec, slot: 6 },
        Desc { depth: 1, tag: "minables", kind: ValueKind::KStrU64Dec, slot: 7 },
        Desc { depth: 1, tag: "trade", kind: ValueKind::KStrU64, slot: 8 },
        Desc { depth: 1, tag: "fleet", kind: ValueKind::KStrU64, slot: 9 },
    ];
    proof {
        assert(r@ =~= system_descs());
    }
    r
}

/// The outcome of a system body: the characters consumed, the leaf
/// items, and the positional objects in source order, or a fatal error.
pub enum SystemBody {
    Fatal(ErrV),
    Done(int, Seq<ItemV>, Seq<SystemObjectV>),
}

/// The body of a system: engine passes over the leaf-field table
/// alternate with positional objects at depth one, accumulated in
/// source order.
pub open spec fn spec_system_body(s: Seq<char>) -> SystemBody
    decreases s.len(),
{
    match spec_parse_fields(system_descs(), s) {
        FieldsRes::Fatal(f) => SystemBody::Fatal(f),
        FieldsRes::Items(n1, items1) => if 0 <= n1 <= s.len() {
            match spec_sys_object(1, s.skip(n1)) {
                SpecStep::Fatal(f) => SystemBody::Fatal(shift_err(f, n1)),
                SpecStep::Miss => SystemBody::Done(n1, items1, Seq::empty()),
                SpecStep::Hit(n2, child) => if 1 <= n2 <= s.len() - n1 {
                    match spec_system_body(s.skip(n1 + n2)) {
                        SystemBody::Fatal(f) => SystemBody::Fatal(shift_err(f, n1 + n2)),
                        SystemBody::Done(m, items2, objs2) => SystemBody::Done(
                            n1 + n2 + m,
                            items1 + items2,
                            seq![child] + objs2,
                        ),
                    }
                } else {
                    SystemBody::Done(n1, items1, seq![child])
                },
            }
        } else {
            SystemBody::Done(0, Seq::empty(), Seq::empty())
        },
    }
}

/// A system body consumes at most the whole suffix.
pub proof fn lemma_spec_system_body_len(s: Seq<char>)
    ensures
        spec_system_body(s) matches SystemBody::Done(n, _, _) ==> 0 <= n <= s.len(),
    decreases s.len(),
{
    crate::fields::lemma_spec_parse_fields_len(system_descs(), s);
    match spec_parse_fields(system_descs(), s) {
        FieldsRes::Items(n1, items1) => {
            if 0 <= n1 <= s.len() {
                lemma_spec_sys_object_len(1, s.skip(n1));
                match spec_sys_object(1, s.skip(n1)) {
                    SpecStep::Hit(n2, _) => {
                        if 1 <= n2 <= s.len() - n1 {
                            lemma_spec_system_body_len(s.skip(n1 + n2));
                        }
                    },
                    _ => {},
                }
            }
        },
        _ => {},
    }
}

/// Executable twin of [`spec_system_body`].
#[verifier::rlimit(100)]
#[verifier::spinoff_prover]
fn system_body(src: &str, v: &Vec<char>, start: usize) -> (r: Result<
    (usize, Vec<crate::fields::Item>, Vec<SystemObject>),
    StructuredError,
>)
    requires
        v@ == src@,
        start <= v@.len(),
    ensures
        match r {
            Result::Ok((n, items, objs)) => spec_system_body(v@.skip(start as int))
                == SystemBody::Done(n as int, crate::fields::vitems(items@), objs_view(objs@))
                && start + n <= v@.len(),
            Result::Err(e) => spec_system_body(v@.skip(start as int)) matches SystemBody::Fatal(f)
                && err_ok(e, f, start as int),
        },
{
    let ghost sb = v@.skip(start as int);
    let vlen = v.len();
    let descs = system_desc_vec();
    let mut cur: usize = start;
    let mut items: Vec<crate::fields::Item> = Vec::new();
    let mut objs: Vec<SystemObject> = Vec::new();
    proof {
        assert(objs_view(objs@) =~= Seq::<SystemObjectV>::empty());
    }
    loop
        invariant
            v@ == src@,
            vlen == v@.len(),
            start <= cur <= v@.len(),
            sb == v@.skip(start as int),
            descs@ == system_descs(),
            ({
                match spec_system_body(v@.skip(cur as int)) {
                    SystemBody::Done(m, items2, objs2) => spec_system_body(sb)
                        == SystemBody::Done(
                        cur - start + m,
                        crate::fields::vitems(items@) + items2,
                        objs_view(objs@) + objs2,
                    ),
                    SystemBody::Fatal(f) => spec_system_body(sb) == SystemBody::Fatal(
                        shift_err(f, cur - start),
                    ),
                }
            }),
        decreases v@.len() - cur,
    {
        let ghost scur = v@.skip(cur as int);
        let (n1, mut items1) = match parse_fields(src, v, cur, &descs) {
            Result::Err(e) => {
                return Result::Err(e);
            },
            Result::Ok(x) => x,
        };
        proof {
            crate::fields::lemma_spec_parse_fields_len(system_descs(), scur);
            assert(v@.skip((cur + n1) as int) == scur.skip(n1 as int));
        }
        let ghost prev_items = crate::fields::vitems(items@);
        let ghost new_items = crate::fields::vitems(items1@);
        items.append(&mut items1);
        proof {
            assert(crate::fields::vitems(items@) =~= prev_items + new_items);
        }
        match parse_sys_object(src, v, cur + n1, 1) {
            Step::Fatal(e) => {
                return Result::Err(e);
            },
            Step::Miss => {
                proof {
                    assert((prev_items + new_items) + Seq::<ItemV>::empty() =~= (prev_items
                        + new_items));
                    assert(objs_view(objs@) + Seq::<SystemObjectV>::empty() =~= objs_view(objs@));
                }
                return Result::Ok((cur + n1 - start, items, objs));
            },
            Step::Hit(n2, child_obj) => {
                let ghost cv = child_obj@;
                let ghost prev_seq = objs@;
                let ghost prev_objs = objs_view(objs@);
                proof {
                    lemma_spec_sys_object_len(1, scur.skip(n1 as int));
                    assert(v@.skip((cur + n1 + n2) as int) == scur.skip(n1 + n2));
                }
                objs.push(child_obj);
                proof {
                    assert(objs@.drop_last() =~= prev_seq);
                    assert(objs@.last() == child_obj);
                    assert(objs_view(objs@) == objs_view(objs@.drop_last()).push(
                        sys_obj_view(objs@.last()),
                    ));
                    assert(objs_view(objs@) =~= prev_objs.push(cv));
                    match spec_system_body(scur.skip(n1 + n2)) {
                        SystemBody::Done(m3, items3, objs3) => {
                            assert((prev_items + (new_items + items3)) =~= ((prev_items
                                + new_items) + items3));
                            assert((prev_objs + (seq![cv] + objs3)) =~= (objs_view(objs@)
                                + objs3));
                        },
                        SystemBody::Fatal(_) => {},
                    }
                }
                cur = cur + n1 + n2;
            },
        }
    }
}

/// Whether any triple holds an integer beyond 32 bits.
pub open spec fn triples_over(ts: Seq<(Seq<char>, u64, Decimal)>) -> bool {
    exists|i: int| 0 <= i < ts.len() && (#[trigger] ts[i]).1 > u32::MAX
}

/// The asteroid populations of `ts`, their counts narrowed.
pub open spec fn asteroids_of(ts: Seq<(Seq<char>, u64, Decimal)>) -> Seq<AsteroidsV> {
    ts.map_values(
        |t: (Seq<char>, u64, Decimal)|
            AsteroidsV { name: t.0, first_value: t.1 as u32, second_value: t.2 },
    )
}

/// The minable populations of `ts`, their counts narrowed.
pub open spec fn minables_of(ts: Seq<(Seq<char>, u64, Decimal)>) -> Seq<MinablesV> {
    ts.map_values(
        |t: (Seq<char>, u64, Decimal)|
            MinablesV { name: t.0, first_value: t.1 as u32, second_value: t.2 },
    )
}

/// Whether any pair holds an integer beyond 32 bits.
pub open spec fn pairs_over_u32(ps: Seq<(Seq<char>, u64)>) -> bool {
    exists|i: int| 0 <= i < ps.len() && (#[trigger] ps[i]).1 > u32::MAX
}

/// Whether any pair holds an integer beyond 16 bits.
pub open spec fn pairs_over_u16(ps: Seq<(Seq<char>, u64)>) -> bool {
    exists|i: int| 0 <= i < ps.len() && (#[trigger] ps[i]).1 > u16::MAX
}

/// The trade goods of `ps`, their prices narrowed.
pub open spec fn trades_of(ps: Seq<(Seq<char>, u64)>) -> Seq<TradeV> {
    ps.map_values(|p: (Seq<char>, u64)| TradeV { name: p.0, price: p.1 as u32 })
}

/// The fleets of `ps`, their counts narrowed.
pub open spec fn fleets_of(ps: Seq<(Seq<char>, u64)>) -> Seq<FleetV> {
    ps.map_values(|p: (Seq<char>, u64)| FleetV { kind: p.0, count: p.1 as u16 })
}

/// Converts gathered triples to asteroid populations, or reports a count
/// beyond 32 bits.
fn conv_asteroids(ts: Vec<(String, u64, Decimal)>) -> (r: Result<Vec<Asteroids>, ()>)
    ensures
        match r {
            Result::Ok(v) => !triples_over(str_u64_dec_triples_view(ts@)) && v@.map_values(
                |a: Asteroids| a@,
            ) == asteroids_of(str_u64_dec_triples_view(ts@)),
            Result::Err(_) => triples_over(str_u64_dec_triples_view(ts@)),
        },
{
    let ghost tv = str_u64_dec_triples_view(ts@);
    let mut r: Vec<Asteroids> = Vec::new();
    let mut i: usize = 0;
    while i < ts.len()
        invariant
            0 <= i <= ts@.len(),
            tv == str_u64_dec_triples_view(ts@),
            tv.len() == ts@.len(),
            forall|j: int| 0 <= j < ts@.len() ==> #[trigger] tv[j] == (ts@[j].0@, ts@[j].1, ts@[j].2),
            forall|j: int| 0 <= j < i ==> (#[trigger] tv[j]).1 <= u32::MAX,
            r@.map_values(|a: Asteroids| a@) =~= asteroids_of(tv.subrange(0, i as int)),
        decreases ts@.len() - i,
    {
        let t = &ts[i];
        if t.1 > 0xffffffffu64 {
            proof {
                assert((tv[i as int]).1 > u32::MAX);
            }
            return Result::Err(());
        }
        let ghost prev = r@.map_values(|a: Asteroids| a@);
        r.push(Asteroids { name: t.0.clone(), first_value: t.1 as u32, second_value: t.2 });
        proof {
            assert(r@.map_values(|a: Asteroids| a@) =~= prev.push(
                AsteroidsV { name: tv[i as int].0, first_value: tv[i as int].1 as u32, second_value: tv[i as int].2 },
            ));
            assert(asteroids_of(tv.subrange(0, i + 1)) =~= asteroids_of(
                tv.subrange(0, i as int),
            ).push(
                AsteroidsV { name: tv[i as int].0, first_value: tv[i as int].1 as u32, second_value: tv[i as int].2 },
            ));
        }
        i = i + 1;
    }
    proof {
        assert(tv.subrange(0, tv.len() as int) =~= tv);
    }
    Result::Ok(r)
}

/// Converts gathered triples to minable populations, or reports a count
/// beyond 32 bits.
fn conv_minables(ts: Vec<(String, u64, Decimal)>) -> (r: Result<Vec<Minables>, ()>)
    ensures
        match r {
            Result::Ok(v) => !triples_over(str_u64_dec_triples_view(ts@)) && v@.map_values(
                |a: Minables| a@,
            ) == minables_of(str_u64_dec_triples_view(ts@)),
            Result::Err(_) => triples_over(str_u64_dec_triples_view(ts@)),
        },
{
    let ghost tv = str_u64_dec_triples_view(ts@);
    let mut r: Vec<Minables> = Vec::new();
    let mut i: usize = 0;
    while i < ts.len()
        invariant
            0 <= i <= ts@.len(),
            tv == str_u64_dec_triples_view(ts@),
            tv.len() == ts@.len(),
            forall|j: int| 0 <= j < ts@.len() ==> #[trigger] tv[j] == (ts@[j].0@, ts@[j].1, ts@[j].2),
            forall|j: int| 0 <= j < i ==> (#[trigger] tv[j]).1 <= u32::MAX,
            r@.map_values(|a: Minables| a@) =~= minables_of(tv.subrange(0, i as int)),
        decreases ts@.len() - i,
    {
        let t = &ts[i];
        if t.1 > 0xffffffffu64 {
            proof {
                assert((tv[i as int]).1 > u32::MAX);
            }
            return Result::Err(());
        }
        let ghost prev = r@.map_values(|a: Minables| a@);
        r.push(Minables { name: t.0.clone(), first_value: t.1 as u32, second_value: t.2 });
        proof {
            assert(r@.map_values(|a: Minables| a@) =~= prev.push(
                MinablesV { name: tv[i as int].0, first_value: tv[i as int].1 as u32, second_value: tv[i as int].2 },
            ));
            assert(minables_of(tv.subrange(0, i + 1)) =~= minables_of(
                tv.subrange(0, i as int),
            ).push(
                MinablesV { name: tv[i as int].0, first_value: tv[i as int].1 as u32, second_value: tv[i as int].2 },
            ));
        }
        i = i + 1;
    }
    proof {
        assert(tv.subrange(0, tv.len() as int) =~= tv);
    }
    Result::Ok(r)
}

/// Converts gathered pairs to trade goods, or reports a price beyond 32
/// bits.
fn conv_trades(ps: Vec<(String, u64)>) -> (r: Result<Vec<Trade>, ()>)
    ensures
        match r {
            Result::Ok(v) => !pairs_over_u32(str_u64_pairs_view(ps@)) && v@.map_values(
                |t: Trade| t@,
            ) == trades_of(str_u64_pairs_view(ps@)),
            Result::Err(_) => pairs_over_u32(str_u64_pairs_view(ps@)),
        },
{
    let ghost pv = str_u64_pairs_view(ps@);
    let mut r: Vec<Trade> = Vec::new();
    let mut i: usize = 0;
    while i < ps.len()
        invariant
            0 <= i <= ps@.len(),
            pv == str_u64_pairs_view(ps@),
            pv.len() == ps@.len(),
            forall|j: int| 0 <= j < ps@.len() ==> #[trigger] pv[j] == (ps@[j].0@, ps@[j].1),
            forall|j: int| 0 <= j < i ==> (#[trigger] pv[j]).1 <= u32::MAX,
            r@.map_values(|t: Trade| t@) =~= trades_of(pv.subrange(0, i as int)),
        decreases ps@.len() - i,
    {
        let p = &ps[i];
        if p.1 > 0xffffffffu64 {
            proof {
                assert((pv[i as int]).1 > u32::MAX);
            }
            return Result::Err(());
        }
        let ghost prev = r@.map_values(|t: Trade| t@);
        r.push(Trade { name: p.0.clone(), price: p.1 as u32 });
        proof {
            assert(r@.map_values(|t: Trade| t@) =~= prev.push(
                TradeV { name: pv[i as int].0, price: pv[i as int].1 as u32 },
            ));
            assert(trades_of(pv.subrange(0, i + 1)) =~= trades_of(pv.subrange(0, i as int)).push(
                TradeV { name: pv[i as int].0, price: pv[i as int].1 as u32 },
            ));
        }
        i = i + 1;
    }
    proof {
        assert(pv.subrange(0, pv.len() as int) =~= pv);
    }
    Result::Ok(r)
}

/// Converts gathered pairs to fleets, or reports a count beyond 16 bits.
fn conv_fleets(ps: Vec<(String, u64)>) -> (r: Result<Vec<Fleet>, ()>)
    ensures
        match r {
            Result::Ok(v) => !pairs_over_u16(str_u64_pairs_view(ps@)) && v@.map_values(
                |f: Fleet| f@,
            ) == fleets_of(str_u64_pairs_view(ps@)),
            Result::Err(_) => pairs_over_u16(str_u64_pairs_view(ps@)),
        },
{
    let ghost pv = str_u64_pairs_view(ps@);
    let mut r: Vec<Fleet> = Vec::new();
    let mut i: usize = 0;
    while i < ps.len()
        invariant
            0 <= i <= ps@.len(),
            pv == str_u64_pairs_view(ps@),
            pv.len() == ps@.len(),
            forall|j: int| 0 <= j < ps@.len() ==> #[trigger] pv[j] == (ps@[j].0@, ps@[j].1),
            forall|j: int| 0 <= j < i ==> (#[trigger] pv[j]).1 <= u16::MAX,
            r@.map_values(|f: Fleet| f@) =~= fleets_of(pv.subrange(0, i as int)),
        decreases ps@.len() - i,
    {
        let p = &ps[i];
        if p.1 > 0xffffu64 {
            proof {
                assert((pv[i as int]).1 > u16::MAX);
            }
            return Result::Err(());
        }
        let ghost prev = r@.map_values(|f: Fleet| f@);
        r.push(Fleet { kind: p.0.clone(), count: p.1 as u16 });
        proof {
            assert(r@.map_values(|f: Fleet| f@) =~= prev.push(
                FleetV { kind: pv[i as int].0, count: pv[i as int].1 as u16 },
            ));
            assert(fleets_of(pv.subrange(0, i + 1)) =~= fleets_of(pv.subrange(0, i as int)).push(
                FleetV { kind: pv[i as int].0, count: pv[i as int].1 as u16 },
            ));
        }
        i = i + 1;
    }
    proof {
        assert(pv.subrange(0, pv.len() as int) =~= pv);
    }
    Result::Ok(r)
}

/// The first failure among a system's mandatory fields and integer
/// narrowings, if any.
pub open spec fn system_fault(items: Seq<ItemV>, end: int) -> Option<ErrV> {
    if opt_dec_pair_slot(items, 0) is None {
        Option::Some(missing_field("pos"@, end))
    } else if opt_str_slot(items, 1) is None {
        Option::Some(missing_field("government"@, end))
    } else if opt_dec_slot(items, 2) is None {
        Option::Some(missing_field("habitable"@, end))
    } else if u64_over_u32(items, 3) {
        Option::Some(conv_fault("belt"@, end))
    } else if triples_over(str_u64_decs_slot(items, 6)) {
        Option::Some(conv_fault("asteroids"@, end))
    } else if triples_over(str_u64_decs_slot(items, 7)) {
        Option::Some(conv_fault("minables"@, end))
    } else if pairs_over_u32(str_u64s_slot(items, 8)) {
        Option::Some(conv_fault("trade"@, end))
    } else if pairs_over_u16(str_u64s_slot(items, 9)) {
        Option::Some(conv_fault("fleet"@, end))
    } else {
        Option::None
    }
}

/// Whether the unsigned integer in `slot` exceeds 32 bits.
pub open spec fn u64_over_u32(items: Seq<ItemV>, slot: int) -> bool {
    match opt_u64_slot(items, slot) {
        Option::Some(x) => x > u32::MAX,
        Option::None => false,
    }
}

/// The finalized system value, its mandatory fields present and its
/// integers narrowed.
pub open spec fn system_value(
    name: Seq<char>,
    items: Seq<ItemV>,
    objs: Seq<SystemObjectV>,
) -> SystemV {
    SystemV {
        name: name,
        pos: match opt_dec_pair_slot(items, 0) {
            Option::Some(p) => Position { x: p.0, y: p.1 },
            Option::None => Position {
                x: Decimal { negative: false, int_part: 0u64, frac_part: 0u64, frac_len: 0u32 },
                y: Decimal { negative: false, int_part: 0u64, frac_part: 0u64, frac_len: 0u32 },
            },
        },
        government: match opt_str_slot(items, 1) {
            Option::Some(g) => g,
            Option::None => Seq::empty(),
        },
        habitable: match opt_dec_slot(items, 2) {
            Option::Some(h) => h,
            Option::None => Decimal {
                negative: false,
                int_part: 0u64,
                frac_part: 0u64,
                frac_len: 0u32,
            },
        },
        belt: match opt_u64_slot(items, 3) {
            Option::Some(b) => Option::Some(b as u32),
            Option::None => Option::None,
        },
        haze: opt_str_slot(items, 4),
        links: strs_slot(items, 5),
        asteroids: asteroids_of(str_u64_decs_slot(items, 6)),
        minables: minables_of(str_u64_decs_slot(items, 7)),
        trades: trades_of(str_u64s_slot(items, 8)),
        fleets: fleets_of(str_u64s_slot(items, 9)),
        objects: objs,
    }
}

/// A system record: the header line naming it, then its body; the
/// position, government and habitable value are mandatory.
#[verifier::opaque]
pub open spec fn spec_parse_system(s: Seq<char>) -> SpecStep<SystemV> {
    match spec_str_header(0, "system"@, s) {
        SpecStep::Miss => SpecStep::Miss,
        SpecStep::Fatal(f) => SpecStep::Fatal(push_ctx(f, RecordKind::System)),
        SpecStep::Hit(nh, name) => if 1 <= nh <= s.len() {
            match spec_system_body(s.skip(nh)) {
                SystemBody::Fatal(f) => SpecStep::Fatal(
                    push_ctx(shift_err(f, nh), RecordKind::System),
                ),
                SystemBody::Done(nb, items, objs) => match system_fault(items, nh + nb) {
                    Option::Some(f) => SpecStep::Fatal(push_ctx(f, RecordKind::System)),
                    Option::None => SpecStep::Hit(nh + nb, system_value(name, items, objs)),
                },
            }
        } else {
            SpecStep::Miss
        },
    }
}

/// A system hit consumes at least one character and at most the whole
/// suffix.
pub proof fn lemma_spec_parse_system_len(s: Seq<char>)
    ensures
        spec_parse_system(s) matches SpecStep::Hit(n, _) ==> 1 <= n <= s.len(),
{
    reveal(spec_parse_system);
    crate::records::common::lemma_spec_str_header_len(0, "system"@, s);
    match spec_str_header(0, "system"@, s) {
        SpecStep::Hit(nh, _) => {
            if 1 <= nh <= s.len() {
                lemma_spec_system_body_len(s.skip(nh));
            }
        },
        _ => {},
    }
}

/// Executable twin of [`spec_parse_system`].
#[verifier::rlimit(100)]
#[verifier::spinoff_prover]
pub fn parse_system(src: &str, v: &Vec<char>, pos: usize) -> (r: Step<System>)
    requires
        v@ == src@,
        pos <= v@.len(),
    ensures
        step_ok(r, spec_parse_system(v@.skip(pos as int)), pos as int),
        r matches Step::Hit(n, _) ==> pos + n <= v@.len(),
{
    proof {
        reveal(spec_parse_system);
    }
    let ghost s = v@.skip(pos as int);
    let vlen = v.len();
    let (nh, name) = match str_header_tok(src, v, pos, 0, "system") {
        Step::Miss => {
            return Step::Miss;
        },
        Step::Fatal(e) => {
            return Step::Fatal(e.with_ctx(RecordKind::System));
        },
        Step::Hit(nh, name) => (nh, name),
    };
    proof {
        crate::records::common::lemma_spec_str_header_len(0, "system"@, s);
        assert(v@.skip((pos + nh) as int) == s.skip(nh as int));
    }
    let (nb, items, objs) = match system_body(src, v, pos + nh) {
        Result::Err(e) => {
            return Step::Fatal(e.with_ctx(RecordKind::System));
        },
        Result::Ok(x) => x,
    };
    let end = pos + nh + nb;
    let p = match take_dec_pair(&items, 0) {
        Option::None => {
            return Step::Fatal(missing_field_err("pos", end).with_ctx(RecordKind::System));
        },
        Option::Some(p) => p,
    };
    let government = match take_str(&items, 1) {
        Option::None => {
            return Step::Fatal(missing_field_err("government", end).with_ctx(RecordKind::System));
        },
        Option::Some(g) => g,
    };
    let habitable = match take_dec(&items, 2) {
        Option::None => {
            return Step::Fatal(missing_field_err("habitable", end).with_ctx(RecordKind::System));
        },
        Option::Some(h) => h,
    };
    let belt = match take_u64(&items, 3) {
        Option::Some(b) => {
            if b > 0xffffffffu64 {
                return Step::Fatal(conv_fault_err("belt", end).with_ctx(RecordKind::System));
            }
            Option::Some(b as u32)
        },
        Option::None => Option::None,
    };
    let asteroids = match conv_asteroids(all_str_u64_decs(&items, 6)) {
        Result::Err(_) => {
            return Step::Fatal(conv_fault_err("asteroids", end).with_ctx(RecordKind::System));
        },
        Result::Ok(x) => x,
    };
    let minables = match conv_minables(all_str_u64_decs(&items, 7)) {
        Result::Err(_) => {
            return Step::Fatal(conv_fault_err("minables", end).with_ctx(RecordKind::System));
        },
        Result::Ok(x) => x,
    };
    let trades = match conv_trades(all_str_u64s(&items, 8)) {
        Result::Err(_) => {
            return Step::Fatal(conv_fault_err("trade", end).with_ctx(RecordKind::System));
        },
        Result::Ok(x) => x,
    };
    let fleets = match conv_fleets(all_str_u64s(&items, 9)) {
        Result::Err(_) => {
            return Step::Fatal(conv_fault_err("fleet", end).with_ctx(RecordKind::System));
        },
        Result::Ok(x) => x,
    };
    let r = System {
        name: name,
        pos: Position { x: p.0, y: p.1 },
        government: government,
        habitable: habitable,
        belt: belt,
        haze: take_str(&items, 4),
        links: all_strs(&items, 5),
        asteroids: asteroids,
        minables: minables,
        trades: trades,
        fleets: fleets,
        objects: objs,
    };
    proof {
        assert(r@.asteroids =~= asteroids_of(str_u64_decs_slot(crate::fields::vitems(items@), 6)));
        assert(r@.minables =~= minables_of(str_u64_decs_slot(crate::fields::vitems(items@), 7)));
        assert(r@.trades =~= trades_of(str_u64s_slot(crate::fields::vitems(items@), 8)));
        assert(r@.fleets =~= fleets_of(str_u64s_slot(crate::fields::vitems(items@), 9)));
    }
    Step::Hit(nh + nb, r)
}

} // verus!
