//! The effect record and the sprite sub-block.
//!
//! A sprite block names a resource on its tag line; animation sub-fields
//! may follow one level deeper, and a block without any stays a simple
//! sprite.  The sprite tag and its depth vary with the owning record, so
//! both are parameters.  An effect names itself on its header line; its
//! sprite is mandatory and everything else optional.

use vstd::prelude::*;

use crate::err::{
    err_ok, push_ctx, shift_err, step_ok, ErrV, RecordKind, SpecStep, Step, StructuredError,
};
use crate::fields::{parse_fields, spec_parse_fields, Desc, FieldsRes, ItemV, ValueKind};
use crate::records::common::{
    conv_fault, conv_fault_err, missing_field, missing_field_err, spec_str_header, str_header_tok,
};
use crate::slots::{
    flag_slot, opt_dec_slot, opt_str_slot, opt_u64_slot, take_dec, take_flag, take_str, take_u64,
};
use crate::types::{Effect, EffectV, Sprite, SpriteV};

verus! {

/// The animation sub-field table of a sprite block whose children stand
/// at depth `child`.
pub open spec fn sprite_descs(child: usize) -> Seq<Desc> {
    seq![
        Desc { depth: child, tag: "\"frame time\"", kind: ValueKind::KU64, slot: 0 },
        Desc { depth: child, tag: "delay", kind: ValueKind::KU64, slot: 1 },
        Desc { depth: child, tag: "\"random start frame\"", kind: ValueKind::KFlag, slot: 2 },
        Desc { depth: child, tag: "\"no repeat\"", kind: ValueKind::KFlag, slot: 3 },
        Desc { depth: child, tag: "\"frame rate\"", kind: ValueKind::KDec, slot: 4 },
    ]
}

/// Builds the executable [`sprite_descs`] table.
fn sprite_desc_vec(child: usize) -> (r: Vec<Desc>)
    ensures
        r@ == sprite_descs(child),
{
    let mut r: Vec<Desc> = Vec::new();
    r.push(Desc { depth: child, tag: "\"frame time\"", kind: ValueKind::KU64, slot: 0 });
    r.push(Desc { depth: child, tag: "delay", kind: ValueKind::KU64, slot: 1 });
    r.push(Desc { depth: child, tag: "\"random start frame\"", kind: ValueKind::KFlag, slot: 2 });
    r.push(Desc { depth: child, tag: "\"no repeat\"", kind: ValueKind::KFlag, slot: 3 });
    r.push(Desc { depth: child, tag: "\"frame rate\"", kind: ValueKind::KDec, slot: 4 });
    proof {
        assert(r@ =~= sprite_descs(child));
    }
    r
}

/// A sprite block: its header line (at depth `child - 1`, under the tag
/// the owning record uses) names the resource; animation sub-fields may
/// follow at depth `child`.  With no sub-field the sprite is simple.
#[verifier::opaque]
pub open spec fn spec_sprite(tag: Seq<char>, child: usize, s: Seq<char>) -> SpecStep<SpriteV>
    recommends
        child >= 1,
{
    match spec_str_header((child - 1) as nat, tag, s) {
        SpecStep::Miss => SpecStep::Miss,
        SpecStep::Fatal(f) => SpecStep::Fatal(push_ctx(f, RecordKind::Sprite)),
        SpecStep::Hit(nh, name) => if 1 <= nh <= s.len() {
            match spec_parse_fields(sprite_descs(child), s.skip(nh)) {
                FieldsRes::Fatal(f) => SpecStep::Fatal(
                    push_ctx(shift_err(f, nh), RecordKind::Sprite),
                ),
                FieldsRes::Items(nf, items) => {
                    let end = nh + nf;
                    if items.len() == 0 {
                        SpecStep::Hit(end, SpriteV::Simple(name))
                    } else {
                        match opt_u64_slot(items, 0) {
                            Option::Some(ft) if ft > u32::MAX => SpecStep::Fatal(
                                push_ctx(
                                    conv_fault("\"frame time\""@, end),
                                    RecordKind::Sprite,
                                ),
                            ),
                            _ => match opt_u64_slot(items, 1) {
                                Option::Some(dl) if dl > u32::MAX => SpecStep::Fatal(
                                    push_ctx(conv_fault("delay"@, end), RecordKind::Sprite),
                                ),
                                _ => SpecStep::Hit(
                                    end,
                                    SpriteV::Sprite {
                                        name: name,
                                        frame_time: match opt_u64_slot(items, 0) {
                                            Option::Some(ft) => Option::Some(ft as u32),
                                            Option::None => Option::None,
                                        },
                                        delay: match opt_u64_slot(items, 1) {
                                            Option::Some(dl) => Option::Some(dl as u32),
                                            Option::None => Option::None,
                                        },
                                        random_start_frame: flag_slot(items, 2),
                                        no_repeat: flag_slot(items, 3),
                                        frame_rate: opt_dec_slot(items, 4),
                                    },
                                ),
                            },
                        }
                    }
                },
            }
        } else {
            SpecStep::Miss
        },
    }
}

/// A sprite hit consumes at least one character and at most the whole
/// suffix.
pub proof fn lemma_spec_sprite_len(tag: Seq<char>, child: usize, s: Seq<char>)
    ensures
        spec_sprite(tag, child, s) matches SpecStep::Hit(n, _) ==> 1 <= n <= s.len(),
{
    reveal(spec_sprite);
    crate::records::common::lemma_spec_str_header_len((child - 1) as nat, tag, s);
    match spec_str_header((child - 1) as nat, tag, s) {
        SpecStep::Hit(nh, _) => {
            if 1 <= nh <= s.len() {
                crate::fields::lemma_spec_parse_fields_len(sprite_descs(child), s.skip(nh));
            }
        },
        _ => {},
    }
}

/// Executable twin of [`spec_sprite`].
#[verifier::rlimit(100)]
#[verifier::spinoff_prover]
pub fn parse_sprite(src: &str, v: &Vec<char>, pos: usize, child: usize, tag: &str) -> (r: Step<
    Sprite,
>)
    requires
        v@ == src@,
        pos <= v@.len(),
        child >= 1,
    ensures
        step_ok(r, spec_sprite(tag@, child, v@.skip(pos as int)), pos as int),
        r matches Step::Hit(n, _) ==> pos + n <= v@.len(),
{
    proof {
        reveal(spec_sprite);
    }
    let ghost s = v@.skip(pos as int);
    let vlen = v.len();
    let (nh, name) = match str_header_tok(src, v, pos, child - 1, tag) {
        Step::Miss => {
            return Step::Miss;
        },
        Step::Fatal(e) => {
            return Step::Fatal(e.with_ctx(RecordKind::Sprite));
        },
        Step::Hit(nh, name) => (nh, name),
    };
    proof {
        crate::records::common::lemma_spec_str_header_len((child - 1) as nat, tag@, s);
        assert(v@.skip((pos + nh) as int) == s.skip(nh as int));
    }
    let descs = sprite_desc_vec(child);
    let (nf, items) = match parse_fields(src, v, pos + nh, &descs) {
        Result::Err(e) => {
            return Step::Fatal(e.with_ctx(RecordKind::Sprite));
        },
        Result::Ok(x) => x,
    };
    let end = pos + nh + nf;
    if items.len() == 0 {
        proof {
            assert(crate::fields::vitems(items@).len() == 0);
        }
        return Step::Hit(nh + nf, Sprite::Simple(name));
    }
    proof {
        assert(crate::fields::vitems(items@).len() != 0);
    }
    let frame_time = match take_u64(&items, 0) {
        Option::Some(ft) => {
            if ft > 0xffffffffu64 {
                return Step::Fatal(
                    conv_fault_err("\"frame time\"", end).with_ctx(RecordKind::Sprite),
                );
            }
            Option::Some(ft as u32)
        },
        Option::None => Option::None,
    };
    let delay = match take_u64(&items, 1) {
        Option::Some(dl) => {
            if dl > 0xffffffffu64 {
                return Step::Fatal(conv_fault_err("delay", end).with_ctx(RecordKind::Sprite));
            }
            Option::Some(dl as u32)
        },
        Option::None => Option::None,
    };
    Step::Hit(
        nh + nf,
        Sprite::Sprite {
            name: name,
            frame_time: frame_time,
            delay: delay,
            random_start_frame: take_flag(&items, 2),
            no_repeat: take_flag(&items, 3),
            frame_rate: take_dec(&items, 4),
        },
    )
}

/// The leaf-field table of an effect.
pub open spec fn effect_descs() -> Seq<Desc> {
    seq![
        Desc { depth: 1, tag: "sound", kind: ValueKind::KStr, slot: 0 },
        Desc { depth: 1, tag: "\"lifetime\"", kind: ValueKind::KDec, slot: 1 },
        Desc { depth: 1, tag: "\"random angle\"", kind: ValueKind::KDec, slot: 2 },
        Desc { depth: 1, tag: "\"random spin\"", kind: ValueKind::KDec, slot: 3 },
        Desc { depth: 1, tag: "\"random velocity\"", kind: ValueKind::KDec, slot: 4 },
        Desc { depth: 1, tag: "\"velocity scale\"", kind: ValueKind::KDec, slot: 5 },
    ]
}

/// Builds the executable [`effect_descs`] table.
fn effect_desc_vec() -> (r: Vec<Desc>)
    ensures
        r@ == effect_descs(),
{
    let mut r: Vec<Desc> = Vec::new();
    r.push(Desc { depth: 1, tag: "sound", kind: ValueKind::KStr, slot: 0 });
    r.push(Desc { depth: 1, tag: "\"lifetime\"", kind: ValueKind::KDec, slot: 1 });
    r.push(Desc { depth: 1, tag: "\"random angle\"", kind: ValueKind::KDec, slot: 2 });
    r.push(Desc { depth: 1, tag: "\"random spin\"", kind: ValueKind::KDec, slot: 3 });
    r.push(Desc { depth: 1, tag: "\"random velocity\"", kind: ValueKind::KDec, slot: 4 });
    r.push(Desc { depth: 1, tag: "\"velocity scale\"", kind: ValueKind::KDec, slot: 5 });
    proof {
        assert(r@ =~= effect_descs());
    }
    r
}

/// The outcome of an effect body: the characters consumed, the leaf
/// items, and the last sprite block, or a fatal error.
pub enum EffectBody {
    Fatal(ErrV),
    Done(int, Seq<ItemV>, Option<SpriteV>),
}

/// The body of an effect: engine passes over the leaf-field table
/// alternate with sprite blocks until neither matches.
pub open spec fn spec_effect_body(s: Seq<char>) -> EffectBody
    decreases s.len(),
{
    match spec_parse_fields(effect_descs(), s) {
        FieldsRes::Fatal(f) => EffectBody::Fatal(f),
        FieldsRes::Items(n1, items1) => if 0 <= n1 <= s.len() {
            match spec_sprite("sprite"@, 2, s.skip(n1)) {
                SpecStep::Fatal(f) => EffectBody::Fatal(shift_err(f, n1)),
                SpecStep::Miss => EffectBody::Done(n1, items1, Option::None),
                SpecStep::Hit(n2, sp) => if 1 <= n2 <= s.len() - n1 {
                    match spec_effect_body(s.skip(n1 + n2)) {
                        EffectBody::Fatal(f) => EffectBody::Fatal(shift_err(f, n1 + n2)),
                        EffectBody::Done(m, items2, sp2) => EffectBody::Done(
                            n1 + n2 + m,
                            items1 + items2,
                            if sp2 is Some {
                                sp2
                            } else {
                                Option::Some(sp)
                            },
                        ),
                    }
                } else {
                    EffectBody::Done(n1, items1, Option::Some(sp))
                },
            }
        } else {
            EffectBody::Done(0, Seq::empty(), Option::None)
        },
    }
}

/// An effect body consumes at most the whole suffix.
pub proof fn lemma_spec_effect_body_len(s: Seq<char>)
    ensures
        spec_effect_body(s) matches EffectBody::Done(n, _, _) ==> 0 <= n <= s.len(),
    decreases s.len(),
{
    crate::fields::lemma_spec_parse_fields_len(effect_descs(), s);
    match spec_parse_fields(effect_descs(), s) {
        FieldsRes::Items(n1, items1) => {
            if 0 <= n1 <= s.len() {
                lemma_spec_sprite_len("sprite"@, 2, s.skip(n1));
                match spec_sprite("sprite"@, 2, s.skip(n1)) {
                    SpecStep::Hit(n2, _) => {
                        if 1 <= n2 <= s.len() - n1 {
                            lemma_spec_effect_body_len(s.skip(n1 + n2));
                        }
                    },
                    _ => {},
                }
            }
        },
        _ => {},
    }
}

/// Executable twin of [`spec_effect_body`].
#[verifier::rlimit(100)]
#[verifier::spinoff_prover]
fn effect_body(src: &str, v: &Vec<char>, start: usize) -> (r: Result<
    (usize, Vec<crate::fields::Item>, Option<Sprite>),
    StructuredError,
>)
    requires
        v@ == src@,
        start <= v@.len(),
    ensures
        match r {
            Result::Ok((n, items, sp)) => spec_effect_body(v@.skip(start as int))
                == EffectBody::Done(
                n as int,
                crate::fields::vitems(items@),
                match sp {
                    Option::None => Option::<SpriteV>::None,
                    Option::Some(x) => Option::Some(x@),
                },
            ) && start + n <= v@.len(),
            Result::Err(e) => spec_effect_body(v@.skip(start as int)) matches EffectBody::Fatal(f)
                && err_ok(e, f, start as int),
        },
{
    let ghost sb = v@.skip(start as int);
    let vlen = v.len();
    let descs = effect_desc_vec();
    let mut cur: usize = start;
    let mut items: Vec<crate::fields::Item> = Vec::new();
    let mut sprite: Option<Sprite> = Option::None;
    loop
        invariant
            v@ == src@,
            vlen == v@.len(),
            start <= cur <= v@.len(),
            sb == v@.skip(start as int),
            descs@ == effect_descs(),
            ({
                let spv = match sprite {
                    Option::None => Option::<SpriteV>::None,
                    Option::Some(x) => Option::Some(x@),
                };
                match spec_effect_body(v@.skip(cur as int)) {
                    EffectBody::Done(m, items2, sp2) => spec_effect_body(sb) == EffectBody::Done(
                        cur - start + m,
                        crate::fields::vitems(items@) + items2,
                        if sp2 is Some {
                            sp2
                        } else {
                            spv
                        },
                    ),
                    EffectBody::Fatal(f) => spec_effect_body(sb) == EffectBody::Fatal(
                        shift_err(f, cur - start),
                    ),
                }
            }),
        decreases v@.len() - cur,
    {
        let ghost scur = v@.skip(cur as int);
        let (n1, mut items1) = match parse_fields(src, v, cur, &descs) {
            Result::Err(e) => {
                return Result::Err(e);
            },
            Result::Ok(x) => x,
        };
        proof {
            crate::fields::lemma_spec_parse_fields_len(effect_descs(), scur);
            assert(v@.skip((cur + n1) as int) == scur.skip(n1 as int));
        }
        let ghost prev_items = crate::fields::vitems(items@);
        let ghost new_items = crate::fields::vitems(items1@);
        items.append(&mut items1);
        proof {
            assert(crate::fields::vitems(items@) =~= prev_items + new_items);
        }
        match parse_sprite(src, v, cur + n1, 2, "sprite") {
            Step::Fatal(e) => {
                return Result::Err(e);
            },
            Step::Miss => {
                proof {
                    assert((prev_items + new_items) + Seq::<ItemV>::empty() =~= (prev_items
                        + new_items));
                }
                return Result::Ok((cur + n1 - start, items, sprite));
            },
            Step::Hit(n2, sp) => {
                proof {
                    lemma_spec_sprite_len("sprite"@, 2, scur.skip(n1 as int));
                    assert(v@.skip((cur + n1 + n2) as int) == scur.skip(n1 + n2));
                    match spec_effect_body(scur.skip(n1 + n2)) {
                        EffectBody::Done(m3, items3, _) => {
                            assert((prev_items + (new_items + items3)) =~= ((prev_items
                                + new_items) + items3));
                        },
                        EffectBody::Fatal(_) => {},
                    }
                }
                sprite = Option::Some(sp);
                cur = cur + n1 + n2;
            },
        }
    }
}

/// An effect record: the header line naming it, then its body; the
/// sprite is mandatory, everything else optional.  The random-frame-rate
/// field of the data model has no grammar and stays at its default.
#[verifier::opaque]
pub open spec fn spec_parse_effect(s: Seq<char>) -> SpecStep<EffectV> {
    match spec_str_header(0, "effect"@, s) {
        SpecStep::Miss => SpecStep::Miss,
        SpecStep::Fatal(f) => SpecStep::Fatal(push_ctx(f, RecordKind::Effect)),
        SpecStep::Hit(nh, name) => if 1 <= nh <= s.len() {
            match spec_effect_body(s.skip(nh)) {
                EffectBody::Fatal(f) => SpecStep::Fatal(
                    push_ctx(shift_err(f, nh), RecordKind::Effect),
                ),
                EffectBody::Done(nb, items, sp) => {
                    let end = nh + nb;
                    match sp {
                        Option::None => SpecStep::Fatal(
                            push_ctx(missing_field("sprite"@, end), RecordKind::Effect),
                        ),
                        Option::Some(sprite) => SpecStep::Hit(
                            end,
                            EffectV {
                                name: name,
                                sprite: sprite,
                                sound: opt_str_slot(items, 0),
                                lifetime: opt_dec_slot(items, 1),
                                random_angle: opt_dec_slot(items, 2),
                                random_spin: opt_dec_slot(items, 3),
                                random_frame_rate: Option::None,
                                random_velocity: opt_dec_slot(items, 4),
                                velocity_scale: opt_dec_slot(items, 5),
                            },
                        ),
                    }
                },
            }
        } else {
            SpecStep::Miss
        },
    }
}

/// An effect hit consumes at least one character and at most the whole
/// suffix.
pub proof fn lemma_spec_parse_effect_len(s: Seq<char>)
    ensures
        spec_parse_effect(s) matches SpecStep::Hit(n, _) ==> 1 <= n <= s.len(),
{
    reveal(spec_parse_effect);
    crate::records::common::lemma_spec_str_header_len(0, "effect"@, s);
    match spec_str_header(0, "effect"@, s) {
        SpecStep::Hit(nh, _) => {
            if 1 <= nh <= s.len() {
                lemma_spec_effect_body_len(s.skip(nh));
            }
        },
        _ => {},
    }
}

/// Executable twin of [`spec_parse_effect`].
#[verifier::rlimit(100)]
#[verifier::spinoff_prover]
pub fn parse_effect(src: &str, v: &Vec<char>, pos: usize) -> (r: Step<Effect>)
    requires
        v@ == src@,
        pos <= v@.len(),
    ensures
        step_ok(r, spec_parse_effect(v@.skip(pos as int)), pos as int),
        r matches Step::Hit(n, _) ==> pos + n <= v@.len(),
{
    proof {
        reveal(spec_parse_effect);
    }
    let ghost s = v@.skip(pos as int);
    let vlen = v.len();
    let (nh, name) = match str_header_tok(src, v, pos, 0, "effect") {
        Step::Miss => {
            return Step::Miss;
        },
        Step::Fatal(e) => {
            return Step::Fatal(e.with_ctx(RecordKind::Effect));
        },
        Step::Hit(nh, name) => (nh, name),
    };
    proof {
        crate::records::common::lemma_spec_str_header_len(0, "effect"@, s);
        assert(v@.skip((pos + nh) as int) == s.skip(nh as int));
    }
    let (nb, items, sp) = match effect_body(src, v, pos + nh) {
        Result::Err(e) => {
            return Step::Fatal(e.with_ctx(RecordKind::Effect));
        },
        Result::Ok(x) => x,
    };
    let end = pos + nh + nb;
    let sprite = match sp {
        Option::None => {
            return Step::Fatal(missing_field_err("sprite", end).with_ctx(RecordKind::Effect));
        },
        Option::Some(x) => x,
    };
    Step::Hit(
        nh + nb,
        Effect {
            name: name,
            sprite: sprite,
            sound: take_str(&items, 0),
            lifetime: take_dec(&items, 1),
            random_angle: take_dec(&items, 2),
            random_spin: take_dec(&items, 3),
            random_frame_rate: Option::None,
            random_velocity: take_dec(&items, 4),
            velocity_scale: take_dec(&items, 5),
        },
    )
}

} // verus!
