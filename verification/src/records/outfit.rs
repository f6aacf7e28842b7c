//! The outfit record and its weapon sub-block.
//!
//! An outfit names itself on its header line; every field after it is
//! optional.  Most fields are single-line values from the leaf table;
//! the flare sprite and the weapon are sub-blocks.  A weapon block opens
//! with a bare `weapon` line; its own fields stand one level deeper and
//! include two sprite sub-blocks.  Integer values that do not fit the
//! width of their field are fatal conversion faults.

use vstd::prelude::*;

use crate::err::{
    err_ok, push_ctx, shift_err, step_ok, ErrV, RecordKind, SpecStep, Step, StructuredError,
};
use crate::fields::{parse_fields, spec_parse_fields, Desc, FieldsRes, ItemV, ValueKind};
use crate::records::common::{
    conv_fault, conv_fault_err, spec_bare_header, spec_str_header, bare_header_tok, str_header_tok,
};
use crate::records::effect::{lemma_spec_sprite_len, parse_sprite, spec_sprite};
use crate::slots::{
    flag_slot, opt_dec_list_slot, opt_dec_slot, opt_i64_slot, opt_str_opt_int_slot, opt_str_slot,
    opt_u64_slot, strs_slot, all_strs, take_dec, take_dec_list, take_flag, take_i64, take_str,
    take_str_opt_int, take_u64,
};
use crate::types::{
    Decimal, NamedCount, NamedCountV, Outfit, OutfitV, Sprite, SpriteV, Weapon, WeaponV,
};

verus! {

/// Whether the named count in `slot` holds an integer outside the 32-bit
/// range.
pub open spec fn nc_over(items: Seq<ItemV>, slot: int) -> bool {
    match opt_str_opt_int_slot(items, slot) {
        Option::Some((_, Option::Some(x))) => x > i32::MAX || x < i32::MIN,
        _ => false,
    }
}

/// The named count in `slot`, its integer narrowed to 32 bits.
pub open spec fn nc_of(items: Seq<ItemV>, slot: int) -> Option<NamedCountV> {
    match opt_str_opt_int_slot(items, slot) {
        Option::None => Option::None,
        Option::Some((c, Option::None)) => Option::Some(
            NamedCountV { name: c, count: Option::None },
        ),
        Option::Some((c, Option::Some(x))) => Option::Some(
            NamedCountV { name: c, count: Option::Some(x as i32) },
        ),
    }
}

/// Clones the named count in `slot`, or reports an integer outside the
/// 32-bit range.
fn nc_take(items: &Vec<crate::fields::Item>, slot: usize) -> (r: Result<Option<NamedCount>, ()>)
    ensures
        match r {
            Result::Ok(v) => !nc_over(crate::fields::vitems(items@), slot as int) && (match v {
                Option::None => nc_of(crate::fields::vitems(items@), slot as int) is None,
                Option::Some(x) => nc_of(crate::fields::vitems(items@), slot as int)
                    == Option::Some(x@),
            }),
            Result::Err(_) => nc_over(crate::fields::vitems(items@), slot as int),
        },
{
    match take_str_opt_int(items, slot) {
        Option::None => Result::Ok(Option::None),
        Option::Some((c, Option::None)) => Result::Ok(
            Option::Some(NamedCount { name: c, count: Option::None }),
        ),
        Option::Some((c, Option::Some(x))) => {
            if x > 0x7fffffffi64 || x < -0x80000000i64 {
                Result::Err(())
            } else {
                Result::Ok(Option::Some(NamedCount { name: c, count: Option::Some(x as i32) }))
            }
        },
    }
}

/// Whether the unsigned integer in `slot` exceeds 32 bits.
pub open spec fn u32_over(items: Seq<ItemV>, slot: int) -> bool {
    match opt_u64_slot(items, slot) {
        Option::Some(x) => x > u32::MAX,
        Option::None => false,
    }
}

/// Whether the optional unsigned integer in `slot` exceeds 32 bits.
pub open spec fn u32_opt_over(items: Seq<ItemV>, slot: int) -> bool {
    u32_over(items, slot)
}

/// The unsigned integer in `slot`, narrowed, zero when absent.
pub open spec fn u32_of(items: Seq<ItemV>, slot: int) -> u32 {
    match opt_u64_slot(items, slot) {
        Option::Some(x) => x as u32,
        Option::None => 0u32,
    }
}

/// The unsigned integer in `slot`, narrowed, where present.
pub open spec fn u32_opt_of(items: Seq<ItemV>, slot: int) -> Option<u32> {
    match opt_u64_slot(items, slot) {
        Option::Some(x) => Option::Some(x as u32),
        Option::None => Option::None,
    }
}

/// The narrowed unsigned integer in `slot`, or a report that it does not
/// fit 32 bits.
fn u32_take(items: &Vec<crate::fields::Item>, slot: usize) -> (r: Result<Option<u32>, ()>)
    ensures
        match r {
            Result::Ok(v) => !u32_over(crate::fields::vitems(items@), slot as int) && v
                == u32_opt_of(crate::fields::vitems(items@), slot as int),
            Result::Err(_) => u32_over(crate::fields::vitems(items@), slot as int),
        },
{
    match take_u64(items, slot) {
        Option::None => Result::Ok(Option::None),
        Option::Some(x) => {
            if x > 0xffffffffu64 {
                Result::Err(())
            } else {
                Result::Ok(Option::Some(x as u32))
            }
        },
    }
}

/// As [`u32_take`], with zero for an absent value.
fn u32_take_or_zero(items: &Vec<crate::fields::Item>, slot: usize) -> (r: Result<u32, ()>)
    ensures
        match r {
            Result::Ok(v) => !u32_over(crate::fields::vitems(items@), slot as int) && v == u32_of(
                crate::fields::vitems(items@),
                slot as int,
            ),
            Result::Err(_) => u32_over(crate::fields::vitems(items@), slot as int),
        },
{
    match u32_take(items, slot) {
        Result::Err(e) => Result::Err(e),
        Result::Ok(Option::None) => Result::Ok(0),
        Result::Ok(Option::Some(x)) => Result::Ok(x),
    }
}

/// Whether the signed integer in `slot` lies outside the 32-bit range.
pub open spec fn i32_over(items: Seq<ItemV>, slot: int) -> bool {
    match opt_i64_slot(items, slot) {
        Option::Some(x) => x > i32::MAX || x < i32::MIN,
        Option::None => false,
    }
}

/// The signed integer in `slot`, narrowed, where present.
pub open spec fn i32_of(items: Seq<ItemV>, slot: int) -> Option<i32> {
    match opt_i64_slot(items, slot) {
        Option::Some(x) => Option::Some(x as i32),
        Option::None => Option::None,
    }
}

/// The narrowed signed integer in `slot`, or a report that it does not
/// fit 32 bits.
fn i32_take(items: &Vec<crate::fields::Item>, slot: usize) -> (r: Result<Option<i32>, ()>)
    ensures
        match r {
            Result::Ok(v) => !i32_over(crate::fields::vitems(items@), slot as int) && v == i32_of(
                crate::fields::vitems(items@),
                slot as int,
            ),
            Result::Err(_) => i32_over(crate::fields::vitems(items@), slot as int),
        },
{
    match take_i64(items, slot) {
        Option::None => Result::Ok(Option::None),
        Option::Some(x) => {
            if x > 0x7fffffffi64 || x < -0x80000000i64 {
                Result::Err(())
            } else {
                Result::Ok(Option::Some(x as i32))
            }
        },
    }
}

/// The decimal in `slot`, zero when absent.
pub open spec fn dec_or_zero(items: Seq<ItemV>, slot: int) -> Decimal {
    match opt_dec_slot(items, slot) {
        Option::Some(d) => d,
        Option::None => Decimal { negative: false, int_part: 0u64, frac_part: 0u64, frac_len: 0u32 },
    }
}

/// Executable twin of [`dec_or_zero`].
fn dec_take_or_zero(items: &Vec<crate::fields::Item>, slot: usize) -> (r: Decimal)
    ensures
        r == dec_or_zero(crate::fields::vitems(items@), slot as int),
{
    match take_dec(items, slot) {
        Option::Some(d) => d,
        Option::None => Decimal { negative: false, int_part: 0, frac_part: 0, frac_len: 0 },
    }
}

/// The leaf-field table of a weapon block.
#[verifier::opaque]
pub open spec fn weapon_descs() -> Seq<Desc> {
    seq![
        Desc { depth: 2, tag: "\"hardpoint offset\"", kind: ValueKind::KDecList, slot: 0 },
        Desc { depth: 2, tag: "sound", kind: ValueKind::KStr, slot: 1 },
        Desc { depth: 2, tag: "ammo", kind: ValueKind::KStr, slot: 2 },
        Desc { depth: 2, tag: "icon", kind: ValueKind::KStr, slot: 3 },
        Desc { depth: 2, tag: "\"hit effect\"", kind: ValueKind::KStrOptInt, slot: 4 },
        Desc { depth: 2, tag: "\"fire effect\"", kind: ValueKind::KStrOptInt, slot: 5 },
        Desc { depth: 2, tag: "\"die effect\"", kind: ValueKind::KStrOptInt, slot: 6 },
        Desc { depth: 2, tag: "\"submunition\"", kind: ValueKind::KStrOptInt, slot: 7 },
        Desc { depth: 2, tag: "\"anti-missile\"", kind: ValueKind::KDec, slot: 8 },
        Desc { depth: 2, tag: "\"inaccuracy\"", kind: ValueKind::KDec, slot: 9 },
        Desc { depth: 2, tag: "\"turret turn\"", kind: ValueKind::KDec, slot: 10 },
        Desc { depth: 2, tag: "\"velocity\"", kind: ValueKind::KDec, slot: 11 },
        Desc { depth: 2, tag: "\"lifetime\"", kind: ValueKind::KDec, slot: 12 },
        Desc { depth: 2, tag: "\"random velocity\"", kind: ValueKind::KDec, slot: 13 },
        Desc { depth: 2, tag: "\"random lifetime\"", kind: ValueKind::KDec, slot: 14 },
        Desc { depth: 2, tag: "\"reload\"", kind: ValueKind::KDec, slot: 15 },
        Desc { depth: 2, tag: "\"firing energy\"", kind: ValueKind::KDec, slot: 16 },
        Desc { depth: 2, tag: "\"firing force\"", kind: ValueKind::KDec, slot: 17 },
        Desc { depth: 2, tag: "\"firing fuel\"", kind: ValueKind::KDec, slot: 18 },
        Desc { depth: 2, tag: "\"firing heat\"", kind: ValueKind::KDec, slot: 19 },
        Desc { depth: 2, tag: "\"hit force\"", kind: ValueKind::KDec, slot: 20 },
        Desc { depth: 2, tag: "\"shield damage\"", kind: ValueKind::KDec, slot: 21 },
        Desc { depth: 2, tag: "\"hull damage\"", kind: ValueKind::KDec, slot: 22 },
        Desc { depth: 2, tag: "\"heat damage\"", kind: ValueKind::KDec, slot: 23 },
        Desc { depth: 2, tag: "\"acceleration\"", kind: ValueKind::KDec, slot: 24 },
        Desc { depth: 2, tag: "\"drag\"", kind: ValueKind::KDec, slot: 25 },
        Desc { depth: 2, tag: "\"turn\"", kind: ValueKind::KDec, slot: 26 },
        Desc { depth: 2, tag: "\"homing\"", kind: ValueKind::KDec, slot: 27 },
        Desc { depth: 2, tag: "\"infrared tracking\"", kind: ValueKind::KDec, slot: 28 },
        Desc { depth: 2, tag: "\"radar tracking\"", kind: ValueKind::KDec, slot: 29 },
        Desc { depth: 2, tag: "\"optical tracking\"", kind: ValueKind::KDec, slot: 30 },
        Desc { depth: 2, tag: "\"trigger radius\"", kind: ValueKind::KDec, slot: 31 },
        Desc { depth: 2, tag: "\"blast radius\"", kind: ValueKind::KDec, slot: 32 },
        Desc { depth: 2, tag: "\"missile strength\"", kind: ValueKind::KDec, slot: 33 },
        Desc { depth: 2, tag: "stream", kind: ValueKind::KFlag, slot: 34 },
        Desc { depth: 2, tag: "\"cluster\"", kind: ValueKind::KFlag, slot: 35 },
        Desc { depth: 2, tag: "\"burst count\"", kind: ValueKind::KU64, slot: 36 },
        Desc { depth: 2, tag: "\"burst reload\"", kind: ValueKind::KU64, slot: 37 },
    ]
}

/// Builds the executable [`weapon_descs`] table.
fn weapon_desc_vec() -> (r: Vec<Desc>)
    ensures
        r@ == weapon_descs(),
{
    proof {
        reveal(weapon_descs);
    }
    let r: Vec<Desc> = vec![
        Desc { depth: 2, tag: "\"hardpoint offset\"", kind: ValueKind::KDecList, slot: 0 },
        Desc { depth: 2, tag: "sound", kind: ValueKind::KStr, slot: 1 },
        Desc { depth: 2, tag: "ammo", kind: ValueKind::KStr, slot: 2 },
        Desc { depth: 2, tag: "icon", kind: ValueKind::KStr, slot: 3 },
        Desc { depth: 2, tag: "\"hit effect\"", kind: ValueKind::KStrOptInt, slot: 4 },
        Desc { depth: 2, tag: "\"fire effect\"", kind: ValueKind::KStrOptInt, slot: 5 },
        Desc { depth: 2, tag: "\"die effect\"", kind: ValueKind::KStrOptInt, slot: 6 },
        Desc { depth: 2, tag: "\"submunition\"", kind: ValueKind::KStrOptInt, slot: 7 },
        Desc { depth: 2, tag: "\"anti-missile\"", kind: ValueKind::KDec, slot: 8 },
        Desc { depth: 2, tag: "\"inaccuracy\"", kind: ValueKind::KDec, slot: 9 },
        Desc { depth: 2, tag: "\"turret turn\"", kind: ValueKind::KDec, slot: 10 },
        Desc { depth: 2, tag: "\"velocity\"", kind: ValueKind::KDec, slot: 11 },
        Desc { depth: 2, tag: "\"lifetime\"", kind: ValueKind::KDec, slot: 12 },
        Desc { depth: 2, tag: "\"random velocity\"", kind: ValueKind::KDec, slot: 13 },
        Desc { depth: 2, tag: "\"random lifetime\"", kind: ValueKind::KDec, slot: 14 },
        Desc { depth: 2, tag: "\"reload\"", kind: ValueKind::KDec, slot: 15 },
        Desc { depth: 2, tag: "\"firing energy\"", kind: ValueKind::KDec, slot: 16 },
        Desc { depth: 2, tag: "\"firing force\"", kind: ValueKind::KDec, slot: 17 },
        Desc { depth: 2, tag: "\"firing fuel\"", kind: ValueKind::KDec, slot: 18 },
        Desc { depth: 2, tag: "\"firing heat\"", kind: ValueKind::KDec, slot: 19 },
        Desc { depth: 2, tag: "\"hit force\"", kind: ValueKind::KDec, slot: 20 },
        Desc { depth: 2, tag: "\"shield damage\"", kind: ValueKind::KDec, slot: 21 },
        Desc { depth: 2, tag: "\"hull damage\"", kind: ValueKind::KDec, slot: 22 },
        Desc { depth: 2, tag: "\"heat damage\"", kind: ValueKind::KDec, slot: 23 },
        Desc { depth: 2, tag: "\"acceleration\"", kind: ValueKind::KDec, slot: 24 },
        Desc { depth: 2, tag: "\"drag\"", kind: ValueKind::KDec, slot: 25 },
        Desc { depth: 2, tag: "\"turn\"", kind: ValueKind::KDec, slot: 26 },
        Desc { depth: 2, tag: "\"homing\"", kind: ValueKind::KDec, slot: 27 },
        Desc { depth: 2, tag: "\"infrared tracking\"", kind: ValueKind::KDec, slot: 28 },
        Desc { depth: 2, tag: "\"radar tracking\"", kind: ValueKind::KDec, slot: 29 },
        Desc { depth: 2, tag: "\"optical tracking\"", kind: ValueKind::KDec, slot: 30 },
        Desc { depth: 2, tag: "\"trigger radius\"", kind: ValueKind::KDec, slot: 31 },
        Desc { depth: 2, tag: "\"blast radius\"", kind: ValueKind::KDec, slot: 32 },
        Desc { depth: 2, tag: "\"missile strength\"", kind: ValueKind::KDec, slot: 33 },
        Desc { depth: 2, tag: "stream", kind: ValueKind::KFlag, slot: 34 },
        Desc { depth: 2, tag: "\"cluster\"", kind: ValueKind::KFlag, slot: 35 },
        Desc { depth: 2, tag: "\"burst count\"", kind: ValueKind::KU64, slot: 36 },
        Desc { depth: 2, tag: "\"burst reload\"", kind: ValueKind::KU64, slot: 37 },
    ];
    proof {
        assert(r@ =~= weapon_descs());
    }
    r
}

/// The finalized weapon from its parsed items and sprite blocks, or the
/// conversion fault of the first value that does not fit its field.
pub open spec fn spec_finalize_weapon(
    items: Seq<ItemV>,
    sp: Option<SpriteV>,
    hp: Option<SpriteV>,
    end: int,
) -> SpecStep<WeaponV> {
    if nc_over(items, 4) {
        SpecStep::Fatal(conv_fault("\"hit effect\""@, end))
    } else
    if nc_over(items, 5) {
        SpecStep::Fatal(conv_fault("\"fire effect\""@, end))
    } else
    if nc_over(items, 6) {
        SpecStep::Fatal(conv_fault("\"die effect\""@, end))
    } else
    if nc_over(items, 7) {
        SpecStep::Fatal(conv_fault("\"submunition\""@, end))
    } else
    if u32_over(items, 36) {
        SpecStep::Fatal(conv_fault("\"burst count\""@, end))
    } else
    if u32_over(items, 37) {
        SpecStep::Fatal(conv_fault("\"burst reload\""@, end))
    } else
    {
        SpecStep::Hit(end, WeaponV {
                sprite: sp,
                hardpoint_sprite: hp,
                hardpoint_offset: opt_dec_list_slot(items, 0),
                sound: opt_str_slot(items, 1),
                ammo: opt_str_slot(items, 2),
                icon: opt_str_slot(items, 3),
                hit_effect: nc_of(items, 4),
                fire_effect: nc_of(items, 5),
                die_effect: nc_of(items, 6),
                submunition: nc_of(items, 7),
                anti_missile: opt_dec_slot(items, 8),
                inaccuracy: opt_dec_slot(items, 9),
                turret_turn: opt_dec_slot(items, 10),
                velocity: opt_dec_slot(items, 11),
                lifetime: opt_dec_slot(items, 12),
                random_velocity: opt_dec_slot(items, 13),
                random_lifetime: opt_dec_slot(items, 14),
                reload: opt_dec_slot(items, 15),
                firing_energy: opt_dec_slot(items, 16),
                firing_force: opt_dec_slot(items, 17),
                firing_fuel: opt_dec_slot(items, 18),
                firing_heat: opt_dec_slot(items, 19),
                hit_force: opt_dec_slot(items, 20),
                shield_damage: opt_dec_slot(items, 21),
                hull_damage: opt_dec_slot(items, 22),
                heat_damage: opt_dec_slot(items, 23),
                acceleration: opt_dec_slot(items, 24),
                drag: opt_dec_slot(items, 25),
                turn: opt_dec_slot(items, 26),
                homing: opt_dec_slot(items, 27),
                infrared_tracking: opt_dec_slot(items, 28),
                radar_tracking: opt_dec_slot(items, 29),
                optical_tracking: opt_dec_slot(items, 30),
                trigger_radius: opt_dec_slot(items, 31),
                blast_radius: opt_dec_slot(items, 32),
                missile_strength: opt_dec_slot(items, 33),
                stream: flag_slot(items, 34),
                cluster: flag_slot(items, 35),
                burst_count: u32_opt_of(items, 36),
                burst_reload: u32_opt_of(items, 37),
        })
    }
}

/// Executable twin of [`spec_finalize_weapon`]; `end` is the absolute
/// position the fault of an ill-fitting value points at.
#[verifier::rlimit(100)]
#[verifier::spinoff_prover]
fn finalize_weapon(
    items: &Vec<crate::fields::Item>,
    sp: Option<Sprite>,
    hp: Option<Sprite>,
    end: usize,
) -> (r: Result<Weapon, StructuredError>)
    ensures
        ({
            let spv = match sp { Option::None => Option::<SpriteV>::None, Option::Some(x) => Option::Some(x@) };
            let hpv = match hp { Option::None => Option::<SpriteV>::None, Option::Some(x) => Option::Some(x@) };
            match r {
                Result::Ok(w) => spec_finalize_weapon(crate::fields::vitems(items@), spv, hpv, end as int)
                    == SpecStep::<WeaponV>::Hit(end as int, w@),
                Result::Err(e) => spec_finalize_weapon(crate::fields::vitems(items@), spv, hpv, end as int)
                    matches SpecStep::Fatal(f) && err_ok(e, f, 0),
            }
        }),
{
    let hit_effect = match nc_take(items, 4) {
        Result::Err(_) => {
            return Result::Err(conv_fault_err("\"hit effect\"", end));
        },
        Result::Ok(x) => x,
    };
    let fire_effect = match nc_take(items, 5) {
        Result::Err(_) => {
            return Result::Err(conv_fault_err("\"fire effect\"", end));
        },
        Result::Ok(x) => x,
    };
    let die_effect = match nc_take(items, 6) {
        Result::Err(_) => {
            return Result::Err(conv_fault_err("\"die effect\"", end));
        },
        Result::Ok(x) => x,
    };
    let submunition = match nc_take(items, 7) {
        Result::Err(_) => {
            return Result::Err(conv_fault_err("\"submunition\"", end));
        },
        Result::Ok(x) => x,
    };
    let burst_count = match u32_take(items, 36) {
        Result::Err(_) => {
            return Result::Err(conv_fault_err("\"burst count\"", end));
        },
        Result::Ok(x) => x,
    };
    let burst_reload = match u32_take(items, 37) {
        Result::Err(_) => {
            return Result::Err(conv_fault_err("\"burst reload\"", end));
        },
        Result::Ok(x) => x,
    };
    Result::Ok(Weapon {
        sprite: sp,
        hardpoint_sprite: hp,
        hardpoint_offset: take_dec_list(items, 0),
        sound: take_str(items, 1),
        ammo: take_str(items, 2),
        icon: take_str(items, 3),
        hit_effect: hit_effect,
        fire_effect: fire_effect,
        die_effect: die_effect,
        submunition: submunition,
        anti_missile: take_dec(items, 8),
        inaccuracy: take_dec(items, 9),
        turret_turn: take_dec(items, 10),
        velocity: take_dec(items, 11),
        lifetime: take_dec(items, 12),
        random_velocity: take_dec(items, 13),
        random_lifetime: take_dec(items, 14),
        reload: take_dec(items, 15),
        firing_energy: take_dec(items, 16),
        firing_force: take_dec(items, 17),
        firing_fuel: take_dec(items, 18),
        firing_heat: take_dec(items, 19),
        hit_force: take_dec(items, 20),
        shield_damage: take_dec(items, 21),
        hull_damage: take_dec(items, 22),
        heat_damage: take_dec(items, 23),
        acceleration: take_dec(items, 24),
        drag: take_dec(items, 25),
        turn: take_dec(items, 26),
        homing: take_dec(items, 27),
        infrared_tracking: take_dec(items, 28),
        radar_tracking: take_dec(items, 29),
        optical_tracking: take_dec(items, 30),
        trigger_radius: take_dec(items, 31),
        blast_radius: take_dec(items, 32),
        missile_strength: take_dec(items, 33),
        stream: take_flag(items, 34),
        cluster: take_flag(items, 35),
        burst_count: burst_count,
        burst_reload: burst_reload,
    })
}

/// The outcome of a weapon body: the characters consumed, the leaf
/// items, and the last sprite and hardpoint-sprite blocks, or a fatal
/// error.
pub enum WeaponBody {
    Fatal(ErrV),
    Done(int, Seq<ItemV>, Option<SpriteV>, Option<SpriteV>),
}

/// The body of a weapon block: engine passes over the leaf-field table
/// alternate with sprite and hardpoint-sprite blocks until none matches.
pub open spec fn spec_weapon_body(s: Seq<char>) -> WeaponBody
    decreases s.len(),
{
    match spec_parse_fields(weapon_descs(), s) {
        FieldsRes::Fatal(f) => WeaponBody::Fatal(f),
        FieldsRes::Items(n1, items1) => if 0 <= n1 <= s.len() {
            match spec_sprite("sprite"@, 3, s.skip(n1)) {
                SpecStep::Fatal(f) => WeaponBody::Fatal(shift_err(f, n1)),
                SpecStep::Hit(n2, sp) => if 1 <= n2 <= s.len() - n1 {
                    match spec_weapon_body(s.skip(n1 + n2)) {
                        WeaponBody::Fatal(f) => WeaponBody::Fatal(shift_err(f, n1 + n2)),
                        WeaponBody::Done(m, items2, sp2, hp2) => WeaponBody::Done(
                            n1 + n2 + m,
                            items1 + items2,
                            if sp2 is Some {
                                sp2
                            } else {
                                Option::Some(sp)
                            },
                            hp2,
                        ),
                    }
                } else {
                    WeaponBody::Done(n1, items1, Option::Some(sp), Option::None)
                },
                SpecStep::Miss => match spec_sprite("\"hardpoint sprite\""@, 3, s.skip(n1)) {
                    SpecStep::Fatal(f) => WeaponBody::Fatal(shift_err(f, n1)),
                    SpecStep::Hit(n2, hp) => if 1 <= n2 <= s.len() - n1 {
                        match spec_weapon_body(s.skip(n1 + n2)) {
                            WeaponBody::Fatal(f) => WeaponBody::Fatal(shift_err(f, n1 + n2)),
                            WeaponBody::Done(m, items2, sp2, hp2) => WeaponBody::Done(
                                n1 + n2 + m,
                                items1 + items2,
                                sp2,
                                if hp2 is Some {
                                    hp2
                                } else {
                                    Option::Some(hp)
                                },
                            ),
                        }
                    } else {
                        WeaponBody::Done(n1, items1, Option::None, Option::Some(hp))
                    },
                    SpecStep::Miss => WeaponBody::Done(n1, items1, Option::None, Option::None),
                },
            }
        } else {
            WeaponBody::Done(0, Seq::empty(), Option::None, Option::None)
        },
    }
}

/// A weapon body consumes at most the whole suffix.
pub proof fn lemma_spec_weapon_body_len(s: Seq<char>)
    ensures
        spec_weapon_body(s) matches WeaponBody::Done(n, _, _, _) ==> 0 <= n <= s.len(),
    decreases s.len(),
{
    crate::fields::lemma_spec_parse_fields_len(weapon_descs(), s);
    match spec_parse_fields(weapon_descs(), s) {
        FieldsRes::Items(n1, items1) => {
            if 0 <= n1 <= s.len() {
                lemma_spec_sprite_len("sprite"@, 3, s.skip(n1));
                lemma_spec_sprite_len("\"hardpoint sprite\""@, 3, s.skip(n1));
                match spec_sprite("sprite"@, 3, s.skip(n1)) {
                    SpecStep::Hit(n2, _) => {
                        if 1 <= n2 <= s.len() - n1 {
                            lemma_spec_weapon_body_len(s.skip(n1 + n2));
                        }
                    },
                    SpecStep::Miss => {
                        match spec_sprite("\"hardpoint sprite\""@, 3, s.skip(n1)) {
                            SpecStep::Hit(n2, _) => {
                                if 1 <= n2 <= s.len() - n1 {
                                    lemma_spec_weapon_body_len(s.skip(n1 + n2));
                                }
                            },
                            _ => {},
                        }
                    },
                    _ => {},
                }
            }
        },
        _ => {},
    }
}

/// Executable twin of [`spec_weapon_body`].
#[verifier::rlimit(100)]
#[verifier::spinoff_prover]
fn weapon_body(src: &str, v: &Vec<char>, start: usize) -> (r: Result<
    (usize, Vec<crate::fields::Item>, Option<Sprite>, Option<Sprite>),
    StructuredError,
>)
    requires
        v@ == src@,
        start <= v@.len(),
    ensures
        match r {
            Result::Ok((n, items, sp, hp)) => spec_weapon_body(v@.skip(start as int))
                == WeaponBody::Done(
                n as int,
                crate::fields::vitems(items@),
                match sp {
                    Option::None => Option::<SpriteV>::None,
                    Option::Some(x) => Option::Some(x@),
                },
                match hp {
                    Option::None => Option::<SpriteV>::None,
                    Option::Some(x) => Option::Some(x@),
                },
            ) && start + n <= v@.len(),
            Result::Err(e) => spec_weapon_body(v@.skip(start as int)) matches WeaponBody::Fatal(f)
                && err_ok(e, f, start as int),
        },
{
    let ghost sb = v@.skip(start as int);
    let vlen = v.len();
    let descs = weapon_desc_vec();
    let mut cur: usize = start;
    let mut items: Vec<crate::fields::Item> = Vec::new();
    let mut sprite: Option<Sprite> = Option::None;
    let mut hardpoint: Option<Sprite> = Option::None;
    loop
        invariant
            v@ == src@,
            vlen == v@.len(),
            start <= cur <= v@.len(),
            sb == v@.skip(start as int),
            descs@ == weapon_descs(),
            ({
                let spv = match sprite {
                    Option::None => Option::<SpriteV>::None,
                    Option::Some(x) => Option::Some(x@),
                };
                let hpv = match hardpoint {
                    Option::None => Option::<SpriteV>::None,
                    Option::Some(x) => Option::Some(x@),
                };
                match spec_weapon_body(v@.skip(cur as int)) {
                    WeaponBody::Done(m, items2, sp2, hp2) => spec_weapon_body(sb)
                        == WeaponBody::Done(
                        cur - start + m,
                        crate::fields::vitems(items@) + items2,
                        if sp2 is Some {
                            sp2
                        } else {
                            spv
                        },
                        if hp2 is Some {
                            hp2
                        } else {
                            hpv
                        },
                    ),
                    WeaponBody::Fatal(f) => spec_weapon_body(sb) == WeaponBody::Fatal(
                        shift_err(f, cur - start),
                    ),
                }
            }),
        decreases v@.len() - cur,
    {
        let ghost scur = v@.skip(cur as int);
        let (n1, mut items1) = match parse_fields(src, v, cur, &descs) {
            Result::Err(e) => {
                return Result::Err(e);
            },
            Result::Ok(x) => x,
        };
        proof {
            crate::fields::lemma_spec_parse_fields_len(weapon_descs(), scur);
            assert(v@.skip((cur + n1) as int) == scur.skip(n1 as int));
        }
        let ghost prev_items = crate::fields::vitems(items@);
        let ghost new_items = crate::fields::vitems(items1@);
        items.append(&mut items1);
        proof {
            assert(crate::fields::vitems(items@) =~= prev_items + new_items);
        }
        match parse_sprite(src, v, cur + n1, 3, "sprite") {
            Step::Fatal(e) => {
                return Result::Err(e);
            },
            Step::Hit(n2, sp) => {
                proof {
                    lemma_spec_sprite_len("sprite"@, 3, scur.skip(n1 as int));
                    assert(v@.skip((cur + n1 + n2) as int) == scur.skip(n1 + n2));
                    match spec_weapon_body(scur.skip(n1 + n2)) {
                        WeaponBody::Done(m3, items3, _, _) => {
                            assert((prev_items + (new_items + items3)) =~= ((prev_items
                                + new_items) + items3));
                        },
                        WeaponBody::Fatal(_) => {},
                    }
                }
                sprite = Option::Some(sp);
                cur = cur + n1 + n2;
                continue ;
            },
            Step::Miss => {},
        }
        match parse_sprite(src, v, cur + n1, 3, "\"hardpoint sprite\"") {
            Step::Fatal(e) => {
                return Result::Err(e);
            },
            Step::Miss => {
                proof {
                    assert((prev_items + new_items) + Seq::<ItemV>::empty() =~= (prev_items
                        + new_items));
                }
                return Result::Ok((cur + n1 - start, items, sprite, hardpoint));
            },
            Step::Hit(n2, hp) => {
                proof {
                    lemma_spec_sprite_len("\"hardpoint sprite\""@, 3, scur.skip(n1 as int));
                    assert(v@.skip((cur + n1 + n2) as int) == scur.skip(n1 + n2));
                    match spec_weapon_body(scur.skip(n1 + n2)) {
                        WeaponBody::Done(m3, items3, _, _) => {
                            assert((prev_items + (new_items + items3)) =~= ((prev_items
                                + new_items) + items3));
                        },
                        WeaponBody::Fatal(_) => {},
                    }
                }
                hardpoint = Option::Some(hp);
                cur = cur + n1 + n2;
            },
        }
    }
}

/// A weapon block: a bare `weapon` header line at depth one, then its
/// body at depth two; every field is optional.
#[verifier::opaque]
pub open spec fn spec_weapon(s: Seq<char>) -> SpecStep<WeaponV> {
    match spec_bare_header(1, "weapon"@, s) {
        SpecStep::Miss => SpecStep::Miss,
        SpecStep::Fatal(f) => SpecStep::Fatal(push_ctx(f, RecordKind::Weapon)),
        SpecStep::Hit(nh, _) => if 1 <= nh <= s.len() {
            match spec_weapon_body(s.skip(nh)) {
                WeaponBody::Fatal(f) => SpecStep::Fatal(
                    push_ctx(shift_err(f, nh), RecordKind::Weapon),
                ),
                WeaponBody::Done(nb, items, sp, hp) => match spec_finalize_weapon(
                    items,
                    sp,
                    hp,
                    nh + nb,
                ) {
                    SpecStep::Fatal(f) => SpecStep::Fatal(push_ctx(f, RecordKind::Weapon)),
                    SpecStep::Hit(end, w) => SpecStep::Hit(end, w),
                    SpecStep::Miss => SpecStep::Miss,
                },
            }
        } else {
            SpecStep::Miss
        },
    }
}

/// A weapon hit consumes at least one character and at most the whole
/// suffix.
pub proof fn lemma_spec_weapon_len(s: Seq<char>)
    ensures
        spec_weapon(s) matches SpecStep::Hit(n, _) ==> 1 <= n <= s.len(),
{
    reveal(spec_weapon);
    crate::records::common::lemma_spec_bare_header_len(1, "weapon"@, s);
    match spec_bare_header(1, "weapon"@, s) {
        SpecStep::Hit(nh, _) => {
            if 1 <= nh <= s.len() {
                lemma_spec_weapon_body_len(s.skip(nh));
            }
        },
        _ => {},
    }
}

/// Executable twin of [`spec_weapon`].
#[verifier::rlimit(100)]
#[verifier::spinoff_prover]
pub fn parse_weapon(src: &str, v: &Vec<char>, pos: usize) -> (r: Step<Weapon>)
    requires
        v@ == src@,
        pos <= v@.len(),
    ensures
        step_ok(r, spec_weapon(v@.skip(pos as int)), pos as int),
        r matches Step::Hit(n, _) ==> pos + n <= v@.len(),
{
    proof {
        reveal(spec_weapon);
    }
    let ghost s = v@.skip(pos as int);
    let vlen = v.len();
    let nh = match bare_header_tok(v, pos, 1, "weapon") {
        Step::Miss => {
            return Step::Miss;
        },
        Step::Fatal(e) => {
            return Step::Fatal(e.with_ctx(RecordKind::Weapon));
        },
        Step::Hit(nh, _) => nh,
    };
    proof {
        crate::records::common::lemma_spec_bare_header_len(1, "weapon"@, s);
        assert(v@.skip((pos + nh) as int) == s.skip(nh as int));
    }
    let (nb, items, sp, hp) = match weapon_body(src, v, pos + nh) {
        Result::Err(e) => {
            return Step::Fatal(e.with_ctx(RecordKind::Weapon));
        },
        Result::Ok(x) => x,
    };
    match finalize_weapon(&items, sp, hp, nh + nb) {
        Result::Err(e) => Step::Fatal(e.shifted(pos).with_ctx(RecordKind::Weapon)),
        Result::Ok(w) => Step::Hit(nh + nb, w),
    }
}

/// The leaf-field table of an outfit.
#[verifier::opaque]
pub open spec fn outfit_descs() -> Seq<Desc> {
    seq![
        Desc { depth: 1, tag: "plural", kind: ValueKind::KStr, slot: 0 },
        Desc { depth: 1, tag: "category", kind: ValueKind::KStr, slot: 1 },
        Desc { depth: 1, tag: "cost", kind: ValueKind::KU64, slot: 2 },
        Desc { depth: 1, tag: "\"cost\"", kind: ValueKind::KU64, slot: 2 },
        Desc { depth: 1, tag: "unplunderable", kind: ValueKind::KU64, slot: 3 },
        Desc { depth: 1, tag: "\"unplunderable\"", kind: ValueKind::KU64, slot: 3 },
        Desc { depth: 1, tag: "thumbnail", kind: ValueKind::KStr, slot: 4 },
        Desc { depth: 1, tag: "\"mass\"", kind: ValueKind::KDec, slot: 5 },
        Desc { depth: 1, tag: "\"outfit space\"", kind: ValueKind::KDec, slot: 6 },
        Desc { depth: 1, tag: "\"cargo space\"", kind: ValueKind::KDec, slot: 7 },
        Desc { depth: 1, tag: "\"cooling\"", kind: ValueKind::KDec, slot: 8 },
        Desc { depth: 1, tag: "\"cooling inefficiency\"", kind: ValueKind::KDec, slot: 9 },
        Desc { depth: 1, tag: "\"heat dissipation\"", kind: ValueKind::KDec, slot: 10 },
        Desc { depth: 1, tag: "\"shield generation\"", kind: ValueKind::KDec, slot: 11 },
        Desc { depth: 1, tag: "\"shield energy\"", kind: ValueKind::KDec, slot: 12 },
        Desc { depth: 1, tag: "\"energy consumption\"", kind: ValueKind::KDec, slot: 13 },
        Desc { depth: 1, tag: "\"heat generation\"", kind: ValueKind::KDec, slot: 14 },
        Desc { depth: 1, tag: "\"radar jamming\"", kind: ValueKind::KDec, slot: 15 },
        Desc { depth: 1, tag: "\"ramscoop\"", kind: ValueKind::KDec, slot: 16 },
        Desc { depth: 1, tag: "\"jump speed\"", kind: ValueKind::KDec, slot: 17 },
        Desc { depth: 1, tag: "\"jump fuel\"", kind: ValueKind::KDec, slot: 18 },
        Desc { depth: 1, tag: "\"hyperdrive\"", kind: ValueKind::KDec, slot: 19 },
        Desc { depth: 1, tag: "\"scram drive\"", kind: ValueKind::KDec, slot: 20 },
        Desc { depth: 1, tag: "\"jump drive\"", kind: ValueKind::KDec, slot: 21 },
        Desc { depth: 1, tag: "\"cargo scan power\"", kind: ValueKind::KDec, slot: 22 },
        Desc { depth: 1, tag: "\"cargo scan speed\"", kind: ValueKind::KDec, slot: 23 },
        Desc { depth: 1, tag: "\"outfit scan power\"", kind: ValueKind::KDec, slot: 24 },
        Desc { depth: 1, tag: "\"outfit scan speed\"", kind: ValueKind::KDec, slot: 25 },
        Desc { depth: 1, tag: "\"asteroid scan power\"", kind: ValueKind::KDec, slot: 26 },
        Desc { depth: 1, tag: "\"tactical scan power\"", kind: ValueKind::KDec, slot: 27 },
        Desc { depth: 1, tag: "\"atmosphere scan\"", kind: ValueKind::KDec, slot: 28 },
        Desc { depth: 1, tag: "\"cloak\"", kind: ValueKind::KDec, slot: 29 },
        Desc { depth: 1, tag: "\"cloaking energy\"", kind: ValueKind::KDec, slot: 30 },
        Desc { depth: 1, tag: "\"cloaking fuel\"", kind: ValueKind::KDec, slot: 31 },
        Desc { depth: 1, tag: "\"bunks\"", kind: ValueKind::KDec, slot: 32 },
        Desc { depth: 1, tag: "\"required crew\"", kind: ValueKind::KDec, slot: 33 },
        Desc { depth: 1, tag: "\"fuel capacity\"", kind: ValueKind::KDec, slot: 34 },
        Desc { depth: 1, tag: "\"scan interference\"", kind: ValueKind::KDec, slot: 35 },
        Desc { depth: 1, tag: "\"capture attack\"", kind: ValueKind::KDec, slot: 36 },
        Desc { depth: 1, tag: "\"capture defense\"", kind: ValueKind::KDec, slot: 37 },
        Desc { depth: 1, tag: "\"illegal\"", kind: ValueKind::KDec, slot: 38 },
        Desc { depth: 1, tag: "\"map\"", kind: ValueKind::KDec, slot: 39 },
        Desc { depth: 1, tag: "\"weapon capacity\"", kind: ValueKind::KDec, slot: 40 },
        Desc { depth: 1, tag: "\"engine capacity\"", kind: ValueKind::KDec, slot: 41 },
        Desc { depth: 1, tag: "\"afterburner thrust\"", kind: ValueKind::KDec, slot: 42 },
        Desc { depth: 1, tag: "\"afterburner fuel\"", kind: ValueKind::KDec, slot: 43 },
        Desc { depth: 1, tag: "\"afterburner energy\"", kind: ValueKind::KDec, slot: 44 },
        Desc { depth: 1, tag: "\"afterburner heat\"", kind: ValueKind::KDec, slot: 45 },
        Desc { depth: 1, tag: "\"turn\"", kind: ValueKind::KDec, slot: 47 },
        Desc { depth: 1, tag: "\"turning energy\"", kind: ValueKind::KDec, slot: 48 },
        Desc { depth: 1, tag: "\"turning heat\"", kind: ValueKind::KDec, slot: 49 },
        Desc { depth: 1, tag: "\"thrust\"", kind: ValueKind::KDec, slot: 50 },
        Desc { depth: 1, tag: "\"thrusting energy\"", kind: ValueKind::KDec, slot: 51 },
        Desc { depth: 1, tag: "\"thrusting heat\"", kind: ValueKind::KDec, slot: 52 },
        Desc { depth: 1, tag: "\"reverse thrust\"", kind: ValueKind::KDec, slot: 53 },
        Desc { depth: 1, tag: "\"reverse thrusting energy\"", kind: ValueKind::KDec, slot: 54 },
        Desc { depth: 1, tag: "\"reverse thrusting heat\"", kind: ValueKind::KDec, slot: 55 },
        Desc { depth: 1, tag: "\"solar collection\"", kind: ValueKind::KDec, slot: 57 },
        Desc { depth: 1, tag: "\"energy generation\"", kind: ValueKind::KDec, slot: 58 },
        Desc { depth: 1, tag: "\"gun ports\"", kind: ValueKind::KDec, slot: 60 },
        Desc { depth: 1, tag: "\"afterburner effect\"", kind: ValueKind::KStr, slot: 46 },
        Desc { depth: 1, tag: "\"energy capacity\"", kind: ValueKind::KU64, slot: 56 },
        Desc { depth: 1, tag: "\"flare sound\"", kind: ValueKind::KStr, slot: 59 },
        Desc { depth: 1, tag: "\"turret mounts\"", kind: ValueKind::KI64, slot: 61 },
        Desc { depth: 1, tag: "ammo", kind: ValueKind::KStr, slot: 62 },
        Desc { depth: 1, tag: "\"gatling round capacity\"", kind: ValueKind::KI64, slot: 63 },
        Desc { depth: 1, tag: "\"javelin capacity\"", kind: ValueKind::KI64, slot: 64 },
        Desc { depth: 1, tag: "\"meteor capacity\"", kind: ValueKind::KI64, slot: 65 },
        Desc { depth: 1, tag: "\"rocket capacity\"", kind: ValueKind::KI64, slot: 66 },
        Desc { depth: 1, tag: "\"sidewinder capacity\"", kind: ValueKind::KI64, slot: 67 },
        Desc { depth: 1, tag: "\"torpedo capacity\"", kind: ValueKind::KI64, slot: 68 },
        Desc { depth: 1, tag: "\"typhoon capacity\"", kind: ValueKind::KI64, slot: 69 },
        Desc { depth: 1, tag: "description", kind: ValueKind::KStr, slot: 70 },
    ]
}

/// Builds the executable [`outfit_descs`] table.
fn outfit_desc_vec() -> (r: Vec<Desc>)
    ensures
        r@ == outfit_descs(),
{
    proof {
        reveal(outfit_descs);
    }
    let r: Vec<Desc> = vec![
        Desc { depth: 1, tag: "plural", kind: ValueKind::KStr, slot: 0 },
        Desc { depth: 1, tag: "category", kind: ValueKind::KStr, slot: 1 },
        Desc { depth: 1, tag: "cost", kind: ValueKind::KU64, slot: 2 },
        Desc { depth: 1, tag: "\"cost\"", kind: ValueKind::KU64, slot: 2 },
        Desc { depth: 1, tag: "unplunderable", kind: ValueKind::KU64, slot: 3 },
        Desc { depth: 1, tag: "\"unplunderable\"", kind: ValueKind::KU64, slot: 3 },
        Desc { depth: 1, tag: "thumbnail", kind: ValueKind::KStr, slot: 4 },
        Desc { depth: 1, tag: "\"mass\"", kind: ValueKind::KDec, slot: 5 },
        Desc { depth: 1, tag: "\"outfit space\"", kind: ValueKind::KDec, slot: 6 },
        Desc { depth: 1, tag: "\"cargo space\"", kind: ValueKind::KDec, slot: 7 },
        Desc { depth: 1, tag: "\"cooling\"", kind: ValueKind::KDec, slot: 8 },
        Desc { depth: 1, tag: "\"cooling inefficiency\"", kind: ValueKind::KDec, slot: 9 },
        Desc { depth: 1, tag: "\"heat dissipation\"", kind: ValueKind::KDec, slot: 10 },
        Desc { depth: 1, tag: "\"shield generation\"", kind: ValueKind::KDec, slot: 11 },
        Desc { depth: 1, tag: "\"shield energy\"", kind: ValueKind::KDec, slot: 12 },
        Desc { depth: 1, tag: "\"energy consumption\"", kind: ValueKind::KDec, slot: 13 },
        Desc { depth: 1, tag: "\"heat generation\"", kind: ValueKind::KDec, slot: 14 },
        Desc { depth: 1, tag: "\"radar jamming\"", kind: ValueKind::KDec, slot: 15 },
        Desc { depth: 1, tag: "\"ramscoop\"", kind: ValueKind::KDec, slot: 16 },
        Desc { depth: 1, tag: "\"jump speed\"", kind: ValueKind::KDec, slot: 17 },
        Desc { depth: 1, tag: "\"jump fuel\"", kind: ValueKind::KDec, slot: 18 },
        Desc { depth: 1, tag: "\"hyperdrive\"", kind: ValueKind::KDec, slot: 19 },
        Desc { depth: 1, tag: "\"scram drive\"", kind: ValueKind::KDec, slot: 20 },
        Desc { depth: 1, tag: "\"jump drive\"", kind: ValueKind::KDec, slot: 21 },
        Desc { depth: 1, tag: "\"cargo scan power\"", kind: ValueKind::KDec, slot: 22 },
        Desc { depth: 1, tag: "\"cargo scan speed\"", kind: ValueKind::KDec, slot: 23 },
        Desc { depth: 1, tag: "\"outfit scan power\"", kind: ValueKind::KDec, slot: 24 },
        Desc { depth: 1, tag: "\"outfit scan speed\"", kind: ValueKind::KDec, slot: 25 },
        Desc { depth: 1, tag: "\"asteroid scan power\"", kind: ValueKind::KDec, slot: 26 },
        Desc { depth: 1, tag: "\"tactical scan power\"", kind: ValueKind::KDec, slot: 27 },
        Desc { depth: 1, tag: "\"atmosphere scan\"", kind: ValueKind::KDec, slot: 28 },
        Desc { depth: 1, tag: "\"cloak\"", kind: ValueKind::KDec, slot: 29 },
        Desc { depth: 1, tag: "\"cloaking energy\"", kind: ValueKind::KDec, slot: 30 },
        Desc { depth: 1, tag: "\"cloaking fuel\"", kind: ValueKind::KDec, slot: 31 },
        Desc { depth: 1, tag: "\"bunks\"", kind: ValueKind::KDec, slot: 32 },
        Desc { depth: 1, tag: "\"required crew\"", kind: ValueKind::KDec, slot: 33 },
        Desc { depth: 1, tag: "\"fuel capacity\"", kind: ValueKind::KDec, slot: 34 },
        Desc { depth: 1, tag: "\"scan interference\"", kind: ValueKind::KDec, slot: 35 },
        Desc { depth: 1, tag: "\"capture attack\"", kind: ValueKind::KDec, slot: 36 },
        Desc { depth: 1, tag: "\"capture defense\"", kind: ValueKind::KDec, slot: 37 },
        Desc { depth: 1, tag: "\"illegal\"", kind: ValueKind::KDec, slot: 38 },
        Desc { depth: 1, tag: "\"map\"", kind: ValueKind::KDec, slot: 39 },
        Desc { depth: 1, tag: "\"weapon capacity\"", kind: ValueKind::KDec, slot: 40 },
        Desc { depth: 1, tag: "\"engine capacity\"", kind: ValueKind::KDec, slot: 41 },
        Desc { depth: 1, tag: "\"afterburner thrust\"", kind: ValueKind::KDec, slot: 42 },
        Desc { depth: 1, tag: "\"afterburner fuel\"", kind: ValueKind::KDec, slot: 43 },
        Desc { depth: 1, tag: "\"afterburner energy\"", kind: ValueKind::KDec, slot: 44 },
        Desc { depth: 1, tag: "\"afterburner heat\"", kind: ValueKind::KDec, slot: 45 },
        Desc { depth: 1, tag: "\"turn\"", kind: ValueKind::KDec, slot: 47 },
        Desc { depth: 1, tag: "\"turning energy\"", kind: ValueKind::KDec, slot: 48 },
        Desc { depth: 1, tag: "\"turning heat\"", kind: ValueKind::KDec, slot: 49 },
        Desc { depth: 1, tag: "\"thrust\"", kind: ValueKind::KDec, slot: 50 },
        Desc { depth: 1, tag: "\"thrusting energy\"", kind: ValueKind::KDec, slot: 51 },
        Desc { depth: 1, tag: "\"thrusting heat\"", kind: ValueKind::KDec, slot: 52 },
        Desc { depth: 1, tag: "\"reverse thrust\"", kind: ValueKind::KDec, slot: 53 },
        Desc { depth: 1, tag: "\"reverse thrusting energy\"", kind: ValueKind::KDec, slot: 54 },
        Desc { depth: 1, tag: "\"reverse thrusting heat\"", kind: ValueKind::KDec, slot: 55 },
        Desc { depth: 1, tag: "\"solar collection\"", kind: ValueKind::KDec, slot: 57 },
        Desc { depth: 1, tag: "\"energy generation\"", kind: ValueKind::KDec, slot: 58 },
        Desc { depth: 1, tag: "\"gun ports\"", kind: ValueKind::KDec, slot: 60 },
        Desc { depth: 1, tag: "\"afterburner effect\"", kind: ValueKind::KStr, slot: 46 },
        Desc { depth: 1, tag: "\"energy capacity\"", kind: ValueKind::KU64, slot: 56 },
        Desc { depth: 1, tag: "\"flare sound\"", kind: ValueKind::KStr, slot: 59 },
        Desc { depth: 1, tag: "\"turret mounts\"", kind: ValueKind::KI64, slot: 61 },
        Desc { depth: 1, tag: "ammo", kind: ValueKind::KStr, slot: 62 },
        Desc { depth: 1, tag: "\"gatling round capacity\"", kind: ValueKind::KI64, slot: 63 },
        Desc { depth: 1, tag: "\"javelin capacity\"", kind: ValueKind::KI64, slot: 64 },
        Desc { depth: 1, tag: "\"meteor capacity\"", kind: ValueKind::KI64, slot: 65 },
        Desc { depth: 1, tag: "\"rocket capacity\"", kind: ValueKind::KI64, slot: 66 },
        Desc { depth: 1, tag: "\"sidewinder capacity\"", kind: ValueKind::KI64, slot: 67 },
        Desc { depth: 1, tag: "\"torpedo capacity\"", kind: ValueKind::KI64, slot: 68 },
        Desc { depth: 1, tag: "\"typhoon capacity\"", kind: ValueKind::KI64, slot: 69 },
        Desc { depth: 1, tag: "description", kind: ValueKind::KStr, slot: 70 },
    ];
    proof {
        assert(r@ =~= outfit_descs());
    }
    r
}

/// The first conversion fault among an outfit's narrowed integer
/// fields, if any value does not fit its width.
pub open spec fn outfit_fault(items: Seq<ItemV>, end: int) -> Option<ErrV> {
    if u32_over(items, 2) {
        Option::Some(conv_fault("cost"@, end))
    } else if u32_over(items, 3) {
        Option::Some(conv_fault("unplunderable"@, end))
    } else if u32_over(items, 56) {
        Option::Some(conv_fault("\"energy capacity\""@, end))
    } else if i32_over(items, 61) {
        Option::Some(conv_fault("\"turret mounts\""@, end))
    } else if i32_over(items, 63) {
        Option::Some(conv_fault("\"gatling round capacity\""@, end))
    } else if i32_over(items, 64) {
        Option::Some(conv_fault("\"javelin capacity\""@, end))
    } else if i32_over(items, 65) {
        Option::Some(conv_fault("\"meteor capacity\""@, end))
    } else if i32_over(items, 66) {
        Option::Some(conv_fault("\"rocket capacity\""@, end))
    } else if i32_over(items, 67) {
        Option::Some(conv_fault("\"sidewinder capacity\""@, end))
    } else if i32_over(items, 68) {
        Option::Some(conv_fault("\"torpedo capacity\""@, end))
    } else if i32_over(items, 69) {
        Option::Some(conv_fault("\"typhoon capacity\""@, end))
    } else {
        Option::None
    }
}

/// The finalized outfit value, its integer fields narrowed.
pub open spec fn outfit_value(
    name: Seq<char>,
    items: Seq<ItemV>,
    flare: Option<SpriteV>,
    weapon: Option<WeaponV>,
) -> OutfitV {
    OutfitV {
                name: name,
                plural: opt_str_slot(items, 0),
                category: opt_str_slot(items, 1),
                cost: u32_of(items, 2),
                unplunderable: u32_of(items, 3),
                thumbnail: opt_str_slot(items, 4),
                mass: dec_or_zero(items, 5),
                outfit_space: dec_or_zero(items, 6),
                cargo_space: opt_dec_slot(items, 7),
                cooling: opt_dec_slot(items, 8),
                cooling_inefficiency: opt_dec_slot(items, 9),
                heat_dissipation: opt_dec_slot(items, 10),
                shield_generation: opt_dec_slot(items, 11),
                shield_energy: opt_dec_slot(items, 12),
                energy_consumption: opt_dec_slot(items, 13),
                heat_generation: opt_dec_slot(items, 14),
                radar_jamming: opt_dec_slot(items, 15),
                ramscoop: opt_dec_slot(items, 16),
                jump_speed: opt_dec_slot(items, 17),
                jump_fuel: opt_dec_slot(items, 18),
                hyperdrive: opt_dec_slot(items, 19),
                scram_drive: opt_dec_slot(items, 20),
                jump_drive: opt_dec_slot(items, 21),
                cargo_scan_power: opt_dec_slot(items, 22),
                cargo_scan_speed: opt_dec_slot(items, 23),
                outfit_scan_power: opt_dec_slot(items, 24),
                outfit_scan_speed: opt_dec_slot(items, 25),
                asteroid_scan_power: opt_dec_slot(items, 26),
                tactical_scan_power: opt_dec_slot(items, 27),
                atmosphere_scan: opt_dec_slot(items, 28),
                cloak: opt_dec_slot(items, 29),
                cloaking_energy: opt_dec_slot(items, 30),
                cloaking_fuel: opt_dec_slot(items, 31),
                bunks: opt_dec_slot(items, 32),
                required_crew: opt_dec_slot(items, 33),
                fuel_capacity: opt_dec_slot(items, 34),
                scan_interference: opt_dec_slot(items, 35),
                capture_attack: opt_dec_slot(items, 36),
                capture_defense: opt_dec_slot(items, 37),
                illegal: opt_dec_slot(items, 38),
                map_value: opt_dec_slot(items, 39),
                weapon_capacity: opt_dec_slot(items, 40),
                engine_capacity: opt_dec_slot(items, 41),
                afterburner_thrust: opt_dec_slot(items, 42),
                afterburner_fuel: opt_dec_slot(items, 43),
                afterburner_energy: opt_dec_slot(items, 44),
                afterburner_heat: opt_dec_slot(items, 45),
                turn: opt_dec_slot(items, 47),
                turning_energy: opt_dec_slot(items, 48),
                turning_heat: opt_dec_slot(items, 49),
                thrust: opt_dec_slot(items, 50),
                thrusting_energy: opt_dec_slot(items, 51),
                thrusting_heat: opt_dec_slot(items, 52),
                reverse_thrust: opt_dec_slot(items, 53),
                reverse_thrusting_energy: opt_dec_slot(items, 54),
                reverse_thrusting_heat: opt_dec_slot(items, 55),
                solar_collection: opt_dec_slot(items, 57),
                energy_generation: opt_dec_slot(items, 58),
                gun_ports: opt_dec_slot(items, 60),
                afterburner_effect: opt_str_slot(items, 46),
                energy_capacity: u32_opt_of(items, 56),
                flare_sprite: flare,
                flare_sound: opt_str_slot(items, 59),
                turret_mounts: i32_of(items, 61),
                weapon: weapon,
                ammo: opt_str_slot(items, 62),
                gatling_round_capacity: i32_of(items, 63),
                javelin_capacity: i32_of(items, 64),
                meteor_capacity: i32_of(items, 65),
                rocket_capacity: i32_of(items, 66),
                sidewinder_capacity: i32_of(items, 67),
                torpedo_capacity: i32_of(items, 68),
                typhoon_capacity: i32_of(items, 69),
                description: strs_slot(items, 70),
    }
}

/// The finalized outfit from its header name, parsed items, flare
/// sprite and weapon block, or the conversion fault of the first value
/// that does not fit its field.
pub open spec fn spec_finalize_outfit(
    name: Seq<char>,
    items: Seq<ItemV>,
    flare: Option<SpriteV>,
    weapon: Option<WeaponV>,
    end: int,
) -> SpecStep<OutfitV> {
    match outfit_fault(items, end) {
        Option::Some(f) => SpecStep::Fatal(f),
        Option::None => SpecStep::Hit(end, outfit_value(name, items, flare, weapon)),
    }
}

/// The narrowed integer fields of an outfit, gathered before the
/// record is built.
struct OutfitNarrows {
    cost: u32,
    unplunderable: u32,
    energy_capacity: Option<u32>,
    turret_mounts: Option<i32>,
    gatling_round_capacity: Option<i32>,
    javelin_capacity: Option<i32>,
    meteor_capacity: Option<i32>,
    rocket_capacity: Option<i32>,
    sidewinder_capacity: Option<i32>,
    torpedo_capacity: Option<i32>,
    typhoon_capacity: Option<i32>,
}

/// Performs every integer narrowing of an outfit, or reports the
/// first conversion fault; `end` is the offset the fault points at,
/// relative to the record's suffix.
#[verifier::rlimit(100)]
#[verifier::spinoff_prover]
fn outfit_narrows(items: &Vec<crate::fields::Item>, end: usize) -> (r: Result<
    OutfitNarrows,
    StructuredError,
>)
    ensures
        match r {
            Result::Ok(n) => outfit_fault(crate::fields::vitems(items@), end as int)
                is None && n.cost == u32_of(crate::fields::vitems(items@), 2)
                && n.unplunderable == u32_of(crate::fields::vitems(items@), 3)
                && n.energy_capacity == u32_opt_of(crate::fields::vitems(items@), 56)
                && n.turret_mounts == i32_of(crate::fields::vitems(items@), 61)
                && n.gatling_round_capacity == i32_of(crate::fields::vitems(items@), 63)
                && n.javelin_capacity == i32_of(crate::fields::vitems(items@), 64)
                && n.meteor_capacity == i32_of(crate::fields::vitems(items@), 65)
                && n.rocket_capacity == i32_of(crate::fields::vitems(items@), 66)
                && n.sidewinder_capacity == i32_of(crate::fields::vitems(items@), 67)
                && n.torpedo_capacity == i32_of(crate::fields::vitems(items@), 68)
                && n.typhoon_capacity == i32_of(crate::fields::vitems(items@), 69)
                ,
            Result::Err(e) => outfit_fault(crate::fields::vitems(items@), end as int)
                matches Option::Some(f) && err_ok(e, f, 0),
        },
{
    let cost = match u32_take_or_zero(items, 2) {
        Result::Err(_) => {
            return Result::Err(conv_fault_err("cost", end));
        },
        Result::Ok(x) => x,
    };
    let unplunderable = match u32_take_or_zero(items, 3) {
        Result::Err(_) => {
            return Result::Err(conv_fault_err("unplunderable", end));
        },
        Result::Ok(x) => x,
    };
    let energy_capacity = match u32_take(items, 56) {
        Result::Err(_) => {
            return Result::Err(conv_fault_err("\"energy capacity\"", end));
        },
        Result::Ok(x) => x,
    };
    let turret_mounts = match i32_take(items, 61) {
        Result::Err(_) => {
            return Result::Err(conv_fault_err("\"turret mounts\"", end));
        },
        Result::Ok(x) => x,
    };
    let gatling_round_capacity = match i32_take(items, 63) {
        Result::Err(_) => {
            return Result::Err(conv_fault_err("\"gatling round capacity\"", end));
        },
        Result::Ok(x) => x,
    };
    let javelin_capacity = match i32_take(items, 64) {
        Result::Err(_) => {
            return Result::Err(conv_fault_err("\"javelin capacity\"", end));
        },
        Result::Ok(x) => x,
    };
    let meteor_capacity = match i32_take(items, 65) {
        Result::Err(_) => {
            return Result::Err(conv_fault_err("\"meteor capacity\"", end));
        },
        Result::Ok(x) => x,
    };
    let rocket_capacity = match i32_take(items, 66) {
        Result::Err(_) => {
            return Result::Err(conv_fault_err("\"rocket capacity\"", end));
        },
        Result::Ok(x) => x,
    };
    let sidewinder_capacity = match i32_take(items, 67) {
        Result::Err(_) => {
            return Result::Err(conv_fault_err("\"sidewinder capacity\"", end));
        },
        Result::Ok(x) => x,
    };
    let torpedo_capacity = match i32_take(items, 68) {
        Result::Err(_) => {
            return Result::Err(conv_fault_err("\"torpedo capacity\"", end));
        },
        Result::Ok(x) => x,
    };
    let typhoon_capacity = match i32_take(items, 69) {
        Result::Err(_) => {
            return Result::Err(conv_fault_err("\"typhoon capacity\"", end));
        },
        Result::Ok(x) => x,
    };
    Result::Ok(OutfitNarrows {
        cost: cost,
        unplunderable: unplunderable,
        energy_capacity: energy_capacity,
        turret_mounts: turret_mounts,
        gatling_round_capacity: gatling_round_capacity,
        javelin_capacity: javelin_capacity,
        meteor_capacity: meteor_capacity,
        rocket_capacity: rocket_capacity,
        sidewinder_capacity: sidewinder_capacity,
        torpedo_capacity: torpedo_capacity,
        typhoon_capacity: typhoon_capacity,
    })
}

/// Executable twin of [`spec_finalize_outfit`]; `end` is the offset
/// a fault points at, relative to the record's suffix.
#[verifier::rlimit(100)]
#[verifier::spinoff_prover]
fn finalize_outfit(
    name: String,
    items: &Vec<crate::fields::Item>,
    flare: Option<Sprite>,
    weapon: Option<Weapon>,
    end: usize,
) -> (r: Result<Outfit, StructuredError>)
    ensures
        ({
            let flv = match flare { Option::None => Option::<SpriteV>::None, Option::Some(x) => Option::Some(x@) };
            let wv = match weapon { Option::None => Option::<WeaponV>::None, Option::Some(x) => Option::Some(x@) };
            match r {
                Result::Ok(o) => spec_finalize_outfit(name@, crate::fields::vitems(items@), flv, wv, end as int)
                    == SpecStep::<OutfitV>::Hit(end as int, o@),
                Result::Err(e) => spec_finalize_outfit(name@, crate::fields::vitems(items@), flv, wv, end as int)
                    matches SpecStep::Fatal(f) && err_ok(e, f, 0),
            }
        }),
{
    let nar = match outfit_narrows(items, end) {
        Result::Err(e) => {
            return Result::Err(e);
        },
        Result::Ok(x) => x,
    };
    Result::Ok(Outfit {
        name: name,
        plural: take_str(items, 0),
        category: take_str(items, 1),
        cost: nar.cost,
        unplunderable: nar.unplunderable,
        thumbnail: take_str(items, 4),
        mass: dec_take_or_zero(items, 5),
        outfit_space: dec_take_or_zero(items, 6),
        cargo_space: take_dec(items, 7),
        cooling: take_dec(items, 8),
        cooling_inefficiency: take_dec(items, 9),
        heat_dissipation: take_dec(items, 10),
        shield_generation: take_dec(items, 11),
        shield_energy: take_dec(items, 12),
        energy_consumption: take_dec(items, 13),
        heat_generation: take_dec(items, 14),
        radar_jamming: take_dec(items, 15),
        ramscoop: take_dec(items, 16),
        jump_speed: take_dec(items, 17),
        jump_fuel: take_dec(items, 18),
        hyperdrive: take_dec(items, 19),
        scram_drive: take_dec(items, 20),
        jump_drive: take_dec(items, 21),
        cargo_scan_power: take_dec(items, 22),
        cargo_scan_speed: take_dec(items, 23),
        outfit_scan_power: take_dec(items, 24),
        outfit_scan_speed: take_dec(items, 25),
        asteroid_scan_power: take_dec(items, 26),
        tactical_scan_power: take_dec(items, 27),
        atmosphere_scan: take_dec(items, 28),
        cloak: take_dec(items, 29),
        cloaking_energy: take_dec(items, 30),
        cloaking_fuel: take_dec(items, 31),
        bunks: take_dec(items, 32),
        required_crew: take_dec(items, 33),
        fuel_capacity: take_dec(items, 34),
        scan_interference: take_dec(items, 35),
        capture_attack: take_dec(items, 36),
        capture_defense: take_dec(items, 37),
        illegal: take_dec(items, 38),
        map_value: take_dec(items, 39),
        weapon_capacity: take_dec(items, 40),
        engine_capacity: take_dec(items, 41),
        afterburner_thrust: take_dec(items, 42),
        afterburner_fuel: take_dec(items, 43),
        afterburner_energy: take_dec(items, 44),
        afterburner_heat: take_dec(items, 45),
        turn: take_dec(items, 47),
        turning_energy: take_dec(items, 48),
        turning_heat: take_dec(items, 49),
        thrust: take_dec(items, 50),
        thrusting_energy: take_dec(items, 51),
        thrusting_heat: take_dec(items, 52),
        reverse_thrust: take_dec(items, 53),
        reverse_thrusting_energy: take_dec(items, 54),
        reverse_thrusting_heat: take_dec(items, 55),
        solar_collection: take_dec(items, 57),
        energy_generation: take_dec(items, 58),
        gun_ports: take_dec(items, 60),
        afterburner_effect: take_str(items, 46),
        energy_capacity: nar.energy_capacity,
        flare_sprite: flare,
        flare_sound: take_str(items, 59),
        turret_mounts: nar.turret_mounts,
        weapon: weapon,
        ammo: take_str(items, 62),
        gatling_round_capacity: nar.gatling_round_capacity,
        javelin_capacity: nar.javelin_capacity,
        meteor_capacity: nar.meteor_capacity,
        rocket_capacity: nar.rocket_capacity,
        sidewinder_capacity: nar.sidewinder_capacity,
        torpedo_capacity: nar.torpedo_capacity,
        typhoon_capacity: nar.typhoon_capacity,
        description: all_strs(items, 70),
    })
}

/// The outcome of an outfit body: the characters consumed, the leaf
/// items, and the last flare-sprite and weapon blocks, or a fatal error.
pub enum OutfitBody {
    Fatal(ErrV),
    Done(int, Seq<ItemV>, Option<SpriteV>, Option<WeaponV>),
}

/// The body of an outfit: engine passes over the leaf-field table
/// alternate with flare-sprite and weapon blocks until none matches.
pub open spec fn spec_outfit_body(s: Seq<char>) -> OutfitBody
    decreases s.len(),
{
    match spec_parse_fields(outfit_descs(), s) {
        FieldsRes::Fatal(f) => OutfitBody::Fatal(f),
        FieldsRes::Items(n1, items1) => if 0 <= n1 <= s.len() {
            match spec_sprite("\"flare sprite\""@, 2, s.skip(n1)) {
                SpecStep::Fatal(f) => OutfitBody::Fatal(shift_err(f, n1)),
                SpecStep::Hit(n2, fl) => if 1 <= n2 <= s.len() - n1 {
                    match spec_outfit_body(s.skip(n1 + n2)) {
                        OutfitBody::Fatal(f) => OutfitBody::Fatal(shift_err(f, n1 + n2)),
                        OutfitBody::Done(m, items2, fl2, w2) => OutfitBody::Done(
                            n1 + n2 + m,
                            items1 + items2,
                            if fl2 is Some {
                                fl2
                            } else {
                                Option::Some(fl)
                            },
                            w2,
                        ),
                    }
                } else {
                    OutfitBody::Done(n1, items1, Option::Some(fl), Option::None)
                },
                SpecStep::Miss => match spec_weapon(s.skip(n1)) {
                    SpecStep::Fatal(f) => OutfitBody::Fatal(shift_err(f, n1)),
                    SpecStep::Hit(n2, w) => if 1 <= n2 <= s.len() - n1 {
                        match spec_outfit_body(s.skip(n1 + n2)) {
                            OutfitBody::Fatal(f) => OutfitBody::Fatal(shift_err(f, n1 + n2)),
                            OutfitBody::Done(m, items2, fl2, w2) => OutfitBody::Done(
                                n1 + n2 + m,
                                items1 + items2,
                                fl2,
                                if w2 is Some {
                                    w2
                                } else {
                                    Option::Some(w)
                                },
                            ),
                        }
                    } else {
                        OutfitBody::Done(n1, items1, Option::None, Option::Some(w))
                    },
                    SpecStep::Miss => OutfitBody::Done(n1, items1, Option::None, Option::None),
                },
            }
        } else {
            OutfitBody::Done(0, Seq::empty(), Option::None, Option::None)
        },
    }
}

/// An outfit body consumes at most the whole suffix.
pub proof fn lemma_spec_outfit_body_len(s: Seq<char>)
    ensures
        spec_outfit_body(s) matches OutfitBody::Done(n, _, _, _) ==> 0 <= n <= s.len(),
    decreases s.len(),
{
    crate::fields::lemma_spec_parse_fields_len(outfit_descs(), s);
    match spec_parse_fields(outfit_descs(), s) {
        FieldsRes::Items(n1, items1) => {
            if 0 <= n1 <= s.len() {
                lemma_spec_sprite_len("\"flare sprite\""@, 2, s.skip(n1));
                lemma_spec_weapon_len(s.skip(n1));
                match spec_sprite("\"flare sprite\""@, 2, s.skip(n1)) {
                    SpecStep::Hit(n2, _) => {
                        if 1 <= n2 <= s.len() - n1 {
                            lemma_spec_outfit_body_len(s.skip(n1 + n2));
                        }
                    },
                    SpecStep::Miss => {
                        match spec_weapon(s.skip(n1)) {
                            SpecStep::Hit(n2, _) => {
                                if 1 <= n2 <= s.len() - n1 {
                                    lemma_spec_outfit_body_len(s.skip(n1 + n2));
                                }
                            },
                            _ => {},
                        }
                    },
                    _ => {},
                }
            }
        },
        _ => {},
    }
}

/// Executable twin of [`spec_outfit_body`].
#[verifier::rlimit(100)]
#[verifier::spinoff_prover]
fn outfit_body(src: &str, v: &Vec<char>, start: usize) -> (r: Result<
    (usize, Vec<crate::fields::Item>, Option<Sprite>, Option<Weapon>),
    StructuredError,
>)
    requires
        v@ == src@,
        start <= v@.len(),
    ensures
        match r {
            Result::Ok((n, items, fl, w)) => spec_outfit_body(v@.skip(start as int))
                == OutfitBody::Done(
                n as int,
                crate::fields::vitems(items@),
                match fl {
                    Option::None => Option::<SpriteV>::None,
                    Option::Some(x) => Option::Some(x@),
                },
                match w {
                    Option::None => Option::<WeaponV>::None,
                    Option::Some(x) => Option::Some(x@),
                },
            ) && start + n <= v@.len(),
            Result::Err(e) => spec_outfit_body(v@.skip(start as int)) matches OutfitBody::Fatal(f)
                && err_ok(e, f, start as int),
        },
{
    let ghost sb = v@.skip(start as int);
    let vlen = v.len();
    let descs = outfit_desc_vec();
    let mut cur: usize = start;
    let mut items: Vec<crate::fields::Item> = Vec::new();
    let mut flare: Option<Sprite> = Option::None;
    let mut weapon: Option<Weapon> = Option::None;
    loop
        invariant
            v@ == src@,
            vlen == v@.len(),
            start <= cur <= v@.len(),
            sb == v@.skip(start as int),
            descs@ == outfit_descs(),
            ({
                let flv = match flare {
                    Option::None => Option::<SpriteV>::None,
                    Option::Some(x) => Option::Some(x@),
                };
                let wv = match weapon {
                    Option::None => Option::<WeaponV>::None,
                    Option::Some(x) => Option::Some(x@),
                };
                match spec_outfit_body(v@.skip(cur as int)) {
                    OutfitBody::Done(m, items2, fl2, w2) => spec_outfit_body(sb)
                        == OutfitBody::Done(
                        cur - start + m,
                        crate::fields::vitems(items@) + items2,
                        if fl2 is Some {
                            fl2
                        } else {
                            flv
                        },
                        if w2 is Some {
                            w2
                        } else {
                            wv
                        },
                    ),
                    OutfitBody::Fatal(f) => spec_outfit_body(sb) == OutfitBody::Fatal(
                        shift_err(f, cur - start),
                    ),
                }
            }),
        decreases v@.len() - cur,
    {
        let ghost scur = v@.skip(cur as int);
        let (n1, mut items1) = match parse_fields(src, v, cur, &descs) {
            Result::Err(e) => {
                return Result::Err(e);
            },
            Result::Ok(x) => x,
        };
        proof {
            crate::fields::lemma_spec_parse_fields_len(outfit_descs(), scur);
            assert(v@.skip((cur + n1) as int) == scur.skip(n1 as int));
        }
        let ghost prev_items = crate::fields::vitems(items@);
        let ghost new_items = crate::fields::vitems(items1@);
        items.append(&mut items1);
        proof {
            assert(crate::fields::vitems(items@) =~= prev_items + new_items);
        }
        match parse_sprite(src, v, cur + n1, 2, "\"flare sprite\"") {
            Step::Fatal(e) => {
                return Result::Err(e);
            },
            Step::Hit(n2, fl) => {
                proof {
                    lemma_spec_sprite_len("\"flare sprite\""@, 2, scur.skip(n1 as int));
                    assert(v@.skip((cur + n1 + n2) as int) == scur.skip(n1 + n2));
                    match spec_outfit_body(scur.skip(n1 + n2)) {
                        OutfitBody::Done(m3, items3, _, _) => {
                            assert((prev_items + (new_items + items3)) =~= ((prev_items
                                + new_items) + items3));
                        },
                        OutfitBody::Fatal(_) => {},
                    }
                }
                flare = Option::Some(fl);
                cur = cur + n1 + n2;
                continue ;
            },
            Step::Miss => {},
        }
        match parse_weapon(src, v, cur + n1) {
            Step::Fatal(e) => {
                return Result::Err(e);
            },
            Step::Miss => {
                proof {
                    assert((prev_items + new_items) + Seq::<ItemV>::empty() =~= (prev_items
                        + new_items));
                }
                return Result::Ok((cur + n1 - start, items, flare, weapon));
            },
            Step::Hit(n2, w) => {
                proof {
                    lemma_spec_weapon_len(scur.skip(n1 as int));
                    assert(v@.skip((cur + n1 + n2) as int) == scur.skip(n1 + n2));
                    match spec_outfit_body(scur.skip(n1 + n2)) {
                        OutfitBody::Done(m3, items3, _, _) => {
                            assert((prev_items + (new_items + items3)) =~= ((prev_items
                                + new_items) + items3));
                        },
                        OutfitBody::Fatal(_) => {},
                    }
                }
                weapon = Option::Some(w);
                cur = cur + n1 + n2;
            },
        }
    }
}

/// An outfit record: the header line naming it, then its body; every
/// field is optional.
#[verifier::opaque]
pub open spec fn spec_parse_outfit(s: Seq<char>) -> SpecStep<OutfitV> {
    match spec_str_header(0, "outfit"@, s) {
        SpecStep::Miss => SpecStep::Miss,
        SpecStep::Fatal(f) => SpecStep::Fatal(push_ctx(f, RecordKind::Outfit)),
        SpecStep::Hit(nh, name) => if 1 <= nh <= s.len() {
            match spec_outfit_body(s.skip(nh)) {
                OutfitBody::Fatal(f) => SpecStep::Fatal(
                    push_ctx(shift_err(f, nh), RecordKind::Outfit),
                ),
                OutfitBody::Done(nb, items, fl, w) => match spec_finalize_outfit(
                    name,
                    items,
                    fl,
                    w,
                    nh + nb,
                ) {
                    SpecStep::Fatal(f) => SpecStep::Fatal(push_ctx(f, RecordKind::Outfit)),
                    SpecStep::Hit(end, o) => SpecStep::Hit(end, o),
                    SpecStep::Miss => SpecStep::Miss,
                },
            }
        } else {
            SpecStep::Miss
        },
    }
}

/// An outfit hit consumes at least one character and at most the whole
/// suffix.
pub proof fn lemma_spec_parse_outfit_len(s: Seq<char>)
    ensures
        spec_parse_outfit(s) matches SpecStep::Hit(n, _) ==> 1 <= n <= s.len(),
{
    reveal(spec_parse_outfit);
    crate::records::common::lemma_spec_str_header_len(0, "outfit"@, s);
    match spec_str_header(0, "outfit"@, s) {
        SpecStep::Hit(nh, _) => {
            if 1 <= nh <= s.len() {
                lemma_spec_outfit_body_len(s.skip(nh));
            }
        },
        _ => {},
    }
}

/// Executable twin of [`spec_parse_outfit`].
#[verifier::rlimit(100)]
#[verifier::spinoff_prover]
pub fn parse_outfit(src: &str, v: &Vec<char>, pos: usize) -> (r: Step<Outfit>)
    requires
        v@ == src@,
        pos <= v@.len(),
    ensures
        step_ok(r, spec_parse_outfit(v@.skip(pos as int)), pos as int),
        r matches Step::Hit(n, _) ==> pos + n <= v@.len(),
{
    proof {
        reveal(spec_parse_outfit);
    }
    let ghost s = v@.skip(pos as int);
    let vlen = v.len();
    let (nh, name) = match str_header_tok(src, v, pos, 0, "outfit") {
        Step::Miss => {
            return Step::Miss;
        },
        Step::Fatal(e) => {
            return Step::Fatal(e.with_ctx(RecordKind::Outfit));
        },
        Step::Hit(nh, name) => (nh, name),
    };
    proof {
        crate::records::common::lemma_spec_str_header_len(0, "outfit"@, s);
        assert(v@.skip((pos + nh) as int) == s.skip(nh as int));
    }
    let (nb, items, fl, w) = match outfit_body(src, v, pos + nh) {
        Result::Err(e) => {
            return Step::Fatal(e.with_ctx(RecordKind::Outfit));
        },
        Result::Ok(x) => x,
    };
    match finalize_outfit(name, &items, fl, w, nh + nb) {
        Result::Err(e) => Step::Fatal(e.shifted(pos).with_ctx(RecordKind::Outfit)),
        Result::Ok(o) => Step::Hit(nh + nb, o),
    }
}

} // verus!
