//! Reading parsed items back out of their slots.
//!
//! One engine pass yields the record's field items in source order.  A
//! record is finalized by reading each slot: a scalar field takes the
//! value of its slot's last occurrence (a repeated scalar line overwrites
//! the earlier one), a repeatable field takes all occurrences in source
//! order.  Every reader is defined over [`slot_values`], the subsequence
//! of values that landed in a slot; a record finalized from two item
//! sequences with equal subsequences per slot is therefore the same
//! record, whatever order the fields stood in.

use vstd::prelude::*;

use crate::fields::{Item, ItemV, Value, ValueV};
use crate::types::{strs_view, Date, Decimal};

verus! {

/// The values that landed in `slot`, in source order.
pub open spec fn slot_values(items: Seq<ItemV>, slot: int) -> Seq<ValueV>
    decreases items.len(),
{
    if items.len() == 0 {
        Seq::empty()
    } else {
        let rest = slot_values(items.drop_last(), slot);
        if items.last().slot == slot {
            rest.push(items.last().value)
        } else {
            rest
        }
    }
}

/// The last value that landed in `slot`, if any.
pub open spec fn last_of(items: Seq<ItemV>, slot: int) -> Option<ValueV> {
    let vs = slot_values(items, slot);
    if vs.len() > 0 {
        Option::Some(vs.last())
    } else {
        Option::None
    }
}

/// The last string that landed in `slot`.
pub open spec fn opt_str_slot(items: Seq<ItemV>, slot: int) -> Option<Seq<char>> {
    match last_of(items, slot) {
        Option::Some(ValueV::VStr(c)) => Option::Some(c),
        _ => Option::None,
    }
}

/// The last string list that landed in `slot`.
pub open spec fn opt_str_list_slot(items: Seq<ItemV>, slot: int) -> Option<Seq<Seq<char>>> {
    match last_of(items, slot) {
        Option::Some(ValueV::VStrList(c)) => Option::Some(c),
        _ => Option::None,
    }
}

/// The last unsigned integer that landed in `slot`.
pub open spec fn opt_u64_slot(items: Seq<ItemV>, slot: int) -> Option<u64> {
    match last_of(items, slot) {
        Option::Some(ValueV::VU64(x)) => Option::Some(x),
        _ => Option::None,
    }
}

/// The last signed integer that landed in `slot`.
pub open spec fn opt_i64_slot(items: Seq<ItemV>, slot: int) -> Option<i64> {
    match last_of(items, slot) {
        Option::Some(ValueV::VI64(x)) => Option::Some(x),
        _ => Option::None,
    }
}

/// The last decimal that landed in `slot`.
pub open spec fn opt_dec_slot(items: Seq<ItemV>, slot: int) -> Option<Decimal> {
    match last_of(items, slot) {
        Option::Some(ValueV::VDec(x)) => Option::Some(x),
        _ => Option::None,
    }
}

/// The last decimal list that landed in `slot`.
pub open spec fn opt_dec_list_slot(items: Seq<ItemV>, slot: int) -> Option<Seq<Decimal>> {
    match last_of(items, slot) {
        Option::Some(ValueV::VDecList(x)) => Option::Some(x),
        _ => Option::None,
    }
}

/// The last date that landed in `slot`.
pub open spec fn opt_date_slot(items: Seq<ItemV>, slot: int) -> Option<Date> {
    match last_of(items, slot) {
        Option::Some(ValueV::VDate(x)) => Option::Some(x),
        _ => Option::None,
    }
}

/// Whether a flag line landed in `slot`.
pub open spec fn flag_slot(items: Seq<ItemV>, slot: int) -> bool {
    match last_of(items, slot) {
        Option::Some(ValueV::VFlag) => true,
        _ => false,
    }
}

/// The last string-and-integer pair that landed in `slot`.
pub open spec fn opt_str_u64_slot(items: Seq<ItemV>, slot: int) -> Option<(Seq<char>, u64)> {
    match last_of(items, slot) {
        Option::Some(ValueV::VStrU64(c, x)) => Option::Some((c, x)),
        _ => Option::None,
    }
}

/// The last string, integer and decimal triple that landed in `slot`.
pub open spec fn opt_str_u64_dec_slot(items: Seq<ItemV>, slot: int) -> Option<
    (Seq<char>, u64, Decimal),
> {
    match last_of(items, slot) {
        Option::Some(ValueV::VStrU64Dec(c, x, d)) => Option::Some((c, x, d)),
        _ => Option::None,
    }
}

/// The last string-and-optional-integer pair that landed in `slot`.
pub open spec fn opt_str_opt_int_slot(items: Seq<ItemV>, slot: int) -> Option<
    (Seq<char>, Option<i64>),
> {
    match last_of(items, slot) {
        Option::Some(ValueV::VStrOptInt(c, x)) => Option::Some((c, x)),
        _ => Option::None,
    }
}

/// The last decimal pair that landed in `slot`.
pub open spec fn opt_dec_pair_slot(items: Seq<ItemV>, slot: int) -> Option<(Decimal, Decimal)> {
    match last_of(items, slot) {
        Option::Some(ValueV::VDecPair(x, y)) => Option::Some((x, y)),
        _ => Option::None,
    }
}

/// The strings among `vs`, in order.
pub open spec fn strs_of(vs: Seq<ValueV>) -> Seq<Seq<char>>
    decreases vs.len(),
{
    if vs.len() == 0 {
        Seq::empty()
    } else {
        let rest = strs_of(vs.drop_last());
        match vs.last() {
            ValueV::VStr(c) => rest.push(c),
            _ => rest,
        }
    }
}

/// Every string that landed in `slot`, in source order.
pub open spec fn strs_slot(items: Seq<ItemV>, slot: int) -> Seq<Seq<char>> {
    strs_of(slot_values(items, slot))
}

/// The string-and-integer pairs among `vs`, in order.
pub open spec fn str_u64s_of(vs: Seq<ValueV>) -> Seq<(Seq<char>, u64)>
    decreases vs.len(),
{
    if vs.len() == 0 {
        Seq::empty()
    } else {
        let rest = str_u64s_of(vs.drop_last());
        match vs.last() {
            ValueV::VStrU64(c, x) => rest.push((c, x)),
            _ => rest,
        }
    }
}

/// Every string-and-integer pair that landed in `slot`, in source order.
pub open spec fn str_u64s_slot(items: Seq<ItemV>, slot: int) -> Seq<(Seq<char>, u64)> {
    str_u64s_of(slot_values(items, slot))
}

/// The string, integer and decimal triples among `vs`, in order.
pub open spec fn str_u64_decs_of(vs: Seq<ValueV>) -> Seq<(Seq<char>, u64, Decimal)>
    decreases vs.len(),
{
    if vs.len() == 0 {
        Seq::empty()
    } else {
        let rest = str_u64_decs_of(vs.drop_last());
        match vs.last() {
            ValueV::VStrU64Dec(c, x, d) => rest.push((c, x, d)),
            _ => rest,
        }
    }
}

/// Every string, integer and decimal triple that landed in `slot`, in
/// source order.
pub open spec fn str_u64_decs_slot(items: Seq<ItemV>, slot: int) -> Seq<(Seq<char>, u64, Decimal)> {
    str_u64_decs_of(slot_values(items, slot))
}

/// Pushing onto a sequence and dropping the pushed element returns the
/// original sequence.
pub proof fn lemma_push_drop_last<A>(s: Seq<A>, x: A)
    ensures
        s.push(x).drop_last() == s,
        s.push(x).last() == x,
{
    assert(s.push(x).drop_last() =~= s);
}

/// Finds the index of the last item that landed in `slot`.
fn last_index(items: &Vec<Item>, slot: usize) -> (r: Option<usize>)
    ensures
        match r {
            Option::Some(i) => i < items@.len() && crate::fields::vitems(items@)[i as int].slot
                == slot && last_of(crate::fields::vitems(items@), slot as int) == Option::Some(
                crate::fields::vitems(items@)[i as int].value,
            ),
            Option::None => last_of(crate::fields::vitems(items@), slot as int) is None,
        },
{
    let ghost vs = crate::fields::vitems(items@);
    let mut i: usize = items.len();
    proof {
        assert(vs.subrange(0, i as int) =~= vs);
    }
    while i > 0
        invariant
            0 <= i <= items@.len(),
            vs == crate::fields::vitems(items@),
            slot_values(vs, slot as int) == slot_values(vs.subrange(0, i as int), slot as int),
        decreases i,
    {
        i = i - 1;
        proof {
            assert(vs.subrange(0, i + 1).drop_last() =~= vs.subrange(0, i as int));
            assert(vs.subrange(0, i + 1).last() == vs[i as int]);
            assert(vs[i as int].slot == items@[i as int].slot as int);
        }
        if items[i].slot == slot {
            proof {
                assert(slot_values(vs.subrange(0, i + 1), slot as int) == slot_values(
                    vs.subrange(0, i as int),
                    slot as int,
                ).push(vs[i as int].value));
            }
            return Option::Some(i);
        }
    }
    proof {
        assert(vs.subrange(0, 0) =~= Seq::<ItemV>::empty());
    }
    Option::None
}

/// Clones the last string that landed in `slot`.
pub fn take_str(items: &Vec<Item>, slot: usize) -> (r: Option<String>)
    ensures
        crate::types::opt_str_view(r) == opt_str_slot(crate::fields::vitems(items@), slot as int),
{
    match last_index(items, slot) {
        Option::None => Option::None,
        Option::Some(i) => match &items[i].value {
            Value::VStr(x) => Option::Some(x.clone()),
            _ => Option::None,
        },
    }
}

/// Clones the last string list that landed in `slot`.
pub fn take_str_list(items: &Vec<Item>, slot: usize) -> (r: Option<Vec<String>>)
    ensures
        match r {
            Option::Some(x) => opt_str_list_slot(crate::fields::vitems(items@), slot as int)
                == Option::Some(strs_view(x@)),
            Option::None => opt_str_list_slot(crate::fields::vitems(items@), slot as int) is None,
        },
{
    match last_index(items, slot) {
        Option::None => Option::None,
        Option::Some(i) => match &items[i].value {
            Value::VStrList(x) => Option::Some(clone_strs(x)),
            _ => Option::None,
        },
    }
}

/// Clones a vector of strings.
fn clone_strs(v: &Vec<String>) -> (r: Vec<String>)
    ensures
        strs_view(r@) == strs_view(v@),
        r@.len() == v@.len(),
{
    let mut r: Vec<String> = Vec::new();
    let mut i: usize = 0;
    while i < v.len()
        invariant
            0 <= i <= v@.len(),
            r@.len() == i,
            forall|j: int| 0 <= j < i ==> r@[j]@ == v@[j]@,
        decreases v@.len() - i,
    {
        r.push(v[i].clone());
        i = i + 1;
    }
    proof {
        assert(strs_view(r@) =~= strs_view(v@));
    }
    r
}

/// Copies a vector of decimals.
fn clone_decs(v: &Vec<Decimal>) -> (r: Vec<Decimal>)
    ensures
        r@ == v@,
{
    let mut r: Vec<Decimal> = Vec::new();
    let mut i: usize = 0;
    while i < v.len()
        invariant
            0 <= i <= v@.len(),
            r@ =~= v@.subrange(0, i as int),
        decreases v@.len() - i,
    {
        r.push(v[i]);
        proof {
            assert(r@ =~= v@.subrange(0, i + 1));
        }
        i = i + 1;
    }
    proof {
        assert(v@.subrange(0, v@.len() as int) =~= v@);
    }
    r
}

/// The last unsigned integer that landed in `slot`.
pub fn take_u64(items: &Vec<Item>, slot: usize) -> (r: Option<u64>)
    ensures
        r == opt_u64_slot(crate::fields::vitems(items@), slot as int),
{
    match last_index(items, slot) {
        Option::None => Option::None,
        Option::Some(i) => match &items[i].value {
            Value::VU64(x) => Option::Some(*x),
            _ => Option::None,
        },
    }
}

/// The last signed integer that landed in `slot`.
pub fn take_i64(items: &Vec<Item>, slot: usize) -> (r: Option<i64>)
    ensures
        r == opt_i64_slot(crate::fields::vitems(items@), slot as int),
{
    match last_index(items, slot) {
        Option::None => Option::None,
        Option::Some(i) => match &items[i].value {
            Value::VI64(x) => Option::Some(*x),
            _ => Option::None,
        },
    }
}

/// The last decimal that landed in `slot`.
pub fn take_dec(items: &Vec<Item>, slot: usize) -> (r: Option<Decimal>)
    ensures
        r == opt_dec_slot(crate::fields::vitems(items@), slot as int),
{
    match last_index(items, slot) {
        Option::None => Option::None,
        Option::Some(i) => match &items[i].value {
            Value::VDec(x) => Option::Some(*x),
            _ => Option::None,
        },
    }
}

/// Copies the last decimal list that landed in `slot`.
pub fn take_dec_list(items: &Vec<Item>, slot: usize) -> (r: Option<Vec<Decimal>>)
    ensures
        match r {
            Option::Some(x) => opt_dec_list_slot(crate::fields::vitems(items@), slot as int)
                == Option::Some(x@),
            Option::None => opt_dec_list_slot(crate::fields::vitems(items@), slot as int) is None,
        },
{
    match last_index(items, slot) {
        Option::None => Option::None,
        Option::Some(i) => match &items[i].value {
            Value::VDecList(x) => Option::Some(clone_decs(x)),
            _ => Option::None,
        },
    }
}

/// The last date that landed in `slot`.
pub fn take_date(items: &Vec<Item>, slot: usize) -> (r: Option<Date>)
    ensures
        r == opt_date_slot(crate::fields::vitems(items@), slot as int),
{
    match last_index(items, slot) {
        Option::None => Option::None,
        Option::Some(i) => match &items[i].value {
            Value::VDate(x) => Option::Some(*x),
            _ => Option::None,
        },
    }
}

/// Whether a flag line landed in `slot`.
pub fn take_flag(items: &Vec<Item>, slot: usize) -> (r: bool)
    ensures
        r == flag_slot(crate::fields::vitems(items@), slot as int),
{
    match last_index(items, slot) {
        Option::None => false,
        Option::Some(i) => match &items[i].value {
            Value::VFlag => true,
            _ => false,
        },
    }
}

/// Clones the last string-and-integer pair that landed in `slot`.
pub fn take_str_u64(items: &Vec<Item>, slot: usize) -> (r: Option<(String, u64)>)
    ensures
        match r {
            Option::Some(x) => opt_str_u64_slot(crate::fields::vitems(items@), slot as int)
                == Option::Some((x.0@, x.1)),
            Option::None => opt_str_u64_slot(crate::fields::vitems(items@), slot as int) is None,
        },
{
    match last_index(items, slot) {
        Option::None => Option::None,
        Option::Some(i) => match &items[i].value {
            Value::VStrU64(c, x) => Option::Some((c.clone(), *x)),
            _ => Option::None,
        },
    }
}

/// Clones the last string-and-optional-integer pair that landed in
/// `slot`.
pub fn take_str_opt_int(items: &Vec<Item>, slot: usize) -> (r: Option<(String, Option<i64>)>)
    ensures
        match r {
            Option::Some(x) => opt_str_opt_int_slot(crate::fields::vitems(items@), slot as int)
                == Option::Some((x.0@, x.1)),
            Option::None => opt_str_opt_int_slot(crate::fields::vitems(items@), slot as int)
                is None,
        },
{
    match last_index(items, slot) {
        Option::None => Option::None,
        Option::Some(i) => match &items[i].value {
            Value::VStrOptInt(c, x) => Option::Some((c.clone(), *x)),
            _ => Option::None,
        },
    }
}

/// The last decimal pair that landed in `slot`.
pub fn take_dec_pair(items: &Vec<Item>, slot: usize) -> (r: Option<(Decimal, Decimal)>)
    ensures
        r == opt_dec_pair_slot(crate::fields::vitems(items@), slot as int),
{
    match last_index(items, slot) {
        Option::None => Option::None,
        Option::Some(i) => match &items[i].value {
            Value::VDecPair(x, y) => Option::Some((*x, *y)),
            _ => Option::None,
        },
    }
}

/// Clones every string that landed in `slot`, in source order.
pub fn all_strs(items: &Vec<Item>, slot: usize) -> (r: Vec<String>)
    ensures
        strs_view(r@) == strs_slot(crate::fields::vitems(items@), slot as int),
{
    let ghost vs = crate::fields::vitems(items@);
    let mut r: Vec<String> = Vec::new();
    let mut i: usize = 0;
    while i < items.len()
        invariant
            0 <= i <= items@.len(),
            vs == crate::fields::vitems(items@),
            strs_view(r@) == strs_of(slot_values(vs.subrange(0, i as int), slot as int)),
        decreases items@.len() - i,
    {
        proof {
            assert(vs.subrange(0, i + 1).drop_last() =~= vs.subrange(0, i as int));
            assert(vs.subrange(0, i + 1).last() == vs[i as int]);
            assert(vs[i as int].slot == items@[i as int].slot as int);
            assert(vs[i as int].value == items@[i as int].value@);
            if items@[i as int].slot as int == slot as int {
                lemma_push_drop_last(
                    slot_values(vs.subrange(0, i as int), slot as int),
                    vs[i as int].value,
                );
            }
        }
        if items[i].slot == slot {
            match &items[i].value {
                Value::VStr(x) => {
                    let ghost prev = strs_view(r@);
                    r.push(x.clone());
                    proof {
                        assert(strs_view(r@) =~= prev.push(x@));
                    }
                },
                _ => {},
            }
        }
        i = i + 1;
    }
    proof {
        assert(vs.subrange(0, vs.len() as int) =~= vs);
    }
    r
}

/// The view of a sequence of string-and-integer pairs.
pub open spec fn str_u64_pairs_view(s: Seq<(String, u64)>) -> Seq<(Seq<char>, u64)> {
    s.map_values(|x: (String, u64)| (x.0@, x.1))
}

/// Clones every string-and-integer pair that landed in `slot`, in source
/// order.
pub fn all_str_u64s(items: &Vec<Item>, slot: usize) -> (r: Vec<(String, u64)>)
    ensures
        str_u64_pairs_view(r@) == str_u64s_slot(crate::fields::vitems(items@), slot as int),
{
    let ghost vs = crate::fields::vitems(items@);
    let mut r: Vec<(String, u64)> = Vec::new();
    let mut i: usize = 0;
    while i < items.len()
        invariant
            0 <= i <= items@.len(),
            vs == crate::fields::vitems(items@),
            str_u64_pairs_view(r@) == str_u64s_of(
                slot_values(vs.subrange(0, i as int), slot as int),
            ),
        decreases items@.len() - i,
    {
        proof {
            assert(vs.subrange(0, i + 1).drop_last() =~= vs.subrange(0, i as int));
            assert(vs.subrange(0, i + 1).last() == vs[i as int]);
            assert(vs[i as int].slot == items@[i as int].slot as int);
            assert(vs[i as int].value == items@[i as int].value@);
            if items@[i as int].slot as int == slot as int {
                lemma_push_drop_last(
                    slot_values(vs.subrange(0, i as int), slot as int),
                    vs[i as int].value,
                );
            }
        }
        if items[i].slot == slot {
            match &items[i].value {
                Value::VStrU64(c, x) => {
                    let ghost prev = str_u64_pairs_view(r@);
                    r.push((c.clone(), *x));
                    proof {
                        assert(str_u64_pairs_view(r@) =~= prev.push((c@, *x)));
                    }
                },
                _ => {},
            }
        }
        i = i + 1;
    }
    proof {
        assert(vs.subrange(0, vs.len() as int) =~= vs);
    }
    r
}

/// The view of a sequence of string, integer and decimal triples.
pub open spec fn str_u64_dec_triples_view(s: Seq<(String, u64, Decimal)>) -> Seq<
    (Seq<char>, u64, Decimal),
> {
    s.map_values(|x: (String, u64, Decimal)| (x.0@, x.1, x.2))
}

/// Clones every string, integer and decimal triple that landed in `slot`,
/// in source order.
pub fn all_str_u64_decs(items: &Vec<Item>, slot: usize) -> (r: Vec<(String, u64, Decimal)>)
    ensures
        str_u64_dec_triples_view(r@) == str_u64_decs_slot(
            crate::fields::vitems(items@),
            slot as int,
        ),
{
    let ghost vs = crate::fields::vitems(items@);
    let mut r: Vec<(String, u64, Decimal)> = Vec::new();
    let mut i: usize = 0;
    while i < items.len()
        invariant
            0 <= i <= items@.len(),
            vs == crate::fields::vitems(items@),
            str_u64_dec_triples_view(r@) == str_u64_decs_of(
                slot_values(vs.subrange(0, i as int), slot as int),
            ),
        decreases items@.len() - i,
    {
        proof {
            assert(vs.subrange(0, i + 1).drop_last() =~= vs.subrange(0, i as int));
            assert(vs.subrange(0, i + 1).last() == vs[i as int]);
            assert(vs[i as int].slot == items@[i as int].slot as int);
            assert(vs[i as int].value == items@[i as int].value@);
            if items@[i as int].slot as int == slot as int {
                lemma_push_drop_last(
                    slot_values(vs.subrange(0, i as int), slot as int),
                    vs[i as int].value,
                );
            }
        }
        if items[i].slot == slot {
            match &items[i].value {
                Value::VStrU64Dec(c, x, d) => {
                    let ghost prev = str_u64_dec_triples_view(r@);
                    r.push((c.clone(), *x, *d));
                    proof {
                        assert(str_u64_dec_triples_view(r@) =~= prev.push((c@, *x, *d)));
                    }
                },
                _ => {},
            }
        }
        i = i + 1;
    }
    proof {
        assert(vs.subrange(0, vs.len() as int) =~= vs);
    }
    r
}

} // verus!
