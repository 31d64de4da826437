//! Layout of fixed-shape records.
//!
//! A record is a list of fields in declaration order. Each field starts at the
//! first offset after the previous field that its alignment admits, and the
//! record ends at the first multiple of its own alignment after the last field.
//! The firmware lays its tables out by these rules, so a record that is
//! described field by field here has the offsets that the firmware uses.

use vstd::arithmetic::div_mod::{lemma_fundamental_div_mod, lemma_mod_multiples_vanish};
use vstd::prelude::*;

verus! {

/// Size and alignment of one field of a record, in bytes.
#[derive(Debug, PartialEq, Eq, Copy, Clone)]
pub struct FieldShape {
    pub size: usize,
    pub align: usize,
}

/// Whether `n` is one of 1, 2, 4, 8, ...
pub open spec fn is_power_of_two(n: nat) -> bool
    decreases n,
{
    n == 1 || (n > 1 && n % 2 == 0 && is_power_of_two(n / 2))
}

impl FieldShape {
    /// A shape is valid when its alignment is a power of two and its size is a
    /// multiple of its alignment.
    pub open spec fn valid(self) -> bool {
        is_power_of_two(self.align as nat) && is_multiple_of(self.size as nat, self.align as nat)
    }

    /// Tells whether the shape is valid.
    pub fn is_valid(&self) -> (ok: bool)
        ensures
            ok == self.valid(),
    {
        let mut rest: usize = self.align;
        while rest > 1 && rest % 2 == 0
            invariant
                is_power_of_two(rest as nat) == is_power_of_two(self.align as nat),
            decreases rest,
        {
            rest = rest / 2;
        }
        rest == 1 && self.size % self.align == 0
    }
}

/// Whether every shape of `fields` is valid.
pub open spec fn all_valid(fields: Seq<FieldShape>) -> bool {
    forall|i: int| 0 <= i < fields.len() ==> (#[trigger] fields[i]).valid()
}

/// Whether `value` is a multiple of `unit`.
pub open spec fn is_multiple_of(value: nat, unit: nat) -> bool
    recommends
        unit > 0,
{
    value % unit == 0
}

/// The least multiple of `align` that is not below `offset`.
pub open spec fn align_up(offset: nat, align: nat) -> nat
    recommends
        align > 0,
{
    if offset % align == 0 {
        offset
    } else {
        (offset + align - offset % align) as nat
    }
}

/// The offset at which the field `index` of a record starts.
///
/// The first field starts at 0. Every other field starts at the end of the
/// field before it, moved up to its own alignment.
pub open spec fn spec_field_offset(fields: Seq<FieldShape>, index: int) -> nat
    recommends
        0 <= index < fields.len(),
    decreases index,
{
    if index <= 0 {
        0
    } else {
        align_up(
            spec_field_offset(fields, index - 1) + fields[index - 1].size as nat,
            fields[index].align as nat,
        )
    }
}

/// The offset at which the last field of a record ends; 0 for a record without
/// fields.
pub open spec fn spec_fields_end(fields: Seq<FieldShape>) -> nat {
    if fields.len() == 0 {
        0
    } else {
        spec_field_offset(fields, fields.len() - 1) + fields.last().size as nat
    }
}

/// The largest alignment among the first `count` fields of a record, and 1
/// when `count` is 0.
pub open spec fn spec_largest_align(fields: Seq<FieldShape>, count: int) -> nat
    recommends
        0 <= count <= fields.len(),
    decreases count,
{
    if count <= 0 {
        1
    } else {
        let before = spec_largest_align(fields, count - 1);
        if before >= fields[count - 1].align as nat {
            before
        } else {
            fields[count - 1].align as nat
        }
    }
}

/// The alignment of a record: the largest alignment among its fields, and 1 for
/// a record without fields.
pub open spec fn spec_record_align(fields: Seq<FieldShape>) -> nat {
    spec_largest_align(fields, fields.len() as int)
}

/// The size of a record: the end of its last field, moved up to the record's
/// alignment.
pub open spec fn spec_record_size(fields: Seq<FieldShape>) -> nat {
    align_up(spec_fields_end(fields), spec_record_align(fields))
}

/// `align_up` yields the least multiple of `align` that is not below `offset`,
/// and adds less than `align` to reach it.
pub proof fn lemma_align_up_is_least_multiple(offset: nat, align: nat)
    requires
        align > 0,
    ensures
        is_multiple_of(align_up(offset, align), align),
        offset <= align_up(offset, align) < offset + align,
        forall|multiple: nat|
            #[trigger] is_multiple_of(multiple, align) && offset <= multiple ==> align_up(
                offset,
                align,
            ) <= multiple,
{
    let up = align_up(offset, align);
    let a = align as int;
    let q = offset as int / a;
    let r = offset as int % a;
    lemma_fundamental_div_mod(offset as int, a);
    if r != 0 {
        assert(a * q + a == a * (q + 1)) by (nonlinear_arith);
        lemma_mod_multiples_vanish(q + 1, 0, a);
    }
    assert forall|multiple: nat| #[trigger]
        is_multiple_of(multiple, align) && offset <= multiple implies up <= multiple by {
        let m = multiple as int / a;
        lemma_fundamental_div_mod(multiple as int, a);
        if r != 0 {
            // a * q < offset <= a * m, so q < m and a * (q + 1) <= a * m.
            assert(q < m) by (nonlinear_arith)
                requires
                    a * q + r <= a * m,
                    r > 0,
                    a > 0,
            ;
            assert(a * (q + 1) <= a * m) by (nonlinear_arith)
                requires
                    q + 1 <= m,
                    a > 0,
            ;
        }
    }
}

/// Offsets grow with the index: a field starts at or after the end of every
/// field before it. It is enough that the fields after `earlier`, up to
/// `later`, are valid.
proof fn lemma_offsets_grow(fields: Seq<FieldShape>, earlier: int, later: int)
    requires
        0 <= earlier <= later < fields.len(),
        forall|k: int| earlier < k <= later ==> (#[trigger] fields[k]).valid(),
    ensures
        spec_field_offset(fields, earlier) <= spec_field_offset(fields, later),
        earlier < later ==> spec_field_offset(fields, earlier) + fields[earlier].size
            <= spec_field_offset(fields, later),
    decreases later,
{
    if earlier < later {
        let before = spec_field_offset(fields, later - 1) + fields[later - 1].size as nat;
        lemma_align_up_is_least_multiple(before, fields[later].align as nat);
        lemma_offsets_grow(fields, earlier, later - 1);
    }
}

/// Fields follow one another in declaration order without overlap: a later
/// field starts at or after the end of every earlier one.
pub proof fn lemma_fields_in_order(fields: Seq<FieldShape>, earlier: int, later: int)
    requires
        all_valid(fields),
        0 <= earlier < later < fields.len(),
    ensures
        spec_field_offset(fields, earlier) + fields[earlier].size <= spec_field_offset(
            fields,
            later,
        ),
{
    lemma_offsets_grow(fields, earlier, later);
}

/// Every field starts at a multiple of its alignment.
pub proof fn lemma_field_is_aligned(fields: Seq<FieldShape>, index: int)
    requires
        all_valid(fields),
        0 <= index < fields.len(),
    ensures
        is_multiple_of(spec_field_offset(fields, index), fields[index].align as nat),
{
    if index > 0 {
        let before = spec_field_offset(fields, index - 1) + fields[index - 1].size as nat;
        lemma_align_up_is_least_multiple(before, fields[index].align as nat);
    } else {
        assert(0nat % fields[index].align as nat == 0) by (nonlinear_arith)
            requires
                fields[index].align > 0,
        ;
    }
}

/// The gap before a field is smaller than the field's alignment: no offset
/// between the end of the previous field and the field's own offset would do.
pub proof fn lemma_padding_is_minimal(fields: Seq<FieldShape>, index: int)
    requires
        all_valid(fields),
        0 < index < fields.len(),
    ensures
        spec_field_offset(fields, index) < spec_field_offset(fields, index - 1) + fields[index
            - 1].size + fields[index].align,
{
    let before = spec_field_offset(fields, index - 1) + fields[index - 1].size as nat;
    lemma_align_up_is_least_multiple(before, fields[index].align as nat);
}

/// The largest alignment among the first `count` fields is at least 1.
proof fn lemma_largest_align_is_positive(fields: Seq<FieldShape>, count: int)
    ensures
        spec_largest_align(fields, count) >= 1,
    decreases count,
{
    if count > 0 {
        lemma_largest_align_is_positive(fields, count - 1);
    }
}

/// The largest alignment among the first `count` fields is at least the
/// alignment of each of them.
proof fn lemma_largest_align_bounds(fields: Seq<FieldShape>, count: int, index: int)
    requires
        0 <= index < count <= fields.len(),
    ensures
        spec_largest_align(fields, count) >= fields[index].align,
    decreases count,
{
    if index < count - 1 {
        lemma_largest_align_bounds(fields, count - 1, index);
    }
}

/// The alignment of a record is at least 1, and at least the alignment of each
/// of its fields.
pub proof fn lemma_record_align_bounds(fields: Seq<FieldShape>)
    ensures
        spec_record_align(fields) >= 1,
        forall|index: int|
            0 <= index < fields.len() ==> spec_record_align(fields) >= (#[trigger] fields[index]).align,
{
    assert forall|index: int| 0 <= index < fields.len() implies spec_record_align(fields) >= (
    #[trigger] fields[index]).align by {
        lemma_largest_align_bounds(fields, fields.len() as int, index);
    }
    lemma_largest_align_is_positive(fields, fields.len() as int);
}

/// The size of a record is a multiple of its alignment, holds every field, and
/// exceeds the end of the last field by less than the alignment.
pub proof fn lemma_record_size_bounds(fields: Seq<FieldShape>)
    ensures
        is_multiple_of(spec_record_size(fields), spec_record_align(fields)),
        spec_fields_end(fields) <= spec_record_size(fields) < spec_fields_end(fields)
            + spec_record_align(fields),
{
    lemma_record_align_bounds(fields);
    lemma_align_up_is_least_multiple(spec_fields_end(fields), spec_record_align(fields));
}

/// Moves `offset` up to the next multiple of `align`.
///
/// There is no result when `align` is 0, or when the multiple does not fit in
/// a `usize`.
pub fn align_to(offset: usize, align: usize) -> (aligned: Option<usize>)
    ensures
        aligned is Some <==> align > 0 && align_up(offset as nat, align as nat) <= usize::MAX,
        aligned matches Some(a) ==> a == align_up(offset as nat, align as nat),
{
    if align == 0 {
        return None;
    }
    let rest: usize = offset % align;
    if rest == 0 {
        Some(offset)
    } else {
        offset.checked_add(align - rest)
    }
}

/// The offset at which the field `index` of the record `fields` starts.
///
/// There is no result when the record has no such field, when one of the
/// fields up to it is not valid, or when the offset does not fit in a `usize`.
pub fn field_offset(fields: &[FieldShape], index: usize) -> (offset: Option<usize>)
    ensures
        offset is Some <==> index < fields@.len() && all_valid(fields@.take(index + 1))
            && spec_field_offset(fields@, index as int) <= usize::MAX,
        offset matches Some(o) ==> o == spec_field_offset(fields@, index as int),
{
    if index >= fields.len() {
        return None;
    }
    if !fields[0].is_valid() {
        assert(fields@.take(index + 1)[0] == fields@[0]);
        return None;
    }
    let mut current: usize = 0;
    let mut i: usize = 0;
    while i < index
        invariant
            i <= index < fields@.len(),
            current == spec_field_offset(fields@, i as int),
            forall|k: int| 0 <= k <= i ==> (#[trigger] fields@[k]).valid(),
        decreases index - i,
    {
        let next: FieldShape = fields[i + 1];
        if !next.is_valid() {
            assert(fields@.take(index + 1)[i + 1] == fields@[i + 1]);
            return None;
        }
        let aligned: Option<usize> = match current.checked_add(fields[i].size) {
            Some(end) => align_to(end, next.align),
            None => None,
        };
        match aligned {
            Some(start) => {
                current = start;
                i += 1;
            },
            None => {
                proof {
                    let end = current as nat + fields@[i as int].size as nat;
                    lemma_align_up_is_least_multiple(end, next.align as nat);
                    if all_valid(fields@.take(index + 1)) {
                        assert forall|k: int| i + 1 < k <= index implies (#[trigger] fields@[k]).valid() by {
                            assert(fields@.take(index + 1)[k] == fields@[k]);
                        }
                        lemma_offsets_grow(fields@, i + 1, index as int);
                    }
                }
                return None;
            },
        }
    }
    Some(current)
}

/// The alignment of the record `fields`.
///
/// There is no result when one of the fields is not valid.
pub fn record_align(fields: &[FieldShape]) -> (align: Option<usize>)
    ensures
        align is Some <==> all_valid(fields@),
        align matches Some(a) ==> a == spec_record_align(fields@),
{
    let mut largest: usize = 1;
    let mut i: usize = 0;
    while i < fields.len()
        invariant
            i <= fields@.len(),
            largest == spec_largest_align(fields@, i as int),
            forall|k: int| 0 <= k < i ==> (#[trigger] fields@[k]).valid(),
        decreases fields@.len() - i,
    {
        if !fields[i].is_valid() {
            return None;
        }
        if fields[i].align > largest {
            largest = fields[i].align;
        }
        i += 1;
    }
    Some(largest)
}

/// The size of the record `fields`.
///
/// There is no result when one of the fields is not valid, or when the size
/// does not fit in a `usize`.
pub fn record_size(fields: &[FieldShape]) -> (size: Option<usize>)
    ensures
        size is Some <==> all_valid(fields@) && spec_record_size(fields@) <= usize::MAX,
        size matches Some(s) ==> s == spec_record_size(fields@),
{
    let align: usize = match record_align(fields) {
        Some(align) => align,
        None => {
            return None;
        },
    };
    proof {
        lemma_record_size_bounds(fields@);
    }
    if fields.len() == 0 {
        return align_to(0, align);
    }
    let last: usize = fields.len() - 1;
    let end: Option<usize> = match field_offset(fields, last) {
        Some(start) => start.checked_add(fields[last].size),
        None => None,
    };
    match end {
        Some(end) => align_to(end, align),
        None => None,
    }
}

} // verus!
