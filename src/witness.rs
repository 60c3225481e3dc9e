//! What the emitted builder, allocation routine and witness extraction do
//! at run time, for a record of any schema and any value type: a staging
//! builder with one optional slot per field, a complete record that can only
//! be had through the builder's completeness check, and the witness of a
//! complete record.
use crate::emit::missing_message;
use crate::schema::{FieldModel, Role, Schema};
use vstd::prelude::*;

verus! {

/// Flattens a complete record into its field values, in field order.
pub trait Witness<F> {
    fn into_witness(self) -> Vec<F>;
}

/// Building failed because the named field, the first unset one in field
/// order, has no value.
pub struct MissingFieldError {
    pub field: String,
}

impl MissingFieldError {
    /// The error as text: `<field> field is missing`.
    pub fn message(&self) -> (r: String)
        ensures
            r@ == missing_message(self.field@),
    {
        self.field.clone().concat(" field is missing")
    }
}

/// One step of the allocation routine at run time: the field, its role, and
/// its current value, which is absent where the field was never set (the
/// constraint system then reports the assignment as missing).
pub struct Assignment<V> {
    pub field: String,
    pub role: Role,
    pub value: Option<V>,
}

/// The position of the first field, in field order, whose slot holds no
/// value (`present` tells, field by field, whether it holds one), or `None`
/// where every slot holds one. The emitted `build` reports that field.
pub fn first_missing(present: &Vec<bool>) -> (r: Option<usize>)
    ensures
        r matches Some(k) ==> k < present@.len() && !present@[k as int] && forall|j: int|
            0 <= j < k ==> #[trigger] present@[j],
        r is None ==> forall|j: int| 0 <= j < present@.len() ==> #[trigger] present@[j],
{
    let mut i: usize = 0;
    while i < present.len()
        invariant
            i <= present@.len(),
            forall|j: int| 0 <= j < i ==> #[trigger] present@[j],
        decreases present.len() - i,
    {
        if !present[i] {
            return Some(i);
        }
        i = i + 1;
    }
    None
}

/// The position of the first empty slot from `i` on, or the number of slots
/// where every one is filled.
pub open spec fn first_unset<V>(slots: Seq<Option<V>>, i: int) -> int
    decreases slots.len() - i,
{
    if i < 0 || i >= slots.len() {
        slots.len() as int
    } else if slots[i] is None {
        i
    } else {
        first_unset(slots, i + 1)
    }
}

/// The values held by filled slots, in slot order.
pub open spec fn present_values<V>(slots: Seq<Option<V>>) -> Seq<V> {
    slots.map_values(|o: Option<V>| o.unwrap())
}

/// The names of a schema's fields, in field order.
pub open spec fn field_names(fields: Seq<FieldModel>) -> Seq<Seq<char>> {
    fields.map_values(|f: FieldModel| f.name)
}

/// The roles of a schema's fields, in field order.
pub open spec fn field_roles(fields: Seq<FieldModel>) -> Seq<Role> {
    fields.map_values(|f: FieldModel| f.role)
}

/// A record under construction: one slot per field, each empty or holding
/// the value last set.
pub struct RecordBuilder<V> {
    names: Vec<String>,
    roles: Vec<Role>,
    slots: Vec<Option<V>>,
}

/// A complete record: one value per field. Only `RecordBuilder::build`
/// makes one, so no record lacks a field and extracting its witness cannot
/// fail.
pub struct Record<V> {
    names: Vec<String>,
    values: Vec<V>,
}

impl<V> RecordBuilder<V> {
    pub closed spec fn names(&self) -> Seq<Seq<char>> {
        self.names@.map_values(|s: String| s@)
    }

    pub closed spec fn roles(&self) -> Seq<Role> {
        self.roles@
    }

    pub closed spec fn slots(&self) -> Seq<Option<V>> {
        self.slots@
    }

    /// One name, one role and one slot per field.
    #[verifier::type_invariant]
    closed spec fn wf(&self) -> bool {
        &&& self.names@.len() == self.slots@.len()
        &&& self.roles@.len() == self.slots@.len()
    }

    /// A builder for the schema's record with every slot empty.
    pub fn new(schema: &Schema) -> (r: Self)
        ensures
            r.names() == field_names(schema@.fields),
            r.roles() == field_roles(schema@.fields),
            r.slots() == Seq::new(schema@.fields.len(), |i: int| None::<V>),
    {
        let ghost fs = schema@.fields;
        let mut names: Vec<String> = Vec::new();
        let mut roles: Vec<Role> = Vec::new();
        let mut slots: Vec<Option<V>> = Vec::new();
        let mut i: usize = 0;
        while i < schema.fields.len()
            invariant
                i <= schema.fields@.len(),
                fs == schema@.fields,
                names@.len() == i,
                roles@.len() == i,
                slots@.len() == i,
                forall|j: int| 0 <= j < i ==> #[trigger] names@[j]@ == fs[j].name,
                forall|j: int| 0 <= j < i ==> #[trigger] roles@[j] == fs[j].role,
                forall|j: int| 0 <= j < i ==> #[trigger] slots@[j] is None,
            decreases schema.fields.len() - i,
        {
            let f = &schema.fields[i];
            assert(fs[i as int] == f@);
            names.push(f.name.clone());
            roles.push(f.role);
            slots.push(None);
            i = i + 1;
        }
        let r = RecordBuilder { names, roles, slots };
        assert(r.names() =~= field_names(fs));
        assert(r.roles() =~= field_roles(fs));
        assert(r.slots() =~= Seq::new(fs.len(), |i: int| None::<V>));
        r
    }

    /// Sets the field at `index` to `value`, replacing any value it held.
    pub fn set(self, index: usize, value: V) -> (r: Self)
        requires
            index < self.slots().len(),
        ensures
            r.names() == self.names(),
            r.roles() == self.roles(),
            r.slots() == self.slots().update(index as int, Some(value)),
    {
        proof {
            use_type_invariant(&self);
        }
        let RecordBuilder { names, roles, mut slots } = self;
        slots.set(index, Some(value));
        RecordBuilder { names, roles, slots }
    }

    /// Checks the slots in field order: fails naming the first empty one, or
    /// gives the record with each field's value taken from its slot.
    pub fn build(self) -> (r: Result<Record<V>, MissingFieldError>)
        ensures
            r is Ok <==> first_unset(self.slots(), 0) == self.slots().len(),
            r matches Ok(rec) ==> rec.names() == self.names() && rec.values() == present_values(
                self.slots(),
            ),
            r matches Err(e) ==> e.field@ == self.names()[first_unset(self.slots(), 0)],
    {
        proof {
            use_type_invariant(&self);
        }
        let ghost orig = self.slots@;
        let ghost names_view = self.names();
        let RecordBuilder { names, roles: _, slots } = self;
        let len: usize = slots.len();
        let mut rest = slots;
        let mut values: Vec<V> = Vec::new();
        let mut i: usize = 0;
        while i < len
            invariant
                i <= len,
                len == orig.len(),
                names@.len() == len,
                names_view == names@.map_values(|s: String| s@),
                rest@ == orig.subrange(i as int, len as int),
                values@.len() == i,
                forall|j: int| 0 <= j < i ==> #[trigger] orig[j] == Some(values@[j]),
                first_unset(orig, 0) == first_unset(orig, i as int),
                orig == self.slots(),
                names_view == self.names(),
            decreases len - i,
        {
            let slot = rest.remove(0);
            assert(slot == orig[i as int]);
            match slot {
                Some(v) => {
                    values.push(v);
                },
                None => {
                    return Err(MissingFieldError { field: names[i].clone() });
                },
            }
            assert(rest@ =~= orig.subrange(i + 1, len as int));
            i = i + 1;
        }
        let rec = Record { names, values };
        assert(rec.values() =~= present_values(orig));
        Ok(rec)
    }

    /// The allocation routine's steps for the record as it stands: one per
    /// field, in field order, with the field's role and current value.
    pub fn into_allocation(self) -> (r: Vec<Assignment<V>>)
        ensures
            r@.len() == self.slots().len(),
            forall|i: int| 0 <= i < r@.len() ==> #[trigger] r@[i].field@ == self.names()[i],
            forall|i: int| 0 <= i < r@.len() ==> #[trigger] r@[i].role == self.roles()[i],
            forall|i: int| 0 <= i < r@.len() ==> #[trigger] r@[i].value == self.slots()[i],
    {
        proof {
            use_type_invariant(&self);
        }
        let ghost orig = self.slots@;
        let ghost names_view = self.names();
        let ghost roles_view = self.roles();
        let RecordBuilder { names, roles, slots } = self;
        let len: usize = slots.len();
        let mut rest = slots;
        let mut out: Vec<Assignment<V>> = Vec::new();
        let mut i: usize = 0;
        while i < len
            invariant
                i <= len,
                len == orig.len(),
                names@.len() == len,
                roles@.len() == len,
                names_view == names@.map_values(|s: String| s@),
                roles_view == roles@,
                rest@ == orig.subrange(i as int, len as int),
                out@.len() == i,
                forall|j: int| 0 <= j < i ==> #[trigger] out@[j].field@ == names_view[j],
                forall|j: int| 0 <= j < i ==> #[trigger] out@[j].role == roles_view[j],
                forall|j: int| 0 <= j < i ==> #[trigger] out@[j].value == orig[j],
                orig == self.slots(),
                names_view == self.names(),
                roles_view == self.roles(),
            decreases len - i,
        {
            let value = rest.remove(0);
            assert(value == orig[i as int]);
            let field = names[i].clone();
            assert(field@ == names_view[i as int]);
            out.push(Assignment { field, role: roles[i], value });
            assert(out@[i as int].field@ == names_view[i as int]);
            assert(rest@ =~= orig.subrange(i + 1, len as int));
            i = i + 1;
        }
        out
    }
}

impl<V> Record<V> {
    pub closed spec fn names(&self) -> Seq<Seq<char>> {
        self.names@.map_values(|s: String| s@)
    }

    pub closed spec fn values(&self) -> Seq<V> {
        self.values@
    }

    /// One value per field.
    #[verifier::type_invariant]
    closed spec fn complete(&self) -> bool {
        self.names@.len() == self.values@.len()
    }

    /// The number of fields.
    pub fn len(&self) -> (r: usize)
        ensures
            r == self.names().len(),
            r == self.values().len(),
    {
        proof {
            use_type_invariant(self);
        }
        self.values.len()
    }

    /// The value of the field at `index`.
    pub fn value(&self, index: usize) -> (r: &V)
        requires
            index < self.values().len(),
        ensures
            *r == self.values()[index as int],
    {
        &self.values[index]
    }

    /// The name of the field at `index`.
    pub fn field_name(&self, index: usize) -> (r: &str)
        requires
            index < self.names().len(),
        ensures
            r@ == self.names()[index as int],
    {
        proof {
            use_type_invariant(self);
        }
        self.names[index].as_str()
    }
}

impl<V> Witness<V> for Record<V> {
    /// The record's field values, one per field, in field order.
    fn into_witness(self) -> (r: Vec<V>)
        ensures
            r@ == self.values(),
            r@.len() == self.names().len(),
    {
        proof {
            use_type_invariant(&self);
        }
        self.values
    }
}


/// The slots after setting, in turn, each field `sets[k].0` to `sets[k].1`.
pub open spec fn apply_sets<V>(slots: Seq<Option<V>>, sets: Seq<(int, V)>) -> Seq<Option<V>>
    decreases sets.len(),
{
    if sets.len() == 0 {
        slots
    } else {
        apply_sets(slots.update(sets[0].0, Some(sets[0].1)), sets.drop_first())
    }
}

/// Whether the field at position `j` is among those that `sets` sets.
pub open spec fn sets_field<V>(sets: Seq<(int, V)>, j: int) -> bool {
    exists|k: int| 0 <= k < sets.len() && sets[k].0 == j
}

/// An empty slot for each of `n` fields.
pub open spec fn empty_slots<V>(n: nat) -> Seq<Option<V>> {
    Seq::new(n, |i: int| None::<V>)
}

proof fn lemma_apply_sets<V>(slots: Seq<Option<V>>, sets: Seq<(int, V)>)
    requires
        forall|k: int| 0 <= k < sets.len() ==> 0 <= #[trigger] sets[k].0 < slots.len(),
    ensures
        apply_sets(slots, sets).len() == slots.len(),
        forall|j: int|
            0 <= j < slots.len() && sets_field(sets, j) ==> #[trigger] apply_sets(
                slots,
                sets,
            )[j] is Some,
        forall|j: int|
            0 <= j < slots.len() && !sets_field(sets, j) ==> #[trigger] apply_sets(
                slots,
                sets,
            )[j] == slots[j],
        (forall|k1: int, k2: int|
            0 <= k1 < k2 < sets.len() ==> #[trigger] sets[k1].0 != #[trigger] sets[k2].0) ==> forall|
            k: int,
        | 0 <= k < sets.len() ==> apply_sets(slots, sets)[#[trigger] sets[k].0] == Some(sets[k].1),
    decreases sets.len(),
{
    if sets.len() > 0 {
        let h = sets[0];
        let t = sets.drop_first();
        let s1 = slots.update(h.0, Some(h.1));
        assert forall|k: int| 0 <= k < t.len() implies 0 <= #[trigger] t[k].0 < s1.len() by {
            assert(t[k] == sets[k + 1]);
        }
        lemma_apply_sets(s1, t);
        let r = apply_sets(slots, sets);
        assert(r == apply_sets(s1, t));
        assert forall|j: int| 0 <= j < slots.len() && sets_field(sets, j) implies #[trigger] r[j] is Some by {
            if sets_field(t, j) {
            } else {
                let k = choose|k: int| 0 <= k < sets.len() && sets[k].0 == j;
                if k > 0 {
                    assert(t[k - 1] == sets[k]);
                }
                assert(j == h.0);
            }
        }
        assert forall|j: int| 0 <= j < slots.len() && !sets_field(sets, j) implies #[trigger] r[j] == slots[j] by {
            if sets_field(t, j) {
                let k = choose|k: int| 0 <= k < t.len() && t[k].0 == j;
                assert(sets[k + 1] == t[k]);
            }
            assert(sets[0].0 != j);
        }
        if forall|k1: int, k2: int|
            0 <= k1 < k2 < sets.len() ==> #[trigger] sets[k1].0 != #[trigger] sets[k2].0 {
            assert forall|k1: int, k2: int|
                0 <= k1 < k2 < t.len() implies #[trigger] t[k1].0 != #[trigger] t[k2].0 by {
                assert(t[k1] == sets[k1 + 1]);
                assert(t[k2] == sets[k2 + 1]);
            }
            assert forall|k: int| 0 <= k < sets.len() implies r[#[trigger] sets[k].0] == Some(sets[k].1) by {
                if k > 0 {
                    assert(t[k - 1] == sets[k]);
                } else {
                    if sets_field(t, h.0) {
                        let k2 = choose|k2: int| 0 <= k2 < t.len() && t[k2].0 == h.0;
                        assert(sets[k2 + 1] == t[k2]);
                    }
                }
            }
        }
    }
}

proof fn lemma_first_unset<V>(slots: Seq<Option<V>>, i: int)
    requires
        0 <= i <= slots.len(),
    ensures
        i <= first_unset(slots, i) <= slots.len(),
        forall|j: int| i <= j < first_unset(slots, i) ==> #[trigger] slots[j] is Some,
        first_unset(slots, i) < slots.len() ==> slots[first_unset(slots, i)] is None,
    decreases slots.len() - i,
{
    if i < slots.len() && slots[i] is Some {
        lemma_first_unset(slots, i + 1);
    }
}

/// Setting every field exactly once, in any order, fills every slot, so that
/// building succeeds, and the record then holds for each field the value it
/// was set to.
pub proof fn lemma_builder_round_trip<V>(n: nat, sets: Seq<(int, V)>)
    requires
        forall|k: int| 0 <= k < sets.len() ==> 0 <= #[trigger] sets[k].0 < n,
        forall|k1: int, k2: int|
            0 <= k1 < k2 < sets.len() ==> #[trigger] sets[k1].0 != #[trigger] sets[k2].0,
        forall|j: int| 0 <= j < n ==> sets_field(sets, j),
    ensures
        first_unset(apply_sets(empty_slots::<V>(n), sets), 0) == n,
        present_values(apply_sets(empty_slots::<V>(n), sets)).len() == n,
        forall|k: int|
            0 <= k < sets.len() ==> present_values(apply_sets(empty_slots::<V>(n), sets))[
            #[trigger] sets[k].0] == sets[k].1,
{
    let s = apply_sets(empty_slots::<V>(n), sets);
    lemma_apply_sets(empty_slots::<V>(n), sets);
    lemma_first_unset(s, 0);
    if first_unset(s, 0) < n {
        assert(s[first_unset(s, 0)] is Some);
    }
    assert forall|k: int| 0 <= k < sets.len() implies present_values(s)[#[trigger] sets[k].0]
        == sets[k].1 by {
        assert(s[sets[k].0] == Some(sets[k].1));
    }
}

/// Leaving any field unset makes building fail, and the field it names is
/// the earliest, in field order, that was not set.
pub proof fn lemma_builder_reports_first_unset<V>(n: nat, sets: Seq<(int, V)>, unset: int)
    requires
        forall|k: int| 0 <= k < sets.len() ==> 0 <= #[trigger] sets[k].0 < n,
        0 <= unset < n,
        !sets_field(sets, unset),
    ensures
        first_unset(apply_sets(empty_slots::<V>(n), sets), 0) < n,
        !sets_field(sets, first_unset(apply_sets(empty_slots::<V>(n), sets), 0)),
        forall|j: int|
            0 <= j < first_unset(apply_sets(empty_slots::<V>(n), sets), 0) ==> sets_field(
                sets,
                j,
            ),
{
    let s = apply_sets(empty_slots::<V>(n), sets);
    lemma_apply_sets(empty_slots::<V>(n), sets);
    lemma_first_unset(s, 0);
    assert(s[unset] is None);
    let f = first_unset(s, 0);
    assert forall|j: int| 0 <= j < f implies sets_field(sets, j) by {
        assert(s[j] is Some);
    }
}

} // verus!
