//! The runtime behaviour that every synthesized builder shares.
//!
//! A builder instance holds one storage slot per field. A fresh instance has
//! every slot empty; a setter stores a value into its slot, overwriting any
//! prior value; the finalizer takes every slot in declared order, failing on
//! the first required field whose slot is empty and clearing each slot it
//! takes. `RecordBuilder` is that state machine over a uniform payload type,
//! driven by a field schema; the concrete builders a generator emits follow
//! it field for field.

use vstd::prelude::*;

verus! {

/// What the finalizer needs to know of one field: its name and whether a
/// value must be present at build time.
#[derive(Debug, Clone, PartialEq, Eq)]
pub struct FieldSchema {
    pub name: String,
    pub required: bool,
}

/// A finalizer failure: a required field whose slot was empty.
#[derive(Debug, Clone, PartialEq, Eq)]
pub struct BuildError {
    pub field: String,
}

impl BuildError {
    /// The failure message, naming the offending field.
    pub fn message(&self) -> (m: String)
        ensures
            m@ == self.field@ + " is not set"@,
    {
        self.field.clone().concat(" is not set")
    }
}

/// Whether field `i` blocks the finalizer: it is required and its slot is empty.
pub open spec fn missing_at<V>(schema: Seq<FieldSchema>, slots: Seq<Option<V>>, i: int) -> bool {
    schema[i].required && slots[i] is None
}

/// The first field at or after `i` that blocks the finalizer, if any.
pub open spec fn first_missing_from<V>(
    schema: Seq<FieldSchema>,
    slots: Seq<Option<V>>,
    i: int,
) -> Option<int>
    decreases schema.len() - i,
{
    if i < 0 || i >= schema.len() {
        None
    } else if missing_at(schema, slots, i) {
        Some(i)
    } else {
        first_missing_from(schema, slots, i + 1)
    }
}

/// The first field, in declared order, that blocks the finalizer, if any.
pub open spec fn first_missing<V>(schema: Seq<FieldSchema>, slots: Seq<Option<V>>) -> Option<
    int,
> {
    first_missing_from(schema, slots, 0)
}

proof fn lemma_first_missing_from_characterization<V>(
    schema: Seq<FieldSchema>,
    slots: Seq<Option<V>>,
    i: int,
)
    requires
        0 <= i <= schema.len(),
    ensures
        match first_missing_from(schema, slots, i) {
            Some(k) => {
                &&& i <= k < schema.len()
                &&& missing_at(schema, slots, k)
                &&& forall|j: int| i <= j < k ==> !missing_at(schema, slots, j)
            },
            None => forall|j: int| i <= j < schema.len() ==> !missing_at(schema, slots, j),
        },
    decreases schema.len() - i,
{
    if i < schema.len() && !missing_at(schema, slots, i) {
        lemma_first_missing_from_characterization(schema, slots, i + 1);
    }
}

/// `first_missing` names a field that is required and unset, and no earlier
/// field is; when it names none, no field is required and unset.
pub proof fn lemma_first_missing_characterization<V>(
    schema: Seq<FieldSchema>,
    slots: Seq<Option<V>>,
)
    ensures
        match first_missing(schema, slots) {
            Some(k) => {
                &&& 0 <= k < schema.len()
                &&& missing_at(schema, slots, k)
                &&& forall|j: int| 0 <= j < k ==> !missing_at(schema, slots, j)
            },
            None => forall|j: int| 0 <= j < schema.len() ==> !missing_at(schema, slots, j),
        },
{
    lemma_first_missing_from_characterization(schema, slots, 0);
}

/// A builder instance: a schema and one storage slot per field.
pub struct RecordBuilder<V> {
    schema: Vec<FieldSchema>,
    slots: Vec<Option<V>>,
}

impl<V> RecordBuilder<V> {
    /// The field schema this instance was made for.
    pub closed spec fn schema(self) -> Seq<FieldSchema> {
        self.schema@
    }

    /// The current slot contents, in field order.
    pub closed spec fn slots(self) -> Seq<Option<V>> {
        self.slots@
    }

    /// One slot stands for each field of the schema.
    pub open spec fn wf(self) -> bool {
        self.slots().len() == self.schema().len()
    }

    /// A fresh instance: every slot is empty, required or not.
    pub fn new(schema: Vec<FieldSchema>) -> (b: Self)
        ensures
            b.wf(),
            b.schema() == schema@,
            b.slots().len() == schema@.len(),
            forall|i: int| 0 <= i < b.slots().len() ==> b.slots()[i] is None,
    {
        let n = schema.len();
        let mut slots: Vec<Option<V>> = Vec::new();
        let mut i: usize = 0;
        while i < n
            invariant
                i <= n,
                slots@.len() == i,
                forall|j: int| 0 <= j < i ==> slots@[j] is None,
            decreases n - i,
        {
            slots.push(None);
            i = i + 1;
        }
        RecordBuilder { schema, slots }
    }

    /// How many fields the schema declares.
    pub fn field_count(&self) -> (n: usize)
        requires
            self.wf(),
        ensures
            n == self.schema().len(),
    {
        self.schema.len()
    }

    /// The setter for field `i`: stores the value as present, overwriting any
    /// prior value and touching no other slot.
    pub fn set(&mut self, i: usize, value: V)
        requires
            old(self).wf(),
            i < old(self).slots().len(),
        ensures
            final(self).wf(),
            final(self).schema() == old(self).schema(),
            final(self).slots() == old(self).slots().update(i as int, Some(value)),
    {
        self.slots.set(i, Some(value));
    }

    /// The finalizer. Every slot is taken in declared order until the first
    /// required field whose slot is empty, so a failure clears exactly the
    /// slots up to and including the offending one; a success drains every
    /// slot and hands back the taken values, one per field.
    pub fn build(&mut self) -> (r: Result<Vec<Option<V>>, BuildError>)
        requires
            old(self).wf(),
        ensures
            final(self).wf(),
            final(self).schema() == old(self).schema(),
            match r {
                Ok(vals) => {
                    &&& first_missing(old(self).schema(), old(self).slots()) is None
                    &&& vals@ == old(self).slots()
                    &&& forall|i: int|
                        0 <= i < final(self).slots().len() ==> final(self).slots()[i] is None
                },
                Err(e) => {
                    &&& first_missing(old(self).schema(), old(self).slots()) matches Some(k)
                        && e.field@ == old(self).schema()[k].name@ && final(self).slots()
                        =~= Seq::new(
                        old(self).slots().len(),
                        |j: int| if j <= k { None } else { old(self).slots()[j] },
                    )
                },
            },
    {
        let n = self.schema.len();
        let mut vals: Vec<Option<V>> = Vec::new();
        let mut i: usize = 0;
        while i < n
            invariant
                self.wf(),
                i <= n,
                n == self.schema().len(),
                n == old(self).slots().len(),
                self.schema() == old(self).schema(),
                vals@.len() == i,
                forall|j: int| 0 <= j < i ==> vals@[j] == old(self).slots()[j],
                forall|j: int| 0 <= j < i ==> self.slots()[j] is None,
                forall|j: int| i <= j < n ==> self.slots()[j] == old(self).slots()[j],
                forall|j: int| 0 <= j < i ==> !missing_at(old(self).schema(), old(self).slots(), j),
            decreases n - i,
        {
            let slot = vstd::std_specs::vec::vec_index_mut(&mut self.slots, i);
            let taken = slot.take();
            if taken.is_none() && self.schema[i].required {
                proof {
                    assert(first_missing_from(old(self).schema(), old(self).slots(), 0) == Some(
                        i as int,
                    )) by {
                        lemma_first_missing_extends(old(self).schema(), old(self).slots(), i as int);
                    }
                }
                return Err(BuildError { field: self.schema[i].name.clone() });
            }
            vals.push(taken);
            i = i + 1;
        }
        proof {
            assert(first_missing_from(old(self).schema(), old(self).slots(), 0) is None) by {
                lemma_first_missing_extends(old(self).schema(), old(self).slots(), n as int);
            }
            assert(vals@ =~= old(self).slots());
        }
        Ok(vals)
    }
}

/// On a fresh builder every slot is empty, so when every field of the schema
/// is required, the finalizer fails on the very first field in declared order.
pub proof fn lemma_fresh_all_required_fails_first<V>(
    schema: Seq<FieldSchema>,
    slots: Seq<Option<V>>,
)
    requires
        slots.len() == schema.len(),
        schema.len() > 0,
        forall|i: int| 0 <= i < schema.len() ==> (#[trigger] schema[i]).required,
        forall|i: int| 0 <= i < slots.len() ==> slots[i] is None,
    ensures
        first_missing(schema, slots) == Some(0int),
{
}

/// When every required field has been set, the finalizer succeeds; since a
/// successful build hands every slot back as it stands, an optional field
/// that was never set then comes out absent rather than failing.
pub proof fn lemma_optional_never_set_succeeds<V>(
    schema: Seq<FieldSchema>,
    slots: Seq<Option<V>>,
)
    requires
        slots.len() == schema.len(),
        forall|i: int|
            0 <= i < schema.len() && (#[trigger] schema[i]).required ==> slots[i] is Some,
    ensures
        first_missing(schema, slots) is None,
{
    lemma_first_missing_from_characterization(schema, slots, 0);
}

/// Setters overwrite, never accumulate: of two writes to the same slot, only
/// the last one is visible, and no other slot is touched.
pub proof fn lemma_setter_overwrites<V>(slots: Seq<Option<V>>, i: int, first: V, second: V)
    requires
        0 <= i < slots.len(),
    ensures
        slots.update(i, Some(first)).update(i, Some(second)) == slots.update(i, Some(second)),
{
    assert(slots.update(i, Some(first)).update(i, Some(second)) =~= slots.update(
        i,
        Some(second),
    ));
}

/// A successful build drains every slot, so a second build on the same
/// instance, with nothing re-set, fails on the first required field of the
/// schema (and every optional field would come out absent again).
pub proof fn lemma_rebuild_after_drain_fails<V>(schema: Seq<FieldSchema>, slots: Seq<Option<V>>)
    requires
        slots.len() == schema.len(),
        forall|i: int| 0 <= i < slots.len() ==> slots[i] is None,
        exists|i: int| 0 <= i < schema.len() && (#[trigger] schema[i]).required,
    ensures
        first_missing(schema, slots) matches Some(k) && schema[k].required && forall|j: int|
            0 <= j < k ==> !(#[trigger] schema[j]).required,
{
    lemma_first_missing_from_characterization(schema, slots, 0);
    match first_missing(schema, slots) {
        Some(k) => {
            assert forall|j: int| 0 <= j < k implies !(#[trigger] schema[j]).required by {
                assert(!missing_at(schema, slots, j));
                assert(slots[j] is None);
            }
        },
        None => {
            let w = choose|i: int| 0 <= i < schema.len() && (#[trigger] schema[i]).required;
            assert(!missing_at(schema, slots, w));
        },
    }
}

/// When no field before `k` blocks the finalizer, the search from the front
/// reaches `k`: it stops there if `k` blocks it, and passes `k` otherwise.
proof fn lemma_first_missing_extends<V>(schema: Seq<FieldSchema>, slots: Seq<Option<V>>, k: int)
    requires
        0 <= k <= schema.len(),
        forall|j: int| 0 <= j < k ==> !missing_at(schema, slots, j),
    ensures
        first_missing_from(schema, slots, 0) == first_missing_from(schema, slots, k),
{
    if k > 0 {
        lemma_first_missing_prefix(schema, slots, 0, k);
    }
}

proof fn lemma_first_missing_prefix<V>(
    schema: Seq<FieldSchema>,
    slots: Seq<Option<V>>,
    i: int,
    k: int,
)
    requires
        0 <= i <= k <= schema.len(),
        forall|j: int| i <= j < k ==> !missing_at(schema, slots, j),
    ensures
        first_missing_from(schema, slots, i) == first_missing_from(schema, slots, k),
    decreases k - i,
{
    if i < k {
        lemma_first_missing_prefix(schema, slots, i + 1, k);
    }
}

} // verus!
