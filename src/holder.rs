//! A holder of the per-field gate at run time.
//!
//! `Holder<V>` carries one flag and one optional slot per field, all fields
//! holding values of one type `V`. Its gates are preconditions: a call that
//! sets a field twice, completes a builder early, consumes a field twice or
//! finishes a consumer early does not verify.
use vstd::prelude::*;
use crate::render::Gate;

verus! {

/// The abstract state of a holder: its kind, one flag per field, and what
/// each field's slot holds.
pub struct GateState<V> {
    pub gate: Gate,
    pub flags: Seq<bool>,
    pub slots: Seq<Option<V>>,
}

/// A flag agrees with its slot: a builder's flag says the slot is filled, a
/// consumer's flag says it was emptied.
pub open spec fn well_formed<V>(s: GateState<V>) -> bool {
    &&& s.flags.len() == s.slots.len()
    &&& forall|k: int|
        0 <= k < s.flags.len() ==> #[trigger] s.flags[k] == match s.gate {
            Gate::Builder => s.slots[k] is Some,
            Gate::Consumer => s.slots[k] is None,
        }
}

/// Every flag is `true`.
pub open spec fn all_flags<V>(s: GateState<V>) -> bool {
    forall|k: int| 0 <= k < s.flags.len() ==> #[trigger] s.flags[k]
}

/// A builder over `n` fields, none of them set.
pub open spec fn fresh_builder<V>(n: nat) -> GateState<V> {
    GateState {
        gate: Gate::Builder,
        flags: Seq::new(n, |k: int| false),
        slots: Seq::new(n, |k: int| None),
    }
}

/// A consumer of the record whose fields hold `values`, none consumed.
pub open spec fn fresh_consumer<V>(values: Seq<V>) -> GateState<V> {
    GateState {
        gate: Gate::Consumer,
        flags: Seq::new(values.len(), |k: int| false),
        slots: Seq::new(values.len(), |k: int| Some(values[k])),
    }
}

/// Field `i` of a builder may be set: its flag is `false`.
pub open spec fn can_set<V>(s: GateState<V>, i: int) -> bool {
    s.gate == Gate::Builder && 0 <= i < s.flags.len() && !s.flags[i]
}

/// Setting field `i` to `v`: its flag becomes `true`, its slot holds `v`,
/// nothing else changes.
pub open spec fn set_step<V>(s: GateState<V>, i: int, v: V) -> GateState<V> {
    GateState { gate: s.gate, flags: s.flags.update(i, true), slots: s.slots.update(i, Some(v)) }
}

/// A builder may be completed: every field was set.
pub open spec fn can_complete<V>(s: GateState<V>) -> bool {
    s.gate == Gate::Builder && all_flags(s)
}

/// The field values that completing a builder yields, in field order.
pub open spec fn completed<V>(s: GateState<V>) -> Seq<V> {
    Seq::new(s.slots.len(), |k: int| s.slots[k]->Some_0)
}

/// Field `i` of a consumer may be consumed: its flag is `false`.
pub open spec fn can_consume<V>(s: GateState<V>, i: int) -> bool {
    s.gate == Gate::Consumer && 0 <= i < s.flags.len() && !s.flags[i]
}

/// Consuming field `i`: its value comes out, its flag becomes `true` and its
/// slot empty, nothing else changes.
pub open spec fn consume_step<V>(s: GateState<V>, i: int) -> (V, GateState<V>) {
    (
        s.slots[i]->Some_0,
        GateState { gate: s.gate, flags: s.flags.update(i, true), slots: s.slots.update(i, None) },
    )
}

/// A consumer may be finished: every field was consumed.
pub open spec fn can_finish<V>(s: GateState<V>) -> bool {
    s.gate == Gate::Consumer && all_flags(s)
}

/// `order` lists each of the fields `0..n` exactly once.
pub open spec fn is_permutation(order: Seq<int>, n: nat) -> bool {
    &&& order.len() == n
    &&& order.no_duplicates()
    &&& forall|j: int| 0 <= j < order.len() ==> 0 <= #[trigger] order[j] < n
    &&& forall|k: int| 0 <= k < n ==> #[trigger] order.contains(k)
}

/// Setting the fields of `order` one after the other, field `f` to
/// `values[f]`, passes every gate.
pub open spec fn sets_admissible<V>(s: GateState<V>, order: Seq<int>, values: Seq<V>) -> bool
    decreases order.len(),
{
    order.len() == 0 || (can_set(s, order[0]) && sets_admissible(
        set_step(s, order[0], values[order[0]]),
        order.drop_first(),
        values,
    ))
}

/// The state after setting the fields of `order` one after the other.
pub open spec fn set_all<V>(s: GateState<V>, order: Seq<int>, values: Seq<V>) -> GateState<V>
    decreases order.len(),
{
    if order.len() == 0 {
        s
    } else {
        set_all(set_step(s, order[0], values[order[0]]), order.drop_first(), values)
    }
}

/// Consuming the fields of `order` one after the other passes every gate.
pub open spec fn consumes_admissible<V>(s: GateState<V>, order: Seq<int>) -> bool
    decreases order.len(),
{
    order.len() == 0 || (can_consume(s, order[0]) && consumes_admissible(
        consume_step(s, order[0]).1,
        order.drop_first(),
    ))
}

/// The values that consuming the fields of `order` one after the other
/// yields, in that order, and the state it leaves.
pub open spec fn consume_all<V>(s: GateState<V>, order: Seq<int>) -> (Seq<V>, GateState<V>)
    decreases order.len(),
{
    if order.len() == 0 {
        (Seq::empty(), s)
    } else {
        let (v, next) = consume_step(s, order[0]);
        let (rest, last) = consume_all(next, order.drop_first());
        (seq![v].add(rest), last)
    }
}

proof fn lemma_contains_first_or_rest(order: Seq<int>, k: int)
    requires
        order.len() > 0,
    ensures
        order.contains(k) <==> (k == order[0] || order.drop_first().contains(k)),
{
    if order.contains(k) && k != order[0] {
        let j = choose|j: int| 0 <= j < order.len() && order[j] == k;
        assert(order.drop_first()[j - 1] == k);
    }
    if order.drop_first().contains(k) {
        let j = choose|j: int| 0 <= j < order.len() - 1 && order.drop_first()[j] == k;
        assert(order[j + 1] == k);
    }
    if k == order[0] {
        assert(order[0] == k);
    }
}

proof fn lemma_set_all<V>(s: GateState<V>, order: Seq<int>, values: Seq<V>)
    requires
        s.gate == Gate::Builder,
        s.flags.len() == s.slots.len(),
        values.len() == s.flags.len(),
        order.no_duplicates(),
        forall|j: int| 0 <= j < order.len() ==> 0 <= #[trigger] order[j] < s.flags.len(),
        forall|j: int| 0 <= j < order.len() ==> !s.flags[#[trigger] order[j]],
    ensures
        sets_admissible(s, order, values),
        set_all(s, order, values).gate == Gate::Builder,
        set_all(s, order, values).flags.len() == s.flags.len(),
        set_all(s, order, values).slots.len() == s.flags.len(),
        forall|k: int|
            0 <= k < s.flags.len() ==> #[trigger] set_all(s, order, values).flags[k] == (s.flags[k]
                || order.contains(k)),
        forall|k: int|
            0 <= k < s.flags.len() ==> #[trigger] set_all(s, order, values).slots[k] == if order.contains(k) {
                Some(values[k])
            } else {
                s.slots[k]
            },
    decreases order.len(),
{
    if order.len() > 0 {
        let i = order[0];
        let s1 = set_step(s, i, values[i]);
        let rest = order.drop_first();
        assert forall|j: int| 0 <= j < rest.len() implies !s1.flags[#[trigger] rest[j]] by {
            assert(rest[j] == order[j + 1]);
            assert(order[j + 1] != order[0]);
        }
        lemma_set_all(s1, rest, values);
        assert forall|k: int| 0 <= k < s.flags.len() implies #[trigger] order.contains(k) == (k
            == i || rest.contains(k)) by {
            lemma_contains_first_or_rest(order, k);
        }
    }
}

proof fn lemma_consume_all<V>(s: GateState<V>, order: Seq<int>)
    requires
        s.gate == Gate::Consumer,
        s.flags.len() == s.slots.len(),
        order.no_duplicates(),
        forall|j: int| 0 <= j < order.len() ==> 0 <= #[trigger] order[j] < s.flags.len(),
        forall|j: int| 0 <= j < order.len() ==> !s.flags[#[trigger] order[j]],
    ensures
        consumes_admissible(s, order),
        consume_all(s, order).0.len() == order.len(),
        forall|j: int|
            0 <= j < order.len() ==> #[trigger] consume_all(s, order).0[j] == s.slots[order[j]]->Some_0,
        consume_all(s, order).1.gate == Gate::Consumer,
        consume_all(s, order).1.flags.len() == s.flags.len(),
        forall|k: int|
            0 <= k < s.flags.len() ==> #[trigger] consume_all(s, order).1.flags[k] == (s.flags[k]
                || order.contains(k)),
    decreases order.len(),
{
    if order.len() > 0 {
        let i = order[0];
        let s1 = consume_step(s, i).1;
        let rest = order.drop_first();
        assert forall|j: int| 0 <= j < rest.len() implies !s1.flags[#[trigger] rest[j]] by {
            assert(rest[j] == order[j + 1]);
            assert(order[j + 1] != order[0]);
        }
        lemma_consume_all(s1, rest);
        assert forall|j: int| 0 <= j < order.len() implies #[trigger] consume_all(s, order).0[j]
            == s.slots[order[j]]->Some_0 by {
            if j > 0 {
                assert(rest[j - 1] == order[j]);
                assert(order[j] != order[0]);
            }
        }
        assert forall|k: int| 0 <= k < s.flags.len() implies #[trigger] order.contains(k) == (k
            == i || rest.contains(k)) by {
            lemma_contains_first_or_rest(order, k);
        }
    }
}

/// Setting every field of a fresh builder exactly once, in any order, passes
/// every gate, leaves a builder that may be completed, and completing it
/// yields the field values as if the record had been written down directly.
pub proof fn lemma_build_in_any_order<V>(values: Seq<V>, order: Seq<int>)
    requires
        is_permutation(order, values.len()),
    ensures
        sets_admissible(fresh_builder::<V>(values.len()), order, values),
        can_complete(set_all(fresh_builder::<V>(values.len()), order, values)),
        completed(set_all(fresh_builder::<V>(values.len()), order, values)) == values,
{
    let s = fresh_builder::<V>(values.len());
    lemma_set_all(s, order, values);
    let t = set_all(s, order, values);
    assert(completed(t) =~= values);
}

/// Consuming every field of a fresh consumer exactly once, in any order,
/// passes every gate, yields for each field the value the record held there
/// (the `j`-th value out is that of the `j`-th field consumed), and leaves a
/// consumer that may be finished.
pub proof fn lemma_consume_in_any_order<V>(values: Seq<V>, order: Seq<int>)
    requires
        is_permutation(order, values.len()),
    ensures
        consumes_admissible(fresh_consumer(values), order),
        consume_all(fresh_consumer(values), order).0.len() == values.len(),
        forall|j: int|
            0 <= j < values.len() ==> #[trigger] consume_all(fresh_consumer(values), order).0[j]
                == values[order[j]],
        can_finish(consume_all(fresh_consumer(values), order).1),
{
    lemma_consume_all(fresh_consumer(values), order);
}

/// A record without fields: a fresh builder may be completed at once and
/// yields nothing; a fresh consumer may be finished at once.
pub proof fn lemma_no_fields<V>()
    ensures
        can_complete(fresh_builder::<V>(0)),
        completed(fresh_builder::<V>(0)) == Seq::<V>::empty(),
        can_finish(fresh_consumer(Seq::<V>::empty())),
{
    assert(completed(fresh_builder::<V>(0)) =~= Seq::<V>::empty());
}

/// The gates refuse misuse: a field just set cannot be set again, a field
/// just consumed cannot be consumed again, a fresh builder with fields cannot
/// be completed, and a fresh consumer with fields cannot be finished.
pub proof fn lemma_gates_refuse_misuse<V>(s: GateState<V>, i: int, v: V, values: Seq<V>, n: nat)
    ensures
        can_set(s, i) ==> !can_set(set_step(s, i, v), i),
        can_consume(s, i) ==> !can_consume(consume_step(s, i).1, i),
        n > 0 ==> !can_complete(fresh_builder::<V>(n)),
        values.len() > 0 ==> !can_finish(fresh_consumer(values)),
{
    if n > 0 {
        assert(!fresh_builder::<V>(n).flags[0]);
    }
    if values.len() > 0 {
        assert(!fresh_consumer(values).flags[0]);
    }
}

/// A builder or consumer over fields that all hold values of type `V`.
pub struct Holder<V> {
    gate: Gate,
    flags: Vec<bool>,
    slots: Vec<Option<V>>,
}

impl<V> View for Holder<V> {
    type V = GateState<V>;

    closed spec fn view(&self) -> GateState<V> {
        GateState { gate: self.gate, flags: self.flags@, slots: self.slots@ }
    }
}

impl<V> Holder<V> {
    /// The holder's flags agree with its slots.
    pub open spec fn wf(&self) -> bool {
        well_formed(self@)
    }

    /// A builder over `n` fields, none of them set.
    pub fn builder(n: usize) -> (r: Self)
        ensures
            r.wf(),
            r@ == fresh_builder::<V>(n as nat),
    {
        let mut flags: Vec<bool> = Vec::new();
        let mut slots: Vec<Option<V>> = Vec::new();
        let mut k: usize = 0;
        while k < n
            invariant
                k <= n,
                flags@ == Seq::new(k as nat, |j: int| false),
                slots@ == Seq::new(k as nat, |j: int| None::<V>),
            decreases n - k,
        {
            flags.push(false);
            slots.push(None);
            k = k + 1;
            assert(flags@ =~= Seq::new(k as nat, |j: int| false));
            assert(slots@ =~= Seq::new(k as nat, |j: int| None::<V>));
        }
        let r = Holder { gate: Gate::Builder, flags, slots };
        assert(r@ =~= fresh_builder::<V>(n as nat));
        r
    }

    /// A consumer of the record whose fields hold `values`, in field order.
    pub fn consumer(values: Vec<V>) -> (r: Self)
        ensures
            r.wf(),
            r@ == fresh_consumer(values@),
    {
        let ghost all = values@;
        let mut values = values;
        let mut flags: Vec<bool> = Vec::new();
        let mut slots: Vec<Option<V>> = Vec::new();
        while values.len() > 0
            invariant
                flags@.len() + values@.len() == all.len(),
                values@ == all.skip(flags@.len() as int),
                flags@ == Seq::new(flags@.len(), |j: int| false),
                slots@ == Seq::new(flags@.len(), |j: int| Some(all[j])),
            decreases values@.len(),
        {
            let v = values.remove(0);
            flags.push(false);
            slots.push(Some(v));
            assert(values@ =~= all.skip(flags@.len() as int));
            assert(flags@ =~= Seq::new(flags@.len(), |j: int| false));
            assert(slots@ =~= Seq::new(flags@.len(), |j: int| Some(all[j])));
        }
        let r = Holder { gate: Gate::Consumer, flags, slots };
        assert(r@ =~= fresh_consumer(all));
        r
    }

    /// The number of fields.
    pub fn len(&self) -> (r: usize)
        requires
            self.wf(),
        ensures
            r == self@.flags.len(),
    {
        self.flags.len()
    }

    /// The flag of field `i`: set for a builder, consumed for a consumer.
    pub fn flag(&self, i: usize) -> (r: bool)
        requires
            self.wf(),
            i < self@.flags.len(),
        ensures
            r == self@.flags[i as int],
    {
        self.flags[i]
    }

    /// Every flag is `true`: a builder may be completed, a consumer finished.
    pub fn is_complete(&self) -> (r: bool)
        requires
            self.wf(),
        ensures
            r == all_flags(self@),
    {
        let mut k: usize = 0;
        while k < self.flags.len()
            invariant
                k <= self@.flags.len(),
                forall|j: int| 0 <= j < k ==> #[trigger] self@.flags[j],
            decreases self@.flags.len() - k,
        {
            if !self.flags[k] {
                return false;
            }
            k = k + 1;
        }
        true
    }

    /// Sets field `i` of a builder whose flag for `i` is still `false`.
    pub fn set_field(self, i: usize, v: V) -> (r: Self)
        requires
            self.wf(),
            can_set(self@, i as int),
        ensures
            r.wf(),
            r@ == set_step(self@, i as int, v),
    {
        let mut h = self;
        h.flags.set(i, true);
        h.slots.set(i, Some(v));
        assert(h@ =~= set_step(self@, i as int, v));
        h
    }

    /// Completes a builder whose fields were all set, yielding the field
    /// values in field order.
    pub fn complete(self) -> (r: Vec<V>)
        requires
            self.wf(),
            can_complete(self@),
        ensures
            r@ == completed(self@),
    {
        let ghost s = self@;
        let mut slots = self.slots;
        let mut out: Vec<V> = Vec::new();
        while slots.len() > 0
            invariant
                out@.len() + slots@.len() == s.slots.len(),
                slots@ == s.slots.skip(out@.len() as int),
                out@ == completed(s).take(out@.len() as int),
                well_formed(s),
                can_complete(s),
            decreases slots@.len(),
        {
            let o = slots.remove(0);
            assert(s.flags[out@.len() as int]);
            out.push(o.unwrap());
            assert(slots@ =~= s.slots.skip(out@.len() as int));
            assert(out@ =~= completed(s).take(out@.len() as int));
        }
        assert(out@ =~= completed(s));
        out
    }

    /// Moves field `i` out of a consumer whose flag for `i` is still `false`.
    pub fn consume_field(self, i: usize) -> (r: (V, Self))
        requires
            self.wf(),
            can_consume(self@, i as int),
        ensures
            r.1.wf(),
            (r.0, r.1@) == consume_step(self@, i as int),
    {
        let mut h = self;
        let mut out: Option<V> = None;
        h.slots.set_and_swap(i, &mut out);
        h.flags.set(i, true);
        assert(h@ =~= consume_step(self@, i as int).1);
        (out.unwrap(), h)
    }

    /// Finishes a consumer whose fields were all consumed.
    pub fn consume(self)
        requires
            self.wf(),
            can_finish(self@),
    {
    }
}

} // verus!
