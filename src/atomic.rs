use vstd::prelude::*;

use crate::handle::{RawResourceHandle, ResourceHandle};
use crate::property::{Handle as PropertyHandle, RawValue, Value};

verus! {

/// The abstract content of a request: for each object in order, its raw id and
/// the (property id, raw value) pairs set on it, in order.
pub type RequestView = Seq<(u32, Seq<(u32, u64)>)>;

/// Whether every element is smaller than the next one.
pub open spec fn strictly_sorted(s: Seq<u32>) -> bool {
    forall|i: int, j: int| 0 <= i < j < s.len() ==> s[i] < s[j]
}

/// The number of elements of `s` that lie before the first one not below `x`.
pub open spec fn lower_bound(s: Seq<u32>, x: u32) -> nat
    decreases s.len(),
{
    if s.len() == 0 {
        0
    } else if s[0] >= x {
        0
    } else {
        1 + lower_bound(s.drop_first(), x)
    }
}

/// The object ids of a request, in order.
pub open spec fn object_ids(s: RequestView) -> Seq<u32> {
    s.map_values(|e: (u32, Seq<(u32, u64)>)| e.0)
}

/// The property ids of one object's pairs, in order.
pub open spec fn property_ids(t: Seq<(u32, u64)>) -> Seq<u32> {
    t.map_values(|e: (u32, u64)| e.0)
}

/// The values of one object's pairs, in order.
pub open spec fn property_values(t: Seq<(u32, u64)>) -> Seq<u64> {
    t.map_values(|e: (u32, u64)| e.1)
}

/// Objects sorted and unique, each with at least one property, and each
/// object's properties sorted and unique.
pub open spec fn well_formed(s: RequestView) -> bool {
    &&& strictly_sorted(object_ids(s))
    &&& forall|i: int|
        0 <= i < s.len() ==> #[trigger] s[i].1.len() > 0 && strictly_sorted(property_ids(s[i].1))
}

/// The total number of (property, value) pairs of a request.
pub open spec fn total_props(s: RequestView) -> nat
    decreases s.len(),
{
    if s.len() == 0 {
        0
    } else {
        s[0].1.len() + total_props(s.drop_first())
    }
}

/// One object's pairs after setting property `p` to `v`: an existing pair for
/// `p` is overwritten, otherwise a pair is inserted where the order keeps.
pub open spec fn put_property(t: Seq<(u32, u64)>, p: u32, v: u64) -> Seq<(u32, u64)> {
    let j = lower_bound(property_ids(t), p) as int;
    if j < t.len() && t[j].0 == p {
        t.update(j, (p, v))
    } else {
        t.insert(j, (p, v))
    }
}

/// Whether property `p` of object `o` is set in the request.
pub open spec fn is_set(s: RequestView, o: u32, p: u32) -> bool {
    let i = lower_bound(object_ids(s), o) as int;
    let j = lower_bound(property_ids(s[i].1), p) as int;
    i < s.len() && s[i].0 == o && j < s[i].1.len() && s[i].1[j].0 == p
}

/// A request after setting property `p` of object `o` to `v`.
pub open spec fn added(s: RequestView, o: u32, p: u32, v: u64) -> RequestView {
    let i = lower_bound(object_ids(s), o) as int;
    if i < s.len() && s[i].0 == o {
        s.update(i, (o, put_property(s[i].1, p, v)))
    } else {
        s.insert(i, (o, seq![(p, v)]))
    }
}

proof fn lemma_lower_bound(s: Seq<u32>, x: u32, i: int)
    requires
        0 <= i <= s.len(),
        forall|k: int| 0 <= k < i ==> s[k] < x,
        forall|k: int| i <= k < s.len() ==> s[k] >= x,
    ensures
        lower_bound(s, x) == i,
    decreases s.len(),
{
    if s.len() > 0 && i > 0 {
        lemma_lower_bound(s.drop_first(), x, i - 1);
    }
}

proof fn lemma_lower_bound_bounds(s: Seq<u32>, x: u32)
    requires
        strictly_sorted(s),
    ensures
        lower_bound(s, x) <= s.len(),
        forall|k: int| 0 <= k < lower_bound(s, x) ==> s[k] < x,
        forall|k: int| lower_bound(s, x) <= k < s.len() ==> s[k] >= x,
    decreases s.len(),
{
    if s.len() > 0 {
        if s[0] < x {
            let t = s.drop_first();
            assert(strictly_sorted(t)) by {
                assert forall|i: int, j: int| 0 <= i < j < t.len() implies t[i] < t[j] by {
                    assert(t[i] == s[i + 1] && t[j] == s[j + 1]);
                }
            }
            lemma_lower_bound_bounds(t, x);
            assert forall|k: int| 0 <= k < lower_bound(s, x) implies s[k] < x by {
                if k > 0 {
                    assert(s[k] == t[k - 1]);
                }
            }
            assert forall|k: int| lower_bound(s, x) <= k < s.len() implies s[k] >= x by {
                assert(s[k] == t[k - 1]);
            }
        } else {
            assert forall|k: int| lower_bound(s, x) <= k < s.len() implies s[k] >= x by {
                if k > 0 {
                    assert(s[0] < s[k]);
                }
            }
        }
    }
}

proof fn lemma_sorted_insert(s: Seq<u32>, i: int, x: u32)
    requires
        strictly_sorted(s),
        0 <= i <= s.len(),
        forall|k: int| 0 <= k < i ==> s[k] < x,
        forall|k: int| i <= k < s.len() ==> s[k] > x,
    ensures
        strictly_sorted(s.insert(i, x)),
{
    let r = s.insert(i, x);
    assert forall|a: int, b: int| 0 <= a < b < r.len() implies r[a] < r[b] by {
        if b < i {
        } else if b == i {
        } else if a < i {
            assert(r[b] == s[b - 1]);
        } else if a == i {
            assert(r[b] == s[b - 1]);
        } else {
            assert(r[a] == s[a - 1] && r[b] == s[b - 1]);
        }
    }
}

proof fn lemma_total_insert(s: RequestView, i: int, e: (u32, Seq<(u32, u64)>))
    requires
        0 <= i <= s.len(),
    ensures
        total_props(s.insert(i, e)) == total_props(s) + e.1.len(),
    decreases s.len(),
{
    if i == 0 {
        assert(s.insert(i, e).drop_first() =~= s);
    } else {
        assert(s.insert(i, e).drop_first() =~= s.drop_first().insert(i - 1, e));
        lemma_total_insert(s.drop_first(), i - 1, e);
    }
}

proof fn lemma_total_update(s: RequestView, i: int, e: (u32, Seq<(u32, u64)>))
    requires
        0 <= i < s.len(),
    ensures
        total_props(s.update(i, e)) + s[i].1.len() == total_props(s) + e.1.len(),
    decreases s.len(),
{
    if i == 0 {
        assert(s.update(i, e).drop_first() =~= s.drop_first());
    } else {
        assert(s.update(i, e).drop_first() =~= s.drop_first().update(i - 1, e));
        lemma_total_update(s.drop_first(), i - 1, e);
    }
}

/// Setting a property that is present keeps the pairs' count; otherwise it
/// grows by one. The result keeps the order, holds `(p, v)`, and `p` stays
/// at the position where it was looked up.
proof fn lemma_put_property(t: Seq<(u32, u64)>, p: u32, v: u64)
    requires
        strictly_sorted(property_ids(t)),
    ensures
        ({
            let j = lower_bound(property_ids(t), p) as int;
            let r = put_property(t, p, v);
            let present = j < t.len() && t[j].0 == p;
            &&& strictly_sorted(property_ids(r))
            &&& r.len() > 0
            &&& 0 <= j < r.len()
            &&& r[j] == (p, v)
            &&& lower_bound(property_ids(r), p) == j
            &&& r.len() == if present { t.len() } else { t.len() + 1 }
        }),
{
    let ks = property_ids(t);
    let n = t.len() as int;
    lemma_lower_bound_bounds(ks, p);
    let j = lower_bound(ks, p) as int;
    let r = put_property(t, p, v);
    let rk = property_ids(r);
    if j < n && t[j].0 == p {
        assert(rk =~= ks);
    } else {
        assert(rk =~= ks.insert(j, p));
        assert forall|k: int| j <= k < n implies ks[k] > p by {
            assert(ks[j] == t[j].0);
            if k > j {
                assert(ks[j] < ks[k]);
            }
        }
        lemma_sorted_insert(ks, j, p);
    }
    lemma_lower_bound(rk, p, j);
}

/// Adding keeps a request well formed, puts the pair in place, and grows the
/// count of pairs by one unless the property was already set on the object.
proof fn lemma_added(s: RequestView, o: u32, p: u32, v: u64)
    requires
        well_formed(s),
    ensures
        ({
            let i = lower_bound(object_ids(s), o) as int;
            let r = added(s, o, p, v);
            &&& well_formed(r)
            &&& 0 <= i < r.len()
            &&& r[i].0 == o
            &&& lower_bound(object_ids(r), o) == i
            &&& i < s.len() && s[i].0 == o ==> r[i].1 == put_property(s[i].1, p, v)
            &&& !(i < s.len() && s[i].0 == o) ==> r[i].1 == seq![(p, v)]
            &&& total_props(r) == total_props(s) + if is_set(s, o, p) { 0nat } else { 1nat }
            &&& is_set(r, o, p)
        }),
{
    let ks = object_ids(s);
    let n = s.len() as int;
    lemma_lower_bound_bounds(ks, o);
    let i = lower_bound(ks, o) as int;
    let r = added(s, o, p, v);
    let rk = object_ids(r);
    if i < n && s[i].0 == o {
        lemma_put_property(s[i].1, p, v);
        assert(rk =~= ks);
        lemma_total_update(s, i, (o, put_property(s[i].1, p, v)));
        assert forall|k: int| 0 <= k < r.len() implies #[trigger] r[k].1.len() > 0
            && strictly_sorted(property_ids(r[k].1)) by {
            if k != i {
                assert(r[k] == s[k]);
            }
        }
        let j = lower_bound(property_ids(s[i].1), p) as int;
        assert(r[i].1[j] == (p, v));
    } else {
        assert(property_ids(seq![(p, v)]) =~= seq![p]);
        lemma_lower_bound(property_ids(seq![(p, v)]), p, 0);
        assert(rk =~= ks.insert(i, o));
        assert forall|k: int| i <= k < n implies ks[k] > o by {
            assert(ks[i] == s[i].0);
            if k > i {
                assert(ks[i] < ks[k]);
            }
        }
        lemma_sorted_insert(ks, i, o);
        lemma_total_insert(s, i, (o, seq![(p, v)]));
        assert forall|k: int| 0 <= k < r.len() implies #[trigger] r[k].1.len() > 0
            && strictly_sorted(property_ids(r[k].1)) by {
            if k < i {
                assert(r[k] == s[k]);
            } else if k > i {
                assert(r[k] == s[k - 1]);
            } else {
                assert(property_ids(r[k].1) =~= seq![p]);
            }
        }
    }
    lemma_lower_bound(rk, o, i);
}

/// Every valid request keeps its order: objects, and each object's
/// properties, sorted and unique.
pub proof fn lemma_wf_well_formed(req: &AtomicModeReq)
    requires
        req.wf(),
    ensures
        well_formed(req@),
{
}

/// Setting a property of an object twice leaves the request as if only the
/// second value had been set: the last write wins.
pub proof fn lemma_last_write_wins(s: RequestView, o: u32, p: u32, v1: u64, v2: u64)
    requires
        well_formed(s),
    ensures
        added(added(s, o, p, v1), o, p, v2) == added(s, o, p, v2),
{
    let i = lower_bound(object_ids(s), o) as int;
    let r1 = added(s, o, p, v1);
    lemma_lower_bound_bounds(object_ids(s), o);
    lemma_added(s, o, p, v1);
    if i < s.len() && s[i].0 == o {
        let t = s[i].1;
        lemma_put_property(t, p, v1);
        let j = lower_bound(property_ids(t), p) as int;
        let t1 = put_property(t, p, v1);
        assert(put_property(t1, p, v2) =~= put_property(t, p, v2));
        assert(r1 == s.update(i, (o, t1)));
        assert(r1[i].1 == t1);
        assert(added(r1, o, p, v2) == r1.update(i, (o, put_property(t1, p, v2))));
        assert(added(r1, o, p, v2) =~= added(s, o, p, v2));
    } else {
        let t1: Seq<(u32, u64)> = seq![(p, v1)];
        assert(property_ids(t1) =~= seq![p]);
        lemma_lower_bound(property_ids(t1), p, 0);
        assert(put_property(t1, p, v2) =~= seq![(p, v2)]);
        assert(r1 == s.insert(i, (o, t1)));
        assert(r1[i].1 == t1);
        assert(added(r1, o, p, v2) == r1.update(i, (o, put_property(t1, p, v2))));
        assert(added(s, o, p, v2) =~= s.insert(i, (o, seq![(p, v2)])));
        assert(r1.update(i, (o, seq![(p, v2)])) =~= s.insert(i, (o, seq![(p, v2)])));
    }
}

/// Setting the same property of an object to the same value twice gives the
/// same request as setting it once.
pub proof fn lemma_add_idempotent(s: RequestView, o: u32, p: u32, v: u64)
    requires
        well_formed(s),
    ensures
        added(added(s, o, p, v), o, p, v) == added(s, o, p, v),
{
    lemma_last_write_wins(s, o, p, v, v);
}

/// The number of properties set on each object, in object order.
pub open spec fn prop_counts(s: RequestView) -> Seq<u32> {
    s.map_values(|e: (u32, Seq<(u32, u64)>)| e.1.len() as u32)
}

/// The property ids of all objects, one object's after another's.
pub open spec fn flat_props(s: RequestView) -> Seq<u32> {
    s.map_values(|e: (u32, Seq<(u32, u64)>)| property_ids(e.1)).flatten()
}

/// The values of all objects, aligned with `flat_props`.
pub open spec fn flat_values(s: RequestView) -> Seq<u64> {
    s.map_values(|e: (u32, Seq<(u32, u64)>)| property_values(e.1)).flatten()
}

/// The `k`-th object's slice of the flat property array.
pub open spec fn object_slice(s: RequestView, k: int) -> Seq<u32> {
    flat_props(s).subrange(slice_start(s, k) as int, slice_start(s, k) + prop_counts(s)[k])
}

/// The sum of a sequence of counts.
pub open spec fn sum_counts(c: Seq<u32>) -> nat
    decreases c.len(),
{
    if c.len() == 0 {
        0
    } else {
        (c[0] + sum_counts(c.drop_first())) as nat
    }
}

/// Where the properties of the `k`-th object start in the flat arrays.
pub open spec fn slice_start(s: RequestView, k: int) -> nat {
    sum_counts(prop_counts(s).take(k))
}

proof fn lemma_elem_le_total(s: RequestView, i: int)
    requires
        0 <= i < s.len(),
    ensures
        s[i].1.len() <= total_props(s),
    decreases s.len(),
{
    if i > 0 {
        lemma_elem_le_total(s.drop_first(), i - 1);
    }
}

proof fn lemma_flat_lengths(s: RequestView)
    requires
        forall|i: int| 0 <= i < s.len() ==> #[trigger] s[i].1.len() <= u32::MAX,
    ensures
        sum_counts(prop_counts(s)) == total_props(s),
        flat_props(s).len() == total_props(s),
        flat_values(s).len() == total_props(s),
    decreases s.len(),
{
    if s.len() > 0 {
        let rest = s.drop_first();
        assert(prop_counts(s).drop_first() =~= prop_counts(rest));
        assert(s.map_values(|e: (u32, Seq<(u32, u64)>)| property_ids(e.1)).drop_first()
            =~= rest.map_values(|e: (u32, Seq<(u32, u64)>)| property_ids(e.1)));
        assert(s.map_values(|e: (u32, Seq<(u32, u64)>)| property_values(e.1)).drop_first()
            =~= rest.map_values(|e: (u32, Seq<(u32, u64)>)| property_values(e.1)));
        assert forall|i: int| 0 <= i < rest.len() implies #[trigger] rest[i].1.len() <= u32::MAX by {
            assert(rest[i] == s[i + 1]);
        }
        lemma_flat_lengths(rest);
    }
}

proof fn lemma_flat_slice(s: RequestView, k: int)
    requires
        0 <= k < s.len(),
        forall|i: int| 0 <= i < s.len() ==> #[trigger] s[i].1.len() <= u32::MAX,
    ensures
        slice_start(s, k) + s[k].1.len() <= total_props(s),
        flat_props(s).subrange(slice_start(s, k) as int, (slice_start(s, k) + s[k].1.len()) as int)
            == property_ids(s[k].1),
        flat_values(s).subrange(slice_start(s, k) as int, (slice_start(s, k) + s[k].1.len()) as int)
            == property_values(s[k].1),
    decreases k,
{
    let rest = s.drop_first();
    let mp = s.map_values(|e: (u32, Seq<(u32, u64)>)| property_ids(e.1));
    let mv = s.map_values(|e: (u32, Seq<(u32, u64)>)| property_values(e.1));
    assert(mp.drop_first() =~= rest.map_values(|e: (u32, Seq<(u32, u64)>)| property_ids(e.1)));
    assert(mv.drop_first() =~= rest.map_values(|e: (u32, Seq<(u32, u64)>)| property_values(e.1)));
    assert(flat_props(s) == property_ids(s[0].1) + flat_props(rest));
    assert(flat_values(s) == property_values(s[0].1) + flat_values(rest));
    assert forall|i: int| 0 <= i < rest.len() implies #[trigger] rest[i].1.len() <= u32::MAX by {
        assert(rest[i] == s[i + 1]);
    }
    lemma_flat_lengths(s);
    lemma_flat_lengths(rest);
    if k == 0 {
        assert(prop_counts(s).take(0) =~= Seq::<u32>::empty());
        assert(flat_props(s).subrange(0, s[0].1.len() as int) =~= property_ids(s[0].1));
        assert(flat_values(s).subrange(0, s[0].1.len() as int) =~= property_values(s[0].1));
    } else {
        lemma_flat_slice(rest, k - 1);
        assert(prop_counts(s).take(k).drop_first() =~= prop_counts(rest).take(k - 1));
        assert(slice_start(s, k) == s[0].1.len() + slice_start(rest, k - 1));
        assert(rest[k - 1] == s[k]);
        let a = slice_start(rest, k - 1) as int;
        let l = s[k].1.len() as int;
        assert(flat_props(s).subrange(s[0].1.len() + a, s[0].1.len() + a + l)
            =~= flat_props(rest).subrange(a, a + l));
        assert(flat_values(s).subrange(s[0].1.len() + a, s[0].1.len() + a + l)
            =~= flat_values(rest).subrange(a, a + l));
    }
}

/// The properties set on one object, sorted by property id.
struct ObjectProps {
    obj: u32,
    props: Vec<(u32, u64)>,
}

/// A pending atomic commit: the properties to set, grouped by object. Objects
/// and each object's properties are kept sorted by id and unique; setting a
/// property again replaces its value. The request is handed to the kernel as
/// flat arrays: see `objects`, `count_props_per_object`, `props` and `values`.
pub struct AtomicModeReq {
    entries: Vec<ObjectProps>,
    n_props: usize,
}

impl AtomicModeReq {
    /// For each object in order, its id and its (property id, value) pairs.
    pub closed spec fn view(&self) -> RequestView {
        self.entries@.map_values(|e: ObjectProps| (e.obj, e.props@))
    }

    /// The request keeps its order, and its count of pairs fits the kernel's
    /// 32-bit counters.
    pub closed spec fn wf(&self) -> bool {
        &&& well_formed(self@)
        &&& self.n_props == total_props(self@)
        &&& self.n_props <= u32::MAX
    }

    /// An empty request.
    pub fn new() -> (r: AtomicModeReq)
        ensures
            r.wf(),
            well_formed(r@),
            r@ == Seq::<(u32, Seq<(u32, u64)>)>::empty(),
    {
        let r = AtomicModeReq { entries: Vec::new(), n_props: 0 };
        assert(r@ =~= Seq::<(u32, Seq<(u32, u64)>)>::empty());
        r
    }

    /// The number of (object, property) pairs that the request sets.
    pub fn len(&self) -> (r: usize)
        requires
            self.wf(),
        ensures
            r == total_props(self@),
    {
        self.n_props
    }

    fn find_object(&self, o: u32) -> (r: usize)
        requires
            self.wf(),
        ensures
            r == lower_bound(object_ids(self@), o),
    {
        let ghost ids = object_ids(self@);
        let mut lo: usize = 0;
        let mut hi: usize = self.entries.len();
        while lo < hi
            invariant
                lo <= hi <= self.entries@.len(),
                ids.len() == self.entries@.len(),
                strictly_sorted(ids),
                forall|k: int| 0 <= k < ids.len() ==> #[trigger] ids[k] == self.entries@[k].obj,
                forall|k: int| 0 <= k < lo ==> ids[k] < o,
                forall|k: int| hi <= k < ids.len() ==> ids[k] >= o,
            decreases hi - lo,
        {
            let mid = lo + (hi - lo) / 2;
            if self.entries[mid].obj < o {
                assert forall|k: int| 0 <= k < mid + 1 implies ids[k] < o by {
                    if k < mid {
                        assert(ids[k] < ids[mid as int]);
                    }
                }
                lo = mid + 1;
            } else {
                assert forall|k: int| mid <= k < ids.len() implies ids[k] >= o by {
                    if k > mid {
                        assert(ids[mid as int] < ids[k]);
                    }
                }
                hi = mid;
            }
        }
        proof {
            lemma_lower_bound(ids, o, lo as int);
        }
        lo
    }

    fn find_property(props: &Vec<(u32, u64)>, p: u32) -> (r: usize)
        requires
            strictly_sorted(property_ids(props@)),
        ensures
            r == lower_bound(property_ids(props@), p),
    {
        let ghost ids = property_ids(props@);
        let mut lo: usize = 0;
        let mut hi: usize = props.len();
        while lo < hi
            invariant
                lo <= hi <= props@.len(),
                ids.len() == props@.len(),
                strictly_sorted(ids),
                forall|k: int| 0 <= k < ids.len() ==> #[trigger] ids[k] == props@[k].0,
                forall|k: int| 0 <= k < lo ==> ids[k] < p,
                forall|k: int| hi <= k < ids.len() ==> ids[k] >= p,
            decreases hi - lo,
        {
            let mid = lo + (hi - lo) / 2;
            if props[mid].0 < p {
                assert forall|k: int| 0 <= k < mid + 1 implies ids[k] < p by {
                    if k < mid {
                        assert(ids[k] < ids[mid as int]);
                    }
                }
                lo = mid + 1;
            } else {
                assert forall|k: int| mid <= k < ids.len() implies ids[k] >= p by {
                    if k > mid {
                        assert(ids[mid as int] < ids[k]);
                    }
                }
                hi = mid;
            }
        }
        proof {
            lemma_lower_bound(ids, p, lo as int);
        }
        lo
    }

    /// Sets property `prop_id` of object `obj_id` to `value`, replacing an
    /// earlier value of the same pair. A new object or property is inserted
    /// where the order keeps.
    pub fn add_raw_property(&mut self, obj_id: RawResourceHandle, prop_id: PropertyHandle, value: RawValue)
        requires
            old(self).wf(),
            total_props(old(self)@) < u32::MAX || is_set(old(self)@, obj_id@, prop_id@),
        ensures
            final(self).wf(),
            well_formed(final(self)@),
            final(self)@ == added(old(self)@, obj_id@, prop_id@, value),
            is_set(final(self)@, obj_id@, prop_id@),
            total_props(final(self)@) == total_props(old(self)@) + if is_set(old(self)@, obj_id@, prop_id@) { 0nat } else { 1nat },
    {
        let o = obj_id.get();
        let p = prop_id.as_raw().get();
        let ghost s = self@;
        let i = self.find_object(o);
        proof {
            lemma_lower_bound_bounds(object_ids(s), o);
            lemma_added(s, o, p, value);
        }
        if i < self.entries.len() && self.entries[i].obj == o {
            let mut e = self.entries.remove(i);
            proof {
                assert(s[i as int].1 == e.props@);
                lemma_lower_bound_bounds(property_ids(e.props@), p);
            }
            let j = Self::find_property(&e.props, p);
            if j < e.props.len() && e.props[j].0 == p {
                e.props.set(j, (p, value));
            } else {
                e.props.insert(j, (p, value));
                self.n_props = self.n_props + 1;
            }
            self.entries.insert(i, e);
        } else {
            let mut props: Vec<(u32, u64)> = Vec::new();
            props.push((p, value));
            self.entries.insert(i, ObjectProps { obj: o, props });
            self.n_props = self.n_props + 1;
        }
        assert(self@ =~= added(s, o, p, value));
    }

    /// Sets property `property` of the object that `handle` refers to.
    pub fn add_property<H: ResourceHandle>(&mut self, handle: H, property: PropertyHandle, value: Value)
        requires
            old(self).wf(),
            total_props(old(self)@) < u32::MAX || is_set(old(self)@, handle.raw_id(), property@),
        ensures
            final(self).wf(),
            well_formed(final(self)@),
            final(self)@ == added(old(self)@, handle.raw_id(), property@, crate::property::encode(value)),
            is_set(final(self)@, handle.raw_id(), property@),
    {
        let raw = handle.as_raw();
        let v = value.to_raw();
        self.add_raw_property(raw, property, v);
    }

    /// The ids of the objects that the request touches, sorted.
    pub fn objects(&self) -> (r: Vec<u32>)
        ensures
            r@ == object_ids(self@),
    {
        let mut r: Vec<u32> = Vec::new();
        let mut i: usize = 0;
        while i < self.entries.len()
            invariant
                i <= self.entries@.len(),
                r@ == object_ids(self@).take(i as int),
            decreases self.entries@.len() - i,
        {
            r.push(self.entries[i].obj);
            i = i + 1;
            assert(r@ =~= object_ids(self@).take(i as int));
        }
        assert(r@ =~= object_ids(self@));
        r
    }

    /// For each object, in the order of `objects`, how many properties are set.
    pub fn count_props_per_object(&self) -> (r: Vec<u32>)
        requires
            self.wf(),
        ensures
            r@ == prop_counts(self@),
            forall|k: int| 0 <= k < r@.len() ==> r@[k] == self@[k].1.len(),
    {
        let mut r: Vec<u32> = Vec::new();
        let mut i: usize = 0;
        while i < self.entries.len()
            invariant
                self.wf(),
                i <= self.entries@.len(),
                r@ == prop_counts(self@).take(i as int),
            decreases self.entries@.len() - i,
        {
            proof {
                lemma_elem_le_total(self@, i as int);
            }
            r.push(self.entries[i].props.len() as u32);
            i = i + 1;
            assert(r@ =~= prop_counts(self@).take(i as int));
        }
        assert(r@ =~= prop_counts(self@));
        assert forall|k: int| 0 <= k < r@.len() implies r@[k] == self@[k].1.len() by {
            lemma_elem_le_total(self@, k);
        }
        r
    }

    /// The property ids of every object, in object order and, within one
    /// object, sorted.
    pub fn props(&self) -> (r: Vec<u32>)
        ensures
            r@ == flat_props(self@),
    {
        let ghost m = self@.map_values(|e: (u32, Seq<(u32, u64)>)| property_ids(e.1));
        let mut r: Vec<u32> = Vec::new();
        let mut i: usize = 0;
        assert(m.take(0) =~= Seq::<Seq<u32>>::empty());
        while i < self.entries.len()
            invariant
                i <= self.entries@.len(),
                m == self@.map_values(|e: (u32, Seq<(u32, u64)>)| property_ids(e.1)),
                r@ == m.take(i as int).flatten(),
            decreases self.entries@.len() - i,
        {
            let ghost before = r@;
            let props = &self.entries[i].props;
            let mut j: usize = 0;
            while j < props.len()
                invariant
                    j <= props@.len(),
                    props@ == self@[i as int].1,
                    r@ == before + property_ids(props@).take(j as int),
                decreases props@.len() - j,
            {
                r.push(props[j].0);
                j = j + 1;
                assert(r@ =~= before + property_ids(props@).take(j as int));
            }
            proof {
                assert(property_ids(props@).take(j as int) =~= m[i as int]);
                assert(m.take(i + 1) =~= m.take(i as int).push(m[i as int]));
                m.take(i as int).lemma_flatten_push(m[i as int]);
            }
            i = i + 1;
        }
        assert(m.take(i as int) =~= m);
        r
    }

    /// The values of every object's properties, aligned with `props`.
    pub fn values(&self) -> (r: Vec<u64>)
        ensures
            r@ == flat_values(self@),
    {
        let ghost m = self@.map_values(|e: (u32, Seq<(u32, u64)>)| property_values(e.1));
        let mut r: Vec<u64> = Vec::new();
        let mut i: usize = 0;
        assert(m.take(0) =~= Seq::<Seq<u64>>::empty());
        while i < self.entries.len()
            invariant
                i <= self.entries@.len(),
                m == self@.map_values(|e: (u32, Seq<(u32, u64)>)| property_values(e.1)),
                r@ == m.take(i as int).flatten(),
            decreases self.entries@.len() - i,
        {
            let ghost before = r@;
            let props = &self.entries[i].props;
            let mut j: usize = 0;
            while j < props.len()
                invariant
                    j <= props@.len(),
                    props@ == self@[i as int].1,
                    r@ == before + property_values(props@).take(j as int),
                decreases props@.len() - j,
            {
                r.push(props[j].1);
                j = j + 1;
                assert(r@ =~= before + property_values(props@).take(j as int));
            }
            proof {
                assert(property_values(props@).take(j as int) =~= m[i as int]);
                assert(m.take(i + 1) =~= m.take(i as int).push(m[i as int]));
                m.take(i as int).lemma_flatten_push(m[i as int]);
            }
            i = i + 1;
        }
        assert(m.take(i as int) =~= m);
        r
    }
}

/// The flat arrays of every request keep their layout: objects sorted and
/// unique; the per-object counts summing to the length of the property and
/// value arrays; and each object's slice of the property array, found by
/// summing the counts before it, sorted and unique.
pub proof fn lemma_flat_layout(req: AtomicModeReq)
    requires
        req.wf(),
    ensures
        well_formed(req@),
        strictly_sorted(object_ids(req@)),
        sum_counts(prop_counts(req@)) == flat_props(req@).len(),
        flat_values(req@).len() == flat_props(req@).len(),
        forall|k: int|
            0 <= k < req@.len() ==> slice_start(req@, k) + prop_counts(req@)[k] <= flat_props(req@).len()
                && strictly_sorted(#[trigger] object_slice(req@, k)),
{
    assert forall|i: int| 0 <= i < req@.len() implies #[trigger] req@[i].1.len() <= u32::MAX by {
        lemma_elem_le_total(req@, i);
    }
    lemma_flat_lengths(req@);
    assert forall|k: int|
        #![trigger object_slice(req@, k)]
        #![trigger slice_start(req@, k)]
        0 <= k < req@.len() implies slice_start(req@, k) + prop_counts(req@)[k] <= flat_props(req@).len()
            && strictly_sorted(object_slice(req@, k)) by {
        lemma_flat_slice(req@, k);
        assert(prop_counts(req@)[k] == req@[k].1.len());
    }
}

} // verus!
