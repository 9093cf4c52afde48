//! Scan orchestration logic: the poll budget of a bounded discovery run,
//! and the sorted, duplicate-free device lists that polls produce.

use vstd::prelude::*;

use crate::types::{device_views, BleDevice, DeviceView};

verus! {

/// Strictly ascending by address: sorted, and therefore free of duplicate
/// addresses.
pub open spec fn sorted_by_addr(s: Seq<DeviceView>) -> bool {
    forall|i: int, j: int| 0 <= i < j < s.len() ==> s[i].addr < s[j].addr
}

/// Some entry carries the given address.
pub open spec fn contains_addr(s: Seq<DeviceView>, a: u64) -> bool {
    exists|i: int| 0 <= i < s.len() && s[i].addr == a
}

/// Insert-or-replace into a list sorted by address: an entry with the same
/// address is replaced, otherwise the device enters at its sorted position.
pub open spec fn upsert(s: Seq<DeviceView>, d: DeviceView) -> Seq<DeviceView>
    decreases s.len(),
{
    if s.len() == 0 {
        seq![d]
    } else if s[0].addr < d.addr {
        seq![s[0]] + upsert(s.drop_first(), d)
    } else if s[0].addr == d.addr {
        seq![d] + s.drop_first()
    } else {
        seq![d] + s
    }
}

/// The registry after one poll: every successful projection upserted in
/// order; failed projections change nothing.
pub open spec fn upsert_all(s: Seq<DeviceView>, ds: Seq<Option<DeviceView>>) -> Seq<DeviceView>
    decreases ds.len(),
{
    if ds.len() == 0 {
        s
    } else {
        let first = match ds[0] {
            Some(d) => upsert(s, d),
            None => s,
        };
        upsert_all(first, ds.drop_first())
    }
}

/// Where `upsert` places `d` when the first `i` entries sort below it.
proof fn lemma_upsert_at(s: Seq<DeviceView>, d: DeviceView, i: int)
    requires
        sorted_by_addr(s),
        0 <= i <= s.len(),
        forall|k: int| 0 <= k < i ==> s[k].addr < d.addr,
        i < s.len() ==> s[i].addr >= d.addr,
    ensures
        i < s.len() && s[i].addr == d.addr ==> upsert(s, d) == s.update(i, d),
        (i == s.len() || s[i].addr > d.addr) ==> upsert(s, d) == s.subrange(0, i).push(d)
            + s.subrange(i, s.len() as int),
    decreases i,
{
    if i == 0 {
        if s.len() == 0 {
            assert(upsert(s, d) =~= s.subrange(0, 0).push(d) + s.subrange(0, 0));
        } else if s[0].addr == d.addr {
            assert(upsert(s, d) == seq![d] + s.drop_first());
            assert(seq![d] + s.drop_first() =~= s.update(0, d));
        } else {
            assert(s[0].addr > d.addr);
            assert(upsert(s, d) == seq![d] + s);
            assert(seq![d] + s =~= s.subrange(0, 0).push(d) + s.subrange(0, s.len() as int));
        }
    } else {
        assert(s[0].addr < d.addr);
        let t = s.drop_first();
        assert(upsert(s, d) == seq![s[0]] + upsert(t, d));
        assert(forall|k: int| 0 <= k < i - 1 ==> t[k].addr < d.addr);
        lemma_upsert_at(t, d, i - 1);
        if i < s.len() && s[i].addr == d.addr {
            assert(upsert(t, d) == t.update(i - 1, d));
            assert(seq![s[0]] + t.update(i - 1, d) =~= s.update(i, d));
        } else {
            assert(upsert(t, d) == t.subrange(0, i - 1).push(d) + t.subrange(i - 1, t.len() as int));
            assert(seq![s[0]] + (t.subrange(0, i - 1).push(d) + t.subrange(i - 1, t.len() as int))
                =~= s.subrange(0, i).push(d) + s.subrange(i, s.len() as int));
        }
    }
}

/// Insert-or-replace a device into a list kept sorted by address.
pub fn sorted_upsert(v: &mut Vec<BleDevice>, d: BleDevice)
    requires
        sorted_by_addr(device_views(old(v)@)),
    ensures
        device_views(final(v)@) == upsert(device_views(old(v)@), d@),
        sorted_by_addr(device_views(final(v)@)),
{
    let ghost r0 = device_views(old(v)@);
    let mut i: usize = 0;
    while i < v.len() && v[i].address.bits < d.address.bits
        invariant
            i <= v.len(),
            v@ == old(v)@,
            forall|k: int| 0 <= k < i ==> r0[k].addr < d@.addr,
            r0 == device_views(v@),
        decreases v.len() - i,
    {
        assert(r0[i as int].addr == v@[i as int].address.bits);
        i += 1;
    }
    assert(i < v.len() ==> r0[i as int].addr >= d@.addr);
    proof {
        lemma_upsert_at(r0, d@, i as int);
    }
    if i < v.len() && v[i].address.bits == d.address.bits {
        v.set(i, d);
        assert(device_views(v@) =~= r0.update(i as int, d@));
        assert(sorted_by_addr(device_views(v@))) by {
            assert forall|p: int, q: int|
                0 <= p < q < r0.len() implies r0.update(i as int, d@)[p].addr < r0.update(
                i as int,
                d@,
            )[q].addr by {
                assert(r0[i as int].addr == d@.addr);
            }
        }
    } else {
        v.insert(i, d);
        assert(device_views(v@) =~= r0.subrange(0, i as int).push(d@) + r0.subrange(
            i as int,
            r0.len() as int,
        ));
        assert(sorted_by_addr(device_views(v@))) by {
            let out = r0.subrange(0, i as int).push(d@) + r0.subrange(i as int, r0.len() as int);
            assert forall|p: int, q: int| 0 <= p < q < out.len() implies out[p].addr
                < out[q].addr by {
                assert(p > i ==> out[p] == r0[p - 1]);
                assert(q > i ==> out[q] == r0[q - 1]);
            }
        }
    }
}

/// Number of 200 ms polls of a discovery run: the timeout divided by the
/// poll period, rounded to the nearest whole poll (half rounds up).
pub open spec fn poll_count(timeout_ms: u64) -> int {
    (timeout_ms + 100) / 200
}

/// How many times a discovery run of the given timeout polls the adapter.
pub fn discover_polls(timeout_ms: u64) -> (n: u64)
    ensures
        n == poll_count(timeout_ms),
        timeout_ms == 0 ==> n == 0,
{
    let n = timeout_ms / 200 + (if timeout_ms % 200 >= 100 { 1 } else { 0 });
    proof {
        lemma_poll_count_split(timeout_ms);
    }
    n
}

proof fn lemma_poll_count_split(t: u64)
    ensures
        poll_count(t) == t / 200 + (if t % 200 >= 100 { 1int } else { 0 }),
{
    let q = t as int / 200;
    let r = t as int % 200;
    vstd::arithmetic::div_mod::lemma_fundamental_div_mod(t as int, 200);
    vstd::arithmetic::div_mod::lemma_hoist_over_denominator(r + 100, q, 200);
    assert(t + 100 == (r + 100) + q * 200);
}

/// A batch sent to the scan sink must carry at least one device, and only
/// runs that were given a sink publish at all.
pub fn should_send_batch(batch: &Vec<BleDevice>, has_sink: bool) -> (r: bool)
    ensures
        r == (has_sink && batch@.len() > 0),
{
    has_sink && batch.len() > 0
}

/// `upsert` adds exactly one address: afterwards an address is present iff
/// it is the inserted device's or was present before.
pub proof fn lemma_upsert_addresses(s: Seq<DeviceView>, d: DeviceView, a: u64)
    ensures
        contains_addr(upsert(s, d), a) <==> (a == d.addr || contains_addr(s, a)),
    decreases s.len(),
{
    let out = upsert(s, d);
    if s.len() == 0 {
        assert(out == seq![d]);
        assert(contains_addr(out, a) <==> a == d.addr) by {
            if a == d.addr {
                assert(out[0].addr == a);
            }
        }
    } else if s[0].addr < d.addr {
        let t = s.drop_first();
        lemma_upsert_addresses(t, d, a);
        assert(out == seq![s[0]] + upsert(t, d));
        let rest = upsert(t, d);
        if contains_addr(out, a) {
            let i = choose|i: int| 0 <= i < out.len() && out[i].addr == a;
            if i == 0 {
                assert(s[0].addr == a);
            } else {
                assert(rest[i - 1].addr == a);
            }
        }
        if a == d.addr || contains_addr(s, a) {
            if contains_addr(s, a) {
                let i = choose|i: int| 0 <= i < s.len() && s[i].addr == a;
                if i == 0 {
                    assert(out[0].addr == a);
                } else {
                    assert(t[i - 1].addr == a);
                    assert(contains_addr(rest, a));
                    let j = choose|j: int| 0 <= j < rest.len() && rest[j].addr == a;
                    assert(out[j + 1].addr == a);
                }
            } else {
                assert(contains_addr(rest, a));
                let j = choose|j: int| 0 <= j < rest.len() && rest[j].addr == a;
                assert(out[j + 1].addr == a);
            }
        }
    } else if s[0].addr == d.addr {
        let t = s.drop_first();
        assert(out == seq![d] + t);
        if contains_addr(out, a) {
            let i = choose|i: int| 0 <= i < out.len() && out[i].addr == a;
            if i == 0 {
            } else {
                assert(s[i].addr == a);
            }
        }
        if a == d.addr {
            assert(out[0].addr == a);
        }
        if contains_addr(s, a) && a != d.addr {
            let i = choose|i: int| 0 <= i < s.len() && s[i].addr == a;
            assert(i > 0);
            assert(out[i].addr == a);
        }
    } else {
        assert(out == seq![d] + s);
        if contains_addr(out, a) {
            let i = choose|i: int| 0 <= i < out.len() && out[i].addr == a;
            if i > 0 {
                assert(s[i - 1].addr == a);
            }
        }
        if a == d.addr {
            assert(out[0].addr == a);
        }
        if contains_addr(s, a) {
            let i = choose|i: int| 0 <= i < s.len() && s[i].addr == a;
            assert(out[i + 1].addr == a);
        }
    }
}

/// The poll item at `i` was successfully projected and carries address `a`.
pub open spec fn projected_addr(ds: Seq<Option<DeviceView>>, i: int, a: u64) -> bool {
    ds[i] matches Some(d) && d.addr == a
}

/// A scan poll only fills the registry: every address present before an
/// upsert sequence is still present after it, and every successfully
/// projected address has entered.
pub proof fn lemma_poll_fills_registry(s: Seq<DeviceView>, ds: Seq<Option<DeviceView>>, a: u64)
    ensures
        contains_addr(upsert_all(s, ds), a) <==> (contains_addr(s, a) || exists|i: int|
            0 <= i < ds.len() && #[trigger] projected_addr(ds, i, a)),
    decreases ds.len(),
{
    if ds.len() == 0 {
    } else {
        let first = match ds[0] {
            Some(d) => upsert(s, d),
            None => s,
        };
        if let Some(d) = ds[0] {
            lemma_upsert_addresses(s, d, a);
        }
        lemma_poll_fills_registry(first, ds.drop_first(), a);
        let t = ds.drop_first();
        assert((exists|i: int| 0 <= i < t.len() && #[trigger] projected_addr(t, i, a)) <==> (
        exists|i: int| 1 <= i < ds.len() && #[trigger] projected_addr(ds, i, a))) by {
            if exists|i: int| 0 <= i < t.len() && #[trigger] projected_addr(t, i, a) {
                let i = choose|i: int| 0 <= i < t.len() && #[trigger] projected_addr(t, i, a);
                assert(ds[i + 1] == t[i]);
                assert(projected_addr(ds, i + 1, a));
            }
            if exists|i: int| 1 <= i < ds.len() && #[trigger] projected_addr(ds, i, a) {
                let i = choose|i: int| 1 <= i < ds.len() && #[trigger] projected_addr(ds, i, a);
                assert(t[i - 1] == ds[i]);
                assert(projected_addr(t, i - 1, a));
            }
        }
        assert(upsert_all(s, ds) == upsert_all(first, t));
        assert((exists|i: int| 0 <= i < ds.len() && #[trigger] projected_addr(ds, i, a)) <==> (
        projected_addr(ds, 0, a) || exists|i: int| 1 <= i < ds.len() && #[trigger] projected_addr(
            ds,
            i,
            a,
        ))) by {
            if exists|i: int| 0 <= i < ds.len() && #[trigger] projected_addr(ds, i, a) {
                let i = choose|i: int| 0 <= i < ds.len() && #[trigger] projected_addr(ds, i, a);
                if i == 0 {
                    assert(projected_addr(ds, 0, a));
                }
            }
        }
        assert(contains_addr(first, a) <==> (projected_addr(ds, 0, a) || contains_addr(s, a)))
            by {
            match ds[0] {
                Some(d) => {
                    assert(projected_addr(ds, 0, a) == (a == d.addr));
                },
                None => {
                    assert(first == s);
                    assert(!projected_addr(ds, 0, a));
                },
            }
        }
    }
}

/// Sorted-by-address lists never carry two entries with one address.
pub proof fn lemma_sorted_no_duplicates(s: Seq<DeviceView>)
    requires
        sorted_by_addr(s),
    ensures
        forall|i: int, j: int|
            0 <= i < s.len() && 0 <= j < s.len() && i != j ==> s[i].addr != s[j].addr,
{
}

} // verus!
