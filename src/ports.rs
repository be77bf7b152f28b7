use vstd::prelude::*;

verus! {

/// A sequence of ports in strictly ascending order: sorted, with no repeats.
pub open spec fn strictly_ascending(q: Seq<i32>) -> bool {
    forall|i: int, j: int| 0 <= i < j < q.len() ==> q[i] < q[j]
}

/// The one strictly ascending sequence that lists exactly the ports of `s`.
pub open spec fn ascending_ports(s: Set<i32>) -> Seq<i32> {
    choose|q: Seq<i32>| strictly_ascending(q) && q.to_set() == s
}

/// Two strictly ascending sequences that hold the same ports are equal.
pub proof fn lemma_ascending_unique(a: Seq<i32>, b: Seq<i32>)
    requires
        strictly_ascending(a),
        strictly_ascending(b),
        a.to_set() == b.to_set(),
    ensures
        a == b,
    decreases a.len(),
{
    if a.len() == 0 {
        if b.len() > 0 {
            assert(b.to_set().contains(b[0]));
        }
    } else if b.len() == 0 {
        assert(a.to_set().contains(a[0]));
    } else {
        // Both first elements are the least element of the common set.
        assert(a.to_set().contains(a[0]));
        assert(b.to_set().contains(b[0]));
        assert(b.contains(a[0]));
        assert(a.contains(b[0]));
        let ia = choose|i: int| 0 <= i < a.len() && a[i] == b[0];
        let ib = choose|i: int| 0 <= i < b.len() && b[i] == a[0];
        assert(a[0] <= b[0]) by {
            if ia > 0 {
                assert(a[0] < a[ia]);
            }
        }
        assert(b[0] <= a[0]) by {
            if ib > 0 {
                assert(b[0] < b[ib]);
            }
        }
        let ta = a.drop_first();
        let tb = b.drop_first();
        assert forall|x: i32| ta.to_set().contains(x) <==> tb.to_set().contains(x) by {
            if ta.to_set().contains(x) {
                let k = choose|k: int| 0 <= k < ta.len() && ta[k] == x;
                assert(a[k + 1] == x);
                assert(a.to_set().contains(x));
                assert(b.contains(x));
                let m = choose|m: int| 0 <= m < b.len() && b[m] == x;
                assert(m != 0);
                assert(tb[m - 1] == x);
            }
            if tb.to_set().contains(x) {
                let k = choose|k: int| 0 <= k < tb.len() && tb[k] == x;
                assert(b[k + 1] == x);
                assert(b.to_set().contains(x));
                assert(a.contains(x));
                let m = choose|m: int| 0 <= m < a.len() && a[m] == x;
                assert(m != 0);
                assert(ta[m - 1] == x);
            }
        }
        assert(ta.to_set() =~= tb.to_set());
        lemma_ascending_unique(ta, tb);
        assert(a =~= seq![a[0]].add(ta));
        assert(b =~= seq![b[0]].add(tb));
    }
}

/// A strictly ascending sequence is the canonical listing of its own ports.
pub proof fn lemma_ascending_is_canonical(q: Seq<i32>)
    requires
        strictly_ascending(q),
    ensures
        ascending_ports(q.to_set()) == q,
{
    let c = ascending_ports(q.to_set());
    assert(strictly_ascending(c) && c.to_set() == q.to_set());
    lemma_ascending_unique(c, q);
}

/// Lists the ports of `ports` once each, in ascending order, whatever order
/// and repeats the input has.
pub fn canonical_ports(ports: &Vec<i32>) -> (r: Vec<i32>)
    ensures
        strictly_ascending(r@),
        r@.to_set() == ports@.to_set(),
        r@ == ascending_ports(ports@.to_set()),
{
    let mut out: Vec<i32> = Vec::new();
    let mut k: usize = 0;
    while k < ports.len()
        invariant
            k <= ports.len(),
            strictly_ascending(out@),
            forall|x: i32| out@.contains(x) <==> ports@.subrange(0, k as int).contains(x),
        decreases ports.len() - k,
    {
        let p = ports[k];
        let mut i: usize = 0;
        while i < out.len() && out[i] < p
            invariant
                i <= out.len(),
                forall|j: int| 0 <= j < i ==> out@[j] < p,
            decreases out.len() - i,
        {
            i = i + 1;
        }
        let ghost before = out@;
        let ghost seen = ports@.subrange(0, k as int);
        assert(ports@.subrange(0, k + 1) =~= seen.push(p));
        if i < out.len() && out[i] == p {
            assert forall|x: i32| out@.contains(x) <==> seen.push(p).contains(x) by {
                if x == p {
                    assert(out@[i as int] == p);
                }
                if seen.push(p).contains(x) && x != p {
                    let m = choose|m: int| 0 <= m < seen.push(p).len() && seen.push(p)[m] == x;
                    assert(seen[m] == x);
                }
            }
        } else {
            out.insert(i, p);
            assert forall|a: int, b: int| 0 <= a < b < out@.len() implies out@[a] < out@[b] by {
                if b < i {
                } else if a > i {
                    assert(out@[a] == before[a - 1]);
                    assert(out@[b] == before[b - 1]);
                } else if a == i {
                    assert(out@[b] == before[b - 1]);
                    assert(before[i as int] >= p);
                    assert(before[i as int] != p);
                    if b - 1 > i {
                        assert(before[i as int] < before[b - 1]);
                    }
                } else {
                    assert(b >= i);
                    if b == i {
                    } else {
                        assert(out@[b] == before[b - 1]);
                        assert(before[b - 1] >= p) by {
                            assert(before[i as int] >= p);
                            if b - 1 > i {
                                assert(before[i as int] < before[b - 1]);
                            }
                        }
                    }
                }
            }
            assert forall|x: i32| out@.contains(x) <==> seen.push(p).contains(x) by {
                if out@.contains(x) {
                    let m = choose|m: int| 0 <= m < out@.len() && out@[m] == x;
                    if m < i {
                        assert(before[m] == x);
                        assert(before.contains(x));
                    } else if m > i {
                        assert(before[m - 1] == x);
                        assert(before.contains(x));
                    }
                    if x != p {
                        assert(seen.contains(x));
                        let n = choose|n: int| 0 <= n < seen.len() && seen[n] == x;
                        assert(seen.push(p)[n] == x);
                    } else {
                        assert(seen.push(p)[seen.len() as int] == x);
                    }
                }
                if seen.push(p).contains(x) {
                    if x == p {
                        assert(out@[i as int] == p);
                    } else {
                        let m = choose|m: int| 0 <= m < seen.push(p).len() && seen.push(p)[m] == x;
                        assert(seen[m] == x);
                        assert(seen.contains(x));
                        assert(before.contains(x));
                        let n = choose|n: int| 0 <= n < before.len() && before[n] == x;
                        if n < i {
                            assert(out@[n] == x);
                        } else {
                            assert(out@[n + 1] == x);
                        }
                    }
                }
            }
        }
        k = k + 1;
    }
    assert(ports@.subrange(0, ports.len() as int) =~= ports@);
    assert(out@.to_set() =~= ports@.to_set());
    proof {
        lemma_ascending_is_canonical(out@);
    }
    out
}

} // verus!
