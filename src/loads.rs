use vstd::prelude::*;

use crate::architecture::RoutingTarget;

verus! {

/// The loaded links of each routing target.
pub type LinkLoads = Vec<(RoutingTarget, Vec<u64>)>;

/// Each element is smaller than the next.
pub open spec fn strictly_ascending(s: Seq<u64>) -> bool {
    forall|i: int, j: int| 0 <= i < j < s.len() ==> s[i] < s[j]
}

/// The links that the first entry of target `t` holds, if any.
pub open spec fn loads_for(links: Seq<(RoutingTarget, Vec<u64>)>, t: RoutingTarget) -> Set<u64>
    decreases links.len(),
{
    if links.len() == 0 {
        Set::empty()
    } else if links[0].0 == t {
        links[0].1@.to_set()
    } else {
        loads_for(links.drop_first(), t)
    }
}

/// The links loaded by the core at linear index `i` or by its sink, when
/// routing was computed; none otherwise.
pub open spec fn aggregated_loads(links: Option<Seq<(RoutingTarget, Vec<u64>)>>, i: usize) -> Set<
    u64,
> {
    match links {
        Some(l) => loads_for(l, RoutingTarget::Core(i)) + loads_for(l, RoutingTarget::Sink(i)),
        None => Set::empty(),
    }
}

/// Adds `x` to the strictly ascending `v`, at its place, unless present.
fn insert_sorted(v: &mut Vec<u64>, x: u64)
    requires
        strictly_ascending(old(v)@),
    ensures
        strictly_ascending(final(v)@),
        final(v)@.to_set() == old(v)@.to_set().insert(x),
{
    let mut i: usize = 0;
    while i < v.len() && v[i] < x
        invariant
            i <= v@.len(),
            v@ == old(v)@,
            forall|j: int| 0 <= j < i ==> v@[j] < x,
        decreases v@.len() - i,
    {
        i += 1;
    }
    if i < v.len() && v[i] == x {
        assert(v@.to_set() =~= old(v)@.to_set().insert(x)) by {
            assert(v@.contains(x));
        };
        return;
    }
    let ghost s = v@;
    v.insert(i, x);
    let ghost t = v@;
    assert(t == s.insert(i as int, x));
    assert(strictly_ascending(t)) by {
        assert forall|p: int, q: int| 0 <= p < q < t.len() implies t[p] < t[q] by {
            if q < i {
            } else if q == i {
            } else if p < i {
                assert(t[q] == s[q - 1]);
            } else if p == i {
                assert(t[q] == s[q - 1]);
                assert(s[i as int] > x);
            } else {
                assert(t[p] == s[p - 1] && t[q] == s[q - 1]);
            }
        };
    };
    assert(t.to_set() =~= s.to_set().insert(x)) by {
        assert forall|y: u64| t.contains(y) <==> s.contains(y) || y == x by {
            if t.contains(y) {
                let k = choose|k: int| 0 <= k < t.len() && t[k] == y;
                if k < i {
                    assert(s[k] == y);
                } else if k > i {
                    assert(s[k - 1] == y);
                }
            }
            if s.contains(y) {
                let k = choose|k: int| 0 <= k < s.len() && s[k] == y;
                if k < i {
                    assert(t[k] == y);
                } else {
                    assert(t[k + 1] == y);
                }
            }
            if y == x {
                assert(t[i as int] == x);
            }
        };
    };
}

/// Adds every element of `items` to the strictly ascending `v`.
fn insert_all(v: &mut Vec<u64>, items: &Vec<u64>)
    requires
        strictly_ascending(old(v)@),
    ensures
        strictly_ascending(final(v)@),
        final(v)@.to_set() == old(v)@.to_set() + items@.to_set(),
{
    let mut i: usize = 0;
    while i < items.len()
        invariant
            i <= items@.len(),
            strictly_ascending(v@),
            v@.to_set() == old(v)@.to_set() + items@.subrange(0, i as int).to_set(),
        decreases items@.len() - i,
    {
        insert_sorted(v, items[i]);
        proof {
            let pre = items@.subrange(0, i as int);
            assert(items@.subrange(0, i + 1) =~= pre.push(items@[i as int]));
            pre.lemma_push_to_set_commute(items@[i as int]);
        }
        assert(v@.to_set() =~= old(v)@.to_set() + items@.subrange(0, i + 1).to_set());
        i += 1;
    }
    assert(items@.subrange(0, items@.len() as int) =~= items@);
}

/// The links that the first entry of `target` holds, if any.
fn find_loads<'a>(links: &'a LinkLoads, target: RoutingTarget) -> (r: Option<&'a Vec<u64>>)
    ensures
        match r {
            Some(v) => v@.to_set() == loads_for(links@, target),
            None => loads_for(links@, target) == Set::<u64>::empty(),
        },
{
    let mut i: usize = 0;
    assert(links@.subrange(0, links@.len() as int) =~= links@);
    while i < links.len()
        invariant
            i <= links@.len(),
            loads_for(links@, target) == loads_for(
                links@.subrange(i as int, links@.len() as int),
                target,
            ),
        decreases links@.len() - i,
    {
        let ghost rest = links@.subrange(i as int, links@.len() as int);
        assert(rest.drop_first() =~= links@.subrange(i + 1, links@.len() as int));
        assert(rest[0] == links@[i as int]);
        if links[i].0 == target {
            return Some(&links[i].1);
        }
        i += 1;
    }
    None
}

/// The links loaded by the core at linear index `index` or by its sink, in
/// ascending order without repetition; none when routing was not computed.
pub fn core_loads(links_with_load: &Option<LinkLoads>, index: usize) -> (r: Vec<u64>)
    ensures
        strictly_ascending(r@),
        r@.to_set() == aggregated_loads(
            match links_with_load {
                Some(l) => Some(l@),
                None => None,
            },
            index,
        ),
{
    let mut ret: Vec<u64> = Vec::new();
    assert(ret@.to_set() =~= Set::<u64>::empty());
    match links_with_load {
        Some(links) => {
            match find_loads(links, RoutingTarget::Core(index)) {
                Some(core) => insert_all(&mut ret, core),
                None => {},
            }
            match find_loads(links, RoutingTarget::Sink(index)) {
                Some(sink) => insert_all(&mut ret, sink),
                None => {},
            }
            assert(ret@.to_set() =~= loads_for(links@, RoutingTarget::Core(index)) + loads_for(
                links@,
                RoutingTarget::Sink(index),
            ));
        },
        None => {},
    }
    ret
}

} // verus!
