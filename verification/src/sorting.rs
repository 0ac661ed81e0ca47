//! Sorted lists of distinct strings.

use vstd::prelude::*;

use crate::text;

verus! {

/// Whether `a` comes before `b`: by the first character in which they
/// differ, a prefix before what continues it.
pub open spec fn before(a: Seq<char>, b: Seq<char>) -> bool
    decreases a.len(),
{
    if b.len() == 0 {
        false
    } else if a.len() == 0 {
        true
    } else if a[0] != b[0] {
        a[0] < b[0]
    } else {
        before(a.drop_first(), b.drop_first())
    }
}

/// Whether every text comes before the ones after it.
pub open spec fn ascending(texts: Seq<Seq<char>>) -> bool {
    forall|i: int, j: int| 0 <= i < j < texts.len() ==> before(#[trigger] texts[i], #[trigger] texts[j])
}

/// No text comes before itself.
pub proof fn before_is_irreflexive(a: Seq<char>)
    ensures
        !before(a, a),
    decreases a.len(),
{
    if a.len() > 0 {
        before_is_irreflexive(a.drop_first());
    }
}

/// The order is transitive.
pub proof fn before_is_transitive(a: Seq<char>, b: Seq<char>, c: Seq<char>)
    requires
        before(a, b),
        before(b, c),
    ensures
        before(a, c),
    decreases a.len(),
{
    if a.len() > 0 && a[0] == b[0] && b[0] == c[0] {
        before_is_transitive(a.drop_first(), b.drop_first(), c.drop_first());
    }
}

/// Of two different texts one comes before the other.
pub proof fn before_is_total(a: Seq<char>, b: Seq<char>)
    requires
        a != b,
    ensures
        before(a, b) || before(b, a),
    decreases a.len(),
{
    if a.len() > 0 && b.len() > 0 && a[0] == b[0] {
        if a.drop_first() == b.drop_first() {
            assert(a =~= seq![a[0]] + a.drop_first());
            assert(b =~= seq![b[0]] + b.drop_first());
        }
        before_is_total(a.drop_first(), b.drop_first());
    } else if a.len() == 0 && b.len() == 0 {
        assert(a =~= b);
    }
}

proof fn before_from(a: Seq<char>, b: Seq<char>, k: int)
    requires
        0 <= k <= a.len(),
        k <= b.len(),
        forall|j: int| 0 <= j < k ==> a[j] == b[j],
    ensures
        before(a, b) == before(a.skip(k), b.skip(k)),
    decreases k,
{
    if k == 0 {
        assert(a.skip(0) =~= a);
        assert(b.skip(0) =~= b);
    } else {
        assert(a[0] == b[0]);
        let ra = a.drop_first();
        let rb = b.drop_first();
        assert forall|j: int| 0 <= j < k - 1 implies ra[j] == rb[j] by {
            assert(ra[j] == a[j + 1]);
            assert(rb[j] == b[j + 1]);
        }
        before_from(ra, rb, k - 1);
        assert(ra.skip(k - 1) =~= a.skip(k));
        assert(rb.skip(k - 1) =~= b.skip(k));
    }
}

/// Tells whether `a` comes before `b`.
pub fn is_before(a: &str, b: &str) -> (r: bool)
    ensures
        r == before(a@, b@),
{
    let left = text::to_chars(a);
    let right = text::to_chars(b);
    let n: usize = left.len();
    let m: usize = right.len();
    let mut i: usize = 0;
    while i < n && i < m
        invariant
            left@ == a@,
            right@ == b@,
            n == a@.len(),
            m == b@.len(),
            i <= n,
            i <= m,
            forall|j: int| 0 <= j < i ==> a@[j] == b@[j],
        decreases n - i,
    {
        let x = left[i];
        let y = right[i];
        if x != y {
            proof {
                before_from(a@, b@, i as int);
                assert(a@.skip(i as int)[0] == x);
                assert(b@.skip(i as int)[0] == y);
            }
            return x < y;
        }
        i = i + 1;
    }
    proof {
        before_from(a@, b@, i as int);
    }
    i < m
}

/// Puts a text into its place in an ascending list, unless it is there
/// already.
pub fn insert_sorted(list: &mut Vec<String>, item: String)
    requires
        ascending(text::texts(old(list)@)),
    ensures
        ascending(text::texts(final(list)@)),
        forall|t: Seq<char>| #[trigger]
            text::texts(final(list)@).contains(t) <==> text::texts(old(list)@).contains(t) || t
                == item@,
{
    let ghost start = text::texts(list@);
    let mut i: usize = 0;
    while i < list.len() && is_before(list[i].as_str(), item.as_str())
        invariant
            i <= list@.len(),
            list@ == old(list)@,
            forall|j: int| 0 <= j < i ==> before((#[trigger] list@[j])@, item@),
        decreases list@.len() - i,
    {
        i = i + 1;
    }
    proof {
        assert forall|j: int| 0 <= j < i implies before(#[trigger] start[j], item@) by {
            assert(start[j] == list@[j]@);
        }
    }
    if i < list.len() && crate::text::str_eq(list[i].as_str(), item.as_str()) {
        proof {
            assert(start[i as int] == item@);
        }
        return ;
    }
    let ghost kept = item@;
    proof {
        if i < list@.len() {
            before_is_total(list@[i as int]@, item@);
            assert forall|j: int| i <= j < start.len() implies before(kept, #[trigger] start[j]) by {
                if i < j {
                    assert(before(start[i as int], start[j]));
                    before_is_transitive(kept, start[i as int], start[j]);
                }
            }
        }
    }
    list.insert(i, item);
    proof {
        let after = text::texts(list@);
        assert(after =~= start.insert(i as int, kept));
        assert forall|t: Seq<char>| #[trigger] after.contains(t) <==> start.contains(t) || t
            == kept by {
            if after.contains(t) {
                let k = choose|k: int| 0 <= k < after.len() && after[k] == t;
                if k < i {
                    assert(start[k] == t);
                } else if k > i {
                    assert(start[k - 1] == t);
                }
            }
            if start.contains(t) {
                let k = choose|k: int| 0 <= k < start.len() && start[k] == t;
                if k < i {
                    assert(after[k] == t);
                } else {
                    assert(after[k + 1] == t);
                }
            }
            if t == kept {
                assert(after[i as int] == t);
            }
        }
    }
}

} // verus!
