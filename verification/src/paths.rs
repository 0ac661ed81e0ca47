//! Paths, compared by their components.
//!
//! A path is text with `/` between its components. Repeated separators and
//! `.` components do not count, except for a leading `.`; a leading `/` is a
//! component of its own.

use vstd::prelude::*;

use crate::text::{self, split_on, str_eq};

verus! {

/// Whether part `i` of a split path is a component.
pub open spec fn is_component(part: Seq<char>, i: int) -> bool {
    part.len() > 0 && (part != "."@ || i == 0)
}

/// The components among the first `n` parts of a split path.
pub open spec fn components_of(parts: Seq<Seq<char>>, n: int) -> Seq<Seq<char>>
    decreases n,
{
    if n <= 0 {
        Seq::empty()
    } else {
        let rest = components_of(parts, n - 1);
        if is_component(parts[n - 1], n - 1) {
            rest.push(parts[n - 1])
        } else {
            rest
        }
    }
}

/// Whether a path starts with a separator.
pub open spec fn is_absolute(path: Seq<char>) -> bool {
    path.len() > 0 && path[0] == '/'
}

/// The components of a path.
pub open spec fn components(path: Seq<char>) -> Seq<Seq<char>> {
    let parts = text::split(path, '/');
    let named = components_of(parts, parts.len() as int);
    if is_absolute(path) {
        seq!["/"@] + named
    } else {
        named
    }
}

/// Whether two paths name the same file.
pub open spec fn same_path(a: Seq<char>, b: Seq<char>) -> bool {
    components(a) == components(b)
}

/// Whether `path` lies at or below `base`.
pub open spec fn lies_below(path: Seq<char>, base: Seq<char>) -> bool {
    components(base).len() <= components(path).len() && components(path).take(
        components(base).len() as int,
    ) == components(base)
}

/// The components of a path.
pub fn path_components(path: &str) -> (r: Vec<String>)
    ensures
        text::texts(r@) == components(path@),
{
    let parts = split_on(path, '/');
    let chars = text::to_chars(path);
    let mut named: Vec<String> = Vec::new();
    let absolute = chars.len() > 0 && chars[0] == '/';
    if absolute {
        named.push("/".to_owned());
    }
    let ghost lead = text::texts(named@);
    let ghost split = text::texts(parts@);
    proof {
        if absolute {
            assert(lead =~= seq!["/"@]);
        } else {
            assert(lead =~= Seq::empty());
        }
        assert(lead + components_of(split, 0) =~= lead);
    }
    let mut i: usize = 0;
    while i < parts.len()
        invariant
            i <= parts@.len(),
            split == text::texts(parts@),
            text::texts(named@) == lead + components_of(split, i as int),
        decreases parts@.len() - i,
    {
        let part = parts[i].as_str();
        let ghost before = text::texts(named@);
        let counts = !part.is_empty() && (i == 0 || !str_eq(part, "."));
        if counts {
            named.push(parts[i].clone());
            assert(text::texts(named@) =~= before.push(split[i as int]));
            assert(before.push(split[i as int]) =~= lead + components_of(split, i + 1));
        }
        i = i + 1;
    }
    proof {
        if !absolute {
            assert(lead + components_of(split, i as int) =~= components_of(split, i as int));
        }
    }
    named
}

fn equal_texts(a: &Vec<String>, b: &Vec<String>, n: usize) -> (r: bool)
    requires
        n <= a@.len(),
        n <= b@.len(),
    ensures
        r == (text::texts(a@).take(n as int) == text::texts(b@).take(n as int)),
{
    let mut i: usize = 0;
    while i < n
        invariant
            i <= n,
            n <= a@.len(),
            n <= b@.len(),
            forall|j: int| 0 <= j < i ==> a@[j]@ == b@[j]@,
        decreases n - i,
    {
        if !str_eq(a[i].as_str(), b[i].as_str()) {
            proof {
                assert(text::texts(a@).take(n as int)[i as int] != text::texts(b@).take(
                    n as int,
                )[i as int]);
            }
            return false;
        }
        i = i + 1;
    }
    assert(text::texts(a@).take(n as int) =~= text::texts(b@).take(n as int));
    true
}

/// Tells whether two paths name the same file.
pub fn paths_equal(a: &str, b: &str) -> (r: bool)
    ensures
        r == same_path(a@, b@),
{
    let left = path_components(a);
    let right = path_components(b);
    if left.len() != right.len() {
        assert(text::texts(left@).len() != text::texts(right@).len());
        return false;
    }
    proof {
        assert(text::texts(left@).take(left@.len() as int) =~= text::texts(left@));
        assert(text::texts(right@).take(right@.len() as int) =~= text::texts(right@));
    }
    equal_texts(&left, &right, left.len())
}

/// Tells whether `path` lies at or below `base`.
pub fn is_below(path: &str, base: &str) -> (r: bool)
    ensures
        r == lies_below(path@, base@),
{
    let all = path_components(path);
    let head = path_components(base);
    if head.len() > all.len() {
        return false;
    }
    assert(text::texts(head@).take(head@.len() as int) =~= text::texts(head@));
    equal_texts(&all, &head, head.len())
}

} // verus!
