//! Laws of texts, paths and sorted lists.

use vstd::prelude::*;

use crate::paths::{self, is_below, path_components, paths_equal};
use crate::sorting::{self, insert_sorted, is_before};
use crate::text::{self, contains, is_blank, split_on, take_prefix};

verus! {

// ---------------------------------------------------------------------------
// Texts
// ---------------------------------------------------------------------------

/// Texts joined by a separator.
pub open spec fn joined(parts: Seq<Seq<char>>, separator: char) -> Seq<char>
    decreases parts.len(),
{
    if parts.len() == 0 {
        Seq::empty()
    } else if parts.len() == 1 {
        parts[0]
    } else {
        joined(parts.drop_last(), separator).push(separator) + parts.last()
    }
}

/// How often a character occurs in a text.
pub open spec fn occurrences(s: Seq<char>, c: char) -> int
    decreases s.len(),
{
    if s.len() == 0 {
        0
    } else {
        occurrences(s.drop_last(), c) + if s.last() == c { 1int } else { 0 }
    }
}

proof fn splitting_and_joining(s: Seq<char>, separator: char)
    ensures
        joined(text::split(s, separator), separator) == s,
        text::split(s, separator).len() == occurrences(s, separator) + 1,
        forall|i: int|
            0 <= i < text::split(s, separator).len() ==> !(#[trigger] text::split(
                s,
                separator,
            )[i]).contains(separator),
    decreases s.len(),
{
    let parts = text::split(s, separator);
    if s.len() > 0 {
        let rest = text::split(s.drop_last(), separator);
        splitting_and_joining(s.drop_last(), separator);
        text::split_is_never_empty(s.drop_last(), separator);
        assert(s =~= s.drop_last().push(s.last()));
        if s.last() == separator {
            assert(parts.drop_last() =~= rest);
            assert(joined(parts, separator) =~= s);
            assert forall|i: int| 0 <= i < parts.len() implies !(#[trigger] parts[i]).contains(
                separator,
            ) by {
                if i < rest.len() {
                    assert(parts[i] == rest[i]);
                }
            }
        } else {
            assert(parts.drop_last() =~= rest.drop_last());
            if rest.len() == 1 {
                assert(joined(rest, separator) == rest[0]);
                assert(parts[0] =~= rest[0].push(s.last()));
                assert(joined(parts, separator) =~= s);
            } else {
                let head = joined(rest.drop_last(), separator).push(separator);
                assert(head + rest.last() == s.drop_last());
                assert(joined(parts, separator) =~= head + rest.last().push(s.last()));
                assert(head + rest.last().push(s.last()) =~= (head + rest.last()).push(s.last()));
            }
            assert forall|i: int| 0 <= i < parts.len() implies !(#[trigger] parts[i]).contains(
                separator,
            ) by {
                if i < rest.len() - 1 {
                    assert(parts[i] == rest[i]);
                } else {
                    let last = rest.last();
                    assert(!rest[rest.len() - 1].contains(separator));
                    if last.push(s.last()).contains(separator) {
                        let k = choose|k: int|
                            0 <= k < last.push(s.last()).len() && last.push(s.last())[k]
                                == separator;
                        if k < last.len() {
                            assert(last[k] == separator);
                            assert(last.contains(separator));
                        }
                    }
                }
            }
        }
    } else {
        assert(joined(parts, separator) =~= s);
    }
}

/// Splitting is undone by joining, and no part holds the separator: there is
/// one part more than the text has separators.
pub proof fn splitting_is_undone_by_joining(s: &str, separator: char, r: Vec<String>, i: int)
    requires
        call_ensures(split_on, (s, separator), r),
    ensures
        joined(text::texts(r@), separator) == s@,
        r@.len() == occurrences(s@, separator) + 1,
        0 <= i < r@.len() ==> !r@[i]@.contains(separator),
{
    splitting_and_joining(s@, separator);
    assert(text::texts(r@).len() == r@.len());
    if 0 <= i < r@.len() {
        assert(text::texts(r@)[i] == r@[i]@);
    }
}

/// A text contains a pattern exactly when it is some text, the pattern, and
/// some text.
pub proof fn a_pattern_is_contained_between_two_texts(s: &str, pattern: &str, r: bool)
    requires
        call_ensures(contains, (s, pattern), r),
    ensures
        r <==> exists|before: Seq<char>, after: Seq<char>|
            s@ == #[trigger] (before + pattern@ + after),
{
    if r {
        let i = choose|i: int| text::occurs_at(s@, pattern@, i);
        assert(text::occurs_at(s@, pattern@, i));
        let before = s@.take(i);
        let after = s@.skip(i + pattern@.len());
        assert(s@ =~= before + s@.subrange(i, i + pattern@.len()) + after);
        assert(s@ == before + pattern@ + after);
    }
    if exists|before: Seq<char>, after: Seq<char>| s@ == #[trigger] (before + pattern@ + after) {
        let (before, after) = choose|before: Seq<char>, after: Seq<char>|
            s@ == #[trigger] (before + pattern@ + after);
        let i = before.len() as int;
        assert(s@.subrange(i, i + pattern@.len()) =~= pattern@);
        assert(text::occurs_at(s@, pattern@, i));
    }
}

/// The beginning of a text is as long as asked for, or as the text is, and the
/// text goes on from there.
pub proof fn a_text_goes_on_from_its_beginning(s: &str, n: usize, r: String)
    requires
        call_ensures(take_prefix, (s, n), r),
    ensures
        r@.len() == if s@.len() < n { s@.len() as int } else { n as int },
        exists|rest: Seq<char>| s@ == #[trigger] (r@ + rest),
{
    assert(s@ =~= r@ + s@.skip(r@.len() as int));
}

/// Whether a character is white space: a tab, a line feed, the two characters
/// after it, a carriage return, a space, a next-line character, a no-break
/// space, or one of the wider spaces and separators.
pub open spec fn space(c: char) -> bool {
    ||| c == '\t' || c == '\n' || c == '\u{b}' || c == '\u{c}' || c == '\r'
    ||| c == ' ' || c == '\u{85}' || c == '\u{a0}' || c == '\u{1680}'
    ||| '\u{2000}' <= c && c <= '\u{200a}'
    ||| c == '\u{2028}' || c == '\u{2029}' || c == '\u{202f}' || c == '\u{205f}' || c == '\u{3000}'
}

/// A text is blank exactly when it has nothing but white space.
pub proof fn a_blank_text_is_white_space(s: &str, r: bool)
    requires
        call_ensures(is_blank, (s,), r),
    ensures
        r <==> forall|i: int| 0 <= i < s@.len() ==> space(#[trigger] s@[i]),
{
    assert forall|i: int| 0 <= i < s@.len() implies (text::char_is_whitespace(s@[i]) <==> space(
        #[trigger] s@[i],
    )) by {}
    if forall|i: int| 0 <= i < s@.len() ==> space(#[trigger] s@[i]) {
        assert forall|i: int| 0 <= i < s@.len() implies text::char_is_whitespace(
            #[trigger] s@[i],
        ) by {
            assert(space(s@[i]));
        }
    }
    if r {
        assert forall|i: int| 0 <= i < s@.len() implies space(#[trigger] s@[i]) by {
            assert(text::char_is_whitespace(s@[i]));
        }
    }
}

// ---------------------------------------------------------------------------
// Paths
// ---------------------------------------------------------------------------

proof fn splitting_behind_a_separator(p: Seq<char>, part: Seq<char>)
    requires
        !part.contains('/'),
    ensures
        text::split(p.push('/') + part, '/') == text::split(p, '/').push(part),
    decreases part.len(),
{
    let whole = p.push('/') + part;
    text::split_is_never_empty(p, '/');
    if part.len() == 0 {
        assert(whole =~= p.push('/'));
        assert(whole.drop_last() =~= p);
        assert(part =~= Seq::empty());
    } else {
        let shorter = part.drop_last();
        assert(!shorter.contains('/')) by {
            if shorter.contains('/') {
                let k = choose|k: int| 0 <= k < shorter.len() && shorter[k] == '/';
                assert(part[k] == '/');
            }
        }
        splitting_behind_a_separator(p, shorter);
        assert(whole.drop_last() =~= p.push('/') + shorter);
        assert(whole.last() == part.last());
        assert(part[part.len() - 1] != '/') by {
            assert(part.contains(part[part.len() - 1]));
        }
        let rest = text::split(p, '/').push(shorter);
        assert(rest.drop_last() =~= text::split(p, '/'));
        assert(shorter.push(part.last()) =~= part);
    }
}

proof fn components_behind_a_part(parts: Seq<Seq<char>>, part: Seq<char>, n: int)
    requires
        0 <= n <= parts.len(),
    ensures
        paths::components_of(parts.push(part), n) == paths::components_of(parts, n),
    decreases n,
{
    if n > 0 {
        components_behind_a_part(parts, part, n - 1);
        assert(parts.push(part)[n - 1] == parts[n - 1]);
    }
}

proof fn components_of_a_longer_path(p: Seq<char>, part: Seq<char>)
    requires
        p.len() > 0,
        !part.contains('/'),
    ensures
        paths::components(p.push('/') + part) == if part.len() == 0 || part == "."@ {
            paths::components(p)
        } else {
            paths::components(p).push(part)
        },
{
    let whole = p.push('/') + part;
    let parts = text::split(p, '/');
    splitting_behind_a_separator(p, part);
    text::split_is_never_empty(p, '/');
    components_behind_a_part(parts, part, parts.len() as int);
    assert(whole[0] == p[0]);
    assert(parts.push(part)[parts.len() as int] == part);
    assert(paths::components(whole) =~= if part.len() == 0 || part == "."@ {
        paths::components(p)
    } else {
        paths::components(p).push(part)
    });
}

/// A path goes one level down with every name behind a separator. A separator
/// too many, and a dot in the place of a name, lead nowhere.
pub proof fn a_name_behind_a_separator_goes_one_level_down(
    p: &str,
    r: Vec<String>,
    longer: &str,
    longer_r: Vec<String>,
    part: Seq<char>,
)
    requires
        p@.len() > 0,
        !part.contains('/'),
        longer@ == p@.push('/') + part,
        call_ensures(path_components, (p,), r),
        call_ensures(path_components, (longer,), longer_r),
    ensures
        part.len() == 0 ==> text::texts(longer_r@) == text::texts(r@),
        part == "."@ ==> text::texts(longer_r@) == text::texts(r@),
        part.len() > 0 && part != "."@ ==> text::texts(longer_r@) == text::texts(r@).push(part),
{
    components_of_a_longer_path(p@, part);
}

proof fn splitting_a_name(name: Seq<char>)
    requires
        !name.contains('/'),
    ensures
        text::split(name, '/') == seq![name],
    decreases name.len(),
{
    if name.len() > 0 {
        let shorter = name.drop_last();
        assert(!shorter.contains('/')) by {
            if shorter.contains('/') {
                let k = choose|k: int| 0 <= k < shorter.len() && shorter[k] == '/';
                assert(name[k] == '/');
            }
        }
        splitting_a_name(shorter);
        assert(name.contains(name[name.len() - 1]));
        assert(shorter.push(name.last()) =~= name);
        assert(text::split(name, '/') =~= seq![name]);
    } else {
        assert(name =~= Seq::empty());
        assert(text::split(name, '/') =~= seq![name]);
    }
}

/// A name alone is its own one component, and so is a leading dot; nothing at
/// all has no component. A leading separator is a component of its own, with
/// whatever name comes behind it, but for a dot.
pub proof fn a_path_starts_with_a_name_or_a_separator(
    name: &str,
    r: Vec<String>,
    absolute: &str,
    absolute_r: Vec<String>,
)
    requires
        !name@.contains('/'),
        absolute@ == seq!['/'] + name@,
        call_ensures(path_components, (name,), r),
        call_ensures(path_components, (absolute,), absolute_r),
    ensures
        name@.len() == 0 ==> text::texts(r@) == Seq::<Seq<char>>::empty(),
        name@.len() > 0 ==> text::texts(r@) == seq![name@],
        name@.len() == 0 || name@ == "."@ ==> text::texts(absolute_r@) == seq![seq!['/']],
        name@.len() > 0 && name@ != "."@ ==> text::texts(absolute_r@) == seq![seq!['/'], name@],
{
    reveal_strlit("/");
    assert("/"@ =~= seq!['/']);
    splitting_a_name(name@);
    let none = Seq::<char>::empty();
    splitting_a_name(none);
    assert(none.push('/') + name@ =~= absolute@);
    splitting_behind_a_separator(none, name@);
    let one = seq![name@];
    assert(paths::components_of(one, 0) =~= Seq::empty());
    assert(one[0] == name@);
    assert(paths::components_of(one, 1) =~= if name@.len() > 0 {
        seq![name@]
    } else {
        Seq::empty()
    });
    if name@.len() > 0 && name@[0] == '/' {
        assert(name@.contains('/'));
    }
    assert(!paths::is_absolute(name@));
    let two = seq![none].push(name@);
    assert(text::split(absolute@, '/') == two);
    assert(two[0] == none && two[1] == name@);
    assert(paths::components_of(two, 0) =~= Seq::empty());
    assert(paths::components_of(two, 1) =~= Seq::empty());
    assert(absolute@[0] == '/');
    assert(paths::components(absolute@) =~= if name@.len() > 0 && name@ != "."@ {
        seq![seq!['/'], name@]
    } else {
        seq![seq!['/']]
    });
}

/// Two paths are the same exactly when they have the same components, and one
/// lies at or below another exactly when its components go on where those of
/// the other end.
pub proof fn paths_are_told_by_their_components(
    a: &str,
    b: &str,
    a_parts: Vec<String>,
    b_parts: Vec<String>,
    same: bool,
    below: bool,
)
    requires
        call_ensures(path_components, (a,), a_parts),
        call_ensures(path_components, (b,), b_parts),
        call_ensures(paths_equal, (a, b), same),
        call_ensures(is_below, (a, b), below),
    ensures
        same <==> text::texts(a_parts@) == text::texts(b_parts@),
        below <==> exists|rest: Seq<Seq<char>>|
            text::texts(a_parts@) == #[trigger] (text::texts(b_parts@) + rest),
{
    let all = text::texts(a_parts@);
    let head = text::texts(b_parts@);
    if below {
        let rest = all.skip(head.len() as int);
        assert(all =~= all.take(head.len() as int) + rest);
        assert(all == head + rest);
    }
    if exists|rest: Seq<Seq<char>>| all == #[trigger] (head + rest) {
        let rest = choose|rest: Seq<Seq<char>>| all == #[trigger] (head + rest);
        assert(all.take(head.len() as int) =~= head);
    }
}

// ---------------------------------------------------------------------------
// Sorted lists
// ---------------------------------------------------------------------------

/// Whether two texts agree on their first `k` characters, and the first one
/// either ends there or goes on with the smaller character.
pub open spec fn parts_at(a: Seq<char>, b: Seq<char>, k: int) -> bool {
    &&& 0 <= k <= a.len()
    &&& k < b.len()
    &&& forall|j: int| 0 <= j < k ==> a[j] == b[j]
    &&& k == a.len() || a[k] < b[k]
}

proof fn before_has_a_parting(a: Seq<char>, b: Seq<char>)
    ensures
        sorting::before(a, b) <==> exists|k: int| parts_at(a, b, k),
    decreases a.len(),
{
    if b.len() == 0 {
    } else if a.len() == 0 {
        assert(parts_at(a, b, 0));
    } else if a[0] != b[0] {
        if a[0] < b[0] {
            assert(parts_at(a, b, 0));
        } else {
            assert forall|k: int| !parts_at(a, b, k) by {
                if k > 0 && parts_at(a, b, k) {
                    assert(a[0] == b[0]);
                }
            }
        }
    } else {
        let ra = a.drop_first();
        let rb = b.drop_first();
        before_has_a_parting(ra, rb);
        if sorting::before(a, b) {
            let k = choose|k: int| parts_at(ra, rb, k);
            assert forall|j: int| 0 <= j < k + 1 implies a[j] == b[j] by {
                if j > 0 {
                    assert(ra[j - 1] == rb[j - 1]);
                }
            }
            if k < ra.len() {
                assert(ra[k] == a[k + 1]);
                assert(rb[k] == b[k + 1]);
            }
            assert(parts_at(a, b, k + 1));
        }
        if exists|k: int| parts_at(a, b, k) {
            let k = choose|k: int| parts_at(a, b, k);
            assert(k > 0);
            assert forall|j: int| 0 <= j < k - 1 implies ra[j] == rb[j] by {
                assert(a[j + 1] == b[j + 1]);
            }
            if k < a.len() {
                assert(ra[k - 1] == a[k]);
                assert(rb[k - 1] == b[k]);
            }
            assert(parts_at(ra, rb, k - 1));
        }
    }
}

/// One text comes before another exactly when it is a beginning of it, or has
/// the smaller character where they part.
pub proof fn the_smaller_character_comes_first(a: &str, b: &str, r: bool)
    requires
        call_ensures(is_before, (a, b), r),
    ensures
        r <==> exists|k: int| parts_at(a@, b@, k),
{
    before_has_a_parting(a@, b@);
}

/// A text is put into a sorted list once: the list stays sorted, and holds what
/// it held and the text, each of them once.
pub proof fn a_sorted_list_holds_a_text_once(list: &mut Vec<String>, item: String, i: int, j: int)
    requires
        sorting::ascending(text::texts(old(list)@)),
        call_ensures(insert_sorted, (list, item), ()),
    ensures
        forall|t: Seq<char>| #[trigger]
            text::texts(final(list)@).contains(t) <==> text::texts(old(list)@).contains(t) || t
                == item@,
        0 <= i < j < final(list)@.len() ==> exists|k: int|
            parts_at(final(list)@[i]@, final(list)@[j]@, k),
        0 <= i < j < final(list)@.len() ==> final(list)@[i]@ != final(list)@[j]@,
{
    let after = text::texts(final(list)@);
    if 0 <= i < j < final(list)@.len() {
        assert(after[i] == final(list)@[i]@ && after[j] == final(list)@[j]@);
        assert(sorting::before(after[i], after[j]));
        before_has_a_parting(after[i], after[j]);
        sorting::before_is_irreflexive(after[i]);
    }
}

} // verus!
