//! Components of slash-separated paths.

use crate::text::characters;
use vstd::prelude::*;

verus! {

/// How many characters stand before the first slash of `s`, or in `s` where it has none.
pub open spec fn segment_end(s: Seq<char>) -> nat
    decreases s.len(),
{
    if s.len() == 0 || s[0] == '/' {
        0
    } else {
        1 + segment_end(s.skip(1))
    }
}

/// Whether the text between two slashes names something: neither nothing nor a single dot does.
pub open spec fn is_name(segment: Seq<char>) -> bool {
    segment.len() > 0 && segment != seq!['.']
}

/// The names between the slashes of `s`, in order.
pub open spec fn names(s: Seq<char>) -> Seq<Seq<char>>
    decreases s.len(),
{
    let end = segment_end(s) as int;
    let segment = s.take(end);
    let first = if is_name(segment) {
        seq![segment]
    } else {
        Seq::empty()
    };
    if end >= s.len() {
        first
    } else {
        first + names(s.skip(end + 1))
    }
}

pub open spec fn is_absolute(path: Seq<char>) -> bool {
    path.len() > 0 && path[0] == '/'
}

/// Whether `path` is relative and starts with a dot segment.
pub open spec fn starts_here(path: Seq<char>) -> bool {
    path.take(segment_end(path) as int) == seq!['.']
}

/// The components of `path`: the root of an absolute path, the dot that a relative path starts
/// with, and then the names between the slashes.
pub open spec fn components(path: Seq<char>) -> Seq<Seq<char>> {
    if is_absolute(path) {
        seq![seq!['/']] + names(path)
    } else if starts_here(path) {
        seq![seq!['.']] + names(path)
    } else {
        names(path)
    }
}

/// The second component of `path`, or nothing where it has fewer than two.
pub open spec fn second_component_of(path: Seq<char>) -> Seq<char> {
    if components(path).len() >= 2 {
        components(path)[1]
    } else {
        Seq::empty()
    }
}

proof fn lemma_segment_end(s: Seq<char>)
    ensures
        segment_end(s) <= s.len(),
        segment_end(s) < s.len() ==> s[segment_end(s) as int] == '/',
        forall|i: int| 0 <= i < segment_end(s) ==> s[i] != '/',
    decreases s.len(),
{
    if s.len() > 0 && s[0] != '/' {
        lemma_segment_end(s.skip(1));
        assert forall|i: int| 0 <= i < segment_end(s) implies s[i] != '/' by {
            if i > 0 {
                assert(s[i] == s.skip(1)[i - 1]);
            }
        }
    }
}

proof fn lemma_segment_end_is(s: Seq<char>, end: int)
    requires
        0 <= end <= s.len(),
        end < s.len() ==> s[end] == '/',
        forall|i: int| 0 <= i < end ==> s[i] != '/',
    ensures
        segment_end(s) == end,
{
    lemma_segment_end(s);
    let other = segment_end(s) as int;
    if other < end {
        assert(s[other] != '/');
    }
}

/// Where the segment of `cs` that starts at `start` ends.
fn segment_end_from(cs: &Vec<char>, start: usize) -> (end: usize)
    requires
        start <= cs.len(),
    ensures
        start <= end <= cs.len(),
        end - start == segment_end(cs@.skip(start as int)),
{
    let mut end: usize = start;
    while end < cs.len() && cs[end] != '/'
        invariant
            start <= end <= cs.len(),
            forall|i: int| start <= i < end ==> cs@[i] != '/',
        decreases cs.len() - end,
    {
        end += 1;
    }
    proof {
        lemma_segment_end_is(cs@.skip(start as int), end - start);
    }
    end
}

/// The second component of `path`, or the empty string where it has fewer than two.
pub fn second_component(path: &str) -> (r: &str)
    ensures
        r@ == second_component_of(path@),
{
    let cs = characters(path);
    let first_end = segment_end_from(&cs, 0);
    assert(cs@.skip(0) == path@);
    let mut found: bool = (cs.len() > 0 && cs[0] == '/') || (first_end == 1 && cs[0] == '.');
    let ghost mut before: Seq<Seq<char>> = if is_absolute(path@) {
        seq![seq!['/']]
    } else if starts_here(path@) {
        seq![seq!['.']]
    } else {
        Seq::empty()
    };
    proof {
        let first = path@.take(first_end as int);
        if first_end == 1 && cs@[0] == '.' {
            assert(first == seq!['.']);
        } else if first == seq!['.'] {
            assert(first[0] == '.');
        }
        assert(components(path@) == before + names(cs@.skip(0)));
    }
    let mut start: usize = 0;
    loop
        invariant
            start <= cs.len(),
            cs@ == path@,
            components(path@) == before + names(cs@.skip(start as int)),
            before.len() == if found { 1nat } else { 0 },
        decreases cs.len() - start,
    {
        let end = segment_end_from(&cs, start);
        let ghost rest = cs@.skip(start as int);
        let ghost segment = rest.take(end - start);
        assert(segment == path@.subrange(start as int, end as int));
        let named = end > start && !(end - start == 1 && cs[start] == '.');
        proof {
            if end - start == 1 && cs@[start as int] == '.' {
                assert(segment == seq!['.']);
            } else if segment == seq!['.'] {
                assert(segment[0] == '.');
            }
            assert(named == is_name(segment));
            if end < cs.len() {
                assert(rest.skip(end - start + 1) == cs@.skip(end + 1));
            }
        }
        if named {
            if found {
                return path.substring_char(start, end);
            }
            found = true;
            proof {
                before = before.push(segment);
            }
        }
        if end == cs.len() {
            proof {
                reveal_strlit("");
                assert(components(path@) == before);
            }
            return "";
        }
        start = end + 1;
    }
}

/// What stands before a slash and what stands after it contribute their names independently: a
/// slash more, a dot segment or a slash at the end changes nothing.
pub proof fn names_around_slash(a: Seq<char>, b: Seq<char>)
    ensures
        names(a + seq!['/'] + b) == names(a) + names(b),
    decreases a.len(),
{
    let s = a + seq!['/'] + b;
    let end = segment_end(a) as int;
    lemma_segment_end(a);
    assert forall|i: int| 0 <= i < end implies s[i] != '/' by {
        assert(s[i] == a[i]);
    }
    lemma_segment_end_is(s, end);
    assert(s.take(end) == a.take(end));
    if end >= a.len() {
        assert(s.skip(end + 1) == b);
    } else {
        names_around_slash(a.skip(end + 1), b);
        assert(s.skip(end + 1) == a.skip(end + 1) + seq!['/'] + b);
    }
}

proof fn lemma_names_of_one_segment(segment: Seq<char>)
    requires
        forall|i: int| 0 <= i < segment.len() ==> segment[i] != '/',
    ensures
        is_name(segment) ==> names(segment) == seq![segment],
        !is_name(segment) ==> names(segment) == Seq::<Seq<char>>::empty(),
{
    lemma_segment_end_is(segment, segment.len() as int);
    assert(segment.take(segment.len() as int) == segment);
}

/// The second component of an absolute path is the first name in it, whatever follows.
pub proof fn second_component_is_first_name(name: Seq<char>, rest: Seq<char>)
    requires
        name.len() > 0,
        name != seq!['.'],
        forall|i: int| 0 <= i < name.len() ==> name[i] != '/',
    ensures
        second_component_of(seq!['/'] + name) == name,
        second_component_of(seq!['/'] + name + seq!['/'] + rest) == name,
{
    let empty = Seq::<char>::empty();
    lemma_names_of_one_segment(empty);
    lemma_names_of_one_segment(name);
    names_around_slash(empty, name);
    assert(empty + seq!['/'] + name == seq!['/'] + name);
    names_around_slash(seq!['/'] + name, rest);
}

/// Leading slashes and dot segments of an absolute path do not change its components.
pub proof fn root_absorbs_slashes_and_dots(rest: Seq<char>)
    ensures
        components(seq!['/', '/'] + rest) == components(seq!['/'] + rest),
        components(seq!['/', '.', '/'] + rest) == components(seq!['/'] + rest),
{
    let empty = Seq::<char>::empty();
    lemma_names_of_one_segment(empty);
    names_around_slash(empty, rest);
    assert(empty + seq!['/'] + rest == seq!['/'] + rest);
    names_around_slash(empty, seq!['/'] + rest);
    assert(empty + seq!['/'] + (seq!['/'] + rest) == seq!['/', '/'] + rest);
    lemma_names_of_one_segment(seq!['.']);
    names_around_slash(seq!['.'], rest);
    names_around_slash(empty, seq!['.'] + seq!['/'] + rest);
    assert(empty + seq!['/'] + (seq!['.'] + seq!['/'] + rest) == seq!['/', '.', '/'] + rest);
}

/// An absolute path without a name has no second component. Slashes and dot segments that follow
/// its root do not change which one it has.
pub proof fn second_component_skips_slashes_and_dots(rest: Seq<char>)
    ensures
        second_component_of(seq![]) == Seq::<char>::empty(),
        second_component_of(seq!['/']) == Seq::<char>::empty(),
        second_component_of(seq!['/', '.']) == Seq::<char>::empty(),
        second_component_of(seq!['/', '/'] + rest) == second_component_of(seq!['/'] + rest),
        second_component_of(seq!['/', '.', '/'] + rest) == second_component_of(seq!['/'] + rest),
{
    let empty = Seq::<char>::empty();
    lemma_names_of_one_segment(empty);
    lemma_names_of_one_segment(seq!['.']);
    names_around_slash(empty, empty);
    assert(empty + seq!['/'] + empty == seq!['/']);
    names_around_slash(empty, seq!['.']);
    assert(empty + seq!['/'] + seq!['.'] == seq!['/', '.']);
    root_absorbs_slashes_and_dots(rest);
}

/// A relative path starts with a component, be it a dot. What follows its first slash gives the
/// second component as it would below the root.
pub proof fn relative_paths_start_with_a_component(first: Seq<char>, rest: Seq<char>)
    requires
        first.len() > 0,
        forall|i: int| 0 <= i < first.len() ==> first[i] != '/',
    ensures
        second_component_of(first) == Seq::<char>::empty(),
        second_component_of(first + seq!['/'] + rest) == second_component_of(seq!['/'] + rest),
{
    let empty = Seq::<char>::empty();
    let path = first + seq!['/'] + rest;
    lemma_names_of_one_segment(empty);
    lemma_names_of_one_segment(first);
    names_around_slash(empty, rest);
    assert(empty + seq!['/'] + rest == seq!['/'] + rest);
    names_around_slash(first, rest);
    assert(path[0] == first[0]);
    assert forall|i: int| 0 <= i < first.len() implies path[i] != '/' by {
        assert(path[i] == first[i]);
    }
    lemma_segment_end_is(path, first.len() as int);
    lemma_segment_end_is(first, first.len() as int);
    assert(path.take(first.len() as int) == first);
    assert(first.take(first.len() as int) == first);
}

} // verus!
