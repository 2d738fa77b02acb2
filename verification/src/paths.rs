//! File paths by their components.
//!
//! Two paths are the same where their components are: repeated separators, a
//! trailing one, and `.` anywhere but at the beginning do not count.

use vstd::prelude::*;

use crate::text::same_text;

verus! {

/// What the separators of `path` delimit, empty pieces included.
pub open spec fn segments(path: Seq<char>) -> Seq<Seq<char>>
    decreases path.len(),
{
    if path.len() == 0 {
        seq![Seq::empty()]
    } else {
        let before = segments(path.drop_last());
        if path.last() == '/' {
            before.push(Seq::empty())
        } else {
            before.drop_last().push(before.last().push(path.last()))
        }
    }
}

/// Segment `index` counts as a component.
pub open spec fn counts(segment: Seq<char>, index: int) -> bool {
    segment.len() > 0 && (segment != "."@ || index == 0)
}

/// The segments that count.
pub open spec fn counted(segments: Seq<Seq<char>>) -> Seq<Seq<char>>
    decreases segments.len(),
{
    if segments.len() == 0 {
        Seq::empty()
    } else {
        let before = counted(segments.drop_last());
        if counts(segments.last(), segments.len() - 1) {
            before.push(segments.last())
        } else {
            before
        }
    }
}

/// The components of `path` below the root.
pub open spec fn components(path: Seq<char>) -> Seq<Seq<char>> {
    counted(segments(path))
}

/// `path` starts at the root.
pub open spec fn is_absolute(path: Seq<char>) -> bool {
    path.len() > 0 && path[0] == '/'
}

/// `path` and `other` have the same components.
pub open spec fn is_same_path(path: Seq<char>, other: Seq<char>) -> bool {
    is_absolute(path) == is_absolute(other) && components(path) == components(other)
}

/// The last component of `path`, unless it is `.` or `..`.
pub open spec fn last_component(path: Seq<char>) -> Option<Seq<char>> {
    let parts = components(path);
    if parts.len() == 0 || parts.last() == "."@ || parts.last() == ".."@ {
        None
    } else {
        Some(parts.last())
    }
}

/// The views of `parts`.
pub open spec fn part_views(parts: Seq<&str>) -> Seq<Seq<char>> {
    parts.map_values(|part: &str| part@)
}

fn push_counted<'a>(parts: &mut Vec<&'a str>, segment: &'a str, first: bool)
    ensures
        part_views(final(parts)@) == if segment@.len() > 0 && (segment@ != "."@ || first) {
            part_views(old(parts)@).push(segment@)
        } else {
            part_views(old(parts)@)
        },
{
    if segment.unicode_len() > 0 && (first || !same_text(segment, ".")) {
        parts.push(segment);
        assert(part_views(parts@) =~= part_views(old(parts)@).push(segment@));
    }
}

fn split<'a>(path: &'a str) -> (r: Vec<&'a str>)
    ensures
        part_views(r@) == components(path@),
{
    let length: usize = path.unicode_len();
    let mut parts: Vec<&'a str> = Vec::new();
    let mut start: usize = 0;
    let mut index: usize = 0;
    assert(path@.take(0) =~= Seq::<char>::empty());
    assert(path@.subrange(0, 0) =~= Seq::<char>::empty());
    assert(segments(path@.take(0)).drop_last() =~= Seq::<Seq<char>>::empty());
    assert(part_views(parts@) =~= Seq::<Seq<char>>::empty());
    while index < length
        invariant
            start <= index <= length,
            length == path@.len(),
            segments(path@.take(index as int)).len() > 0,
            (start == 0) == (segments(path@.take(index as int)).len() == 1),
            segments(path@.take(index as int)).last() == path@.subrange(start as int, index as int),
            part_views(parts@) == counted(segments(path@.take(index as int)).drop_last()),
        decreases length - index,
    {
        let ghost before = segments(path@.take(index as int));
        let ghost after = segments(path@.take(index + 1));
        assert(path@.take(index + 1).drop_last() =~= path@.take(index as int));
        if path.get_char(index) == '/' {
            let segment: &'a str = path.substring_char(start, index);
            push_counted(&mut parts, segment, start == 0);
            start = index + 1;
            assert(after.drop_last() =~= before);
            assert(path@.subrange(start as int, start as int) =~= Seq::<char>::empty());
        } else {
            assert(after.drop_last() =~= before.drop_last());
            assert(path@.subrange(start as int, index + 1) =~= path@.subrange(
                start as int,
                index as int,
            ).push(path@[index as int]));
        }
        index = index + 1;
    }
    assert(path@.take(length as int) =~= path@);
    let segment: &'a str = path.substring_char(start, length);
    push_counted(&mut parts, segment, start == 0);
    parts
}

/// Whether two paths have the same components.
pub fn same_path(path: &str, other: &str) -> (r: bool)
    ensures
        r == is_same_path(path@, other@),
{
    let rooted: bool = path.unicode_len() > 0 && path.get_char(0) == '/';
    let other_rooted: bool = other.unicode_len() > 0 && other.get_char(0) == '/';
    if rooted != other_rooted {
        return false;
    }
    let parts = split(path);
    let others = split(other);
    if parts.len() != others.len() {
        assert(part_views(parts@).len() != part_views(others@).len());
        return false;
    }
    let mut index: usize = 0;
    while index < parts.len()
        invariant
            index <= parts.len() == others.len(),
            part_views(parts@) == components(path@),
            part_views(others@) == components(other@),
            forall|k: int| 0 <= k < index ==> #[trigger] parts@[k]@ == others@[k]@,
        decreases parts.len() - index,
    {
        if !same_text(parts[index], others[index]) {
            assert(part_views(parts@)[index as int] != part_views(others@)[index as int]);
            return false;
        }
        index = index + 1;
    }
    assert(part_views(parts@) =~= part_views(others@));
    true
}

/// The file name of a path, if it has one.
pub fn file_name(path: &str) -> (r: Option<String>)
    ensures
        match last_component(path@) {
            Some(name) => r is Some && r->Some_0@ == name,
            None => r is None,
        },
{
    let parts = split(path);
    if parts.len() == 0 {
        return None;
    }
    let last: &str = parts[parts.len() - 1];
    assert(part_views(parts@).last() == last@);
    if same_text(last, ".") || same_text(last, "..") {
        None
    } else {
        Some(last.to_owned())
    }
}

} // verus!
