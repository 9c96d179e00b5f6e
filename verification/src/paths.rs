//! File paths as the workstation reads them.
//!
//! A path is text with `/` between its components, on every platform. A path
//! that its platform writes with another separator is brought into this form
//! before it comes here.

use crate::text::{before, chars_of, lowercase, same_text, text_of_range};
use vstd::prelude::*;

verus! {

use crate::text::{
    lemma_text_before_irreflexive, lemma_text_before_total, lemma_text_before_transitive,
    text_before, texts, unicode_lowercase,
};

/// The longest label a path is given, in characters.
pub const MAX_LABEL_CHARS: usize = 56;

// ---------------------------------------------------------------------------
// The last component
// ---------------------------------------------------------------------------

/// `path` without what does not name anything at its end: separators and
/// references to the folder itself.
pub open spec fn path_stem_text(path: Seq<char>) -> Seq<char>
    decreases path.len(),
{
    if path.len() > 0 && path.last() == '/' {
        path_stem_text(path.drop_last())
    } else if path.len() > 1 && path.last() == '.' && path[path.len() - 2] == '/' {
        path_stem_text(path.drop_last())
    } else {
        path
    }
}

/// Where the last component of `path` starts: behind its last separator.
pub open spec fn last_component_start(path: Seq<char>) -> int
    decreases path.len(),
{
    if path.len() == 0 || path.last() == '/' {
        path.len() as int
    } else {
        last_component_start(path.drop_last())
    }
}

/// What is behind the last separator of `path`.
pub open spec fn last_component(path: Seq<char>) -> Seq<char> {
    path.subrange(last_component_start(path), path.len() as int)
}

/// The final component of a path, unless the path ends in the root, in the
/// current folder or in the folder above.
pub open spec fn path_file_name(path: Seq<char>) -> Option<Seq<char>> {
    let name = last_component(path_stem_text(path));
    if name.len() == 0 || name == seq!['.'] || name == seq!['.', '.'] {
        None
    } else {
        Some(name)
    }
}

/// What names a path in a list: its final component, or all of it where it has
/// none.
pub open spec fn path_name_text(path: Seq<char>) -> Seq<char> {
    match path_file_name(path) {
        Some(name) => name,
        None => path,
    }
}

/// Where what names something in `path` ends, and where its last component
/// starts, are within it.
pub proof fn lemma_last_component(path: Seq<char>)
    ensures
        path_stem_text(path).len() <= path.len(),
        path_stem_text(path).len() > 0 ==> path_stem_text(path).last() != '/',
        0 <= last_component_start(path) <= path.len(),
        path.len() > 0 && path.last() != '/' ==> last_component_start(path) < path.len(),
    decreases path.len(),
{
    if path.len() > 0 {
        lemma_last_component(path.drop_last());
    }
}

/// The components of a path. Separators that follow one another count as one,
/// and a reference to the folder itself only where the path starts with it.
pub open spec fn components(path: Seq<char>) -> Seq<Seq<char>>
    decreases path.len(),
{
    let stem = path_stem_text(path);
    if stem.len() == 0 {
        Seq::empty()
    } else {
        proof {
            lemma_last_component(path);
            lemma_last_component(stem);
        }
        components(stem.take(last_component_start(stem))).push(last_component(stem))
    }
}

/// Whether a path starts at the root.
pub open spec fn is_rooted(path: Seq<char>) -> bool {
    path.len() > 0 && path[0] == '/'
}

/// Whether two texts are the same path, component by component.
pub open spec fn same_path(left: Seq<char>, right: Seq<char>) -> bool {
    is_rooted(left) == is_rooted(right) && components(left) == components(right)
}

/// Where what names something ends in the first `end` characters.
fn stem_end(chars: &Vec<char>, end: usize) -> (stop: usize)
    requires
        end <= chars@.len(),
    ensures
        stop <= end,
        path_stem_text(chars@.take(end as int)) == chars@.take(stop as int),
{
    let mut stop: usize = end;
    while stop > 0 && (chars[stop - 1] == '/' || (stop > 1 && chars[stop - 1] == '.' && chars[stop
        - 2] == '/'))
        invariant
            stop <= end <= chars@.len(),
            path_stem_text(chars@.take(end as int)) == path_stem_text(chars@.take(stop as int)),
        decreases stop,
    {
        proof {
            let here = chars@.take(stop as int);
            assert(here.last() == chars@[stop - 1]);
            assert(here.drop_last() =~= chars@.take(stop - 1));
        }
        stop = stop - 1;
    }
    proof {
        let stem = chars@.take(stop as int);
        if stop > 0 {
            assert(stem.last() == chars@[stop - 1]);
        }
        if stop > 1 {
            assert(stem[stem.len() - 2] == chars@[stop - 2]);
        }
    }
    stop
}

/// Where the last component of the first `end` characters starts.
fn component_start(chars: &Vec<char>, end: usize) -> (start: usize)
    requires
        end <= chars@.len(),
    ensures
        start <= end,
        start == last_component_start(chars@.take(end as int)),
{
    let mut start: usize = end;
    while start > 0 && chars[start - 1] != '/'
        invariant
            start <= end <= chars@.len(),
            last_component_start(chars@.take(end as int)) == last_component_start(
                chars@.take(start as int),
            ),
        decreases start,
    {
        proof {
            let here = chars@.take(start as int);
            assert(here.last() == chars@[start - 1]);
            assert(here.drop_last() =~= chars@.take(start - 1));
        }
        start = start - 1;
    }
    proof {
        if start > 0 {
            assert(chars@.take(start as int).last() == chars@[start - 1]);
        }
    }
    start
}

/// Tests whether two paths have the same components, as far as the first
/// characters of each.
fn same_components(left: &Vec<char>, left_end: usize, right: &Vec<char>, right_end: usize) -> (same:
    bool)
    requires
        left_end <= left@.len(),
        right_end <= right@.len(),
    ensures
        same == (components(left@.take(left_end as int)) == components(
            right@.take(right_end as int),
        )),
    decreases left_end,
{
    let left_stop: usize = stem_end(left, left_end);
    let right_stop: usize = stem_end(right, right_end);
    let ghost left_stem = left@.take(left_stop as int);
    let ghost right_stem = right@.take(right_stop as int);
    if left_stop == 0 || right_stop == 0 {
        proof {
            let left_all = components(left@.take(left_end as int));
            let right_all = components(right@.take(right_end as int));
            assert(left_stem.len() == left_stop && right_stem.len() == right_stop);
            assert((left_all.len() == 0) == (left_stop == 0));
            assert((right_all.len() == 0) == (right_stop == 0));
            if left_stop == right_stop {
                assert(left_all =~= right_all);
            }
        }
        return left_stop == right_stop;
    }
    let left_start: usize = component_start(left, left_stop);
    let right_start: usize = component_start(right, right_stop);
    proof {
        lemma_last_component(left@.take(left_end as int));
        lemma_last_component(right@.take(right_end as int));
        lemma_last_component(left_stem);
        lemma_last_component(right_stem);
        assert(left_stem.take(left_start as int) =~= left@.take(left_start as int));
        assert(right_stem.take(right_start as int) =~= right@.take(right_start as int));
    }
    let left_name = text_of_range(left, left_start, left_stop);
    let right_name = text_of_range(right, right_start, right_stop);
    let ghost left_rest = components(left@.take(left_start as int));
    let ghost right_rest = components(right@.take(right_start as int));
    proof {
        assert(left_name@ =~= last_component(left_stem));
        assert(right_name@ =~= last_component(right_stem));
        assert(left_rest.push(left_name@).last() == left_name@);
        assert(right_rest.push(right_name@).last() == right_name@);
        assert(left_rest.push(left_name@).drop_last() =~= left_rest);
        assert(right_rest.push(right_name@).drop_last() =~= right_rest);
    }
    same_text(left_name.as_str(), right_name.as_str()) && same_components(
        left,
        left_start,
        right,
        right_start,
    )
}

/// Tests whether two texts are the same path.
pub fn is_same_path(left: &str, right: &str) -> (same: bool)
    ensures
        same == same_path(left@, right@),
{
    let left_chars = chars_of(left);
    let right_chars = chars_of(right);
    let left_rooted = left_chars.len() > 0 && left_chars[0] == '/';
    let right_rooted = right_chars.len() > 0 && right_chars[0] == '/';
    proof {
        assert(left_chars@.take(left_chars@.len() as int) =~= left@);
        assert(right_chars@.take(right_chars@.len() as int) =~= right@);
    }
    left_rooted == right_rooted && same_components(
        &left_chars,
        left_chars.len(),
        &right_chars,
        right_chars.len(),
    )
}

/// The final component of a path.
pub fn file_name(path: &str) -> (name: Option<String>)
    ensures
        match (name, path_file_name(path@)) {
            (Some(found), Some(expected)) => found@ == expected,
            (None, None) => true,
            _ => false,
        },
{
    let chars = chars_of(path);
    let end: usize = stem_end(&chars, chars.len());
    let ghost stem = chars@.take(end as int);
    assert(chars@.take(chars@.len() as int) =~= path@);
    let start: usize = component_start(&chars, end);
    let name = text_of_range(&chars, start, end);
    assert(name@ =~= last_component(stem));
    let here_only = end - start == 1 && chars[start] == '.';
    let above = end - start == 2 && chars[start] == '.' && chars[start + 1] == '.';
    proof {
        if here_only {
            assert(name@ =~= seq!['.']);
        }
        if above {
            assert(name@ =~= seq!['.', '.']);
        }
        if name@ == seq!['.'] || name@ == seq!['.', '.'] {
            assert(name@[0] == '.' && name@.last() == '.');
        }
    }
    if start == end || here_only || above {
        None
    } else {
        Some(name)
    }
}

/// What names a path in a list.
pub fn name_text(path: &str) -> (name: String)
    ensures
        name@ == path_name_text(path@),
{
    match file_name(path) {
        Some(name) => name,
        None => path.to_owned(),
    }
}

// ---------------------------------------------------------------------------
// Labels
// ---------------------------------------------------------------------------

/// A path's label: the name it goes by, cut to its first characters and an
/// ellipsis where it is too long.
pub open spec fn path_label(path: Seq<char>) -> Seq<char> {
    let name = path_name_text(path);
    if name.len() <= MAX_LABEL_CHARS {
        name
    } else {
        name.take(MAX_LABEL_CHARS - 1).push('\u{2026}')
    }
}

/// The label of a path.
pub fn short_path_label(path: &str) -> (label: String)
    ensures
        label@ == path_label(path@),
        label@.len() <= MAX_LABEL_CHARS,
{
    let name = name_text(path);
    let chars = chars_of(name.as_str());
    if chars.len() <= MAX_LABEL_CHARS {
        name
    } else {
        let mut short = text_of_range(&chars, 0, MAX_LABEL_CHARS - 1);
        assert(short@ =~= chars@.take(MAX_LABEL_CHARS - 1));
        short.push('\u{2026}');
        short
    }
}

// ---------------------------------------------------------------------------
// Playlist order
// ---------------------------------------------------------------------------

/// Playlist order: by name without regard to case, and by the whole path where
/// two names agree.
pub open spec fn path_before(left: Seq<char>, right: Seq<char>) -> bool {
    let left_name = unicode_lowercase(path_name_text(left));
    let right_name = unicode_lowercase(path_name_text(right));
    text_before(left_name, right_name) || (left_name == right_name && text_before(left, right))
}

/// A list in playlist order with nothing in it twice.
pub open spec fn in_playlist_order(paths: Seq<Seq<char>>) -> bool {
    forall|i: int, j: int|
        0 <= i < j < paths.len() ==> path_before(#[trigger] paths[i], #[trigger] paths[j])
}

/// Whether `sorted` is a selection in playlist order, each text once.
pub open spec fn is_selection_in_order(sorted: Seq<Seq<char>>, selected: Seq<Seq<char>>) -> bool {
    in_playlist_order(sorted) && forall|path: Seq<char>|
        sorted.contains(path) <==> #[trigger] selected.contains(path)
}

/// A list without the paths that are the same as the one kept before them.
pub open spec fn without_repeats(sorted: Seq<Seq<char>>) -> Seq<Seq<char>>
    decreases sorted.len(),
{
    if sorted.len() == 0 {
        Seq::empty()
    } else {
        let kept = without_repeats(sorted.drop_last());
        if kept.len() > 0 && same_path(sorted.last(), kept.last()) {
            kept
        } else {
            kept.push(sorted.last())
        }
    }
}

/// Whether `ordered` is the playlist of a selection: what was selected, in
/// playlist order, and of paths that are the same and follow one another the
/// first.
pub open spec fn is_playlist_of(ordered: Seq<Seq<char>>, selected: Seq<Seq<char>>) -> bool {
    exists|sorted: Seq<Seq<char>>| #[trigger]
        is_selection_in_order(sorted, selected) && ordered == without_repeats(sorted)
}

/// No path comes before itself.
pub proof fn lemma_path_before_irreflexive(path: Seq<char>)
    ensures
        !path_before(path, path),
{
    lemma_text_before_irreflexive(unicode_lowercase(path_name_text(path)));
    lemma_text_before_irreflexive(path);
}

/// Of two different paths, one comes before the other.
pub proof fn lemma_path_before_total(left: Seq<char>, right: Seq<char>)
    ensures
        path_before(left, right) || path_before(right, left) || left == right,
{
    lemma_text_before_total(
        unicode_lowercase(path_name_text(left)),
        unicode_lowercase(path_name_text(right)),
    );
    lemma_text_before_total(left, right);
}

/// Playlist order carries from one pair to the next.
pub proof fn lemma_path_before_transitive(a: Seq<char>, b: Seq<char>, c: Seq<char>)
    requires
        path_before(a, b),
        path_before(b, c),
    ensures
        path_before(a, c),
{
    let x = unicode_lowercase(path_name_text(a));
    let y = unicode_lowercase(path_name_text(b));
    let z = unicode_lowercase(path_name_text(c));
    if text_before(x, y) && text_before(y, z) {
        lemma_text_before_transitive(x, y, z);
    }
    if text_before(a, b) && text_before(b, c) {
        lemma_text_before_transitive(a, b, c);
    }
}

/// A list in playlist order is fixed by what it holds.
proof fn lemma_order_is_unique(left: Seq<Seq<char>>, right: Seq<Seq<char>>)
    requires
        in_playlist_order(left),
        in_playlist_order(right),
        forall|path: Seq<char>| left.contains(path) <==> right.contains(path),
    ensures
        left == right,
    decreases left.len(),
{
    if left.len() == 0 {
        if right.len() > 0 {
            assert(right.contains(right[0]));
        }
        assert(left =~= right);
    } else {
        assert(left.contains(left.last()));
        assert(right.contains(left.last()));
        let l = choose|l: int| 0 <= l < right.len() && right[l] == left.last();
        assert(right.contains(right.last()));
        assert(left.contains(right.last()));
        let r = choose|r: int| 0 <= r < left.len() && left[r] == right.last();
        if l < right.len() - 1 {
            assert(path_before(right[l], right[right.len() - 1]));
            if r < left.len() - 1 {
                assert(path_before(left[r], left[left.len() - 1]));
                lemma_path_before_transitive(left.last(), right.last(), left.last());
            }
            lemma_path_before_irreflexive(left.last());
        }
        assert(left.last() == right.last());
        lemma_path_before_irreflexive(left.last());
        let l2 = left.drop_last();
        let r2 = right.drop_last();
        assert forall|path: Seq<char>| l2.contains(path) <==> r2.contains(path) by {
            if l2.contains(path) {
                let k = choose|k: int| 0 <= k < l2.len() && l2[k] == path;
                assert(left[k] == path);
                assert(path_before(left[k], left[left.len() - 1]));
                assert(right.contains(path));
                let m = choose|m: int| 0 <= m < right.len() && right[m] == path;
                assert(m < right.len() - 1);
                assert(r2[m] == path);
            }
            if r2.contains(path) {
                let k = choose|k: int| 0 <= k < r2.len() && r2[k] == path;
                assert(right[k] == path);
                assert(path_before(right[k], right[right.len() - 1]));
                assert(left.contains(path));
                let m = choose|m: int| 0 <= m < left.len() && left[m] == path;
                assert(m < left.len() - 1);
                assert(l2[m] == path);
            }
        }
        assert(in_playlist_order(l2)) by {
            assert forall|i: int, j: int| 0 <= i < j < l2.len() implies path_before(
                #[trigger] l2[i],
                #[trigger] l2[j],
            ) by {
                assert(path_before(left[i], left[j]));
            }
        }
        assert(in_playlist_order(r2)) by {
            assert forall|i: int, j: int| 0 <= i < j < r2.len() implies path_before(
                #[trigger] r2[i],
                #[trigger] r2[j],
            ) by {
                assert(path_before(right[i], right[j]));
            }
        }
        lemma_order_is_unique(l2, r2);
        assert(left =~= l2.push(left.last()));
        assert(right =~= r2.push(right.last()));
    }
}

/// A selection has one playlist.
pub proof fn law_playlist_order_is_unique(
    left: Seq<Seq<char>>,
    right: Seq<Seq<char>>,
    selected: Seq<Seq<char>>,
)
    requires
        is_playlist_of(left, selected),
        is_playlist_of(right, selected),
    ensures
        left == right,
{
    let one = choose|sorted: Seq<Seq<char>>| #[trigger]
        is_selection_in_order(sorted, selected) && left == without_repeats(sorted);
    let other = choose|sorted: Seq<Seq<char>>| #[trigger]
        is_selection_in_order(sorted, selected) && right == without_repeats(sorted);
    assert forall|path: Seq<char>| one.contains(path) <==> other.contains(path) by {
        assert(one.contains(path) <==> selected.contains(path));
        assert(other.contains(path) <==> selected.contains(path));
    }
    lemma_order_is_unique(one, other);
}

/// A list in order stays so without its last.
proof fn lemma_rest_in_order(sorted: Seq<Seq<char>>)
    requires
        sorted.len() > 0,
        in_playlist_order(sorted),
    ensures
        in_playlist_order(sorted.drop_last()),
{
    let rest = sorted.drop_last();
    assert forall|i: int, j: int| 0 <= i < j < rest.len() implies path_before(
        #[trigger] rest[i],
        #[trigger] rest[j],
    ) by {
        assert(path_before(sorted[i], sorted[j]));
    }
}

/// Leaving out repeats makes nothing up and keeps the order.
proof fn lemma_kept_in_order(sorted: Seq<Seq<char>>)
    requires
        in_playlist_order(sorted),
    ensures
        in_playlist_order(without_repeats(sorted)),
        forall|i: int|
            0 <= i < without_repeats(sorted).len() ==> sorted.contains(
                #[trigger] without_repeats(sorted)[i],
            ),
    decreases sorted.len(),
{
    if sorted.len() > 0 {
        let rest = sorted.drop_last();
        let last = sorted.last();
        lemma_rest_in_order(sorted);
        lemma_kept_in_order(rest);
        let before = without_repeats(rest);
        let kept = without_repeats(sorted);
        assert(last == sorted[sorted.len() - 1]);
        assert(kept == before || kept == before.push(last));
        assert forall|i: int| 0 <= i < before.len() implies path_before(
            #[trigger] before[i],
            last,
        ) && sorted.contains(before[i]) by {
            assert(rest.contains(before[i]));
            let k = choose|k: int| 0 <= k < rest.len() && rest[k] == before[i];
            assert(sorted[k] == before[i]);
            assert(path_before(sorted[k], sorted[sorted.len() - 1]));
        }
        assert(sorted.contains(last));
        assert forall|i: int, j: int| 0 <= i < j < kept.len() implies path_before(
            #[trigger] kept[i],
            #[trigger] kept[j],
        ) by {
            assert(kept[i] == before[i]);
            if j < before.len() {
                assert(path_before(before[i], before[j]));
            }
        }
    }
}

/// Without repeats no two neighbours are the same path.
proof fn lemma_neighbours_differ(sorted: Seq<Seq<char>>, at: int)
    requires
        0 < at < without_repeats(sorted).len(),
    ensures
        !same_path(without_repeats(sorted)[at], without_repeats(sorted)[at - 1]),
    decreases sorted.len(),
{
    let before = without_repeats(sorted.drop_last());
    if at < before.len() {
        lemma_neighbours_differ(sorted.drop_last(), at);
    }
}

/// Every path is the same as one that is kept.
proof fn lemma_a_path_is_kept(sorted: Seq<Seq<char>>, at: int) -> (k: int)
    requires
        0 <= at < sorted.len(),
    ensures
        0 <= k < without_repeats(sorted).len(),
        same_path(sorted[at], without_repeats(sorted)[k]),
    decreases sorted.len(),
{
    if at < sorted.len() - 1 {
        lemma_a_path_is_kept(sorted.drop_last(), at)
    } else {
        without_repeats(sorted).len() - 1
    }
}

/// A playlist loses no file and makes none up: every path of it was selected,
/// every selected path is in it as itself or as the same path written otherwise,
/// it is in playlist order, and no two neighbours are the same path.
pub proof fn law_a_playlist_loses_no_file(ordered: Seq<Seq<char>>, selected: Seq<Seq<char>>)
    requires
        is_playlist_of(ordered, selected),
    ensures
        in_playlist_order(ordered),
        forall|i: int| 0 <= i < ordered.len() ==> selected.contains(#[trigger] ordered[i]),
        forall|i: int, j: int|
            0 <= i && j == i + 1 && j < ordered.len() ==> !same_path(
                #[trigger] ordered[j],
                #[trigger] ordered[i],
            ),
        forall|i: int|
            0 <= i < selected.len() ==> exists|k: int|
                0 <= k < ordered.len() && same_path(
                    #[trigger] selected[i],
                    #[trigger] ordered[k],
                ),
{
    let sorted = choose|sorted: Seq<Seq<char>>| #[trigger]
        is_selection_in_order(sorted, selected) && ordered == without_repeats(sorted);
    lemma_kept_in_order(sorted);
    assert forall|i: int, j: int| 0 <= i && j == i + 1 && j < ordered.len() implies !same_path(
        #[trigger] ordered[j],
        #[trigger] ordered[i],
    ) by {
        lemma_neighbours_differ(sorted, j);
    }
    assert forall|i: int| 0 <= i < ordered.len() implies selected.contains(
        #[trigger] ordered[i],
    ) by {
        assert(sorted.contains(ordered[i]));
        assert(sorted.contains(ordered[i]) <==> selected.contains(ordered[i]));
    }
    assert forall|i: int| 0 <= i < selected.len() implies exists|k: int|
        0 <= k < ordered.len() && same_path(#[trigger] selected[i], #[trigger] ordered[k]) by {
        assert(selected.contains(selected[i]));
        assert(sorted.contains(selected[i]));
        let at = choose|at: int| 0 <= at < sorted.len() && sorted[at] == selected[i];
        let k = lemma_a_path_is_kept(sorted, at);
        assert(same_path(selected[i], ordered[k]));
    }
}

/// Tests whether one path comes before another.
fn comes_before(left: &str, right: &str) -> (yes: bool)
    ensures
        yes == path_before(left@, right@),
{
    let left_name = lowercase(name_text(left).as_str());
    let right_name = lowercase(name_text(right).as_str());
    if same_text(left_name.as_str(), right_name.as_str()) {
        proof {
            lemma_text_before_irreflexive(left_name@);
        }
        before(left, right)
    } else {
        before(left_name.as_str(), right_name.as_str())
    }
}

/// The paths of a selection in playlist order, each text once.
fn paths_in_order(paths: &Vec<String>) -> (ordered: Vec<String>)
    ensures
        is_selection_in_order(texts(ordered@), texts(paths@)),
{
    let mut ordered: Vec<String> = Vec::new();
    let mut at: usize = 0;
    while at < paths.len()
        invariant
            at <= paths@.len(),
            in_playlist_order(texts(ordered@)),
            forall|path: Seq<char>|
                texts(ordered@).contains(path) <==> #[trigger] texts(paths@).take(
                    at as int,
                ).contains(path),
        decreases paths@.len() - at,
    {
        let ghost old_texts = texts(ordered@);
        let ghost path = paths@[at as int]@;
        let mut place: usize = 0;
        while place < ordered.len() && comes_before(ordered[place].as_str(), paths[at].as_str())
            invariant
                at < paths@.len(),
                path == paths@[at as int]@,
                place <= ordered@.len(),
                old_texts == texts(ordered@),
                forall|i: int| 0 <= i < place ==> path_before(#[trigger] old_texts[i], path),
            decreases ordered@.len() - place,
        {
            assert(old_texts[place as int] == ordered@[place as int]@);
            place = place + 1;
        }
        let known = place < ordered.len() && same_text(ordered[place].as_str(), paths[at].as_str());
        if !known {
            if place < ordered.len() {
                proof {
                    assert(old_texts[place as int] == ordered@[place as int]@);
                    lemma_path_before_total(old_texts[place as int], path);
                    assert forall|j: int| place <= j < old_texts.len() implies path_before(
                        path,
                        #[trigger] old_texts[j],
                    ) by {
                        if j > place {
                            lemma_path_before_transitive(path, old_texts[place as int], old_texts[j]);
                        }
                    }
                }
            }
            ordered.insert(place, paths[at].clone());
            proof {
                let new_texts = texts(ordered@);
                assert(new_texts =~= old_texts.insert(place as int, path));
                assert forall|i: int, j: int| 0 <= i < j < new_texts.len() implies path_before(
                    #[trigger] new_texts[i],
                    #[trigger] new_texts[j],
                ) by {
                    if i == place {
                        assert(new_texts[j] == old_texts[j - 1]);
                    } else if j == place {
                        assert(new_texts[i] == old_texts[i]);
                    } else {
                        let a = if i < place { i } else { i - 1 };
                        let b = if j < place { j } else { j - 1 };
                        assert(path_before(old_texts[a], old_texts[b]));
                    }
                }
                assert forall|other: Seq<char>| new_texts.contains(other) <==> (old_texts.contains(
                    other,
                ) || other == path) by {
                    if new_texts.contains(other) {
                        let k = choose|k: int| 0 <= k < new_texts.len() && new_texts[k] == other;
                        if k < place {
                            assert(old_texts[k] == other);
                        } else if k > place {
                            assert(old_texts[k - 1] == other);
                        }
                    }
                    if old_texts.contains(other) {
                        let k = choose|k: int| 0 <= k < old_texts.len() && old_texts[k] == other;
                        if k < place {
                            assert(new_texts[k] == other);
                        } else {
                            assert(new_texts[k + 1] == other);
                        }
                    }
                    assert(new_texts[place as int] == path);
                }
            }
        } else {
            assert(old_texts[place as int] == path);
        }
        proof {
            let taken = texts(paths@).take(at as int);
            let next = texts(paths@).take(at + 1);
            assert(next =~= taken.push(path));
            assert forall|other: Seq<char>|
                texts(ordered@).contains(other) <==> #[trigger] next.contains(other) by {
                assert(texts(ordered@).contains(other) <==> (old_texts.contains(other) || other
                    == path));
                assert(old_texts.contains(other) <==> taken.contains(other));
                if next.contains(other) {
                    let k = choose|k: int| 0 <= k < next.len() && next[k] == other;
                    if k < at {
                        assert(taken[k] == other);
                    }
                }
                if taken.contains(other) {
                    let k = choose|k: int| 0 <= k < taken.len() && taken[k] == other;
                    assert(next[k] == other);
                }
                assert(next[at as int] == path);
            }
        }
        at = at + 1;
    }
    assert(texts(paths@).take(paths@.len() as int) =~= texts(paths@));
    ordered
}

/// The playlist of a selection: its paths in playlist order, without those that
/// are the same path as the one before them.
pub fn ordered_unique_paths(paths: Vec<String>) -> (ordered: Vec<String>)
    ensures
        is_playlist_of(texts(ordered@), texts(paths@)),
{
    let sorted = paths_in_order(&paths);
    let ghost all = texts(sorted@);
    let mut ordered: Vec<String> = Vec::new();
    assert(texts(ordered@) =~= without_repeats(all.take(0)));
    let mut at: usize = 0;
    while at < sorted.len()
        invariant
            at <= sorted@.len(),
            all == texts(sorted@),
            texts(ordered@) == without_repeats(all.take(at as int)),
        decreases sorted@.len() - at,
    {
        let ghost kept = texts(ordered@);
        let count: usize = ordered.len();
        proof {
            let next = all.take(at + 1);
            assert(next.drop_last() =~= all.take(at as int));
            assert(next.last() == sorted@[at as int]@);
            if count > 0 {
                assert(kept.last() == ordered@[count - 1]@);
            }
        }
        let repeated = count > 0 && is_same_path(sorted[at].as_str(), ordered[count - 1].as_str());
        if !repeated {
            ordered.push(sorted[at].clone());
            assert(texts(ordered@) =~= kept.push(sorted@[at as int]@));
        }
        at = at + 1;
    }
    proof {
        assert(all.take(all.len() as int) =~= all);
        assert(is_selection_in_order(all, texts(paths@)));
    }
    ordered
}

// ---------------------------------------------------------------------------
// Laws of names and parts
// ---------------------------------------------------------------------------

/// A name that a folder's entry can have: not empty, without a separator, and
/// neither the folder itself nor the one above.
pub open spec fn is_plain_name(name: Seq<char>) -> bool {
    &&& name.len() > 0
    &&& !name.contains('/')
    &&& name != seq!['.']
    &&& name != seq!['.', '.']
}

/// A text that ends in no separator, nor in a folder's own dot, stays as it is.
proof fn lemma_stem_of_a_name(head: Seq<char>, name: Seq<char>)
    requires
        is_plain_name(name),
        head.len() == 0 || head.last() == '/',
    ensures
        path_stem_text(head + name) == head + name,
        last_component_start(head + name) == head.len(),
        last_component(head + name) == name,
    decreases name.len(),
{
    let path = head + name;
    assert(path.last() == name.last());
    assert(name.contains(name.last()));
    if path.len() > 1 && path.last() == '.' && path[path.len() - 2] == '/' {
        if name.len() == 1 {
            assert(name =~= seq!['.']);
        } else {
            assert(path[path.len() - 2] == name[name.len() - 2]);
            assert(name.contains(name[name.len() - 2]));
        }
    }
    lemma_start_behind_head(head, name);
    assert(path.subrange(head.len() as int, path.len() as int) =~= name);
}

proof fn lemma_start_behind_head(head: Seq<char>, name: Seq<char>)
    requires
        !name.contains('/'),
        head.len() == 0 || head.last() == '/',
    ensures
        last_component_start(head + name) == head.len(),
    decreases name.len(),
{
    let path = head + name;
    if name.len() == 0 {
        assert(path =~= head);
    } else {
        assert(path.last() == name.last());
        assert(name.contains(name.last()));
        assert(path.drop_last() =~= head + name.drop_last());
        assert(!name.drop_last().contains('/')) by {
            if name.drop_last().contains('/') {
                let k = choose|k: int|
                    0 <= k < name.drop_last().len() && name.drop_last()[k] == '/';
                assert(name[k] == '/');
            }
        }
        lemma_start_behind_head(head, name.drop_last());
    }
}

/// The name of an entry in a folder is the entry's own, whatever the folder; a
/// bare name is its own name; separators behind it, and the folder's own dot,
/// make no difference; and a path's parts are its folder's and the name.
pub proof fn law_a_name_in_a_folder_is_found(folder: Seq<char>, name: Seq<char>)
    requires
        is_plain_name(name),
    ensures
        path_file_name(name) == Some(name),
        path_file_name(folder.push('/') + name) == Some(name),
        path_file_name((folder.push('/') + name).push('/')) == Some(name),
        path_file_name((folder.push('/') + name).push('/').push('.')) == Some(name),
        path_name_text(folder.push('/') + name) == name,
        components(name) == seq![name],
        components(folder.push('/') + name) == components(folder).push(name),
{
    let path = folder.push('/') + name;
    lemma_stem_of_a_name(folder.push('/'), name);
    lemma_stem_of_a_name(Seq::empty(), name);
    assert(Seq::<char>::empty() + name =~= name);
    let slashed = path.push('/');
    assert(slashed.drop_last() =~= path);
    let dotted = slashed.push('.');
    assert(dotted.drop_last() =~= slashed);
    assert(dotted.last() == '.' && dotted[dotted.len() - 2] == '/');
    assert(path_stem_text(slashed) == path);
    assert(path_stem_text(dotted) == path);
    reveal_with_fuel(components, 2);
    assert(name.take(0) =~= Seq::empty());
    assert(components(Seq::<char>::empty()) =~= Seq::empty());
    assert(components(name) =~= seq![name]);
    assert(path.take(folder.len() as int + 1) =~= folder.push('/'));
    assert(folder.push('/').drop_last() =~= folder);
    assert(path_stem_text(folder.push('/')) == path_stem_text(folder));
    assert(components(folder.push('/')) == components(folder));
    assert(components(path) == components(folder.push('/')).push(name));
}

/// A name is never empty and never holds a separator, and it stands in the path
/// as it is, right behind a separator or at the start.
pub proof fn law_a_name_is_the_end_of_its_path(path: Seq<char>) -> (start: int)
    ensures
        path_file_name(path) matches Some(name) ==> {
            &&& is_plain_name(name)
            &&& 0 <= start
            &&& start + name.len() <= path.len()
            &&& path.subrange(start, start + name.len()) == name
            &&& start == 0 || path[start - 1] == '/'
            &&& forall|i: int|
                start + name.len() <= i < path.len() ==> #[trigger] path[i] == '/' || path[i] == '.'
        },
{
    let stem = path_stem_text(path);
    lemma_stem_is_a_start(path);
    lemma_start_of_the_last(stem);
    let start = last_component_start(stem);
    let name = last_component(stem);
    if path_file_name(path) is Some {
        assert(path.subrange(start, start + name.len()) =~= name);
        assert(!name.contains('/')) by {
            if name.contains('/') {
                let k = choose|k: int| 0 <= k < name.len() && name[k] == '/';
                assert(stem[start + k] == '/');
            }
        }
        if start > 0 {
            assert(path[start - 1] == stem[start - 1]);
        }
    }
    start
}

proof fn lemma_stem_is_a_start(path: Seq<char>)
    ensures
        path_stem_text(path).len() <= path.len(),
        path_stem_text(path) == path.take(path_stem_text(path).len() as int),
        forall|i: int|
            path_stem_text(path).len() <= i < path.len() ==> #[trigger] path[i] == '/' || path[i]
                == '.',
    decreases path.len(),
{
    let stem = path_stem_text(path);
    if stem == path {
        assert(path.take(path.len() as int) =~= path);
    } else {
        let rest = path.drop_last();
        lemma_stem_is_a_start(rest);
        assert(rest.take(stem.len() as int) =~= path.take(stem.len() as int));
        assert forall|i: int| stem.len() <= i < path.len() implies #[trigger] path[i] == '/'
            || path[i] == '.' by {
            if i < rest.len() {
                assert(rest[i] == path[i]);
            }
        }
    }
}

proof fn lemma_start_of_the_last(path: Seq<char>)
    ensures
        0 <= last_component_start(path) <= path.len(),
        last_component_start(path) > 0 ==> path[last_component_start(path) - 1] == '/',
        forall|i: int|
            last_component_start(path) <= i < path.len() ==> #[trigger] path[i] != '/',
    decreases path.len(),
{
    if path.len() > 0 && path.last() != '/' {
        let rest = path.drop_last();
        lemma_start_of_the_last(rest);
        assert forall|i: int|
            last_component_start(path) <= i < path.len() implies #[trigger] path[i] != '/' by {
            if i < rest.len() {
                assert(rest[i] == path[i]);
            }
        }
    }
}

/// A label is the path's name, cut where it is longer than fifty-six characters
/// to the first fifty-five and an ellipsis.
pub proof fn law_a_label_is_the_name_cut_short(path: Seq<char>)
    ensures
        ({
            let name = path_name_text(path);
            let label = path_label(path);
            &&& label.len() <= 56
            &&& name.len() <= 56 ==> label == name
            &&& name.len() > 56 ==> label.len() == 56 && label.take(55) == name.take(55)
                && label.last() == '\u{2026}'
            &&& path_file_name(path) is None ==> name == path
        }),
{
    let name = path_name_text(path);
    if name.len() > 56 {
        assert(path_label(path).take(55) =~= name.take(55));
    }
}

/// The playlist's order looks at names first, and at whole paths where the names
/// read the same in small letters.
pub proof fn law_names_come_before_folders(left: Seq<char>, right: Seq<char>)
    ensures
        ({
            let one = unicode_lowercase(path_name_text(left));
            let other = unicode_lowercase(path_name_text(right));
            &&& text_before(one, other) ==> path_before(left, right) && !path_before(right, left)
            &&& one == other ==> path_before(left, right) == text_before(left, right)
        }),
{
    let one = unicode_lowercase(path_name_text(left));
    let other = unicode_lowercase(path_name_text(right));
    lemma_text_before_irreflexive(one);
    if text_before(one, other) && text_before(other, one) {
        lemma_text_before_transitive(one, other, one);
    }
}

/// Two paths are the same where they have the same parts from the same place: a
/// separator at the end, or the folder's own dot, makes no other path; a root
/// does, and so does another name.
pub proof fn law_what_makes_a_path_another(folder: Seq<char>, one: Seq<char>, other: Seq<char>)
    requires
        is_plain_name(one),
        is_plain_name(other),
    ensures
        same_path(folder.push('/') + one, folder.push('/') + other) <==> one == other,
        same_path((folder.push('/') + one).push('/'), folder.push('/') + one),
        same_path((folder.push('/') + one).push('/').push('.'), folder.push('/') + one),
        same_path(one, other) <==> one == other,
        !same_path(one, seq!['/'] + one),
{
    law_a_name_in_a_folder_is_found(folder, one);
    law_a_name_in_a_folder_is_found(folder, other);
    let head = components(folder);
    assert(head.push(one).last() == one && head.push(other).last() == other);
    assert(seq![one][0] == one && seq![other][0] == other);
    let path = folder.push('/') + one;
    let slashed = path.push('/');
    let dotted = slashed.push('.');
    assert(slashed.drop_last() =~= path);
    assert(dotted.drop_last() =~= slashed);
    assert(dotted.last() == '.' && dotted[dotted.len() - 2] == '/');
    assert(path_stem_text(slashed) == path_stem_text(path));
    assert(path_stem_text(dotted) == path_stem_text(path));
    assert(components(slashed) == components(path));
    assert(components(dotted) == components(path));
    assert(slashed[0] == path[0] && dotted[0] == path[0]);
    let other_path = folder.push('/') + other;
    assert(other_path[0] == path[0]);
    assert(one.contains(one[0]) && other.contains(other[0]));
    assert((seq!['/'] + one)[0] == '/');
}

} // verus!
