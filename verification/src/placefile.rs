//! Overlay placefiles: finding one in a folder, and telling one from a radar
//! volume by what it says rather than by its name alone.

use crate::paths::file_name;
use crate::text::{ascii_lowercase, before, chars_of, same_ignoring_ascii_case, text_of_range, trim};
use vstd::prelude::*;

verus! {

use crate::find::{first_where, lemma_first_where, lemma_first_where_is};
use crate::panes::text_view;
use crate::paths::path_file_name;
use crate::text::{
    ascii_lowered, is_white_space, lemma_text_before_irreflexive, lemma_text_before_transitive,
    text_before, trimmed,
};
use vstd::utf8::{decode_utf8, valid_utf8};

// ---------------------------------------------------------------------------
// The browser
// ---------------------------------------------------------------------------

/// What a folder entry is.
#[derive(Clone, Copy, Debug, PartialEq, Eq, Structural)]
pub enum EntryKind {
    Directory,
    File,
    Other,
}

/// A folder entry as it was read.
pub struct ListedEntry {
    pub path: String,
    pub name: String,
    pub kind: EntryKind,
}

/// A row of the browser.
pub struct PlacefileBrowserEntry {
    pub path: String,
    pub name: String,
    pub is_directory: bool,
}

/// A row as contracts see it.
pub ghost struct EntryView {
    pub path: Seq<char>,
    pub name: Seq<char>,
    pub is_directory: bool,
}

impl View for PlacefileBrowserEntry {
    type V = EntryView;

    open spec fn view(&self) -> EntryView {
        EntryView { path: self.path@, name: self.name@, is_directory: self.is_directory }
    }
}

/// Rows as contracts see them.
pub open spec fn entries_view(entries: Seq<PlacefileBrowserEntry>) -> Seq<EntryView> {
    entries.map_values(|entry: PlacefileBrowserEntry| entry@)
}

/// Folders first, then by name without regard to the case of letters.
pub open spec fn entry_before(left: EntryView, right: EntryView) -> bool {
    (left.is_directory && !right.is_directory) || (left.is_directory == right.is_directory
        && text_before(ascii_lowered(left.name), ascii_lowered(right.name)))
}

/// Where a row goes: behind every row that does not come after it.
pub open spec fn entry_place(entries: Seq<EntryView>, entry: EntryView) -> int {
    first_where(entries, |other: EntryView| entry_before(entry, other))
}

/// The row of a folder entry.
pub open spec fn row_of(listed: ListedEntry) -> EntryView {
    EntryView {
        path: listed.path@,
        name: listed.name@,
        is_directory: listed.kind == EntryKind::Directory,
    }
}

/// The rows of a folder: its folders and files in order, those that compare
/// equal as they were listed.
pub open spec fn browsed(listing: Seq<ListedEntry>) -> Seq<EntryView>
    decreases listing.len(),
{
    if listing.len() == 0 {
        Seq::empty()
    } else {
        let rows = browsed(listing.drop_last());
        let last = listing.last();
        if last.kind == EntryKind::Other {
            rows
        } else {
            rows.insert(entry_place(rows, row_of(last)), row_of(last))
        }
    }
}

/// Whether rows are in order.
pub open spec fn rows_in_order(rows: Seq<EntryView>) -> bool {
    forall|i: int, j: int|
        0 <= i < j < rows.len() ==> !entry_before(#[trigger] rows[j], #[trigger] rows[i])
}

/// A row goes where order is kept.
proof fn lemma_row_goes_in_order(rows: Seq<EntryView>, entry: EntryView)
    requires
        rows_in_order(rows),
    ensures
        rows_in_order(rows.insert(entry_place(rows, entry), entry)),
{
    let wanted = |other: EntryView| entry_before(entry, other);
    let at = entry_place(rows, entry);
    lemma_first_where(rows, wanted);
    let all = rows.insert(at, entry);
    assert forall|i: int, j: int| 0 <= i < j < all.len() implies !entry_before(
        #[trigger] all[j],
        #[trigger] all[i],
    ) by {
        if j < at {
            assert(all[i] == rows[i] && all[j] == rows[j]);
        } else if j == at {
            assert(all[i] == rows[i]);
            assert(!wanted(rows[i]));
        } else if i == at {
            assert(all[j] == rows[j - 1]);
            if entry_before(rows[j - 1], entry) {
                assert(wanted(rows[at]));
                lemma_entry_before_transitive(rows[j - 1], entry, rows[at]);
                if j - 1 > at {
                    assert(!entry_before(rows[j - 1], rows[at]));
                } else {
                    lemma_text_before_irreflexive(ascii_lowered(rows[at].name));
                }
            }
        } else {
            assert(all[j] == rows[j - 1]);
            if i < at {
                assert(all[i] == rows[i]);
            } else {
                assert(all[i] == rows[i - 1]);
            }
        }
    }
}

proof fn lemma_entry_before_transitive(one: EntryView, two: EntryView, three: EntryView)
    requires
        entry_before(one, two),
        entry_before(two, three),
    ensures
        entry_before(one, three),
{
    if one.is_directory == two.is_directory && two.is_directory == three.is_directory {
        lemma_text_before_transitive(
            ascii_lowered(one.name),
            ascii_lowered(two.name),
            ascii_lowered(three.name),
        );
    }
}

/// The rows of what is listed of a folder, in the order it was read.
pub open spec fn kept_rows(listing: Seq<ListedEntry>) -> Seq<EntryView> {
    listing.filter(|listed: ListedEntry| listed.kind != EntryKind::Other).map_values(
        |listed: ListedEntry| row_of(listed),
    )
}

/// What the last entry adds to the rows that are kept.
proof fn lemma_kept_rows_grow(listing: Seq<ListedEntry>)
    requires
        listing.len() > 0,
    ensures
        kept_rows(listing) == (if listing.last().kind == EntryKind::Other {
            kept_rows(listing.drop_last())
        } else {
            kept_rows(listing.drop_last()).push(row_of(listing.last()))
        }),
{
    reveal(Seq::filter);
    let kept = |listed: ListedEntry| listed.kind != EntryKind::Other;
    let rows = |listed: ListedEntry| row_of(listed);
    let rest = listing.drop_last().filter(kept);
    assert(rest.push(listing.last()).map_values(rows) =~= rest.map_values(rows).push(
        row_of(listing.last()),
    ));
}

/// Putting an element somewhere adds it once to what a sequence holds.
proof fn lemma_insert_adds_one(rows: Seq<EntryView>, at: int, row: EntryView)
    requires
        0 <= at <= rows.len(),
    ensures
        rows.insert(at, row).to_multiset() == rows.to_multiset().insert(row),
{
    broadcast use vstd::multiset::group_multiset_axioms;

    let all = rows.insert(at, row);
    all.to_multiset_ensures();
    assert(all.remove(at) =~= rows);
    assert(all[at] == row);
    assert(all.contains(row));
    assert(all.to_multiset() =~= rows.to_multiset().insert(row));
}

/// The browser lists folders before files, each by name, and leaves none out:
/// its rows are those of the folders and files that were read, each as often as
/// it was read, and of nothing else.
pub proof fn law_the_browser_lists_in_order(listing: Seq<ListedEntry>)
    ensures
        rows_in_order(browsed(listing)),
        browsed(listing).to_multiset() == kept_rows(listing).to_multiset(),
        browsed(listing).len() == kept_rows(listing).len(),
    decreases listing.len(),
{
    if listing.len() > 0 {
        let rest = listing.drop_last();
        let rows = browsed(rest);
        let last = listing.last();
        law_the_browser_lists_in_order(rest);
        lemma_kept_rows_grow(listing);
        if last.kind != EntryKind::Other {
            lemma_first_where(rows, |other: EntryView| entry_before(row_of(last), other));
            lemma_row_goes_in_order(rows, row_of(last));
            lemma_insert_adds_one(rows, entry_place(rows, row_of(last)), row_of(last));
            kept_rows(rest).to_multiset_ensures();
        }
    } else {
        reveal(Seq::filter);
        assert(browsed(listing) =~= kept_rows(listing));
    }
}

/// A small browser of local files, separate from the one for radar volumes.
pub struct PlacefileBrowser {
    pub directory: String,
    pub directory_text: String,
    pub entries: Vec<PlacefileBrowserEntry>,
    pub error: Option<String>,
}

/// The browser as contracts see it.
pub ghost struct BrowserView {
    pub directory: Seq<char>,
    pub directory_text: Seq<char>,
    pub entries: Seq<EntryView>,
    pub error: Option<Seq<char>>,
}

impl View for PlacefileBrowser {
    type V = BrowserView;

    open spec fn view(&self) -> BrowserView {
        BrowserView {
            directory: self.directory@,
            directory_text: self.directory_text@,
            entries: entries_view(self.entries@),
            error: text_view(self.error),
        }
    }
}

/// The browser after its folder was read.
pub open spec fn reloaded(browser: BrowserView, listing: Result<Vec<ListedEntry>, String>) -> BrowserView {
    match listing {
        Ok(listed) => BrowserView { entries: browsed(listed@), error: None, ..browser },
        Err(error) => BrowserView {
            entries: Seq::empty(),
            error: Some("Cannot open folder: "@ + error@),
            ..browser
        },
    }
}

/// Puts a row in its place.
fn place_row(rows: &mut Vec<PlacefileBrowserEntry>, entry: PlacefileBrowserEntry)
    ensures
        entries_view(final(rows)@) == entries_view(old(rows)@).insert(
            entry_place(entries_view(old(rows)@), entry@),
            entry@,
        ),
{
    let ghost all = entries_view(rows@);
    let ghost wanted = |other: EntryView| entry_before(entry@, other);
    let name = ascii_lowercase(entry.name.as_str());
    let mut at: usize = 0;
    while at < rows.len() && !((entry.is_directory && !rows[at].is_directory) || (
    entry.is_directory == rows[at].is_directory && before(
        name.as_str(),
        ascii_lowercase(rows[at].name.as_str()).as_str(),
    )))
        invariant
            at <= rows@.len(),
            rows@ == old(rows)@,
            all == entries_view(rows@),
            name@ == ascii_lowered(entry.name@),
            wanted == (|other: EntryView| entry_before(entry@, other)),
            forall|i: int| 0 <= i < at ==> !wanted(#[trigger] all[i]),
        decreases rows@.len() - at,
    {
        assert(all[at as int] == rows@[at as int]@);
        at = at + 1;
    }
    proof {
        if at < rows@.len() {
            assert(all[at as int] == rows@[at as int]@);
        }
        lemma_first_where_is(all, wanted, at as int);
    }
    rows.insert(at, entry);
    assert(entries_view(rows@) =~= all.insert(at as int, entry@));
}

impl PlacefileBrowser {
    /// A browser at a folder, with what reading it gave.
    pub fn open(directory: String, listing: Result<Vec<ListedEntry>, String>) -> (browser:
        PlacefileBrowser)
        ensures
            browser@ == reloaded(
                BrowserView {
                    directory: directory@,
                    directory_text: directory@,
                    entries: Seq::empty(),
                    error: None,
                },
                listing,
            ),
    {
        let directory_text = directory.clone();
        let mut browser = PlacefileBrowser {
            directory,
            directory_text,
            entries: Vec::new(),
            error: None,
        };
        browser.reload(listing);
        browser
    }

    /// Goes to another folder, with what reading it gave.
    pub fn change_directory(
        &mut self,
        directory: String,
        listing: Result<Vec<ListedEntry>, String>,
    )
        ensures
            final(self)@ == reloaded(
                BrowserView {
                    directory: directory@,
                    directory_text: directory@,
                    ..old(self)@
                },
                listing,
            ),
    {
        self.directory_text = directory.clone();
        self.directory = directory;
        self.reload(listing);
    }

    /// Lists the folder anew, with what reading it gave.
    pub fn reload(&mut self, listing: Result<Vec<ListedEntry>, String>)
        ensures
            final(self)@ == reloaded(old(self)@, listing),
    {
        let ghost start = self@;
        let mut rows: Vec<PlacefileBrowserEntry> = Vec::new();
        match listing {
            Err(error) => {
                let mut message = "Cannot open folder: ".to_owned();
                message.append(error.as_str());
                self.error = Some(message);
                assert(entries_view(rows@) =~= Seq::empty());
            },
            Ok(listed) => {
                self.error = None;
                let mut at: usize = 0;
                assert(entries_view(rows@) =~= browsed(listed@.take(0)));
                while at < listed.len()
                    invariant
                        at <= listed@.len(),
                        entries_view(rows@) == browsed(listed@.take(at as int)),
                    decreases listed@.len() - at,
                {
                    proof {
                        let next = listed@.take(at + 1);
                        assert(next.drop_last() =~= listed@.take(at as int));
                        assert(next.last() == listed@[at as int]);
                    }
                    if listed[at].kind != EntryKind::Other {
                        let entry = PlacefileBrowserEntry {
                            path: listed[at].path.clone(),
                            name: listed[at].name.clone(),
                            is_directory: listed[at].kind == EntryKind::Directory,
                        };
                        place_row(&mut rows, entry);
                    }
                    at = at + 1;
                }
                assert(listed@.take(listed@.len() as int) =~= listed@);
            },
        }
        self.entries = rows;
    }
}

// ---------------------------------------------------------------------------
// Telling a placefile
// ---------------------------------------------------------------------------

/// The text that bytes encode, or nothing where they are not UTF-8.
///
/// Calls `std::str::from_utf8`, which succeeds exactly on valid UTF-8 and then
/// gives the text that the bytes encode.
#[verifier::external_body]
fn utf8_text(bytes: &Vec<u8>) -> (text: Option<String>)
    ensures
        text is Some <==> valid_utf8(bytes@),
        text matches Some(found) ==> found@ == decode_utf8(bytes@),
{
    match std::str::from_utf8(bytes) {
        Ok(text) => Some(text.to_owned()),
        Err(_) => None,
    }
}

/// The place of the last `.` of a name, or less than zero.
pub open spec fn last_dot(name: Seq<char>) -> int
    decreases name.len(),
{
    if name.len() == 0 {
        -1
    } else if name.last() == '.' {
        name.len() - 1
    } else {
        last_dot(name.drop_last())
    }
}

/// A path's extension: what follows the last `.` of its name, unless the name
/// begins with that.
pub open spec fn path_extension(path: Seq<char>) -> Option<Seq<char>> {
    match path_file_name(path) {
        None => None,
        Some(name) => {
            let dot = last_dot(name);
            if dot <= 0 {
                None
            } else {
                Some(name.subrange(dot + 1, name.len() as int))
            }
        },
    }
}

/// A path's extension.
fn extension(path: &str) -> (found: Option<String>)
    ensures
        text_view(found) == path_extension(path@),
{
    let name = match file_name(path) {
        None => {
            return None;
        },
        Some(name) => name,
    };
    let chars = chars_of(name.as_str());
    let mut end: usize = chars.len();
    assert(chars@.take(end as int) =~= chars@);
    while end > 0 && chars[end - 1] != '.'
        invariant
            end <= chars@.len(),
            last_dot(chars@) == last_dot(chars@.take(end as int)),
        decreases end,
    {
        proof {
            let here = chars@.take(end as int);
            assert(here.last() == chars@[end - 1]);
            assert(here.drop_last() =~= chars@.take(end - 1));
        }
        end = end - 1;
    }
    proof {
        if end > 0 {
            assert(chars@.take(end as int).last() == chars@[end - 1]);
        }
    }
    if end <= 1 {
        None
    } else {
        Some(text_of_range(&chars, end, chars.len()))
    }
}

/// What a path's name says of it.
#[derive(Clone, Copy, Debug, PartialEq, Eq, Structural)]
pub enum NameVerdict {
    Placefile,
    Something,
    /// The name says nothing: look inside.
    Unsaid,
}

/// What a path's name says of it.
pub open spec fn name_verdict(path: Seq<char>) -> NameVerdict {
    match path_extension(path) {
        None => NameVerdict::Unsaid,
        Some(found) => if ascii_lowered(found) == ascii_lowered("pf"@) || ascii_lowered(found)
            == ascii_lowered("placefile"@) {
            NameVerdict::Placefile
        } else if ascii_lowered(found) == ascii_lowered("txt"@) {
            NameVerdict::Unsaid
        } else {
            NameVerdict::Something
        },
    }
}

/// What a path's name says of it.
pub fn placefile_by_name(path: &str) -> (verdict: NameVerdict)
    ensures
        verdict == name_verdict(path@),
{
    match extension(path) {
        None => NameVerdict::Unsaid,
        Some(found) => {
            if same_ignoring_ascii_case(found.as_str(), "pf") || same_ignoring_ascii_case(
                found.as_str(),
                "placefile",
            ) {
                NameVerdict::Placefile
            } else if same_ignoring_ascii_case(found.as_str(), "txt") {
                NameVerdict::Unsaid
            } else {
                NameVerdict::Something
            }
        },
    }
}

/// The directives that a placefile is told by.
pub open spec fn directives() -> Seq<Seq<char>> {
    seq![
        "title"@,
        "refresh"@,
        "threshold"@,
        "color"@,
        "font"@,
        "iconfile"@,
        "icon"@,
        "text"@,
        "line"@,
        "object"@,
        "polygon"@,
    ]
}

/// Whether a word is one of the directives, in any case of letters.
pub open spec fn is_directive(name: Seq<char>) -> bool {
    exists|i: int|
        0 <= i < directives().len() && ascii_lowered(name) == ascii_lowered(
            #[trigger] directives()[i],
        )
}

/// A text without the byte order marks it starts with.
pub open spec fn without_marks(text: Seq<char>) -> Seq<char>
    decreases text.len(),
{
    if text.len() > 0 && text[0] == '\u{feff}' {
        without_marks(text.subrange(1, text.len() as int))
    } else {
        text
    }
}

/// Whether a line gives a directive: one of them, then a colon.
pub open spec fn gives_directive(line: Seq<char>) -> bool {
    let body = trimmed(without_marks(line));
    let colon = first_where(body, |c: char| c == ':');
    colon < body.len() && is_directive(trimmed(body.take(colon)))
}

/// How many lines of a text give a directive.
pub open spec fn directive_count(text: Seq<char>) -> nat
    decreases text.len(),
    via directive_count_shrinks
{
    let end = first_where(text, |c: char| c == '\n');
    if end < text.len() {
        (if gives_directive(text.take(end)) {
            1nat
        } else {
            0nat
        }) + directive_count(text.subrange(end + 1, text.len() as int))
    } else if gives_directive(text) {
        1
    } else {
        0
    }
}

#[via_fn]
proof fn directive_count_shrinks(text: Seq<char>) {
    lemma_first_where(text, |c: char| c == '\n');
}

/// Whether the start of a file reads as a placefile: text, with two lines that
/// give a directive.
pub open spec fn reads_as_placefile(bytes: Seq<u8>) -> bool {
    valid_utf8(bytes) && directive_count(decode_utf8(bytes)) >= 2
}

/// Whether a dropped file is a placefile. `header` is the start of the file,
/// where it could be read.
pub open spec fn is_placefile(path: Seq<char>, header: Option<Seq<u8>>) -> bool {
    match name_verdict(path) {
        NameVerdict::Placefile => true,
        NameVerdict::Something => false,
        NameVerdict::Unsaid => header matches Some(bytes) && reads_as_placefile(bytes),
    }
}

/// Whether a word is one of the directives.
fn directive(name: &str) -> (yes: bool)
    ensures
        yes == is_directive(name@),
{
    let known: Vec<&str> = vec![
        "title",
        "refresh",
        "threshold",
        "color",
        "font",
        "iconfile",
        "icon",
        "text",
        "line",
        "object",
        "polygon",
    ];
    let mut at: usize = 0;
    assert(known@.len() == directives().len());
    assert forall|i: int| 0 <= i < known@.len() implies (#[trigger] known@[i])@
        == directives()[i] by {}
    while at < known.len()
        invariant
            at <= known@.len(),
            known@.len() == directives().len(),
            forall|i: int| 0 <= i < known@.len() ==> (#[trigger] known@[i])@ == directives()[i],
            forall|i: int|
                0 <= i < at ==> ascii_lowered(name@) != ascii_lowered(#[trigger] directives()[i]),
        decreases known@.len() - at,
    {
        assert(known@[at as int]@ == directives()[at as int]);
        if same_ignoring_ascii_case(name, known[at]) {
            return true;
        }
        at = at + 1;
    }
    false
}

/// Whether `chars[from..to]` gives a directive.
fn line_gives_directive(chars: &Vec<char>, from: usize, to: usize) -> (yes: bool)
    requires
        from <= to <= chars@.len(),
    ensures
        yes == gives_directive(chars@.subrange(from as int, to as int)),
{
    let ghost line = chars@.subrange(from as int, to as int);
    let mut start: usize = from;
    while start < to && chars[start] == '\u{feff}'
        invariant
            from <= start <= to <= chars@.len(),
            without_marks(chars@.subrange(from as int, to as int)) == without_marks(
                chars@.subrange(start as int, to as int),
            ),
        decreases to - start,
    {
        proof {
            let rest = chars@.subrange(start as int, to as int);
            assert(rest[0] == chars@[start as int]);
            assert(rest.subrange(1, rest.len() as int) =~= chars@.subrange(start + 1, to as int));
        }
        start = start + 1;
    }
    proof {
        let rest = chars@.subrange(start as int, to as int);
        if start < to {
            assert(rest[0] == chars@[start as int]);
        }
        assert(without_marks(rest) == rest);
    }
    let plain = text_of_range(chars, start, to);
    let body = trim(plain.as_str());
    let letters = chars_of(body.as_str());
    let ghost is_colon = |c: char| c == ':';
    let mut colon: usize = 0;
    while colon < letters.len() && letters[colon] != ':'
        invariant
            colon <= letters@.len(),
            is_colon == (|c: char| c == ':'),
            forall|i: int| 0 <= i < colon ==> !is_colon(#[trigger] letters@[i]),
        decreases letters@.len() - colon,
    {
        colon = colon + 1;
    }
    proof {
        lemma_first_where_is(letters@, is_colon, colon as int);
    }
    if colon >= letters.len() {
        return false;
    }
    let name = text_of_range(&letters, 0, colon);
    assert(name@ =~= body@.take(colon as int));
    directive(trim(name.as_str()).as_str())
}

/// How many lines give a directive, up to two.
fn two_directives(chars: &Vec<char>) -> (yes: bool)
    ensures
        yes == (directive_count(chars@) >= 2),
{
    let mut from: usize = 0;
    let mut found: usize = 0;
    assert(chars@.subrange(0, chars@.len() as int) =~= chars@);
    loop
        invariant
            from <= chars@.len(),
            found <= 1,
            found + directive_count(chars@.subrange(from as int, chars@.len() as int))
                == directive_count(chars@),
        decreases chars@.len() - from,
    {
        let ghost rest = chars@.subrange(from as int, chars@.len() as int);
        let ghost is_end = |c: char| c == '\n';
        let mut end: usize = from;
        while end < chars.len() && chars[end] != '\n'
            invariant
                from <= end <= chars@.len(),
                rest == chars@.subrange(from as int, chars@.len() as int),
                is_end == (|c: char| c == '\n'),
                forall|i: int| 0 <= i < end - from ==> !is_end(#[trigger] rest[i]),
            decreases chars@.len() - end,
        {
            assert(rest[end - from] == chars@[end as int]);
            end = end + 1;
        }
        proof {
            if end < chars@.len() {
                assert(rest[end - from] == chars@[end as int]);
            }
            lemma_first_where_is(rest, is_end, end - from);
            assert(rest.take(end - from) =~= chars@.subrange(from as int, end as int));
            if end < chars@.len() {
                assert(rest.subrange(end - from + 1, rest.len() as int) =~= chars@.subrange(
                    end + 1,
                    chars@.len() as int,
                ));
            }
        }
        if line_gives_directive(chars, from, end) {
            found = found + 1;
        }
        if found >= 2 {
            return true;
        }
        if end >= chars.len() {
            assert(rest.take(end - from) =~= rest);
            return false;
        }
        from = end + 1;
    }
}

/// Whether the start of a file reads as a placefile.
pub fn reads_as_placefile_header(bytes: &Vec<u8>) -> (yes: bool)
    ensures
        yes == reads_as_placefile(bytes@),
{
    match utf8_text(bytes) {
        None => false,
        Some(text) => {
            let chars = chars_of(text.as_str());
            two_directives(&chars)
        },
    }
}

/// The bytes of a header that may be unread, as contracts see it.
pub open spec fn header_view(header: Option<Vec<u8>>) -> Option<Seq<u8>> {
    match header {
        Some(bytes) => Some(bytes@),
        None => None,
    }
}

/// Whether a dropped file is a placefile.
pub fn dropped_path_is_placefile(path: &str, header: &Option<Vec<u8>>) -> (yes: bool)
    ensures
        yes == is_placefile(path@, header_view(*header)),
{
    match placefile_by_name(path) {
        NameVerdict::Placefile => true,
        NameVerdict::Something => false,
        NameVerdict::Unsaid => match header {
            Some(bytes) => reads_as_placefile_header(bytes),
            None => false,
        },
    }
}

/// What a drop that brought placefiles says; nothing where none was new.
pub fn placefiles_added_line(added: usize) -> (line: Option<String>)
    ensures
        text_view(line) == (if added == 0 {
            None
        } else {
            Some(
                "Added "@ + crate::text::decimal(added as nat) + " placefile overlay(s)"@,
            )
        }),
{
    if added == 0 {
        return None;
    }
    let mut line = "Added ".to_owned();
    crate::text::append_decimal(&mut line, added as u64);
    line.append(" placefile overlay(s)");
    Some(line)
}

/// What choosing a file in the browser says: it was added, or it was there
/// already or is none.
pub fn placefile_chosen_line(path: &str, added: bool) -> (line: String)
    ensures
        line@ == (if added {
            "Added placefile "@ + path@
        } else {
            "Placefile already present or invalid: "@ + path@
        }),
{
    let mut line = if added {
        "Added placefile ".to_owned()
    } else {
        "Placefile already present or invalid: ".to_owned()
    };
    line.append(path);
    line
}

/// How a row of the browser reads: a folder is marked.
pub fn row_label(entry: &PlacefileBrowserEntry) -> (label: String)
    ensures
        label@ == (if entry.is_directory {
            entry.name@ + " /"@
        } else {
            entry.name@
        }),
{
    let mut label = entry.name.clone();
    if entry.is_directory {
        label.append(" /");
    }
    label
}

// ---------------------------------------------------------------------------
// Laws
// ---------------------------------------------------------------------------

/// In the browser no file stands before a folder, and among folders and among
/// files no name stands before one that comes earlier in small letters.
pub proof fn law_folders_come_first(listing: Seq<ListedEntry>, i: int, j: int)
    requires
        0 <= i < j < browsed(listing).len(),
    ensures
        ({
            let rows = browsed(listing);
            &&& rows[j].is_directory ==> rows[i].is_directory
            &&& rows[i].is_directory == rows[j].is_directory ==> !text_before(
                ascii_lowered(rows[j].name),
                ascii_lowered(rows[i].name),
            )
        }),
{
    law_the_browser_lists_in_order(listing);
    assert(!entry_before(browsed(listing)[j], browsed(listing)[i]));
}

/// A folder that opens is listed and leaves no error; one that does not leaves no
/// row of another folder and says why. The folder's own name stays.
pub proof fn law_what_reloading_shows(
    browser: BrowserView,
    listing: Result<Vec<ListedEntry>, String>,
)
    ensures
        ({
            let after = reloaded(browser, listing);
            &&& after.directory == browser.directory
            &&& after.directory_text == browser.directory_text
            &&& listing is Ok <==> after.error is None
            &&& listing matches Ok(listed) ==> after.entries == browsed(listed@)
            &&& listing matches Err(error) ==> after.entries.len() == 0 && after.error == Some(
                "Cannot open folder: "@ + error@,
            )
        }),
{
}

/// A row names the entry it is of, and is a folder's exactly where that is.
pub proof fn law_a_row_is_of_its_entry(listed: ListedEntry)
    ensures
        row_of(listed).path == listed.path@,
        row_of(listed).name == listed.name@,
        row_of(listed).is_directory <==> listed.kind is Directory,
{
}

proof fn lemma_last_dot(stem: Seq<char>, ext: Seq<char>)
    requires
        !ext.contains('.'),
    ensures
        last_dot(stem.push('.') + ext) == stem.len(),
    decreases ext.len(),
{
    let name = stem.push('.') + ext;
    if ext.len() == 0 {
        assert(name =~= stem.push('.'));
    } else {
        assert(name.last() == ext.last());
        assert(ext.contains(ext.last()));
        assert(name.drop_last() =~= stem.push('.') + ext.drop_last());
        assert(!ext.drop_last().contains('.')) by {
            if ext.drop_last().contains('.') {
                let k = choose|k: int| 0 <= k < ext.drop_last().len() && ext.drop_last()[k] == '.';
                assert(ext[k] == '.');
            }
        }
        lemma_last_dot(stem, ext.drop_last());
    }
}

/// A file's ending is what stands behind the last dot of its name, whatever folder
/// it is in; and what the ending says does not depend on the case of its letters.
pub proof fn law_an_ending_is_behind_the_last_dot(
    folder: Seq<char>,
    stem: Seq<char>,
    ext: Seq<char>,
)
    requires
        stem.len() > 0,
        ext.len() > 0,
        !stem.contains('/'),
        !ext.contains('/'),
        !ext.contains('.'),
    ensures
        ({
            let path = folder.push('/') + (stem.push('.') + ext);
            &&& path_extension(path) == Some(ext)
            &&& name_verdict(path) is Placefile <==> ascii_lowered(ext) == "pf"@ || ascii_lowered(
                ext,
            ) == "placefile"@
            &&& name_verdict(path) is Unsaid <==> ascii_lowered(ext) == "txt"@
        }),
{
    let name = stem.push('.') + ext;
    assert(!name.contains('/')) by {
        if name.contains('/') {
            let k = choose|k: int| 0 <= k < name.len() && name[k] == '/';
            if k < stem.len() {
                assert(stem[k] == '/');
            } else if k > stem.len() {
                assert(ext[k - stem.len() - 1] == '/');
            }
        }
    }
    crate::paths::law_a_name_in_a_folder_is_found(folder, name);
    lemma_last_dot(stem, ext);
    assert(name.subrange(stem.len() as int + 1, name.len() as int) =~= ext);
    reveal_strlit("pf");
    reveal_strlit("placefile");
    reveal_strlit("txt");
    assert(ascii_lowered("pf"@) =~= "pf"@);
    assert(ascii_lowered("placefile"@) =~= "placefile"@);
    assert(ascii_lowered("txt"@) =~= "txt"@);
    assert("pf"@.len() == 2 && "placefile"@.len() == 9 && "txt"@.len() == 3);
}

/// Which names are directives, whatever the case of their letters.
pub proof fn law_which_names_are_directives(name: Seq<char>)
    ensures
        is_directive(name) <==> {
            ||| ascii_lowered(name) == "title"@
            ||| ascii_lowered(name) == "refresh"@
            ||| ascii_lowered(name) == "threshold"@
            ||| ascii_lowered(name) == "color"@
            ||| ascii_lowered(name) == "font"@
            ||| ascii_lowered(name) == "iconfile"@
            ||| ascii_lowered(name) == "icon"@
            ||| ascii_lowered(name) == "text"@
            ||| ascii_lowered(name) == "line"@
            ||| ascii_lowered(name) == "object"@
            ||| ascii_lowered(name) == "polygon"@
        },
{
    reveal_strlit("title");
    assert(ascii_lowered("title"@) =~= "title"@);
    assert(directives()[0] == "title"@);
    reveal_strlit("refresh");
    assert(ascii_lowered("refresh"@) =~= "refresh"@);
    assert(directives()[1] == "refresh"@);
    reveal_strlit("threshold");
    assert(ascii_lowered("threshold"@) =~= "threshold"@);
    assert(directives()[2] == "threshold"@);
    reveal_strlit("color");
    assert(ascii_lowered("color"@) =~= "color"@);
    assert(directives()[3] == "color"@);
    reveal_strlit("font");
    assert(ascii_lowered("font"@) =~= "font"@);
    assert(directives()[4] == "font"@);
    reveal_strlit("iconfile");
    assert(ascii_lowered("iconfile"@) =~= "iconfile"@);
    assert(directives()[5] == "iconfile"@);
    reveal_strlit("icon");
    assert(ascii_lowered("icon"@) =~= "icon"@);
    assert(directives()[6] == "icon"@);
    reveal_strlit("text");
    assert(ascii_lowered("text"@) =~= "text"@);
    assert(directives()[7] == "text"@);
    reveal_strlit("line");
    assert(ascii_lowered("line"@) =~= "line"@);
    assert(directives()[8] == "line"@);
    reveal_strlit("object");
    assert(ascii_lowered("object"@) =~= "object"@);
    assert(directives()[9] == "object"@);
    reveal_strlit("polygon");
    assert(ascii_lowered("polygon"@) =~= "polygon"@);
    assert(directives()[10] == "polygon"@);
}

/// A line gives a directive where a directive's name stands before its first
/// colon, and none where it has no colon.
pub proof fn law_what_a_line_gives(name: Seq<char>, rest: Seq<char>, line: Seq<char>)
    requires
        name.len() > 0,
        !name.contains(':'),
        name[0] != '\u{feff}',
        !is_white_space(name[0]),
        !is_white_space(name.last()),
        !line.contains(':'),
    ensures
        gives_directive(name.push(':') + rest) <==> is_directive(name),
        !gives_directive(line),
{
    let whole = name.push(':') + rest;
    let range = crate::text::law_trimming_takes_white_space_alone(whole);
    assert(whole[0] == name[0]);
    assert(whole[name.len() as int] == ':');
    assert(range.0 == 0) by {
        if range.0 > 0 {
            assert(is_white_space(whole[0]));
        }
    }
    assert(range.1 > name.len()) by {
        if range.1 <= name.len() {
            assert(is_white_space(whole[name.len() as int]));
        }
    }
    let body = trimmed(whole);
    let colon = |c: char| c == ':';
    assert forall|i: int| 0 <= i < name.len() implies !colon(#[trigger] body[i]) by {
        assert(body[i] == name[i]);
        assert(name.contains(name[i]));
    }
    lemma_first_where_is(body, colon, name.len() as int);
    assert(body.take(name.len() as int) =~= name);
    let own = crate::text::law_trimming_takes_white_space_alone(name);
    assert(own.0 == 0) by {
        if own.0 > 0 {
            assert(is_white_space(name[0]));
        }
    }
    assert(own.1 == name.len()) by {
        if own.1 < name.len() {
            assert(is_white_space(name[name.len() - 1]));
        }
    }
    assert(trimmed(name) =~= name);
    lemma_marks_are_taken_in_front(line);
    let bare = without_marks(line);
    let kept = crate::text::law_trimming_takes_white_space_alone(bare);
    let text = trimmed(bare);
    assert forall|i: int| 0 <= i < text.len() implies !colon(#[trigger] text[i]) by {
        assert(text[i] == bare[kept.0 + i]);
        assert(line.contains(bare[kept.0 + i]));
    }
    lemma_first_where_is(text, colon, text.len() as int);
}

proof fn lemma_marks_are_taken_in_front(text: Seq<char>)
    ensures
        forall|i: int|
            0 <= i < without_marks(text).len() ==> text.contains(#[trigger] without_marks(text)[i]),
    decreases text.len(),
{
    if text.len() > 0 && text[0] == '\u{feff}' {
        let rest = text.subrange(1, text.len() as int);
        lemma_marks_are_taken_in_front(rest);
        assert forall|i: int| 0 <= i < without_marks(text).len() implies text.contains(
            #[trigger] without_marks(text)[i],
        ) by {
            let c = without_marks(rest)[i];
            let k = choose|k: int| 0 <= k < rest.len() && rest[k] == c;
            assert(text[k + 1] == c);
        }
    }
}

/// Directives are counted line by line: each line that gives one counts once.
pub proof fn law_directives_are_counted_by_line(line: Seq<char>, rest: Seq<char>)
    requires
        !line.contains('\n'),
    ensures
        directive_count(line) == (if gives_directive(line) {
            1nat
        } else {
            0nat
        }),
        directive_count(line.push('\n') + rest) == directive_count(line) + directive_count(rest),
{
    let ends = |c: char| c == '\n';
    assert forall|i: int| 0 <= i < line.len() implies !ends(#[trigger] line[i]) by {
        assert(line.contains(line[i]));
    }
    lemma_first_where_is(line, ends, line.len() as int);
    let whole = line.push('\n') + rest;
    assert forall|i: int| 0 <= i < line.len() implies !ends(#[trigger] whole[i]) by {
        assert(whole[i] == line[i]);
    }
    assert(whole[line.len() as int] == '\n');
    lemma_first_where_is(whole, ends, line.len() as int);
    assert(whole.take(line.len() as int) =~= line);
    assert(whole.subrange(line.len() as int + 1, whole.len() as int) =~= rest);
}

/// What makes a file a placefile: its ending says so; or its ending says nothing
/// and it begins as text that gives two directives at least.
pub proof fn law_what_makes_a_placefile(path: Seq<char>, header: Option<Seq<u8>>)
    ensures
        name_verdict(path) is Placefile ==> is_placefile(path, header),
        name_verdict(path) is Something ==> !is_placefile(path, header),
        name_verdict(path) is Unsaid && header is None ==> !is_placefile(path, header),
        name_verdict(path) is Unsaid ==> (header matches Some(bytes) ==> (is_placefile(path, header)
            <==> valid_utf8(bytes) && directive_count(decode_utf8(bytes)) >= 2)),
        path_extension(path) is None ==> name_verdict(path) is Unsaid,
{
}

/// A name that only begins with a dot, or has none, has no ending and says
/// nothing; a path without a name says nothing either.
pub proof fn law_a_leading_dot_is_no_ending(folder: Seq<char>, rest: Seq<char>)
    requires
        rest.len() > 1,
        !rest.contains('/'),
        !rest.contains('.'),
    ensures
        path_extension(folder.push('/') + rest) is None,
        path_extension(folder.push('/') + (seq!['.'] + rest)) is None,
        name_verdict(folder.push('/') + rest) is Unsaid,
        name_verdict(folder.push('/') + (seq!['.'] + rest)) is Unsaid,
        path_extension(Seq::empty()) is None,
{
    let hidden = seq!['.'] + rest;
    assert(rest[0] != '.') by {
        assert(rest.contains(rest[0]));
    }
    assert(!hidden.contains('/')) by {
        if hidden.contains('/') {
            let k = choose|k: int| 0 <= k < hidden.len() && hidden[k] == '/';
            assert(rest[k - 1] == '/');
        }
    }
    crate::paths::law_a_name_in_a_folder_is_found(folder, rest);
    crate::paths::law_a_name_in_a_folder_is_found(folder, hidden);
    lemma_no_dot(rest);
    lemma_last_dot(Seq::empty(), rest);
    assert(Seq::<char>::empty().push('.') + rest =~= hidden);
}

proof fn lemma_no_dot(name: Seq<char>)
    requires
        !name.contains('.'),
    ensures
        last_dot(name) == -1,
    decreases name.len(),
{
    if name.len() > 0 {
        assert(name.contains(name.last()));
        assert(!name.drop_last().contains('.')) by {
            if name.drop_last().contains('.') {
                let k = choose|k: int| 0 <= k < name.drop_last().len() && name.drop_last()[k] == '.';
                assert(name[k] == '.');
            }
        }
        lemma_no_dot(name.drop_last());
    }
}

} // verus!
