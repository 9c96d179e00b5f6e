//! Text the workstation shows: building it, numbering it and reading it back.
//!
//! A string is modelled by its view, the sequence of its characters.

use vstd::prelude::*;

verus! {

/// `String::push` appends one character to the end of the string.
pub assume_specification[ String::push ](text: &mut String, c: char)
    ensures
        final(text)@ == old(text)@.push(c),
;

/// The characters of a piece of text.
pub fn chars_of(text: &str) -> (chars: Vec<char>)
    ensures
        chars@ == text@,
{
    let mut chars: Vec<char> = Vec::new();
    for c in it: text.chars()
        invariant
            it.seq() == text@,
            chars@ == text@.subrange(0, it.index() as int),
    {
        chars.push(c);
        assert(chars@ =~= text@.subrange(0, it.index() + 1));
    }
    assert(text@.subrange(0, text@.len() as int) =~= text@);
    chars
}

/// Whether two pieces of text are the same.
pub fn same_text(left: &str, right: &str) -> (same: bool)
    ensures
        same == (left@ == right@),
{
    let left_chars = chars_of(left);
    let right_chars = chars_of(right);
    if left_chars.len() != right_chars.len() {
        return false;
    }
    let mut at: usize = 0;
    while at < left_chars.len()
        invariant
            at <= left_chars@.len(),
            left_chars@ == left@,
            right_chars@ == right@,
            left@.len() == right@.len(),
            forall|i: int| 0 <= i < at ==> left@[i] == right@[i],
        decreases left_chars@.len() - at,
    {
        if left_chars[at] != right_chars[at] {
            return false;
        }
        at = at + 1;
    }
    assert(left@ =~= right@);
    true
}

/// The text made of `chars[from..to]`.
pub fn text_of_range(chars: &Vec<char>, from: usize, to: usize) -> (text: String)
    requires
        from <= to <= chars@.len(),
    ensures
        text@ == chars@.subrange(from as int, to as int),
{
    let mut text = String::new();
    let mut at: usize = from;
    while at < to
        invariant
            from <= at <= to <= chars@.len(),
            text@ == chars@.subrange(from as int, at as int),
        decreases to - at,
    {
        text.push(chars[at]);
        at = at + 1;
        assert(text@ =~= chars@.subrange(from as int, at as int));
    }
    text
}

/// The text made of `chars`.
pub fn text_of_chars(chars: &Vec<char>) -> (text: String)
    ensures
        text@ == chars@,
{
    let text = text_of_range(chars, 0, chars.len());
    assert(chars@.subrange(0, chars@.len() as int) =~= chars@);
    text
}

// ---------------------------------------------------------------------------
// Numbers
// ---------------------------------------------------------------------------

/// The decimal digit `d`, for `d` below ten.
pub open spec fn digit(d: nat) -> char {
    (48 + d) as char
}

/// `n` in decimal, with no leading zeros.
pub open spec fn decimal(n: nat) -> Seq<char>
    decreases n,
{
    if n < 10 {
        seq![digit(n)]
    } else {
        decimal(n / 10).push(digit(n % 10))
    }
}

/// Appends `n` in decimal.
pub fn append_decimal(text: &mut String, n: u64)
    ensures
        final(text)@ == old(text)@ + decimal(n as nat),
    decreases n,
{
    if n >= 10 {
        append_decimal(text, n / 10);
    }
    let d: u8 = (n % 10) as u8;
    text.push((48u8 + d) as char);
    assert(text@ =~= old(text)@ + decimal(n as nat));
}

/// `n` in decimal.
pub fn decimal_text(n: u64) -> (text: String)
    ensures
        text@ == decimal(n as nat),
{
    let mut text = String::new();
    append_decimal(&mut text, n);
    assert(text@ =~= decimal(n as nat));
    text
}

/// `n` in decimal, padded with zeros to three digits.
pub open spec fn decimal_padded3(n: nat) -> Seq<char> {
    if n < 10 {
        seq!['0', '0'] + decimal(n)
    } else if n < 100 {
        seq!['0'] + decimal(n)
    } else {
        decimal(n)
    }
}

/// Appends `n` in decimal, padded with zeros to three digits.
pub fn append_decimal_padded3(text: &mut String, n: u64)
    ensures
        final(text)@ == old(text)@ + decimal_padded3(n as nat),
{
    if n < 10 {
        text.push('0');
        text.push('0');
    } else if n < 100 {
        text.push('0');
    }
    append_decimal(text, n);
    assert(text@ =~= old(text)@ + decimal_padded3(n as nat));
}

// ---------------------------------------------------------------------------
// ASCII case
// ---------------------------------------------------------------------------

/// `c` with an ASCII capital made small; every other character as it is.
pub open spec fn ascii_lower(c: char) -> char {
    if 'A' <= c <= 'Z' {
        (c as u32 + 32) as char
    } else {
        c
    }
}

/// `text` with every ASCII capital made small.
pub open spec fn ascii_lowered(text: Seq<char>) -> Seq<char> {
    Seq::new(text.len(), |i: int| ascii_lower(text[i]))
}

/// Lowers one character.
pub fn to_ascii_lower(c: char) -> (lowered: char)
    ensures
        lowered == ascii_lower(c),
{
    if 'A' <= c && c <= 'Z' {
        (c as u8 + 32) as char
    } else {
        c
    }
}

/// The text with every ASCII capital made small.
pub fn ascii_lowercase(text: &str) -> (lowered: String)
    ensures
        lowered@ == ascii_lowered(text@),
{
    let chars = chars_of(text);
    let mut lowered = String::new();
    let mut at: usize = 0;
    assert(lowered@ =~= ascii_lowered(text@.take(0)));
    while at < chars.len()
        invariant
            at <= chars@.len(),
            chars@ == text@,
            lowered@ == ascii_lowered(text@.take(at as int)),
        decreases chars@.len() - at,
    {
        lowered.push(to_ascii_lower(chars[at]));
        at = at + 1;
        assert(lowered@ =~= ascii_lowered(text@.take(at as int)));
    }
    assert(text@.take(text@.len() as int) =~= text@);
    lowered
}

/// Whether two runs of characters are the same but for ASCII case.
pub fn same_ignoring_ascii_case(left: &str, right: &str) -> (same: bool)
    ensures
        same == (ascii_lowered(left@) == ascii_lowered(right@)),
{
    let left_chars = chars_of(left);
    let right_chars = chars_of(right);
    if left_chars.len() != right_chars.len() {
        assert(ascii_lowered(left@).len() != ascii_lowered(right@).len());
        return false;
    }
    let mut at: usize = 0;
    while at < left_chars.len()
        invariant
            left_chars@ == left@,
            right_chars@ == right@,
            left@.len() == right@.len(),
            at <= left@.len(),
            forall|i: int|
                0 <= i < at ==> ascii_lower(#[trigger] left@[i]) == ascii_lower(right@[i]),
        decreases left@.len() - at,
    {
        if to_ascii_lower(left_chars[at]) != to_ascii_lower(right_chars[at]) {
            assert(ascii_lowered(left@)[at as int] != ascii_lowered(right@)[at as int]);
            return false;
        }
        at = at + 1;
    }
    assert(ascii_lowered(left@) =~= ascii_lowered(right@));
    true
}

// ---------------------------------------------------------------------------
// Unicode case
// ---------------------------------------------------------------------------

/// What `str::to_lowercase` makes of a piece of text.
pub uninterp spec fn unicode_lowercase(text: Seq<char>) -> Seq<char>;

/// What `str::to_uppercase` makes of a piece of text.
pub uninterp spec fn unicode_uppercase(text: Seq<char>) -> Seq<char>;

/// The text in lower case, by Unicode's rules.
///
/// Calls `str::to_lowercase`; the result is that function's value on the
/// text, and nothing more is claimed of it.
#[verifier::external_body]
pub(crate) fn lowercase(text: &str) -> (lowered: String)
    ensures
        lowered@ == unicode_lowercase(text@),
{
    text.to_lowercase()
}

/// The text in upper case, by Unicode's rules.
///
/// Calls `str::to_uppercase`; the result is that function's value on the
/// text, and nothing more is claimed of it.
#[verifier::external_body]
pub(crate) fn uppercase(text: &str) -> (raised: String)
    ensures
        raised@ == unicode_uppercase(text@),
{
    text.to_uppercase()
}

// ---------------------------------------------------------------------------
// White space
// ---------------------------------------------------------------------------

/// The characters with Unicode's `White_Space` property.
pub open spec fn is_white_space(c: char) -> bool {
    let n = c as u32;
    ||| 0x9 <= n <= 0xd
    ||| n == 0x20
    ||| n == 0x85
    ||| n == 0xa0
    ||| n == 0x1680
    ||| 0x2000 <= n <= 0x200a
    ||| n == 0x2028
    ||| n == 0x2029
    ||| n == 0x202f
    ||| n == 0x205f
    ||| n == 0x3000
}

/// Tests one character for white space.
pub fn white_space(c: char) -> (white: bool)
    ensures
        white == is_white_space(c),
{
    let n: u32 = c as u32;
    (0x9 <= n && n <= 0xd) || n == 0x20 || n == 0x85 || n == 0xa0 || n == 0x1680 || (0x2000 <= n
        && n <= 0x200a) || n == 0x2028 || n == 0x2029 || n == 0x202f || n == 0x205f || n == 0x3000
}

/// `text` without the white space it starts with.
pub open spec fn trimmed_start(text: Seq<char>) -> Seq<char>
    decreases text.len(),
{
    if text.len() > 0 && is_white_space(text[0]) {
        trimmed_start(text.subrange(1, text.len() as int))
    } else {
        text
    }
}

/// `text` without the white space it ends with.
pub open spec fn trimmed_end(text: Seq<char>) -> Seq<char>
    decreases text.len(),
{
    if text.len() > 0 && is_white_space(text.last()) {
        trimmed_end(text.drop_last())
    } else {
        text
    }
}

/// `text` without white space at either end.
pub open spec fn trimmed(text: Seq<char>) -> Seq<char> {
    trimmed_end(trimmed_start(text))
}

/// Trims white space from both ends of `chars[from..to]`, giving the range that
/// is left.
pub fn trim_range(chars: &Vec<char>, from: usize, to: usize) -> (range: (usize, usize))
    requires
        from <= to <= chars@.len(),
    ensures
        from <= range.0 <= range.1 <= to,
        chars@.subrange(range.0 as int, range.1 as int) == trimmed(
            chars@.subrange(from as int, to as int),
        ),
{
    let mut start: usize = from;
    while start < to && white_space(chars[start])
        invariant
            from <= start <= to <= chars@.len(),
            trimmed_start(chars@.subrange(from as int, to as int)) == trimmed_start(
                chars@.subrange(start as int, to as int),
            ),
        decreases to - start,
    {
        proof {
            let rest = chars@.subrange(start as int, to as int);
            assert(rest[0] == chars@[start as int]);
            assert(rest.subrange(1, rest.len() as int) =~= chars@.subrange(
                start + 1,
                to as int,
            ));
        }
        start = start + 1;
    }
    proof {
        let rest = chars@.subrange(start as int, to as int);
        if start < to {
            assert(rest[0] == chars@[start as int]);
        }
        assert(trimmed_start(rest) == rest);
    }
    let mut end: usize = to;
    while start < end && white_space(chars[end - 1])
        invariant
            from <= start <= end <= to <= chars@.len(),
            trimmed_end(chars@.subrange(start as int, to as int)) == trimmed_end(
                chars@.subrange(start as int, end as int),
            ),
        decreases end - start,
    {
        proof {
            let rest = chars@.subrange(start as int, end as int);
            assert(rest.last() == chars@[end - 1]);
            assert(rest.drop_last() =~= chars@.subrange(start as int, end - 1));
        }
        end = end - 1;
    }
    proof {
        let rest = chars@.subrange(start as int, end as int);
        if start < end {
            assert(rest.last() == chars@[end - 1]);
        }
        assert(trimmed_end(rest) == rest);
    }
    (start, end)
}

/// The text without white space at either end.
pub fn trim(text: &str) -> (short: String)
    ensures
        short@ == trimmed(text@),
{
    let chars = chars_of(text);
    let range = trim_range(&chars, 0, chars.len());
    assert(chars@.subrange(0, chars@.len() as int) =~= text@);
    text_of_range(&chars, range.0, range.1)
}

// ---------------------------------------------------------------------------
// Lists of text
// ---------------------------------------------------------------------------

/// The views of a list of strings.
pub open spec fn texts(list: Seq<String>) -> Seq<Seq<char>> {
    list.map_values(|text: String| text@)
}

/// The items in order, with `separator` between each two of them.
pub open spec fn joined(items: Seq<Seq<char>>, separator: Seq<char>) -> Seq<char>
    decreases items.len(),
{
    if items.len() == 0 {
        Seq::empty()
    } else if items.len() == 1 {
        items[0]
    } else {
        joined(items.drop_last(), separator) + separator + items.last()
    }
}

/// Joins strings with `separator` between each two of them.
pub fn join(items: &Vec<String>, separator: &str) -> (text: String)
    ensures
        text@ == joined(texts(items@), separator@),
{
    let mut text = String::new();
    let mut at: usize = 0;
    while at < items.len()
        invariant
            at <= items@.len(),
            text@ == joined(texts(items@).take(at as int), separator@),
        decreases items@.len() - at,
    {
        if at > 0 {
            text.append(separator);
        }
        text.append(items[at].as_str());
        proof {
            let next = texts(items@).take(at + 1);
            assert(next.drop_last() =~= texts(items@).take(at as int));
            assert(next.last() == items@[at as int]@);
            assert(text@ =~= joined(next, separator@));
        }
        at = at + 1;
    }
    assert(texts(items@).take(items@.len() as int) =~= texts(items@));
    text
}

/// Where the first of several items stands, the joined text starts with it.
pub proof fn lemma_joined_starts_with_first(items: Seq<Seq<char>>, separator: Seq<char>)
    requires
        items.len() > 0,
    ensures
        items[0].is_prefix_of(joined(items, separator)),
    decreases items.len(),
{
    if items.len() > 1 {
        let rest = items.drop_last();
        lemma_joined_starts_with_first(rest, separator);
        let head = joined(rest, separator);
        let all = head + separator + items.last();
        assert(rest[0] == items[0]);
        assert(all.subrange(0, items[0].len() as int) =~= head.subrange(0, items[0].len() as int));
        assert(items[0] =~= all.subrange(0, items[0].len() as int));
    } else {
        assert(items[0] =~= joined(items, separator).subrange(0, items[0].len() as int));
    }
}

/// What a text starts with, everything that starts with the text starts with.
pub proof fn lemma_prefix_transitive(head: Seq<char>, text: Seq<char>, whole: Seq<char>)
    requires
        head.is_prefix_of(text),
        text.is_prefix_of(whole),
    ensures
        head.is_prefix_of(whole),
{
    assert(head =~= whole.subrange(0, head.len() as int));
}

/// Tests whether a text starts with another.
pub fn starts_with(text: &str, head: &str) -> (yes: bool)
    ensures
        yes == head@.is_prefix_of(text@),
{
    let all = chars_of(text);
    let start = chars_of(head);
    if start.len() > all.len() {
        return false;
    }
    let mut at: usize = 0;
    while at < start.len()
        invariant
            all@ == text@,
            start@ == head@,
            at <= start@.len() <= all@.len(),
            forall|i: int| 0 <= i < at ==> #[trigger] start@[i] == all@[i],
        decreases start@.len() - at,
    {
        if start[at] != all[at] {
            assert(head@[at as int] != text@.subrange(0, head@.len() as int)[at as int]);
            return false;
        }
        at = at + 1;
    }
    assert(head@ =~= text@.subrange(0, head@.len() as int));
    true
}

// ---------------------------------------------------------------------------
// Order
// ---------------------------------------------------------------------------

/// Whether `left` comes before `right`, character by character; a text comes
/// after everything it begins with.
pub open spec fn text_before(left: Seq<char>, right: Seq<char>) -> bool
    decreases left.len(),
{
    if right.len() == 0 {
        false
    } else if left.len() == 0 {
        true
    } else if left[0] != right[0] {
        left[0] < right[0]
    } else {
        text_before(left.subrange(1, left.len() as int), right.subrange(1, right.len() as int))
    }
}

/// Nothing comes before itself.
pub proof fn lemma_text_before_irreflexive(text: Seq<char>)
    ensures
        !text_before(text, text),
    decreases text.len(),
{
    if text.len() > 0 {
        lemma_text_before_irreflexive(text.subrange(1, text.len() as int));
    }
}

/// Of two different texts, one comes before the other.
pub proof fn lemma_text_before_total(left: Seq<char>, right: Seq<char>)
    ensures
        text_before(left, right) || text_before(right, left) || left == right,
    decreases left.len(),
{
    if left.len() == 0 || right.len() == 0 {
        if left.len() == right.len() {
            assert(left =~= right);
        }
    } else if left[0] == right[0] {
        let l = left.subrange(1, left.len() as int);
        let r = right.subrange(1, right.len() as int);
        lemma_text_before_total(l, r);
        if l == r {
            assert(left =~= seq![left[0]] + l);
            assert(right =~= seq![right[0]] + r);
        }
    }
}

/// The order carries from one pair to the next.
pub proof fn lemma_text_before_transitive(a: Seq<char>, b: Seq<char>, c: Seq<char>)
    requires
        text_before(a, b),
        text_before(b, c),
    ensures
        text_before(a, c),
    decreases a.len(),
{
    if a.len() > 0 && a[0] == b[0] && b[0] == c[0] {
        lemma_text_before_transitive(
            a.subrange(1, a.len() as int),
            b.subrange(1, b.len() as int),
            c.subrange(1, c.len() as int),
        );
    }
}

/// Tests whether one text comes before another.
pub fn before(left: &str, right: &str) -> (yes: bool)
    ensures
        yes == text_before(left@, right@),
{
    let l = chars_of(left);
    let r = chars_of(right);
    proof {
        assert(left@.subrange(0, left@.len() as int) =~= left@);
        assert(right@.subrange(0, right@.len() as int) =~= right@);
    }
    let mut at: usize = 0;
    while at < l.len() && at < r.len() && l[at] == r[at]
        invariant
            l@ == left@,
            r@ == right@,
            at <= l@.len(),
            at <= r@.len(),
            text_before(left@, right@) == text_before(
                left@.subrange(at as int, left@.len() as int),
                right@.subrange(at as int, right@.len() as int),
            ),
        decreases l@.len() - at,
    {
        proof {
            let a = left@.subrange(at as int, left@.len() as int);
            let b = right@.subrange(at as int, right@.len() as int);
            assert(a.subrange(1, a.len() as int) =~= left@.subrange(at + 1, left@.len() as int));
            assert(b.subrange(1, b.len() as int) =~= right@.subrange(at + 1, right@.len() as int));
        }
        at = at + 1;
    }
    if at >= r.len() {
        false
    } else if at >= l.len() {
        true
    } else {
        l[at] < r[at]
    }
}

// ---------------------------------------------------------------------------
// Laws
// ---------------------------------------------------------------------------

/// The number a run of digits reads as.
pub open spec fn read_number(text: Seq<char>) -> int {
    text.fold_left(0int, |value: int, c: char| value * 10 + (c as u32 - 48))
}

/// A number that is written in decimal reads back as itself, is written in digits
/// alone, and has no leading zero unless it is zero. Padding adds zeros in front
/// up to three characters and changes no number.
pub proof fn law_a_number_reads_back(n: nat)
    ensures
        read_number(decimal(n)) == n,
        decimal(n).len() >= 1,
        forall|i: int| 0 <= i < decimal(n).len() ==> '0' <= #[trigger] decimal(n)[i] <= '9',
        n > 0 ==> decimal(n)[0] != '0',
        n == 0 ==> decimal(n) == seq!['0'],
        n < 10 ==> decimal(n).len() == 1,
        10 <= n < 100 ==> decimal(n).len() == 2,
        100 <= n < 1_000 ==> decimal(n).len() == 3,
        read_number(decimal_padded3(n)) == n,
        decimal_padded3(n).len() >= 3,
        n < 1_000 ==> decimal_padded3(n).len() == 3,
        n >= 100 ==> decimal_padded3(n) == decimal(n),
    decreases n,
{
    let step = |value: int, c: char| value * 10 + (c as u32 - 48);
    reveal_with_fuel(Seq::fold_left, 4);
    if n >= 10 {
        law_a_number_reads_back(n / 10);
        assert(decimal(n).drop_last() =~= decimal(n / 10));
    } else {
        assert(decimal(n).drop_last() =~= Seq::empty());
    }
    let zeros = decimal_padded3(n);
    if n < 10 {
        assert(zeros =~= seq!['0', '0', digit(n)]);
        assert(zeros.drop_last() =~= seq!['0', '0']);
        assert(seq!['0', '0'].drop_last() =~= seq!['0']);
        assert(seq!['0'].drop_last() =~= Seq::<char>::empty());
    } else if n < 100 {
        assert(decimal(n / 10) =~= seq![digit(n / 10)]);
        assert(zeros =~= seq!['0', digit(n / 10), digit(n % 10)]);
        assert(zeros.drop_last() =~= seq!['0', digit(n / 10)]);
        assert(seq!['0', digit(n / 10)].drop_last() =~= seq!['0']);
        assert(seq!['0'].drop_last() =~= Seq::<char>::empty());
    }
}

/// Lowering a text keeps its length, leaves no ASCII capital, moves each capital
/// to the small letter 32 places on, touches nothing else, and is done once.
pub proof fn law_lowering_touches_capitals_alone(text: Seq<char>, at: int)
    requires
        0 <= at < text.len(),
    ensures
        ascii_lowered(text).len() == text.len(),
        !('A' <= ascii_lowered(text)[at] <= 'Z'),
        'A' <= text[at] <= 'Z' ==> ascii_lowered(text)[at] as u32 == text[at] as u32 + 32,
        !('A' <= text[at] <= 'Z') ==> ascii_lowered(text)[at] == text[at],
        ascii_lowered(ascii_lowered(text)) == ascii_lowered(text),
{
    assert(ascii_lowered(ascii_lowered(text)) =~= ascii_lowered(text));
}

/// What trimming leaves: one run of the text, with nothing but white space on
/// either side of it and none at its own ends.
pub proof fn law_trimming_takes_white_space_alone(text: Seq<char>) -> (range: (int, int))
    ensures
        0 <= range.0 <= range.1 <= text.len(),
        trimmed(text) == text.subrange(range.0, range.1),
        forall|i: int| 0 <= i < range.0 ==> is_white_space(#[trigger] text[i]),
        forall|i: int| range.1 <= i < text.len() ==> is_white_space(#[trigger] text[i]),
        range.0 < range.1 ==> !is_white_space(text[range.0]) && !is_white_space(text[range.1 - 1]),
{
    let from = lemma_trimmed_start(text);
    let rest = text.subrange(from, text.len() as int);
    let to = lemma_trimmed_end(rest);
    assert(rest.subrange(0, to) =~= text.subrange(from, from + to));
    assert forall|i: int| from + to <= i < text.len() implies is_white_space(
        #[trigger] text[i],
    ) by {
        assert(rest[i - from] == text[i]);
    }
    if to > 0 {
        assert(rest[to - 1] == text[from + to - 1]);
        assert(rest[0] == text[from]);
    }
    (from, from + to)
}

proof fn lemma_trimmed_start(text: Seq<char>) -> (from: int)
    ensures
        0 <= from <= text.len(),
        trimmed_start(text) == text.subrange(from, text.len() as int),
        forall|i: int| 0 <= i < from ==> is_white_space(#[trigger] text[i]),
        from < text.len() ==> !is_white_space(text[from]),
    decreases text.len(),
{
    if text.len() > 0 && is_white_space(text[0]) {
        let rest = text.subrange(1, text.len() as int);
        let from = lemma_trimmed_start(rest);
        assert(rest.subrange(from, rest.len() as int) =~= text.subrange(
            from + 1,
            text.len() as int,
        ));
        assert forall|i: int| 0 <= i < from + 1 implies is_white_space(#[trigger] text[i]) by {
            if i > 0 {
                assert(rest[i - 1] == text[i]);
            }
        }
        if from < rest.len() {
            assert(rest[from] == text[from + 1]);
        }
        from + 1
    } else {
        assert(text.subrange(0, text.len() as int) =~= text);
        0
    }
}

proof fn lemma_trimmed_end(text: Seq<char>) -> (to: int)
    ensures
        0 <= to <= text.len(),
        trimmed_end(text) == text.subrange(0, to),
        forall|i: int| to <= i < text.len() ==> is_white_space(#[trigger] text[i]),
        to > 0 ==> !is_white_space(text[to - 1]),
    decreases text.len(),
{
    if text.len() > 0 && is_white_space(text.last()) {
        let rest = text.drop_last();
        let to = lemma_trimmed_end(rest);
        assert(rest.subrange(0, to) =~= text.subrange(0, to));
        assert forall|i: int| to <= i < text.len() implies is_white_space(#[trigger] text[i]) by {
            if i < rest.len() {
                assert(rest[i] == text[i]);
            }
        }
        to
    } else {
        assert(text.subrange(0, text.len() as int) =~= text);
        text.len() as int
    }
}

/// Of the white space only the tab to the carriage return and the space are
/// ASCII.
pub proof fn law_ascii_white_space(c: char)
    requires
        (c as u32) < 128,
    ensures
        is_white_space(c) <==> 9 <= c as u32 <= 13 || c as u32 == 32,
{
}

/// Where each item of a joined text stands: behind the items before it and the
/// separator, if there are any before it.
pub proof fn law_a_joined_text_holds_every_item(
    items: Seq<Seq<char>>,
    separator: Seq<char>,
    at: int,
)
    requires
        0 <= at < items.len(),
    ensures
        ({
            let whole = joined(items, separator);
            let before = joined(items.take(at), separator).len() as int;
            let from = if at == 0 {
                0
            } else {
                before + separator.len()
            };
            &&& from + items[at].len() <= whole.len()
            &&& whole.subrange(from, from + items[at].len()) == items[at]
            &&& at > 0 ==> whole.subrange(before, from) == separator
            &&& at == items.len() - 1 ==> whole.len() == from + items[at].len()
        }),
    decreases items.len(),
{
    let whole = joined(items, separator);
    let rest = items.drop_last();
    if at == items.len() - 1 {
        assert(items.take(at) =~= rest);
        if at > 0 {
            let before = joined(rest, separator).len() as int;
            let from = before + separator.len();
            assert(whole.subrange(from, from + items[at].len()) =~= items[at]);
            assert(whole.subrange(before, from) =~= separator);
        } else {
            assert(whole.subrange(0, items[0].len() as int) =~= items[0]);
        }
    } else {
        law_a_joined_text_holds_every_item(rest, separator, at);
        assert(rest.take(at) =~= items.take(at));
        assert(rest[at] == items[at]);
        let head = joined(rest, separator);
        let before = joined(items.take(at), separator).len() as int;
        let from = if at == 0 {
            0
        } else {
            before + separator.len()
        };
        assert(whole.subrange(from, from + items[at].len()) =~= head.subrange(
            from,
            from + items[at].len(),
        ));
        if at > 0 {
            assert(whole.subrange(before, from) =~= head.subrange(before, from));
        }
    }
}

/// What decides between two texts: the first place where they differ, and there
/// the smaller character; where one of them ends first, it is the earlier.
pub proof fn law_the_first_difference_decides(left: Seq<char>, right: Seq<char>) -> (place: int)
    ensures
        0 <= place <= left.len(),
        place <= right.len(),
        forall|i: int| 0 <= i < place ==> #[trigger] left[i] == right[i],
        place < left.len() && place < right.len() ==> left[place] != right[place],
        text_before(left, right) <==> place < right.len() && (place == left.len() || left[place]
            < right[place]),
    decreases left.len(),
{
    if left.len() > 0 && right.len() > 0 && left[0] == right[0] {
        let l = left.subrange(1, left.len() as int);
        let r = right.subrange(1, right.len() as int);
        let place = law_the_first_difference_decides(l, r);
        assert forall|i: int| 0 <= i < place + 1 implies #[trigger] left[i] == right[i] by {
            if i > 0 {
                assert(l[i - 1] == left[i] && r[i - 1] == right[i]);
            }
        }
        if place < l.len() {
            assert(l[place] == left[place + 1]);
        }
        if place < r.len() {
            assert(r[place] == right[place + 1]);
        }
        place + 1
    } else {
        0
    }
}

} // verus!
