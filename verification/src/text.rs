//! Text as sequences of characters: lines, delimited fields, trimming and
//! searching, each with its meaning stated over `Seq<char>`.

use vstd::prelude::*;

verus! {

/// `String::push` of the standard library. Trusted, not proved: the string
/// then holds what it held, and behind it the character `c`.
pub assume_specification[ String::push ](s: &mut String, c: char)
    ensures
        final(s)@ == old(s)@.push(c),
;

/// The index of the first `c` in `s`, or `s.len()` where `s` holds none.
pub open spec fn position(s: Seq<char>, c: char) -> int
    decreases s.len(),
{
    if s.len() == 0 || s[0] == c {
        0
    } else {
        1 + position(s.skip(1), c)
    }
}

/// `position` lies within the sequence, nothing before it is `c`, and where it
/// is an index, `c` stands there.
pub proof fn lemma_position(s: Seq<char>, c: char)
    ensures
        0 <= position(s, c) <= s.len(),
        forall|j: int| 0 <= j < position(s, c) ==> s[j] != c,
        position(s, c) < s.len() ==> s[position(s, c)] == c,
    decreases s.len(),
{
    if s.len() == 0 || s[0] == c {
    } else {
        lemma_position(s.skip(1), c);
        assert forall|j: int| 0 <= j < position(s, c) implies s[j] != c by {
            if j > 0 {
                assert(s.skip(1)[j - 1] == s[j]);
            }
        }
    }
}

/// The only index with the properties of `lemma_position` is `position`.
pub proof fn lemma_position_is(s: Seq<char>, c: char, k: int)
    requires
        0 <= k <= s.len(),
        forall|j: int| 0 <= j < k ==> s[j] != c,
        k < s.len() ==> s[k] == c,
    ensures
        position(s, c) == k,
    decreases s.len(),
{
    if k > 0 {
        assert forall|j: int| 0 <= j < k - 1 implies s.skip(1)[j] != c by {
            assert(s.skip(1)[j] == s[j + 1]);
        }
        lemma_position_is(s.skip(1), c, k - 1);
    }
}

/// The characters of `s`, in order.
pub fn to_chars(s: &str) -> (chars: Vec<char>)
    ensures
        chars@ == s@,
{
    let mut chars: Vec<char> = Vec::new();
    for c in it: s.chars()
        invariant
            it.seq() == s@,
            chars@ == s@.take(it.index()),
    {
        chars.push(c);
        assert(s@.take(it.index() + 1) == s@.take(it.index()).push(c));
    }
    chars
}

/// The string made of the characters `chars[from..to]`.
fn string_of(chars: &Vec<char>, from: usize, to: usize) -> (s: String)
    requires
        from <= to <= chars.len(),
    ensures
        s@ == chars@.subrange(from as int, to as int),
{
    let mut s = String::new();
    let mut i: usize = from;
    while i < to
        invariant
            from <= i <= to <= chars.len(),
            s@ == chars@.subrange(from as int, i as int),
        decreases to - i,
    {
        s.push(chars[i]);
        i += 1;
    }
    s
}

/// The first index at or after `from` at which `chars` holds `c`, or the length
/// of `chars` where there is none.
fn find(chars: &Vec<char>, from: usize, c: char) -> (at: usize)
    requires
        from <= chars.len(),
    ensures
        from <= at <= chars.len(),
        at == from + position(chars@.skip(from as int), c),
{
    let mut at: usize = from;
    while at < chars.len() && chars[at] != c
        invariant
            from <= at <= chars.len(),
            forall|j: int| from <= j < at ==> chars@[j] != c,
        decreases chars.len() - at,
    {
        at += 1;
    }
    proof {
        lemma_position_is(chars@.skip(from as int), c, at - from);
    }
    at
}

/// The fields of `s`: what stands between one `delimiter` and the next. A
/// sequence without the delimiter is one field, the empty sequence too.
pub open spec fn split_on(s: Seq<char>, delimiter: char) -> Seq<Seq<char>>
    decreases s.len(),
{
    let at = position(s, delimiter);
    if 0 <= at < s.len() {
        seq![s.take(at)] + split_on(s.skip(at + 1), delimiter)
    } else {
        seq![s]
    }
}

/// Splits `text` at every `delimiter`.
pub fn split(text: &str, delimiter: char) -> (fields: Vec<String>)
    ensures
        fields.deep_view() == split_on(text@, delimiter),
{
    let chars = to_chars(text);
    let mut fields: Vec<String> = Vec::new();
    let mut start: usize = 0;
    let mut open = true;
    proof {
        assert(chars@.skip(0) == chars@);
        assert(fields.deep_view() + split_on(chars@, delimiter) == split_on(chars@, delimiter));
    }
    while open
        invariant
            start <= chars.len(),
            open ==> split_on(chars@, delimiter) == fields.deep_view() + split_on(
                chars@.skip(start as int),
                delimiter,
            ),
            !open ==> split_on(chars@, delimiter) == fields.deep_view(),
        decreases chars.len() - start + (if open { 1int } else { 0int }),
    {
        let end = find(&chars, start, delimiter);
        let field = string_of(&chars, start, end);
        let ghost rest = chars@.skip(start as int);
        let ghost before = fields.deep_view();
        proof {
            lemma_position(rest, delimiter);
            assert(rest.take(end - start) == chars@.subrange(start as int, end as int));
            assert(rest.len() == chars.len() - start);
        }
        fields.push(field);
        assert(fields.deep_view() == before + seq![field@]);
        if end < chars.len() {
            assert(rest.skip(end - start + 1) == chars@.skip(end + 1));
            start = end + 1;
        } else {
            open = false;
            assert(rest == chars@.subrange(start as int, end as int));
        }
    }
    fields
}

/// A sequence that does not hold the delimiter is one field.
pub proof fn lemma_split_whole(s: Seq<char>, delimiter: char)
    requires
        !s.contains(delimiter),
    ensures
        split_on(s, delimiter) == seq![s],
{
    lemma_position(s, delimiter);
    let at = position(s, delimiter);
    if at < s.len() {
        assert(s[at] == delimiter);
    }
}

/// Splitting splits at every delimiter: the fields of `a`, a delimiter and `b`
/// are the fields of `a` followed by the fields of `b`.
pub proof fn lemma_split_concat(a: Seq<char>, b: Seq<char>, delimiter: char)
    ensures
        split_on(a + seq![delimiter] + b, delimiter) == split_on(a, delimiter) + split_on(
            b,
            delimiter,
        ),
    decreases a.len(),
{
    let s = a + seq![delimiter] + b;
    let at = position(a, delimiter);
    lemma_position(a, delimiter);
    assert(s[a.len() as int] == delimiter);
    lemma_position_is(s, delimiter, at);
    assert(s.take(at) == a.take(at));
    if at < a.len() {
        assert(s.skip(at + 1) == a.skip(at + 1) + seq![delimiter] + b);
        lemma_split_concat(a.skip(at + 1), b, delimiter);
        assert(split_on(s, delimiter) == seq![a.take(at)] + (split_on(a.skip(at + 1), delimiter)
            + split_on(b, delimiter)));
    } else {
        assert(s.skip(at + 1) == b);
        assert(a.take(at) == a);
    }
}

/// Splitting undoes joining: fields that do not hold the delimiter, joined by
/// it and split again, are the same fields.
pub proof fn lemma_split_joined(fields: Seq<Seq<char>>, delimiter: char)
    requires
        fields.len() >= 1,
        forall|k: int| 0 <= k < fields.len() ==> !(#[trigger] fields[k]).contains(delimiter),
    ensures
        split_on(joined(fields, seq![delimiter]), delimiter) == fields,
    decreases fields.len(),
{
    if fields.len() == 1 {
        lemma_split_whole(fields[0], delimiter);
    } else {
        let front = fields.drop_last();
        lemma_split_joined(front, delimiter);
        lemma_split_concat(joined(front, seq![delimiter]), fields.last(), delimiter);
        lemma_split_whole(fields.last(), delimiter);
        assert(front + seq![fields.last()] == fields);
    }
}

/// `line` without the carriage return at its end, where it has one.
pub open spec fn without_carriage_return(line: Seq<char>) -> Seq<char> {
    if line.len() > 0 && line.last() == '\r' {
        line.drop_last()
    } else {
        line
    }
}

/// The lines of `s`. A line ends at a line feed, or at a carriage return
/// directly followed by one; neither belongs to the line. What follows the
/// last line feed is a line too, unless it is empty; a carriage return at its
/// end stays.
pub open spec fn lines_of(s: Seq<char>) -> Seq<Seq<char>>
    decreases s.len(),
{
    if s.len() == 0 {
        Seq::empty()
    } else {
        let at = position(s, '\n');
        if 0 <= at < s.len() {
            seq![without_carriage_return(s.take(at))] + lines_of(s.skip(at + 1))
        } else {
            seq![s]
        }
    }
}

/// A text has no more lines than characters.
pub proof fn lemma_lines_len(s: Seq<char>)
    ensures
        lines_of(s).len() <= s.len(),
    decreases s.len(),
{
    if s.len() > 0 {
        let at = position(s, '\n');
        if 0 <= at < s.len() {
            lemma_lines_len(s.skip(at + 1));
        }
    }
}

/// No line holds a line feed.
pub proof fn lemma_lines_hold_no_line_feed(s: Seq<char>)
    ensures
        forall|k: int| 0 <= k < lines_of(s).len() ==> !(#[trigger] lines_of(s)[k]).contains('\n'),
    decreases s.len(),
{
    if s.len() > 0 {
        let at = position(s, '\n');
        lemma_position(s, '\n');
        if 0 <= at < s.len() {
            let head = without_carriage_return(s.take(at));
            let tail = lines_of(s.skip(at + 1));
            lemma_lines_hold_no_line_feed(s.skip(at + 1));
            assert forall|k: int| 0 <= k < lines_of(s).len() implies !(#[trigger] lines_of(
                s,
            )[k]).contains('\n') by {
                if k == 0 {
                    assert(lines_of(s)[0] == head);
                    assert forall|j: int| 0 <= j < head.len() implies head[j] != '\n' by {
                        assert(head[j] == s[j]);
                    }
                } else {
                    assert(lines_of(s)[k] == tail[k - 1]);
                }
            }
        } else {
            assert(lines_of(s)[0] == s);
        }
    }
}

/// The first `limit` lines of `lines`, or all of them where there are fewer.
pub open spec fn first_of(lines: Seq<Seq<char>>, limit: nat) -> Seq<Seq<char>> {
    if limit < lines.len() {
        lines.take(limit as int)
    } else {
        lines
    }
}

/// The first `limit` lines of `text`, or all of them where there are fewer.
pub fn first_lines(text: &str, limit: usize) -> (lines: Vec<String>)
    ensures
        lines.deep_view() == first_of(lines_of(text@), limit as nat),
{
    let chars = to_chars(text);
    let mut lines: Vec<String> = Vec::new();
    let mut start: usize = 0;
    proof {
        assert(chars@.skip(0) == chars@);
        assert(lines.deep_view() + lines_of(chars@) == lines_of(chars@));
    }
    while start < chars.len() && lines.len() < limit
        invariant
            start <= chars.len(),
            lines.len() <= limit,
            lines_of(chars@) == lines.deep_view() + lines_of(chars@.skip(start as int)),
        decreases chars.len() - start,
    {
        let end = find(&chars, start, '\n');
        let ghost rest = chars@.skip(start as int);
        let ghost before = lines.deep_view();
        proof {
            lemma_position(rest, '\n');
            assert(rest.take(end - start) == chars@.subrange(start as int, end as int));
            assert(rest.len() == chars.len() - start);
        }
        if end < chars.len() {
            let stop = if start < end && chars[end - 1] == '\r' {
                end - 1
            } else {
                end
            };
            let line = string_of(&chars, start, stop);
            proof {
                let raw = chars@.subrange(start as int, end as int);
                assert(raw.len() > 0 ==> raw.last() == chars@[end - 1]);
                assert(line@ == without_carriage_return(raw));
                assert(rest.skip(end - start + 1) == chars@.skip(end + 1));
            }
            lines.push(line);
            assert(lines.deep_view() == before + seq![line@]);
            start = end + 1;
        } else {
            let line = string_of(&chars, start, end);
            assert(rest == chars@.subrange(start as int, end as int));
            lines.push(line);
            assert(lines.deep_view() == before + seq![line@]);
            start = end;
        }
    }
    proof {
        let all = lines_of(chars@);
        if start == chars.len() {
            assert(chars@.skip(start as int).len() == 0);
            assert(all == lines.deep_view());
        } else {
            assert(all.take(limit as int) == lines.deep_view());
            lemma_position(chars@.skip(start as int), '\n');
        }
    }
    lines
}

/// The lines of `text`.
pub fn lines(text: &str) -> (lines: Vec<String>)
    ensures
        lines.deep_view() == lines_of(text@),
{
    proof {
        lemma_lines_len(text@);
    }
    let count = text.unicode_len();
    first_lines(text, count)
}

/// Whether `c` is white space: one of the code points that Unicode gives the
/// property `White_Space`.
pub open spec fn is_whitespace(c: char) -> bool {
    ||| '\u{9}' <= c <= '\u{d}'
    ||| c == ' '
    ||| c == '\u{85}'
    ||| c == '\u{a0}'
    ||| c == '\u{1680}'
    ||| '\u{2000}' <= c <= '\u{200a}'
    ||| c == '\u{2028}'
    ||| c == '\u{2029}'
    ||| c == '\u{202f}'
    ||| c == '\u{205f}'
    ||| c == '\u{3000}'
}

/// Whether `c` is white space.
pub fn whitespace(c: char) -> (yes: bool)
    ensures
        yes == is_whitespace(c),
{
    ('\u{9}' <= c && c <= '\u{d}') || c == ' ' || c == '\u{85}' || c == '\u{a0}' || c == '\u{1680}'
        || ('\u{2000}' <= c && c <= '\u{200a}') || c == '\u{2028}' || c == '\u{2029}' || c
        == '\u{202f}' || c == '\u{205f}' || c == '\u{3000}'
}

/// `s` without the white space at its start.
pub open spec fn trimmed_start(s: Seq<char>) -> Seq<char>
    decreases s.len(),
{
    if s.len() > 0 && is_whitespace(s[0]) {
        trimmed_start(s.skip(1))
    } else {
        s
    }
}

/// `s` without the white space at its end.
pub open spec fn trimmed_end(s: Seq<char>) -> Seq<char>
    decreases s.len(),
{
    if s.len() > 0 && is_whitespace(s.last()) {
        trimmed_end(s.drop_last())
    } else {
        s
    }
}

/// `s` without the white space at its start and at its end.
pub open spec fn trimmed(s: Seq<char>) -> Seq<char> {
    trimmed_end(trimmed_start(s))
}

/// Whether `s` holds nothing but white space.
pub open spec fn is_blank(s: Seq<char>) -> bool {
    trimmed(s).len() == 0
}

/// `text` without the white space at its start and at its end.
pub fn trim(text: &str) -> (core: String)
    ensures
        core@ == trimmed(text@),
{
    let chars = to_chars(text);
    let mut start: usize = 0;
    assert(chars@.skip(0) == chars@);
    while start < chars.len() && whitespace(chars[start])
        invariant
            start <= chars.len(),
            trimmed_start(chars@) == trimmed_start(chars@.skip(start as int)),
        decreases chars.len() - start,
    {
        assert(chars@.skip(start as int).skip(1) == chars@.skip(start + 1));
        start += 1;
    }
    let mut end: usize = chars.len();
    assert(chars@.skip(start as int) == chars@.subrange(start as int, end as int));
    while start < end && whitespace(chars[end - 1])
        invariant
            start <= end <= chars.len(),
            trimmed(chars@) == trimmed_end(chars@.subrange(start as int, end as int)),
        decreases end - start,
    {
        assert(chars@.subrange(start as int, end as int).drop_last() == chars@.subrange(
            start as int,
            end - 1,
        ));
        end -= 1;
    }
    string_of(&chars, start, end)
}

/// Whether `text` holds nothing but white space.
pub fn blank(text: &str) -> (yes: bool)
    ensures
        yes == is_blank(text@),
{
    trim(text).as_str().is_empty()
}

/// Whether `pattern` stands in `s` at index `at`.
pub open spec fn occurs_at(s: Seq<char>, pattern: Seq<char>, at: int) -> bool {
    &&& 0 <= at
    &&& at + pattern.len() <= s.len()
    &&& s.subrange(at, at + pattern.len()) == pattern
}

/// Whether `pattern` stands somewhere in `s`.
pub open spec fn occurs_in(s: Seq<char>, pattern: Seq<char>) -> bool {
    exists|at: int| occurs_at(s, pattern, at)
}

/// Whether `pattern` stands in `chars` at index `at`.
fn matches_at(chars: &Vec<char>, pattern: &Vec<char>, at: usize) -> (yes: bool)
    requires
        at + pattern.len() <= chars.len(),
    ensures
        yes == occurs_at(chars@, pattern@, at as int),
{
    let mut k: usize = 0;
    while k < pattern.len()
        invariant
            k <= pattern.len(),
            at + pattern.len() <= chars.len(),
            forall|j: int| 0 <= j < k ==> chars@[at + j] == pattern@[j],
        decreases pattern.len() - k,
    {
        if chars[at + k] != pattern[k] {
            assert(chars@.subrange(at as int, at + pattern.len())[k as int] != pattern@[k as int]);
            return false;
        }
        k += 1;
    }
    assert(chars@.subrange(at as int, at + pattern.len()) == pattern@);
    true
}

/// Whether `pattern` stands somewhere in `text`.
pub fn contains(text: &str, pattern: &str) -> (yes: bool)
    ensures
        yes == occurs_in(text@, pattern@),
{
    let chars = to_chars(text);
    let wanted = to_chars(pattern);
    if wanted.len() > chars.len() {
        return false;
    }
    let last = chars.len() - wanted.len();
    let mut at: usize = 0;
    loop
        invariant
            chars@ == text@,
            wanted@ == pattern@,
            last == chars.len() - wanted.len(),
            at <= last,
            forall|j: int| 0 <= j < at ==> !occurs_at(chars@, wanted@, j),
        decreases last - at,
    {
        if matches_at(&chars, &wanted, at) {
            return true;
        }
        if at == last {
            return false;
        }
        at += 1;
    }
}

/// Whether `text` starts with `pattern`.
pub fn starts_with(text: &str, pattern: &str) -> (yes: bool)
    ensures
        yes == pattern@.is_prefix_of(text@),
{
    let chars = to_chars(text);
    let wanted = to_chars(pattern);
    if wanted.len() > chars.len() {
        return false;
    }
    matches_at(&chars, &wanted, 0)
}

/// Whether `text` ends with `pattern`.
pub fn ends_with(text: &str, pattern: &str) -> (yes: bool)
    ensures
        yes == pattern@.is_suffix_of(text@),
{
    let chars = to_chars(text);
    let wanted = to_chars(pattern);
    if wanted.len() > chars.len() {
        return false;
    }
    matches_at(&chars, &wanted, chars.len() - wanted.len())
}

/// The `lines` put together, with `separator` between one and the next.
pub open spec fn joined(lines: Seq<Seq<char>>, separator: Seq<char>) -> Seq<char>
    decreases lines.len(),
{
    if lines.len() == 0 {
        Seq::empty()
    } else if lines.len() == 1 {
        lines[0]
    } else {
        joined(lines.drop_last(), separator) + separator + lines.last()
    }
}

/// Puts `lines` together, with `separator` between one and the next.
pub fn join(lines: &Vec<String>, separator: &str) -> (text: String)
    ensures
        text@ == joined(lines.deep_view(), separator@),
{
    let mut text = String::new();
    let mut i: usize = 0;
    while i < lines.len()
        invariant
            i <= lines.len(),
            text@ == joined(lines.deep_view().take(i as int), separator@),
        decreases lines.len() - i,
    {
        let ghost done = lines.deep_view().take(i as int);
        let ghost next = lines.deep_view().take(i + 1);
        assert(next.drop_last() == done);
        assert(next.last() == lines@[i as int]@);
        if i > 0 {
            text.append(separator);
        }
        text.append(lines[i].as_str());
        i += 1;
    }
    assert(lines.deep_view().take(i as int) == lines.deep_view());
    text
}

/// A sequence that holds something and no line feed is one line.
pub proof fn lemma_one_line(s: Seq<char>)
    requires
        s.len() > 0,
        !s.contains('\n'),
    ensures
        lines_of(s) == seq![s],
{
    assert forall|j: int| 0 <= j < s.len() implies s[j] != '\n' by {
        if s[j] == '\n' {
            assert(s.contains('\n'));
        }
    }
    lemma_position_is(s, '\n', s.len() as int);
}

/// The lines of a sequence that holds no line feed, a line feed and `rest`
/// are that sequence, without a carriage return at its end, and the lines of
/// `rest`.
pub proof fn lemma_lines_after_first(head: Seq<char>, rest: Seq<char>)
    requires
        !head.contains('\n'),
    ensures
        lines_of(head + seq!['\n'] + rest) == seq![without_carriage_return(head)] + lines_of(rest),
{
    let s = head + seq!['\n'] + rest;
    assert forall|j: int| 0 <= j < head.len() implies s[j] != '\n' by {
        assert(s[j] == head[j]);
        if head[j] == '\n' {
            assert(head.contains('\n'));
        }
    }
    assert(s[head.len() as int] == '\n');
    lemma_position_is(s, '\n', head.len() as int);
    assert(s.take(head.len() as int) == head);
    assert(s.skip(head.len() as int + 1) == rest);
}

/// Joining can be read from the front: the first line, the separator, and
/// the other lines joined.
pub proof fn lemma_joined_from_front(lines: Seq<Seq<char>>, separator: Seq<char>)
    requires
        lines.len() >= 2,
    ensures
        joined(lines, separator) == lines[0] + separator + joined(lines.skip(1), separator),
    decreases lines.len(),
{
    let others = lines.skip(1);
    let front = lines.drop_last();
    assert(joined(lines, separator) == joined(front, separator) + separator + lines.last());
    if lines.len() == 2 {
        assert(joined(front, separator) == front[0]);
        assert(joined(others, separator) == others[0]);
    } else {
        lemma_joined_from_front(front, separator);
        assert(front.skip(1) == others.drop_last());
        let middle = joined(others.drop_last(), separator);
        assert(joined(others, separator) == middle + separator + others.last());
        assert((lines[0] + separator + middle) + separator + lines.last() == lines[0] + separator
            + (middle + separator + lines.last()));
    }
}

/// Whether `lines` are the lines of what joining them by line feeds gives:
/// none holds a line feed, none but the last ends with a carriage return, and
/// the last one is not empty.
pub open spec fn are_kept_by_joining(lines: Seq<Seq<char>>) -> bool {
    &&& forall|k: int| 0 <= k < lines.len() ==> !(#[trigger] lines[k]).contains('\n')
    &&& forall|k: int|
        0 <= k < lines.len() - 1 ==> without_carriage_return(#[trigger] lines[k]) == lines[k]
    &&& lines.len() > 0 ==> lines.last().len() > 0
}

/// Lines that are kept by joining, joined by line feeds and split into lines
/// again, are the same lines.
pub proof fn lemma_lines_of_joined(lines: Seq<Seq<char>>)
    requires
        are_kept_by_joining(lines),
    ensures
        lines_of(joined(lines, seq!['\n'])) == lines,
    decreases lines.len(),
{
    if lines.len() == 0 {
    } else if lines.len() == 1 {
        lemma_one_line(lines[0]);
        assert(lines == seq![lines[0]]);
    } else {
        let others = lines.skip(1);
        lemma_joined_from_front(lines, seq!['\n']);
        lemma_lines_after_first(lines[0], joined(others, seq!['\n']));
        assert(others.last() == lines.last());
        assert forall|k: int| 0 <= k < others.len() implies !(#[trigger] others[k]).contains(
            '\n',
        ) by {
            assert(others[k] == lines[k + 1]);
        }
        assert forall|k: int| 0 <= k < others.len() - 1 implies without_carriage_return(
            #[trigger] others[k],
        ) == others[k] by {
            assert(others[k] == lines[k + 1]);
        }
        lemma_lines_of_joined(others);
        assert(without_carriage_return(lines[0]) == lines[0]);
        assert(seq![lines[0]] + others == lines);
    }
}

/// The number of line feeds in `s`.
pub open spec fn line_feeds(s: Seq<char>) -> nat {
    s.filter(|c: char| c == '\n').len()
}

/// A sequence that holds no line feed has none to count.
proof fn lemma_no_line_feeds(s: Seq<char>)
    requires
        !s.contains('\n'),
    ensures
        line_feeds(s) == 0,
{
    let feed = |c: char| c == '\n';
    if s.filter(feed).len() > 0 {
        s.lemma_filter_pred(feed, 0);
        s.lemma_filter_contains_rev(feed, s.filter(feed)[0]);
    }
}

/// Lines that hold no line feed, joined by line feeds, hold one line feed
/// fewer than there are lines.
pub proof fn lemma_line_feeds_of_joined(lines: Seq<Seq<char>>)
    requires
        forall|k: int| 0 <= k < lines.len() ==> !(#[trigger] lines[k]).contains('\n'),
    ensures
        lines.len() == 0 ==> line_feeds(joined(lines, seq!['\n'])) == 0,
        lines.len() > 0 ==> line_feeds(joined(lines, seq!['\n'])) == lines.len() - 1,
    decreases lines.len(),
{
    let feed = |c: char| c == '\n';
    if lines.len() == 0 {
        assert(Seq::<char>::empty().filter(feed).len() == 0) by {
            Seq::<char>::empty().lemma_filter_len(feed);
        }
    } else if lines.len() == 1 {
        lemma_no_line_feeds(lines[0]);
    } else {
        let front = joined(lines.drop_last(), seq!['\n']);
        lemma_line_feeds_of_joined(lines.drop_last());
        lemma_no_line_feeds(lines.last());
        Seq::filter_distributes_over_add(front, seq!['\n'], feed);
        Seq::filter_distributes_over_add(front + seq!['\n'], lines.last(), feed);
        assert(seq!['\n'].filter(feed) == seq!['\n']) by {
            Seq::<char>::empty().lemma_filter_push('\n', feed);
            Seq::<char>::empty().lemma_filter_len(feed);
            assert(Seq::<char>::empty().push('\n') == seq!['\n']);
        }
    }
}

/// The digit for `d`, which is below ten.
pub open spec fn digit(d: nat) -> char {
    ('0' as nat + d) as char
}

/// `n` in decimal digits, without a sign or leading zeros.
pub open spec fn decimal(n: nat) -> Seq<char>
    decreases n,
{
    if n < 10 {
        seq![digit(n)]
    } else {
        decimal(n / 10).push(digit(n % 10))
    }
}

/// Appends `n` in decimal digits to `text`.
pub fn push_decimal(text: &mut String, n: usize)
    ensures
        final(text)@ == old(text)@ + decimal(n as nat),
    decreases n,
{
    if n >= 10 {
        push_decimal(text, n / 10);
    }
    let d: u8 = (n % 10) as u8;
    text.push((48u8 + d) as char);
    assert(text@ == old(text)@ + decimal(n as nat));
}

/// The first `count` characters of `s`, or all of `s` where it has no more.
pub open spec fn prefix_of(s: Seq<char>, count: nat) -> Seq<char> {
    if count < s.len() {
        s.take(count as int)
    } else {
        s
    }
}

/// The first `count` characters of `text`, or all of it where it has no more.
pub fn prefix(text: &str, count: usize) -> (head: String)
    ensures
        head@ == prefix_of(text@, count as nat),
{
    let chars = to_chars(text);
    let end = if count < chars.len() {
        count
    } else {
        chars.len()
    };
    let head = string_of(&chars, 0, end);
    assert(chars@.subrange(0, chars.len() as int) == chars@);
    head
}

} // verus!
