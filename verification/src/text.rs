//! Character-level text operations over `Seq<char>` models.

use vstd::prelude::*;

verus! {

/// std's `String::push`: the character is appended to the string.
pub assume_specification[ String::push ](s: &mut String, c: char)
    ensures
        final(s)@ == old(s)@.push(c),
;

/// The lowercase form of `s` as std's `str::to_lowercase` gives it (Unicode
/// `Lowercase` mappings, final sigma included).
pub uninterp spec fn lowercase(s: Seq<char>) -> Seq<char>;

/// std's `str::to_lowercase`.
#[verifier::external_body]
fn to_lowercase(s: &str) -> (r: String)
    ensures
        r@ == lowercase(s@),
{
    s.to_lowercase()
}

/// The text of an optional string.
pub open spec fn optional_text(s: Option<String>) -> Option<Seq<char>> {
    match s {
        Some(s) => Some(s@),
        None => None,
    }
}

/// The text of an optional string slice.
pub open spec fn optional_str(s: Option<&str>) -> Option<Seq<char>> {
    match s {
        Some(s) => Some(s@),
        None => None,
    }
}

/// `pattern` occurs in `text` starting at index `at`.
pub open spec fn occurs_at(text: Seq<char>, pattern: Seq<char>, at: int) -> bool {
    &&& 0 <= at
    &&& at + pattern.len() <= text.len()
    &&& text.subrange(at, at + pattern.len()) == pattern
}

/// `text` begins with `pattern`.
pub open spec fn has_prefix(text: Seq<char>, pattern: Seq<char>) -> bool {
    occurs_at(text, pattern, 0)
}

/// `pattern` occurs somewhere in `text`.
pub open spec fn occurs_in(text: Seq<char>, pattern: Seq<char>) -> bool {
    exists|at: int| occurs_at(text, pattern, at)
}

/// Characters with the Unicode `White_Space` property.
pub open spec fn is_space(c: char) -> bool {
    let n = c as u32;
    ||| 0x09 <= n <= 0x0D
    ||| n == 0x20
    ||| n == 0x85
    ||| n == 0xA0
    ||| n == 0x1680
    ||| 0x2000 <= n <= 0x200A
    ||| n == 0x2028
    ||| n == 0x2029
    ||| n == 0x202F
    ||| n == 0x205F
    ||| n == 0x3000
}

/// `text` without its leading white space.
pub open spec fn trimmed_start(text: Seq<char>) -> Seq<char>
    decreases text.len(),
{
    if text.len() > 0 && is_space(text.first()) {
        trimmed_start(text.drop_first())
    } else {
        text
    }
}

/// `text` without its trailing white space.
pub open spec fn trimmed_end(text: Seq<char>) -> Seq<char>
    decreases text.len(),
{
    if text.len() > 0 && is_space(text.last()) {
        trimmed_end(text.drop_last())
    } else {
        text
    }
}

/// `text` without leading and trailing white space.
pub open spec fn trimmed(text: Seq<char>) -> Seq<char> {
    trimmed_end(trimmed_start(text))
}

/// `text` after every leading repetition of `pattern` has been removed.
pub open spec fn without_leading(text: Seq<char>, pattern: Seq<char>) -> Seq<char>
    decreases text.len(),
{
    if pattern.len() > 0 && has_prefix(text, pattern) {
        without_leading(text.skip(pattern.len() as int), pattern)
    } else {
        text
    }
}

/// `text` after every trailing repetition of `pattern` has been removed.
pub open spec fn without_trailing(text: Seq<char>, pattern: Seq<char>) -> Seq<char>
    decreases text.len(),
{
    if pattern.len() > 0 && occurs_at(text, pattern, text.len() - pattern.len()) {
        without_trailing(text.take(text.len() - pattern.len()), pattern)
    } else {
        text
    }
}

/// `text` with every white-space character removed.
pub open spec fn without_spaces(text: Seq<char>) -> Seq<char>
    decreases text.len(),
{
    if text.len() == 0 {
        text
    } else if is_space(text.last()) {
        without_spaces(text.drop_last())
    } else {
        without_spaces(text.drop_last()).push(text.last())
    }
}

/// `text` with every occurrence of the character `c` removed.
pub open spec fn without_char(text: Seq<char>, c: char) -> Seq<char>
    decreases text.len(),
{
    if text.len() == 0 {
        text
    } else if text.last() == c {
        without_char(text.drop_last(), c)
    } else {
        without_char(text.drop_last(), c).push(text.last())
    }
}

/// Number of characters before the first line feed of `text`, or the length
/// of `text` where it holds none.
pub open spec fn first_line_len(text: Seq<char>) -> nat
    decreases text.len(),
{
    if text.len() == 0 || text.first() == '\n' {
        0
    } else {
        1 + first_line_len(text.drop_first())
    }
}

/// A line that ended in a line feed loses one carriage return before it.
pub open spec fn without_carriage_return(line: Seq<char>) -> Seq<char> {
    if line.len() > 0 && line.last() == '\r' {
        line.drop_last()
    } else {
        line
    }
}

/// The lines of `text`: split after each line feed, the terminating line
/// feed (and a carriage return directly before it) removed. A final line
/// needs no line feed, and an empty text has no lines.
pub open spec fn lines(text: Seq<char>) -> Seq<Seq<char>>
    decreases text.len(),
{
    let n = first_line_len(text) as int;
    if text.len() == 0 {
        Seq::empty()
    } else if n < text.len() {
        seq![without_carriage_return(text.take(n))] + lines(text.skip(n + 1))
    } else {
        seq![text]
    }
}

/// The texts held by a vector of character vectors.
pub open spec fn views(items: Seq<Vec<char>>) -> Seq<Seq<char>> {
    Seq::new(items.len(), |i: int| items[i]@)
}

/// The first element of `lines` that begins with `label`.
pub open spec fn first_with_prefix(lines: Seq<Seq<char>>, label: Seq<char>) -> Option<Seq<char>>
    decreases lines.len(),
{
    if lines.len() == 0 {
        None
    } else if has_prefix(lines.first(), label) {
        Some(lines.first())
    } else {
        first_with_prefix(lines.drop_first(), label)
    }
}

/// The pieces of `text` between occurrences of the character `separator`.
pub open spec fn pieces(text: Seq<char>, separator: char) -> Seq<Seq<char>>
    decreases text.len(),
{
    if text.len() == 0 {
        seq![Seq::empty()]
    } else {
        let rest = pieces(text.drop_last(), separator);
        if text.last() == separator {
            rest.push(Seq::empty())
        } else {
            rest.drop_last().push(rest.last().push(text.last()))
        }
    }
}

/// Leading white space ends at the first character that is none.
proof fn lemma_trimmed_start(text: Seq<char>, n: int)
    requires
        0 <= n <= text.len(),
        forall|k: int| 0 <= k < n ==> is_space(text[k]),
        n == text.len() || !is_space(text[n]),
    ensures
        trimmed_start(text) == text.skip(n),
    decreases n,
{
    if n == 0 {
        assert(text.skip(0) =~= text);
    } else {
        let rest = text.drop_first();
        assert forall|k: int| 0 <= k < n - 1 implies is_space(rest[k]) by {
            assert(rest[k] == text[k + 1]);
        }
        lemma_trimmed_start(rest, n - 1);
        assert(rest.skip(n - 1) =~= text.skip(n));
    }
}

/// Trailing white space begins after the last character that is none.
proof fn lemma_trimmed_end(text: Seq<char>, n: int)
    requires
        0 <= n <= text.len(),
        forall|k: int| n <= k < text.len() ==> is_space(text[k]),
        n == 0 || !is_space(text[n - 1]),
    ensures
        trimmed_end(text) == text.take(n),
    decreases text.len() - n,
{
    if n == text.len() {
        assert(text.take(n) =~= text);
    } else {
        let rest = text.drop_last();
        lemma_trimmed_end(rest, n);
        assert(rest.take(n) =~= text.take(n));
    }
}

/// The first line ends at the first line feed, or with the text.
proof fn lemma_first_line_len(text: Seq<char>, n: int)
    requires
        0 <= n <= text.len(),
        forall|k: int| 0 <= k < n ==> text[k] != '\n',
        n == text.len() || text[n] == '\n',
    ensures
        first_line_len(text) == n,
    decreases n,
{
    if n > 0 {
        let rest = text.drop_first();
        assert forall|k: int| 0 <= k < n - 1 implies rest[k] != '\n' by {
            assert(rest[k] == text[k + 1]);
        }
        lemma_first_line_len(rest, n - 1);
    }
}

/// The characters of `s`, in order.
pub fn chars_of(s: &str) -> (r: Vec<char>)
    ensures
        r@ == s@,
{
    let mut out: Vec<char> = Vec::new();
    for c in it: s.chars()
        invariant
            out@ == it.seq().take(it.index() as int),
            it.seq() == s@,
    {
        out.push(c);
    }
    out
}

/// The string made of `chars`, in order.
pub fn string_of(chars: &Vec<char>) -> (r: String)
    ensures
        r@ == chars@,
{
    let mut out = String::new();
    let mut i: usize = 0;
    while i < chars.len()
        invariant
            i <= chars.len(),
            out@ == chars@.take(i as int),
        decreases chars.len() - i,
    {
        out.push(chars[i]);
        i += 1;
    }
    out
}

/// The lowercase form of `chars`.
pub fn lowercase_chars(chars: &Vec<char>) -> (r: Vec<char>)
    ensures
        r@ == lowercase(chars@),
{
    let folded = to_lowercase(string_of(chars).as_str());
    chars_of(folded.as_str())
}

/// The characters of `chars` from `from` up to `to`.
pub fn copy_range(chars: &Vec<char>, from: usize, to: usize) -> (r: Vec<char>)
    requires
        from <= to <= chars.len(),
    ensures
        r@ == chars@.subrange(from as int, to as int),
{
    let mut out: Vec<char> = Vec::new();
    let mut i: usize = from;
    while i < to
        invariant
            from <= i <= to,
            to <= chars.len(),
            out@ == chars@.subrange(from as int, i as int),
        decreases to - i,
    {
        out.push(chars[i]);
        i += 1;
    }
    out
}

/// Whether two texts hold the same characters.
pub fn same_chars(a: &Vec<char>, b: &Vec<char>) -> (r: bool)
    ensures
        r == (a@ == b@),
{
    if a.len() != b.len() {
        return false;
    }
    let mut i: usize = 0;
    while i < a.len()
        invariant
            i <= a.len(),
            a.len() == b.len(),
            forall|k: int| 0 <= k < i ==> a@[k] == b@[k],
        decreases a.len() - i,
    {
        if a[i] != b[i] {
            return false;
        }
        i += 1;
    }
    assert(a@ =~= b@);
    true
}

/// Whether two strings hold the same characters.
pub fn same_text(a: &str, b: &str) -> (r: bool)
    ensures
        r == (a@ == b@),
{
    same_chars(&chars_of(a), &chars_of(b))
}

/// Whether `pattern` occurs in `text` at index `at`.
pub fn matches_at(text: &Vec<char>, pattern: &Vec<char>, at: usize) -> (r: bool)
    ensures
        r == occurs_at(text@, pattern@, at as int),
{
    if pattern.len() > text.len() || at > text.len() - pattern.len() {
        return false;
    }
    let mut k: usize = 0;
    while k < pattern.len()
        invariant
            k <= pattern.len(),
            at + pattern.len() <= text.len(),
            forall|j: int| 0 <= j < k ==> text@[at + j] == pattern@[j],
        decreases pattern.len() - k,
    {
        if text[at + k] != pattern[k] {
            assert(text@.subrange(at as int, at + pattern@.len())[k as int] == text@[at + k]);
            return false;
        }
        k += 1;
    }
    assert(text@.subrange(at as int, at + pattern@.len()) =~= pattern@);
    true
}

/// Whether `text` begins with `pattern`.
pub fn starts_with(text: &Vec<char>, pattern: &Vec<char>) -> (r: bool)
    ensures
        r == has_prefix(text@, pattern@),
{
    matches_at(text, pattern, 0)
}

/// Whether `pattern` occurs somewhere in `text`.
pub fn contains(text: &Vec<char>, pattern: &Vec<char>) -> (r: bool)
    ensures
        r == occurs_in(text@, pattern@),
{
    if pattern.len() > text.len() {
        return false;
    }
    let last: usize = text.len() - pattern.len();
    let mut at: usize = 0;
    while at < last
        invariant
            at <= last,
            last == text.len() - pattern.len(),
            forall|j: int| 0 <= j < at ==> !occurs_at(text@, pattern@, j),
        decreases last - at,
    {
        if matches_at(text, pattern, at) {
            return true;
        }
        at += 1;
    }
    matches_at(text, pattern, last)
}

/// Whether `c` has the Unicode `White_Space` property.
pub fn is_space_char(c: char) -> (r: bool)
    ensures
        r == is_space(c),
{
    let n: u32 = c as u32;
    (0x09 <= n && n <= 0x0D) || n == 0x20 || n == 0x85 || n == 0xA0 || n == 0x1680 || (0x2000 <= n
        && n <= 0x200A) || n == 0x2028 || n == 0x2029 || n == 0x202F || n == 0x205F || n == 0x3000
}

/// `text` without leading and trailing white space.
pub fn trim(text: &Vec<char>) -> (r: Vec<char>)
    ensures
        r@ == trimmed(text@),
{
    let mut start: usize = 0;
    while start < text.len() && is_space_char(text[start])
        invariant
            start <= text.len(),
            forall|k: int| 0 <= k < start ==> is_space(text@[k]),
        decreases text.len() - start,
    {
        start += 1;
    }
    let mut end: usize = text.len();
    while end > start && is_space_char(text[end - 1])
        invariant
            start <= end <= text.len(),
            forall|k: int| end <= k < text.len() ==> is_space(text@[k]),
        decreases end,
    {
        end -= 1;
    }
    proof {
        lemma_trimmed_start(text@, start as int);
        let tail = text@.skip(start as int);
        assert forall|k: int| end - start <= k < tail.len() implies is_space(tail[k]) by {
            assert(tail[k] == text@[k + start]);
        }
        lemma_trimmed_end(tail, end - start);
        assert(tail.take(end - start) =~= text@.subrange(start as int, end as int));
    }
    copy_range(text, start, end)
}

/// `text` after every leading repetition of `pattern` has been removed.
pub fn strip_leading(text: &Vec<char>, pattern: &Vec<char>) -> (r: Vec<char>)
    ensures
        r@ == without_leading(text@, pattern@),
{
    let mut at: usize = 0;
    assert(text@.skip(0) =~= text@);
    if pattern.len() > 0 {
        while matches_at(text, pattern, at)
            invariant
                at <= text.len(),
                pattern.len() > 0,
                without_leading(text@, pattern@) == without_leading(
                    text@.skip(at as int),
                    pattern@,
                ),
            decreases text.len() - at,
        {
            proof {
                let tail = text@.skip(at as int);
                assert(tail.subrange(0, pattern@.len() as int) =~= text@.subrange(
                    at as int,
                    at + pattern@.len(),
                ));
                assert(tail.skip(pattern@.len() as int) =~= text@.skip(at + pattern@.len()));
            }
            at += pattern.len();
        }
        proof {
            let tail = text@.skip(at as int);
            if has_prefix(tail, pattern@) {
                assert(tail.subrange(0, pattern@.len() as int) =~= text@.subrange(
                    at as int,
                    at + pattern@.len(),
                ));
            }
        }
    }
    assert(text@.skip(at as int) =~= text@.subrange(at as int, text@.len() as int));
    copy_range(text, at, text.len())
}

/// `text` with every white-space character removed.
pub fn remove_spaces(text: &Vec<char>) -> (r: Vec<char>)
    ensures
        r@ == without_spaces(text@),
{
    let mut out: Vec<char> = Vec::new();
    let mut i: usize = 0;
    while i < text.len()
        invariant
            i <= text.len(),
            out@ == without_spaces(text@.take(i as int)),
        decreases text.len() - i,
    {
        proof {
            let next = text@.take(i + 1);
            assert(next.drop_last() =~= text@.take(i as int));
            assert(next.last() == text@[i as int]);
        }
        if !is_space_char(text[i]) {
            out.push(text[i]);
        }
        i += 1;
    }
    assert(text@.take(text@.len() as int) =~= text@);
    out
}

/// `text` with every occurrence of the character `c` removed.
pub fn remove_char(text: &Vec<char>, c: char) -> (r: Vec<char>)
    ensures
        r@ == without_char(text@, c),
{
    let mut out: Vec<char> = Vec::new();
    let mut i: usize = 0;
    while i < text.len()
        invariant
            i <= text.len(),
            out@ == without_char(text@.take(i as int), c),
        decreases text.len() - i,
    {
        proof {
            let next = text@.take(i + 1);
            assert(next.drop_last() =~= text@.take(i as int));
            assert(next.last() == text@[i as int]);
        }
        if text[i] != c {
            out.push(text[i]);
        }
        i += 1;
    }
    assert(text@.take(text@.len() as int) =~= text@);
    out
}

/// `text` after every trailing repetition of `pattern` has been removed.
pub fn strip_trailing(text: &Vec<char>, pattern: &Vec<char>) -> (r: Vec<char>)
    ensures
        r@ == without_trailing(text@, pattern@),
{
    let mut end: usize = text.len();
    assert(text@.take(end as int) =~= text@);
    if pattern.len() > 0 {
        while end >= pattern.len() && matches_at(text, pattern, end - pattern.len())
            invariant
                end <= text.len(),
                pattern.len() > 0,
                without_trailing(text@, pattern@) == without_trailing(
                    text@.take(end as int),
                    pattern@,
                ),
            decreases end,
        {
            proof {
                let head = text@.take(end as int);
                let at = end - pattern@.len();
                assert(head.subrange(at, at + pattern@.len()) =~= text@.subrange(
                    at,
                    at + pattern@.len(),
                ));
                assert(head.take(at) =~= text@.take(at));
            }
            end -= pattern.len();
        }
        proof {
            let head = text@.take(end as int);
            let at = end - pattern@.len();
            if occurs_at(head, pattern@, at) {
                assert(head.subrange(at, at + pattern@.len()) =~= text@.subrange(
                    at,
                    at + pattern@.len(),
                ));
            }
        }
    }
    assert(text@.take(end as int) =~= text@.subrange(0, end as int));
    copy_range(text, 0, end)
}

/// The pieces of `text` between occurrences of the character `separator`.
pub fn split(text: &Vec<char>, separator: char) -> (r: Vec<Vec<char>>)
    ensures
        views(r@) == pieces(text@, separator),
{
    let mut out: Vec<Vec<char>> = Vec::new();
    let mut current: Vec<char> = Vec::new();
    let mut i: usize = 0;
    assert(text@.take(0) =~= Seq::<char>::empty());
    assert(views(out@).push(current@) =~= seq![Seq::<char>::empty()]);
    while i < text.len()
        invariant
            i <= text.len(),
            pieces(text@.take(i as int), separator) == views(out@).push(current@),
        decreases text.len() - i,
    {
        let ghost before = views(out@);
        let ghost piece = current@;
        proof {
            let next = text@.take(i + 1);
            assert(next.drop_last() =~= text@.take(i as int));
            assert(next.last() == text@[i as int]);
            assert(before.push(piece).drop_last() =~= before);
        }
        if text[i] == separator {
            out.push(current);
            current = Vec::new();
            assert(views(out@) =~= before.push(piece));
        } else {
            current.push(text[i]);
        }
        i += 1;
    }
    let ghost before = views(out@);
    assert(text@.take(i as int) =~= text@);
    out.push(current);
    assert(views(out@) =~= before.push(current@));
    out
}

/// The lines of `text`.
pub fn split_lines(text: &Vec<char>) -> (r: Vec<Vec<char>>)
    ensures
        views(r@) == lines(text@),
{
    let mut out: Vec<Vec<char>> = Vec::new();
    let mut start: usize = 0;
    assert(text@.skip(0) =~= text@);
    assert(views(out@) =~= Seq::<Seq<char>>::empty());
    while start < text.len()
        invariant
            start <= text.len(),
            lines(text@) == views(out@) + lines(text@.skip(start as int)),
        decreases text.len() - start,
    {
        let mut end: usize = start;
        while end < text.len() && text[end] != '\n'
            invariant
                start <= end <= text.len(),
                forall|k: int| start <= k < end ==> text@[k] != '\n',
            decreases text.len() - end,
        {
            end += 1;
        }
        let ghost tail = text@.skip(start as int);
        let ghost before = views(out@);
        proof {
            assert forall|k: int| 0 <= k < end - start implies tail[k] != '\n' by {
                assert(tail[k] == text@[k + start]);
            }
            lemma_first_line_len(tail, end - start);
        }
        if end < text.len() {
            let stop: usize = if end > start && text[end - 1] == '\r' {
                end - 1
            } else {
                end
            };
            let line = copy_range(text, start, stop);
            proof {
                let whole = tail.take(end - start);
                assert(whole =~= text@.subrange(start as int, end as int));
                assert(line@ =~= without_carriage_return(whole));
                assert(tail.skip(end - start + 1) =~= text@.skip(end + 1));
            }
            out.push(line);
            assert(views(out@) =~= before.push(line@));
            start = end + 1;
        } else {
            let line = copy_range(text, start, end);
            proof {
                assert(line@ =~= tail);
                assert(text@.skip(end as int) =~= Seq::<char>::empty());
            }
            out.push(line);
            assert(views(out@) =~= before.push(line@));
            start = end;
        }
    }
    assert(text@.skip(start as int) =~= Seq::<char>::empty());
    out
}

/// The first line in `lines` that begins with `label`.
pub fn find_with_prefix(lines: &Vec<Vec<char>>, label: &Vec<char>) -> (r: Option<usize>)
    ensures
        match r {
            Some(i) => i < lines.len() && first_with_prefix(views(lines@), label@) == Some(
                lines@[i as int]@,
            ),
            None => first_with_prefix(views(lines@), label@) is None,
        },
{
    let mut i: usize = 0;
    assert(views(lines@).skip(0) =~= views(lines@));
    while i < lines.len()
        invariant
            i <= lines.len(),
            first_with_prefix(views(lines@), label@) == first_with_prefix(
                views(lines@).skip(i as int),
                label@,
            ),
        decreases lines.len() - i,
    {
        let ghost rest = views(lines@).skip(i as int);
        assert(rest.first() == lines@[i as int]@);
        if starts_with(&lines[i], label) {
            return Some(i);
        }
        assert(rest.drop_first() =~= views(lines@).skip(i + 1));
        i += 1;
    }
    None
}

} // verus!
