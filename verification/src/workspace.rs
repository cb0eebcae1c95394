use vstd::prelude::*;
use vstd::slice::slice_subrange;
use crate::text::chars_of;

verus! {

/// The name of the licence file within the working directory.
pub const EULA_PATH: &'static str = "eula.txt";

/// The first line of a licence file, after its comment sign.
pub const EULA_HEADER: &'static str =
    "By changing the setting below to TRUE you are indicating your agreement to our EULA (https://aka.ms/MinecraftEULA).";

/// Whether `c` is white space: a character with the Unicode property
/// `White_Space`.
pub open spec fn is_white(c: char) -> bool {
    let n = c as u32;
    ||| 0x09 <= n <= 0x0D
    ||| n == 0x20
    ||| n == 0x85
    ||| n == 0xA0
    ||| n == 0x1680
    ||| 0x2000 <= n <= 0x200A
    ||| n == 0x2028
    ||| n == 0x2029
    ||| n == 0x202F
    ||| n == 0x205F
    ||| n == 0x3000
}

/// The lowercase form of an ASCII capital; any other character itself.
pub open spec fn ascii_lower(c: char) -> char {
    if 'A' <= c <= 'Z' {
        ((c as u32) + 32) as char
    } else {
        c
    }
}

/// The text with each ASCII capital in lowercase.
pub open spec fn lowered(s: Seq<char>) -> Seq<char> {
    Seq::new(s.len(), |i: int| ascii_lower(s[i]))
}

/// The first position at or after `from` that holds no white space; the
/// length where there is none.
pub open spec fn start_of_text(s: Seq<char>, from: int) -> int
    decreases s.len() - from,
{
    if 0 <= from < s.len() && is_white(s[from]) {
        start_of_text(s, from + 1)
    } else {
        from
    }
}

/// The end of the text that begins at `floor`: the position after the last
/// character before `to` that is no white space; `floor` where there is none.
pub open spec fn end_of_text(s: Seq<char>, floor: int, to: int) -> int
    decreases to - floor,
{
    if floor < to <= s.len() && is_white(s[to - 1]) {
        end_of_text(s, floor, to - 1)
    } else {
        to
    }
}

/// The text without the white space at its two ends.
pub open spec fn trimmed(s: Seq<char>) -> Seq<char> {
    let from = start_of_text(s, 0);
    s.subrange(from, end_of_text(s, from, s.len() as int))
}

/// The first position at or after `from` that holds `c`.
pub open spec fn find(s: Seq<char>, c: char, from: int) -> Option<int>
    decreases s.len() - from,
{
    if from < 0 || from >= s.len() {
        None
    } else if s[from] == c {
        Some(from)
    } else {
        find(s, c, from + 1)
    }
}

/// The text before the first `c` and the text after it.
pub open spec fn split_once(s: Seq<char>, c: char) -> Option<(Seq<char>, Seq<char>)> {
    match find(s, c, 0) {
        Some(at) => Some((s.subrange(0, at), s.subrange(at + 1, s.len() as int))),
        None => None,
    }
}

/// Whether a line accepts the licence: it reads `eula=true`, where white
/// space around the line, the key and the value does not count, nor does the
/// case of the value's letters.
pub open spec fn eula_accepted(line: Seq<char>) -> bool {
    match split_once(trimmed(line), '=') {
        Some((key, value)) => trimmed(key) == "eula"@ && lowered(trimmed(value)) == lowered(
            "true"@,
        ),
        None => false,
    }
}

/// Whether `lo..hi` is a line of `s`: a stretch without a line feed that is
/// bounded by line feeds or by the ends of the text.
pub open spec fn is_line(s: Seq<char>, lo: int, hi: int) -> bool {
    &&& 0 <= lo <= hi <= s.len()
    &&& lo == 0 || s[lo - 1] == '\n'
    &&& hi == s.len() || s[hi] == '\n'
    &&& forall|k: int| lo <= k < hi ==> s[k] != '\n'
}

/// Whether some line of a licence file accepts the licence.
pub open spec fn eula_accepted_in(content: Seq<char>) -> bool {
    exists|lo: int, hi: int| is_line(content, lo, hi) && eula_accepted(content.subrange(lo, hi))
}

/// The licence file that accepts the licence, dated `date`: the header and
/// the date as comments, then the accepting line.
pub open spec fn eula_text_of(date: Seq<char>) -> Seq<char> {
    "#"@ + EULA_HEADER@ + "\n#"@ + date + "\neula=true\n"@
}

/// The plain accepting line is accepted.
pub proof fn lemma_plain_line_is_accepted()
    ensures
        eula_accepted("eula=true"@),
{
    reveal_strlit("eula=true");
    reveal_strlit("eula");
    reveal_strlit("true");
    let line = "eula=true"@;
    assert(!is_white('e'));
    assert(start_of_text(line, 0) == 0);
    assert(end_of_text(line, 0, 9) == 9);
    assert(trimmed(line) =~= line);
    assert(find(line, '=', 0) == Some(4int)) by {
        reveal_with_fuel(find, 6);
    }
    let key = line.subrange(0, 4);
    let value = line.subrange(5, 9);
    assert(start_of_text(key, 0) == 0);
    assert(end_of_text(key, 0, 4) == 4);
    assert(trimmed(key) =~= "eula"@);
    assert(!is_white('t'));
    assert(start_of_text(value, 0) == 0);
    assert(end_of_text(value, 0, 4) == 4);
    assert(trimmed(value) =~= "true"@);
}

/// A licence file written for acceptance is found accepted when it is read
/// back, whatever its date.
pub proof fn lemma_written_eula_is_accepted(date: Seq<char>)
    ensures
        eula_accepted_in(eula_text_of(date)),
{
    reveal_strlit("\neula=true\n");
    reveal_strlit("eula=true");
    let tail = "\neula=true\n"@;
    let content = eula_text_of(date);
    let n = content.len() as int;
    assert(forall|k: int| 0 <= k < 11 ==> content[n - 11 + k] == tail[k]);
    assert(content[n - 11] == tail[0]);
    assert(content[n - 1] == tail[10]);
    assert forall|k: int| n - 10 <= k < n - 1 implies content[k] != '\n' by {
        assert(content[k] == tail[k - (n - 11)]);
    }
    assert(is_line(content, n - 10, n - 1));
    assert(content.subrange(n - 10, n - 1) =~= "eula=true"@) by {
        assert forall|k: int| 0 <= k < 9 implies content.subrange(n - 10, n - 1)[k]
            == "eula=true"@[k] by {
            assert(content[n - 10 + k] == tail[k + 1]);
        }
    }
    lemma_plain_line_is_accepted();
}

/// Whether `c` is white space.
pub fn is_white_space(c: char) -> (white: bool)
    ensures
        white == is_white(c),
{
    let n: u32 = c as u32;
    (0x09 <= n && n <= 0x0D) || n == 0x20 || n == 0x85 || n == 0xA0 || n == 0x1680 || (0x2000 <= n
        && n <= 0x200A) || n == 0x2028 || n == 0x2029 || n == 0x202F || n == 0x205F || n == 0x3000
}

/// Whether two characters are the same but for the case of ASCII letters.
pub fn same_letter(a: char, b: char) -> (same: bool)
    ensures
        same == (ascii_lower(a) == ascii_lower(b)),
{
    let x: u32 = a as u32;
    let y: u32 = b as u32;
    let x = if 65 <= x && x <= 90 {
        x + 32
    } else {
        x
    };
    let y = if 65 <= y && y <= 90 {
        y + 32
    } else {
        y
    };
    x == y
}

/// The text without the white space at its two ends.
pub fn trim(s: &[char]) -> (text: &[char])
    ensures
        text@ == trimmed(s@),
{
    let mut from: usize = 0;
    while from < s.len() && is_white_space(s[from])
        invariant
            from <= s.len(),
            start_of_text(s@, 0) == start_of_text(s@, from as int),
        decreases s.len() - from,
    {
        from += 1;
    }
    let mut to: usize = s.len();
    while from < to && is_white_space(s[to - 1])
        invariant
            from <= to <= s.len(),
            end_of_text(s@, from as int, s.len() as int) == end_of_text(s@, from as int, to as int),
        decreases to - from,
    {
        to -= 1;
    }
    slice_subrange(s, from, to)
}

/// The text before the first `c` and the text after it, where `c` occurs.
pub fn split_at_first(s: &[char], c: char) -> (parts: Option<(&[char], &[char])>)
    ensures
        match parts {
            Some((before, after)) => split_once(s@, c) == Some((before@, after@)),
            None => split_once(s@, c) is None,
        },
{
    let mut at: usize = 0;
    while at < s.len()
        invariant
            at <= s.len(),
            find(s@, c, 0) == find(s@, c, at as int),
        decreases s.len() - at,
    {
        if s[at] == c {
            return Some((slice_subrange(s, 0, at), slice_subrange(s, at + 1, s.len())));
        }
        at += 1;
    }
    None
}

/// Whether two texts are the same but for the case of ASCII letters.
pub fn same_ignoring_ascii_case(a: &[char], b: &[char]) -> (same: bool)
    ensures
        same == (lowered(a@) == lowered(b@)),
{
    if a.len() != b.len() {
        assert(lowered(a@).len() != lowered(b@).len());
        return false;
    }
    let mut i: usize = 0;
    while i < a.len()
        invariant
            i <= a.len(),
            a.len() == b.len(),
            forall|k: int| 0 <= k < i ==> ascii_lower(a@[k]) == ascii_lower(b@[k]),
        decreases a.len() - i,
    {
        if !same_letter(a[i], b[i]) {
            assert(lowered(a@)[i as int] != lowered(b@)[i as int]);
            return false;
        }
        i += 1;
    }
    assert(lowered(a@) =~= lowered(b@));
    true
}

/// Whether two texts are the same.
pub fn same_chars(a: &[char], b: &[char]) -> (same: bool)
    ensures
        same == (a@ == b@),
{
    if a.len() != b.len() {
        return false;
    }
    let mut i: usize = 0;
    while i < a.len()
        invariant
            i <= a.len(),
            a.len() == b.len(),
            forall|k: int| 0 <= k < i ==> a@[k] == b@[k],
        decreases a.len() - i,
    {
        if a[i] != b[i] {
            return false;
        }
        i += 1;
    }
    assert(a@ =~= b@);
    true
}

/// Whether the characters of a line accept the licence.
pub fn accepts(line: &[char]) -> (accepted: bool)
    ensures
        accepted == eula_accepted(line@),
{
    match split_at_first(trim(line), '=') {
        Some((key, value)) => {
            let wanted_key = chars_of("eula");
            let wanted_value = chars_of("true");
            same_chars(trim(key), wanted_key.as_slice()) && same_ignoring_ascii_case(
                trim(value),
                wanted_value.as_slice(),
            )
        },
        None => false,
    }
}

/// Whether a line accepts the licence.
pub fn is_eula_accepted(line: &str) -> (accepted: bool)
    ensures
        accepted == eula_accepted(line@),
{
    let chars = chars_of(line);
    accepts(chars.as_slice())
}

/// Among the lines of `s` that end at or before `end`, the one that begins at
/// `start` is the only one that ends at or after `start`, where `start..end`
/// holds no line feed and `start` begins a line.
proof fn lemma_only_line(s: Seq<char>, start: int, end: int, lo: int, hi: int)
    requires
        0 <= start <= end <= s.len(),
        start == 0 || s[start - 1] == '\n',
        forall|k: int| start <= k < end ==> s[k] != '\n',
        is_line(s, lo, hi),
        start <= hi <= end,
    ensures
        lo == start,
        hi == end,
{
    if hi < end {
        assert(s[hi] == '\n');
    }
    if lo < start {
        assert(s[start - 1] == '\n');
    } else if lo > start {
        assert(s[lo - 1] == '\n');
    }
}

/// Whether some line of a licence file accepts the licence.
pub fn accepted_in(content: &str) -> (accepted: bool)
    ensures
        accepted == eula_accepted_in(content@),
{
    let chars = chars_of(content);
    let text = chars.as_slice();
    let mut start: usize = 0;
    let mut at: usize = 0;
    while at < text.len()
        invariant
            start <= at <= text.len(),
            text@ == content@,
            start == 0 || text@[start - 1] == '\n',
            forall|k: int| start <= k < at ==> text@[k] != '\n',
            forall|lo: int, hi: int|
                is_line(text@, lo, hi) && hi < start ==> !eula_accepted(
                    #[trigger] text@.subrange(lo, hi),
                ),
        decreases text.len() - at,
    {
        if text[at] == '\n' {
            assert(is_line(text@, start as int, at as int));
            if accepts(slice_subrange(text, start, at)) {
                return true;
            }
            assert forall|lo: int, hi: int| is_line(text@, lo, hi) && hi < at + 1 implies !eula_accepted(
                #[trigger] text@.subrange(lo, hi),
            ) by {
                if hi >= start {
                    lemma_only_line(text@, start as int, at as int, lo, hi);
                }
            }
            start = at + 1;
        }
        at += 1;
    }
    assert(is_line(text@, start as int, text@.len() as int));
    if accepts(slice_subrange(text, start, text.len())) {
        return true;
    }
    assert forall|lo: int, hi: int| is_line(text@, lo, hi) implies !eula_accepted(
        #[trigger] text@.subrange(lo, hi),
    ) by {
        if hi >= start {
            lemma_only_line(text@, start as int, text@.len() as int, lo, hi);
        }
    }
    false
}

/// The licence file that accepts the licence, dated `date`.
pub fn eula_text(date: &str) -> (text: String)
    ensures
        text@ == eula_text_of(date@),
{
    let mut text = "#".to_owned();
    text.append(EULA_HEADER);
    text.append("\n#");
    text.append(date);
    text.append("\neula=true\n");
    text
}

} // verus!
