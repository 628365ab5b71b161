//! Character and UTF-8 byte-offset helpers shared by the text scanners.

use vstd::prelude::*;
use vstd::utf8::*;

verus! {

/// Number of bytes of the UTF-8 encoding of `c`.
pub open spec fn utf8_width(c: char) -> nat {
    if (c as u32) <= 0x7F {
        1
    } else if (c as u32) <= 0x7FF {
        2
    } else if (c as u32) <= 0xFFFF {
        3
    } else {
        4
    }
}

/// Number of bytes of the UTF-8 encoding of a character sequence.
pub open spec fn utf8_len(cs: Seq<char>) -> nat
    decreases cs.len(),
{
    if cs.len() == 0 {
        0
    } else {
        utf8_width(cs[0]) + utf8_len(cs.drop_first())
    }
}

/// Byte offset of the character at index `i` of `cs`.
pub open spec fn byte_at(cs: Seq<char>, i: int) -> nat {
    utf8_len(cs.take(i))
}

/// The encoding of one character has `utf8_width` bytes.
pub proof fn lemma_width_is_encoding_len(c: char)
    ensures
        encode_scalar(c as u32).len() == utf8_width(c),
{
    char_is_scalar(c);
}

/// `utf8_len` is the length of vstd's UTF-8 encoding.
pub proof fn lemma_utf8_len_is_encoding_len(cs: Seq<char>)
    ensures
        utf8_len(cs) == encode_utf8(cs).len(),
    decreases cs.len(),
{
    if cs.len() > 0 {
        lemma_width_is_encoding_len(cs[0]);
        lemma_utf8_len_is_encoding_len(cs.drop_first());
    }
}

/// The byte length of a concatenation is the sum of the byte lengths.
pub proof fn lemma_utf8_len_concat(a: Seq<char>, b: Seq<char>)
    ensures
        utf8_len(a + b) == utf8_len(a) + utf8_len(b),
    decreases a.len(),
{
    if a.len() > 0 {
        assert((a + b).drop_first() =~= a.drop_first() + b);
        lemma_utf8_len_concat(a.drop_first(), b);
    } else {
        assert(a + b =~= b);
    }
}

/// Moving one character forward advances the byte offset by its width.
pub proof fn lemma_byte_at_step(cs: Seq<char>, i: int)
    requires
        0 <= i < cs.len(),
    ensures
        byte_at(cs, i + 1) == byte_at(cs, i) + utf8_width(cs[i]),
{
    let one = seq![cs[i]];
    assert(cs.take(i + 1) =~= cs.take(i) + one);
    lemma_utf8_len_concat(cs.take(i), one);
    assert(one.drop_first() =~= Seq::<char>::empty());
    assert(utf8_len(one.drop_first()) == 0);
    assert(utf8_len(one) == utf8_width(cs[i]));
}

/// Byte offsets grow with the character index and stay within the string.
pub proof fn lemma_byte_at_mono(cs: Seq<char>, i: int, j: int)
    requires
        0 <= i <= j <= cs.len(),
    ensures
        byte_at(cs, i) <= byte_at(cs, j) <= utf8_len(cs),
        i < j ==> byte_at(cs, i) < byte_at(cs, j),
{
    assert(cs.take(j) =~= cs.take(i) + cs.subrange(i, j));
    lemma_utf8_len_concat(cs.take(i), cs.subrange(i, j));
    assert(cs =~= cs.take(j) + cs.skip(j));
    lemma_utf8_len_concat(cs.take(j), cs.skip(j));
    if i < j {
        assert(cs.subrange(i, j).len() > 0);
    }
}

/// Byte width of one character, computed.
pub fn char_width(c: char) -> (w: usize)
    ensures
        w == utf8_width(c),
{
    let v = c as u32;
    if v <= 0x7F {
        1
    } else if v <= 0x7FF {
        2
    } else if v <= 0xFFFF {
        3
    } else {
        4
    }
}

/// The characters of `s`, in order.
pub fn chars_of(s: &str) -> (cs: Vec<char>)
    ensures
        cs@ == s@,
{
    broadcast use vstd::string::group_string_axioms;
    let mut cs: Vec<char> = Vec::new();
    for c in it: s.chars()
        invariant
            cs@ == it.seq().take(it.index() as int),
    {
        cs.push(c);
    }
    cs
}

/// Byte offsets of every character boundary of `s` (one per character,
/// plus the final length), given the characters of `s`.
pub fn char_offsets(s: &str, cs: &Vec<char>) -> (offs: Vec<usize>)
    requires
        cs@ == s@,
    ensures
        offs.len() == cs.len() + 1,
        forall|k: int| 0 <= k <= cs.len() ==> #[trigger] offs@[k] == byte_at(cs@, k),
        utf8_len(cs@) <= usize::MAX,
{
    let bytes = s.as_bytes();
    let blen = bytes.len();
    proof {
        lemma_utf8_len_is_encoding_len(s@);
        assert(cs@.take(cs@.len() as int) =~= cs@);
    }
    let mut offs: Vec<usize> = Vec::new();
    offs.push(0);
    assert(cs@.take(0) =~= Seq::<char>::empty());
    let mut i: usize = 0;
    let mut pos: usize = 0;
    while i < cs.len()
        invariant
            i <= cs.len(),
            cs@ == s@,
            blen == utf8_len(cs@),
            pos == byte_at(cs@, i as int),
            offs.len() == i + 1,
            forall|k: int| 0 <= k <= i ==> #[trigger] offs@[k] == byte_at(cs@, k),
        decreases cs.len() - i,
    {
        proof {
            lemma_byte_at_step(cs@, i as int);
            lemma_byte_at_mono(cs@, i as int + 1, cs@.len() as int);
        }
        pos = pos + char_width(cs[i]);
        offs.push(pos);
        i = i + 1;
    }
    offs
}

/// Length of `s` in bytes (its UTF-8 length).
pub fn byte_len(s: &str) -> (n: usize)
    ensures
        n == utf8_len(s@),
{
    proof {
        lemma_utf8_len_is_encoding_len(s@);
    }
    s.as_bytes().len()
}

/// A `String` holding exactly the characters `cs`.
///
/// Trusted: calls std's `String::from_iter` over the characters, which
/// collects them in order.
#[verifier::external_body]
pub(crate) fn string_from_chars(cs: &Vec<char>) -> (s: String)
    ensures
        s@ == cs@,
{
    String::from_iter(cs.iter())
}

/// An owned copy of `s`.
pub fn to_owned_string(s: &str) -> (r: String)
    ensures
        r@ == s@,
{
    s.to_owned()
}

/// Unicode `White_Space` code points (what `char::is_whitespace` tests).
pub open spec fn spec_is_whitespace(c: char) -> bool {
    let v = c as u32;
    ||| 0x09 <= v <= 0x0D
    ||| v == 0x20 || v == 0x85 || v == 0xA0 || v == 0x1680
    ||| 0x2000 <= v <= 0x200A
    ||| v == 0x2028 || v == 0x2029 || v == 0x202F || v == 0x205F || v == 0x3000
}

pub fn is_whitespace(c: char) -> (b: bool)
    ensures
        b == spec_is_whitespace(c),
{
    let v = c as u32;
    (0x09 <= v && v <= 0x0D) || v == 0x20 || v == 0x85 || v == 0xA0 || v == 0x1680 || (0x2000
        <= v && v <= 0x200A) || v == 0x2028 || v == 0x2029 || v == 0x202F || v == 0x205F || v
        == 0x3000
}

/// Index of the first non-whitespace character at or after `i`.
pub open spec fn trim_start_at(cs: Seq<char>, i: int) -> int
    decreases cs.len() - i,
{
    if i < 0 || i >= cs.len() || !spec_is_whitespace(cs[i]) {
        i
    } else {
        trim_start_at(cs, i + 1)
    }
}

/// One past the last non-whitespace character before `j`.
pub open spec fn trim_end_at(cs: Seq<char>, j: int) -> int
    decreases j,
{
    if j <= 0 || j > cs.len() || !spec_is_whitespace(cs[j - 1]) {
        j
    } else {
        trim_end_at(cs, j - 1)
    }
}

/// `cs` without leading and trailing whitespace (what `str::trim` keeps).
pub open spec fn spec_trim(cs: Seq<char>) -> Seq<char> {
    let a = trim_start_at(cs, 0);
    let b = trim_end_at(cs, cs.len() as int);
    if a < b {
        cs.subrange(a, b)
    } else {
        Seq::empty()
    }
}

proof fn lemma_trim_start_bounds(cs: Seq<char>, i: int)
    requires
        0 <= i <= cs.len(),
    ensures
        i <= trim_start_at(cs, i) <= cs.len(),
    decreases cs.len() - i,
{
    if i < cs.len() && spec_is_whitespace(cs[i]) {
        lemma_trim_start_bounds(cs, i + 1);
    }
}

proof fn lemma_trim_end_bounds(cs: Seq<char>, j: int)
    requires
        0 <= j <= cs.len(),
    ensures
        0 <= trim_end_at(cs, j) <= j,
    decreases j,
{
    if j > 0 && spec_is_whitespace(cs[j - 1]) {
        lemma_trim_end_bounds(cs, j - 1);
    }
}

/// A sequence that neither starts nor ends with whitespace is its own trim.
pub proof fn lemma_trim_plain(cs: Seq<char>)
    requires
        cs.len() > 0,
        !spec_is_whitespace(cs[0]),
        !spec_is_whitespace(cs[cs.len() - 1]),
    ensures
        spec_trim(cs) == cs,
{
    assert(trim_start_at(cs, 0) == 0);
    assert(trim_end_at(cs, cs.len() as int) == cs.len());
    assert(cs.subrange(0, cs.len() as int) =~= cs);
}

/// `cs` without leading and trailing whitespace.
pub fn trim_seq(cs: &Vec<char>) -> (t: Vec<char>)
    ensures
        t@ == spec_trim(cs@),
{
    let n = cs.len();
    let mut a: usize = 0;
    while a < n && is_whitespace(cs[a])
        invariant
            a <= n,
            n == cs.len(),
            trim_start_at(cs@, a as int) == trim_start_at(cs@, 0),
        decreases n - a,
    {
        a = a + 1;
    }
    let mut b: usize = n;
    while b > 0 && is_whitespace(cs[b - 1])
        invariant
            b <= n,
            n == cs.len(),
            trim_end_at(cs@, b as int) == trim_end_at(cs@, n as int),
        decreases b,
    {
        b = b - 1;
    }
    if a < b {
        sub_vec(cs, a, b)
    } else {
        Vec::new()
    }
}

/// `cs` without trailing whitespace (what `str::trim_end` keeps).
pub open spec fn spec_trim_end(cs: Seq<char>) -> Seq<char> {
    cs.take(trim_end_at(cs, cs.len() as int))
}

/// `cs` without trailing whitespace.
pub fn trim_end_seq(cs: &Vec<char>) -> (t: Vec<char>)
    ensures
        t@ == spec_trim_end(cs@),
{
    let n = cs.len();
    let mut b: usize = n;
    while b > 0 && is_whitespace(cs[b - 1])
        invariant
            b <= n,
            n == cs.len(),
            trim_end_at(cs@, b as int) == trim_end_at(cs@, n as int),
        decreases b,
    {
        b = b - 1;
    }
    let t = sub_vec(cs, 0, b);
    proof {
        assert(t@ =~= cs@.take(b as int));
    }
    t
}

/// The characters of `s` without leading and trailing whitespace.
pub fn trim_chars(s: &str) -> (t: Vec<char>)
    ensures
        t@ == spec_trim(s@),
{
    let cs = chars_of(s);
    trim_seq(&cs)
}

/// A copy of `cs[a..b]`.
pub fn sub_vec(cs: &Vec<char>, a: usize, b: usize) -> (t: Vec<char>)
    requires
        a <= b <= cs.len(),
    ensures
        t@ == cs@.subrange(a as int, b as int),
{
    let mut t: Vec<char> = Vec::new();
    let mut k = a;
    while k < b
        invariant
            a <= k <= b,
            b <= cs.len(),
            t@ == cs@.subrange(a as int, k as int),
        decreases b - k,
    {
        t.push(cs[k]);
        k = k + 1;
    }
    t
}

/// Appends the characters of `s` to `out`.
pub fn push_str(out: &mut Vec<char>, s: &str)
    ensures
        final(out)@ == old(out)@ + s@,
{
    let cs = chars_of(s);
    let mut k: usize = 0;
    while k < cs.len()
        invariant
            k <= cs.len(),
            out@ == old(out)@ + cs@.take(k as int),
        decreases cs.len() - k,
    {
        out.push(cs[k]);
        k = k + 1;
        proof {
            assert(out@ =~= old(out)@ + cs@.take(k as int));
        }
    }
    proof {
        assert(cs@.take(cs.len() as int) =~= cs@);
    }
}

/// Index of the first `c` in `cs` at or after `from` (`cs.len()` when absent).
pub open spec fn index_of_from(cs: Seq<char>, c: char, from: int) -> int
    decreases cs.len() - from,
{
    if from < 0 || from >= cs.len() {
        cs.len() as int
    } else if cs[from] == c {
        from
    } else {
        index_of_from(cs, c, from + 1)
    }
}

pub proof fn lemma_index_of_from(cs: Seq<char>, c: char, from: int)
    requires
        0 <= from <= cs.len(),
    ensures
        from <= index_of_from(cs, c, from) <= cs.len(),
        index_of_from(cs, c, from) < cs.len() ==> cs[index_of_from(cs, c, from)] == c,
        forall|k: int| from <= k < index_of_from(cs, c, from) ==> cs[k] != c,
    decreases cs.len() - from,
{
    if from < cs.len() && cs[from] != c {
        lemma_index_of_from(cs, c, from + 1);
    }
}

/// The pieces of `cs` between line feeds (`k` line feeds give `k + 1`
/// pieces; the line feeds themselves are dropped).
pub open spec fn split_lines(cs: Seq<char>) -> Seq<Seq<char>>
    decreases cs.len(),
{
    let i = index_of_from(cs, '\n', 0);
    if i >= cs.len() {
        seq![cs]
    } else {
        proof {
            lemma_index_of_from(cs, '\n', 0);
        }
        seq![cs.take(i)] + split_lines(cs.skip(i + 1))
    }
}

/// The pieces of `s` between line feeds.
pub fn split_lines_of(s: &str) -> (lines: Vec<Vec<char>>)
    ensures
        lines.len() == split_lines(s@).len(),
        forall|k: int| 0 <= k < lines.len() ==> #[trigger] lines@[k]@ == split_lines(s@)[k],
{
    let cs = chars_of(s);
    let n = cs.len();
    let mut lines: Vec<Vec<char>> = Vec::new();
    let mut cur: Vec<char> = Vec::new();
    let mut start: usize = 0;
    let mut k: usize = 0;
    let ghost mut acc: Seq<Seq<char>> = Seq::empty();
    assert(cs@.skip(0) =~= cs@);
    assert(acc + split_lines(cs@.skip(0)) =~= split_lines(cs@));
    while k < n
        invariant
            start <= k <= n,
            n == cs.len(),
            cur@ == cs@.subrange(start as int, k as int),
            forall|j: int| start <= j < k ==> cs@[j] != '\n',
            split_lines(cs@) == acc + split_lines(cs@.skip(start as int)),
            lines.len() == acc.len(),
            forall|j: int| 0 <= j < lines.len() ==> #[trigger] lines@[j]@ == acc[j],
        decreases n - k,
    {
        if cs[k] == '\n' {
            proof {
                let rest = cs@.skip(start as int);
                let i = (k - start) as int;
                lemma_index_of_from(rest, '\n', 0);
                assert forall|j: int| 0 <= j < i implies rest[j] != '\n' by {
                    assert(rest[j] == cs@[start + j]);
                }
                assert(rest[i] == '\n');
                lemma_index_of_first(rest, '\n', i);
                assert(rest.take(i) =~= cur@);
                assert(rest.skip(i + 1) =~= cs@.skip(k as int + 1));
                assert(acc + split_lines(rest) =~= acc.push(cur@) + split_lines(cs@.skip(k as int + 1)));
            }
            let line = cur;
            lines.push(line);
            proof {
                acc = acc.push(line@);
            }
            cur = Vec::new();
            start = k + 1;
        } else {
            cur.push(cs[k]);
        }
        k = k + 1;
    }
    proof {
        let rest = cs@.skip(start as int);
        lemma_index_of_from(rest, '\n', 0);
        assert forall|j: int| 0 <= j < rest.len() implies rest[j] != '\n' by {
            assert(rest[j] == cs@[start + j]);
        }
        lemma_index_of_absent(rest, '\n', 0);
        assert(rest =~= cur@);
        assert(split_lines(rest) == seq![rest]);
        assert(acc + split_lines(rest) =~= acc.push(cur@));
    }
    let last = cur;
    lines.push(last);
    lines
}

proof fn lemma_index_of_first(cs: Seq<char>, c: char, i: int)
    requires
        0 <= i < cs.len(),
        cs[i] == c,
        forall|j: int| 0 <= j < i ==> cs[j] != c,
    ensures
        index_of_from(cs, c, 0) == i,
{
    lemma_index_of_from(cs, c, 0);
}

proof fn lemma_index_of_absent(cs: Seq<char>, c: char, from: int)
    requires
        0 <= from <= cs.len(),
        forall|j: int| from <= j < cs.len() ==> cs[j] != c,
    ensures
        index_of_from(cs, c, from) == cs.len(),
{
    lemma_index_of_from(cs, c, from);
}

} // verus!
