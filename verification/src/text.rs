//! Text helpers shared by the collector, the resolver and the emitter:
//! character access, equality, splitting on a separator and the byte order
//! by which catalogue names are sorted.

use vstd::prelude::*;
use vstd::string::StrSliceExecFns;
use vstd::utf8::encode_utf8;
use vstd::utf8::encode_utf8_decode_utf8;

verus! {

/// The texts held by a sequence of strings.
pub open spec fn texts(v: Seq<String>) -> Seq<Seq<char>> {
    Seq::new(v.len(), |i: int| v[i]@)
}

/// Whether `needle` is one of the texts held by `v`.
pub open spec fn holds_text(v: Seq<String>, needle: Seq<char>) -> bool {
    exists|i: int| 0 <= i < v.len() && #[trigger] v[i]@ == needle
}

/// The texts of a sequence with one more string.
pub proof fn lemma_texts_push(v: Seq<String>, s: String)
    ensures
        texts(v.push(s)) == texts(v).push(s@),
{
    assert(texts(v.push(s)) =~= texts(v).push(s@));
}

/// The texts of the first `i + 1` strings.
pub proof fn lemma_texts_take(v: Seq<String>, i: int)
    requires
        0 <= i < v.len(),
    ensures
        texts(v.take(i + 1)) == texts(v.take(i)).push(v[i]@),
{
    assert(texts(v.take(i + 1)) =~= texts(v.take(i)).push(v[i]@));
}

/// The position of the first `sep` in `s` at or after `from`, or `s.len()`
/// when there is none.
pub open spec fn next_separator(s: Seq<char>, sep: char, from: int) -> int
    decreases s.len() - from,
{
    if from >= s.len() {
        s.len() as int
    } else if s[from] == sep {
        from
    } else {
        next_separator(s, sep, from + 1)
    }
}

/// The segments of `s` between occurrences of `sep`, starting at `from`.
pub open spec fn split_from(s: Seq<char>, sep: char, from: int) -> Seq<Seq<char>>
    decreases s.len() - from,
{
    let end = next_separator(s, sep, from);
    if from < 0 || from > s.len() || end < from {
        Seq::empty()
    } else if end >= s.len() {
        seq![s.subrange(from, s.len() as int)]
    } else {
        seq![s.subrange(from, end)] + split_from(s, sep, end + 1)
    }
}

/// The segments of `s` between occurrences of `sep`: one more segment than
/// there are separators, empty segments included.
pub open spec fn split(s: Seq<char>, sep: char) -> Seq<Seq<char>> {
    split_from(s, sep, 0)
}

/// Byte-wise lexicographic order from position `i` on, given that the two
/// sequences agree before `i`.
pub open spec fn bytes_before(a: Seq<u8>, b: Seq<u8>, i: int) -> bool
    decreases b.len() - i,
{
    if i >= b.len() {
        false
    } else if i >= a.len() {
        true
    } else if a[i] != b[i] {
        a[i] < b[i]
    } else {
        bytes_before(a, b, i + 1)
    }
}

/// The order of names: lexicographic on their UTF-8 bytes, which is the order
/// of `str`.
pub open spec fn name_before(a: Seq<char>, b: Seq<char>) -> bool {
    bytes_before(encode_utf8(a), encode_utf8(b), 0)
}

/// The next separator lies between `from` and the end, nothing before it is
/// the separator, and unless it is the end it is one.
pub proof fn lemma_next_separator_bounds(s: Seq<char>, sep: char, from: int)
    requires
        0 <= from <= s.len(),
    ensures
        from <= next_separator(s, sep, from) <= s.len(),
        next_separator(s, sep, from) < s.len() ==> s[next_separator(s, sep, from)] == sep,
        forall|j: int| from <= j < next_separator(s, sep, from) ==> s[j] != sep,
    decreases s.len() - from,
{
    if from < s.len() && s[from] != sep {
        lemma_next_separator_bounds(s, sep, from + 1);
    }
}

/// The segments put together again, with `sep` between them.
pub open spec fn joined(parts: Seq<Seq<char>>, sep: char) -> Seq<char>
    decreases parts.len(),
{
    if parts.len() == 0 {
        Seq::empty()
    } else if parts.len() == 1 {
        parts[0]
    } else {
        parts[0] + seq![sep] + joined(parts.drop_first(), sep)
    }
}

/// Splitting loses nothing and leaves no separator behind: the segments from
/// `from` on, joined by `sep`, are the text from `from` on, and no segment
/// holds `sep`.
pub proof fn lemma_split_joins_back(s: Seq<char>, sep: char, from: int)
    requires
        0 <= from <= s.len(),
    ensures
        split_from(s, sep, from).len() >= 1,
        joined(split_from(s, sep, from), sep) == s.subrange(from, s.len() as int),
        forall|k: int|
            0 <= k < split_from(s, sep, from).len() ==> !(#[trigger] split_from(
                s,
                sep,
                from,
            )[k]).contains(sep),
    decreases s.len() - from,
{
    lemma_next_separator_bounds(s, sep, from);
    let end = next_separator(s, sep, from);
    let parts = split_from(s, sep, from);
    if end >= s.len() {
        assert(parts[0] == s.subrange(from, s.len() as int));
    } else {
        lemma_split_joins_back(s, sep, end + 1);
        let rest = split_from(s, sep, end + 1);
        let first = s.subrange(from, end);
        assert(parts == seq![first] + rest);
        assert(parts.drop_first() =~= rest);
        assert(parts[0] == first);
        assert(first + seq![sep] + s.subrange(end + 1, s.len() as int) =~= s.subrange(
            from,
            s.len() as int,
        ));
        assert forall|k: int| 0 <= k < parts.len() implies !(#[trigger] parts[k]).contains(sep) by {
            if k > 0 {
                assert(parts[k] == rest[k - 1]);
            }
        }
    }
}

/// No byte sequence comes before itself.
pub proof fn lemma_bytes_before_irreflexive(a: Seq<u8>, i: int)
    requires
        0 <= i,
    ensures
        !bytes_before(a, a, i),
    decreases a.len() - i,
{
    if i < a.len() {
        lemma_bytes_before_irreflexive(a, i + 1);
    }
}

/// The byte order is transitive.
pub proof fn lemma_bytes_before_transitive(a: Seq<u8>, b: Seq<u8>, c: Seq<u8>, i: int)
    requires
        0 <= i,
        bytes_before(a, b, i),
        bytes_before(b, c, i),
    ensures
        bytes_before(a, c, i),
    decreases c.len() - i,
{
    if i < a.len() && i < b.len() && i < c.len() && a[i] == b[i] && b[i] == c[i] {
        lemma_bytes_before_transitive(a, b, c, i + 1);
    }
}

/// Of two byte sequences that differ from `i` on, one comes before the other.
pub proof fn lemma_bytes_before_total(a: Seq<u8>, b: Seq<u8>, i: int)
    requires
        0 <= i <= a.len(),
        i <= b.len(),
        !bytes_before(a, b, i),
        !bytes_before(b, a, i),
    ensures
        a.len() == b.len(),
        forall|j: int| i <= j < a.len() ==> a[j] == b[j],
    decreases a.len() - i,
{
    if i < a.len() && i < b.len() {
        lemma_bytes_before_total(a, b, i + 1);
    }
}

/// No name comes before itself.
pub proof fn lemma_name_before_irreflexive(a: Seq<char>)
    ensures
        !name_before(a, a),
{
    lemma_bytes_before_irreflexive(encode_utf8(a), 0);
}

/// The order of names is transitive.
pub proof fn lemma_name_before_transitive(a: Seq<char>, b: Seq<char>, c: Seq<char>)
    requires
        name_before(a, b),
        name_before(b, c),
    ensures
        name_before(a, c),
{
    lemma_bytes_before_transitive(encode_utf8(a), encode_utf8(b), encode_utf8(c), 0);
}

/// Of two different names, one comes before the other.
pub proof fn lemma_name_before_total(a: Seq<char>, b: Seq<char>)
    requires
        !name_before(a, b),
        !name_before(b, a),
    ensures
        a == b,
{
    lemma_bytes_before_total(encode_utf8(a), encode_utf8(b), 0);
    assert(encode_utf8(a) =~= encode_utf8(b));
    encode_utf8_decode_utf8(a);
    encode_utf8_decode_utf8(b);
}

/// The characters of `s`, in order.
pub fn chars_of(s: &str) -> (v: Vec<char>)
    ensures
        v@ == s@,
{
    let mut v: Vec<char> = Vec::new();
    for c in it: s.chars()
        invariant
            v@ == it.seq().take(it.index()),
            it.seq() == s@,
    {
        v.push(c);
    }
    v
}

/// Whether `c` occurs in `s`.
pub fn has_char(s: &str, c: char) -> (r: bool)
    ensures
        r == s@.contains(c),
{
    let chars = chars_of(s);
    let mut i: usize = 0;
    while i < chars.len()
        invariant
            0 <= i <= chars.len(),
            chars@ == s@,
            forall|k: int| 0 <= k < i ==> s@[k] != c,
        decreases chars.len() - i,
    {
        if chars[i] == c {
            return true;
        }
        i += 1;
    }
    false
}

/// Whether two strings hold the same text.
pub fn str_equal(a: &str, b: &str) -> (r: bool)
    ensures
        r == (a@ == b@),
{
    let x = a.as_bytes();
    let y = b.as_bytes();
    proof {
        encode_utf8_decode_utf8(a@);
        encode_utf8_decode_utf8(b@);
    }
    if x.len() != y.len() {
        return false;
    }
    let mut i: usize = 0;
    while i < x.len()
        invariant
            0 <= i <= x.len(),
            x.len() == y.len(),
            forall|j: int| 0 <= j < i ==> x@[j] == y@[j],
            x@ == encode_utf8(a@),
            y@ == encode_utf8(b@),
        decreases x.len() - i,
    {
        if x[i] != y[i] {
            return false;
        }
        i += 1;
    }
    assert(x@ =~= y@);
    true
}

/// Whether `a` sorts strictly before `b`.
pub fn name_less(a: &str, b: &str) -> (r: bool)
    ensures
        r == name_before(a@, b@),
{
    let x = a.as_bytes();
    let y = b.as_bytes();
    let mut i: usize = 0;
    while i < x.len() && i < y.len()
        invariant
            0 <= i <= x.len(),
            i <= y.len(),
            x@ == encode_utf8(a@),
            y@ == encode_utf8(b@),
            bytes_before(x@, y@, 0) == bytes_before(x@, y@, i as int),
        decreases x.len() - i,
    {
        if x[i] != y[i] {
            return x[i] < y[i];
        }
        i += 1;
    }
    i < y.len()
}

/// The part of `s` from character `from` up to character `to`.
pub fn piece(s: &str, from: usize, to: usize) -> (r: String)
    requires
        from <= to <= s@.len(),
    ensures
        r@ == s@.subrange(from as int, to as int),
{
    s.substring_char(from, to).to_owned()
}

/// Splits `s` at every `sep`.
pub fn split_on(s: &str, sep: char) -> (parts: Vec<String>)
    ensures
        texts(parts@) == split(s@, sep),
{
    let chars = chars_of(s);
    let n = chars.len();
    let mut parts: Vec<String> = Vec::new();
    let mut start: usize = 0;
    let mut i: usize = 0;
    while i < n
        invariant
            chars@ == s@,
            n == chars.len(),
            0 <= start <= i <= n,
            next_separator(s@, sep, start as int) == next_separator(s@, sep, i as int),
            texts(parts@) + split_from(s@, sep, start as int) == split(s@, sep),
        decreases n - i,
    {
        if chars[i] == sep {
            let p = piece(s, start, i);
            proof {
                assert(texts(parts@.push(p)) =~= texts(parts@) + seq![p@]);
                assert(texts(parts@) + (seq![p@] + split_from(s@, sep, i + 1)) =~= texts(parts@)
                    + seq![p@] + split_from(s@, sep, i + 1));
            }
            parts.push(p);
            start = i + 1;
        }
        i += 1;
    }
    let p = piece(s, start, n);
    proof {
        assert(texts(parts@.push(p)) =~= texts(parts@) + seq![p@]);
    }
    parts.push(p);
    parts
}

} // verus!
