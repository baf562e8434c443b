//! Text as a sequence of characters: byte offsets, prefixes, trimming and
//! splitting, each stated over the characters of the string.

use vstd::prelude::*;
use vstd::slice::*;
use vstd::string::*;
use vstd::utf8::*;

verus! {

/// Number of bytes that `c` takes in UTF-8.
pub open spec fn utf8_width(c: char) -> nat {
    if c as u32 <= 0x7f {
        1
    } else if c as u32 <= 0x7ff {
        2
    } else if c as u32 <= 0xffff {
        3
    } else {
        4
    }
}

/// Number of bytes that the characters `s` take in UTF-8.
pub open spec fn byte_len(s: Seq<char>) -> nat
    decreases s.len(),
{
    if s.len() == 0 {
        0
    } else {
        byte_len(s.drop_last()) + utf8_width(s.last())
    }
}

/// Whether the byte offset `b` falls between two characters of `s` (or at an end).
pub open spec fn is_boundary(s: Seq<char>, b: int) -> bool {
    exists|k: int| 0 <= k <= s.len() && byte_len(#[trigger] s.take(k)) == b
}

/// Number of characters of `s` before the byte offset `b`.
pub open spec fn char_index(s: Seq<char>, b: int) -> int {
    choose|k: int| 0 <= k <= s.len() && byte_len(#[trigger] s.take(k)) == b
}

pub proof fn lemma_byte_len_add(a: Seq<char>, b: Seq<char>)
    ensures
        byte_len(a + b) == byte_len(a) + byte_len(b),
    decreases b.len(),
{
    if b.len() == 0 {
        assert(a + b =~= a);
    } else {
        lemma_byte_len_add(a, b.drop_last());
        assert((a + b).drop_last() =~= a + b.drop_last());
    }
}

pub proof fn lemma_byte_len_take(s: Seq<char>, j: int, k: int)
    requires
        0 <= j <= k <= s.len(),
    ensures
        byte_len(s.take(j)) + (k - j) <= byte_len(s.take(k)),
        byte_len(s.take(k)) <= byte_len(s.take(j)) + 4 * (k - j),
    decreases k - j,
{
    if j < k {
        lemma_byte_len_take(s, j, k - 1);
        assert(s.take(k).drop_last() =~= s.take(k - 1));
    }
}

/// A boundary belongs to exactly one character position.
pub proof fn lemma_char_index(s: Seq<char>, k: int)
    requires
        0 <= k <= s.len(),
    ensures
        is_boundary(s, byte_len(s.take(k)) as int),
        char_index(s, byte_len(s.take(k)) as int) == k,
        byte_len(s.take(k)) <= byte_len(s),
{
    let b = byte_len(s.take(k)) as int;
    let j = char_index(s, b);
    assert(0 <= j <= s.len() && byte_len(s.take(j)) == b);
    if j < k {
        lemma_byte_len_take(s, j, k);
    } else if k < j {
        lemma_byte_len_take(s, k, j);
    }
    lemma_byte_len_take(s, k, s.len() as int);
    assert(s.take(s.len() as int) =~= s);
}

/// The character position of a boundary leads back to it.
pub proof fn lemma_boundary(s: Seq<char>, b: int)
    requires
        is_boundary(s, b),
    ensures
        0 <= char_index(s, b) <= s.len(),
        byte_len(s.take(char_index(s, b))) == b,
        0 <= b <= byte_len(s),
{
    lemma_char_index(s, char_index(s, b));
}

/// Offsets and character positions are in the same order.
pub proof fn lemma_char_index_order(s: Seq<char>, a: int, b: int)
    requires
        is_boundary(s, a),
        is_boundary(s, b),
    ensures
        a < b <==> char_index(s, a) < char_index(s, b),
        a == b <==> char_index(s, a) == char_index(s, b),
{
    lemma_boundary(s, a);
    lemma_boundary(s, b);
    let j = char_index(s, a);
    let k = char_index(s, b);
    if j <= k {
        lemma_byte_len_take(s, j, k);
    } else {
        lemma_byte_len_take(s, k, j);
    }
}

/// The two ends of a text are boundaries.
pub proof fn lemma_ends_are_boundaries(s: Seq<char>)
    ensures
        is_boundary(s, 0),
        char_index(s, 0) == 0,
        is_boundary(s, byte_len(s) as int),
        char_index(s, byte_len(s) as int) == s.len(),
{
    lemma_char_index(s, 0);
    lemma_char_index(s, s.len() as int);
    assert(s.take(s.len() as int) =~= s);
    assert(s.take(0) =~= Seq::<char>::empty());
}

/// The length of the UTF-8 encoding is the sum of the widths.
pub proof fn lemma_byte_len_is_encoded_len(s: Seq<char>)
    ensures
        byte_len(s) == encode_utf8(s).len(),
    decreases s.len(),
{
    if s.len() > 0 {
        lemma_byte_len_is_encoded_len(s.drop_first());
        lemma_byte_len_add(seq![s[0]], s.drop_first());
        assert(seq![s[0]] + s.drop_first() =~= s);
        assert(seq![s[0]].drop_last() =~= Seq::<char>::empty());
        assert(byte_len(seq![s[0]]) == utf8_width(s[0])) by {
            reveal_with_fuel(byte_len, 2);
        }
        char_is_scalar(s[0]);
    }
}

/// Number of bytes that `c` takes in UTF-8.
pub fn char_width(c: char) -> (r: usize)
    ensures
        r == utf8_width(c),
{
    let code: u32 = c as u32;
    if code <= 0x7f {
        1
    } else if code <= 0x7ff {
        2
    } else if code <= 0xffff {
        3
    } else {
        4
    }
}

/// Length of `s` in bytes.
pub fn byte_length(s: &str) -> (r: usize)
    ensures
        r == byte_len(s@),
{
    let bytes = s.as_bytes();
    proof {
        lemma_byte_len_is_encoded_len(s@);
    }
    bytes.len()
}

/// The characters of `s`.
pub fn chars_of(s: &str) -> (r: Vec<char>)
    ensures
        r@ == s@,
{
    let mut result: Vec<char> = Vec::new();
    for c in it: s.chars()
        invariant
            it.seq() == s@,
            result@ == s@.take(it.index() as int),
    {
        result.push(c);
        assert(result@ =~= s@.take(it.index() + 1));
    }
    assert(s@.take(s@.len() as int) =~= s@);
    result
}

/// Appends one character (`String::push` of std: the text ends in `c`, and is
/// otherwise what it was).
#[verifier::external_body]
pub(crate) fn push_char(s: &mut String, c: char)
    ensures
        final(s)@ == old(s)@.push(c),
{
    s.push(c);
}

/// One character as text.
pub fn char_text(c: char) -> (r: String)
    ensures
        r@ == seq![c],
{
    let mut result = String::new();
    push_char(&mut result, c);
    assert(result@ =~= seq![c]);
    result
}

/// The text that consists of `chars`.
pub fn string_of(chars: &[char]) -> (r: String)
    ensures
        r@ == chars@,
{
    let mut result = String::new();
    let mut i: usize = 0;
    while i < chars.len()
        invariant
            i <= chars@.len(),
            result@ == chars@.take(i as int),
        decreases chars@.len() - i,
    {
        push_char(&mut result, chars[i]);
        i += 1;
        assert(result@ =~= chars@.take(i as int));
    }
    assert(chars@.take(i as int) =~= chars@);
    result
}

/// Byte offset of the character at position `k`.
pub fn byte_offset(s: &str, k: usize) -> (r: usize)
    requires
        k <= s@.len(),
    ensures
        r == byte_len(s@.take(k as int)),
        is_boundary(s@, r as int),
        char_index(s@, r as int) == k,
        r <= byte_len(s@),
{
    let prefix = s.substring_char(0, k);
    assert(prefix@ =~= s@.take(k as int));
    proof {
        lemma_char_index(s@, k as int);
    }
    byte_length(prefix)
}

/// Position of the character at the byte offset `b`.
pub fn char_position(s: &str, b: usize) -> (r: usize)
    requires
        is_boundary(s@, b as int),
    ensures
        r == char_index(s@, b as int),
        r <= s@.len(),
        byte_len(s@.take(r as int)) == b,
{
    let chars = chars_of(s);
    let total: usize = byte_length(s);
    proof {
        lemma_boundary(s@, b as int);
    }
    let ghost k = char_index(s@, b as int);
    let mut i: usize = 0;
    let mut at: usize = 0;
    assert(s@.take(0) =~= Seq::<char>::empty());
    while at < b
        invariant
            chars@ == s@,
            s@.len() == chars.len(),
            total == byte_len(s@),
            0 <= i <= k <= s@.len(),
            at == byte_len(s@.take(i as int)),
            byte_len(s@.take(k)) == b,
            b <= total,
        decreases k - i,
    {
        proof {
            lemma_byte_len_take(s@, i as int, k);
            if i == k {
                assert(false);
            }
            lemma_byte_len_take(s@, i + 1, k);
            assert(s@.take(i + 1).drop_last() =~= s@.take(i as int));
            lemma_byte_len_take(s@, k, s@.len() as int);
            assert(s@.take(s@.len() as int) =~= s@);
        }
        at += char_width(chars[i]);
        i += 1;
    }
    proof {
        lemma_byte_len_take(s@, i as int, k);
    }
    i
}

/// Whether the byte offset `b` falls between two characters of `s`.
pub fn at_boundary(s: &str, b: usize) -> (r: bool)
    ensures
        r == is_boundary(s@, b as int),
{
    let chars = chars_of(s);
    let total: usize = byte_length(s);
    let mut i: usize = 0;
    let mut at: usize = 0;
    assert(s@.take(0) =~= Seq::<char>::empty());
    while at < b && i < chars.len()
        invariant
            chars@ == s@,
            total == byte_len(s@),
            i <= s@.len(),
            at == byte_len(s@.take(i as int)),
            forall|k: int| 0 <= k < i ==> byte_len(#[trigger] s@.take(k)) < b,
        decreases s@.len() - i,
    {
        proof {
            assert(s@.take(i + 1).drop_last() =~= s@.take(i as int));
            lemma_byte_len_take(s@, i + 1, s@.len() as int);
            assert(s@.take(s@.len() as int) =~= s@);
        }
        at += char_width(chars[i]);
        i += 1;
    }
    proof {
        if is_boundary(s@, b as int) {
            lemma_boundary(s@, b as int);
            let k = char_index(s@, b as int);
            assert(k >= i);
            lemma_byte_len_take(s@, i as int, k);
        } else {
            assert(at != b) by {
                if at == b {
                    assert(byte_len(s@.take(i as int)) == b);
                }
            }
        }
    }
    at == b
}

/// The characters of `s` from position `from` up to `to`.
pub fn slice<'a>(s: &'a str, from: usize, to: usize) -> (r: &'a str)
    requires
        from <= to <= s@.len(),
    ensures
        r@ == s@.subrange(from as int, to as int),
{
    s.substring_char(from, to)
}

/// Number of characters of `s`.
pub fn char_count(s: &str) -> (r: usize)
    ensures
        r == s@.len(),
{
    s.unicode_len()
}

/// Whether `a` and `b` hold the same characters.
pub fn same(a: &str, b: &str) -> (r: bool)
    ensures
        r == (a@ == b@),
{
    let x = chars_of(a);
    let y = chars_of(b);
    if x.len() != y.len() {
        return false;
    }
    let mut i: usize = 0;
    while i < x.len()
        invariant
            x@ == a@,
            y@ == b@,
            x@.len() == y@.len(),
            i <= x@.len(),
            forall|j: int| 0 <= j < i ==> x@[j] == y@[j],
        decreases x@.len() - i,
    {
        if x[i] != y[i] {
            return false;
        }
        i += 1;
    }
    assert(a@ =~= b@);
    true
}

/// `a` followed by `b`.
pub fn join2(a: &str, b: &str) -> (r: String)
    ensures
        r@ == a@ + b@,
{
    let mut result = a.to_owned();
    result.append(b);
    result
}

/// The three texts one after the other.
pub fn join3(a: &str, b: &str, c: &str) -> (r: String)
    ensures
        r@ == a@ + b@ + c@,
{
    let mut result = a.to_owned();
    result.append(b);
    result.append(c);
    result
}

/// The four texts one after the other.
pub fn join4(a: &str, b: &str, c: &str, d: &str) -> (r: String)
    ensures
        r@ == a@ + b@ + c@ + d@,
{
    let mut result = a.to_owned();
    result.append(b);
    result.append(c);
    result.append(d);
    result
}

/// The five texts one after the other.
pub fn join5(a: &str, b: &str, c: &str, d: &str, e: &str) -> (r: String)
    ensures
        r@ == a@ + b@ + c@ + d@ + e@,
{
    let mut result = a.to_owned();
    result.append(b);
    result.append(c);
    result.append(d);
    result.append(e);
    result
}

/// The six texts one after the other.
pub fn join6(a: &str, b: &str, c: &str, d: &str, e: &str, f: &str) -> (r: String)
    ensures
        r@ == a@ + b@ + c@ + d@ + e@ + f@,
{
    let mut result = a.to_owned();
    result.append(b);
    result.append(c);
    result.append(d);
    result.append(e);
    result.append(f);
    result
}

/// The seven texts one after the other.
pub fn join7(a: &str, b: &str, c: &str, d: &str, e: &str, f: &str, g: &str) -> (r: String)
    ensures
        r@ == a@ + b@ + c@ + d@ + e@ + f@ + g@,
{
    let mut result = a.to_owned();
    result.append(b);
    result.append(c);
    result.append(d);
    result.append(e);
    result.append(f);
    result.append(g);
    result
}

/// The eight texts one after the other.
pub fn join8(a: &str, b: &str, c: &str, d: &str, e: &str, f: &str, g: &str, h: &str) -> (r: String)
    ensures
        r@ == a@ + b@ + c@ + d@ + e@ + f@ + g@ + h@,
{
    let mut result = a.to_owned();
    result.append(b);
    result.append(c);
    result.append(d);
    result.append(e);
    result.append(f);
    result.append(g);
    result.append(h);
    result
}

} // verus!
