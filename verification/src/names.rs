//! ASCII case-insensitive comparison of table names, on their UTF-8 bytes.
use vstd::prelude::*;
use vstd::utf8::encode_utf8;

verus! {

/// The ASCII lowercase of a byte: `A`..=`Z` become `a`..=`z`, every other
/// byte stays as it is.
pub open spec fn ascii_lower_byte(b: u8) -> u8 {
    if 65 <= b <= 90 {
        (b + 32) as u8
    } else {
        b
    }
}

/// The ASCII lowercase of a byte string.
pub open spec fn ascii_lowercase(bytes: Seq<u8>) -> Seq<u8> {
    bytes.map_values(|b: u8| ascii_lower_byte(b))
}

/// Two byte strings are equal once ASCII letters are lowered.
pub open spec fn bytes_eq_ignore_ascii_case(a: Seq<u8>, b: Seq<u8>) -> bool {
    &&& a.len() == b.len()
    &&& forall|i: int| 0 <= i < a.len() ==> ascii_lower_byte(#[trigger] a[i]) == ascii_lower_byte(b[i])
}

/// Two strings are an ASCII case-insensitive match.
pub open spec fn names_match(a: Seq<char>, b: Seq<char>) -> bool {
    bytes_eq_ignore_ascii_case(encode_utf8(a), encode_utf8(b))
}

/// A string in which no ASCII letter is upper case.
pub open spec fn has_no_ascii_upper(s: Seq<char>) -> bool {
    forall|i: int| 0 <= i < s.len() ==> !('A' <= #[trigger] s[i] <= 'Z')
}

pub fn ascii_lower(b: u8) -> (r: u8)
    ensures
        r == ascii_lower_byte(b),
{
    if 65 <= b && b <= 90 {
        b + 32
    } else {
        b
    }
}

/// `str::eq_ignore_ascii_case`: the two strings are equal once their ASCII
/// letters are lowered.
pub fn eq_ignore_ascii_case(a: &str, b: &str) -> (r: bool)
    ensures
        r == names_match(a@, b@),
{
    let x = a.as_bytes();
    let y = b.as_bytes();
    if x.len() != y.len() {
        return false;
    }
    let n = x.len();
    let mut i: usize = 0;
    while i < n
        invariant
            n == x@.len(),
            n == y@.len(),
            x@ == encode_utf8(a@),
            y@ == encode_utf8(b@),
            i <= n,
            forall|j: int| 0 <= j < i ==> ascii_lower_byte(#[trigger] x@[j]) == ascii_lower_byte(
                y@[j],
            ),
        decreases n - i,
    {
        if ascii_lower(x[i]) != ascii_lower(y[i]) {
            return false;
        }
        i += 1;
    }
    true
}

/// `str::to_ascii_lowercase`, as bytes: the UTF-8 bytes of the string with
/// ASCII letters lowered.
pub fn to_ascii_lowercase(s: &str) -> (r: Vec<u8>)
    ensures
        r@ == ascii_lowercase(encode_utf8(s@)),
{
    let x = s.as_bytes();
    let n = x.len();
    let mut r: Vec<u8> = Vec::new();
    let mut i: usize = 0;
    while i < n
        invariant
            n == x@.len(),
            x@ == encode_utf8(s@),
            i <= n,
            r@ == ascii_lowercase(x@.take(i as int)),
        decreases n - i,
    {
        r.push(ascii_lower(x[i]));
        i += 1;
        assert(ascii_lowercase(x@.take(i as int)) =~= ascii_lowercase(x@.take(i - 1)).push(
            ascii_lower_byte(x@[i - 1]),
        ));
    }
    assert(x@.take(n as int) =~= x@);
    r
}

/// The bytes of a string equal the given bytes.
pub fn bytes_equal(a: &[u8], b: &str) -> (r: bool)
    ensures
        r == (a@ == encode_utf8(b@)),
{
    let y = b.as_bytes();
    if a.len() != y.len() {
        return false;
    }
    let n = a.len();
    let mut i: usize = 0;
    while i < n
        invariant
            n == a@.len(),
            n == y@.len(),
            y@ == encode_utf8(b@),
            i <= n,
            forall|j: int| 0 <= j < i ==> a@[j] == y@[j],
        decreases n - i,
    {
        if a[i] != y[i] {
            return false;
        }
        i += 1;
    }
    assert(a@ =~= y@);
    true
}

/// The UTF-8 encoding of one character has no byte in `A`..=`Z` unless the
/// character is one of them.
proof fn lemma_scalar_bytes_not_upper(c: char)
    requires
        !('A' <= c <= 'Z'),
    ensures
        forall|k: int|
            0 <= k < vstd::utf8::encode_scalar(c as u32).len() ==> !(65 <= #[trigger] vstd::utf8::encode_scalar(
                c as u32,
            )[k] <= 90),
{
    let v = c as u32;
    vstd::utf8::char_is_scalar(c);
    let e = vstd::utf8::encode_scalar(v);
    if vstd::utf8::has_width_1_encoding(v) {
        assert(v <= 0x7f ==> (v & 0x7f) as u8 as u32 == v) by (bit_vector);
        assert(('A' as u32) == 65 && ('Z' as u32) == 90);
    } else if vstd::utf8::has_width_2_encoding(v) {
        assert((0xC0u8 | ((v >> 6) & 0x1F) as u8) >= 0x80) by (bit_vector);
        assert((0x80u8 | (v & 0x3F) as u8) >= 0x80) by (bit_vector);
    } else if vstd::utf8::has_width_3_encoding(v) {
        assert((0xE0u8 | ((v >> 12) & 0x0F) as u8) >= 0x80) by (bit_vector);
        assert((0x80u8 | ((v >> 6) & 0x3F) as u8) >= 0x80) by (bit_vector);
        assert((0x80u8 | (v & 0x3F) as u8) >= 0x80) by (bit_vector);
    } else {
        assert((0xF0u8 | ((v >> 18) & 0x07) as u8) >= 0x80) by (bit_vector);
        assert((0x80u8 | ((v >> 12) & 0x3F) as u8) >= 0x80) by (bit_vector);
        assert((0x80u8 | ((v >> 6) & 0x3F) as u8) >= 0x80) by (bit_vector);
        assert((0x80u8 | (v & 0x3F) as u8) >= 0x80) by (bit_vector);
    }
}

/// Lowering the ASCII letters of a string that has no upper-case ASCII
/// letter changes none of its bytes.
pub proof fn lemma_lowercase_fixed(s: Seq<char>)
    requires
        has_no_ascii_upper(s),
    ensures
        ascii_lowercase(encode_utf8(s)) == encode_utf8(s),
    decreases s.len(),
{
    if s.len() > 0 {
        let head = vstd::utf8::encode_scalar(s[0] as u32);
        let rest = s.drop_first();
        assert(has_no_ascii_upper(rest)) by {
            assert forall|i: int| 0 <= i < rest.len() implies !('A' <= #[trigger] rest[i] <= 'Z') by {
                assert(rest[i] == s[i + 1]);
            }
        }
        lemma_lowercase_fixed(rest);
        lemma_scalar_bytes_not_upper(s[0]);
        let all = encode_utf8(s);
        assert(all == head + encode_utf8(rest));
        assert forall|k: int| 0 <= k < all.len() implies ascii_lower_byte(#[trigger] all[k])
            == all[k] by {
            if k < head.len() {
                assert(all[k] == head[k]);
            } else {
                assert(all[k] == encode_utf8(rest)[k - head.len()]);
                assert(ascii_lowercase(encode_utf8(rest))[k - head.len()] == ascii_lower_byte(
                    encode_utf8(rest)[k - head.len()],
                ));
            }
        }
        assert(ascii_lowercase(all) =~= all);
    } else {
        assert(ascii_lowercase(encode_utf8(s)) =~= encode_utf8(s));
    }
}

/// Where the target has no upper-case ASCII letter, comparing the lowered
/// name with it is the same as an ASCII case-insensitive match.
pub proof fn lemma_lowercase_eq_iff_match(name: Seq<char>, target: Seq<char>)
    requires
        has_no_ascii_upper(target),
    ensures
        (ascii_lowercase(encode_utf8(name)) == encode_utf8(target)) <==> names_match(name, target),
{
    lemma_lowercase_fixed(target);
    let a = encode_utf8(name);
    let b = encode_utf8(target);
    if ascii_lowercase(a) == b {
        assert forall|i: int| 0 <= i < a.len() implies ascii_lower_byte(#[trigger] a[i])
            == ascii_lower_byte(b[i]) by {
            assert(ascii_lowercase(a)[i] == ascii_lower_byte(a[i]));
            assert(ascii_lowercase(b)[i] == ascii_lower_byte(b[i]));
        }
    }
    if names_match(name, target) {
        assert forall|i: int| 0 <= i < a.len() implies #[trigger] ascii_lowercase(a)[i] == b[i] by {
            assert(ascii_lower_byte(a[i]) == ascii_lower_byte(b[i]));
            assert(ascii_lowercase(b)[i] == ascii_lower_byte(b[i]));
        }
        assert(ascii_lowercase(a) =~= b);
    }
}

} // verus!
