//! Character-level helpers on strings: Unicode white space, substring search,
//! equality of texts, and the few `String` operations that vstd leaves unspecified.
use vstd::prelude::*;

verus! {

/// Whether `c` has the Unicode `White_Space` property, which is the set of
/// characters that `char::is_whitespace` (and so `str::split_whitespace`) accepts.
pub open spec fn is_white_space(c: char) -> bool {
    let v = c as u32;
    ||| 0x09 <= v <= 0x0d
    ||| v == 0x20
    ||| v == 0x85
    ||| v == 0xa0
    ||| v == 0x1680
    ||| 0x2000 <= v <= 0x200a
    ||| v == 0x2028
    ||| v == 0x2029
    ||| v == 0x202f
    ||| v == 0x205f
    ||| v == 0x3000
}

/// The text `s` with every white-space character taken out, the other characters
/// kept in their order. This is what joining the pieces of `split_whitespace`
/// with the empty separator gives.
pub open spec fn without_white_space(s: Seq<char>) -> Seq<char>
    decreases s.len(),
{
    if s.len() == 0 {
        Seq::empty()
    } else {
        let rest = without_white_space(s.drop_last());
        if is_white_space(s.last()) {
            rest
        } else {
            rest.push(s.last())
        }
    }
}

/// Whether `needle` occurs in `hay` as a run of consecutive characters.
pub open spec fn occurs_in(needle: Seq<char>, hay: Seq<char>) -> bool {
    exists|i: int|
        0 <= i && i + needle.len() <= hay.len() && #[trigger] hay.subrange(i, i + needle.len())
            == needle
}

/// Whether `c` is white space (the Unicode `White_Space` property).
pub fn is_white_space_char(c: char) -> (r: bool)
    ensures
        r == is_white_space(c),
{
    let v = c as u32;
    (0x09 <= v && v <= 0x0d) || v == 0x20 || v == 0x85 || v == 0xa0 || v == 0x1680 || (0x2000
        <= v && v <= 0x200a) || v == 0x2028 || v == 0x2029 || v == 0x202f || v == 0x205f || v
        == 0x3000
}

/// Appends one character to a `String` (`String::push`).
#[verifier::external_body]
pub(crate) fn push_char(s: &mut String, c: char)
    ensures
        final(s)@ == old(s)@.push(c),
{
    s.push(c)
}

/// Decodes UTF-8 bytes into a `String` (`String::from_utf8`): `None` exactly when
/// the bytes are not valid UTF-8, else the decoded characters.
#[verifier::external_body]
pub(crate) fn string_from_utf8(bytes: Vec<u8>) -> (r: Option<String>)
    ensures
        r is Some <==> vstd::utf8::valid_utf8(bytes@),
        r matches Some(s) ==> s@ == vstd::utf8::decode_utf8(bytes@),
{
    String::from_utf8(bytes).ok()
}

/// Returns `s` with all white-space characters removed.
pub fn strip_white_space(s: &str) -> (r: String)
    ensures
        r@ == without_white_space(s@),
{
    let n = s.unicode_len();
    let mut out = String::new();
    let mut i: usize = 0;
    while i < n
        invariant
            n == s@.len(),
            i <= n,
            out@ == without_white_space(s@.take(i as int)),
        decreases n - i,
    {
        let c = s.get_char(i);
        assert(s@.take(i + 1).drop_last() =~= s@.take(i as int));
        assert(s@.take(i + 1).last() == c);
        if !is_white_space_char(c) {
            push_char(&mut out, c);
        }
        i = i + 1;
    }
    assert(s@.take(n as int) =~= s@);
    out
}

/// Whether the two texts are the same sequence of characters.
pub fn same_text(a: &str, b: &str) -> (r: bool)
    ensures
        r == (a@ == b@),
{
    let n = a.unicode_len();
    if n != b.unicode_len() {
        return false;
    }
    let mut i: usize = 0;
    while i < n
        invariant
            n == a@.len(),
            n == b@.len(),
            i <= n,
            forall|j: int| 0 <= j < i ==> a@[j] == b@[j],
        decreases n - i,
    {
        if a.get_char(i) != b.get_char(i) {
            return false;
        }
        i = i + 1;
    }
    assert(a@ =~= b@);
    true
}

/// Whether `needle` occurs in `hay` (`str::contains` with a string pattern).
pub fn contains_text(hay: &str, needle: &str) -> (r: bool)
    ensures
        r == occurs_in(needle@, hay@),
{
    let h = hay.unicode_len();
    let m = needle.unicode_len();
    if m > h {
        assert(!occurs_in(needle@, hay@));
        return false;
    }
    let last = h - m;
    let mut start: usize = 0;
    loop
        invariant
            h == hay@.len(),
            m == needle@.len(),
            m <= h,
            last == h - m,
            start <= last,
            forall|k: int| 0 <= k < start ==> #[trigger] hay@.subrange(k, k + m) != needle@,
        decreases last - start,
    {
        let mut j: usize = 0;
        let mut matched = true;
        while j < m
            invariant
                h == hay@.len(),
                m == needle@.len(),
                start + m <= h,
                j <= m,
                matched ==> forall|q: int| 0 <= q < j ==> hay@[start + q] == needle@[q],
                !matched ==> hay@.subrange(start as int, start + m) != needle@,
            decreases m - j,
        {
            if matched && hay.get_char(start + j) != needle.get_char(j) {
                assert(hay@.subrange(start as int, start + m)[j as int] == hay@[start + j]);
                matched = false;
            }
            j = j + 1;
        }
        if matched {
            assert(hay@.subrange(start as int, start + m) =~= needle@);
            return true;
        }
        if start == last {
            assert forall|i: int|
                0 <= i && i + needle@.len() <= hay@.len() implies #[trigger] hay@.subrange(
                i,
                i + needle@.len(),
            ) != needle@ by {}
            return false;
        }
        start = start + 1;
    }
}

} // verus!
