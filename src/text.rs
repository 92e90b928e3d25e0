//! Text helpers: case folding, character-level substring search and the
//! decoding of fixed-size UTF-16 name buffers.
use vstd::prelude::*;
use vstd::string::*;

verus! {

/// What `str::to_lowercase` makes of a text.
pub uninterp spec fn lower_of(s: Seq<char>) -> Seq<char>;

/// What `String::from_utf16_lossy` makes of a sequence of UTF-16 units.
pub uninterp spec fn utf16_lossy_of(units: Seq<u16>) -> Seq<char>;

/// What `str::trim` leaves of a text.
pub uninterp spec fn trimmed_of(s: Seq<char>) -> Seq<char>;

/// Relies on `str::to_lowercase`: the result depends on the characters alone.
#[verifier::external_body]
pub(crate) fn to_lower(s: &str) -> (r: String)
    ensures
        r@ == lower_of(s@),
{
    s.to_lowercase()
}

/// Relies on `String::from_utf16_lossy`: the result depends on the units alone.
#[verifier::external_body]
fn decode_utf16_lossy(units: &[u16]) -> (r: String)
    ensures
        r@ == utf16_lossy_of(units@),
{
    String::from_utf16_lossy(units)
}

/// Relies on `str::trim`: the result depends on the characters alone.
#[verifier::external_body]
fn trim_text(s: &str) -> (r: String)
    ensures
        r@ == trimmed_of(s@),
{
    s.trim().to_string()
}

/// `needle` occurs in `hay` starting at position `i`.
pub open spec fn occurs_at(hay: Seq<char>, needle: Seq<char>, i: int) -> bool {
    &&& 0 <= i
    &&& i + needle.len() <= hay.len()
    &&& hay.subrange(i, i + needle.len()) == needle
}

/// `needle` is a substring of `hay` (the empty text is a substring of every text).
pub open spec fn has_substring(hay: Seq<char>, needle: Seq<char>) -> bool {
    exists|i: int| #[trigger] occurs_at(hay, needle, i)
}

/// `needle`, case-folded, is a substring of `text` case-folded.
pub open spec fn contains_folded(text: Seq<char>, needle: Seq<char>) -> bool {
    has_substring(lower_of(text), lower_of(needle))
}

/// The characters of a text, one per element.
pub fn chars_of(s: &str) -> (r: Vec<char>)
    ensures
        r@ == s@,
{
    let n = s.unicode_len();
    let mut v: Vec<char> = Vec::new();
    let mut i: usize = 0;
    while i < n
        invariant
            n == s@.len(),
            i <= n,
            v@ == s@.take(i as int),
        decreases n - i,
    {
        let c = s.get_char(i);
        v.push(c);
        assert(s@.take(i + 1) == s@.take(i as int).push(c));
        i = i + 1;
    }
    assert(s@.take(n as int) == s@);
    v
}

fn occurs_at_exec(hay: &Vec<char>, needle: &Vec<char>, i: usize) -> (r: bool)
    requires
        i + needle@.len() <= hay@.len(),
    ensures
        r == occurs_at(hay@, needle@, i as int),
{
    let n = needle.len();
    let h = hay.len();
    let mut j: usize = 0;
    while j < n
        invariant
            n == needle@.len(),
            h == hay@.len(),
            i + n <= h,
            j <= n,
            forall|k: int| 0 <= k < j ==> hay@[i + k] == needle@[k],
        decreases n - j,
    {
        if hay[i + j] != needle[j] {
            assert(hay@.subrange(i as int, i + n)[j as int] != needle@[j as int]);
            return false;
        }
        j = j + 1;
    }
    assert(hay@.subrange(i as int, i + n) =~= needle@);
    true
}

/// Substring search over characters.
pub fn contains_chars(hay: &Vec<char>, needle: &Vec<char>) -> (r: bool)
    ensures
        r == has_substring(hay@, needle@),
{
    let h = hay.len();
    let n = needle.len();
    if n == 0 {
        assert(hay@.subrange(0, 0) =~= needle@);
        assert(occurs_at(hay@, needle@, 0));
        return true;
    }
    if n > h {
        assert forall|i: int| !occurs_at(hay@, needle@, i) by {}
        return false;
    }
    let last = h - n + 1;
    let mut i: usize = 0;
    while i < last
        invariant
            h == hay@.len(),
            n == needle@.len(),
            1 <= n <= h,
            last == h - n + 1,
            i <= last,
            forall|k: int| 0 <= k < i ==> !occurs_at(hay@, needle@, k),
        decreases last - i,
    {
        if occurs_at_exec(hay, needle, i) {
            return true;
        }
        i = i + 1;
    }
    assert forall|k: int| !occurs_at(hay@, needle@, k) by {
        if 0 <= k < i {
        }
    }
    false
}

/// A text with `needle` folded to lower case occurs in `folded_text`, which is
/// already folded.
pub(crate) fn folded_contains(folded_text: &Vec<char>, needle: &str) -> (r: bool)
    ensures
        r == has_substring(folded_text@, lower_of(needle@)),
{
    let lowered = to_lower(needle);
    let needle_chars = chars_of(lowered.as_str());
    contains_chars(folded_text, &needle_chars)
}

/// Case-insensitive substring test.
pub fn contains_ignoring_case(text: &str, needle: &str) -> (r: bool)
    ensures
        r == contains_folded(text@, needle@),
{
    let lowered = to_lower(text);
    let folded = chars_of(lowered.as_str());
    folded_contains(&folded, needle)
}

/// The units before the first NUL (all of them where there is none).
pub open spec fn until_nul(units: Seq<u16>, k: int) -> bool {
    &&& 0 <= k <= units.len()
    &&& forall|j: int| 0 <= j < k ==> units[j] != 0
    &&& k < units.len() ==> units[k] == 0
}

/// Decodes a NUL-terminated UTF-16 buffer, replacing invalid units, and
/// trims surrounding whitespace.
pub fn utf16_to_string(buf: &[u16]) -> (r: String)
    ensures
        exists|k: int| until_nul(buf@, k) && r@ == trimmed_of(utf16_lossy_of(buf@.take(k))),
{
    let n = buf.len();
    let mut units: Vec<u16> = Vec::new();
    let mut k: usize = 0;
    while k < n && buf[k] != 0
        invariant
            n == buf@.len(),
            k <= n,
            units@ == buf@.take(k as int),
            forall|j: int| 0 <= j < k ==> buf@[j] != 0,
        decreases n - k,
    {
        units.push(buf[k]);
        assert(buf@.take(k + 1) == buf@.take(k as int).push(buf@[k as int]));
        k = k + 1;
    }
    let decoded = decode_utf16_lossy(units.as_slice());
    let r = trim_text(decoded.as_str());
    assert(until_nul(buf@, k as int));
    r
}

} // verus!
