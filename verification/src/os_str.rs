//! Strings of 16-bit characters, as the service interface passes them.
//!
//! A string in a caller's buffer ends at its terminator: the first
//! character that is zero.

use crate::encoder::{decodable, decode, utf8_of};
use vstd::prelude::*;

verus! {

/// Whether `c` ends a string: it is the character zero.
pub open spec fn is_terminator(c: u16) -> bool {
    c == 0
}

/// The index of the first terminator of `s` at or behind `from`, or the
/// length of `s` if there is none.
pub open spec fn terminator_index(s: Seq<u16>, from: int) -> int
    decreases s.len() - from,
{
    if from < 0 || from >= s.len() {
        s.len() as int
    } else if is_terminator(s[from]) {
        from
    } else {
        terminator_index(s, from + 1)
    }
}

/// The characters of `s` before its terminator.
pub open spec fn before_terminator(s: Seq<u16>) -> Seq<u16> {
    s.subrange(0, terminator_index(s, 0))
}

/// The terminator of a string lies between the place where the scan for it
/// starts and the end of the string.
pub proof fn lemma_terminator_index_bounds(s: Seq<u16>, from: int)
    requires
        0 <= from <= s.len(),
    ensures
        from <= terminator_index(s, from) <= s.len(),
        forall|i: int| from <= i < terminator_index(s, from) ==> !is_terminator(#[trigger] s[i]),
        terminator_index(s, from) < s.len() ==> is_terminator(s[terminator_index(s, from)]),
    decreases s.len() - from,
{
    if from < s.len() && !is_terminator(s[from]) {
        lemma_terminator_index_bounds(s, from + 1);
    }
}

/// The first character of the lower-case form that `char::to_lowercase`
/// gives for `c`.
pub uninterp spec fn lower_of(c: char) -> char;

/// The first character of the upper-case form that `char::to_uppercase`
/// gives for `c`.
pub uninterp spec fn upper_of(c: char) -> char;

/// Whether `chars` has as many characters as `lower` and `upper` and each
/// of them is, as a number, the character of `lower` or of `upper` at its
/// place.
pub open spec fn matches_either(chars: Seq<u16>, lower: Seq<char>, upper: Seq<char>) -> bool {
    &&& chars.len() == lower.len()
    &&& chars.len() == upper.len()
    &&& forall|i: int|
        0 <= i < chars.len() ==> (#[trigger] lower[i]) as u32 == chars[i] as u32 || upper[i] as u32
            == chars[i] as u32
}

/// Whether `chars` and `text` have the same characters, as numbers.
pub open spec fn same_text(chars: Seq<u16>, text: Seq<char>) -> bool {
    &&& chars.len() == text.len()
    &&& forall|i: int| 0 <= i < chars.len() ==> (#[trigger] text[i]) as u32 == chars[i] as u32
}

/// The number of characters that are formatted at a time.
pub const FORMAT_CHUNK: usize = 42;

/// The size in bytes of the buffer into which a piece is decoded.
pub const FORMAT_BUFFER: usize = 127;

/// The end of the piece of `chars` that starts at `from`.
pub open spec fn chunk_end(chars: Seq<u16>, from: int) -> int {
    if from + FORMAT_CHUNK < chars.len() {
        from + FORMAT_CHUNK
    } else {
        chars.len() as int
    }
}

/// The text of `chars` from index `from` on, in UTF-8: the string is taken
/// in pieces of forty-two characters, and a piece that cannot be decoded
/// is left out.
pub open spec fn formatted(chars: Seq<u16>, from: int) -> Seq<u8>
    decreases chars.len() - from,
{
    if from < 0 || from >= chars.len() {
        Seq::empty()
    } else if decodable(chars.subrange(from, chunk_end(chars, from)), FORMAT_BUFFER) {
        utf8_of(chars.subrange(from, chunk_end(chars, from))) + formatted(
            chars,
            chunk_end(chars, from),
        )
    } else {
        formatted(chars, chunk_end(chars, from))
    }
}

/// A string of 16-bit characters, without a terminator.
#[derive(Debug)]
pub struct OsStr {
    chars: Vec<u16>,
}

impl View for OsStr {
    type V = Seq<u16>;

    closed spec fn view(&self) -> Seq<u16> {
        self.chars@
    }
}

/// Whether `c` ends a string.
pub fn is_terminator_char(c: u16) -> (r: bool)
    ensures
        r == is_terminator(c),
{
    c == 0
}

impl PartialEq for OsStr {
    /// Two strings are equal when they have the same characters.
    fn eq(&self, other: &OsStr) -> (r: bool) {
        if other.chars.len() != self.chars.len() {
            return false;
        }
        let mut i: usize = 0;
        while i < self.chars.len()
            invariant
                i <= self.chars@.len(),
                self.chars@.len() == other.chars@.len(),
                forall|j: int| 0 <= j < i ==> self.chars@[j] == other.chars@[j],
            decreases self.chars.len() - i,
        {
            if self.chars[i] != other.chars[i] {
                return false;
            }
            i += 1;
        }
        proof {
            assert(self.chars@ =~= other.chars@);
        }
        true
    }
}

impl vstd::std_specs::cmp::PartialEqSpecImpl for OsStr {
    open spec fn obeys_eq_spec() -> bool {
        true
    }

    open spec fn eq_spec(&self, other: &OsStr) -> bool {
        self@ == other@
    }
}

impl OsStr {
    /// The string itself.
    pub fn new(s: &OsStr) -> (r: &OsStr)
        ensures
            r == s,
    {
        s
    }

    /// The characters of the string.
    pub fn as_u16_slice(&self) -> (slice: &[u16])
        ensures
            slice@ == self@,
    {
        self.chars.as_slice()
    }

    /// A copy of the string that owns its characters.
    pub fn to_os_string(&self) -> (r: OsStr)
        ensures
            r@ == self@,
    {
        OsStr::from_u16_slice(self.chars.as_slice())
    }

    /// The number of characters.
    pub fn len(&self) -> (len: usize)
        ensures
            len == self@.len(),
    {
        self.chars.len()
    }

    /// The string that ends before the terminator of `s`, or that is all of
    /// `s` if it has none.
    pub fn from_u16_slice_with_nul(s: &[u16]) -> (r: OsStr)
        ensures
            r@ == before_terminator(s@),
            r@.len() <= s@.len(),
    {
        let len = Self::char16_with_null_len(s);
        let mut chars: Vec<u16> = Vec::new();
        let mut i: usize = 0;
        while i < len
            invariant
                i <= len <= s@.len(),
                chars@ == s@.subrange(0, i as int),
            decreases len - i,
        {
            chars.push(s[i]);
            proof {
                assert(chars@ =~= s@.subrange(0, i as int + 1));
            }
            i += 1;
        }
        OsStr { chars }
    }

    /// The string made of all the characters of `s`.
    pub fn from_u16_slice(s: &[u16]) -> (r: OsStr)
        ensures
            r@ == s@,
    {
        let mut chars: Vec<u16> = Vec::new();
        let mut i: usize = 0;
        while i < s.len()
            invariant
                i <= s@.len(),
                chars@ == s@.subrange(0, i as int),
            decreases s.len() - i,
        {
            chars.push(s[i]);
            proof {
                assert(chars@ =~= s@.subrange(0, i as int + 1));
            }
            i += 1;
        }
        proof {
            assert(chars@ =~= s@);
        }
        OsStr { chars }
    }

    /// The number of characters of `s` before its terminator.
    fn char16_with_null_len(s: &[u16]) -> (len: usize)
        ensures
            len == terminator_index(s@, 0),
            len <= s@.len(),
    {
        let mut len: usize = 0;
        while len < s.len()
            invariant
                len <= s@.len(),
                terminator_index(s@, 0) == terminator_index(s@, len as int),
            decreases s.len() - len,
        {
            if is_terminator_char(s[len]) {
                return len;
            }
            len += 1;
        }
        len
    }

    /// An iterator over the characters.
    pub fn iter(&self) -> (iter: core::slice::Iter<'_, u16>)
        ensures
            vstd::std_specs::slice::into_iter_elts(iter) == self@,
    {
        broadcast use vstd::std_specs::slice::axiom_spec_slice_iter;

        let iter = self.chars.as_slice().iter();
        assert(vstd::std_specs::slice::into_iter_elts(iter) =~= self@);
        iter
    }

    /// The text of the string in UTF-8.
    pub fn format_fn(&self) -> (text: Vec<u8>)
        ensures
            text@ == formatted(self@, 0),
    {
        let len = self.chars.len();
        let mut text: Vec<u8> = Vec::new();
        let mut from: usize = 0;
        while from < len
            invariant
                from <= len,
                len == self.chars@.len(),
                text@ + formatted(self@, from as int) == formatted(self@, 0),
            decreases len - from,
        {
            let end_index = if len - from > FORMAT_CHUNK {
                from + FORMAT_CHUNK
            } else {
                len
            };
            let mut piece: Vec<u16> = Vec::new();
            let mut i: usize = from;
            while i < end_index
                invariant
                    from <= i <= end_index <= len,
                    len == self.chars@.len(),
                    piece@ == self.chars@.subrange(from as int, i as int),
                decreases end_index - i,
            {
                piece.push(self.chars[i]);
                proof {
                    assert(piece@ =~= self.chars@.subrange(from as int, i as int + 1));
                }
                i += 1;
            }
            let ghost before = text@;
            match decode(piece.as_slice(), FORMAT_BUFFER) {
                Some(bytes) => {
                    let mut k: usize = 0;
                    while k < bytes.len()
                        invariant
                            k <= bytes@.len(),
                            text@ == before + bytes@.subrange(0, k as int),
                        decreases bytes.len() - k,
                    {
                        text.push(bytes[k]);
                        proof {
                            assert(text@ =~= before + bytes@.subrange(0, k as int + 1));
                        }
                        k += 1;
                    }
                    proof {
                        assert(bytes@.subrange(0, bytes@.len() as int) =~= bytes@);
                        assert(before + bytes@.subrange(0, 0) =~= before);
                        assert((before + bytes@) + formatted(self@, end_index as int) =~= before
                            + (bytes@ + formatted(self@, end_index as int)));
                    }
                },
                None => {},
            }
            from = end_index;
        }
        proof {
            assert(text@ + formatted(self@, len as int) =~= text@);
        }
        text
    }

    /// Whether the string has the characters of `other`, as numbers.
    pub fn eq_str(&self, other: &str) -> (r: bool)
        ensures
            r == same_text(self@, other@),
    {
        if self.chars.len() != other.unicode_len() {
            return false;
        }
        let mut i: usize = 0;
        while i < self.chars.len()
            invariant
                i <= self.chars@.len(),
                self.chars@.len() == other@.len(),
                forall|j: int| 0 <= j < i ==> (#[trigger] other@[j]) as u32 == self.chars@[j] as u32,
            decreases self.chars.len() - i,
        {
            let c = other.get_char(i);
            if c as u32 != self.chars[i] as u32 {
                return false;
            }
            i += 1;
        }
        true
    }

    /// Whether the string has as many characters as `lower` and `upper`
    /// and each is the character of `lower` or of `upper` at its place.
    pub fn matches_folded(&self, lower: &Vec<char>, upper: &Vec<char>) -> (r: bool)
        ensures
            r == matches_either(self@, lower@, upper@),
    {
        if self.chars.len() != lower.len() || self.chars.len() != upper.len() {
            return false;
        }
        let mut i: usize = 0;
        while i < self.chars.len()
            invariant
                i <= self.chars@.len(),
                self.chars@.len() == lower@.len(),
                self.chars@.len() == upper@.len(),
                forall|j: int|
                    0 <= j < i ==> (#[trigger] lower@[j]) as u32 == self.chars@[j] as u32
                        || upper@[j] as u32 == self.chars@[j] as u32,
            decreases self.chars.len() - i,
        {
            if !(lower[i] as u32 == self.chars[i] as u32 || upper[i] as u32 == self.chars[i]
                as u32) {
                return false;
            }
            i += 1;
        }
        true
    }

    /// Whether the string is `other` up to the case of its letters: each
    /// character is the lower-case or the upper-case form of the character
    /// of `other` at its place.
    pub fn eq_ignore_ascii_case(&self, other: &str) -> (r: bool)
        ensures
            r == matches_either(
                self@,
                other@.map_values(|c: char| lower_of(c)),
                other@.map_values(|c: char| upper_of(c)),
            ),
    {
        let count = other.unicode_len();
        let mut lower: Vec<char> = Vec::new();
        let mut upper: Vec<char> = Vec::new();
        let mut i: usize = 0;
        while i < count
            invariant
                i <= count,
                count == other@.len(),
                lower@ == other@.subrange(0, i as int).map_values(|c: char| lower_of(c)),
                upper@ == other@.subrange(0, i as int).map_values(|c: char| upper_of(c)),
            decreases count - i,
        {
            let c = other.get_char(i);
            lower.push(to_lower(c));
            upper.push(to_upper(c));
            proof {
                assert(lower@ =~= other@.subrange(0, i as int + 1).map_values(
                    |c: char| lower_of(c),
                ));
                assert(upper@ =~= other@.subrange(0, i as int + 1).map_values(
                    |c: char| upper_of(c),
                ));
            }
            i += 1;
        }
        proof {
            assert(other@.subrange(0, count as int) =~= other@);
        }
        self.matches_folded(&lower, &upper)
    }
}

/// `char::to_lowercase`, of which the first character is taken. The
/// standard library documents the result as the lower-case form of `c` by
/// the Unicode tables, which is `c` itself where it has none; nothing more
/// is claimed than that the same character always gives the same one.
#[verifier::external_body]
fn to_lower(c: char) -> (r: char)
    ensures
        r == lower_of(c),
{
    c.to_lowercase().next().unwrap_or(c)
}

/// `char::to_uppercase`, of which the first character is taken. The
/// standard library documents the result as the upper-case form of `c` by
/// the Unicode tables, which is `c` itself where it has none; nothing more
/// is claimed than that the same character always gives the same one.
#[verifier::external_body]
fn to_upper(c: char) -> (r: char)
    ensures
        r == upper_of(c),
{
    c.to_uppercase().next().unwrap_or(c)
}

} // verus!
