//! Conversion of 16-bit character strings to UTF-8.

use vstd::prelude::*;

verus! {

/// Whether `c` is one half of a surrogate pair, which stands for no
/// character by itself.
pub open spec fn is_surrogate(c: u16) -> bool {
    0xD800 <= c <= 0xDFFF
}

/// The UTF-8 encoding of the character with number `c`.
pub open spec fn utf8_char(c: u16) -> Seq<u8> {
    if c < 0x80 {
        seq![c as u8]
    } else if c < 0x800 {
        seq![(0xC0 + c / 64) as u8, (0x80 + c % 64) as u8]
    } else {
        seq![(0xE0 + c / 4096) as u8, (0x80 + (c / 64) % 64) as u8, (0x80 + c % 64) as u8]
    }
}

/// The UTF-8 encoding of `chars`: the encodings of its characters, one
/// after the other.
pub open spec fn utf8_of(chars: Seq<u16>) -> Seq<u8>
    decreases chars.len(),
{
    if chars.len() == 0 {
        Seq::empty()
    } else {
        utf8_of(chars.drop_last()) + utf8_char(chars.last())
    }
}

/// Whether `chars` can be decoded into `capacity` bytes: it holds no
/// surrogate and its encoding is no longer than that.
pub open spec fn decodable(chars: Seq<u16>, capacity: usize) -> bool {
    &&& forall|i: int| 0 <= i < chars.len() ==> !is_surrogate(#[trigger] chars[i])
    &&& utf8_of(chars).len() <= capacity
}

/// The encoding of a string is at least as long as that of each of its
/// prefixes.
pub proof fn lemma_utf8_prefix_len(chars: Seq<u16>, n: int)
    requires
        0 <= n <= chars.len(),
    ensures
        utf8_of(chars.subrange(0, n)).len() <= utf8_of(chars).len(),
    decreases chars.len(),
{
    if n == chars.len() {
        assert(chars.subrange(0, n) =~= chars);
    } else {
        lemma_utf8_prefix_len(chars.drop_last(), n);
        assert(chars.drop_last().subrange(0, n) =~= chars.subrange(0, n));
    }
}

/// The UTF-8 encoding of `input`, or `None` where `input` holds a
/// surrogate or the encoding takes more than `capacity` bytes.
pub fn decode(input: &[u16], capacity: usize) -> (output: Option<Vec<u8>>)
    ensures
        output matches Some(bytes) ==> bytes@ == utf8_of(input@),
        output is Some <==> decodable(input@, capacity),
{
    let mut bytes: Vec<u8> = Vec::new();
    let mut i: usize = 0;
    assert(input@.subrange(0, 0) =~= Seq::<u16>::empty());
    while i < input.len()
        invariant
            i <= input@.len(),
            bytes@ == utf8_of(input@.subrange(0, i as int)),
            bytes@.len() <= capacity,
            forall|j: int| 0 <= j < i ==> !is_surrogate(#[trigger] input@[j]),
        decreases input.len() - i,
    {
        let c = input[i];
        proof {
            let next = input@.subrange(0, i as int + 1);
            assert(next.drop_last() =~= input@.subrange(0, i as int));
            assert(next.last() == c);
            lemma_utf8_prefix_len(input@, i as int + 1);
        }
        if 0xD800 <= c && c <= 0xDFFF {
            return None;
        }
        let width: usize = if c < 0x80 {
            1
        } else if c < 0x800 {
            2
        } else {
            3
        };
        if capacity - bytes.len() < width {
            return None;
        }
        if c < 0x80 {
            bytes.push(c as u8);
        } else if c < 0x800 {
            bytes.push((0xC0 + c / 64) as u8);
            bytes.push((0x80 + c % 64) as u8);
        } else {
            bytes.push((0xE0 + c / 4096) as u8);
            bytes.push((0x80 + (c / 64) % 64) as u8);
            bytes.push((0x80 + c % 64) as u8);
        }
        proof {
            assert(bytes@ =~= utf8_of(input@.subrange(0, i as int)) + utf8_char(c));
        }
        i += 1;
    }
    proof {
        assert(input@.subrange(0, i as int) =~= input@);
    }
    Some(bytes)
}

} // verus!
