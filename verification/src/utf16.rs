//! UTF-16 encoding of the DLL path, as the remote loader expects it: the
//! code units of the path followed by a terminating nul, and the same
//! sequence flattened to little-endian bytes for the cross-process write.

use vstd::prelude::*;

verus! {

/// The UTF-16 code units of a single character: one unit for the basic
/// plane, a surrogate pair for the rest.
pub open spec fn utf16_units_of_char(c: char) -> Seq<u16> {
    let u = c as u32;
    if u < 0x1_0000 {
        seq![u as u16]
    } else {
        seq![
            (0xD800 + ((u - 0x1_0000) as u32 >> 10)) as u16,
            (0xDC00 + ((u - 0x1_0000) as u32 & 0x3FF)) as u16,
        ]
    }
}

/// The UTF-16 code units of a character sequence, in order.
pub open spec fn utf16_units(s: Seq<char>) -> Seq<u16>
    decreases s.len(),
{
    if s.len() == 0 {
        Seq::empty()
    } else {
        utf16_units_of_char(s[0]) + utf16_units(s.subrange(1, s.len() as int))
    }
}

/// Whether the sequence contains a nul character, which a nul-terminated
/// encoding cannot represent.
pub open spec fn has_nul(s: Seq<char>) -> bool {
    exists|i: int| 0 <= i < s.len() && s[i] == '\0'
}

proof fn lemma_utf16_units_push(s: Seq<char>, c: char)
    ensures
        utf16_units(s.push(c)) == utf16_units(s) + utf16_units_of_char(c),
    decreases s.len(),
{
    if s.len() == 0 {
        assert(s.push(c)[0] == c);
        assert(s.push(c).subrange(1, s.push(c).len() as int) =~= Seq::<char>::empty());
        assert(utf16_units(Seq::<char>::empty()) == Seq::<u16>::empty());
        assert(utf16_units(s.push(c)) =~= utf16_units(s) + utf16_units_of_char(c));
    } else {
        let t = s.subrange(1, s.len() as int);
        lemma_utf16_units_push(t, c);
        assert(s.push(c).subrange(1, s.push(c).len() as int) =~= t.push(c));
        assert(s.push(c)[0] == s[0]);
        assert(utf16_units(s.push(c)) =~= utf16_units(s) + utf16_units_of_char(c));
    }
}

/// Encodes `s` as nul-terminated UTF-16 code units. Returns `None` exactly
/// when `s` itself contains a nul character.
pub fn encode_wide_nul(s: &str) -> (r: Option<Vec<u16>>)
    ensures
        r is Some <==> !has_nul(s@),
        r matches Some(v) ==> v@ == utf16_units(s@).push(0u16),
{
    let n: usize = s.unicode_len();
    let mut units: Vec<u16> = Vec::new();
    let mut i: usize = 0;
    while i < n
        invariant
            0 <= i <= n,
            n == s@.len(),
            units@ == utf16_units(s@.subrange(0, i as int)),
            forall|j: int| 0 <= j < i ==> s@[j] != '\0',
        decreases n - i,
    {
        let c = s.get_char(i);
        if c == '\0' {
            assert(has_nul(s@));
            return None;
        }
        let u: u32 = c as u32;
        proof {
            lemma_utf16_units_push(s@.subrange(0, i as int), c);
            assert(s@.subrange(0, i as int).push(c) =~= s@.subrange(0, i + 1 as int));
        }
        if u < 0x1_0000 {
            units.push(u as u16);
        } else {
            assert(u < 0x11_0000);
            let v: u32 = u - 0x1_0000;
            assert((v >> 10) < 0x400 && (v & 0x3FF) < 0x400) by (bit_vector)
                requires
                    v < 0x10_0000,
            ;
            units.push(0xD800 + (v >> 10) as u16);
            units.push(0xDC00 + (v & 0x3FF) as u16);
        }
        i = i + 1;
    }
    proof {
        assert(s@.subrange(0, n as int) =~= s@);
        lemma_utf16_units_push(s@, '\0');
    }
    units.push(0u16);
    assert(!has_nul(s@));
    Some(units)
}

/// The little-endian byte flattening of a sequence of 16-bit units.
pub open spec fn wide_le_bytes(v: Seq<u16>) -> Seq<u8>
    decreases v.len(),
{
    if v.len() == 0 {
        Seq::empty()
    } else {
        seq![(v[0] & 0xFF) as u8, (v[0] >> 8) as u8] + wide_le_bytes(
            v.subrange(1, v.len() as int),
        )
    }
}

proof fn lemma_wide_le_bytes_push(v: Seq<u16>, u: u16)
    ensures
        wide_le_bytes(v.push(u)) == wide_le_bytes(v) + seq![(u & 0xFF) as u8, (u >> 8) as u8],
    decreases v.len(),
{
    if v.len() == 0 {
        assert(v.push(u)[0] == u);
        assert(v.push(u).subrange(1, v.push(u).len() as int) =~= Seq::<u16>::empty());
        assert(wide_le_bytes(Seq::<u16>::empty()) == Seq::<u8>::empty());
        assert(wide_le_bytes(v.push(u)) =~= wide_le_bytes(v) + seq![
            (u & 0xFF) as u8,
            (u >> 8) as u8,
        ]);
    } else {
        let t = v.subrange(1, v.len() as int);
        lemma_wide_le_bytes_push(t, u);
        assert(v.push(u)[0] == v[0]);
        assert(v.push(u).subrange(1, v.push(u).len() as int) =~= t.push(u));
        assert(wide_le_bytes(v.push(u)) =~= wide_le_bytes(v) + seq![
            (u & 0xFF) as u8,
            (u >> 8) as u8,
        ]);
    }
}

/// Every unit contributes exactly two bytes.
pub proof fn lemma_wide_le_bytes_len(v: Seq<u16>)
    ensures
        wide_le_bytes(v).len() == 2 * v.len(),
    decreases v.len(),
{
    if v.len() > 0 {
        lemma_wide_le_bytes_len(v.subrange(1, v.len() as int));
    }
}

/// Flattens 16-bit units to their little-endian bytes.
pub fn wide_to_bytes(v: &Vec<u16>) -> (r: Vec<u8>)
    ensures
        r@ == wide_le_bytes(v@),
        r@.len() == 2 * v@.len(),
{
    let mut out: Vec<u8> = Vec::new();
    let mut i: usize = 0;
    while i < v.len()
        invariant
            0 <= i <= v@.len(),
            out@ == wide_le_bytes(v@.subrange(0, i as int)),
        decreases v@.len() - i,
    {
        let u: u16 = v[i];
        proof {
            lemma_wide_le_bytes_push(v@.subrange(0, i as int), u);
            assert(v@.subrange(0, i as int).push(u) =~= v@.subrange(0, i + 1 as int));
        }
        out.push((u & 0xFF) as u8);
        out.push((u >> 8) as u8);
        i = i + 1;
    }
    proof {
        assert(v@.subrange(0, v@.len() as int) =~= v@);
        lemma_wide_le_bytes_len(v@);
    }
    out
}

} // verus!
