//! The typed memory store: a byte buffer with bounds-checked little-endian
//! access and NUL-terminated string reads.

use vstd::prelude::*;
use vstd::utf8::{decode_utf8, valid_utf8};
use crate::image::ImageError;

verus! {

/// Size of a WebAssembly page in bytes.
pub const WASM_PAGE: usize = 65536;

/// Number of bytes that a 32-bit address can reach.
pub open spec fn address_space() -> int {
    0x1_0000_0000
}

/// The 16-bit little-endian value whose bytes start at `a`.
pub open spec fn le_u16(s: Seq<u8>, a: int) -> u16 {
    (s[a] as u16) | ((s[a + 1] as u16) << 8u16)
}

/// The 32-bit little-endian value whose bytes start at `a`.
pub open spec fn le_u32(s: Seq<u8>, a: int) -> u32 {
    (s[a] as u32) | ((s[a + 1] as u32) << 8u32) | ((s[a + 2] as u32) << 16u32) | ((s[a
        + 3] as u32) << 24u32)
}

/// The 64-bit value made of the 32-bit values at `a` (low half) and `a + 4`.
pub open spec fn le_u64(s: Seq<u8>, a: int) -> u64 {
    ((le_u32(s, a + 4) as u64) << 32u64) | (le_u32(s, a) as u64)
}

/// The 128-bit value made of the 64-bit values at `a` (low half) and `a + 8`.
pub open spec fn le_u128(s: Seq<u8>, a: int) -> u128 {
    ((le_u64(s, a + 8) as u128) << 64u128) | (le_u64(s, a) as u128)
}

/// `s` with the four little-endian bytes of `v` stored from `a` on.
pub open spec fn put_u32(s: Seq<u8>, a: int, v: u32) -> Seq<u8> {
    s.update(a, (v & 0xffu32) as u8).update(a + 1, ((v >> 8u32) & 0xffu32) as u8).update(
        a + 2,
        ((v >> 16u32) & 0xffu32) as u8,
    ).update(a + 3, ((v >> 24u32) & 0xffu32) as u8)
}

/// `z` is the first zero byte at or after `a`.
pub open spec fn nul_at(s: Seq<u8>, a: int, z: int) -> bool {
    &&& 0 <= a <= z < s.len()
    &&& s[z] == 0
    &&& forall|i: int| a <= i < z ==> s[i] != 0
}

/// Some byte at or after `a` is zero.
pub open spec fn has_nul(s: Seq<u8>, a: int) -> bool {
    exists|z: int| nul_at(s, a, z)
}

proof fn lemma_u32_bytes(v: u32)
    by (bit_vector)
    ensures
        (((v & 0xffu32) as u8) as u32) | (((((v >> 8u32) & 0xffu32) as u8) as u32) << 8u32) | (((((v
            >> 16u32) & 0xffu32) as u8) as u32) << 16u32) | (((((v >> 24u32) & 0xffu32) as u8) as u32)
            << 24u32) == v,
{
}

/// Storing a 32-bit value and reading it back at the same address gives the value.
pub proof fn lemma_write_read_u32(s: Seq<u8>, a: int, v: u32)
    requires
        0 <= a,
        a + 4 <= s.len(),
    ensures
        put_u32(s, a, v).len() == s.len(),
        le_u32(put_u32(s, a, v), a) == v,
{
    let t = put_u32(s, a, v);
    assert(t[a] == (v & 0xffu32) as u8);
    assert(t[a + 1] == ((v >> 8u32) & 0xffu32) as u8);
    assert(t[a + 2] == ((v >> 16u32) & 0xffu32) as u8);
    assert(t[a + 3] == ((v >> 24u32) & 0xffu32) as u8);
    lemma_u32_bytes(v);
}

/// Storing a byte and reading it back at the same address gives the byte.
pub proof fn lemma_write_read_u8(s: Seq<u8>, a: int, v: u8)
    requires
        0 <= a < s.len(),
    ensures
        s.update(a, v)[a] == v,
{
}

/// Storing a 64-bit value as two 32-bit halves (low half first) and reading
/// 64 bits back at the same address gives the value.
pub proof fn lemma_write_halves_read_u64(s: Seq<u8>, a: int, v: u64)
    requires
        0 <= a,
        a + 8 <= s.len(),
    ensures
        le_u64(put_u32(put_u32(s, a, v as u32), a + 4, (v >> 32u64) as u32), a) == v,
{
    let lo = v as u32;
    let hi = (v >> 32u64) as u32;
    let s1 = put_u32(s, a, lo);
    let s2 = put_u32(s1, a + 4, hi);
    lemma_write_read_u32(s, a, lo);
    lemma_write_read_u32(s1, a + 4, hi);
    assert(s2.subrange(a, a + 4) == s1.subrange(a, a + 4));
    assert(s2[a] == s1[a] && s2[a + 1] == s1[a + 1] && s2[a + 2] == s1[a + 2] && s2[a + 3] == s1[a + 3]);
    assert(le_u32(s2, a) == lo);
    assert(((hi as u64) << 32u64) | (lo as u64) == v) by (bit_vector)
        requires
            lo == v as u32,
            hi == (v >> 32u64) as u32,
    ;
}

/// Storing a 128-bit value as four 32-bit words (least significant first) and
/// reading 128 bits back at the same address gives the value.
pub proof fn lemma_write_words_read_u128(s: Seq<u8>, a: int, v: u128)
    requires
        0 <= a,
        a + 16 <= s.len(),
    ensures
        le_u128(
            put_u32(
                put_u32(put_u32(put_u32(s, a, v as u32), a + 4, (v >> 32u128) as u32), a + 8, (v >> 64u128) as u32),
                a + 12,
                (v >> 96u128) as u32,
            ),
            a,
        ) == v,
{
    let lo = v as u64;
    let hi = (v >> 64u128) as u64;
    let s2 = put_u32(put_u32(s, a, v as u32), a + 4, (v >> 32u128) as u32);
    let s4 = put_u32(put_u32(s2, a + 8, (v >> 64u128) as u32), a + 12, (v >> 96u128) as u32);
    assert(v as u32 == lo as u32 && (v >> 32u128) as u32 == (lo >> 32u64) as u32) by (bit_vector)
        requires
            lo == v as u64,
    ;
    assert((v >> 64u128) as u32 == hi as u32 && (v >> 96u128) as u32 == (hi >> 32u64) as u32) by (bit_vector)
        requires
            hi == (v >> 64u128) as u64,
    ;
    lemma_write_halves_read_u64(s, a, lo);
    lemma_write_halves_read_u64(s2, a + 8, hi);
    assert forall|i: int| a <= i < a + 8 implies s4[i] == s2[i] by {}
    assert(le_u64(s4, a) == le_u64(s2, a));
    assert(((hi as u128) << 64u128) | (lo as u128) == v) by (bit_vector)
        requires
            lo == v as u64,
            hi == (v >> 64u128) as u64,
    ;
}

/// Relies on std::str::from_utf8: it accepts exactly the valid UTF-8 byte
/// strings, and then holds the characters that they encode.
#[verifier::external_body]
fn utf8_to_string(b: &[u8]) -> (r: Option<String>)
    ensures
        r is Some <==> valid_utf8(b@),
        r matches Some(s) ==> s@ == decode_utf8(b@),
{
    match std::str::from_utf8(b) {
        Ok(s) => Some(s.to_owned()),
        Err(_) => None,
    }
}

/// The contents of one linear memory.
#[derive(Clone, Debug)]
pub struct MemImage {
    pub image: Vec<u8>,
    pub len: usize,
}

impl MemImage {
    /// The buffer holds `len` bytes, and `len` fits a 32-bit address space.
    pub open spec fn wf(&self) -> bool {
        &&& self.image@.len() == self.len
        &&& self.len <= address_space()
    }

    /// The current bytes.
    pub open spec fn bytes(&self) -> Seq<u8> {
        self.image@
    }

    /// `size` bytes from `addr` on lie inside the memory.
    pub open spec fn in_bounds(&self, addr: int, size: int) -> bool {
        addr + size <= self.len
    }

    /// Whether `size` bytes from `addr` can be read: false where `addr + size`
    /// overflows 32 bits.
    pub fn can_read(&self, addr: u32, size: u32) -> (r: bool)
        requires
            self.wf(),
        ensures
            r == (addr + size < address_space() && self.in_bounds(addr as int, size as int)),
    {
        match addr.checked_add(size) {
            Some(end) => (end as usize) <= self.len,
            None => false,
        }
    }

    pub fn read_u8(&self, addr: u32) -> (r: Result<u8, ImageError>)
        requires
            self.wf(),
        ensures
            self.in_bounds(addr as int, 1) ==> r == Ok::<u8, ImageError>(self.bytes()[addr as int]),
            !self.in_bounds(addr as int, 1) ==> r == Err::<u8, ImageError>(ImageError::OutOfBounds),
    {
        let a = addr as usize;
        if a < self.image.len() {
            Ok(self.image[a])
        } else {
            Err(ImageError::OutOfBounds)
        }
    }

    pub fn read_u16(&self, addr: u32) -> (r: Result<u16, ImageError>)
        requires
            self.wf(),
        ensures
            self.in_bounds(addr as int, 2) ==> r == Ok::<u16, ImageError>(le_u16(self.bytes(), addr as int)),
            !self.in_bounds(addr as int, 2) ==> r == Err::<u16, ImageError>(ImageError::OutOfBounds),
    {
        let a = addr as usize;
        if a >= self.len || self.len - a < 2 {
            return Err(ImageError::OutOfBounds);
        }
        Ok((self.image[a] as u16) | ((self.image[a + 1] as u16) << 8u16))
    }

    pub fn read_u32(&self, addr: u32) -> (r: Result<u32, ImageError>)
        requires
            self.wf(),
        ensures
            self.in_bounds(addr as int, 4) ==> r == Ok::<u32, ImageError>(le_u32(self.bytes(), addr as int)),
            !self.in_bounds(addr as int, 4) ==> r == Err::<u32, ImageError>(ImageError::OutOfBounds),
    {
        let a = addr as usize;
        if a >= self.len || self.len - a < 4 {
            return Err(ImageError::OutOfBounds);
        }
        Ok((self.image[a] as u32) | ((self.image[a + 1] as u32) << 8u32) | ((self.image[a + 2] as u32)
            << 16u32) | ((self.image[a + 3] as u32) << 24u32))
    }

    /// Two 32-bit reads: the low half at `addr`, the high half at `addr + 4`.
    pub fn read_u64(&self, addr: u32) -> (r: Result<u64, ImageError>)
        requires
            self.wf(),
        ensures
            self.in_bounds(addr as int, 8) ==> r == Ok::<u64, ImageError>(le_u64(self.bytes(), addr as int)),
            !self.in_bounds(addr as int, 8) ==> r == Err::<u64, ImageError>(ImageError::OutOfBounds),
    {
        let low = self.read_u32(addr)?;
        let high_addr = match addr.checked_add(4) {
            Some(h) => h,
            None => return Err(ImageError::OutOfBounds),
        };
        let high = self.read_u32(high_addr)?;
        Ok(((high as u64) << 32u64) | (low as u64))
    }

    /// Two 64-bit reads: the low half at `addr`, the high half at `addr + 8`.
    pub fn read_u128(&self, addr: u32) -> (r: Result<u128, ImageError>)
        requires
            self.wf(),
        ensures
            self.in_bounds(addr as int, 16) ==> r == Ok::<u128, ImageError>(le_u128(self.bytes(), addr as int)),
            !self.in_bounds(addr as int, 16) ==> r == Err::<u128, ImageError>(ImageError::OutOfBounds),
    {
        let low = self.read_u64(addr)?;
        let high_addr = match addr.checked_add(8) {
            Some(h) => h,
            None => return Err(ImageError::OutOfBounds),
        };
        let high = self.read_u64(high_addr)?;
        Ok(((high as u128) << 64u128) | (low as u128))
    }

    /// The string whose bytes run from `addr` up to the next zero byte.
    pub fn read_str(&self, addr: u32) -> (r: Result<String, ImageError>)
        requires
            self.wf(),
        ensures
            !has_nul(self.bytes(), addr as int) <==> r == Err::<String, ImageError>(ImageError::OutOfBounds),
            forall|z: int| #[trigger] nul_at(self.bytes(), addr as int, z) ==> {
                let b = self.bytes().subrange(addr as int, z);
                &&& valid_utf8(b) ==> (r is Ok && r->Ok_0@ == decode_utf8(b))
                &&& !valid_utf8(b) ==> r == Err::<String, ImageError>(ImageError::InvalidUtf8)
            },
    {
        let start = addr as usize;
        if start >= self.len {
            return Err(ImageError::OutOfBounds);
        }
        let mut bytes: Vec<u8> = Vec::new();
        let mut cur: usize = start;
        while cur < self.len && self.image[cur] != 0
            invariant
                self.wf(),
                start <= cur <= self.len,
                bytes@ == self.bytes().subrange(start as int, cur as int),
                forall|i: int| start <= i < cur ==> self.bytes()[i] != 0,
            decreases self.len - cur,
        {
            bytes.push(self.image[cur]);
            cur = cur + 1;
        }
        if cur >= self.len {
            assert forall|z: int| !nul_at(self.bytes(), addr as int, z) by {}
            return Err(ImageError::OutOfBounds);
        }
        assert(nul_at(self.bytes(), addr as int, cur as int));
        assert forall|z: int| nul_at(self.bytes(), addr as int, z) implies z == cur by {}
        match utf8_to_string(bytes.as_slice()) {
            Some(s) => Ok(s),
            None => Err(ImageError::InvalidUtf8),
        }
    }

    pub fn write_u8(&mut self, addr: u32, value: u8) -> (r: Result<(), ImageError>)
        requires
            old(self).wf(),
        ensures
            final(self).wf(),
            final(self).len == old(self).len,
            old(self).in_bounds(addr as int, 1) ==> r is Ok && final(self).bytes() == old(self).bytes().update(addr as int, value),
            !old(self).in_bounds(addr as int, 1) ==> r == Err::<(), ImageError>(ImageError::OutOfBounds) && *final(self) == *old(self),
    {
        let a = addr as usize;
        if a >= self.image.len() {
            return Err(ImageError::OutOfBounds);
        }
        self.image.set(a, value);
        Ok(())
    }

    pub fn write_u32(&mut self, addr: u32, value: u32) -> (r: Result<(), ImageError>)
        requires
            old(self).wf(),
        ensures
            final(self).wf(),
            final(self).len == old(self).len,
            old(self).in_bounds(addr as int, 4) ==> r is Ok && final(self).bytes() == put_u32(old(self).bytes(), addr as int, value),
            !old(self).in_bounds(addr as int, 4) ==> r == Err::<(), ImageError>(ImageError::OutOfBounds) && *final(self) == *old(self),
    {
        let a = addr as usize;
        if a >= self.len || self.len - a < 4 {
            return Err(ImageError::OutOfBounds);
        }
        self.image.set(a, (value & 0xffu32) as u8);
        self.image.set(a + 1, ((value >> 8u32) & 0xffu32) as u8);
        self.image.set(a + 2, ((value >> 16u32) & 0xffu32) as u8);
        self.image.set(a + 3, ((value >> 24u32) & 0xffu32) as u8);
        Ok(())
    }
}

} // verus!
