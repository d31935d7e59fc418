use vstd::prelude::*;

verus! {

/// The little-endian value of the four bytes of `b` from `o` on.
pub open spec fn le_u32(b: Seq<u8>, o: int) -> int {
    b[o] as int + b[o + 1] as int * 256 + b[o + 2] as int * 65536 + b[o + 3] as int * 16777216
}

/// A process's linear memory: guest addresses are byte offsets into it.
pub struct GuestMemory {
    pub bytes: Vec<u8>,
}

impl GuestMemory {
    /// A memory of `len` zero bytes.
    pub fn zeroed(len: usize) -> (r: Self)
        ensures
            r.bytes@.len() == len,
            forall|i: int| 0 <= i < len ==> r.bytes@[i] == 0,
    {
        let mut bytes: Vec<u8> = Vec::new();
        while bytes.len() < len
            invariant
                bytes@.len() <= len,
                forall|i: int| 0 <= i < bytes@.len() ==> bytes@[i] == 0,
            decreases len - bytes@.len(),
        {
            bytes.push(0);
        }
        GuestMemory { bytes }
    }

    /// A copy of this memory.
    pub fn duplicate(&self) -> (r: Self)
        ensures
            r.bytes@ == self.bytes@,
    {
        GuestMemory { bytes: self.bytes.clone() }
    }

    /// The `u32` stored little-endian at `offset`, or `None` where the four
    /// bytes do not all lie in memory.
    pub fn read_u32(&self, offset: u64) -> (r: Option<u32>)
        ensures
            offset as int + 4 <= self.bytes@.len() ==> r == Some(le_u32(self.bytes@, offset as int) as u32)
                && le_u32(self.bytes@, offset as int) < 0x1_0000_0000,
            offset as int + 4 > self.bytes@.len() ==> r is None,
    {
        if offset > self.bytes.len() as u64 || self.bytes.len() as u64 - offset < 4 {
            return None;
        }
        let o = offset as usize;
        let v = self.bytes[o] as u32 + self.bytes[o + 1] as u32 * 256 + self.bytes[o + 2] as u32
            * 65536 + self.bytes[o + 3] as u32 * 16777216;
        Some(v)
    }

    /// Stores `v` little-endian at `offset`; `false`, and memory unchanged,
    /// where the four bytes do not all lie in memory.
    pub fn write_u32(&mut self, offset: u64, v: u32) -> (r: bool)
        ensures
            r == (offset as int + 4 <= old(self).bytes@.len()),
            final(self).bytes@.len() == old(self).bytes@.len(),
            !r ==> final(self).bytes@ == old(self).bytes@,
            r ==> le_u32(final(self).bytes@, offset as int) == v,
            r ==> forall|i: int|
                0 <= i < old(self).bytes@.len() && !(offset <= i < offset + 4)
                    ==> final(self).bytes@[i] == old(self).bytes@[i],
    {
        if offset > self.bytes.len() as u64 || self.bytes.len() as u64 - offset < 4 {
            return false;
        }
        let o = offset as usize;
        let b0 = (v % 256) as u8;
        let b1 = (v / 256 % 256) as u8;
        let b2 = (v / 65536 % 256) as u8;
        let b3 = (v / 16777216) as u8;
        self.bytes.set(o, b0);
        self.bytes.set(o + 1, b1);
        self.bytes.set(o + 2, b2);
        self.bytes.set(o + 3, b3);
        true
    }

    /// Stores the byte `v` at `offset`; `false`, and memory unchanged, where
    /// `offset` lies outside memory.
    pub fn write_u8(&mut self, offset: u64, v: u8) -> (r: bool)
        ensures
            r == (offset < old(self).bytes@.len()),
            r ==> final(self).bytes@ == old(self).bytes@.update(offset as int, v),
            !r ==> final(self).bytes@ == old(self).bytes@,
    {
        if offset >= self.bytes.len() as u64 {
            return false;
        }
        self.bytes.set(offset as usize, v);
        true
    }
}

} // verus!
