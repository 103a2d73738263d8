//! Hardware checksum engine.

use vstd::prelude::*;

verus! {

/// The endianness used when computing checksums.
#[derive(Clone, Copy, Debug, PartialEq, Eq, Structural)]
pub enum Endianness {
    /// Big endian
    Big,
    /// Little endian
    Little,
}

/// A write to the configuration register of the engine. Fields that a write
/// does not name are written as 0.
#[derive(Clone, Copy, Debug, PartialEq, Eq, Structural)]
pub struct CksConfig {
    /// Clears the state of the engine.
    pub clear: bool,
    /// Swaps the bytes of each 16-bit word: set for big endian.
    pub byte_swap: bool,
}

/// Checksum engine abstraction
pub struct Checksum<CKS> {
    cks: CKS,
}

impl<CKS> Checksum<CKS> {
    /// The peripheral that the engine holds.
    pub closed spec fn cks(&self) -> CKS {
        self.cks
    }

    /// Takes ownership of the peripheral `cks`, so that nothing else changes
    /// or resets its state, and returns the engine with the write that
    /// resets it for `endianness`.
    pub fn new(cks: CKS, endianness: Endianness) -> (out: (Self, CksConfig))
        ensures
            out.0.cks() == cks,
            out.1 == (CksConfig { clear: true, byte_swap: endianness == Endianness::Big }),
    {
        let checksum = Checksum { cks };
        let write = checksum.reset(endianness);
        (checksum, write)
    }

    /// The write that resets the engine and sets the `endianness`.
    pub fn reset(&self, endianness: Endianness) -> (write: CksConfig)
        ensures
            write == (CksConfig { clear: true, byte_swap: endianness == Endianness::Big }),
    {
        CksConfig {
            clear: true,
            byte_swap: match endianness {
                Endianness::Big => true,
                Endianness::Little => false,
            },
        }
    }

    /// The write that sets the `endianness` of the engine.
    pub fn set_endianness(&self, endianness: Endianness) -> (write: CksConfig)
        ensures
            write == (CksConfig { clear: false, byte_swap: endianness == Endianness::Big }),
    {
        CksConfig {
            clear: false,
            byte_swap: match endianness {
                Endianness::Big => true,
                Endianness::Little => false,
            },
        }
    }

    /// The words to store in the data register for `bytes`, one per byte,
    /// in order.
    pub fn write(&self, bytes: &[u8]) -> (words: Vec<u32>)
        ensures
            words@ == Seq::new(bytes@.len(), |i: int| bytes@[i] as u32),
    {
        let mut words: Vec<u32> = Vec::new();
        let mut i: usize = 0;
        while i < bytes.len()
            invariant
                i <= bytes.len(),
                words@ == Seq::new(i as nat, |k: int| bytes@[k] as u32),
            decreases bytes.len() - i,
        {
            words.push(bytes[i] as u32);
            i += 1;
            assert(words@ =~= Seq::new(i as nat, |k: int| bytes@[k] as u32));
        }
        words
    }

    /// The 16-bit checksum in the value `out` of the result register: its
    /// low half.
    pub fn result(&self, out: u32) -> (sum: u16)
        ensures
            sum == out % 0x1_0000,
    {
        (out % 0x1_0000) as u16
    }

    /// Releases the peripheral.
    pub fn free(self) -> (cks: CKS)
        ensures
            cks == self.cks(),
    {
        self.cks
    }
}

} // verus!
