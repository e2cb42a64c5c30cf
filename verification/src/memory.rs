//! The two-method interface every addressable component presents to the
//! processor, and the errors an access can produce.
use vstd::prelude::*;

verus! {

/// Which direction an access went.
#[derive(Clone, Copy, PartialEq, Eq, Structural, Debug)]
pub enum MemoryOperation {
    Read,
    Write,
}

/// Why an access was refused.
#[derive(Clone, Copy, PartialEq, Eq, Structural, Debug)]
pub enum MemoryError {
    Unmapped { address: u16 },
    Illegal { address: u16, op: MemoryOperation },
    ReadOnly { address: u16 },
}

/// A 16-bit address space of bytes. The bus implements this; the
/// processor only ever goes through it.
pub trait Memory {
    fn read(&self, address: u16) -> Result<u8, MemoryError>;

    fn write(&mut self, address: u16, value: u8) -> Result<(), MemoryError>;
}

} // verus!
