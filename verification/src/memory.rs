use vstd::prelude::*;
use crate::error::NesError;

verus! {

/// What a read of cell `idx` of `mem` gives: the byte, or a bus error where
/// the memory has no such cell.
pub open spec fn byte_at(mem: Seq<u8>, idx: int) -> Result<u8, NesError> {
    if 0 <= idx < mem.len() {
        Ok(mem[idx])
    } else {
        Err(NesError::BusError)
    }
}

/// The memory after a write of `data` to cell `idx`; unchanged where the
/// memory has no such cell.
pub open spec fn store_at(mem: Seq<u8>, idx: int, data: u8) -> Seq<u8> {
    if 0 <= idx < mem.len() {
        mem.update(idx, data)
    } else {
        mem
    }
}

/// Whether a write to cell `idx` of `mem` is answered.
pub open spec fn store_result(mem: Seq<u8>, idx: int) -> Result<(), NesError> {
    if 0 <= idx < mem.len() {
        Ok(())
    } else {
        Err(NesError::BusError)
    }
}

/// A memory of `len` cells, all zero.
pub open spec fn zeroed(len: nat) -> Seq<u8> {
    Seq::new(len, |i: int| 0u8)
}

/// Reads cell `idx` of a cartridge memory.
pub fn load_byte(mem: &Vec<u8>, idx: usize) -> (res: Result<u8, NesError>)
    ensures
        res == byte_at(mem@, idx as int),
{
    if idx < mem.len() {
        Ok(mem[idx])
    } else {
        Err(NesError::BusError)
    }
}

/// Writes cell `idx` of a cartridge memory.
pub fn store_byte(mem: &mut Vec<u8>, idx: usize, data: u8) -> (res: Result<(), NesError>)
    ensures
        res == store_result(old(mem)@, idx as int),
        final(mem)@ == store_at(old(mem)@, idx as int, data),
{
    if idx < mem.len() {
        mem[idx] = data;
        Ok(())
    } else {
        Err(NesError::BusError)
    }
}

} // verus!
