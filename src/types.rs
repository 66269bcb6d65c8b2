//! Plain data shared by the guest machine and the host: cells and the
//! records of the module header.

use vstd::prelude::*;

verus! {

/// The guest machine's 32-bit unit of memory.
pub type Cell = i32;

/// A cell read as unsigned.
pub type Ucell = u32;

/// Bytes per cell.
pub const CELL_SIZE: usize = 4;

/// Size of a long-form stub record: an address and the offset of the name in
/// the name table.
pub const FUNCSTUB_NT_SIZE: usize = 8;

/// The fixed part of a compiled module's header. Offsets count in bytes from
/// the start of the module image.
#[derive(Debug, Clone, Copy, PartialEq, Eq, Structural)]
pub struct AmxHeader {
    pub size: usize,
    pub magic: u16,
    pub file_version: i8,
    pub amx_version: i8,
    pub flags: i16,
    /// Size of one stub record; `FUNCSTUB_NT_SIZE` selects the long form.
    pub defsize: i16,
    pub cod: usize,
    pub dat: usize,
    pub hea: usize,
    pub stp: usize,
    pub cip: usize,
    pub publics: usize,
    pub natives: usize,
    pub libraries: usize,
    pub pubvars: usize,
    pub tags: usize,
    pub nametable: usize,
}

/// A short-form stub record: the address, then the name inline.
#[derive(Debug, Clone, PartialEq, Eq)]
pub struct AmxFuncstub {
    pub address: Ucell,
    pub name: Vec<u8>,
}

/// A long-form stub record: the address, then where the name starts.
#[derive(Debug, Clone, Copy, PartialEq, Eq, Structural)]
pub struct FuncstubNt {
    pub address: Ucell,
    pub nameofs: u32,
}

/// A host function offered to the guest under a name.
#[derive(Debug, Clone, PartialEq, Eq)]
pub struct AmxNativeInfo {
    pub name: String,
    /// The host entry point that the guest will call.
    pub func: Ucell,
}

} // verus!
