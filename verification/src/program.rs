//! The header of a chunked bytecode program and the kinds of pipeline modules.
use vstd::prelude::*;
use crate::ffi_array::FFIOption;

verus! {

#[derive(Debug)]
pub struct Header {
    pub major_version: u16,
    pub minor_version: u16,
    pub patch_version: u16,

    pub checksum: u32,

    pub endianness: bool,

    pub compressed: bool,
    pub signed: bool,
    pub signature: FFIOption<()>,

    pub body_size: u64,
}

/// Where in the pipeline a module runs: first, in between, or last.
#[derive(Debug, Clone, Copy, PartialEq, Eq, Structural)]
pub enum ModuleType {
    BEGINNING,
    MIDDLE,
    END
}

} // verus!
