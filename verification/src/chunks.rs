//! The chunks of the chunked bytecode format, before their data indices are
//! resolved.
use vstd::prelude::*;
use crate::ffi_array::FFIArray;
use crate::raw_instruction::RawInstruction;
use crate::text::{decimal, push_decimal};
use vstd::string::StringExecFns;

verus! {

#[derive(Debug, Clone)]
pub enum RawCodeBlock {
    Instructions(Vec<RawInstruction>),
    Scope(usize),
    Struct(RawStruct),
    Function(RawFunction),
}

#[derive(Debug, Clone)]
pub struct RawStructVar {
    pub typ: RawType,
    pub name: DataIndex,
    pub default: DataIndex,
}

#[derive(Debug, Clone)]
pub struct RawStruct {
    pub name: DataIndex,
    pub variables: FFIArray<RawStructVar>,
}

#[derive(Debug, Clone)]
pub struct RawArgument {
    pub typ: RawType,
    pub name: DataIndex,
}

#[derive(Debug, Clone)]
pub struct RawFunction {
    pub name: DataIndex,
    pub ret_type: RawType,
    pub args: FFIArray<RawArgument>,
    pub body: usize,
}

#[derive(Debug, Clone)]
pub struct RawCodeChunk {
    pub has_parent: bool,

    pub blocks: FFIArray<RawCodeBlock>,
}

#[derive(Debug, Clone)]
pub enum RawImport {
    FullImport {
        path: DataIndex,
        parent_modules: FFIArray<DataIndex>,
        name: DataIndex,
        as_name: DataIndex,
    },
    ItemImport {
        path: DataIndex,
        parent_modules: FFIArray<DataIndex>,
        name: DataIndex,
        item: DataIndex,
        as_name: DataIndex,
    }
}

#[derive(Debug, Clone)]
pub struct RawExtern {
    pub path: DataIndex,
    pub name: DataIndex,
    pub ret_type: RawType,
    pub arg_types: FFIArray<RawType>,
    pub as_name: DataIndex,
}

#[derive(Debug, Clone)]
pub enum RawModuleBlock {
    Submodule(FFIArray<usize>),
    Import(FFIArray<RawImport>),
    Export(FFIArray<DataIndex>),
    Extern(FFIArray<RawExtern>),
}

#[derive(Debug)]
pub struct RawModuleChunk {
    pub name: DataIndex,
    pub has_parent: bool,
    pub code_chunk: usize,

    pub blocks: FFIArray<RawModuleBlock>,
}

#[derive(Debug, Clone)]
pub struct DataIndex {
    pub chunk: usize,
    pub index: usize
}

#[derive(Debug, Clone)]
pub struct RawFuncRef {
    pub module: FFIArray<DataIndex>,
    pub function: FFIArray<DataIndex>,
    pub name: DataIndex,
    pub is_extern: bool,
}

#[derive(Debug, Clone)]
pub struct RawStructRef {
    pub module: FFIArray<DataIndex>,
    pub function: FFIArray<DataIndex>,
    pub name: DataIndex,
}

#[derive(Debug, Clone)]
#[allow(non_camel_case_types)]
pub enum RawComplexType {
    uXX(DataIndex),
    iXX(DataIndex),
    fXX(DataIndex, DataIndex),
    Struct(DataIndex),
}

#[derive(Debug, Clone)]
pub enum RawMetadata {
    General(DataIndex, DataIndex),
    Byte(usize, usize, DataIndex),
    Element(usize, usize, DataIndex),
}

#[derive(Debug, Clone)]
pub struct RawTypeCast {
    pub type_a: RawType,
    pub type_b: RawType,
    pub function: DataIndex,
}

#[derive(Debug, Clone)]
pub enum RawType {
    Void,
    U8,
    U16,
    U32,
    U64,
    UXX(DataIndex),
    I8,
    I16,
    I32,
    I64,
    IXX(DataIndex),
    F8,
    F16,
    F32,
    F64,
    FXX(DataIndex),
    Struct(DataIndex),
    Name,
    Type,
    FuncRef,
    StructRef,
}

#[derive(Debug, Clone)]
pub struct RawRuntimeConstant {
    pub name: DataIndex,
    pub default: DataIndex,
}

#[derive(Debug, Clone)]
pub struct RawFileImport {
    pub path: DataIndex,
    pub internal_path: DataIndex,
}

#[derive(Debug)]
pub struct ConditionalParsingChunk {
    /// Index of the raw version of this chunk
    pub raw_index: usize,

}


impl DataIndex {
    /// `(chunk, index)`, both in decimal.
    pub fn to_string(&self) -> (s: String)
        ensures
            s@ == seq!['('] + decimal(self.chunk as nat) + seq![',', ' '] + decimal(self.index as nat)
                + seq![')'],
    {
        proof {
            reveal_strlit("(");
            reveal_strlit(", ");
            reveal_strlit(")");
        }
        let mut s = String::from_str("(");
        push_decimal(&mut s, self.chunk as u64);
        s.append(", ");
        push_decimal(&mut s, self.index as u64);
        s.append(")");
        assert(s@ =~= seq!['('] + decimal(self.chunk as nat) + seq![',', ' '] + decimal(self.index as nat)
            + seq![')']);
        s
    }
}

} // verus!
