//! Rainbow bytecode runtime: the data model of Rainbow programs, the bytecode
//! decoder and the interpreter's value, frame and scope machinery.

pub mod _type;
pub mod float;
pub mod value;
pub mod error;
pub mod parse_scope;
pub mod names;
pub mod _struct;
pub mod scope;
pub mod frame;

pub mod instruction;
pub mod text;
pub mod ffi_array;
pub mod program;
pub mod chunks;
pub mod raw_instruction;
pub mod types;
pub mod cast;
pub mod jump;
pub mod order;
pub mod interp;
pub mod step;
pub mod machine;
pub mod run;
pub mod calls;
pub mod linker;
pub mod pipeline;
pub mod laws;
