//! Rainbow instructions: the opcodes, their arguments and how the bytecode
//! encodes them.
use vstd::prelude::*;
use crate::_type::{Type, Types};
use crate::value::{Value, ValuesV};

verus! {

/// The kind of an encoded instruction argument: an immediate value, a bytecode
/// string (a name), or a type.
#[derive(Debug, Clone, Copy, PartialEq, Eq, Structural)]
pub enum ArgKind {
    Imm,
    Str,
    Ty,
}

/// A decoded instruction argument.
#[derive(Debug)]
pub enum Arg {
    Imm(Value),
    Str(String),
    Ty(Type),
}

/// The content of an instruction argument.
pub enum ArgV {
    Imm((Seq<Types>, ValuesV)),
    Str(Seq<char>),
    Ty(Seq<Types>),
}

impl View for Arg {
    type V = ArgV;

    open spec fn view(&self) -> ArgV {
        match self {
            Arg::Imm(v) => ArgV::Imm(v@),
            Arg::Str(s) => ArgV::Str(s@),
            Arg::Ty(t) => ArgV::Ty(t@),
        }
    }
}

pub open spec fn arg_kind(a: ArgV) -> ArgKind {
    match a {
        ArgV::Imm(_) => ArgKind::Imm,
        ArgV::Str(_) => ArgKind::Str,
        ArgV::Ty(_) => ArgKind::Ty,
    }
}

/// Whether argument `j` (0, 1 or 2) of variant `n` of an instruction family
/// takes its second form (a variable): bit `j` of `n`.
pub open spec fn second_form(n: int, j: nat) -> bool {
    if j == 0 {
        n % 2 == 1
    } else if j == 1 {
        (n / 2) % 2 == 1
    } else {
        (n / 4) % 2 == 1
    }
}

/// An argument that is an immediate, or a variable in its second form.
pub open spec fn imm_or_var(var: bool) -> ArgKind {
    if var { ArgKind::Str } else { ArgKind::Imm }
}

/// An argument that is a type, or a variable in its second form.
pub open spec fn type_or_var(var: bool) -> ArgKind {
    if var { ArgKind::Str } else { ArgKind::Ty }
}

/// The argument kinds of each opcode, or `None` for a byte that is no opcode.
///
/// Within an instruction family the opcodes count through the combinations of
/// argument forms: bit `j` of the offset from the family's first opcode chooses
/// the second form (a variable) for the `j`-th argument that has two forms.
pub open spec fn signature(op: u8) -> Option<Seq<ArgKind>> {
    let o = op as int;
    if o == 0x00 || o == 0x6A {
        Some(seq![])
    } else if 0x01 <= o <= 0x02 {
        Some(seq![imm_or_var(second_form(o - 0x01, 0))])
    } else if o == 0x03 || 0x06 <= o <= 0x07 || o == 0x6C || o == 0x7F {
        Some(seq![ArgKind::Str])
    } else if o == 0x6B {
        Some(seq![ArgKind::Imm])
    } else if 0x04 <= o <= 0x05 || 0x5C <= o <= 0x5D {
        Some(seq![imm_or_var(second_form(o % 2, 0)), ArgKind::Str])
    } else if 0x6D <= o <= 0x70 {
        Some(seq![imm_or_var(second_form((o - 0x6D) % 2, 0)), ArgKind::Str])
    } else if 0x08 <= o <= 0x17 || 0x50 <= o <= 0x5B || 0x5E <= o <= 0x65 || 0x73 <= o <= 0x76 {
        let base: int = if o <= 0x5B { 0x08 } else if o <= 0x65 { 0x5E } else { 0x73 };
        let n = (o - base) % 4;
        Some(seq![imm_or_var(second_form(n, 0)), imm_or_var(second_form(n, 1)), ArgKind::Str])
    } else if 0x18 <= o <= 0x19 {
        Some(seq![imm_or_var(second_form(o - 0x18, 0))])
    } else if 0x1A <= o <= 0x49 {
        let n = (o - 0x1A) % 8;
        Some(seq![imm_or_var(second_form(n, 0)), imm_or_var(second_form(n, 1)), imm_or_var(second_form(n, 2))])
    } else if 0x4A <= o <= 0x4F {
        Some(seq![imm_or_var((o - 0x4A) % 3 != 0), ArgKind::Str])
    } else if 0x66 <= o <= 0x69 {
        Some(seq![type_or_var(second_form(o - 0x66, 0)), ArgKind::Str])
    } else if 0x71 <= o <= 0x72 {
        Some(seq![ArgKind::Str, ArgKind::Str])
    } else if 0x77 <= o <= 0x7A {
        let n = o - 0x77;
        Some(seq![imm_or_var(second_form(n, 0)), ArgKind::Str, imm_or_var(second_form(n, 1))])
    } else if 0x7B <= o <= 0x7E {
        let n = o - 0x7B;
        Some(seq![type_or_var(second_form(n, 0)), imm_or_var(second_form(n, 1)), ArgKind::Str])
    } else if 0x80 <= o <= 0x83 {
        let n = o - 0x80;
        Some(seq![imm_or_var(second_form(n, 0)), imm_or_var(second_form(n, 1))])
    } else if 0x84 <= o <= 0x8B {
        let n = o - 0x84;
        Some(seq![imm_or_var(second_form(n, 0)), type_or_var(second_form(n, 1)), imm_or_var(second_form(n, 2))])
    } else if 0x8C <= o <= 0x93 {
        let n = o - 0x8C;
        Some(seq![imm_or_var(second_form(n, 0)), imm_or_var(second_form(n, 1)), imm_or_var(second_form(n, 2)), ArgKind::Str])
    } else {
        None
    }
}

/// A Rainbow instruction with its arguments. The suffixes name the forms of the
/// arguments (`I` immediate, `V` variable, `VV` variable holding a name, `T`
/// type).
#[derive(Debug)]
#[allow(non_camel_case_types)]
pub enum Opcode {
    NOP,
    PUSH_IMM(Value),
    PUSH_VAR(String),
    POP(String),
    PEEK_IMM(Value, String),
    PEEK_VAR(String, String),
    CALL_FUNC(String),
    CALL_VAR(String),
    ADD_I_I(Value, Value, String),
    ADD_V_I(String, Value, String),
    ADD_I_V(Value, String, String),
    ADD_V_V(String, String, String),
    SUB_I_I(Value, Value, String),
    SUB_V_I(String, Value, String),
    SUB_I_V(Value, String, String),
    SUB_V_V(String, String, String),
    MUL_I_I(Value, Value, String),
    MUL_V_I(String, Value, String),
    MUL_I_V(Value, String, String),
    MUL_V_V(String, String, String),
    DIV_I_I(Value, Value, String),
    DIV_V_I(String, Value, String),
    DIV_I_V(Value, String, String),
    DIV_V_V(String, String, String),
    JMP_IMM(Value),
    JMP_VAR(String),
    JNE_I_I_I(Value, Value, Value),
    JNE_V_I_I(String, Value, Value),
    JNE_I_V_I(Value, String, Value),
    JNE_V_V_I(String, String, Value),
    JNE_I_I_V(Value, Value, String),
    JNE_V_I_V(String, Value, String),
    JNE_I_V_V(Value, String, String),
    JNE_V_V_V(String, String, String),
    JE_I_I_I(Value, Value, Value),
    JE_V_I_I(String, Value, Value),
    JE_I_V_I(Value, String, Value),
    JE_V_V_I(String, String, Value),
    JE_I_I_V(Value, Value, String),
    JE_V_I_V(String, Value, String),
    JE_I_V_V(Value, String, String),
    JE_V_V_V(String, String, String),
    JGE_I_I_I(Value, Value, Value),
    JGE_V_I_I(String, Value, Value),
    JGE_I_V_I(Value, String, Value),
    JGE_V_V_I(String, String, Value),
    JGE_I_I_V(Value, Value, String),
    JGE_V_I_V(String, Value, String),
    JGE_I_V_V(Value, String, String),
    JGE_V_V_V(String, String, String),
    JG_I_I_I(Value, Value, Value),
    JG_V_I_I(String, Value, Value),
    JG_I_V_I(Value, String, Value),
    JG_V_V_I(String, String, Value),
    JG_I_I_V(Value, Value, String),
    JG_V_I_V(String, Value, String),
    JG_I_V_V(Value, String, String),
    JG_V_V_V(String, String, String),
    JLE_I_I_I(Value, Value, Value),
    JLE_V_I_I(String, Value, Value),
    JLE_I_V_I(Value, String, Value),
    JLE_V_V_I(String, String, Value),
    JLE_I_I_V(Value, Value, String),
    JLE_V_I_V(String, Value, String),
    JLE_I_V_V(Value, String, String),
    JLE_V_V_V(String, String, String),
    JL_I_I_I(Value, Value, Value),
    JL_V_I_I(String, Value, Value),
    JL_I_V_I(Value, String, Value),
    JL_V_V_I(String, String, Value),
    JL_I_I_V(Value, Value, String),
    JL_V_I_V(String, Value, String),
    JL_I_V_V(Value, String, String),
    JL_V_V_V(String, String, String),
    MOV_I_V(Value, String),
    MOV_V_V(String, String),
    MOV_VV_V(String, String),
    MOV_I_VV(Value, String),
    MOV_V_VV(String, String),
    MOV_VV_VV(String, String),
    AND_I_I(Value, Value, String),
    AND_V_I(String, Value, String),
    AND_I_V(Value, String, String),
    AND_V_V(String, String, String),
    OR_I_I(Value, Value, String),
    OR_V_I(String, Value, String),
    OR_I_V(Value, String, String),
    OR_V_V(String, String, String),
    XOR_I_I(Value, Value, String),
    XOR_V_I(String, Value, String),
    XOR_I_V(Value, String, String),
    XOR_V_V(String, String, String),
    NOT_IMM(Value, String),
    NOT_VAR(String, String),
    LSH_I_I(Value, Value, String),
    LSH_V_I(String, Value, String),
    LSH_I_V(Value, String, String),
    LSH_V_V(String, String, String),
    RSH_I_I(Value, Value, String),
    RSH_V_I(String, Value, String),
    RSH_I_V(Value, String, String),
    RSH_V_V(String, String, String),
    VAR_TYPE_NAME(Type, String),
    VAR_VAR_NAME(String, String),
    VAR_TYPE_VAR(Type, String),
    VAR_VAR_VAR(String, String),
    RET,
    RET_IMM(Value),
    RET_VAR(String),
    DEREF_IMM(Value, String),
    DEREF_VAR(String, String),
    REF_IMM(Value, String),
    REF_VAR(String, String),
    INST_NAME(String, String),
    INST_VAR(String, String),
    MOD_I_I(Value, Value, String),
    MOD_V_I(String, Value, String),
    MOD_I_V(Value, String, String),
    MOD_V_V(String, String, String),
    PMOV_IMM_IMM(Value, String, Value),
    PMOV_VAR_IMM(String, String, Value),
    PMOV_IMM_VAR(Value, String, String),
    PMOV_VAR_VAR(String, String, String),
    ALLOC_TYPE_IMM(Type, Value, String),
    ALLOC_VAR_IMM(String, Value, String),
    ALLOC_TYPE_VAR(Type, String, String),
    ALLOC_VAR_VAR(String, String, String),
    FREE_VAR(String),
    FREE_IMM_IMM(Value, Value),
    FREE_VAR_IMM(String, Value),
    FREE_IMM_VAR(Value, String),
    FREE_VAR_VAR(String, String),
    CALLC_I_T_I(Value, Type, Value),
    CALLC_V_T_I(String, Type, Value),
    CALLC_I_V_I(Value, String, Value),
    CALLC_V_V_I(String, String, Value),
    CALLC_I_T_V(Value, Type, String),
    CALLC_V_T_V(String, Type, String),
    CALLC_I_V_V(Value, String, String),
    CALLC_V_V_V(String, String, String),
    CMP_I_I_I(Value, Value, Value, String),
    CMP_V_I_I(String, Value, Value, String),
    CMP_I_V_I(Value, String, Value, String),
    CMP_V_V_I(String, String, Value, String),
    CMP_I_I_V(Value, Value, String, String),
    CMP_V_I_V(String, Value, String, String),
    CMP_I_V_V(Value, String, String, String),
    CMP_V_V_V(String, String, String, String),
}

/// The opcode byte and the arguments of an instruction.
pub open spec fn opcode_view(o: Opcode) -> (u8, Seq<ArgV>) {
    match o {
        Opcode::NOP => (0x00, seq![]),
        Opcode::PUSH_IMM(a) => (0x01, seq![ArgV::Imm(a@)]),
        Opcode::PUSH_VAR(a) => (0x02, seq![ArgV::Str(a@)]),
        Opcode::POP(a) => (0x03, seq![ArgV::Str(a@)]),
        Opcode::PEEK_IMM(a, b) => (0x04, seq![ArgV::Imm(a@), ArgV::Str(b@)]),
        Opcode::PEEK_VAR(a, b) => (0x05, seq![ArgV::Str(a@), ArgV::Str(b@)]),
        Opcode::CALL_FUNC(a) => (0x06, seq![ArgV::Str(a@)]),
        Opcode::CALL_VAR(a) => (0x07, seq![ArgV::Str(a@)]),
        Opcode::ADD_I_I(a, b, c) => (0x08, seq![ArgV::Imm(a@), ArgV::Imm(b@), ArgV::Str(c@)]),
        Opcode::ADD_V_I(a, b, c) => (0x09, seq![ArgV::Str(a@), ArgV::Imm(b@), ArgV::Str(c@)]),
        Opcode::ADD_I_V(a, b, c) => (0x0a, seq![ArgV::Imm(a@), ArgV::Str(b@), ArgV::Str(c@)]),
        Opcode::ADD_V_V(a, b, c) => (0x0b, seq![ArgV::Str(a@), ArgV::Str(b@), ArgV::Str(c@)]),
        Opcode::SUB_I_I(a, b, c) => (0x0c, seq![ArgV::Imm(a@), ArgV::Imm(b@), ArgV::Str(c@)]),
        Opcode::SUB_V_I(a, b, c) => (0x0d, seq![ArgV::Str(a@), ArgV::Imm(b@), ArgV::Str(c@)]),
        Opcode::SUB_I_V(a, b, c) => (0x0e, seq![ArgV::Imm(a@), ArgV::Str(b@), ArgV::Str(c@)]),
        Opcode::SUB_V_V(a, b, c) => (0x0f, seq![ArgV::Str(a@), ArgV::Str(b@), ArgV::Str(c@)]),
        Opcode::MUL_I_I(a, b, c) => (0x10, seq![ArgV::Imm(a@), ArgV::Imm(b@), ArgV::Str(c@)]),
        Opcode::MUL_V_I(a, b, c) => (0x11, seq![ArgV::Str(a@), ArgV::Imm(b@), ArgV::Str(c@)]),
        Opcode::MUL_I_V(a, b, c) => (0x12, seq![ArgV::Imm(a@), ArgV::Str(b@), ArgV::Str(c@)]),
        Opcode::MUL_V_V(a, b, c) => (0x13, seq![ArgV::Str(a@), ArgV::Str(b@), ArgV::Str(c@)]),
        Opcode::DIV_I_I(a, b, c) => (0x14, seq![ArgV::Imm(a@), ArgV::Imm(b@), ArgV::Str(c@)]),
        Opcode::DIV_V_I(a, b, c) => (0x15, seq![ArgV::Str(a@), ArgV::Imm(b@), ArgV::Str(c@)]),
        Opcode::DIV_I_V(a, b, c) => (0x16, seq![ArgV::Imm(a@), ArgV::Str(b@), ArgV::Str(c@)]),
        Opcode::DIV_V_V(a, b, c) => (0x17, seq![ArgV::Str(a@), ArgV::Str(b@), ArgV::Str(c@)]),
        Opcode::JMP_IMM(a) => (0x18, seq![ArgV::Imm(a@)]),
        Opcode::JMP_VAR(a) => (0x19, seq![ArgV::Str(a@)]),
        Opcode::JNE_I_I_I(a, b, c) => (0x1a, seq![ArgV::Imm(a@), ArgV::Imm(b@), ArgV::Imm(c@)]),
        Opcode::JNE_V_I_I(a, b, c) => (0x1b, seq![ArgV::Str(a@), ArgV::Imm(b@), ArgV::Imm(c@)]),
        Opcode::JNE_I_V_I(a, b, c) => (0x1c, seq![ArgV::Imm(a@), ArgV::Str(b@), ArgV::Imm(c@)]),
        Opcode::JNE_V_V_I(a, b, c) => (0x1d, seq![ArgV::Str(a@), ArgV::Str(b@), ArgV::Imm(c@)]),
        Opcode::JNE_I_I_V(a, b, c) => (0x1e, seq![ArgV::Imm(a@), ArgV::Imm(b@), ArgV::Str(c@)]),
        Opcode::JNE_V_I_V(a, b, c) => (0x1f, seq![ArgV::Str(a@), ArgV::Imm(b@), ArgV::Str(c@)]),
        Opcode::JNE_I_V_V(a, b, c) => (0x20, seq![ArgV::Imm(a@), ArgV::Str(b@), ArgV::Str(c@)]),
        Opcode::JNE_V_V_V(a, b, c) => (0x21, seq![ArgV::Str(a@), ArgV::Str(b@), ArgV::Str(c@)]),
        Opcode::JE_I_I_I(a, b, c) => (0x22, seq![ArgV::Imm(a@), ArgV::Imm(b@), ArgV::Imm(c@)]),
        Opcode::JE_V_I_I(a, b, c) => (0x23, seq![ArgV::Str(a@), ArgV::Imm(b@), ArgV::Imm(c@)]),
        Opcode::JE_I_V_I(a, b, c) => (0x24, seq![ArgV::Imm(a@), ArgV::Str(b@), ArgV::Imm(c@)]),
        Opcode::JE_V_V_I(a, b, c) => (0x25, seq![ArgV::Str(a@), ArgV::Str(b@), ArgV::Imm(c@)]),
        Opcode::JE_I_I_V(a, b, c) => (0x26, seq![ArgV::Imm(a@), ArgV::Imm(b@), ArgV::Str(c@)]),
        Opcode::JE_V_I_V(a, b, c) => (0x27, seq![ArgV::Str(a@), ArgV::Imm(b@), ArgV::Str(c@)]),
        Opcode::JE_I_V_V(a, b, c) => (0x28, seq![ArgV::Imm(a@), ArgV::Str(b@), ArgV::Str(c@)]),
        Opcode::JE_V_V_V(a, b, c) => (0x29, seq![ArgV::Str(a@), ArgV::Str(b@), ArgV::Str(c@)]),
        Opcode::JGE_I_I_I(a, b, c) => (0x2a, seq![ArgV::Imm(a@), ArgV::Imm(b@), ArgV::Imm(c@)]),
        Opcode::JGE_V_I_I(a, b, c) => (0x2b, seq![ArgV::Str(a@), ArgV::Imm(b@), ArgV::Imm(c@)]),
        Opcode::JGE_I_V_I(a, b, c) => (0x2c, seq![ArgV::Imm(a@), ArgV::Str(b@), ArgV::Imm(c@)]),
        Opcode::JGE_V_V_I(a, b, c) => (0x2d, seq![ArgV::Str(a@), ArgV::Str(b@), ArgV::Imm(c@)]),
        Opcode::JGE_I_I_V(a, b, c) => (0x2e, seq![ArgV::Imm(a@), ArgV::Imm(b@), ArgV::Str(c@)]),
        Opcode::JGE_V_I_V(a, b, c) => (0x2f, seq![ArgV::Str(a@), ArgV::Imm(b@), ArgV::Str(c@)]),
        Opcode::JGE_I_V_V(a, b, c) => (0x30, seq![ArgV::Imm(a@), ArgV::Str(b@), ArgV::Str(c@)]),
        Opcode::JGE_V_V_V(a, b, c) => (0x31, seq![ArgV::Str(a@), ArgV::Str(b@), ArgV::Str(c@)]),
        Opcode::JG_I_I_I(a, b, c) => (0x32, seq![ArgV::Imm(a@), ArgV::Imm(b@), ArgV::Imm(c@)]),
        Opcode::JG_V_I_I(a, b, c) => (0x33, seq![ArgV::Str(a@), ArgV::Imm(b@), ArgV::Imm(c@)]),
        Opcode::JG_I_V_I(a, b, c) => (0x34, seq![ArgV::Imm(a@), ArgV::Str(b@), ArgV::Imm(c@)]),
        Opcode::JG_V_V_I(a, b, c) => (0x35, seq![ArgV::Str(a@), ArgV::Str(b@), ArgV::Imm(c@)]),
        Opcode::JG_I_I_V(a, b, c) => (0x36, seq![ArgV::Imm(a@), ArgV::Imm(b@), ArgV::Str(c@)]),
        Opcode::JG_V_I_V(a, b, c) => (0x37, seq![ArgV::Str(a@), ArgV::Imm(b@), ArgV::Str(c@)]),
        Opcode::JG_I_V_V(a, b, c) => (0x38, seq![ArgV::Imm(a@), ArgV::Str(b@), ArgV::Str(c@)]),
        Opcode::JG_V_V_V(a, b, c) => (0x39, seq![ArgV::Str(a@), ArgV::Str(b@), ArgV::Str(c@)]),
        Opcode::JLE_I_I_I(a, b, c) => (0x3a, seq![ArgV::Imm(a@), ArgV::Imm(b@), ArgV::Imm(c@)]),
        Opcode::JLE_V_I_I(a, b, c) => (0x3b, seq![ArgV::Str(a@), ArgV::Imm(b@), ArgV::Imm(c@)]),
        Opcode::JLE_I_V_I(a, b, c) => (0x3c, seq![ArgV::Imm(a@), ArgV::Str(b@), ArgV::Imm(c@)]),
        Opcode::JLE_V_V_I(a, b, c) => (0x3d, seq![ArgV::Str(a@), ArgV::Str(b@), ArgV::Imm(c@)]),
        Opcode::JLE_I_I_V(a, b, c) => (0x3e, seq![ArgV::Imm(a@), ArgV::Imm(b@), ArgV::Str(c@)]),
        Opcode::JLE_V_I_V(a, b, c) => (0x3f, seq![ArgV::Str(a@), ArgV::Imm(b@), ArgV::Str(c@)]),
        Opcode::JLE_I_V_V(a, b, c) => (0x40, seq![ArgV::Imm(a@), ArgV::Str(b@), ArgV::Str(c@)]),
        Opcode::JLE_V_V_V(a, b, c) => (0x41, seq![ArgV::Str(a@), ArgV::Str(b@), ArgV::Str(c@)]),
        Opcode::JL_I_I_I(a, b, c) => (0x42, seq![ArgV::Imm(a@), ArgV::Imm(b@), ArgV::Imm(c@)]),
        Opcode::JL_V_I_I(a, b, c) => (0x43, seq![ArgV::Str(a@), ArgV::Imm(b@), ArgV::Imm(c@)]),
        Opcode::JL_I_V_I(a, b, c) => (0x44, seq![ArgV::Imm(a@), ArgV::Str(b@), ArgV::Imm(c@)]),
        Opcode::JL_V_V_I(a, b, c) => (0x45, seq![ArgV::Str(a@), ArgV::Str(b@), ArgV::Imm(c@)]),
        Opcode::JL_I_I_V(a, b, c) => (0x46, seq![ArgV::Imm(a@), ArgV::Imm(b@), ArgV::Str(c@)]),
        Opcode::JL_V_I_V(a, b, c) => (0x47, seq![ArgV::Str(a@), ArgV::Imm(b@), ArgV::Str(c@)]),
        Opcode::JL_I_V_V(a, b, c) => (0x48, seq![ArgV::Imm(a@), ArgV::Str(b@), ArgV::Str(c@)]),
        Opcode::JL_V_V_V(a, b, c) => (0x49, seq![ArgV::Str(a@), ArgV::Str(b@), ArgV::Str(c@)]),
        Opcode::MOV_I_V(a, b) => (0x4a, seq![ArgV::Imm(a@), ArgV::Str(b@)]),
        Opcode::MOV_V_V(a, b) => (0x4b, seq![ArgV::Str(a@), ArgV::Str(b@)]),
        Opcode::MOV_VV_V(a, b) => (0x4c, seq![ArgV::Str(a@), ArgV::Str(b@)]),
        Opcode::MOV_I_VV(a, b) => (0x4d, seq![ArgV::Imm(a@), ArgV::Str(b@)]),
        Opcode::MOV_V_VV(a, b) => (0x4e, seq![ArgV::Str(a@), ArgV::Str(b@)]),
        Opcode::MOV_VV_VV(a, b) => (0x4f, seq![ArgV::Str(a@), ArgV::Str(b@)]),
        Opcode::AND_I_I(a, b, c) => (0x50, seq![ArgV::Imm(a@), ArgV::Imm(b@), ArgV::Str(c@)]),
        Opcode::AND_V_I(a, b, c) => (0x51, seq![ArgV::Str(a@), ArgV::Imm(b@), ArgV::Str(c@)]),
        Opcode::AND_I_V(a, b, c) => (0x52, seq![ArgV::Imm(a@), ArgV::Str(b@), ArgV::Str(c@)]),
        Opcode::AND_V_V(a, b, c) => (0x53, seq![ArgV::Str(a@), ArgV::Str(b@), ArgV::Str(c@)]),
        Opcode::OR_I_I(a, b, c) => (0x54, seq![ArgV::Imm(a@), ArgV::Imm(b@), ArgV::Str(c@)]),
        Opcode::OR_V_I(a, b, c) => (0x55, seq![ArgV::Str(a@), ArgV::Imm(b@), ArgV::Str(c@)]),
        Opcode::OR_I_V(a, b, c) => (0x56, seq![ArgV::Imm(a@), ArgV::Str(b@), ArgV::Str(c@)]),
        Opcode::OR_V_V(a, b, c) => (0x57, seq![ArgV::Str(a@), ArgV::Str(b@), ArgV::Str(c@)]),
        Opcode::XOR_I_I(a, b, c) => (0x58, seq![ArgV::Imm(a@), ArgV::Imm(b@), ArgV::Str(c@)]),
        Opcode::XOR_V_I(a, b, c) => (0x59, seq![ArgV::Str(a@), ArgV::Imm(b@), ArgV::Str(c@)]),
        Opcode::XOR_I_V(a, b, c) => (0x5a, seq![ArgV::Imm(a@), ArgV::Str(b@), ArgV::Str(c@)]),
        Opcode::XOR_V_V(a, b, c) => (0x5b, seq![ArgV::Str(a@), ArgV::Str(b@), ArgV::Str(c@)]),
        Opcode::NOT_IMM(a, b) => (0x5c, seq![ArgV::Imm(a@), ArgV::Str(b@)]),
        Opcode::NOT_VAR(a, b) => (0x5d, seq![ArgV::Str(a@), ArgV::Str(b@)]),
        Opcode::LSH_I_I(a, b, c) => (0x5e, seq![ArgV::Imm(a@), ArgV::Imm(b@), ArgV::Str(c@)]),
        Opcode::LSH_V_I(a, b, c) => (0x5f, seq![ArgV::Str(a@), ArgV::Imm(b@), ArgV::Str(c@)]),
        Opcode::LSH_I_V(a, b, c) => (0x60, seq![ArgV::Imm(a@), ArgV::Str(b@), ArgV::Str(c@)]),
        Opcode::LSH_V_V(a, b, c) => (0x61, seq![ArgV::Str(a@), ArgV::Str(b@), ArgV::Str(c@)]),
        Opcode::RSH_I_I(a, b, c) => (0x62, seq![ArgV::Imm(a@), ArgV::Imm(b@), ArgV::Str(c@)]),
        Opcode::RSH_V_I(a, b, c) => (0x63, seq![ArgV::Str(a@), ArgV::Imm(b@), ArgV::Str(c@)]),
        Opcode::RSH_I_V(a, b, c) => (0x64, seq![ArgV::Imm(a@), ArgV::Str(b@), ArgV::Str(c@)]),
        Opcode::RSH_V_V(a, b, c) => (0x65, seq![ArgV::Str(a@), ArgV::Str(b@), ArgV::Str(c@)]),
        Opcode::VAR_TYPE_NAME(a, b) => (0x66, seq![ArgV::Ty(a@), ArgV::Str(b@)]),
        Opcode::VAR_VAR_NAME(a, b) => (0x67, seq![ArgV::Str(a@), ArgV::Str(b@)]),
        Opcode::VAR_TYPE_VAR(a, b) => (0x68, seq![ArgV::Ty(a@), ArgV::Str(b@)]),
        Opcode::VAR_VAR_VAR(a, b) => (0x69, seq![ArgV::Str(a@), ArgV::Str(b@)]),
        Opcode::RET => (0x6a, seq![]),
        Opcode::RET_IMM(a) => (0x6b, seq![ArgV::Imm(a@)]),
        Opcode::RET_VAR(a) => (0x6c, seq![ArgV::Str(a@)]),
        Opcode::DEREF_IMM(a, b) => (0x6d, seq![ArgV::Imm(a@), ArgV::Str(b@)]),
        Opcode::DEREF_VAR(a, b) => (0x6e, seq![ArgV::Str(a@), ArgV::Str(b@)]),
        Opcode::REF_IMM(a, b) => (0x6f, seq![ArgV::Imm(a@), ArgV::Str(b@)]),
        Opcode::REF_VAR(a, b) => (0x70, seq![ArgV::Str(a@), ArgV::Str(b@)]),
        Opcode::INST_NAME(a, b) => (0x71, seq![ArgV::Str(a@), ArgV::Str(b@)]),
        Opcode::INST_VAR(a, b) => (0x72, seq![ArgV::Str(a@), ArgV::Str(b@)]),
        Opcode::MOD_I_I(a, b, c) => (0x73, seq![ArgV::Imm(a@), ArgV::Imm(b@), ArgV::Str(c@)]),
        Opcode::MOD_V_I(a, b, c) => (0x74, seq![ArgV::Str(a@), ArgV::Imm(b@), ArgV::Str(c@)]),
        Opcode::MOD_I_V(a, b, c) => (0x75, seq![ArgV::Imm(a@), ArgV::Str(b@), ArgV::Str(c@)]),
        Opcode::MOD_V_V(a, b, c) => (0x76, seq![ArgV::Str(a@), ArgV::Str(b@), ArgV::Str(c@)]),
        Opcode::PMOV_IMM_IMM(a, b, c) => (0x77, seq![ArgV::Imm(a@), ArgV::Str(b@), ArgV::Imm(c@)]),
        Opcode::PMOV_VAR_IMM(a, b, c) => (0x78, seq![ArgV::Str(a@), ArgV::Str(b@), ArgV::Imm(c@)]),
        Opcode::PMOV_IMM_VAR(a, b, c) => (0x79, seq![ArgV::Imm(a@), ArgV::Str(b@), ArgV::Str(c@)]),
        Opcode::PMOV_VAR_VAR(a, b, c) => (0x7a, seq![ArgV::Str(a@), ArgV::Str(b@), ArgV::Str(c@)]),
        Opcode::ALLOC_TYPE_IMM(a, b, c) => (0x7b, seq![ArgV::Ty(a@), ArgV::Imm(b@), ArgV::Str(c@)]),
        Opcode::ALLOC_VAR_IMM(a, b, c) => (0x7c, seq![ArgV::Str(a@), ArgV::Imm(b@), ArgV::Str(c@)]),
        Opcode::ALLOC_TYPE_VAR(a, b, c) => (0x7d, seq![ArgV::Ty(a@), ArgV::Str(b@), ArgV::Str(c@)]),
        Opcode::ALLOC_VAR_VAR(a, b, c) => (0x7e, seq![ArgV::Str(a@), ArgV::Str(b@), ArgV::Str(c@)]),
        Opcode::FREE_VAR(a) => (0x7f, seq![ArgV::Str(a@)]),
        Opcode::FREE_IMM_IMM(a, b) => (0x80, seq![ArgV::Imm(a@), ArgV::Imm(b@)]),
        Opcode::FREE_VAR_IMM(a, b) => (0x81, seq![ArgV::Str(a@), ArgV::Imm(b@)]),
        Opcode::FREE_IMM_VAR(a, b) => (0x82, seq![ArgV::Imm(a@), ArgV::Str(b@)]),
        Opcode::FREE_VAR_VAR(a, b) => (0x83, seq![ArgV::Str(a@), ArgV::Str(b@)]),
        Opcode::CALLC_I_T_I(a, b, c) => (0x84, seq![ArgV::Imm(a@), ArgV::Ty(b@), ArgV::Imm(c@)]),
        Opcode::CALLC_V_T_I(a, b, c) => (0x85, seq![ArgV::Str(a@), ArgV::Ty(b@), ArgV::Imm(c@)]),
        Opcode::CALLC_I_V_I(a, b, c) => (0x86, seq![ArgV::Imm(a@), ArgV::Str(b@), ArgV::Imm(c@)]),
        Opcode::CALLC_V_V_I(a, b, c) => (0x87, seq![ArgV::Str(a@), ArgV::Str(b@), ArgV::Imm(c@)]),
        Opcode::CALLC_I_T_V(a, b, c) => (0x88, seq![ArgV::Imm(a@), ArgV::Ty(b@), ArgV::Str(c@)]),
        Opcode::CALLC_V_T_V(a, b, c) => (0x89, seq![ArgV::Str(a@), ArgV::Ty(b@), ArgV::Str(c@)]),
        Opcode::CALLC_I_V_V(a, b, c) => (0x8a, seq![ArgV::Imm(a@), ArgV::Str(b@), ArgV::Str(c@)]),
        Opcode::CALLC_V_V_V(a, b, c) => (0x8b, seq![ArgV::Str(a@), ArgV::Str(b@), ArgV::Str(c@)]),
        Opcode::CMP_I_I_I(a, b, c, d) => (0x8c, seq![ArgV::Imm(a@), ArgV::Imm(b@), ArgV::Imm(c@), ArgV::Str(d@)]),
        Opcode::CMP_V_I_I(a, b, c, d) => (0x8d, seq![ArgV::Str(a@), ArgV::Imm(b@), ArgV::Imm(c@), ArgV::Str(d@)]),
        Opcode::CMP_I_V_I(a, b, c, d) => (0x8e, seq![ArgV::Imm(a@), ArgV::Str(b@), ArgV::Imm(c@), ArgV::Str(d@)]),
        Opcode::CMP_V_V_I(a, b, c, d) => (0x8f, seq![ArgV::Str(a@), ArgV::Str(b@), ArgV::Imm(c@), ArgV::Str(d@)]),
        Opcode::CMP_I_I_V(a, b, c, d) => (0x90, seq![ArgV::Imm(a@), ArgV::Imm(b@), ArgV::Str(c@), ArgV::Str(d@)]),
        Opcode::CMP_V_I_V(a, b, c, d) => (0x91, seq![ArgV::Str(a@), ArgV::Imm(b@), ArgV::Str(c@), ArgV::Str(d@)]),
        Opcode::CMP_I_V_V(a, b, c, d) => (0x92, seq![ArgV::Imm(a@), ArgV::Str(b@), ArgV::Str(c@), ArgV::Str(d@)]),
        Opcode::CMP_V_V_V(a, b, c, d) => (0x93, seq![ArgV::Str(a@), ArgV::Str(b@), ArgV::Str(c@), ArgV::Str(d@)]),
    }
}

impl Opcode {
    /// The opcode byte of this instruction.
    pub fn to_u8(&self) -> (res: u8)
        ensures
            res == opcode_view(*self).0,
    {
        match self {
            Opcode::NOP => 0x00,
            Opcode::PUSH_IMM(_) => 0x01,
            Opcode::PUSH_VAR(_) => 0x02,
            Opcode::POP(_) => 0x03,
            Opcode::PEEK_IMM(_, _) => 0x04,
            Opcode::PEEK_VAR(_, _) => 0x05,
            Opcode::CALL_FUNC(_) => 0x06,
            Opcode::CALL_VAR(_) => 0x07,
            Opcode::ADD_I_I(_, _, _) => 0x08,
            Opcode::ADD_V_I(_, _, _) => 0x09,
            Opcode::ADD_I_V(_, _, _) => 0x0a,
            Opcode::ADD_V_V(_, _, _) => 0x0b,
            Opcode::SUB_I_I(_, _, _) => 0x0c,
            Opcode::SUB_V_I(_, _, _) => 0x0d,
            Opcode::SUB_I_V(_, _, _) => 0x0e,
            Opcode::SUB_V_V(_, _, _) => 0x0f,
            Opcode::MUL_I_I(_, _, _) => 0x10,
            Opcode::MUL_V_I(_, _, _) => 0x11,
            Opcode::MUL_I_V(_, _, _) => 0x12,
            Opcode::MUL_V_V(_, _, _) => 0x13,
            Opcode::DIV_I_I(_, _, _) => 0x14,
            Opcode::DIV_V_I(_, _, _) => 0x15,
            Opcode::DIV_I_V(_, _, _) => 0x16,
            Opcode::DIV_V_V(_, _, _) => 0x17,
            Opcode::JMP_IMM(_) => 0x18,
            Opcode::JMP_VAR(_) => 0x19,
            Opcode::JNE_I_I_I(_, _, _) => 0x1a,
            Opcode::JNE_V_I_I(_, _, _) => 0x1b,
            Opcode::JNE_I_V_I(_, _, _) => 0x1c,
            Opcode::JNE_V_V_I(_, _, _) => 0x1d,
            Opcode::JNE_I_I_V(_, _, _) => 0x1e,
            Opcode::JNE_V_I_V(_, _, _) => 0x1f,
            Opcode::JNE_I_V_V(_, _, _) => 0x20,
            Opcode::JNE_V_V_V(_, _, _) => 0x21,
            Opcode::JE_I_I_I(_, _, _) => 0x22,
            Opcode::JE_V_I_I(_, _, _) => 0x23,
            Opcode::JE_I_V_I(_, _, _) => 0x24,
            Opcode::JE_V_V_I(_, _, _) => 0x25,
            Opcode::JE_I_I_V(_, _, _) => 0x26,
            Opcode::JE_V_I_V(_, _, _) => 0x27,
            Opcode::JE_I_V_V(_, _, _) => 0x28,
            Opcode::JE_V_V_V(_, _, _) => 0x29,
            Opcode::JGE_I_I_I(_, _, _) => 0x2a,
            Opcode::JGE_V_I_I(_, _, _) => 0x2b,
            Opcode::JGE_I_V_I(_, _, _) => 0x2c,
            Opcode::JGE_V_V_I(_, _, _) => 0x2d,
            Opcode::JGE_I_I_V(_, _, _) => 0x2e,
            Opcode::JGE_V_I_V(_, _, _) => 0x2f,
            Opcode::JGE_I_V_V(_, _, _) => 0x30,
            Opcode::JGE_V_V_V(_, _, _) => 0x31,
            Opcode::JG_I_I_I(_, _, _) => 0x32,
            Opcode::JG_V_I_I(_, _, _) => 0x33,
            Opcode::JG_I_V_I(_, _, _) => 0x34,
            Opcode::JG_V_V_I(_, _, _) => 0x35,
            Opcode::JG_I_I_V(_, _, _) => 0x36,
            Opcode::JG_V_I_V(_, _, _) => 0x37,
            Opcode::JG_I_V_V(_, _, _) => 0x38,
            Opcode::JG_V_V_V(_, _, _) => 0x39,
            Opcode::JLE_I_I_I(_, _, _) => 0x3a,
            Opcode::JLE_V_I_I(_, _, _) => 0x3b,
            Opcode::JLE_I_V_I(_, _, _) => 0x3c,
            Opcode::JLE_V_V_I(_, _, _) => 0x3d,
            Opcode::JLE_I_I_V(_, _, _) => 0x3e,
            Opcode::JLE_V_I_V(_, _, _) => 0x3f,
            Opcode::JLE_I_V_V(_, _, _) => 0x40,
            Opcode::JLE_V_V_V(_, _, _) => 0x41,
            Opcode::JL_I_I_I(_, _, _) => 0x42,
            Opcode::JL_V_I_I(_, _, _) => 0x43,
            Opcode::JL_I_V_I(_, _, _) => 0x44,
            Opcode::JL_V_V_I(_, _, _) => 0x45,
            Opcode::JL_I_I_V(_, _, _) => 0x46,
            Opcode::JL_V_I_V(_, _, _) => 0x47,
            Opcode::JL_I_V_V(_, _, _) => 0x48,
            Opcode::JL_V_V_V(_, _, _) => 0x49,
            Opcode::MOV_I_V(_, _) => 0x4a,
            Opcode::MOV_V_V(_, _) => 0x4b,
            Opcode::MOV_VV_V(_, _) => 0x4c,
            Opcode::MOV_I_VV(_, _) => 0x4d,
            Opcode::MOV_V_VV(_, _) => 0x4e,
            Opcode::MOV_VV_VV(_, _) => 0x4f,
            Opcode::AND_I_I(_, _, _) => 0x50,
            Opcode::AND_V_I(_, _, _) => 0x51,
            Opcode::AND_I_V(_, _, _) => 0x52,
            Opcode::AND_V_V(_, _, _) => 0x53,
            Opcode::OR_I_I(_, _, _) => 0x54,
            Opcode::OR_V_I(_, _, _) => 0x55,
            Opcode::OR_I_V(_, _, _) => 0x56,
            Opcode::OR_V_V(_, _, _) => 0x57,
            Opcode::XOR_I_I(_, _, _) => 0x58,
            Opcode::XOR_V_I(_, _, _) => 0x59,
            Opcode::XOR_I_V(_, _, _) => 0x5a,
            Opcode::XOR_V_V(_, _, _) => 0x5b,
            Opcode::NOT_IMM(_, _) => 0x5c,
            Opcode::NOT_VAR(_, _) => 0x5d,
            Opcode::LSH_I_I(_, _, _) => 0x5e,
            Opcode::LSH_V_I(_, _, _) => 0x5f,
            Opcode::LSH_I_V(_, _, _) => 0x60,
            Opcode::LSH_V_V(_, _, _) => 0x61,
            Opcode::RSH_I_I(_, _, _) => 0x62,
            Opcode::RSH_V_I(_, _, _) => 0x63,
            Opcode::RSH_I_V(_, _, _) => 0x64,
            Opcode::RSH_V_V(_, _, _) => 0x65,
            Opcode::VAR_TYPE_NAME(_, _) => 0x66,
            Opcode::VAR_VAR_NAME(_, _) => 0x67,
            Opcode::VAR_TYPE_VAR(_, _) => 0x68,
            Opcode::VAR_VAR_VAR(_, _) => 0x69,
            Opcode::RET => 0x6a,
            Opcode::RET_IMM(_) => 0x6b,
            Opcode::RET_VAR(_) => 0x6c,
            Opcode::DEREF_IMM(_, _) => 0x6d,
            Opcode::DEREF_VAR(_, _) => 0x6e,
            Opcode::REF_IMM(_, _) => 0x6f,
            Opcode::REF_VAR(_, _) => 0x70,
            Opcode::INST_NAME(_, _) => 0x71,
            Opcode::INST_VAR(_, _) => 0x72,
            Opcode::MOD_I_I(_, _, _) => 0x73,
            Opcode::MOD_V_I(_, _, _) => 0x74,
            Opcode::MOD_I_V(_, _, _) => 0x75,
            Opcode::MOD_V_V(_, _, _) => 0x76,
            Opcode::PMOV_IMM_IMM(_, _, _) => 0x77,
            Opcode::PMOV_VAR_IMM(_, _, _) => 0x78,
            Opcode::PMOV_IMM_VAR(_, _, _) => 0x79,
            Opcode::PMOV_VAR_VAR(_, _, _) => 0x7a,
            Opcode::ALLOC_TYPE_IMM(_, _, _) => 0x7b,
            Opcode::ALLOC_VAR_IMM(_, _, _) => 0x7c,
            Opcode::ALLOC_TYPE_VAR(_, _, _) => 0x7d,
            Opcode::ALLOC_VAR_VAR(_, _, _) => 0x7e,
            Opcode::FREE_VAR(_) => 0x7f,
            Opcode::FREE_IMM_IMM(_, _) => 0x80,
            Opcode::FREE_VAR_IMM(_, _) => 0x81,
            Opcode::FREE_IMM_VAR(_, _) => 0x82,
            Opcode::FREE_VAR_VAR(_, _) => 0x83,
            Opcode::CALLC_I_T_I(_, _, _) => 0x84,
            Opcode::CALLC_V_T_I(_, _, _) => 0x85,
            Opcode::CALLC_I_V_I(_, _, _) => 0x86,
            Opcode::CALLC_V_V_I(_, _, _) => 0x87,
            Opcode::CALLC_I_T_V(_, _, _) => 0x88,
            Opcode::CALLC_V_T_V(_, _, _) => 0x89,
            Opcode::CALLC_I_V_V(_, _, _) => 0x8a,
            Opcode::CALLC_V_V_V(_, _, _) => 0x8b,
            Opcode::CMP_I_I_I(_, _, _, _) => 0x8c,
            Opcode::CMP_V_I_I(_, _, _, _) => 0x8d,
            Opcode::CMP_I_V_I(_, _, _, _) => 0x8e,
            Opcode::CMP_V_V_I(_, _, _, _) => 0x8f,
            Opcode::CMP_I_I_V(_, _, _, _) => 0x90,
            Opcode::CMP_V_I_V(_, _, _, _) => 0x91,
            Opcode::CMP_I_V_V(_, _, _, _) => 0x92,
            Opcode::CMP_V_V_V(_, _, _, _) => 0x93,
        }
    }
}

/// An instruction and the position of its opcode byte in the bytecode.
#[derive(Debug)]
pub struct Instruction {
    pub index: usize,
    pub opcode: Opcode,
}

/// Whether argument `j` (at most 2) of variant `n` takes its second form.
fn second(n: u8, j: u8) -> (res: bool)
    requires
        j <= 2,
    ensures
        res == second_form(n as int, j as nat),
{
    if j == 0 {
        n % 2 == 1
    } else if j == 1 {
        (n / 2) % 2 == 1
    } else {
        (n / 4) % 2 == 1
    }
}

fn iv(var: bool) -> (res: ArgKind)
    ensures
        res == imm_or_var(var),
{
    if var { ArgKind::Str } else { ArgKind::Imm }
}

fn tv(var: bool) -> (res: ArgKind)
    ensures
        res == type_or_var(var),
{
    if var { ArgKind::Str } else { ArgKind::Ty }
}

fn kinds1(a: ArgKind) -> (res: Vec<ArgKind>)
    ensures
        res@ == seq![a],
{
    let mut v = Vec::new();
    v.push(a);
    proof {
        assert(v@ =~= seq![a]);
    }
    v
}

fn kinds2(a: ArgKind, b: ArgKind) -> (res: Vec<ArgKind>)
    ensures
        res@ == seq![a, b],
{
    let mut v = kinds1(a);
    v.push(b);
    proof {
        assert(v@ =~= seq![a, b]);
    }
    v
}

fn kinds3(a: ArgKind, b: ArgKind, c: ArgKind) -> (res: Vec<ArgKind>)
    ensures
        res@ == seq![a, b, c],
{
    let mut v = kinds2(a, b);
    v.push(c);
    proof {
        assert(v@ =~= seq![a, b, c]);
    }
    v
}

fn kinds4(a: ArgKind, b: ArgKind, c: ArgKind, d: ArgKind) -> (res: Vec<ArgKind>)
    ensures
        res@ == seq![a, b, c, d],
{
    let mut v = kinds3(a, b, c);
    v.push(d);
    proof {
        assert(v@ =~= seq![a, b, c, d]);
    }
    v
}

/// Removes the last argument.
fn take_last(args: &mut Vec<Arg>) -> (a: Arg)
    requires
        old(args)@.len() > 0,
    ensures
        final(args)@ == old(args)@.drop_last(),
        a == old(args)@.last(),
{
    args.pop().unwrap()
}

/// The views of a list of arguments.
pub open spec fn arg_views(args: Seq<Arg>) -> Seq<ArgV> {
    args.map_values(|a: Arg| a@)
}

/// The kinds of a list of arguments.
pub open spec fn arg_kinds_of(args: Seq<Arg>) -> Seq<ArgKind> {
    args.map_values(|a: Arg| arg_kind(a@))
}

fn build_opcode_0(op: u8, args: Vec<Arg>) -> (res: Opcode)
    requires
        0x00 <= op <= 0x07,
        signature(op) == Some(arg_kinds_of(args@)),
    ensures
        opcode_view(res) == (op, arg_views(args@)),
{
    let ghost orig = args@;
    let mut args = args;
    match op {
        0x00 => {
            proof {
                assert(arg_kinds_of(orig).len() == 0);
                assert(arg_views(orig) =~= seq![]);
            }
            Opcode::NOP
        },
        0x01 => {
            proof {
                assert(arg_kinds_of(orig).len() == 1);
            }
            let a = take_last(&mut args);
            proof {
                assert(orig =~= seq![a]);
                assert(arg_views(orig) =~= seq![a@]);
            }
            match (a,) {
                (Arg::Imm(a),) => Opcode::PUSH_IMM(a),
                _ => {
                    proof {
                        assert(arg_kinds_of(orig) =~= seq![arg_kind(orig[0]@)]);
                        assert(signature(op).unwrap()[0] == ArgKind::Imm);
                        assert(false);
                    }
                    Opcode::NOP
                },
            }
        },
        0x02 => {
            proof {
                assert(arg_kinds_of(orig).len() == 1);
            }
            let a = take_last(&mut args);
            proof {
                assert(orig =~= seq![a]);
                assert(arg_views(orig) =~= seq![a@]);
            }
            match (a,) {
                (Arg::Str(a),) => Opcode::PUSH_VAR(a),
                _ => {
                    proof {
                        assert(arg_kinds_of(orig) =~= seq![arg_kind(orig[0]@)]);
                        assert(signature(op).unwrap()[0] == ArgKind::Str);
                        assert(false);
                    }
                    Opcode::NOP
                },
            }
        },
        0x03 => {
            proof {
                assert(arg_kinds_of(orig).len() == 1);
            }
            let a = take_last(&mut args);
            proof {
                assert(orig =~= seq![a]);
                assert(arg_views(orig) =~= seq![a@]);
            }
            match (a,) {
                (Arg::Str(a),) => Opcode::POP(a),
                _ => {
                    proof {
                        assert(arg_kinds_of(orig) =~= seq![arg_kind(orig[0]@)]);
                        assert(signature(op).unwrap()[0] == ArgKind::Str);
                        assert(false);
                    }
                    Opcode::NOP
                },
            }
        },
        0x04 => {
            proof {
                assert(arg_kinds_of(orig).len() == 2);
            }
            let b = take_last(&mut args);
            let a = take_last(&mut args);
            proof {
                assert(orig =~= seq![a, b]);
                assert(arg_views(orig) =~= seq![a@, b@]);
            }
            match (a, b) {
                (Arg::Imm(a), Arg::Str(b)) => Opcode::PEEK_IMM(a, b),
                _ => {
                    proof {
                        assert(arg_kinds_of(orig) =~= seq![arg_kind(orig[0]@), arg_kind(orig[1]@)]);
                        assert(signature(op).unwrap()[0] == ArgKind::Imm);
                        assert(signature(op).unwrap()[1] == ArgKind::Str);
                        assert(false);
                    }
                    Opcode::NOP
                },
            }
        },
        0x05 => {
            proof {
                assert(arg_kinds_of(orig).len() == 2);
            }
            let b = take_last(&mut args);
            let a = take_last(&mut args);
            proof {
                assert(orig =~= seq![a, b]);
                assert(arg_views(orig) =~= seq![a@, b@]);
            }
            match (a, b) {
                (Arg::Str(a), Arg::Str(b)) => Opcode::PEEK_VAR(a, b),
                _ => {
                    proof {
                        assert(arg_kinds_of(orig) =~= seq![arg_kind(orig[0]@), arg_kind(orig[1]@)]);
                        assert(signature(op).unwrap()[0] == ArgKind::Str);
                        assert(signature(op).unwrap()[1] == ArgKind::Str);
                        assert(false);
                    }
                    Opcode::NOP
                },
            }
        },
        0x06 => {
            proof {
                assert(arg_kinds_of(orig).len() == 1);
            }
            let a = take_last(&mut args);
            proof {
                assert(orig =~= seq![a]);
                assert(arg_views(orig) =~= seq![a@]);
            }
            match (a,) {
                (Arg::Str(a),) => Opcode::CALL_FUNC(a),
                _ => {
                    proof {
                        assert(arg_kinds_of(orig) =~= seq![arg_kind(orig[0]@)]);
                        assert(signature(op).unwrap()[0] == ArgKind::Str);
                        assert(false);
                    }
                    Opcode::NOP
                },
            }
        },
        0x07 => {
            proof {
                assert(arg_kinds_of(orig).len() == 1);
            }
            let a = take_last(&mut args);
            proof {
                assert(orig =~= seq![a]);
                assert(arg_views(orig) =~= seq![a@]);
            }
            match (a,) {
                (Arg::Str(a),) => Opcode::CALL_VAR(a),
                _ => {
                    proof {
                        assert(arg_kinds_of(orig) =~= seq![arg_kind(orig[0]@)]);
                        assert(signature(op).unwrap()[0] == ArgKind::Str);
                        assert(false);
                    }
                    Opcode::NOP
                },
            }
        },
        _ => {
            proof {
                assert(false);
            }
            Opcode::NOP
        },
    }
}

fn build_opcode_1(op: u8, args: Vec<Arg>) -> (res: Opcode)
    requires
        0x08 <= op <= 0x0f,
        signature(op) == Some(arg_kinds_of(args@)),
    ensures
        opcode_view(res) == (op, arg_views(args@)),
{
    let ghost orig = args@;
    let mut args = args;
    match op {
        0x08 => {
            proof {
                assert(arg_kinds_of(orig).len() == 3);
            }
            let c = take_last(&mut args);
            let b = take_last(&mut args);
            let a = take_last(&mut args);
            proof {
                assert(orig =~= seq![a, b, c]);
                assert(arg_views(orig) =~= seq![a@, b@, c@]);
            }
            match (a, b, c) {
                (Arg::Imm(a), Arg::Imm(b), Arg::Str(c)) => Opcode::ADD_I_I(a, b, c),
                _ => {
                    proof {
                        assert(arg_kinds_of(orig) =~= seq![arg_kind(orig[0]@), arg_kind(orig[1]@), arg_kind(orig[2]@)]);
                        assert(signature(op).unwrap()[0] == ArgKind::Imm);
                        assert(signature(op).unwrap()[1] == ArgKind::Imm);
                        assert(signature(op).unwrap()[2] == ArgKind::Str);
                        assert(false);
                    }
                    Opcode::NOP
                },
            }
        },
        0x09 => {
            proof {
                assert(arg_kinds_of(orig).len() == 3);
            }
            let c = take_last(&mut args);
            let b = take_last(&mut args);
            let a = take_last(&mut args);
            proof {
                assert(orig =~= seq![a, b, c]);
                assert(arg_views(orig) =~= seq![a@, b@, c@]);
            }
            match (a, b, c) {
                (Arg::Str(a), Arg::Imm(b), Arg::Str(c)) => Opcode::ADD_V_I(a, b, c),
                _ => {
                    proof {
                        assert(arg_kinds_of(orig) =~= seq![arg_kind(orig[0]@), arg_kind(orig[1]@), arg_kind(orig[2]@)]);
                        assert(signature(op).unwrap()[0] == ArgKind::Str);
                        assert(signature(op).unwrap()[1] == ArgKind::Imm);
                        assert(signature(op).unwrap()[2] == ArgKind::Str);
                        assert(false);
                    }
                    Opcode::NOP
                },
            }
        },
        0x0a => {
            proof {
                assert(arg_kinds_of(orig).len() == 3);
            }
            let c = take_last(&mut args);
            let b = take_last(&mut args);
            let a = take_last(&mut args);
            proof {
                assert(orig =~= seq![a, b, c]);
                assert(arg_views(orig) =~= seq![a@, b@, c@]);
            }
            match (a, b, c) {
                (Arg::Imm(a), Arg::Str(b), Arg::Str(c)) => Opcode::ADD_I_V(a, b, c),
                _ => {
                    proof {
                        assert(arg_kinds_of(orig) =~= seq![arg_kind(orig[0]@), arg_kind(orig[1]@), arg_kind(orig[2]@)]);
                        assert(signature(op).unwrap()[0] == ArgKind::Imm);
                        assert(signature(op).unwrap()[1] == ArgKind::Str);
                        assert(signature(op).unwrap()[2] == ArgKind::Str);
                        assert(false);
                    }
                    Opcode::NOP
                },
            }
        },
        0x0b => {
            proof {
                assert(arg_kinds_of(orig).len() == 3);
            }
            let c = take_last(&mut args);
            let b = take_last(&mut args);
            let a = take_last(&mut args);
            proof {
                assert(orig =~= seq![a, b, c]);
                assert(arg_views(orig) =~= seq![a@, b@, c@]);
            }
            match (a, b, c) {
                (Arg::Str(a), Arg::Str(b), Arg::Str(c)) => Opcode::ADD_V_V(a, b, c),
                _ => {
                    proof {
                        assert(arg_kinds_of(orig) =~= seq![arg_kind(orig[0]@), arg_kind(orig[1]@), arg_kind(orig[2]@)]);
                        assert(signature(op).unwrap()[0] == ArgKind::Str);
                        assert(signature(op).unwrap()[1] == ArgKind::Str);
                        assert(signature(op).unwrap()[2] == ArgKind::Str);
                        assert(false);
                    }
                    Opcode::NOP
                },
            }
        },
        0x0c => {
            proof {
                assert(arg_kinds_of(orig).len() == 3);
            }
            let c = take_last(&mut args);
            let b = take_last(&mut args);
            let a = take_last(&mut args);
            proof {
                assert(orig =~= seq![a, b, c]);
                assert(arg_views(orig) =~= seq![a@, b@, c@]);
            }
            match (a, b, c) {
                (Arg::Imm(a), Arg::Imm(b), Arg::Str(c)) => Opcode::SUB_I_I(a, b, c),
                _ => {
                    proof {
                        assert(arg_kinds_of(orig) =~= seq![arg_kind(orig[0]@), arg_kind(orig[1]@), arg_kind(orig[2]@)]);
                        assert(signature(op).unwrap()[0] == ArgKind::Imm);
                        assert(signature(op).unwrap()[1] == ArgKind::Imm);
                        assert(signature(op).unwrap()[2] == ArgKind::Str);
                        assert(false);
                    }
                    Opcode::NOP
                },
            }
        },
        0x0d => {
            proof {
                assert(arg_kinds_of(orig).len() == 3);
            }
            let c = take_last(&mut args);
            let b = take_last(&mut args);
            let a = take_last(&mut args);
            proof {
                assert(orig =~= seq![a, b, c]);
                assert(arg_views(orig) =~= seq![a@, b@, c@]);
            }
            match (a, b, c) {
                (Arg::Str(a), Arg::Imm(b), Arg::Str(c)) => Opcode::SUB_V_I(a, b, c),
                _ => {
                    proof {
                        assert(arg_kinds_of(orig) =~= seq![arg_kind(orig[0]@), arg_kind(orig[1]@), arg_kind(orig[2]@)]);
                        assert(signature(op).unwrap()[0] == ArgKind::Str);
                        assert(signature(op).unwrap()[1] == ArgKind::Imm);
                        assert(signature(op).unwrap()[2] == ArgKind::Str);
                        assert(false);
                    }
                    Opcode::NOP
                },
            }
        },
        0x0e => {
            proof {
                assert(arg_kinds_of(orig).len() == 3);
            }
            let c = take_last(&mut args);
            let b = take_last(&mut args);
            let a = take_last(&mut args);
            proof {
                assert(orig =~= seq![a, b, c]);
                assert(arg_views(orig) =~= seq![a@, b@, c@]);
            }
            match (a, b, c) {
                (Arg::Imm(a), Arg::Str(b), Arg::Str(c)) => Opcode::SUB_I_V(a, b, c),
                _ => {
                    proof {
                        assert(arg_kinds_of(orig) =~= seq![arg_kind(orig[0]@), arg_kind(orig[1]@), arg_kind(orig[2]@)]);
                        assert(signature(op).unwrap()[0] == ArgKind::Imm);
                        assert(signature(op).unwrap()[1] == ArgKind::Str);
                        assert(signature(op).unwrap()[2] == ArgKind::Str);
                        assert(false);
                    }
                    Opcode::NOP
                },
            }
        },
        0x0f => {
            proof {
                assert(arg_kinds_of(orig).len() == 3);
            }
            let c = take_last(&mut args);
            let b = take_last(&mut args);
            let a = take_last(&mut args);
            proof {
                assert(orig =~= seq![a, b, c]);
                assert(arg_views(orig) =~= seq![a@, b@, c@]);
            }
            match (a, b, c) {
                (Arg::Str(a), Arg::Str(b), Arg::Str(c)) => Opcode::SUB_V_V(a, b, c),
                _ => {
                    proof {
                        assert(arg_kinds_of(orig) =~= seq![arg_kind(orig[0]@), arg_kind(orig[1]@), arg_kind(orig[2]@)]);
                        assert(signature(op).unwrap()[0] == ArgKind::Str);
                        assert(signature(op).unwrap()[1] == ArgKind::Str);
                        assert(signature(op).unwrap()[2] == ArgKind::Str);
                        assert(false);
                    }
                    Opcode::NOP
                },
            }
        },
        _ => {
            proof {
                assert(false);
            }
            Opcode::NOP
        },
    }
}

fn build_opcode_2(op: u8, args: Vec<Arg>) -> (res: Opcode)
    requires
        0x10 <= op <= 0x17,
        signature(op) == Some(arg_kinds_of(args@)),
    ensures
        opcode_view(res) == (op, arg_views(args@)),
{
    let ghost orig = args@;
    let mut args = args;
    match op {
        0x10 => {
            proof {
                assert(arg_kinds_of(orig).len() == 3);
            }
            let c = take_last(&mut args);
            let b = take_last(&mut args);
            let a = take_last(&mut args);
            proof {
                assert(orig =~= seq![a, b, c]);
                assert(arg_views(orig) =~= seq![a@, b@, c@]);
            }
            match (a, b, c) {
                (Arg::Imm(a), Arg::Imm(b), Arg::Str(c)) => Opcode::MUL_I_I(a, b, c),
                _ => {
                    proof {
                        assert(arg_kinds_of(orig) =~= seq![arg_kind(orig[0]@), arg_kind(orig[1]@), arg_kind(orig[2]@)]);
                        assert(signature(op).unwrap()[0] == ArgKind::Imm);
                        assert(signature(op).unwrap()[1] == ArgKind::Imm);
                        assert(signature(op).unwrap()[2] == ArgKind::Str);
                        assert(false);
                    }
                    Opcode::NOP
                },
            }
        },
        0x11 => {
            proof {
                assert(arg_kinds_of(orig).len() == 3);
            }
            let c = take_last(&mut args);
            let b = take_last(&mut args);
            let a = take_last(&mut args);
            proof {
                assert(orig =~= seq![a, b, c]);
                assert(arg_views(orig) =~= seq![a@, b@, c@]);
            }
            match (a, b, c) {
                (Arg::Str(a), Arg::Imm(b), Arg::Str(c)) => Opcode::MUL_V_I(a, b, c),
                _ => {
                    proof {
                        assert(arg_kinds_of(orig) =~= seq![arg_kind(orig[0]@), arg_kind(orig[1]@), arg_kind(orig[2]@)]);
                        assert(signature(op).unwrap()[0] == ArgKind::Str);
                        assert(signature(op).unwrap()[1] == ArgKind::Imm);
                        assert(signature(op).unwrap()[2] == ArgKind::Str);
                        assert(false);
                    }
                    Opcode::NOP
                },
            }
        },
        0x12 => {
            proof {
                assert(arg_kinds_of(orig).len() == 3);
            }
            let c = take_last(&mut args);
            let b = take_last(&mut args);
            let a = take_last(&mut args);
            proof {
                assert(orig =~= seq![a, b, c]);
                assert(arg_views(orig) =~= seq![a@, b@, c@]);
            }
            match (a, b, c) {
                (Arg::Imm(a), Arg::Str(b), Arg::Str(c)) => Opcode::MUL_I_V(a, b, c),
                _ => {
                    proof {
                        assert(arg_kinds_of(orig) =~= seq![arg_kind(orig[0]@), arg_kind(orig[1]@), arg_kind(orig[2]@)]);
                        assert(signature(op).unwrap()[0] == ArgKind::Imm);
                        assert(signature(op).unwrap()[1] == ArgKind::Str);
                        assert(signature(op).unwrap()[2] == ArgKind::Str);
                        assert(false);
                    }
                    Opcode::NOP
                },
            }
        },
        0x13 => {
            proof {
                assert(arg_kinds_of(orig).len() == 3);
            }
            let c = take_last(&mut args);
            let b = take_last(&mut args);
            let a = take_last(&mut args);
            proof {
                assert(orig =~= seq![a, b, c]);
                assert(arg_views(orig) =~= seq![a@, b@, c@]);
            }
            match (a, b, c) {
                (Arg::Str(a), Arg::Str(b), Arg::Str(c)) => Opcode::MUL_V_V(a, b, c),
                _ => {
                    proof {
                        assert(arg_kinds_of(orig) =~= seq![arg_kind(orig[0]@), arg_kind(orig[1]@), arg_kind(orig[2]@)]);
                        assert(signature(op).unwrap()[0] == ArgKind::Str);
                        assert(signature(op).unwrap()[1] == ArgKind::Str);
                        assert(signature(op).unwrap()[2] == ArgKind::Str);
                        assert(false);
                    }
                    Opcode::NOP
                },
            }
        },
        0x14 => {
            proof {
                assert(arg_kinds_of(orig).len() == 3);
            }
            let c = take_last(&mut args);
            let b = take_last(&mut args);
            let a = take_last(&mut args);
            proof {
                assert(orig =~= seq![a, b, c]);
                assert(arg_views(orig) =~= seq![a@, b@, c@]);
            }
            match (a, b, c) {
                (Arg::Imm(a), Arg::Imm(b), Arg::Str(c)) => Opcode::DIV_I_I(a, b, c),
                _ => {
                    proof {
                        assert(arg_kinds_of(orig) =~= seq![arg_kind(orig[0]@), arg_kind(orig[1]@), arg_kind(orig[2]@)]);
                        assert(signature(op).unwrap()[0] == ArgKind::Imm);
                        assert(signature(op).unwrap()[1] == ArgKind::Imm);
                        assert(signature(op).unwrap()[2] == ArgKind::Str);
                        assert(false);
                    }
                    Opcode::NOP
                },
            }
        },
        0x15 => {
            proof {
                assert(arg_kinds_of(orig).len() == 3);
            }
            let c = take_last(&mut args);
            let b = take_last(&mut args);
            let a = take_last(&mut args);
            proof {
                assert(orig =~= seq![a, b, c]);
                assert(arg_views(orig) =~= seq![a@, b@, c@]);
            }
            match (a, b, c) {
                (Arg::Str(a), Arg::Imm(b), Arg::Str(c)) => Opcode::DIV_V_I(a, b, c),
                _ => {
                    proof {
                        assert(arg_kinds_of(orig) =~= seq![arg_kind(orig[0]@), arg_kind(orig[1]@), arg_kind(orig[2]@)]);
                        assert(signature(op).unwrap()[0] == ArgKind::Str);
                        assert(signature(op).unwrap()[1] == ArgKind::Imm);
                        assert(signature(op).unwrap()[2] == ArgKind::Str);
                        assert(false);
                    }
                    Opcode::NOP
                },
            }
        },
        0x16 => {
            proof {
                assert(arg_kinds_of(orig).len() == 3);
            }
            let c = take_last(&mut args);
            let b = take_last(&mut args);
            let a = take_last(&mut args);
            proof {
                assert(orig =~= seq![a, b, c]);
                assert(arg_views(orig) =~= seq![a@, b@, c@]);
            }
            match (a, b, c) {
                (Arg::Imm(a), Arg::Str(b), Arg::Str(c)) => Opcode::DIV_I_V(a, b, c),
                _ => {
                    proof {
                        assert(arg_kinds_of(orig) =~= seq![arg_kind(orig[0]@), arg_kind(orig[1]@), arg_kind(orig[2]@)]);
                        assert(signature(op).unwrap()[0] == ArgKind::Imm);
                        assert(signature(op).unwrap()[1] == ArgKind::Str);
                        assert(signature(op).unwrap()[2] == ArgKind::Str);
                        assert(false);
                    }
                    Opcode::NOP
                },
            }
        },
        0x17 => {
            proof {
                assert(arg_kinds_of(orig).len() == 3);
            }
            let c = take_last(&mut args);
            let b = take_last(&mut args);
            let a = take_last(&mut args);
            proof {
                assert(orig =~= seq![a, b, c]);
                assert(arg_views(orig) =~= seq![a@, b@, c@]);
            }
            match (a, b, c) {
                (Arg::Str(a), Arg::Str(b), Arg::Str(c)) => Opcode::DIV_V_V(a, b, c),
                _ => {
                    proof {
                        assert(arg_kinds_of(orig) =~= seq![arg_kind(orig[0]@), arg_kind(orig[1]@), arg_kind(orig[2]@)]);
                        assert(signature(op).unwrap()[0] == ArgKind::Str);
                        assert(signature(op).unwrap()[1] == ArgKind::Str);
                        assert(signature(op).unwrap()[2] == ArgKind::Str);
                        assert(false);
                    }
                    Opcode::NOP
                },
            }
        },
        _ => {
            proof {
                assert(false);
            }
            Opcode::NOP
        },
    }
}

fn build_opcode_3(op: u8, args: Vec<Arg>) -> (res: Opcode)
    requires
        0x18 <= op <= 0x1f,
        signature(op) == Some(arg_kinds_of(args@)),
    ensures
        opcode_view(res) == (op, arg_views(args@)),
{
    let ghost orig = args@;
    let mut args = args;
    match op {
        0x18 => {
            proof {
                assert(arg_kinds_of(orig).len() == 1);
            }
            let a = take_last(&mut args);
            proof {
                assert(orig =~= seq![a]);
                assert(arg_views(orig) =~= seq![a@]);
            }
            match (a,) {
                (Arg::Imm(a),) => Opcode::JMP_IMM(a),
                _ => {
                    proof {
                        assert(arg_kinds_of(orig) =~= seq![arg_kind(orig[0]@)]);
                        assert(signature(op).unwrap()[0] == ArgKind::Imm);
                        assert(false);
                    }
                    Opcode::NOP
                },
            }
        },
        0x19 => {
            proof {
                assert(arg_kinds_of(orig).len() == 1);
            }
            let a = take_last(&mut args);
            proof {
                assert(orig =~= seq![a]);
                assert(arg_views(orig) =~= seq![a@]);
            }
            match (a,) {
                (Arg::Str(a),) => Opcode::JMP_VAR(a),
                _ => {
                    proof {
                        assert(arg_kinds_of(orig) =~= seq![arg_kind(orig[0]@)]);
                        assert(signature(op).unwrap()[0] == ArgKind::Str);
                        assert(false);
                    }
                    Opcode::NOP
                },
            }
        },
        0x1a => {
            proof {
                assert(arg_kinds_of(orig).len() == 3);
            }
            let c = take_last(&mut args);
            let b = take_last(&mut args);
            let a = take_last(&mut args);
            proof {
                assert(orig =~= seq![a, b, c]);
                assert(arg_views(orig) =~= seq![a@, b@, c@]);
            }
            match (a, b, c) {
                (Arg::Imm(a), Arg::Imm(b), Arg::Imm(c)) => Opcode::JNE_I_I_I(a, b, c),
                _ => {
                    proof {
                        assert(arg_kinds_of(orig) =~= seq![arg_kind(orig[0]@), arg_kind(orig[1]@), arg_kind(orig[2]@)]);
                        assert(signature(op).unwrap()[0] == ArgKind::Imm);
                        assert(signature(op).unwrap()[1] == ArgKind::Imm);
                        assert(signature(op).unwrap()[2] == ArgKind::Imm);
                        assert(false);
                    }
                    Opcode::NOP
                },
            }
        },
        0x1b => {
            proof {
                assert(arg_kinds_of(orig).len() == 3);
            }
            let c = take_last(&mut args);
            let b = take_last(&mut args);
            let a = take_last(&mut args);
            proof {
                assert(orig =~= seq![a, b, c]);
                assert(arg_views(orig) =~= seq![a@, b@, c@]);
            }
            match (a, b, c) {
                (Arg::Str(a), Arg::Imm(b), Arg::Imm(c)) => Opcode::JNE_V_I_I(a, b, c),
                _ => {
                    proof {
                        assert(arg_kinds_of(orig) =~= seq![arg_kind(orig[0]@), arg_kind(orig[1]@), arg_kind(orig[2]@)]);
                        assert(signature(op).unwrap()[0] == ArgKind::Str);
                        assert(signature(op).unwrap()[1] == ArgKind::Imm);
                        assert(signature(op).unwrap()[2] == ArgKind::Imm);
                        assert(false);
                    }
                    Opcode::NOP
                },
            }
        },
        0x1c => {
            proof {
                assert(arg_kinds_of(orig).len() == 3);
            }
            let c = take_last(&mut args);
            let b = take_last(&mut args);
            let a = take_last(&mut args);
            proof {
                assert(orig =~= seq![a, b, c]);
                assert(arg_views(orig) =~= seq![a@, b@, c@]);
            }
            match (a, b, c) {
                (Arg::Imm(a), Arg::Str(b), Arg::Imm(c)) => Opcode::JNE_I_V_I(a, b, c),
                _ => {
                    proof {
                        assert(arg_kinds_of(orig) =~= seq![arg_kind(orig[0]@), arg_kind(orig[1]@), arg_kind(orig[2]@)]);
                        assert(signature(op).unwrap()[0] == ArgKind::Imm);
                        assert(signature(op).unwrap()[1] == ArgKind::Str);
                        assert(signature(op).unwrap()[2] == ArgKind::Imm);
                        assert(false);
                    }
                    Opcode::NOP
                },
            }
        },
        0x1d => {
            proof {
                assert(arg_kinds_of(orig).len() == 3);
            }
            let c = take_last(&mut args);
            let b = take_last(&mut args);
            let a = take_last(&mut args);
            proof {
                assert(orig =~= seq![a, b, c]);
                assert(arg_views(orig) =~= seq![a@, b@, c@]);
            }
            match (a, b, c) {
                (Arg::Str(a), Arg::Str(b), Arg::Imm(c)) => Opcode::JNE_V_V_I(a, b, c),
                _ => {
                    proof {
                        assert(arg_kinds_of(orig) =~= seq![arg_kind(orig[0]@), arg_kind(orig[1]@), arg_kind(orig[2]@)]);
                        assert(signature(op).unwrap()[0] == ArgKind::Str);
                        assert(signature(op).unwrap()[1] == ArgKind::Str);
                        assert(signature(op).unwrap()[2] == ArgKind::Imm);
                        assert(false);
                    }
                    Opcode::NOP
                },
            }
        },
        0x1e => {
            proof {
                assert(arg_kinds_of(orig).len() == 3);
            }
            let c = take_last(&mut args);
            let b = take_last(&mut args);
            let a = take_last(&mut args);
            proof {
                assert(orig =~= seq![a, b, c]);
                assert(arg_views(orig) =~= seq![a@, b@, c@]);
            }
            match (a, b, c) {
                (Arg::Imm(a), Arg::Imm(b), Arg::Str(c)) => Opcode::JNE_I_I_V(a, b, c),
                _ => {
                    proof {
                        assert(arg_kinds_of(orig) =~= seq![arg_kind(orig[0]@), arg_kind(orig[1]@), arg_kind(orig[2]@)]);
                        assert(signature(op).unwrap()[0] == ArgKind::Imm);
                        assert(signature(op).unwrap()[1] == ArgKind::Imm);
                        assert(signature(op).unwrap()[2] == ArgKind::Str);
                        assert(false);
                    }
                    Opcode::NOP
                },
            }
        },
        0x1f => {
            proof {
                assert(arg_kinds_of(orig).len() == 3);
            }
            let c = take_last(&mut args);
            let b = take_last(&mut args);
            let a = take_last(&mut args);
            proof {
                assert(orig =~= seq![a, b, c]);
                assert(arg_views(orig) =~= seq![a@, b@, c@]);
            }
            match (a, b, c) {
                (Arg::Str(a), Arg::Imm(b), Arg::Str(c)) => Opcode::JNE_V_I_V(a, b, c),
                _ => {
                    proof {
                        assert(arg_kinds_of(orig) =~= seq![arg_kind(orig[0]@), arg_kind(orig[1]@), arg_kind(orig[2]@)]);
                        assert(signature(op).unwrap()[0] == ArgKind::Str);
                        assert(signature(op).unwrap()[1] == ArgKind::Imm);
                        assert(signature(op).unwrap()[2] == ArgKind::Str);
                        assert(false);
                    }
                    Opcode::NOP
                },
            }
        },
        _ => {
            proof {
                assert(false);
            }
            Opcode::NOP
        },
    }
}

fn build_opcode_4(op: u8, args: Vec<Arg>) -> (res: Opcode)
    requires
        0x20 <= op <= 0x27,
        signature(op) == Some(arg_kinds_of(args@)),
    ensures
        opcode_view(res) == (op, arg_views(args@)),
{
    let ghost orig = args@;
    let mut args = args;
    match op {
        0x20 => {
            proof {
                assert(arg_kinds_of(orig).len() == 3);
            }
            let c = take_last(&mut args);
            let b = take_last(&mut args);
            let a = take_last(&mut args);
            proof {
                assert(orig =~= seq![a, b, c]);
                assert(arg_views(orig) =~= seq![a@, b@, c@]);
            }
            match (a, b, c) {
                (Arg::Imm(a), Arg::Str(b), Arg::Str(c)) => Opcode::JNE_I_V_V(a, b, c),
                _ => {
                    proof {
                        assert(arg_kinds_of(orig) =~= seq![arg_kind(orig[0]@), arg_kind(orig[1]@), arg_kind(orig[2]@)]);
                        assert(signature(op).unwrap()[0] == ArgKind::Imm);
                        assert(signature(op).unwrap()[1] == ArgKind::Str);
                        assert(signature(op).unwrap()[2] == ArgKind::Str);
                        assert(false);
                    }
                    Opcode::NOP
                },
            }
        },
        0x21 => {
            proof {
                assert(arg_kinds_of(orig).len() == 3);
            }
            let c = take_last(&mut args);
            let b = take_last(&mut args);
            let a = take_last(&mut args);
            proof {
                assert(orig =~= seq![a, b, c]);
                assert(arg_views(orig) =~= seq![a@, b@, c@]);
            }
            match (a, b, c) {
                (Arg::Str(a), Arg::Str(b), Arg::Str(c)) => Opcode::JNE_V_V_V(a, b, c),
                _ => {
                    proof {
                        assert(arg_kinds_of(orig) =~= seq![arg_kind(orig[0]@), arg_kind(orig[1]@), arg_kind(orig[2]@)]);
                        assert(signature(op).unwrap()[0] == ArgKind::Str);
                        assert(signature(op).unwrap()[1] == ArgKind::Str);
                        assert(signature(op).unwrap()[2] == ArgKind::Str);
                        assert(false);
                    }
                    Opcode::NOP
                },
            }
        },
        0x22 => {
            proof {
                assert(arg_kinds_of(orig).len() == 3);
            }
            let c = take_last(&mut args);
            let b = take_last(&mut args);
            let a = take_last(&mut args);
            proof {
                assert(orig =~= seq![a, b, c]);
                assert(arg_views(orig) =~= seq![a@, b@, c@]);
            }
            match (a, b, c) {
                (Arg::Imm(a), Arg::Imm(b), Arg::Imm(c)) => Opcode::JE_I_I_I(a, b, c),
                _ => {
                    proof {
                        assert(arg_kinds_of(orig) =~= seq![arg_kind(orig[0]@), arg_kind(orig[1]@), arg_kind(orig[2]@)]);
                        assert(signature(op).unwrap()[0] == ArgKind::Imm);
                        assert(signature(op).unwrap()[1] == ArgKind::Imm);
                        assert(signature(op).unwrap()[2] == ArgKind::Imm);
                        assert(false);
                    }
                    Opcode::NOP
                },
            }
        },
        0x23 => {
            proof {
                assert(arg_kinds_of(orig).len() == 3);
            }
            let c = take_last(&mut args);
            let b = take_last(&mut args);
            let a = take_last(&mut args);
            proof {
                assert(orig =~= seq![a, b, c]);
                assert(arg_views(orig) =~= seq![a@, b@, c@]);
            }
            match (a, b, c) {
                (Arg::Str(a), Arg::Imm(b), Arg::Imm(c)) => Opcode::JE_V_I_I(a, b, c),
                _ => {
                    proof {
                        assert(arg_kinds_of(orig) =~= seq![arg_kind(orig[0]@), arg_kind(orig[1]@), arg_kind(orig[2]@)]);
                        assert(signature(op).unwrap()[0] == ArgKind::Str);
                        assert(signature(op).unwrap()[1] == ArgKind::Imm);
                        assert(signature(op).unwrap()[2] == ArgKind::Imm);
                        assert(false);
                    }
                    Opcode::NOP
                },
            }
        },
        0x24 => {
            proof {
                assert(arg_kinds_of(orig).len() == 3);
            }
            let c = take_last(&mut args);
            let b = take_last(&mut args);
            let a = take_last(&mut args);
            proof {
                assert(orig =~= seq![a, b, c]);
                assert(arg_views(orig) =~= seq![a@, b@, c@]);
            }
            match (a, b, c) {
                (Arg::Imm(a), Arg::Str(b), Arg::Imm(c)) => Opcode::JE_I_V_I(a, b, c),
                _ => {
                    proof {
                        assert(arg_kinds_of(orig) =~= seq![arg_kind(orig[0]@), arg_kind(orig[1]@), arg_kind(orig[2]@)]);
                        assert(signature(op).unwrap()[0] == ArgKind::Imm);
                        assert(signature(op).unwrap()[1] == ArgKind::Str);
                        assert(signature(op).unwrap()[2] == ArgKind::Imm);
                        assert(false);
                    }
                    Opcode::NOP
                },
            }
        },
        0x25 => {
            proof {
                assert(arg_kinds_of(orig).len() == 3);
            }
            let c = take_last(&mut args);
            let b = take_last(&mut args);
            let a = take_last(&mut args);
            proof {
                assert(orig =~= seq![a, b, c]);
                assert(arg_views(orig) =~= seq![a@, b@, c@]);
            }
            match (a, b, c) {
                (Arg::Str(a), Arg::Str(b), Arg::Imm(c)) => Opcode::JE_V_V_I(a, b, c),
                _ => {
                    proof {
                        assert(arg_kinds_of(orig) =~= seq![arg_kind(orig[0]@), arg_kind(orig[1]@), arg_kind(orig[2]@)]);
                        assert(signature(op).unwrap()[0] == ArgKind::Str);
                        assert(signature(op).unwrap()[1] == ArgKind::Str);
                        assert(signature(op).unwrap()[2] == ArgKind::Imm);
                        assert(false);
                    }
                    Opcode::NOP
                },
            }
        },
        0x26 => {
            proof {
                assert(arg_kinds_of(orig).len() == 3);
            }
            let c = take_last(&mut args);
            let b = take_last(&mut args);
            let a = take_last(&mut args);
            proof {
                assert(orig =~= seq![a, b, c]);
                assert(arg_views(orig) =~= seq![a@, b@, c@]);
            }
            match (a, b, c) {
                (Arg::Imm(a), Arg::Imm(b), Arg::Str(c)) => Opcode::JE_I_I_V(a, b, c),
                _ => {
                    proof {
                        assert(arg_kinds_of(orig) =~= seq![arg_kind(orig[0]@), arg_kind(orig[1]@), arg_kind(orig[2]@)]);
                        assert(signature(op).unwrap()[0] == ArgKind::Imm);
                        assert(signature(op).unwrap()[1] == ArgKind::Imm);
                        assert(signature(op).unwrap()[2] == ArgKind::Str);
                        assert(false);
                    }
                    Opcode::NOP
                },
            }
        },
        0x27 => {
            proof {
                assert(arg_kinds_of(orig).len() == 3);
            }
            let c = take_last(&mut args);
            let b = take_last(&mut args);
            let a = take_last(&mut args);
            proof {
                assert(orig =~= seq![a, b, c]);
                assert(arg_views(orig) =~= seq![a@, b@, c@]);
            }
            match (a, b, c) {
                (Arg::Str(a), Arg::Imm(b), Arg::Str(c)) => Opcode::JE_V_I_V(a, b, c),
                _ => {
                    proof {
                        assert(arg_kinds_of(orig) =~= seq![arg_kind(orig[0]@), arg_kind(orig[1]@), arg_kind(orig[2]@)]);
                        assert(signature(op).unwrap()[0] == ArgKind::Str);
                        assert(signature(op).unwrap()[1] == ArgKind::Imm);
                        assert(signature(op).unwrap()[2] == ArgKind::Str);
                        assert(false);
                    }
                    Opcode::NOP
                },
            }
        },
        _ => {
            proof {
                assert(false);
            }
            Opcode::NOP
        },
    }
}

fn build_opcode_5(op: u8, args: Vec<Arg>) -> (res: Opcode)
    requires
        0x28 <= op <= 0x2f,
        signature(op) == Some(arg_kinds_of(args@)),
    ensures
        opcode_view(res) == (op, arg_views(args@)),
{
    let ghost orig = args@;
    let mut args = args;
    match op {
        0x28 => {
            proof {
                assert(arg_kinds_of(orig).len() == 3);
            }
            let c = take_last(&mut args);
            let b = take_last(&mut args);
            let a = take_last(&mut args);
            proof {
                assert(orig =~= seq![a, b, c]);
                assert(arg_views(orig) =~= seq![a@, b@, c@]);
            }
            match (a, b, c) {
                (Arg::Imm(a), Arg::Str(b), Arg::Str(c)) => Opcode::JE_I_V_V(a, b, c),
                _ => {
                    proof {
                        assert(arg_kinds_of(orig) =~= seq![arg_kind(orig[0]@), arg_kind(orig[1]@), arg_kind(orig[2]@)]);
                        assert(signature(op).unwrap()[0] == ArgKind::Imm);
                        assert(signature(op).unwrap()[1] == ArgKind::Str);
                        assert(signature(op).unwrap()[2] == ArgKind::Str);
                        assert(false);
                    }
                    Opcode::NOP
                },
            }
        },
        0x29 => {
            proof {
                assert(arg_kinds_of(orig).len() == 3);
            }
            let c = take_last(&mut args);
            let b = take_last(&mut args);
            let a = take_last(&mut args);
            proof {
                assert(orig =~= seq![a, b, c]);
                assert(arg_views(orig) =~= seq![a@, b@, c@]);
            }
            match (a, b, c) {
                (Arg::Str(a), Arg::Str(b), Arg::Str(c)) => Opcode::JE_V_V_V(a, b, c),
                _ => {
                    proof {
                        assert(arg_kinds_of(orig) =~= seq![arg_kind(orig[0]@), arg_kind(orig[1]@), arg_kind(orig[2]@)]);
                        assert(signature(op).unwrap()[0] == ArgKind::Str);
                        assert(signature(op).unwrap()[1] == ArgKind::Str);
                        assert(signature(op).unwrap()[2] == ArgKind::Str);
                        assert(false);
                    }
                    Opcode::NOP
                },
            }
        },
        0x2a => {
            proof {
                assert(arg_kinds_of(orig).len() == 3);
            }
            let c = take_last(&mut args);
            let b = take_last(&mut args);
            let a = take_last(&mut args);
            proof {
                assert(orig =~= seq![a, b, c]);
                assert(arg_views(orig) =~= seq![a@, b@, c@]);
            }
            match (a, b, c) {
                (Arg::Imm(a), Arg::Imm(b), Arg::Imm(c)) => Opcode::JGE_I_I_I(a, b, c),
                _ => {
                    proof {
                        assert(arg_kinds_of(orig) =~= seq![arg_kind(orig[0]@), arg_kind(orig[1]@), arg_kind(orig[2]@)]);
                        assert(signature(op).unwrap()[0] == ArgKind::Imm);
                        assert(signature(op).unwrap()[1] == ArgKind::Imm);
                        assert(signature(op).unwrap()[2] == ArgKind::Imm);
                        assert(false);
                    }
                    Opcode::NOP
                },
            }
        },
        0x2b => {
            proof {
                assert(arg_kinds_of(orig).len() == 3);
            }
            let c = take_last(&mut args);
            let b = take_last(&mut args);
            let a = take_last(&mut args);
            proof {
                assert(orig =~= seq![a, b, c]);
                assert(arg_views(orig) =~= seq![a@, b@, c@]);
            }
            match (a, b, c) {
                (Arg::Str(a), Arg::Imm(b), Arg::Imm(c)) => Opcode::JGE_V_I_I(a, b, c),
                _ => {
                    proof {
                        assert(arg_kinds_of(orig) =~= seq![arg_kind(orig[0]@), arg_kind(orig[1]@), arg_kind(orig[2]@)]);
                        assert(signature(op).unwrap()[0] == ArgKind::Str);
                        assert(signature(op).unwrap()[1] == ArgKind::Imm);
                        assert(signature(op).unwrap()[2] == ArgKind::Imm);
                        assert(false);
                    }
                    Opcode::NOP
                },
            }
        },
        0x2c => {
            proof {
                assert(arg_kinds_of(orig).len() == 3);
            }
            let c = take_last(&mut args);
            let b = take_last(&mut args);
            let a = take_last(&mut args);
            proof {
                assert(orig =~= seq![a, b, c]);
                assert(arg_views(orig) =~= seq![a@, b@, c@]);
            }
            match (a, b, c) {
                (Arg::Imm(a), Arg::Str(b), Arg::Imm(c)) => Opcode::JGE_I_V_I(a, b, c),
                _ => {
                    proof {
                        assert(arg_kinds_of(orig) =~= seq![arg_kind(orig[0]@), arg_kind(orig[1]@), arg_kind(orig[2]@)]);
                        assert(signature(op).unwrap()[0] == ArgKind::Imm);
                        assert(signature(op).unwrap()[1] == ArgKind::Str);
                        assert(signature(op).unwrap()[2] == ArgKind::Imm);
                        assert(false);
                    }
                    Opcode::NOP
                },
            }
        },
        0x2d => {
            proof {
                assert(arg_kinds_of(orig).len() == 3);
            }
            let c = take_last(&mut args);
            let b = take_last(&mut args);
            let a = take_last(&mut args);
            proof {
                assert(orig =~= seq![a, b, c]);
                assert(arg_views(orig) =~= seq![a@, b@, c@]);
            }
            match (a, b, c) {
                (Arg::Str(a), Arg::Str(b), Arg::Imm(c)) => Opcode::JGE_V_V_I(a, b, c),
                _ => {
                    proof {
                        assert(arg_kinds_of(orig) =~= seq![arg_kind(orig[0]@), arg_kind(orig[1]@), arg_kind(orig[2]@)]);
                        assert(signature(op).unwrap()[0] == ArgKind::Str);
                        assert(signature(op).unwrap()[1] == ArgKind::Str);
                        assert(signature(op).unwrap()[2] == ArgKind::Imm);
                        assert(false);
                    }
                    Opcode::NOP
                },
            }
        },
        0x2e => {
            proof {
                assert(arg_kinds_of(orig).len() == 3);
            }
            let c = take_last(&mut args);
            let b = take_last(&mut args);
            let a = take_last(&mut args);
            proof {
                assert(orig =~= seq![a, b, c]);
                assert(arg_views(orig) =~= seq![a@, b@, c@]);
            }
            match (a, b, c) {
                (Arg::Imm(a), Arg::Imm(b), Arg::Str(c)) => Opcode::JGE_I_I_V(a, b, c),
                _ => {
                    proof {
                        assert(arg_kinds_of(orig) =~= seq![arg_kind(orig[0]@), arg_kind(orig[1]@), arg_kind(orig[2]@)]);
                        assert(signature(op).unwrap()[0] == ArgKind::Imm);
                        assert(signature(op).unwrap()[1] == ArgKind::Imm);
                        assert(signature(op).unwrap()[2] == ArgKind::Str);
                        assert(false);
                    }
                    Opcode::NOP
                },
            }
        },
        0x2f => {
            proof {
                assert(arg_kinds_of(orig).len() == 3);
            }
            let c = take_last(&mut args);
            let b = take_last(&mut args);
            let a = take_last(&mut args);
            proof {
                assert(orig =~= seq![a, b, c]);
                assert(arg_views(orig) =~= seq![a@, b@, c@]);
            }
            match (a, b, c) {
                (Arg::Str(a), Arg::Imm(b), Arg::Str(c)) => Opcode::JGE_V_I_V(a, b, c),
                _ => {
                    proof {
                        assert(arg_kinds_of(orig) =~= seq![arg_kind(orig[0]@), arg_kind(orig[1]@), arg_kind(orig[2]@)]);
                        assert(signature(op).unwrap()[0] == ArgKind::Str);
                        assert(signature(op).unwrap()[1] == ArgKind::Imm);
                        assert(signature(op).unwrap()[2] == ArgKind::Str);
                        assert(false);
                    }
                    Opcode::NOP
                },
            }
        },
        _ => {
            proof {
                assert(false);
            }
            Opcode::NOP
        },
    }
}

fn build_opcode_6(op: u8, args: Vec<Arg>) -> (res: Opcode)
    requires
        0x30 <= op <= 0x37,
        signature(op) == Some(arg_kinds_of(args@)),
    ensures
        opcode_view(res) == (op, arg_views(args@)),
{
    let ghost orig = args@;
    let mut args = args;
    match op {
        0x30 => {
            proof {
                assert(arg_kinds_of(orig).len() == 3);
            }
            let c = take_last(&mut args);
            let b = take_last(&mut args);
            let a = take_last(&mut args);
            proof {
                assert(orig =~= seq![a, b, c]);
                assert(arg_views(orig) =~= seq![a@, b@, c@]);
            }
            match (a, b, c) {
                (Arg::Imm(a), Arg::Str(b), Arg::Str(c)) => Opcode::JGE_I_V_V(a, b, c),
                _ => {
                    proof {
                        assert(arg_kinds_of(orig) =~= seq![arg_kind(orig[0]@), arg_kind(orig[1]@), arg_kind(orig[2]@)]);
                        assert(signature(op).unwrap()[0] == ArgKind::Imm);
                        assert(signature(op).unwrap()[1] == ArgKind::Str);
                        assert(signature(op).unwrap()[2] == ArgKind::Str);
                        assert(false);
                    }
                    Opcode::NOP
                },
            }
        },
        0x31 => {
            proof {
                assert(arg_kinds_of(orig).len() == 3);
            }
            let c = take_last(&mut args);
            let b = take_last(&mut args);
            let a = take_last(&mut args);
            proof {
                assert(orig =~= seq![a, b, c]);
                assert(arg_views(orig) =~= seq![a@, b@, c@]);
            }
            match (a, b, c) {
                (Arg::Str(a), Arg::Str(b), Arg::Str(c)) => Opcode::JGE_V_V_V(a, b, c),
                _ => {
                    proof {
                        assert(arg_kinds_of(orig) =~= seq![arg_kind(orig[0]@), arg_kind(orig[1]@), arg_kind(orig[2]@)]);
                        assert(signature(op).unwrap()[0] == ArgKind::Str);
                        assert(signature(op).unwrap()[1] == ArgKind::Str);
                        assert(signature(op).unwrap()[2] == ArgKind::Str);
                        assert(false);
                    }
                    Opcode::NOP
                },
            }
        },
        0x32 => {
            proof {
                assert(arg_kinds_of(orig).len() == 3);
            }
            let c = take_last(&mut args);
            let b = take_last(&mut args);
            let a = take_last(&mut args);
            proof {
                assert(orig =~= seq![a, b, c]);
                assert(arg_views(orig) =~= seq![a@, b@, c@]);
            }
            match (a, b, c) {
                (Arg::Imm(a), Arg::Imm(b), Arg::Imm(c)) => Opcode::JG_I_I_I(a, b, c),
                _ => {
                    proof {
                        assert(arg_kinds_of(orig) =~= seq![arg_kind(orig[0]@), arg_kind(orig[1]@), arg_kind(orig[2]@)]);
                        assert(signature(op).unwrap()[0] == ArgKind::Imm);
                        assert(signature(op).unwrap()[1] == ArgKind::Imm);
                        assert(signature(op).unwrap()[2] == ArgKind::Imm);
                        assert(false);
                    }
                    Opcode::NOP
                },
            }
        },
        0x33 => {
            proof {
                assert(arg_kinds_of(orig).len() == 3);
            }
            let c = take_last(&mut args);
            let b = take_last(&mut args);
            let a = take_last(&mut args);
            proof {
                assert(orig =~= seq![a, b, c]);
                assert(arg_views(orig) =~= seq![a@, b@, c@]);
            }
            match (a, b, c) {
                (Arg::Str(a), Arg::Imm(b), Arg::Imm(c)) => Opcode::JG_V_I_I(a, b, c),
                _ => {
                    proof {
                        assert(arg_kinds_of(orig) =~= seq![arg_kind(orig[0]@), arg_kind(orig[1]@), arg_kind(orig[2]@)]);
                        assert(signature(op).unwrap()[0] == ArgKind::Str);
                        assert(signature(op).unwrap()[1] == ArgKind::Imm);
                        assert(signature(op).unwrap()[2] == ArgKind::Imm);
                        assert(false);
                    }
                    Opcode::NOP
                },
            }
        },
        0x34 => {
            proof {
                assert(arg_kinds_of(orig).len() == 3);
            }
            let c = take_last(&mut args);
            let b = take_last(&mut args);
            let a = take_last(&mut args);
            proof {
                assert(orig =~= seq![a, b, c]);
                assert(arg_views(orig) =~= seq![a@, b@, c@]);
            }
            match (a, b, c) {
                (Arg::Imm(a), Arg::Str(b), Arg::Imm(c)) => Opcode::JG_I_V_I(a, b, c),
                _ => {
                    proof {
                        assert(arg_kinds_of(orig) =~= seq![arg_kind(orig[0]@), arg_kind(orig[1]@), arg_kind(orig[2]@)]);
                        assert(signature(op).unwrap()[0] == ArgKind::Imm);
                        assert(signature(op).unwrap()[1] == ArgKind::Str);
                        assert(signature(op).unwrap()[2] == ArgKind::Imm);
                        assert(false);
                    }
                    Opcode::NOP
                },
            }
        },
        0x35 => {
            proof {
                assert(arg_kinds_of(orig).len() == 3);
            }
            let c = take_last(&mut args);
            let b = take_last(&mut args);
            let a = take_last(&mut args);
            proof {
                assert(orig =~= seq![a, b, c]);
                assert(arg_views(orig) =~= seq![a@, b@, c@]);
            }
            match (a, b, c) {
                (Arg::Str(a), Arg::Str(b), Arg::Imm(c)) => Opcode::JG_V_V_I(a, b, c),
                _ => {
                    proof {
                        assert(arg_kinds_of(orig) =~= seq![arg_kind(orig[0]@), arg_kind(orig[1]@), arg_kind(orig[2]@)]);
                        assert(signature(op).unwrap()[0] == ArgKind::Str);
                        assert(signature(op).unwrap()[1] == ArgKind::Str);
                        assert(signature(op).unwrap()[2] == ArgKind::Imm);
                        assert(false);
                    }
                    Opcode::NOP
                },
            }
        },
        0x36 => {
            proof {
                assert(arg_kinds_of(orig).len() == 3);
            }
            let c = take_last(&mut args);
            let b = take_last(&mut args);
            let a = take_last(&mut args);
            proof {
                assert(orig =~= seq![a, b, c]);
                assert(arg_views(orig) =~= seq![a@, b@, c@]);
            }
            match (a, b, c) {
                (Arg::Imm(a), Arg::Imm(b), Arg::Str(c)) => Opcode::JG_I_I_V(a, b, c),
                _ => {
                    proof {
                        assert(arg_kinds_of(orig) =~= seq![arg_kind(orig[0]@), arg_kind(orig[1]@), arg_kind(orig[2]@)]);
                        assert(signature(op).unwrap()[0] == ArgKind::Imm);
                        assert(signature(op).unwrap()[1] == ArgKind::Imm);
                        assert(signature(op).unwrap()[2] == ArgKind::Str);
                        assert(false);
                    }
                    Opcode::NOP
                },
            }
        },
        0x37 => {
            proof {
                assert(arg_kinds_of(orig).len() == 3);
            }
            let c = take_last(&mut args);
            let b = take_last(&mut args);
            let a = take_last(&mut args);
            proof {
                assert(orig =~= seq![a, b, c]);
                assert(arg_views(orig) =~= seq![a@, b@, c@]);
            }
            match (a, b, c) {
                (Arg::Str(a), Arg::Imm(b), Arg::Str(c)) => Opcode::JG_V_I_V(a, b, c),
                _ => {
                    proof {
                        assert(arg_kinds_of(orig) =~= seq![arg_kind(orig[0]@), arg_kind(orig[1]@), arg_kind(orig[2]@)]);
                        assert(signature(op).unwrap()[0] == ArgKind::Str);
                        assert(signature(op).unwrap()[1] == ArgKind::Imm);
                        assert(signature(op).unwrap()[2] == ArgKind::Str);
                        assert(false);
                    }
                    Opcode::NOP
                },
            }
        },
        _ => {
            proof {
                assert(false);
            }
            Opcode::NOP
        },
    }
}

fn build_opcode_7(op: u8, args: Vec<Arg>) -> (res: Opcode)
    requires
        0x38 <= op <= 0x3f,
        signature(op) == Some(arg_kinds_of(args@)),
    ensures
        opcode_view(res) == (op, arg_views(args@)),
{
    let ghost orig = args@;
    let mut args = args;
    match op {
        0x38 => {
            proof {
                assert(arg_kinds_of(orig).len() == 3);
            }
            let c = take_last(&mut args);
            let b = take_last(&mut args);
            let a = take_last(&mut args);
            proof {
                assert(orig =~= seq![a, b, c]);
                assert(arg_views(orig) =~= seq![a@, b@, c@]);
            }
            match (a, b, c) {
                (Arg::Imm(a), Arg::Str(b), Arg::Str(c)) => Opcode::JG_I_V_V(a, b, c),
                _ => {
                    proof {
                        assert(arg_kinds_of(orig) =~= seq![arg_kind(orig[0]@), arg_kind(orig[1]@), arg_kind(orig[2]@)]);
                        assert(signature(op).unwrap()[0] == ArgKind::Imm);
                        assert(signature(op).unwrap()[1] == ArgKind::Str);
                        assert(signature(op).unwrap()[2] == ArgKind::Str);
                        assert(false);
                    }
                    Opcode::NOP
                },
            }
        },
        0x39 => {
            proof {
                assert(arg_kinds_of(orig).len() == 3);
            }
            let c = take_last(&mut args);
            let b = take_last(&mut args);
            let a = take_last(&mut args);
            proof {
                assert(orig =~= seq![a, b, c]);
                assert(arg_views(orig) =~= seq![a@, b@, c@]);
            }
            match (a, b, c) {
                (Arg::Str(a), Arg::Str(b), Arg::Str(c)) => Opcode::JG_V_V_V(a, b, c),
                _ => {
                    proof {
                        assert(arg_kinds_of(orig) =~= seq![arg_kind(orig[0]@), arg_kind(orig[1]@), arg_kind(orig[2]@)]);
                        assert(signature(op).unwrap()[0] == ArgKind::Str);
                        assert(signature(op).unwrap()[1] == ArgKind::Str);
                        assert(signature(op).unwrap()[2] == ArgKind::Str);
                        assert(false);
                    }
                    Opcode::NOP
                },
            }
        },
        0x3a => {
            proof {
                assert(arg_kinds_of(orig).len() == 3);
            }
            let c = take_last(&mut args);
            let b = take_last(&mut args);
            let a = take_last(&mut args);
            proof {
                assert(orig =~= seq![a, b, c]);
                assert(arg_views(orig) =~= seq![a@, b@, c@]);
            }
            match (a, b, c) {
                (Arg::Imm(a), Arg::Imm(b), Arg::Imm(c)) => Opcode::JLE_I_I_I(a, b, c),
                _ => {
                    proof {
                        assert(arg_kinds_of(orig) =~= seq![arg_kind(orig[0]@), arg_kind(orig[1]@), arg_kind(orig[2]@)]);
                        assert(signature(op).unwrap()[0] == ArgKind::Imm);
                        assert(signature(op).unwrap()[1] == ArgKind::Imm);
                        assert(signature(op).unwrap()[2] == ArgKind::Imm);
                        assert(false);
                    }
                    Opcode::NOP
                },
            }
        },
        0x3b => {
            proof {
                assert(arg_kinds_of(orig).len() == 3);
            }
            let c = take_last(&mut args);
            let b = take_last(&mut args);
            let a = take_last(&mut args);
            proof {
                assert(orig =~= seq![a, b, c]);
                assert(arg_views(orig) =~= seq![a@, b@, c@]);
            }
            match (a, b, c) {
                (Arg::Str(a), Arg::Imm(b), Arg::Imm(c)) => Opcode::JLE_V_I_I(a, b, c),
                _ => {
                    proof {
                        assert(arg_kinds_of(orig) =~= seq![arg_kind(orig[0]@), arg_kind(orig[1]@), arg_kind(orig[2]@)]);
                        assert(signature(op).unwrap()[0] == ArgKind::Str);
                        assert(signature(op).unwrap()[1] == ArgKind::Imm);
                        assert(signature(op).unwrap()[2] == ArgKind::Imm);
                        assert(false);
                    }
                    Opcode::NOP
                },
            }
        },
        0x3c => {
            proof {
                assert(arg_kinds_of(orig).len() == 3);
            }
            let c = take_last(&mut args);
            let b = take_last(&mut args);
            let a = take_last(&mut args);
            proof {
                assert(orig =~= seq![a, b, c]);
                assert(arg_views(orig) =~= seq![a@, b@, c@]);
            }
            match (a, b, c) {
                (Arg::Imm(a), Arg::Str(b), Arg::Imm(c)) => Opcode::JLE_I_V_I(a, b, c),
                _ => {
                    proof {
                        assert(arg_kinds_of(orig) =~= seq![arg_kind(orig[0]@), arg_kind(orig[1]@), arg_kind(orig[2]@)]);
                        assert(signature(op).unwrap()[0] == ArgKind::Imm);
                        assert(signature(op).unwrap()[1] == ArgKind::Str);
                        assert(signature(op).unwrap()[2] == ArgKind::Imm);
                        assert(false);
                    }
                    Opcode::NOP
                },
            }
        },
        0x3d => {
            proof {
                assert(arg_kinds_of(orig).len() == 3);
            }
            let c = take_last(&mut args);
            let b = take_last(&mut args);
            let a = take_last(&mut args);
            proof {
                assert(orig =~= seq![a, b, c]);
                assert(arg_views(orig) =~= seq![a@, b@, c@]);
            }
            match (a, b, c) {
                (Arg::Str(a), Arg::Str(b), Arg::Imm(c)) => Opcode::JLE_V_V_I(a, b, c),
                _ => {
                    proof {
                        assert(arg_kinds_of(orig) =~= seq![arg_kind(orig[0]@), arg_kind(orig[1]@), arg_kind(orig[2]@)]);
                        assert(signature(op).unwrap()[0] == ArgKind::Str);
                        assert(signature(op).unwrap()[1] == ArgKind::Str);
                        assert(signature(op).unwrap()[2] == ArgKind::Imm);
                        assert(false);
                    }
                    Opcode::NOP
                },
            }
        },
        0x3e => {
            proof {
                assert(arg_kinds_of(orig).len() == 3);
            }
            let c = take_last(&mut args);
            let b = take_last(&mut args);
            let a = take_last(&mut args);
            proof {
                assert(orig =~= seq![a, b, c]);
                assert(arg_views(orig) =~= seq![a@, b@, c@]);
            }
            match (a, b, c) {
                (Arg::Imm(a), Arg::Imm(b), Arg::Str(c)) => Opcode::JLE_I_I_V(a, b, c),
                _ => {
                    proof {
                        assert(arg_kinds_of(orig) =~= seq![arg_kind(orig[0]@), arg_kind(orig[1]@), arg_kind(orig[2]@)]);
                        assert(signature(op).unwrap()[0] == ArgKind::Imm);
                        assert(signature(op).unwrap()[1] == ArgKind::Imm);
                        assert(signature(op).unwrap()[2] == ArgKind::Str);
                        assert(false);
                    }
                    Opcode::NOP
                },
            }
        },
        0x3f => {
            proof {
                assert(arg_kinds_of(orig).len() == 3);
            }
            let c = take_last(&mut args);
            let b = take_last(&mut args);
            let a = take_last(&mut args);
            proof {
                assert(orig =~= seq![a, b, c]);
                assert(arg_views(orig) =~= seq![a@, b@, c@]);
            }
            match (a, b, c) {
                (Arg::Str(a), Arg::Imm(b), Arg::Str(c)) => Opcode::JLE_V_I_V(a, b, c),
                _ => {
                    proof {
                        assert(arg_kinds_of(orig) =~= seq![arg_kind(orig[0]@), arg_kind(orig[1]@), arg_kind(orig[2]@)]);
                        assert(signature(op).unwrap()[0] == ArgKind::Str);
                        assert(signature(op).unwrap()[1] == ArgKind::Imm);
                        assert(signature(op).unwrap()[2] == ArgKind::Str);
                        assert(false);
                    }
                    Opcode::NOP
                },
            }
        },
        _ => {
            proof {
                assert(false);
            }
            Opcode::NOP
        },
    }
}

fn build_opcode_8(op: u8, args: Vec<Arg>) -> (res: Opcode)
    requires
        0x40 <= op <= 0x47,
        signature(op) == Some(arg_kinds_of(args@)),
    ensures
        opcode_view(res) == (op, arg_views(args@)),
{
    let ghost orig = args@;
    let mut args = args;
    match op {
        0x40 => {
            proof {
                assert(arg_kinds_of(orig).len() == 3);
            }
            let c = take_last(&mut args);
            let b = take_last(&mut args);
            let a = take_last(&mut args);
            proof {
                assert(orig =~= seq![a, b, c]);
                assert(arg_views(orig) =~= seq![a@, b@, c@]);
            }
            match (a, b, c) {
                (Arg::Imm(a), Arg::Str(b), Arg::Str(c)) => Opcode::JLE_I_V_V(a, b, c),
                _ => {
                    proof {
                        assert(arg_kinds_of(orig) =~= seq![arg_kind(orig[0]@), arg_kind(orig[1]@), arg_kind(orig[2]@)]);
                        assert(signature(op).unwrap()[0] == ArgKind::Imm);
                        assert(signature(op).unwrap()[1] == ArgKind::Str);
                        assert(signature(op).unwrap()[2] == ArgKind::Str);
                        assert(false);
                    }
                    Opcode::NOP
                },
            }
        },
        0x41 => {
            proof {
                assert(arg_kinds_of(orig).len() == 3);
            }
            let c = take_last(&mut args);
            let b = take_last(&mut args);
            let a = take_last(&mut args);
            proof {
                assert(orig =~= seq![a, b, c]);
                assert(arg_views(orig) =~= seq![a@, b@, c@]);
            }
            match (a, b, c) {
                (Arg::Str(a), Arg::Str(b), Arg::Str(c)) => Opcode::JLE_V_V_V(a, b, c),
                _ => {
                    proof {
                        assert(arg_kinds_of(orig) =~= seq![arg_kind(orig[0]@), arg_kind(orig[1]@), arg_kind(orig[2]@)]);
                        assert(signature(op).unwrap()[0] == ArgKind::Str);
                        assert(signature(op).unwrap()[1] == ArgKind::Str);
                        assert(signature(op).unwrap()[2] == ArgKind::Str);
                        assert(false);
                    }
                    Opcode::NOP
                },
            }
        },
        0x42 => {
            proof {
                assert(arg_kinds_of(orig).len() == 3);
            }
            let c = take_last(&mut args);
            let b = take_last(&mut args);
            let a = take_last(&mut args);
            proof {
                assert(orig =~= seq![a, b, c]);
                assert(arg_views(orig) =~= seq![a@, b@, c@]);
            }
            match (a, b, c) {
                (Arg::Imm(a), Arg::Imm(b), Arg::Imm(c)) => Opcode::JL_I_I_I(a, b, c),
                _ => {
                    proof {
                        assert(arg_kinds_of(orig) =~= seq![arg_kind(orig[0]@), arg_kind(orig[1]@), arg_kind(orig[2]@)]);
                        assert(signature(op).unwrap()[0] == ArgKind::Imm);
                        assert(signature(op).unwrap()[1] == ArgKind::Imm);
                        assert(signature(op).unwrap()[2] == ArgKind::Imm);
                        assert(false);
                    }
                    Opcode::NOP
                },
            }
        },
        0x43 => {
            proof {
                assert(arg_kinds_of(orig).len() == 3);
            }
            let c = take_last(&mut args);
            let b = take_last(&mut args);
            let a = take_last(&mut args);
            proof {
                assert(orig =~= seq![a, b, c]);
                assert(arg_views(orig) =~= seq![a@, b@, c@]);
            }
            match (a, b, c) {
                (Arg::Str(a), Arg::Imm(b), Arg::Imm(c)) => Opcode::JL_V_I_I(a, b, c),
                _ => {
                    proof {
                        assert(arg_kinds_of(orig) =~= seq![arg_kind(orig[0]@), arg_kind(orig[1]@), arg_kind(orig[2]@)]);
                        assert(signature(op).unwrap()[0] == ArgKind::Str);
                        assert(signature(op).unwrap()[1] == ArgKind::Imm);
                        assert(signature(op).unwrap()[2] == ArgKind::Imm);
                        assert(false);
                    }
                    Opcode::NOP
                },
            }
        },
        0x44 => {
            proof {
                assert(arg_kinds_of(orig).len() == 3);
            }
            let c = take_last(&mut args);
            let b = take_last(&mut args);
            let a = take_last(&mut args);
            proof {
                assert(orig =~= seq![a, b, c]);
                assert(arg_views(orig) =~= seq![a@, b@, c@]);
            }
            match (a, b, c) {
                (Arg::Imm(a), Arg::Str(b), Arg::Imm(c)) => Opcode::JL_I_V_I(a, b, c),
                _ => {
                    proof {
                        assert(arg_kinds_of(orig) =~= seq![arg_kind(orig[0]@), arg_kind(orig[1]@), arg_kind(orig[2]@)]);
                        assert(signature(op).unwrap()[0] == ArgKind::Imm);
                        assert(signature(op).unwrap()[1] == ArgKind::Str);
                        assert(signature(op).unwrap()[2] == ArgKind::Imm);
                        assert(false);
                    }
                    Opcode::NOP
                },
            }
        },
        0x45 => {
            proof {
                assert(arg_kinds_of(orig).len() == 3);
            }
            let c = take_last(&mut args);
            let b = take_last(&mut args);
            let a = take_last(&mut args);
            proof {
                assert(orig =~= seq![a, b, c]);
                assert(arg_views(orig) =~= seq![a@, b@, c@]);
            }
            match (a, b, c) {
                (Arg::Str(a), Arg::Str(b), Arg::Imm(c)) => Opcode::JL_V_V_I(a, b, c),
                _ => {
                    proof {
                        assert(arg_kinds_of(orig) =~= seq![arg_kind(orig[0]@), arg_kind(orig[1]@), arg_kind(orig[2]@)]);
                        assert(signature(op).unwrap()[0] == ArgKind::Str);
                        assert(signature(op).unwrap()[1] == ArgKind::Str);
                        assert(signature(op).unwrap()[2] == ArgKind::Imm);
                        assert(false);
                    }
                    Opcode::NOP
                },
            }
        },
        0x46 => {
            proof {
                assert(arg_kinds_of(orig).len() == 3);
            }
            let c = take_last(&mut args);
            let b = take_last(&mut args);
            let a = take_last(&mut args);
            proof {
                assert(orig =~= seq![a, b, c]);
                assert(arg_views(orig) =~= seq![a@, b@, c@]);
            }
            match (a, b, c) {
                (Arg::Imm(a), Arg::Imm(b), Arg::Str(c)) => Opcode::JL_I_I_V(a, b, c),
                _ => {
                    proof {
                        assert(arg_kinds_of(orig) =~= seq![arg_kind(orig[0]@), arg_kind(orig[1]@), arg_kind(orig[2]@)]);
                        assert(signature(op).unwrap()[0] == ArgKind::Imm);
                        assert(signature(op).unwrap()[1] == ArgKind::Imm);
                        assert(signature(op).unwrap()[2] == ArgKind::Str);
                        assert(false);
                    }
                    Opcode::NOP
                },
            }
        },
        0x47 => {
            proof {
                assert(arg_kinds_of(orig).len() == 3);
            }
            let c = take_last(&mut args);
            let b = take_last(&mut args);
            let a = take_last(&mut args);
            proof {
                assert(orig =~= seq![a, b, c]);
                assert(arg_views(orig) =~= seq![a@, b@, c@]);
            }
            match (a, b, c) {
                (Arg::Str(a), Arg::Imm(b), Arg::Str(c)) => Opcode::JL_V_I_V(a, b, c),
                _ => {
                    proof {
                        assert(arg_kinds_of(orig) =~= seq![arg_kind(orig[0]@), arg_kind(orig[1]@), arg_kind(orig[2]@)]);
                        assert(signature(op).unwrap()[0] == ArgKind::Str);
                        assert(signature(op).unwrap()[1] == ArgKind::Imm);
                        assert(signature(op).unwrap()[2] == ArgKind::Str);
                        assert(false);
                    }
                    Opcode::NOP
                },
            }
        },
        _ => {
            proof {
                assert(false);
            }
            Opcode::NOP
        },
    }
}

fn build_opcode_9(op: u8, args: Vec<Arg>) -> (res: Opcode)
    requires
        0x48 <= op <= 0x4f,
        signature(op) == Some(arg_kinds_of(args@)),
    ensures
        opcode_view(res) == (op, arg_views(args@)),
{
    let ghost orig = args@;
    let mut args = args;
    match op {
        0x48 => {
            proof {
                assert(arg_kinds_of(orig).len() == 3);
            }
            let c = take_last(&mut args);
            let b = take_last(&mut args);
            let a = take_last(&mut args);
            proof {
                assert(orig =~= seq![a, b, c]);
                assert(arg_views(orig) =~= seq![a@, b@, c@]);
            }
            match (a, b, c) {
                (Arg::Imm(a), Arg::Str(b), Arg::Str(c)) => Opcode::JL_I_V_V(a, b, c),
                _ => {
                    proof {
                        assert(arg_kinds_of(orig) =~= seq![arg_kind(orig[0]@), arg_kind(orig[1]@), arg_kind(orig[2]@)]);
                        assert(signature(op).unwrap()[0] == ArgKind::Imm);
                        assert(signature(op).unwrap()[1] == ArgKind::Str);
                        assert(signature(op).unwrap()[2] == ArgKind::Str);
                        assert(false);
                    }
                    Opcode::NOP
                },
            }
        },
        0x49 => {
            proof {
                assert(arg_kinds_of(orig).len() == 3);
            }
            let c = take_last(&mut args);
            let b = take_last(&mut args);
            let a = take_last(&mut args);
            proof {
                assert(orig =~= seq![a, b, c]);
                assert(arg_views(orig) =~= seq![a@, b@, c@]);
            }
            match (a, b, c) {
                (Arg::Str(a), Arg::Str(b), Arg::Str(c)) => Opcode::JL_V_V_V(a, b, c),
                _ => {
                    proof {
                        assert(arg_kinds_of(orig) =~= seq![arg_kind(orig[0]@), arg_kind(orig[1]@), arg_kind(orig[2]@)]);
                        assert(signature(op).unwrap()[0] == ArgKind::Str);
                        assert(signature(op).unwrap()[1] == ArgKind::Str);
                        assert(signature(op).unwrap()[2] == ArgKind::Str);
                        assert(false);
                    }
                    Opcode::NOP
                },
            }
        },
        0x4a => {
            proof {
                assert(arg_kinds_of(orig).len() == 2);
            }
            let b = take_last(&mut args);
            let a = take_last(&mut args);
            proof {
                assert(orig =~= seq![a, b]);
                assert(arg_views(orig) =~= seq![a@, b@]);
            }
            match (a, b) {
                (Arg::Imm(a), Arg::Str(b)) => Opcode::MOV_I_V(a, b),
                _ => {
                    proof {
                        assert(arg_kinds_of(orig) =~= seq![arg_kind(orig[0]@), arg_kind(orig[1]@)]);
                        assert(signature(op).unwrap()[0] == ArgKind::Imm);
                        assert(signature(op).unwrap()[1] == ArgKind::Str);
                        assert(false);
                    }
                    Opcode::NOP
                },
            }
        },
        0x4b => {
            proof {
                assert(arg_kinds_of(orig).len() == 2);
            }
            let b = take_last(&mut args);
            let a = take_last(&mut args);
            proof {
                assert(orig =~= seq![a, b]);
                assert(arg_views(orig) =~= seq![a@, b@]);
            }
            match (a, b) {
                (Arg::Str(a), Arg::Str(b)) => Opcode::MOV_V_V(a, b),
                _ => {
                    proof {
                        assert(arg_kinds_of(orig) =~= seq![arg_kind(orig[0]@), arg_kind(orig[1]@)]);
                        assert(signature(op).unwrap()[0] == ArgKind::Str);
                        assert(signature(op).unwrap()[1] == ArgKind::Str);
                        assert(false);
                    }
                    Opcode::NOP
                },
            }
        },
        0x4c => {
            proof {
                assert(arg_kinds_of(orig).len() == 2);
            }
            let b = take_last(&mut args);
            let a = take_last(&mut args);
            proof {
                assert(orig =~= seq![a, b]);
                assert(arg_views(orig) =~= seq![a@, b@]);
            }
            match (a, b) {
                (Arg::Str(a), Arg::Str(b)) => Opcode::MOV_VV_V(a, b),
                _ => {
                    proof {
                        assert(arg_kinds_of(orig) =~= seq![arg_kind(orig[0]@), arg_kind(orig[1]@)]);
                        assert(signature(op).unwrap()[0] == ArgKind::Str);
                        assert(signature(op).unwrap()[1] == ArgKind::Str);
                        assert(false);
                    }
                    Opcode::NOP
                },
            }
        },
        0x4d => {
            proof {
                assert(arg_kinds_of(orig).len() == 2);
            }
            let b = take_last(&mut args);
            let a = take_last(&mut args);
            proof {
                assert(orig =~= seq![a, b]);
                assert(arg_views(orig) =~= seq![a@, b@]);
            }
            match (a, b) {
                (Arg::Imm(a), Arg::Str(b)) => Opcode::MOV_I_VV(a, b),
                _ => {
                    proof {
                        assert(arg_kinds_of(orig) =~= seq![arg_kind(orig[0]@), arg_kind(orig[1]@)]);
                        assert(signature(op).unwrap()[0] == ArgKind::Imm);
                        assert(signature(op).unwrap()[1] == ArgKind::Str);
                        assert(false);
                    }
                    Opcode::NOP
                },
            }
        },
        0x4e => {
            proof {
                assert(arg_kinds_of(orig).len() == 2);
            }
            let b = take_last(&mut args);
            let a = take_last(&mut args);
            proof {
                assert(orig =~= seq![a, b]);
                assert(arg_views(orig) =~= seq![a@, b@]);
            }
            match (a, b) {
                (Arg::Str(a), Arg::Str(b)) => Opcode::MOV_V_VV(a, b),
                _ => {
                    proof {
                        assert(arg_kinds_of(orig) =~= seq![arg_kind(orig[0]@), arg_kind(orig[1]@)]);
                        assert(signature(op).unwrap()[0] == ArgKind::Str);
                        assert(signature(op).unwrap()[1] == ArgKind::Str);
                        assert(false);
                    }
                    Opcode::NOP
                },
            }
        },
        0x4f => {
            proof {
                assert(arg_kinds_of(orig).len() == 2);
            }
            let b = take_last(&mut args);
            let a = take_last(&mut args);
            proof {
                assert(orig =~= seq![a, b]);
                assert(arg_views(orig) =~= seq![a@, b@]);
            }
            match (a, b) {
                (Arg::Str(a), Arg::Str(b)) => Opcode::MOV_VV_VV(a, b),
                _ => {
                    proof {
                        assert(arg_kinds_of(orig) =~= seq![arg_kind(orig[0]@), arg_kind(orig[1]@)]);
                        assert(signature(op).unwrap()[0] == ArgKind::Str);
                        assert(signature(op).unwrap()[1] == ArgKind::Str);
                        assert(false);
                    }
                    Opcode::NOP
                },
            }
        },
        _ => {
            proof {
                assert(false);
            }
            Opcode::NOP
        },
    }
}

fn build_opcode_10(op: u8, args: Vec<Arg>) -> (res: Opcode)
    requires
        0x50 <= op <= 0x57,
        signature(op) == Some(arg_kinds_of(args@)),
    ensures
        opcode_view(res) == (op, arg_views(args@)),
{
    let ghost orig = args@;
    let mut args = args;
    match op {
        0x50 => {
            proof {
                assert(arg_kinds_of(orig).len() == 3);
            }
            let c = take_last(&mut args);
            let b = take_last(&mut args);
            let a = take_last(&mut args);
            proof {
                assert(orig =~= seq![a, b, c]);
                assert(arg_views(orig) =~= seq![a@, b@, c@]);
            }
            match (a, b, c) {
                (Arg::Imm(a), Arg::Imm(b), Arg::Str(c)) => Opcode::AND_I_I(a, b, c),
                _ => {
                    proof {
                        assert(arg_kinds_of(orig) =~= seq![arg_kind(orig[0]@), arg_kind(orig[1]@), arg_kind(orig[2]@)]);
                        assert(signature(op).unwrap()[0] == ArgKind::Imm);
                        assert(signature(op).unwrap()[1] == ArgKind::Imm);
                        assert(signature(op).unwrap()[2] == ArgKind::Str);
                        assert(false);
                    }
                    Opcode::NOP
                },
            }
        },
        0x51 => {
            proof {
                assert(arg_kinds_of(orig).len() == 3);
            }
            let c = take_last(&mut args);
            let b = take_last(&mut args);
            let a = take_last(&mut args);
            proof {
                assert(orig =~= seq![a, b, c]);
                assert(arg_views(orig) =~= seq![a@, b@, c@]);
            }
            match (a, b, c) {
                (Arg::Str(a), Arg::Imm(b), Arg::Str(c)) => Opcode::AND_V_I(a, b, c),
                _ => {
                    proof {
                        assert(arg_kinds_of(orig) =~= seq![arg_kind(orig[0]@), arg_kind(orig[1]@), arg_kind(orig[2]@)]);
                        assert(signature(op).unwrap()[0] == ArgKind::Str);
                        assert(signature(op).unwrap()[1] == ArgKind::Imm);
                        assert(signature(op).unwrap()[2] == ArgKind::Str);
                        assert(false);
                    }
                    Opcode::NOP
                },
            }
        },
        0x52 => {
            proof {
                assert(arg_kinds_of(orig).len() == 3);
            }
            let c = take_last(&mut args);
            let b = take_last(&mut args);
            let a = take_last(&mut args);
            proof {
                assert(orig =~= seq![a, b, c]);
                assert(arg_views(orig) =~= seq![a@, b@, c@]);
            }
            match (a, b, c) {
                (Arg::Imm(a), Arg::Str(b), Arg::Str(c)) => Opcode::AND_I_V(a, b, c),
                _ => {
                    proof {
                        assert(arg_kinds_of(orig) =~= seq![arg_kind(orig[0]@), arg_kind(orig[1]@), arg_kind(orig[2]@)]);
                        assert(signature(op).unwrap()[0] == ArgKind::Imm);
                        assert(signature(op).unwrap()[1] == ArgKind::Str);
                        assert(signature(op).unwrap()[2] == ArgKind::Str);
                        assert(false);
                    }
                    Opcode::NOP
                },
            }
        },
        0x53 => {
            proof {
                assert(arg_kinds_of(orig).len() == 3);
            }
            let c = take_last(&mut args);
            let b = take_last(&mut args);
            let a = take_last(&mut args);
            proof {
                assert(orig =~= seq![a, b, c]);
                assert(arg_views(orig) =~= seq![a@, b@, c@]);
            }
            match (a, b, c) {
                (Arg::Str(a), Arg::Str(b), Arg::Str(c)) => Opcode::AND_V_V(a, b, c),
                _ => {
                    proof {
                        assert(arg_kinds_of(orig) =~= seq![arg_kind(orig[0]@), arg_kind(orig[1]@), arg_kind(orig[2]@)]);
                        assert(signature(op).unwrap()[0] == ArgKind::Str);
                        assert(signature(op).unwrap()[1] == ArgKind::Str);
                        assert(signature(op).unwrap()[2] == ArgKind::Str);
                        assert(false);
                    }
                    Opcode::NOP
                },
            }
        },
        0x54 => {
            proof {
                assert(arg_kinds_of(orig).len() == 3);
            }
            let c = take_last(&mut args);
            let b = take_last(&mut args);
            let a = take_last(&mut args);
            proof {
                assert(orig =~= seq![a, b, c]);
                assert(arg_views(orig) =~= seq![a@, b@, c@]);
            }
            match (a, b, c) {
                (Arg::Imm(a), Arg::Imm(b), Arg::Str(c)) => Opcode::OR_I_I(a, b, c),
                _ => {
                    proof {
                        assert(arg_kinds_of(orig) =~= seq![arg_kind(orig[0]@), arg_kind(orig[1]@), arg_kind(orig[2]@)]);
                        assert(signature(op).unwrap()[0] == ArgKind::Imm);
                        assert(signature(op).unwrap()[1] == ArgKind::Imm);
                        assert(signature(op).unwrap()[2] == ArgKind::Str);
                        assert(false);
                    }
                    Opcode::NOP
                },
            }
        },
        0x55 => {
            proof {
                assert(arg_kinds_of(orig).len() == 3);
            }
            let c = take_last(&mut args);
            let b = take_last(&mut args);
            let a = take_last(&mut args);
            proof {
                assert(orig =~= seq![a, b, c]);
                assert(arg_views(orig) =~= seq![a@, b@, c@]);
            }
            match (a, b, c) {
                (Arg::Str(a), Arg::Imm(b), Arg::Str(c)) => Opcode::OR_V_I(a, b, c),
                _ => {
                    proof {
                        assert(arg_kinds_of(orig) =~= seq![arg_kind(orig[0]@), arg_kind(orig[1]@), arg_kind(orig[2]@)]);
                        assert(signature(op).unwrap()[0] == ArgKind::Str);
                        assert(signature(op).unwrap()[1] == ArgKind::Imm);
                        assert(signature(op).unwrap()[2] == ArgKind::Str);
                        assert(false);
                    }
                    Opcode::NOP
                },
            }
        },
        0x56 => {
            proof {
                assert(arg_kinds_of(orig).len() == 3);
            }
            let c = take_last(&mut args);
            let b = take_last(&mut args);
            let a = take_last(&mut args);
            proof {
                assert(orig =~= seq![a, b, c]);
                assert(arg_views(orig) =~= seq![a@, b@, c@]);
            }
            match (a, b, c) {
                (Arg::Imm(a), Arg::Str(b), Arg::Str(c)) => Opcode::OR_I_V(a, b, c),
                _ => {
                    proof {
                        assert(arg_kinds_of(orig) =~= seq![arg_kind(orig[0]@), arg_kind(orig[1]@), arg_kind(orig[2]@)]);
                        assert(signature(op).unwrap()[0] == ArgKind::Imm);
                        assert(signature(op).unwrap()[1] == ArgKind::Str);
                        assert(signature(op).unwrap()[2] == ArgKind::Str);
                        assert(false);
                    }
                    Opcode::NOP
                },
            }
        },
        0x57 => {
            proof {
                assert(arg_kinds_of(orig).len() == 3);
            }
            let c = take_last(&mut args);
            let b = take_last(&mut args);
            let a = take_last(&mut args);
            proof {
                assert(orig =~= seq![a, b, c]);
                assert(arg_views(orig) =~= seq![a@, b@, c@]);
            }
            match (a, b, c) {
                (Arg::Str(a), Arg::Str(b), Arg::Str(c)) => Opcode::OR_V_V(a, b, c),
                _ => {
                    proof {
                        assert(arg_kinds_of(orig) =~= seq![arg_kind(orig[0]@), arg_kind(orig[1]@), arg_kind(orig[2]@)]);
                        assert(signature(op).unwrap()[0] == ArgKind::Str);
                        assert(signature(op).unwrap()[1] == ArgKind::Str);
                        assert(signature(op).unwrap()[2] == ArgKind::Str);
                        assert(false);
                    }
                    Opcode::NOP
                },
            }
        },
        _ => {
            proof {
                assert(false);
            }
            Opcode::NOP
        },
    }
}

fn build_opcode_11(op: u8, args: Vec<Arg>) -> (res: Opcode)
    requires
        0x58 <= op <= 0x5f,
        signature(op) == Some(arg_kinds_of(args@)),
    ensures
        opcode_view(res) == (op, arg_views(args@)),
{
    let ghost orig = args@;
    let mut args = args;
    match op {
        0x58 => {
            proof {
                assert(arg_kinds_of(orig).len() == 3);
            }
            let c = take_last(&mut args);
            let b = take_last(&mut args);
            let a = take_last(&mut args);
            proof {
                assert(orig =~= seq![a, b, c]);
                assert(arg_views(orig) =~= seq![a@, b@, c@]);
            }
            match (a, b, c) {
                (Arg::Imm(a), Arg::Imm(b), Arg::Str(c)) => Opcode::XOR_I_I(a, b, c),
                _ => {
                    proof {
                        assert(arg_kinds_of(orig) =~= seq![arg_kind(orig[0]@), arg_kind(orig[1]@), arg_kind(orig[2]@)]);
                        assert(signature(op).unwrap()[0] == ArgKind::Imm);
                        assert(signature(op).unwrap()[1] == ArgKind::Imm);
                        assert(signature(op).unwrap()[2] == ArgKind::Str);
                        assert(false);
                    }
                    Opcode::NOP
                },
            }
        },
        0x59 => {
            proof {
                assert(arg_kinds_of(orig).len() == 3);
            }
            let c = take_last(&mut args);
            let b = take_last(&mut args);
            let a = take_last(&mut args);
            proof {
                assert(orig =~= seq![a, b, c]);
                assert(arg_views(orig) =~= seq![a@, b@, c@]);
            }
            match (a, b, c) {
                (Arg::Str(a), Arg::Imm(b), Arg::Str(c)) => Opcode::XOR_V_I(a, b, c),
                _ => {
                    proof {
                        assert(arg_kinds_of(orig) =~= seq![arg_kind(orig[0]@), arg_kind(orig[1]@), arg_kind(orig[2]@)]);
                        assert(signature(op).unwrap()[0] == ArgKind::Str);
                        assert(signature(op).unwrap()[1] == ArgKind::Imm);
                        assert(signature(op).unwrap()[2] == ArgKind::Str);
                        assert(false);
                    }
                    Opcode::NOP
                },
            }
        },
        0x5a => {
            proof {
                assert(arg_kinds_of(orig).len() == 3);
            }
            let c = take_last(&mut args);
            let b = take_last(&mut args);
            let a = take_last(&mut args);
            proof {
                assert(orig =~= seq![a, b, c]);
                assert(arg_views(orig) =~= seq![a@, b@, c@]);
            }
            match (a, b, c) {
                (Arg::Imm(a), Arg::Str(b), Arg::Str(c)) => Opcode::XOR_I_V(a, b, c),
                _ => {
                    proof {
                        assert(arg_kinds_of(orig) =~= seq![arg_kind(orig[0]@), arg_kind(orig[1]@), arg_kind(orig[2]@)]);
                        assert(signature(op).unwrap()[0] == ArgKind::Imm);
                        assert(signature(op).unwrap()[1] == ArgKind::Str);
                        assert(signature(op).unwrap()[2] == ArgKind::Str);
                        assert(false);
                    }
                    Opcode::NOP
                },
            }
        },
        0x5b => {
            proof {
                assert(arg_kinds_of(orig).len() == 3);
            }
            let c = take_last(&mut args);
            let b = take_last(&mut args);
            let a = take_last(&mut args);
            proof {
                assert(orig =~= seq![a, b, c]);
                assert(arg_views(orig) =~= seq![a@, b@, c@]);
            }
            match (a, b, c) {
                (Arg::Str(a), Arg::Str(b), Arg::Str(c)) => Opcode::XOR_V_V(a, b, c),
                _ => {
                    proof {
                        assert(arg_kinds_of(orig) =~= seq![arg_kind(orig[0]@), arg_kind(orig[1]@), arg_kind(orig[2]@)]);
                        assert(signature(op).unwrap()[0] == ArgKind::Str);
                        assert(signature(op).unwrap()[1] == ArgKind::Str);
                        assert(signature(op).unwrap()[2] == ArgKind::Str);
                        assert(false);
                    }
                    Opcode::NOP
                },
            }
        },
        0x5c => {
            proof {
                assert(arg_kinds_of(orig).len() == 2);
            }
            let b = take_last(&mut args);
            let a = take_last(&mut args);
            proof {
                assert(orig =~= seq![a, b]);
                assert(arg_views(orig) =~= seq![a@, b@]);
            }
            match (a, b) {
                (Arg::Imm(a), Arg::Str(b)) => Opcode::NOT_IMM(a, b),
                _ => {
                    proof {
                        assert(arg_kinds_of(orig) =~= seq![arg_kind(orig[0]@), arg_kind(orig[1]@)]);
                        assert(signature(op).unwrap()[0] == ArgKind::Imm);
                        assert(signature(op).unwrap()[1] == ArgKind::Str);
                        assert(false);
                    }
                    Opcode::NOP
                },
            }
        },
        0x5d => {
            proof {
                assert(arg_kinds_of(orig).len() == 2);
            }
            let b = take_last(&mut args);
            let a = take_last(&mut args);
            proof {
                assert(orig =~= seq![a, b]);
                assert(arg_views(orig) =~= seq![a@, b@]);
            }
            match (a, b) {
                (Arg::Str(a), Arg::Str(b)) => Opcode::NOT_VAR(a, b),
                _ => {
                    proof {
                        assert(arg_kinds_of(orig) =~= seq![arg_kind(orig[0]@), arg_kind(orig[1]@)]);
                        assert(signature(op).unwrap()[0] == ArgKind::Str);
                        assert(signature(op).unwrap()[1] == ArgKind::Str);
                        assert(false);
                    }
                    Opcode::NOP
                },
            }
        },
        0x5e => {
            proof {
                assert(arg_kinds_of(orig).len() == 3);
            }
            let c = take_last(&mut args);
            let b = take_last(&mut args);
            let a = take_last(&mut args);
            proof {
                assert(orig =~= seq![a, b, c]);
                assert(arg_views(orig) =~= seq![a@, b@, c@]);
            }
            match (a, b, c) {
                (Arg::Imm(a), Arg::Imm(b), Arg::Str(c)) => Opcode::LSH_I_I(a, b, c),
                _ => {
                    proof {
                        assert(arg_kinds_of(orig) =~= seq![arg_kind(orig[0]@), arg_kind(orig[1]@), arg_kind(orig[2]@)]);
                        assert(signature(op).unwrap()[0] == ArgKind::Imm);
                        assert(signature(op).unwrap()[1] == ArgKind::Imm);
                        assert(signature(op).unwrap()[2] == ArgKind::Str);
                        assert(false);
                    }
                    Opcode::NOP
                },
            }
        },
        0x5f => {
            proof {
                assert(arg_kinds_of(orig).len() == 3);
            }
            let c = take_last(&mut args);
            let b = take_last(&mut args);
            let a = take_last(&mut args);
            proof {
                assert(orig =~= seq![a, b, c]);
                assert(arg_views(orig) =~= seq![a@, b@, c@]);
            }
            match (a, b, c) {
                (Arg::Str(a), Arg::Imm(b), Arg::Str(c)) => Opcode::LSH_V_I(a, b, c),
                _ => {
                    proof {
                        assert(arg_kinds_of(orig) =~= seq![arg_kind(orig[0]@), arg_kind(orig[1]@), arg_kind(orig[2]@)]);
                        assert(signature(op).unwrap()[0] == ArgKind::Str);
                        assert(signature(op).unwrap()[1] == ArgKind::Imm);
                        assert(signature(op).unwrap()[2] == ArgKind::Str);
                        assert(false);
                    }
                    Opcode::NOP
                },
            }
        },
        _ => {
            proof {
                assert(false);
            }
            Opcode::NOP
        },
    }
}

fn build_opcode_12(op: u8, args: Vec<Arg>) -> (res: Opcode)
    requires
        0x60 <= op <= 0x67,
        signature(op) == Some(arg_kinds_of(args@)),
    ensures
        opcode_view(res) == (op, arg_views(args@)),
{
    let ghost orig = args@;
    let mut args = args;
    match op {
        0x60 => {
            proof {
                assert(arg_kinds_of(orig).len() == 3);
            }
            let c = take_last(&mut args);
            let b = take_last(&mut args);
            let a = take_last(&mut args);
            proof {
                assert(orig =~= seq![a, b, c]);
                assert(arg_views(orig) =~= seq![a@, b@, c@]);
            }
            match (a, b, c) {
                (Arg::Imm(a), Arg::Str(b), Arg::Str(c)) => Opcode::LSH_I_V(a, b, c),
                _ => {
                    proof {
                        assert(arg_kinds_of(orig) =~= seq![arg_kind(orig[0]@), arg_kind(orig[1]@), arg_kind(orig[2]@)]);
                        assert(signature(op).unwrap()[0] == ArgKind::Imm);
                        assert(signature(op).unwrap()[1] == ArgKind::Str);
                        assert(signature(op).unwrap()[2] == ArgKind::Str);
                        assert(false);
                    }
                    Opcode::NOP
                },
            }
        },
        0x61 => {
            proof {
                assert(arg_kinds_of(orig).len() == 3);
            }
            let c = take_last(&mut args);
            let b = take_last(&mut args);
            let a = take_last(&mut args);
            proof {
                assert(orig =~= seq![a, b, c]);
                assert(arg_views(orig) =~= seq![a@, b@, c@]);
            }
            match (a, b, c) {
                (Arg::Str(a), Arg::Str(b), Arg::Str(c)) => Opcode::LSH_V_V(a, b, c),
                _ => {
                    proof {
                        assert(arg_kinds_of(orig) =~= seq![arg_kind(orig[0]@), arg_kind(orig[1]@), arg_kind(orig[2]@)]);
                        assert(signature(op).unwrap()[0] == ArgKind::Str);
                        assert(signature(op).unwrap()[1] == ArgKind::Str);
                        assert(signature(op).unwrap()[2] == ArgKind::Str);
                        assert(false);
                    }
                    Opcode::NOP
                },
            }
        },
        0x62 => {
            proof {
                assert(arg_kinds_of(orig).len() == 3);
            }
            let c = take_last(&mut args);
            let b = take_last(&mut args);
            let a = take_last(&mut args);
            proof {
                assert(orig =~= seq![a, b, c]);
                assert(arg_views(orig) =~= seq![a@, b@, c@]);
            }
            match (a, b, c) {
                (Arg::Imm(a), Arg::Imm(b), Arg::Str(c)) => Opcode::RSH_I_I(a, b, c),
                _ => {
                    proof {
                        assert(arg_kinds_of(orig) =~= seq![arg_kind(orig[0]@), arg_kind(orig[1]@), arg_kind(orig[2]@)]);
                        assert(signature(op).unwrap()[0] == ArgKind::Imm);
                        assert(signature(op).unwrap()[1] == ArgKind::Imm);
                        assert(signature(op).unwrap()[2] == ArgKind::Str);
                        assert(false);
                    }
                    Opcode::NOP
                },
            }
        },
        0x63 => {
            proof {
                assert(arg_kinds_of(orig).len() == 3);
            }
            let c = take_last(&mut args);
            let b = take_last(&mut args);
            let a = take_last(&mut args);
            proof {
                assert(orig =~= seq![a, b, c]);
                assert(arg_views(orig) =~= seq![a@, b@, c@]);
            }
            match (a, b, c) {
                (Arg::Str(a), Arg::Imm(b), Arg::Str(c)) => Opcode::RSH_V_I(a, b, c),
                _ => {
                    proof {
                        assert(arg_kinds_of(orig) =~= seq![arg_kind(orig[0]@), arg_kind(orig[1]@), arg_kind(orig[2]@)]);
                        assert(signature(op).unwrap()[0] == ArgKind::Str);
                        assert(signature(op).unwrap()[1] == ArgKind::Imm);
                        assert(signature(op).unwrap()[2] == ArgKind::Str);
                        assert(false);
                    }
                    Opcode::NOP
                },
            }
        },
        0x64 => {
            proof {
                assert(arg_kinds_of(orig).len() == 3);
            }
            let c = take_last(&mut args);
            let b = take_last(&mut args);
            let a = take_last(&mut args);
            proof {
                assert(orig =~= seq![a, b, c]);
                assert(arg_views(orig) =~= seq![a@, b@, c@]);
            }
            match (a, b, c) {
                (Arg::Imm(a), Arg::Str(b), Arg::Str(c)) => Opcode::RSH_I_V(a, b, c),
                _ => {
                    proof {
                        assert(arg_kinds_of(orig) =~= seq![arg_kind(orig[0]@), arg_kind(orig[1]@), arg_kind(orig[2]@)]);
                        assert(signature(op).unwrap()[0] == ArgKind::Imm);
                        assert(signature(op).unwrap()[1] == ArgKind::Str);
                        assert(signature(op).unwrap()[2] == ArgKind::Str);
                        assert(false);
                    }
                    Opcode::NOP
                },
            }
        },
        0x65 => {
            proof {
                assert(arg_kinds_of(orig).len() == 3);
            }
            let c = take_last(&mut args);
            let b = take_last(&mut args);
            let a = take_last(&mut args);
            proof {
                assert(orig =~= seq![a, b, c]);
                assert(arg_views(orig) =~= seq![a@, b@, c@]);
            }
            match (a, b, c) {
                (Arg::Str(a), Arg::Str(b), Arg::Str(c)) => Opcode::RSH_V_V(a, b, c),
                _ => {
                    proof {
                        assert(arg_kinds_of(orig) =~= seq![arg_kind(orig[0]@), arg_kind(orig[1]@), arg_kind(orig[2]@)]);
                        assert(signature(op).unwrap()[0] == ArgKind::Str);
                        assert(signature(op).unwrap()[1] == ArgKind::Str);
                        assert(signature(op).unwrap()[2] == ArgKind::Str);
                        assert(false);
                    }
                    Opcode::NOP
                },
            }
        },
        0x66 => {
            proof {
                assert(arg_kinds_of(orig).len() == 2);
            }
            let b = take_last(&mut args);
            let a = take_last(&mut args);
            proof {
                assert(orig =~= seq![a, b]);
                assert(arg_views(orig) =~= seq![a@, b@]);
            }
            match (a, b) {
                (Arg::Ty(a), Arg::Str(b)) => Opcode::VAR_TYPE_NAME(a, b),
                _ => {
                    proof {
                        assert(arg_kinds_of(orig) =~= seq![arg_kind(orig[0]@), arg_kind(orig[1]@)]);
                        assert(signature(op).unwrap()[0] == ArgKind::Ty);
                        assert(signature(op).unwrap()[1] == ArgKind::Str);
                        assert(false);
                    }
                    Opcode::NOP
                },
            }
        },
        0x67 => {
            proof {
                assert(arg_kinds_of(orig).len() == 2);
            }
            let b = take_last(&mut args);
            let a = take_last(&mut args);
            proof {
                assert(orig =~= seq![a, b]);
                assert(arg_views(orig) =~= seq![a@, b@]);
            }
            match (a, b) {
                (Arg::Str(a), Arg::Str(b)) => Opcode::VAR_VAR_NAME(a, b),
                _ => {
                    proof {
                        assert(arg_kinds_of(orig) =~= seq![arg_kind(orig[0]@), arg_kind(orig[1]@)]);
                        assert(signature(op).unwrap()[0] == ArgKind::Str);
                        assert(signature(op).unwrap()[1] == ArgKind::Str);
                        assert(false);
                    }
                    Opcode::NOP
                },
            }
        },
        _ => {
            proof {
                assert(false);
            }
            Opcode::NOP
        },
    }
}

fn build_opcode_13(op: u8, args: Vec<Arg>) -> (res: Opcode)
    requires
        0x68 <= op <= 0x6f,
        signature(op) == Some(arg_kinds_of(args@)),
    ensures
        opcode_view(res) == (op, arg_views(args@)),
{
    let ghost orig = args@;
    let mut args = args;
    match op {
        0x68 => {
            proof {
                assert(arg_kinds_of(orig).len() == 2);
            }
            let b = take_last(&mut args);
            let a = take_last(&mut args);
            proof {
                assert(orig =~= seq![a, b]);
                assert(arg_views(orig) =~= seq![a@, b@]);
            }
            match (a, b) {
                (Arg::Ty(a), Arg::Str(b)) => Opcode::VAR_TYPE_VAR(a, b),
                _ => {
                    proof {
                        assert(arg_kinds_of(orig) =~= seq![arg_kind(orig[0]@), arg_kind(orig[1]@)]);
                        assert(signature(op).unwrap()[0] == ArgKind::Ty);
                        assert(signature(op).unwrap()[1] == ArgKind::Str);
                        assert(false);
                    }
                    Opcode::NOP
                },
            }
        },
        0x69 => {
            proof {
                assert(arg_kinds_of(orig).len() == 2);
            }
            let b = take_last(&mut args);
            let a = take_last(&mut args);
            proof {
                assert(orig =~= seq![a, b]);
                assert(arg_views(orig) =~= seq![a@, b@]);
            }
            match (a, b) {
                (Arg::Str(a), Arg::Str(b)) => Opcode::VAR_VAR_VAR(a, b),
                _ => {
                    proof {
                        assert(arg_kinds_of(orig) =~= seq![arg_kind(orig[0]@), arg_kind(orig[1]@)]);
                        assert(signature(op).unwrap()[0] == ArgKind::Str);
                        assert(signature(op).unwrap()[1] == ArgKind::Str);
                        assert(false);
                    }
                    Opcode::NOP
                },
            }
        },
        0x6a => {
            proof {
                assert(arg_kinds_of(orig).len() == 0);
                assert(arg_views(orig) =~= seq![]);
            }
            Opcode::RET
        },
        0x6b => {
            proof {
                assert(arg_kinds_of(orig).len() == 1);
            }
            let a = take_last(&mut args);
            proof {
                assert(orig =~= seq![a]);
                assert(arg_views(orig) =~= seq![a@]);
            }
            match (a,) {
                (Arg::Imm(a),) => Opcode::RET_IMM(a),
                _ => {
                    proof {
                        assert(arg_kinds_of(orig) =~= seq![arg_kind(orig[0]@)]);
                        assert(signature(op).unwrap()[0] == ArgKind::Imm);
                        assert(false);
                    }
                    Opcode::NOP
                },
            }
        },
        0x6c => {
            proof {
                assert(arg_kinds_of(orig).len() == 1);
            }
            let a = take_last(&mut args);
            proof {
                assert(orig =~= seq![a]);
                assert(arg_views(orig) =~= seq![a@]);
            }
            match (a,) {
                (Arg::Str(a),) => Opcode::RET_VAR(a),
                _ => {
                    proof {
                        assert(arg_kinds_of(orig) =~= seq![arg_kind(orig[0]@)]);
                        assert(signature(op).unwrap()[0] == ArgKind::Str);
                        assert(false);
                    }
                    Opcode::NOP
                },
            }
        },
        0x6d => {
            proof {
                assert(arg_kinds_of(orig).len() == 2);
            }
            let b = take_last(&mut args);
            let a = take_last(&mut args);
            proof {
                assert(orig =~= seq![a, b]);
                assert(arg_views(orig) =~= seq![a@, b@]);
            }
            match (a, b) {
                (Arg::Imm(a), Arg::Str(b)) => Opcode::DEREF_IMM(a, b),
                _ => {
                    proof {
                        assert(arg_kinds_of(orig) =~= seq![arg_kind(orig[0]@), arg_kind(orig[1]@)]);
                        assert(signature(op).unwrap()[0] == ArgKind::Imm);
                        assert(signature(op).unwrap()[1] == ArgKind::Str);
                        assert(false);
                    }
                    Opcode::NOP
                },
            }
        },
        0x6e => {
            proof {
                assert(arg_kinds_of(orig).len() == 2);
            }
            let b = take_last(&mut args);
            let a = take_last(&mut args);
            proof {
                assert(orig =~= seq![a, b]);
                assert(arg_views(orig) =~= seq![a@, b@]);
            }
            match (a, b) {
                (Arg::Str(a), Arg::Str(b)) => Opcode::DEREF_VAR(a, b),
                _ => {
                    proof {
                        assert(arg_kinds_of(orig) =~= seq![arg_kind(orig[0]@), arg_kind(orig[1]@)]);
                        assert(signature(op).unwrap()[0] == ArgKind::Str);
                        assert(signature(op).unwrap()[1] == ArgKind::Str);
                        assert(false);
                    }
                    Opcode::NOP
                },
            }
        },
        0x6f => {
            proof {
                assert(arg_kinds_of(orig).len() == 2);
            }
            let b = take_last(&mut args);
            let a = take_last(&mut args);
            proof {
                assert(orig =~= seq![a, b]);
                assert(arg_views(orig) =~= seq![a@, b@]);
            }
            match (a, b) {
                (Arg::Imm(a), Arg::Str(b)) => Opcode::REF_IMM(a, b),
                _ => {
                    proof {
                        assert(arg_kinds_of(orig) =~= seq![arg_kind(orig[0]@), arg_kind(orig[1]@)]);
                        assert(signature(op).unwrap()[0] == ArgKind::Imm);
                        assert(signature(op).unwrap()[1] == ArgKind::Str);
                        assert(false);
                    }
                    Opcode::NOP
                },
            }
        },
        _ => {
            proof {
                assert(false);
            }
            Opcode::NOP
        },
    }
}

fn build_opcode_14(op: u8, args: Vec<Arg>) -> (res: Opcode)
    requires
        0x70 <= op <= 0x77,
        signature(op) == Some(arg_kinds_of(args@)),
    ensures
        opcode_view(res) == (op, arg_views(args@)),
{
    let ghost orig = args@;
    let mut args = args;
    match op {
        0x70 => {
            proof {
                assert(arg_kinds_of(orig).len() == 2);
            }
            let b = take_last(&mut args);
            let a = take_last(&mut args);
            proof {
                assert(orig =~= seq![a, b]);
                assert(arg_views(orig) =~= seq![a@, b@]);
            }
            match (a, b) {
                (Arg::Str(a), Arg::Str(b)) => Opcode::REF_VAR(a, b),
                _ => {
                    proof {
                        assert(arg_kinds_of(orig) =~= seq![arg_kind(orig[0]@), arg_kind(orig[1]@)]);
                        assert(signature(op).unwrap()[0] == ArgKind::Str);
                        assert(signature(op).unwrap()[1] == ArgKind::Str);
                        assert(false);
                    }
                    Opcode::NOP
                },
            }
        },
        0x71 => {
            proof {
                assert(arg_kinds_of(orig).len() == 2);
            }
            let b = take_last(&mut args);
            let a = take_last(&mut args);
            proof {
                assert(orig =~= seq![a, b]);
                assert(arg_views(orig) =~= seq![a@, b@]);
            }
            match (a, b) {
                (Arg::Str(a), Arg::Str(b)) => Opcode::INST_NAME(a, b),
                _ => {
                    proof {
                        assert(arg_kinds_of(orig) =~= seq![arg_kind(orig[0]@), arg_kind(orig[1]@)]);
                        assert(signature(op).unwrap()[0] == ArgKind::Str);
                        assert(signature(op).unwrap()[1] == ArgKind::Str);
                        assert(false);
                    }
                    Opcode::NOP
                },
            }
        },
        0x72 => {
            proof {
                assert(arg_kinds_of(orig).len() == 2);
            }
            let b = take_last(&mut args);
            let a = take_last(&mut args);
            proof {
                assert(orig =~= seq![a, b]);
                assert(arg_views(orig) =~= seq![a@, b@]);
            }
            match (a, b) {
                (Arg::Str(a), Arg::Str(b)) => Opcode::INST_VAR(a, b),
                _ => {
                    proof {
                        assert(arg_kinds_of(orig) =~= seq![arg_kind(orig[0]@), arg_kind(orig[1]@)]);
                        assert(signature(op).unwrap()[0] == ArgKind::Str);
                        assert(signature(op).unwrap()[1] == ArgKind::Str);
                        assert(false);
                    }
                    Opcode::NOP
                },
            }
        },
        0x73 => {
            proof {
                assert(arg_kinds_of(orig).len() == 3);
            }
            let c = take_last(&mut args);
            let b = take_last(&mut args);
            let a = take_last(&mut args);
            proof {
                assert(orig =~= seq![a, b, c]);
                assert(arg_views(orig) =~= seq![a@, b@, c@]);
            }
            match (a, b, c) {
                (Arg::Imm(a), Arg::Imm(b), Arg::Str(c)) => Opcode::MOD_I_I(a, b, c),
                _ => {
                    proof {
                        assert(arg_kinds_of(orig) =~= seq![arg_kind(orig[0]@), arg_kind(orig[1]@), arg_kind(orig[2]@)]);
                        assert(signature(op).unwrap()[0] == ArgKind::Imm);
                        assert(signature(op).unwrap()[1] == ArgKind::Imm);
                        assert(signature(op).unwrap()[2] == ArgKind::Str);
                        assert(false);
                    }
                    Opcode::NOP
                },
            }
        },
        0x74 => {
            proof {
                assert(arg_kinds_of(orig).len() == 3);
            }
            let c = take_last(&mut args);
            let b = take_last(&mut args);
            let a = take_last(&mut args);
            proof {
                assert(orig =~= seq![a, b, c]);
                assert(arg_views(orig) =~= seq![a@, b@, c@]);
            }
            match (a, b, c) {
                (Arg::Str(a), Arg::Imm(b), Arg::Str(c)) => Opcode::MOD_V_I(a, b, c),
                _ => {
                    proof {
                        assert(arg_kinds_of(orig) =~= seq![arg_kind(orig[0]@), arg_kind(orig[1]@), arg_kind(orig[2]@)]);
                        assert(signature(op).unwrap()[0] == ArgKind::Str);
                        assert(signature(op).unwrap()[1] == ArgKind::Imm);
                        assert(signature(op).unwrap()[2] == ArgKind::Str);
                        assert(false);
                    }
                    Opcode::NOP
                },
            }
        },
        0x75 => {
            proof {
                assert(arg_kinds_of(orig).len() == 3);
            }
            let c = take_last(&mut args);
            let b = take_last(&mut args);
            let a = take_last(&mut args);
            proof {
                assert(orig =~= seq![a, b, c]);
                assert(arg_views(orig) =~= seq![a@, b@, c@]);
            }
            match (a, b, c) {
                (Arg::Imm(a), Arg::Str(b), Arg::Str(c)) => Opcode::MOD_I_V(a, b, c),
                _ => {
                    proof {
                        assert(arg_kinds_of(orig) =~= seq![arg_kind(orig[0]@), arg_kind(orig[1]@), arg_kind(orig[2]@)]);
                        assert(signature(op).unwrap()[0] == ArgKind::Imm);
                        assert(signature(op).unwrap()[1] == ArgKind::Str);
                        assert(signature(op).unwrap()[2] == ArgKind::Str);
                        assert(false);
                    }
                    Opcode::NOP
                },
            }
        },
        0x76 => {
            proof {
                assert(arg_kinds_of(orig).len() == 3);
            }
            let c = take_last(&mut args);
            let b = take_last(&mut args);
            let a = take_last(&mut args);
            proof {
                assert(orig =~= seq![a, b, c]);
                assert(arg_views(orig) =~= seq![a@, b@, c@]);
            }
            match (a, b, c) {
                (Arg::Str(a), Arg::Str(b), Arg::Str(c)) => Opcode::MOD_V_V(a, b, c),
                _ => {
                    proof {
                        assert(arg_kinds_of(orig) =~= seq![arg_kind(orig[0]@), arg_kind(orig[1]@), arg_kind(orig[2]@)]);
                        assert(signature(op).unwrap()[0] == ArgKind::Str);
                        assert(signature(op).unwrap()[1] == ArgKind::Str);
                        assert(signature(op).unwrap()[2] == ArgKind::Str);
                        assert(false);
                    }
                    Opcode::NOP
                },
            }
        },
        0x77 => {
            proof {
                assert(arg_kinds_of(orig).len() == 3);
            }
            let c = take_last(&mut args);
            let b = take_last(&mut args);
            let a = take_last(&mut args);
            proof {
                assert(orig =~= seq![a, b, c]);
                assert(arg_views(orig) =~= seq![a@, b@, c@]);
            }
            match (a, b, c) {
                (Arg::Imm(a), Arg::Str(b), Arg::Imm(c)) => Opcode::PMOV_IMM_IMM(a, b, c),
                _ => {
                    proof {
                        assert(arg_kinds_of(orig) =~= seq![arg_kind(orig[0]@), arg_kind(orig[1]@), arg_kind(orig[2]@)]);
                        assert(signature(op).unwrap()[0] == ArgKind::Imm);
                        assert(signature(op).unwrap()[1] == ArgKind::Str);
                        assert(signature(op).unwrap()[2] == ArgKind::Imm);
                        assert(false);
                    }
                    Opcode::NOP
                },
            }
        },
        _ => {
            proof {
                assert(false);
            }
            Opcode::NOP
        },
    }
}

fn build_opcode_15(op: u8, args: Vec<Arg>) -> (res: Opcode)
    requires
        0x78 <= op <= 0x7f,
        signature(op) == Some(arg_kinds_of(args@)),
    ensures
        opcode_view(res) == (op, arg_views(args@)),
{
    let ghost orig = args@;
    let mut args = args;
    match op {
        0x78 => {
            proof {
                assert(arg_kinds_of(orig).len() == 3);
            }
            let c = take_last(&mut args);
            let b = take_last(&mut args);
            let a = take_last(&mut args);
            proof {
                assert(orig =~= seq![a, b, c]);
                assert(arg_views(orig) =~= seq![a@, b@, c@]);
            }
            match (a, b, c) {
                (Arg::Str(a), Arg::Str(b), Arg::Imm(c)) => Opcode::PMOV_VAR_IMM(a, b, c),
                _ => {
                    proof {
                        assert(arg_kinds_of(orig) =~= seq![arg_kind(orig[0]@), arg_kind(orig[1]@), arg_kind(orig[2]@)]);
                        assert(signature(op).unwrap()[0] == ArgKind::Str);
                        assert(signature(op).unwrap()[1] == ArgKind::Str);
                        assert(signature(op).unwrap()[2] == ArgKind::Imm);
                        assert(false);
                    }
                    Opcode::NOP
                },
            }
        },
        0x79 => {
            proof {
                assert(arg_kinds_of(orig).len() == 3);
            }
            let c = take_last(&mut args);
            let b = take_last(&mut args);
            let a = take_last(&mut args);
            proof {
                assert(orig =~= seq![a, b, c]);
                assert(arg_views(orig) =~= seq![a@, b@, c@]);
            }
            match (a, b, c) {
                (Arg::Imm(a), Arg::Str(b), Arg::Str(c)) => Opcode::PMOV_IMM_VAR(a, b, c),
                _ => {
                    proof {
                        assert(arg_kinds_of(orig) =~= seq![arg_kind(orig[0]@), arg_kind(orig[1]@), arg_kind(orig[2]@)]);
                        assert(signature(op).unwrap()[0] == ArgKind::Imm);
                        assert(signature(op).unwrap()[1] == ArgKind::Str);
                        assert(signature(op).unwrap()[2] == ArgKind::Str);
                        assert(false);
                    }
                    Opcode::NOP
                },
            }
        },
        0x7a => {
            proof {
                assert(arg_kinds_of(orig).len() == 3);
            }
            let c = take_last(&mut args);
            let b = take_last(&mut args);
            let a = take_last(&mut args);
            proof {
                assert(orig =~= seq![a, b, c]);
                assert(arg_views(orig) =~= seq![a@, b@, c@]);
            }
            match (a, b, c) {
                (Arg::Str(a), Arg::Str(b), Arg::Str(c)) => Opcode::PMOV_VAR_VAR(a, b, c),
                _ => {
                    proof {
                        assert(arg_kinds_of(orig) =~= seq![arg_kind(orig[0]@), arg_kind(orig[1]@), arg_kind(orig[2]@)]);
                        assert(signature(op).unwrap()[0] == ArgKind::Str);
                        assert(signature(op).unwrap()[1] == ArgKind::Str);
                        assert(signature(op).unwrap()[2] == ArgKind::Str);
                        assert(false);
                    }
                    Opcode::NOP
                },
            }
        },
        0x7b => {
            proof {
                assert(arg_kinds_of(orig).len() == 3);
            }
            let c = take_last(&mut args);
            let b = take_last(&mut args);
            let a = take_last(&mut args);
            proof {
                assert(orig =~= seq![a, b, c]);
                assert(arg_views(orig) =~= seq![a@, b@, c@]);
            }
            match (a, b, c) {
                (Arg::Ty(a), Arg::Imm(b), Arg::Str(c)) => Opcode::ALLOC_TYPE_IMM(a, b, c),
                _ => {
                    proof {
                        assert(arg_kinds_of(orig) =~= seq![arg_kind(orig[0]@), arg_kind(orig[1]@), arg_kind(orig[2]@)]);
                        assert(signature(op).unwrap()[0] == ArgKind::Ty);
                        assert(signature(op).unwrap()[1] == ArgKind::Imm);
                        assert(signature(op).unwrap()[2] == ArgKind::Str);
                        assert(false);
                    }
                    Opcode::NOP
                },
            }
        },
        0x7c => {
            proof {
                assert(arg_kinds_of(orig).len() == 3);
            }
            let c = take_last(&mut args);
            let b = take_last(&mut args);
            let a = take_last(&mut args);
            proof {
                assert(orig =~= seq![a, b, c]);
                assert(arg_views(orig) =~= seq![a@, b@, c@]);
            }
            match (a, b, c) {
                (Arg::Str(a), Arg::Imm(b), Arg::Str(c)) => Opcode::ALLOC_VAR_IMM(a, b, c),
                _ => {
                    proof {
                        assert(arg_kinds_of(orig) =~= seq![arg_kind(orig[0]@), arg_kind(orig[1]@), arg_kind(orig[2]@)]);
                        assert(signature(op).unwrap()[0] == ArgKind::Str);
                        assert(signature(op).unwrap()[1] == ArgKind::Imm);
                        assert(signature(op).unwrap()[2] == ArgKind::Str);
                        assert(false);
                    }
                    Opcode::NOP
                },
            }
        },
        0x7d => {
            proof {
                assert(arg_kinds_of(orig).len() == 3);
            }
            let c = take_last(&mut args);
            let b = take_last(&mut args);
            let a = take_last(&mut args);
            proof {
                assert(orig =~= seq![a, b, c]);
                assert(arg_views(orig) =~= seq![a@, b@, c@]);
            }
            match (a, b, c) {
                (Arg::Ty(a), Arg::Str(b), Arg::Str(c)) => Opcode::ALLOC_TYPE_VAR(a, b, c),
                _ => {
                    proof {
                        assert(arg_kinds_of(orig) =~= seq![arg_kind(orig[0]@), arg_kind(orig[1]@), arg_kind(orig[2]@)]);
                        assert(signature(op).unwrap()[0] == ArgKind::Ty);
                        assert(signature(op).unwrap()[1] == ArgKind::Str);
                        assert(signature(op).unwrap()[2] == ArgKind::Str);
                        assert(false);
                    }
                    Opcode::NOP
                },
            }
        },
        0x7e => {
            proof {
                assert(arg_kinds_of(orig).len() == 3);
            }
            let c = take_last(&mut args);
            let b = take_last(&mut args);
            let a = take_last(&mut args);
            proof {
                assert(orig =~= seq![a, b, c]);
                assert(arg_views(orig) =~= seq![a@, b@, c@]);
            }
            match (a, b, c) {
                (Arg::Str(a), Arg::Str(b), Arg::Str(c)) => Opcode::ALLOC_VAR_VAR(a, b, c),
                _ => {
                    proof {
                        assert(arg_kinds_of(orig) =~= seq![arg_kind(orig[0]@), arg_kind(orig[1]@), arg_kind(orig[2]@)]);
                        assert(signature(op).unwrap()[0] == ArgKind::Str);
                        assert(signature(op).unwrap()[1] == ArgKind::Str);
                        assert(signature(op).unwrap()[2] == ArgKind::Str);
                        assert(false);
                    }
                    Opcode::NOP
                },
            }
        },
        0x7f => {
            proof {
                assert(arg_kinds_of(orig).len() == 1);
            }
            let a = take_last(&mut args);
            proof {
                assert(orig =~= seq![a]);
                assert(arg_views(orig) =~= seq![a@]);
            }
            match (a,) {
                (Arg::Str(a),) => Opcode::FREE_VAR(a),
                _ => {
                    proof {
                        assert(arg_kinds_of(orig) =~= seq![arg_kind(orig[0]@)]);
                        assert(signature(op).unwrap()[0] == ArgKind::Str);
                        assert(false);
                    }
                    Opcode::NOP
                },
            }
        },
        _ => {
            proof {
                assert(false);
            }
            Opcode::NOP
        },
    }
}

fn build_opcode_16(op: u8, args: Vec<Arg>) -> (res: Opcode)
    requires
        0x80 <= op <= 0x87,
        signature(op) == Some(arg_kinds_of(args@)),
    ensures
        opcode_view(res) == (op, arg_views(args@)),
{
    let ghost orig = args@;
    let mut args = args;
    match op {
        0x80 => {
            proof {
                assert(arg_kinds_of(orig).len() == 2);
            }
            let b = take_last(&mut args);
            let a = take_last(&mut args);
            proof {
                assert(orig =~= seq![a, b]);
                assert(arg_views(orig) =~= seq![a@, b@]);
            }
            match (a, b) {
                (Arg::Imm(a), Arg::Imm(b)) => Opcode::FREE_IMM_IMM(a, b),
                _ => {
                    proof {
                        assert(arg_kinds_of(orig) =~= seq![arg_kind(orig[0]@), arg_kind(orig[1]@)]);
                        assert(signature(op).unwrap()[0] == ArgKind::Imm);
                        assert(signature(op).unwrap()[1] == ArgKind::Imm);
                        assert(false);
                    }
                    Opcode::NOP
                },
            }
        },
        0x81 => {
            proof {
                assert(arg_kinds_of(orig).len() == 2);
            }
            let b = take_last(&mut args);
            let a = take_last(&mut args);
            proof {
                assert(orig =~= seq![a, b]);
                assert(arg_views(orig) =~= seq![a@, b@]);
            }
            match (a, b) {
                (Arg::Str(a), Arg::Imm(b)) => Opcode::FREE_VAR_IMM(a, b),
                _ => {
                    proof {
                        assert(arg_kinds_of(orig) =~= seq![arg_kind(orig[0]@), arg_kind(orig[1]@)]);
                        assert(signature(op).unwrap()[0] == ArgKind::Str);
                        assert(signature(op).unwrap()[1] == ArgKind::Imm);
                        assert(false);
                    }
                    Opcode::NOP
                },
            }
        },
        0x82 => {
            proof {
                assert(arg_kinds_of(orig).len() == 2);
            }
            let b = take_last(&mut args);
            let a = take_last(&mut args);
            proof {
                assert(orig =~= seq![a, b]);
                assert(arg_views(orig) =~= seq![a@, b@]);
            }
            match (a, b) {
                (Arg::Imm(a), Arg::Str(b)) => Opcode::FREE_IMM_VAR(a, b),
                _ => {
                    proof {
                        assert(arg_kinds_of(orig) =~= seq![arg_kind(orig[0]@), arg_kind(orig[1]@)]);
                        assert(signature(op).unwrap()[0] == ArgKind::Imm);
                        assert(signature(op).unwrap()[1] == ArgKind::Str);
                        assert(false);
                    }
                    Opcode::NOP
                },
            }
        },
        0x83 => {
            proof {
                assert(arg_kinds_of(orig).len() == 2);
            }
            let b = take_last(&mut args);
            let a = take_last(&mut args);
            proof {
                assert(orig =~= seq![a, b]);
                assert(arg_views(orig) =~= seq![a@, b@]);
            }
            match (a, b) {
                (Arg::Str(a), Arg::Str(b)) => Opcode::FREE_VAR_VAR(a, b),
                _ => {
                    proof {
                        assert(arg_kinds_of(orig) =~= seq![arg_kind(orig[0]@), arg_kind(orig[1]@)]);
                        assert(signature(op).unwrap()[0] == ArgKind::Str);
                        assert(signature(op).unwrap()[1] == ArgKind::Str);
                        assert(false);
                    }
                    Opcode::NOP
                },
            }
        },
        0x84 => {
            proof {
                assert(arg_kinds_of(orig).len() == 3);
            }
            let c = take_last(&mut args);
            let b = take_last(&mut args);
            let a = take_last(&mut args);
            proof {
                assert(orig =~= seq![a, b, c]);
                assert(arg_views(orig) =~= seq![a@, b@, c@]);
            }
            match (a, b, c) {
                (Arg::Imm(a), Arg::Ty(b), Arg::Imm(c)) => Opcode::CALLC_I_T_I(a, b, c),
                _ => {
                    proof {
                        assert(arg_kinds_of(orig) =~= seq![arg_kind(orig[0]@), arg_kind(orig[1]@), arg_kind(orig[2]@)]);
                        assert(signature(op).unwrap()[0] == ArgKind::Imm);
                        assert(signature(op).unwrap()[1] == ArgKind::Ty);
                        assert(signature(op).unwrap()[2] == ArgKind::Imm);
                        assert(false);
                    }
                    Opcode::NOP
                },
            }
        },
        0x85 => {
            proof {
                assert(arg_kinds_of(orig).len() == 3);
            }
            let c = take_last(&mut args);
            let b = take_last(&mut args);
            let a = take_last(&mut args);
            proof {
                assert(orig =~= seq![a, b, c]);
                assert(arg_views(orig) =~= seq![a@, b@, c@]);
            }
            match (a, b, c) {
                (Arg::Str(a), Arg::Ty(b), Arg::Imm(c)) => Opcode::CALLC_V_T_I(a, b, c),
                _ => {
                    proof {
                        assert(arg_kinds_of(orig) =~= seq![arg_kind(orig[0]@), arg_kind(orig[1]@), arg_kind(orig[2]@)]);
                        assert(signature(op).unwrap()[0] == ArgKind::Str);
                        assert(signature(op).unwrap()[1] == ArgKind::Ty);
                        assert(signature(op).unwrap()[2] == ArgKind::Imm);
                        assert(false);
                    }
                    Opcode::NOP
                },
            }
        },
        0x86 => {
            proof {
                assert(arg_kinds_of(orig).len() == 3);
            }
            let c = take_last(&mut args);
            let b = take_last(&mut args);
            let a = take_last(&mut args);
            proof {
                assert(orig =~= seq![a, b, c]);
                assert(arg_views(orig) =~= seq![a@, b@, c@]);
            }
            match (a, b, c) {
                (Arg::Imm(a), Arg::Str(b), Arg::Imm(c)) => Opcode::CALLC_I_V_I(a, b, c),
                _ => {
                    proof {
                        assert(arg_kinds_of(orig) =~= seq![arg_kind(orig[0]@), arg_kind(orig[1]@), arg_kind(orig[2]@)]);
                        assert(signature(op).unwrap()[0] == ArgKind::Imm);
                        assert(signature(op).unwrap()[1] == ArgKind::Str);
                        assert(signature(op).unwrap()[2] == ArgKind::Imm);
                        assert(false);
                    }
                    Opcode::NOP
                },
            }
        },
        0x87 => {
            proof {
                assert(arg_kinds_of(orig).len() == 3);
            }
            let c = take_last(&mut args);
            let b = take_last(&mut args);
            let a = take_last(&mut args);
            proof {
                assert(orig =~= seq![a, b, c]);
                assert(arg_views(orig) =~= seq![a@, b@, c@]);
            }
            match (a, b, c) {
                (Arg::Str(a), Arg::Str(b), Arg::Imm(c)) => Opcode::CALLC_V_V_I(a, b, c),
                _ => {
                    proof {
                        assert(arg_kinds_of(orig) =~= seq![arg_kind(orig[0]@), arg_kind(orig[1]@), arg_kind(orig[2]@)]);
                        assert(signature(op).unwrap()[0] == ArgKind::Str);
                        assert(signature(op).unwrap()[1] == ArgKind::Str);
                        assert(signature(op).unwrap()[2] == ArgKind::Imm);
                        assert(false);
                    }
                    Opcode::NOP
                },
            }
        },
        _ => {
            proof {
                assert(false);
            }
            Opcode::NOP
        },
    }
}

fn build_opcode_17(op: u8, args: Vec<Arg>) -> (res: Opcode)
    requires
        0x88 <= op <= 0x8f,
        signature(op) == Some(arg_kinds_of(args@)),
    ensures
        opcode_view(res) == (op, arg_views(args@)),
{
    let ghost orig = args@;
    let mut args = args;
    match op {
        0x88 => {
            proof {
                assert(arg_kinds_of(orig).len() == 3);
            }
            let c = take_last(&mut args);
            let b = take_last(&mut args);
            let a = take_last(&mut args);
            proof {
                assert(orig =~= seq![a, b, c]);
                assert(arg_views(orig) =~= seq![a@, b@, c@]);
            }
            match (a, b, c) {
                (Arg::Imm(a), Arg::Ty(b), Arg::Str(c)) => Opcode::CALLC_I_T_V(a, b, c),
                _ => {
                    proof {
                        assert(arg_kinds_of(orig) =~= seq![arg_kind(orig[0]@), arg_kind(orig[1]@), arg_kind(orig[2]@)]);
                        assert(signature(op).unwrap()[0] == ArgKind::Imm);
                        assert(signature(op).unwrap()[1] == ArgKind::Ty);
                        assert(signature(op).unwrap()[2] == ArgKind::Str);
                        assert(false);
                    }
                    Opcode::NOP
                },
            }
        },
        0x89 => {
            proof {
                assert(arg_kinds_of(orig).len() == 3);
            }
            let c = take_last(&mut args);
            let b = take_last(&mut args);
            let a = take_last(&mut args);
            proof {
                assert(orig =~= seq![a, b, c]);
                assert(arg_views(orig) =~= seq![a@, b@, c@]);
            }
            match (a, b, c) {
                (Arg::Str(a), Arg::Ty(b), Arg::Str(c)) => Opcode::CALLC_V_T_V(a, b, c),
                _ => {
                    proof {
                        assert(arg_kinds_of(orig) =~= seq![arg_kind(orig[0]@), arg_kind(orig[1]@), arg_kind(orig[2]@)]);
                        assert(signature(op).unwrap()[0] == ArgKind::Str);
                        assert(signature(op).unwrap()[1] == ArgKind::Ty);
                        assert(signature(op).unwrap()[2] == ArgKind::Str);
                        assert(false);
                    }
                    Opcode::NOP
                },
            }
        },
        0x8a => {
            proof {
                assert(arg_kinds_of(orig).len() == 3);
            }
            let c = take_last(&mut args);
            let b = take_last(&mut args);
            let a = take_last(&mut args);
            proof {
                assert(orig =~= seq![a, b, c]);
                assert(arg_views(orig) =~= seq![a@, b@, c@]);
            }
            match (a, b, c) {
                (Arg::Imm(a), Arg::Str(b), Arg::Str(c)) => Opcode::CALLC_I_V_V(a, b, c),
                _ => {
                    proof {
                        assert(arg_kinds_of(orig) =~= seq![arg_kind(orig[0]@), arg_kind(orig[1]@), arg_kind(orig[2]@)]);
                        assert(signature(op).unwrap()[0] == ArgKind::Imm);
                        assert(signature(op).unwrap()[1] == ArgKind::Str);
                        assert(signature(op).unwrap()[2] == ArgKind::Str);
                        assert(false);
                    }
                    Opcode::NOP
                },
            }
        },
        0x8b => {
            proof {
                assert(arg_kinds_of(orig).len() == 3);
            }
            let c = take_last(&mut args);
            let b = take_last(&mut args);
            let a = take_last(&mut args);
            proof {
                assert(orig =~= seq![a, b, c]);
                assert(arg_views(orig) =~= seq![a@, b@, c@]);
            }
            match (a, b, c) {
                (Arg::Str(a), Arg::Str(b), Arg::Str(c)) => Opcode::CALLC_V_V_V(a, b, c),
                _ => {
                    proof {
                        assert(arg_kinds_of(orig) =~= seq![arg_kind(orig[0]@), arg_kind(orig[1]@), arg_kind(orig[2]@)]);
                        assert(signature(op).unwrap()[0] == ArgKind::Str);
                        assert(signature(op).unwrap()[1] == ArgKind::Str);
                        assert(signature(op).unwrap()[2] == ArgKind::Str);
                        assert(false);
                    }
                    Opcode::NOP
                },
            }
        },
        0x8c => {
            proof {
                assert(arg_kinds_of(orig).len() == 4);
            }
            let d = take_last(&mut args);
            let c = take_last(&mut args);
            let b = take_last(&mut args);
            let a = take_last(&mut args);
            proof {
                assert(orig =~= seq![a, b, c, d]);
                assert(arg_views(orig) =~= seq![a@, b@, c@, d@]);
            }
            match (a, b, c, d) {
                (Arg::Imm(a), Arg::Imm(b), Arg::Imm(c), Arg::Str(d)) => Opcode::CMP_I_I_I(a, b, c, d),
                _ => {
                    proof {
                        assert(arg_kinds_of(orig) =~= seq![arg_kind(orig[0]@), arg_kind(orig[1]@), arg_kind(orig[2]@), arg_kind(orig[3]@)]);
                        assert(signature(op).unwrap()[0] == ArgKind::Imm);
                        assert(signature(op).unwrap()[1] == ArgKind::Imm);
                        assert(signature(op).unwrap()[2] == ArgKind::Imm);
                        assert(signature(op).unwrap()[3] == ArgKind::Str);
                        assert(false);
                    }
                    Opcode::NOP
                },
            }
        },
        0x8d => {
            proof {
                assert(arg_kinds_of(orig).len() == 4);
            }
            let d = take_last(&mut args);
            let c = take_last(&mut args);
            let b = take_last(&mut args);
            let a = take_last(&mut args);
            proof {
                assert(orig =~= seq![a, b, c, d]);
                assert(arg_views(orig) =~= seq![a@, b@, c@, d@]);
            }
            match (a, b, c, d) {
                (Arg::Str(a), Arg::Imm(b), Arg::Imm(c), Arg::Str(d)) => Opcode::CMP_V_I_I(a, b, c, d),
                _ => {
                    proof {
                        assert(arg_kinds_of(orig) =~= seq![arg_kind(orig[0]@), arg_kind(orig[1]@), arg_kind(orig[2]@), arg_kind(orig[3]@)]);
                        assert(signature(op).unwrap()[0] == ArgKind::Str);
                        assert(signature(op).unwrap()[1] == ArgKind::Imm);
                        assert(signature(op).unwrap()[2] == ArgKind::Imm);
                        assert(signature(op).unwrap()[3] == ArgKind::Str);
                        assert(false);
                    }
                    Opcode::NOP
                },
            }
        },
        0x8e => {
            proof {
                assert(arg_kinds_of(orig).len() == 4);
            }
            let d = take_last(&mut args);
            let c = take_last(&mut args);
            let b = take_last(&mut args);
            let a = take_last(&mut args);
            proof {
                assert(orig =~= seq![a, b, c, d]);
                assert(arg_views(orig) =~= seq![a@, b@, c@, d@]);
            }
            match (a, b, c, d) {
                (Arg::Imm(a), Arg::Str(b), Arg::Imm(c), Arg::Str(d)) => Opcode::CMP_I_V_I(a, b, c, d),
                _ => {
                    proof {
                        assert(arg_kinds_of(orig) =~= seq![arg_kind(orig[0]@), arg_kind(orig[1]@), arg_kind(orig[2]@), arg_kind(orig[3]@)]);
                        assert(signature(op).unwrap()[0] == ArgKind::Imm);
                        assert(signature(op).unwrap()[1] == ArgKind::Str);
                        assert(signature(op).unwrap()[2] == ArgKind::Imm);
                        assert(signature(op).unwrap()[3] == ArgKind::Str);
                        assert(false);
                    }
                    Opcode::NOP
                },
            }
        },
        0x8f => {
            proof {
                assert(arg_kinds_of(orig).len() == 4);
            }
            let d = take_last(&mut args);
            let c = take_last(&mut args);
            let b = take_last(&mut args);
            let a = take_last(&mut args);
            proof {
                assert(orig =~= seq![a, b, c, d]);
                assert(arg_views(orig) =~= seq![a@, b@, c@, d@]);
            }
            match (a, b, c, d) {
                (Arg::Str(a), Arg::Str(b), Arg::Imm(c), Arg::Str(d)) => Opcode::CMP_V_V_I(a, b, c, d),
                _ => {
                    proof {
                        assert(arg_kinds_of(orig) =~= seq![arg_kind(orig[0]@), arg_kind(orig[1]@), arg_kind(orig[2]@), arg_kind(orig[3]@)]);
                        assert(signature(op).unwrap()[0] == ArgKind::Str);
                        assert(signature(op).unwrap()[1] == ArgKind::Str);
                        assert(signature(op).unwrap()[2] == ArgKind::Imm);
                        assert(signature(op).unwrap()[3] == ArgKind::Str);
                        assert(false);
                    }
                    Opcode::NOP
                },
            }
        },
        _ => {
            proof {
                assert(false);
            }
            Opcode::NOP
        },
    }
}

fn build_opcode_18(op: u8, args: Vec<Arg>) -> (res: Opcode)
    requires
        0x90 <= op <= 0x93,
        signature(op) == Some(arg_kinds_of(args@)),
    ensures
        opcode_view(res) == (op, arg_views(args@)),
{
    let ghost orig = args@;
    let mut args = args;
    match op {
        0x90 => {
            proof {
                assert(arg_kinds_of(orig).len() == 4);
            }
            let d = take_last(&mut args);
            let c = take_last(&mut args);
            let b = take_last(&mut args);
            let a = take_last(&mut args);
            proof {
                assert(orig =~= seq![a, b, c, d]);
                assert(arg_views(orig) =~= seq![a@, b@, c@, d@]);
            }
            match (a, b, c, d) {
                (Arg::Imm(a), Arg::Imm(b), Arg::Str(c), Arg::Str(d)) => Opcode::CMP_I_I_V(a, b, c, d),
                _ => {
                    proof {
                        assert(arg_kinds_of(orig) =~= seq![arg_kind(orig[0]@), arg_kind(orig[1]@), arg_kind(orig[2]@), arg_kind(orig[3]@)]);
                        assert(signature(op).unwrap()[0] == ArgKind::Imm);
                        assert(signature(op).unwrap()[1] == ArgKind::Imm);
                        assert(signature(op).unwrap()[2] == ArgKind::Str);
                        assert(signature(op).unwrap()[3] == ArgKind::Str);
                        assert(false);
                    }
                    Opcode::NOP
                },
            }
        },
        0x91 => {
            proof {
                assert(arg_kinds_of(orig).len() == 4);
            }
            let d = take_last(&mut args);
            let c = take_last(&mut args);
            let b = take_last(&mut args);
            let a = take_last(&mut args);
            proof {
                assert(orig =~= seq![a, b, c, d]);
                assert(arg_views(orig) =~= seq![a@, b@, c@, d@]);
            }
            match (a, b, c, d) {
                (Arg::Str(a), Arg::Imm(b), Arg::Str(c), Arg::Str(d)) => Opcode::CMP_V_I_V(a, b, c, d),
                _ => {
                    proof {
                        assert(arg_kinds_of(orig) =~= seq![arg_kind(orig[0]@), arg_kind(orig[1]@), arg_kind(orig[2]@), arg_kind(orig[3]@)]);
                        assert(signature(op).unwrap()[0] == ArgKind::Str);
                        assert(signature(op).unwrap()[1] == ArgKind::Imm);
                        assert(signature(op).unwrap()[2] == ArgKind::Str);
                        assert(signature(op).unwrap()[3] == ArgKind::Str);
                        assert(false);
                    }
                    Opcode::NOP
                },
            }
        },
        0x92 => {
            proof {
                assert(arg_kinds_of(orig).len() == 4);
            }
            let d = take_last(&mut args);
            let c = take_last(&mut args);
            let b = take_last(&mut args);
            let a = take_last(&mut args);
            proof {
                assert(orig =~= seq![a, b, c, d]);
                assert(arg_views(orig) =~= seq![a@, b@, c@, d@]);
            }
            match (a, b, c, d) {
                (Arg::Imm(a), Arg::Str(b), Arg::Str(c), Arg::Str(d)) => Opcode::CMP_I_V_V(a, b, c, d),
                _ => {
                    proof {
                        assert(arg_kinds_of(orig) =~= seq![arg_kind(orig[0]@), arg_kind(orig[1]@), arg_kind(orig[2]@), arg_kind(orig[3]@)]);
                        assert(signature(op).unwrap()[0] == ArgKind::Imm);
                        assert(signature(op).unwrap()[1] == ArgKind::Str);
                        assert(signature(op).unwrap()[2] == ArgKind::Str);
                        assert(signature(op).unwrap()[3] == ArgKind::Str);
                        assert(false);
                    }
                    Opcode::NOP
                },
            }
        },
        0x93 => {
            proof {
                assert(arg_kinds_of(orig).len() == 4);
            }
            let d = take_last(&mut args);
            let c = take_last(&mut args);
            let b = take_last(&mut args);
            let a = take_last(&mut args);
            proof {
                assert(orig =~= seq![a, b, c, d]);
                assert(arg_views(orig) =~= seq![a@, b@, c@, d@]);
            }
            match (a, b, c, d) {
                (Arg::Str(a), Arg::Str(b), Arg::Str(c), Arg::Str(d)) => Opcode::CMP_V_V_V(a, b, c, d),
                _ => {
                    proof {
                        assert(arg_kinds_of(orig) =~= seq![arg_kind(orig[0]@), arg_kind(orig[1]@), arg_kind(orig[2]@), arg_kind(orig[3]@)]);
                        assert(signature(op).unwrap()[0] == ArgKind::Str);
                        assert(signature(op).unwrap()[1] == ArgKind::Str);
                        assert(signature(op).unwrap()[2] == ArgKind::Str);
                        assert(signature(op).unwrap()[3] == ArgKind::Str);
                        assert(false);
                    }
                    Opcode::NOP
                },
            }
        },
        _ => {
            proof {
                assert(false);
            }
            Opcode::NOP
        },
    }
}

/// The instruction with opcode `op` and the given arguments, whose kinds are
/// those that `signature(op)` lists.
pub fn build_opcode(op: u8, args: Vec<Arg>) -> (res: Opcode)
    requires
        signature(op) == Some(arg_kinds_of(args@)),
    ensures
        opcode_view(res) == (op, arg_views(args@)),
{
    if op <= 0x07 {
        build_opcode_0(op, args)
    } else if op <= 0x0f {
        build_opcode_1(op, args)
    } else if op <= 0x17 {
        build_opcode_2(op, args)
    } else if op <= 0x1f {
        build_opcode_3(op, args)
    } else if op <= 0x27 {
        build_opcode_4(op, args)
    } else if op <= 0x2f {
        build_opcode_5(op, args)
    } else if op <= 0x37 {
        build_opcode_6(op, args)
    } else if op <= 0x3f {
        build_opcode_7(op, args)
    } else if op <= 0x47 {
        build_opcode_8(op, args)
    } else if op <= 0x4f {
        build_opcode_9(op, args)
    } else if op <= 0x57 {
        build_opcode_10(op, args)
    } else if op <= 0x5f {
        build_opcode_11(op, args)
    } else if op <= 0x67 {
        build_opcode_12(op, args)
    } else if op <= 0x6f {
        build_opcode_13(op, args)
    } else if op <= 0x77 {
        build_opcode_14(op, args)
    } else if op <= 0x7f {
        build_opcode_15(op, args)
    } else if op <= 0x87 {
        build_opcode_16(op, args)
    } else if op <= 0x8f {
        build_opcode_17(op, args)
    } else if op <= 0x93 {
        build_opcode_18(op, args)
    } else {
        proof {
            assert(signature(op) is None);
        }
        Opcode::NOP
    }
}

fn arg_kinds_0(op: u8) -> (res: Vec<ArgKind>)
    requires
        0x00 <= op <= 0x07,
    ensures
        signature(op) == Some(res@),
{
    match op {
        0x00 => {
            let v: Vec<ArgKind> = Vec::new();
            proof {
                assert(v@ =~= seq![]);
            }
            v
        },
        0x01 => kinds1(ArgKind::Imm),
        0x02 => kinds1(ArgKind::Str),
        0x03 => kinds1(ArgKind::Str),
        0x04 => kinds2(ArgKind::Imm, ArgKind::Str),
        0x05 => kinds2(ArgKind::Str, ArgKind::Str),
        0x06 => kinds1(ArgKind::Str),
        0x07 => kinds1(ArgKind::Str),
        _ => {
            proof {
                assert(false);
            }
            Vec::new()
        },
    }
}

fn arg_kinds_1(op: u8) -> (res: Vec<ArgKind>)
    requires
        0x08 <= op <= 0x0f,
    ensures
        signature(op) == Some(res@),
{
    match op {
        0x08 => kinds3(ArgKind::Imm, ArgKind::Imm, ArgKind::Str),
        0x09 => kinds3(ArgKind::Str, ArgKind::Imm, ArgKind::Str),
        0x0a => kinds3(ArgKind::Imm, ArgKind::Str, ArgKind::Str),
        0x0b => kinds3(ArgKind::Str, ArgKind::Str, ArgKind::Str),
        0x0c => kinds3(ArgKind::Imm, ArgKind::Imm, ArgKind::Str),
        0x0d => kinds3(ArgKind::Str, ArgKind::Imm, ArgKind::Str),
        0x0e => kinds3(ArgKind::Imm, ArgKind::Str, ArgKind::Str),
        0x0f => kinds3(ArgKind::Str, ArgKind::Str, ArgKind::Str),
        _ => {
            proof {
                assert(false);
            }
            Vec::new()
        },
    }
}

fn arg_kinds_2(op: u8) -> (res: Vec<ArgKind>)
    requires
        0x10 <= op <= 0x17,
    ensures
        signature(op) == Some(res@),
{
    match op {
        0x10 => kinds3(ArgKind::Imm, ArgKind::Imm, ArgKind::Str),
        0x11 => kinds3(ArgKind::Str, ArgKind::Imm, ArgKind::Str),
        0x12 => kinds3(ArgKind::Imm, ArgKind::Str, ArgKind::Str),
        0x13 => kinds3(ArgKind::Str, ArgKind::Str, ArgKind::Str),
        0x14 => kinds3(ArgKind::Imm, ArgKind::Imm, ArgKind::Str),
        0x15 => kinds3(ArgKind::Str, ArgKind::Imm, ArgKind::Str),
        0x16 => kinds3(ArgKind::Imm, ArgKind::Str, ArgKind::Str),
        0x17 => kinds3(ArgKind::Str, ArgKind::Str, ArgKind::Str),
        _ => {
            proof {
                assert(false);
            }
            Vec::new()
        },
    }
}

fn arg_kinds_3(op: u8) -> (res: Vec<ArgKind>)
    requires
        0x18 <= op <= 0x1f,
    ensures
        signature(op) == Some(res@),
{
    match op {
        0x18 => kinds1(ArgKind::Imm),
        0x19 => kinds1(ArgKind::Str),
        0x1a => kinds3(ArgKind::Imm, ArgKind::Imm, ArgKind::Imm),
        0x1b => kinds3(ArgKind::Str, ArgKind::Imm, ArgKind::Imm),
        0x1c => kinds3(ArgKind::Imm, ArgKind::Str, ArgKind::Imm),
        0x1d => kinds3(ArgKind::Str, ArgKind::Str, ArgKind::Imm),
        0x1e => kinds3(ArgKind::Imm, ArgKind::Imm, ArgKind::Str),
        0x1f => kinds3(ArgKind::Str, ArgKind::Imm, ArgKind::Str),
        _ => {
            proof {
                assert(false);
            }
            Vec::new()
        },
    }
}

fn arg_kinds_4(op: u8) -> (res: Vec<ArgKind>)
    requires
        0x20 <= op <= 0x27,
    ensures
        signature(op) == Some(res@),
{
    match op {
        0x20 => kinds3(ArgKind::Imm, ArgKind::Str, ArgKind::Str),
        0x21 => kinds3(ArgKind::Str, ArgKind::Str, ArgKind::Str),
        0x22 => kinds3(ArgKind::Imm, ArgKind::Imm, ArgKind::Imm),
        0x23 => kinds3(ArgKind::Str, ArgKind::Imm, ArgKind::Imm),
        0x24 => kinds3(ArgKind::Imm, ArgKind::Str, ArgKind::Imm),
        0x25 => kinds3(ArgKind::Str, ArgKind::Str, ArgKind::Imm),
        0x26 => kinds3(ArgKind::Imm, ArgKind::Imm, ArgKind::Str),
        0x27 => kinds3(ArgKind::Str, ArgKind::Imm, ArgKind::Str),
        _ => {
            proof {
                assert(false);
            }
            Vec::new()
        },
    }
}

fn arg_kinds_5(op: u8) -> (res: Vec<ArgKind>)
    requires
        0x28 <= op <= 0x2f,
    ensures
        signature(op) == Some(res@),
{
    match op {
        0x28 => kinds3(ArgKind::Imm, ArgKind::Str, ArgKind::Str),
        0x29 => kinds3(ArgKind::Str, ArgKind::Str, ArgKind::Str),
        0x2a => kinds3(ArgKind::Imm, ArgKind::Imm, ArgKind::Imm),
        0x2b => kinds3(ArgKind::Str, ArgKind::Imm, ArgKind::Imm),
        0x2c => kinds3(ArgKind::Imm, ArgKind::Str, ArgKind::Imm),
        0x2d => kinds3(ArgKind::Str, ArgKind::Str, ArgKind::Imm),
        0x2e => kinds3(ArgKind::Imm, ArgKind::Imm, ArgKind::Str),
        0x2f => kinds3(ArgKind::Str, ArgKind::Imm, ArgKind::Str),
        _ => {
            proof {
                assert(false);
            }
            Vec::new()
        },
    }
}

fn arg_kinds_6(op: u8) -> (res: Vec<ArgKind>)
    requires
        0x30 <= op <= 0x37,
    ensures
        signature(op) == Some(res@),
{
    match op {
        0x30 => kinds3(ArgKind::Imm, ArgKind::Str, ArgKind::Str),
        0x31 => kinds3(ArgKind::Str, ArgKind::Str, ArgKind::Str),
        0x32 => kinds3(ArgKind::Imm, ArgKind::Imm, ArgKind::Imm),
        0x33 => kinds3(ArgKind::Str, ArgKind::Imm, ArgKind::Imm),
        0x34 => kinds3(ArgKind::Imm, ArgKind::Str, ArgKind::Imm),
        0x35 => kinds3(ArgKind::Str, ArgKind::Str, ArgKind::Imm),
        0x36 => kinds3(ArgKind::Imm, ArgKind::Imm, ArgKind::Str),
        0x37 => kinds3(ArgKind::Str, ArgKind::Imm, ArgKind::Str),
        _ => {
            proof {
                assert(false);
            }
            Vec::new()
        },
    }
}

fn arg_kinds_7(op: u8) -> (res: Vec<ArgKind>)
    requires
        0x38 <= op <= 0x3f,
    ensures
        signature(op) == Some(res@),
{
    match op {
        0x38 => kinds3(ArgKind::Imm, ArgKind::Str, ArgKind::Str),
        0x39 => kinds3(ArgKind::Str, ArgKind::Str, ArgKind::Str),
        0x3a => kinds3(ArgKind::Imm, ArgKind::Imm, ArgKind::Imm),
        0x3b => kinds3(ArgKind::Str, ArgKind::Imm, ArgKind::Imm),
        0x3c => kinds3(ArgKind::Imm, ArgKind::Str, ArgKind::Imm),
        0x3d => kinds3(ArgKind::Str, ArgKind::Str, ArgKind::Imm),
        0x3e => kinds3(ArgKind::Imm, ArgKind::Imm, ArgKind::Str),
        0x3f => kinds3(ArgKind::Str, ArgKind::Imm, ArgKind::Str),
        _ => {
            proof {
                assert(false);
            }
            Vec::new()
        },
    }
}

fn arg_kinds_8(op: u8) -> (res: Vec<ArgKind>)
    requires
        0x40 <= op <= 0x47,
    ensures
        signature(op) == Some(res@),
{
    match op {
        0x40 => kinds3(ArgKind::Imm, ArgKind::Str, ArgKind::Str),
        0x41 => kinds3(ArgKind::Str, ArgKind::Str, ArgKind::Str),
        0x42 => kinds3(ArgKind::Imm, ArgKind::Imm, ArgKind::Imm),
        0x43 => kinds3(ArgKind::Str, ArgKind::Imm, ArgKind::Imm),
        0x44 => kinds3(ArgKind::Imm, ArgKind::Str, ArgKind::Imm),
        0x45 => kinds3(ArgKind::Str, ArgKind::Str, ArgKind::Imm),
        0x46 => kinds3(ArgKind::Imm, ArgKind::Imm, ArgKind::Str),
        0x47 => kinds3(ArgKind::Str, ArgKind::Imm, ArgKind::Str),
        _ => {
            proof {
                assert(false);
            }
            Vec::new()
        },
    }
}

fn arg_kinds_9(op: u8) -> (res: Vec<ArgKind>)
    requires
        0x48 <= op <= 0x4f,
    ensures
        signature(op) == Some(res@),
{
    match op {
        0x48 => kinds3(ArgKind::Imm, ArgKind::Str, ArgKind::Str),
        0x49 => kinds3(ArgKind::Str, ArgKind::Str, ArgKind::Str),
        0x4a => kinds2(ArgKind::Imm, ArgKind::Str),
        0x4b => kinds2(ArgKind::Str, ArgKind::Str),
        0x4c => kinds2(ArgKind::Str, ArgKind::Str),
        0x4d => kinds2(ArgKind::Imm, ArgKind::Str),
        0x4e => kinds2(ArgKind::Str, ArgKind::Str),
        0x4f => kinds2(ArgKind::Str, ArgKind::Str),
        _ => {
            proof {
                assert(false);
            }
            Vec::new()
        },
    }
}

fn arg_kinds_10(op: u8) -> (res: Vec<ArgKind>)
    requires
        0x50 <= op <= 0x57,
    ensures
        signature(op) == Some(res@),
{
    match op {
        0x50 => kinds3(ArgKind::Imm, ArgKind::Imm, ArgKind::Str),
        0x51 => kinds3(ArgKind::Str, ArgKind::Imm, ArgKind::Str),
        0x52 => kinds3(ArgKind::Imm, ArgKind::Str, ArgKind::Str),
        0x53 => kinds3(ArgKind::Str, ArgKind::Str, ArgKind::Str),
        0x54 => kinds3(ArgKind::Imm, ArgKind::Imm, ArgKind::Str),
        0x55 => kinds3(ArgKind::Str, ArgKind::Imm, ArgKind::Str),
        0x56 => kinds3(ArgKind::Imm, ArgKind::Str, ArgKind::Str),
        0x57 => kinds3(ArgKind::Str, ArgKind::Str, ArgKind::Str),
        _ => {
            proof {
                assert(false);
            }
            Vec::new()
        },
    }
}

fn arg_kinds_11(op: u8) -> (res: Vec<ArgKind>)
    requires
        0x58 <= op <= 0x5f,
    ensures
        signature(op) == Some(res@),
{
    match op {
        0x58 => kinds3(ArgKind::Imm, ArgKind::Imm, ArgKind::Str),
        0x59 => kinds3(ArgKind::Str, ArgKind::Imm, ArgKind::Str),
        0x5a => kinds3(ArgKind::Imm, ArgKind::Str, ArgKind::Str),
        0x5b => kinds3(ArgKind::Str, ArgKind::Str, ArgKind::Str),
        0x5c => kinds2(ArgKind::Imm, ArgKind::Str),
        0x5d => kinds2(ArgKind::Str, ArgKind::Str),
        0x5e => kinds3(ArgKind::Imm, ArgKind::Imm, ArgKind::Str),
        0x5f => kinds3(ArgKind::Str, ArgKind::Imm, ArgKind::Str),
        _ => {
            proof {
                assert(false);
            }
            Vec::new()
        },
    }
}

fn arg_kinds_12(op: u8) -> (res: Vec<ArgKind>)
    requires
        0x60 <= op <= 0x67,
    ensures
        signature(op) == Some(res@),
{
    match op {
        0x60 => kinds3(ArgKind::Imm, ArgKind::Str, ArgKind::Str),
        0x61 => kinds3(ArgKind::Str, ArgKind::Str, ArgKind::Str),
        0x62 => kinds3(ArgKind::Imm, ArgKind::Imm, ArgKind::Str),
        0x63 => kinds3(ArgKind::Str, ArgKind::Imm, ArgKind::Str),
        0x64 => kinds3(ArgKind::Imm, ArgKind::Str, ArgKind::Str),
        0x65 => kinds3(ArgKind::Str, ArgKind::Str, ArgKind::Str),
        0x66 => kinds2(ArgKind::Ty, ArgKind::Str),
        0x67 => kinds2(ArgKind::Str, ArgKind::Str),
        _ => {
            proof {
                assert(false);
            }
            Vec::new()
        },
    }
}

fn arg_kinds_13(op: u8) -> (res: Vec<ArgKind>)
    requires
        0x68 <= op <= 0x6f,
    ensures
        signature(op) == Some(res@),
{
    match op {
        0x68 => kinds2(ArgKind::Ty, ArgKind::Str),
        0x69 => kinds2(ArgKind::Str, ArgKind::Str),
        0x6a => {
            let v: Vec<ArgKind> = Vec::new();
            proof {
                assert(v@ =~= seq![]);
            }
            v
        },
        0x6b => kinds1(ArgKind::Imm),
        0x6c => kinds1(ArgKind::Str),
        0x6d => kinds2(ArgKind::Imm, ArgKind::Str),
        0x6e => kinds2(ArgKind::Str, ArgKind::Str),
        0x6f => kinds2(ArgKind::Imm, ArgKind::Str),
        _ => {
            proof {
                assert(false);
            }
            Vec::new()
        },
    }
}

fn arg_kinds_14(op: u8) -> (res: Vec<ArgKind>)
    requires
        0x70 <= op <= 0x77,
    ensures
        signature(op) == Some(res@),
{
    match op {
        0x70 => kinds2(ArgKind::Str, ArgKind::Str),
        0x71 => kinds2(ArgKind::Str, ArgKind::Str),
        0x72 => kinds2(ArgKind::Str, ArgKind::Str),
        0x73 => kinds3(ArgKind::Imm, ArgKind::Imm, ArgKind::Str),
        0x74 => kinds3(ArgKind::Str, ArgKind::Imm, ArgKind::Str),
        0x75 => kinds3(ArgKind::Imm, ArgKind::Str, ArgKind::Str),
        0x76 => kinds3(ArgKind::Str, ArgKind::Str, ArgKind::Str),
        0x77 => kinds3(ArgKind::Imm, ArgKind::Str, ArgKind::Imm),
        _ => {
            proof {
                assert(false);
            }
            Vec::new()
        },
    }
}

fn arg_kinds_15(op: u8) -> (res: Vec<ArgKind>)
    requires
        0x78 <= op <= 0x7f,
    ensures
        signature(op) == Some(res@),
{
    match op {
        0x78 => kinds3(ArgKind::Str, ArgKind::Str, ArgKind::Imm),
        0x79 => kinds3(ArgKind::Imm, ArgKind::Str, ArgKind::Str),
        0x7a => kinds3(ArgKind::Str, ArgKind::Str, ArgKind::Str),
        0x7b => kinds3(ArgKind::Ty, ArgKind::Imm, ArgKind::Str),
        0x7c => kinds3(ArgKind::Str, ArgKind::Imm, ArgKind::Str),
        0x7d => kinds3(ArgKind::Ty, ArgKind::Str, ArgKind::Str),
        0x7e => kinds3(ArgKind::Str, ArgKind::Str, ArgKind::Str),
        0x7f => kinds1(ArgKind::Str),
        _ => {
            proof {
                assert(false);
            }
            Vec::new()
        },
    }
}

fn arg_kinds_16(op: u8) -> (res: Vec<ArgKind>)
    requires
        0x80 <= op <= 0x87,
    ensures
        signature(op) == Some(res@),
{
    match op {
        0x80 => kinds2(ArgKind::Imm, ArgKind::Imm),
        0x81 => kinds2(ArgKind::Str, ArgKind::Imm),
        0x82 => kinds2(ArgKind::Imm, ArgKind::Str),
        0x83 => kinds2(ArgKind::Str, ArgKind::Str),
        0x84 => kinds3(ArgKind::Imm, ArgKind::Ty, ArgKind::Imm),
        0x85 => kinds3(ArgKind::Str, ArgKind::Ty, ArgKind::Imm),
        0x86 => kinds3(ArgKind::Imm, ArgKind::Str, ArgKind::Imm),
        0x87 => kinds3(ArgKind::Str, ArgKind::Str, ArgKind::Imm),
        _ => {
            proof {
                assert(false);
            }
            Vec::new()
        },
    }
}

fn arg_kinds_17(op: u8) -> (res: Vec<ArgKind>)
    requires
        0x88 <= op <= 0x8f,
    ensures
        signature(op) == Some(res@),
{
    match op {
        0x88 => kinds3(ArgKind::Imm, ArgKind::Ty, ArgKind::Str),
        0x89 => kinds3(ArgKind::Str, ArgKind::Ty, ArgKind::Str),
        0x8a => kinds3(ArgKind::Imm, ArgKind::Str, ArgKind::Str),
        0x8b => kinds3(ArgKind::Str, ArgKind::Str, ArgKind::Str),
        0x8c => kinds4(ArgKind::Imm, ArgKind::Imm, ArgKind::Imm, ArgKind::Str),
        0x8d => kinds4(ArgKind::Str, ArgKind::Imm, ArgKind::Imm, ArgKind::Str),
        0x8e => kinds4(ArgKind::Imm, ArgKind::Str, ArgKind::Imm, ArgKind::Str),
        0x8f => kinds4(ArgKind::Str, ArgKind::Str, ArgKind::Imm, ArgKind::Str),
        _ => {
            proof {
                assert(false);
            }
            Vec::new()
        },
    }
}

fn arg_kinds_18(op: u8) -> (res: Vec<ArgKind>)
    requires
        0x90 <= op <= 0x93,
    ensures
        signature(op) == Some(res@),
{
    match op {
        0x90 => kinds4(ArgKind::Imm, ArgKind::Imm, ArgKind::Str, ArgKind::Str),
        0x91 => kinds4(ArgKind::Str, ArgKind::Imm, ArgKind::Str, ArgKind::Str),
        0x92 => kinds4(ArgKind::Imm, ArgKind::Str, ArgKind::Str, ArgKind::Str),
        0x93 => kinds4(ArgKind::Str, ArgKind::Str, ArgKind::Str, ArgKind::Str),
        _ => {
            proof {
                assert(false);
            }
            Vec::new()
        },
    }
}

/// The argument kinds of an opcode, as `signature` gives them.
pub fn arg_kinds(op: u8) -> (res: Option<Vec<ArgKind>>)
    ensures
        match res {
            Some(v) => signature(op) == Some(v@),
            None => signature(op) is None,
        },
{
    if op <= 0x07 {
        Some(arg_kinds_0(op))
    } else if op <= 0x0f {
        Some(arg_kinds_1(op))
    } else if op <= 0x17 {
        Some(arg_kinds_2(op))
    } else if op <= 0x1f {
        Some(arg_kinds_3(op))
    } else if op <= 0x27 {
        Some(arg_kinds_4(op))
    } else if op <= 0x2f {
        Some(arg_kinds_5(op))
    } else if op <= 0x37 {
        Some(arg_kinds_6(op))
    } else if op <= 0x3f {
        Some(arg_kinds_7(op))
    } else if op <= 0x47 {
        Some(arg_kinds_8(op))
    } else if op <= 0x4f {
        Some(arg_kinds_9(op))
    } else if op <= 0x57 {
        Some(arg_kinds_10(op))
    } else if op <= 0x5f {
        Some(arg_kinds_11(op))
    } else if op <= 0x67 {
        Some(arg_kinds_12(op))
    } else if op <= 0x6f {
        Some(arg_kinds_13(op))
    } else if op <= 0x77 {
        Some(arg_kinds_14(op))
    } else if op <= 0x7f {
        Some(arg_kinds_15(op))
    } else if op <= 0x87 {
        Some(arg_kinds_16(op))
    } else if op <= 0x8f {
        Some(arg_kinds_17(op))
    } else if op <= 0x93 {
        Some(arg_kinds_18(op))
    } else {
        None
    }
}

/// A copy of an opcode with equal arguments.
pub fn clone_opcode(o: &Opcode) -> (res: Opcode)
    ensures
        opcode_view(res) == opcode_view(*o),
{
    match o {
        Opcode::NOP => Opcode::NOP,
        Opcode::PUSH_IMM(a) => Opcode::PUSH_IMM(a.clone()),
        Opcode::PUSH_VAR(a) => Opcode::PUSH_VAR(a.clone()),
        Opcode::POP(a) => Opcode::POP(a.clone()),
        Opcode::PEEK_IMM(a, b) => Opcode::PEEK_IMM(a.clone(), b.clone()),
        Opcode::PEEK_VAR(a, b) => Opcode::PEEK_VAR(a.clone(), b.clone()),
        Opcode::CALL_FUNC(a) => Opcode::CALL_FUNC(a.clone()),
        Opcode::CALL_VAR(a) => Opcode::CALL_VAR(a.clone()),
        Opcode::ADD_I_I(a, b, c) => Opcode::ADD_I_I(a.clone(), b.clone(), c.clone()),
        Opcode::ADD_V_I(a, b, c) => Opcode::ADD_V_I(a.clone(), b.clone(), c.clone()),
        Opcode::ADD_I_V(a, b, c) => Opcode::ADD_I_V(a.clone(), b.clone(), c.clone()),
        Opcode::ADD_V_V(a, b, c) => Opcode::ADD_V_V(a.clone(), b.clone(), c.clone()),
        Opcode::SUB_I_I(a, b, c) => Opcode::SUB_I_I(a.clone(), b.clone(), c.clone()),
        Opcode::SUB_V_I(a, b, c) => Opcode::SUB_V_I(a.clone(), b.clone(), c.clone()),
        Opcode::SUB_I_V(a, b, c) => Opcode::SUB_I_V(a.clone(), b.clone(), c.clone()),
        Opcode::SUB_V_V(a, b, c) => Opcode::SUB_V_V(a.clone(), b.clone(), c.clone()),
        Opcode::MUL_I_I(a, b, c) => Opcode::MUL_I_I(a.clone(), b.clone(), c.clone()),
        Opcode::MUL_V_I(a, b, c) => Opcode::MUL_V_I(a.clone(), b.clone(), c.clone()),
        Opcode::MUL_I_V(a, b, c) => Opcode::MUL_I_V(a.clone(), b.clone(), c.clone()),
        Opcode::MUL_V_V(a, b, c) => Opcode::MUL_V_V(a.clone(), b.clone(), c.clone()),
        Opcode::DIV_I_I(a, b, c) => Opcode::DIV_I_I(a.clone(), b.clone(), c.clone()),
        Opcode::DIV_V_I(a, b, c) => Opcode::DIV_V_I(a.clone(), b.clone(), c.clone()),
        Opcode::DIV_I_V(a, b, c) => Opcode::DIV_I_V(a.clone(), b.clone(), c.clone()),
        Opcode::DIV_V_V(a, b, c) => Opcode::DIV_V_V(a.clone(), b.clone(), c.clone()),
        Opcode::JMP_IMM(a) => Opcode::JMP_IMM(a.clone()),
        Opcode::JMP_VAR(a) => Opcode::JMP_VAR(a.clone()),
        Opcode::JNE_I_I_I(a, b, c) => Opcode::JNE_I_I_I(a.clone(), b.clone(), c.clone()),
        Opcode::JNE_V_I_I(a, b, c) => Opcode::JNE_V_I_I(a.clone(), b.clone(), c.clone()),
        Opcode::JNE_I_V_I(a, b, c) => Opcode::JNE_I_V_I(a.clone(), b.clone(), c.clone()),
        Opcode::JNE_V_V_I(a, b, c) => Opcode::JNE_V_V_I(a.clone(), b.clone(), c.clone()),
        Opcode::JNE_I_I_V(a, b, c) => Opcode::JNE_I_I_V(a.clone(), b.clone(), c.clone()),
        Opcode::JNE_V_I_V(a, b, c) => Opcode::JNE_V_I_V(a.clone(), b.clone(), c.clone()),
        Opcode::JNE_I_V_V(a, b, c) => Opcode::JNE_I_V_V(a.clone(), b.clone(), c.clone()),
        Opcode::JNE_V_V_V(a, b, c) => Opcode::JNE_V_V_V(a.clone(), b.clone(), c.clone()),
        Opcode::JE_I_I_I(a, b, c) => Opcode::JE_I_I_I(a.clone(), b.clone(), c.clone()),
        Opcode::JE_V_I_I(a, b, c) => Opcode::JE_V_I_I(a.clone(), b.clone(), c.clone()),
        Opcode::JE_I_V_I(a, b, c) => Opcode::JE_I_V_I(a.clone(), b.clone(), c.clone()),
        Opcode::JE_V_V_I(a, b, c) => Opcode::JE_V_V_I(a.clone(), b.clone(), c.clone()),
        Opcode::JE_I_I_V(a, b, c) => Opcode::JE_I_I_V(a.clone(), b.clone(), c.clone()),
        Opcode::JE_V_I_V(a, b, c) => Opcode::JE_V_I_V(a.clone(), b.clone(), c.clone()),
        Opcode::JE_I_V_V(a, b, c) => Opcode::JE_I_V_V(a.clone(), b.clone(), c.clone()),
        Opcode::JE_V_V_V(a, b, c) => Opcode::JE_V_V_V(a.clone(), b.clone(), c.clone()),
        Opcode::JGE_I_I_I(a, b, c) => Opcode::JGE_I_I_I(a.clone(), b.clone(), c.clone()),
        Opcode::JGE_V_I_I(a, b, c) => Opcode::JGE_V_I_I(a.clone(), b.clone(), c.clone()),
        Opcode::JGE_I_V_I(a, b, c) => Opcode::JGE_I_V_I(a.clone(), b.clone(), c.clone()),
        Opcode::JGE_V_V_I(a, b, c) => Opcode::JGE_V_V_I(a.clone(), b.clone(), c.clone()),
        Opcode::JGE_I_I_V(a, b, c) => Opcode::JGE_I_I_V(a.clone(), b.clone(), c.clone()),
        Opcode::JGE_V_I_V(a, b, c) => Opcode::JGE_V_I_V(a.clone(), b.clone(), c.clone()),
        Opcode::JGE_I_V_V(a, b, c) => Opcode::JGE_I_V_V(a.clone(), b.clone(), c.clone()),
        Opcode::JGE_V_V_V(a, b, c) => Opcode::JGE_V_V_V(a.clone(), b.clone(), c.clone()),
        Opcode::JG_I_I_I(a, b, c) => Opcode::JG_I_I_I(a.clone(), b.clone(), c.clone()),
        Opcode::JG_V_I_I(a, b, c) => Opcode::JG_V_I_I(a.clone(), b.clone(), c.clone()),
        Opcode::JG_I_V_I(a, b, c) => Opcode::JG_I_V_I(a.clone(), b.clone(), c.clone()),
        Opcode::JG_V_V_I(a, b, c) => Opcode::JG_V_V_I(a.clone(), b.clone(), c.clone()),
        Opcode::JG_I_I_V(a, b, c) => Opcode::JG_I_I_V(a.clone(), b.clone(), c.clone()),
        Opcode::JG_V_I_V(a, b, c) => Opcode::JG_V_I_V(a.clone(), b.clone(), c.clone()),
        Opcode::JG_I_V_V(a, b, c) => Opcode::JG_I_V_V(a.clone(), b.clone(), c.clone()),
        Opcode::JG_V_V_V(a, b, c) => Opcode::JG_V_V_V(a.clone(), b.clone(), c.clone()),
        Opcode::JLE_I_I_I(a, b, c) => Opcode::JLE_I_I_I(a.clone(), b.clone(), c.clone()),
        Opcode::JLE_V_I_I(a, b, c) => Opcode::JLE_V_I_I(a.clone(), b.clone(), c.clone()),
        Opcode::JLE_I_V_I(a, b, c) => Opcode::JLE_I_V_I(a.clone(), b.clone(), c.clone()),
        Opcode::JLE_V_V_I(a, b, c) => Opcode::JLE_V_V_I(a.clone(), b.clone(), c.clone()),
        Opcode::JLE_I_I_V(a, b, c) => Opcode::JLE_I_I_V(a.clone(), b.clone(), c.clone()),
        Opcode::JLE_V_I_V(a, b, c) => Opcode::JLE_V_I_V(a.clone(), b.clone(), c.clone()),
        Opcode::JLE_I_V_V(a, b, c) => Opcode::JLE_I_V_V(a.clone(), b.clone(), c.clone()),
        Opcode::JLE_V_V_V(a, b, c) => Opcode::JLE_V_V_V(a.clone(), b.clone(), c.clone()),
        Opcode::JL_I_I_I(a, b, c) => Opcode::JL_I_I_I(a.clone(), b.clone(), c.clone()),
        Opcode::JL_V_I_I(a, b, c) => Opcode::JL_V_I_I(a.clone(), b.clone(), c.clone()),
        Opcode::JL_I_V_I(a, b, c) => Opcode::JL_I_V_I(a.clone(), b.clone(), c.clone()),
        Opcode::JL_V_V_I(a, b, c) => Opcode::JL_V_V_I(a.clone(), b.clone(), c.clone()),
        Opcode::JL_I_I_V(a, b, c) => Opcode::JL_I_I_V(a.clone(), b.clone(), c.clone()),
        Opcode::JL_V_I_V(a, b, c) => Opcode::JL_V_I_V(a.clone(), b.clone(), c.clone()),
        Opcode::JL_I_V_V(a, b, c) => Opcode::JL_I_V_V(a.clone(), b.clone(), c.clone()),
        Opcode::JL_V_V_V(a, b, c) => Opcode::JL_V_V_V(a.clone(), b.clone(), c.clone()),
        Opcode::MOV_I_V(a, b) => Opcode::MOV_I_V(a.clone(), b.clone()),
        Opcode::MOV_V_V(a, b) => Opcode::MOV_V_V(a.clone(), b.clone()),
        Opcode::MOV_VV_V(a, b) => Opcode::MOV_VV_V(a.clone(), b.clone()),
        Opcode::MOV_I_VV(a, b) => Opcode::MOV_I_VV(a.clone(), b.clone()),
        Opcode::MOV_V_VV(a, b) => Opcode::MOV_V_VV(a.clone(), b.clone()),
        Opcode::MOV_VV_VV(a, b) => Opcode::MOV_VV_VV(a.clone(), b.clone()),
        Opcode::AND_I_I(a, b, c) => Opcode::AND_I_I(a.clone(), b.clone(), c.clone()),
        Opcode::AND_V_I(a, b, c) => Opcode::AND_V_I(a.clone(), b.clone(), c.clone()),
        Opcode::AND_I_V(a, b, c) => Opcode::AND_I_V(a.clone(), b.clone(), c.clone()),
        Opcode::AND_V_V(a, b, c) => Opcode::AND_V_V(a.clone(), b.clone(), c.clone()),
        Opcode::OR_I_I(a, b, c) => Opcode::OR_I_I(a.clone(), b.clone(), c.clone()),
        Opcode::OR_V_I(a, b, c) => Opcode::OR_V_I(a.clone(), b.clone(), c.clone()),
        Opcode::OR_I_V(a, b, c) => Opcode::OR_I_V(a.clone(), b.clone(), c.clone()),
        Opcode::OR_V_V(a, b, c) => Opcode::OR_V_V(a.clone(), b.clone(), c.clone()),
        Opcode::XOR_I_I(a, b, c) => Opcode::XOR_I_I(a.clone(), b.clone(), c.clone()),
        Opcode::XOR_V_I(a, b, c) => Opcode::XOR_V_I(a.clone(), b.clone(), c.clone()),
        Opcode::XOR_I_V(a, b, c) => Opcode::XOR_I_V(a.clone(), b.clone(), c.clone()),
        Opcode::XOR_V_V(a, b, c) => Opcode::XOR_V_V(a.clone(), b.clone(), c.clone()),
        Opcode::NOT_IMM(a, b) => Opcode::NOT_IMM(a.clone(), b.clone()),
        Opcode::NOT_VAR(a, b) => Opcode::NOT_VAR(a.clone(), b.clone()),
        Opcode::LSH_I_I(a, b, c) => Opcode::LSH_I_I(a.clone(), b.clone(), c.clone()),
        Opcode::LSH_V_I(a, b, c) => Opcode::LSH_V_I(a.clone(), b.clone(), c.clone()),
        Opcode::LSH_I_V(a, b, c) => Opcode::LSH_I_V(a.clone(), b.clone(), c.clone()),
        Opcode::LSH_V_V(a, b, c) => Opcode::LSH_V_V(a.clone(), b.clone(), c.clone()),
        Opcode::RSH_I_I(a, b, c) => Opcode::RSH_I_I(a.clone(), b.clone(), c.clone()),
        Opcode::RSH_V_I(a, b, c) => Opcode::RSH_V_I(a.clone(), b.clone(), c.clone()),
        Opcode::RSH_I_V(a, b, c) => Opcode::RSH_I_V(a.clone(), b.clone(), c.clone()),
        Opcode::RSH_V_V(a, b, c) => Opcode::RSH_V_V(a.clone(), b.clone(), c.clone()),
        Opcode::VAR_TYPE_NAME(a, b) => Opcode::VAR_TYPE_NAME(a.clone(), b.clone()),
        Opcode::VAR_VAR_NAME(a, b) => Opcode::VAR_VAR_NAME(a.clone(), b.clone()),
        Opcode::VAR_TYPE_VAR(a, b) => Opcode::VAR_TYPE_VAR(a.clone(), b.clone()),
        Opcode::VAR_VAR_VAR(a, b) => Opcode::VAR_VAR_VAR(a.clone(), b.clone()),
        Opcode::RET => Opcode::RET,
        Opcode::RET_IMM(a) => Opcode::RET_IMM(a.clone()),
        Opcode::RET_VAR(a) => Opcode::RET_VAR(a.clone()),
        Opcode::DEREF_IMM(a, b) => Opcode::DEREF_IMM(a.clone(), b.clone()),
        Opcode::DEREF_VAR(a, b) => Opcode::DEREF_VAR(a.clone(), b.clone()),
        Opcode::REF_IMM(a, b) => Opcode::REF_IMM(a.clone(), b.clone()),
        Opcode::REF_VAR(a, b) => Opcode::REF_VAR(a.clone(), b.clone()),
        Opcode::INST_NAME(a, b) => Opcode::INST_NAME(a.clone(), b.clone()),
        Opcode::INST_VAR(a, b) => Opcode::INST_VAR(a.clone(), b.clone()),
        Opcode::MOD_I_I(a, b, c) => Opcode::MOD_I_I(a.clone(), b.clone(), c.clone()),
        Opcode::MOD_V_I(a, b, c) => Opcode::MOD_V_I(a.clone(), b.clone(), c.clone()),
        Opcode::MOD_I_V(a, b, c) => Opcode::MOD_I_V(a.clone(), b.clone(), c.clone()),
        Opcode::MOD_V_V(a, b, c) => Opcode::MOD_V_V(a.clone(), b.clone(), c.clone()),
        Opcode::PMOV_IMM_IMM(a, b, c) => Opcode::PMOV_IMM_IMM(a.clone(), b.clone(), c.clone()),
        Opcode::PMOV_VAR_IMM(a, b, c) => Opcode::PMOV_VAR_IMM(a.clone(), b.clone(), c.clone()),
        Opcode::PMOV_IMM_VAR(a, b, c) => Opcode::PMOV_IMM_VAR(a.clone(), b.clone(), c.clone()),
        Opcode::PMOV_VAR_VAR(a, b, c) => Opcode::PMOV_VAR_VAR(a.clone(), b.clone(), c.clone()),
        Opcode::ALLOC_TYPE_IMM(a, b, c) => Opcode::ALLOC_TYPE_IMM(a.clone(), b.clone(), c.clone()),
        Opcode::ALLOC_VAR_IMM(a, b, c) => Opcode::ALLOC_VAR_IMM(a.clone(), b.clone(), c.clone()),
        Opcode::ALLOC_TYPE_VAR(a, b, c) => Opcode::ALLOC_TYPE_VAR(a.clone(), b.clone(), c.clone()),
        Opcode::ALLOC_VAR_VAR(a, b, c) => Opcode::ALLOC_VAR_VAR(a.clone(), b.clone(), c.clone()),
        Opcode::FREE_VAR(a) => Opcode::FREE_VAR(a.clone()),
        Opcode::FREE_IMM_IMM(a, b) => Opcode::FREE_IMM_IMM(a.clone(), b.clone()),
        Opcode::FREE_VAR_IMM(a, b) => Opcode::FREE_VAR_IMM(a.clone(), b.clone()),
        Opcode::FREE_IMM_VAR(a, b) => Opcode::FREE_IMM_VAR(a.clone(), b.clone()),
        Opcode::FREE_VAR_VAR(a, b) => Opcode::FREE_VAR_VAR(a.clone(), b.clone()),
        Opcode::CALLC_I_T_I(a, b, c) => Opcode::CALLC_I_T_I(a.clone(), b.clone(), c.clone()),
        Opcode::CALLC_V_T_I(a, b, c) => Opcode::CALLC_V_T_I(a.clone(), b.clone(), c.clone()),
        Opcode::CALLC_I_V_I(a, b, c) => Opcode::CALLC_I_V_I(a.clone(), b.clone(), c.clone()),
        Opcode::CALLC_V_V_I(a, b, c) => Opcode::CALLC_V_V_I(a.clone(), b.clone(), c.clone()),
        Opcode::CALLC_I_T_V(a, b, c) => Opcode::CALLC_I_T_V(a.clone(), b.clone(), c.clone()),
        Opcode::CALLC_V_T_V(a, b, c) => Opcode::CALLC_V_T_V(a.clone(), b.clone(), c.clone()),
        Opcode::CALLC_I_V_V(a, b, c) => Opcode::CALLC_I_V_V(a.clone(), b.clone(), c.clone()),
        Opcode::CALLC_V_V_V(a, b, c) => Opcode::CALLC_V_V_V(a.clone(), b.clone(), c.clone()),
        Opcode::CMP_I_I_I(a, b, c, d) => Opcode::CMP_I_I_I(a.clone(), b.clone(), c.clone(), d.clone()),
        Opcode::CMP_V_I_I(a, b, c, d) => Opcode::CMP_V_I_I(a.clone(), b.clone(), c.clone(), d.clone()),
        Opcode::CMP_I_V_I(a, b, c, d) => Opcode::CMP_I_V_I(a.clone(), b.clone(), c.clone(), d.clone()),
        Opcode::CMP_V_V_I(a, b, c, d) => Opcode::CMP_V_V_I(a.clone(), b.clone(), c.clone(), d.clone()),
        Opcode::CMP_I_I_V(a, b, c, d) => Opcode::CMP_I_I_V(a.clone(), b.clone(), c.clone(), d.clone()),
        Opcode::CMP_V_I_V(a, b, c, d) => Opcode::CMP_V_I_V(a.clone(), b.clone(), c.clone(), d.clone()),
        Opcode::CMP_I_V_V(a, b, c, d) => Opcode::CMP_I_V_V(a.clone(), b.clone(), c.clone(), d.clone()),
        Opcode::CMP_V_V_V(a, b, c, d) => Opcode::CMP_V_V_V(a.clone(), b.clone(), c.clone(), d.clone()),
    }
}

/// The content of an instruction: where its opcode stands, its opcode byte and
/// its arguments.
pub open spec fn instr_view(i: Instruction) -> (int, (u8, Seq<ArgV>)) {
    (i.index as int, opcode_view(i.opcode))
}

/// A copy of an instruction.
pub fn clone_instruction(i: &Instruction) -> (res: Instruction)
    ensures
        instr_view(res) == instr_view(*i),
{
    Instruction { index: i.index, opcode: clone_opcode(&i.opcode) }
}

/// The opcode byte of an instruction and copies of its arguments.
pub fn decode(op: &Opcode) -> (r: (u8, Vec<Arg>))
    ensures
        r.0 == opcode_view(*op).0,
        arg_views(r.1@) == opcode_view(*op).1,
{
    let r = match op {
        Opcode::NOP => (0x00, vec![]),
        Opcode::PUSH_IMM(a) => (0x01, vec![Arg::Imm(a.clone())]),
        Opcode::PUSH_VAR(a) => (0x02, vec![Arg::Str(a.clone())]),
        Opcode::POP(a) => (0x03, vec![Arg::Str(a.clone())]),
        Opcode::PEEK_IMM(a, b) => (0x04, vec![Arg::Imm(a.clone()), Arg::Str(b.clone())]),
        Opcode::PEEK_VAR(a, b) => (0x05, vec![Arg::Str(a.clone()), Arg::Str(b.clone())]),
        Opcode::CALL_FUNC(a) => (0x06, vec![Arg::Str(a.clone())]),
        Opcode::CALL_VAR(a) => (0x07, vec![Arg::Str(a.clone())]),
        Opcode::ADD_I_I(a, b, c) => (0x08, vec![Arg::Imm(a.clone()), Arg::Imm(b.clone()), Arg::Str(c.clone())]),
        Opcode::ADD_V_I(a, b, c) => (0x09, vec![Arg::Str(a.clone()), Arg::Imm(b.clone()), Arg::Str(c.clone())]),
        Opcode::ADD_I_V(a, b, c) => (0x0a, vec![Arg::Imm(a.clone()), Arg::Str(b.clone()), Arg::Str(c.clone())]),
        Opcode::ADD_V_V(a, b, c) => (0x0b, vec![Arg::Str(a.clone()), Arg::Str(b.clone()), Arg::Str(c.clone())]),
        Opcode::SUB_I_I(a, b, c) => (0x0c, vec![Arg::Imm(a.clone()), Arg::Imm(b.clone()), Arg::Str(c.clone())]),
        Opcode::SUB_V_I(a, b, c) => (0x0d, vec![Arg::Str(a.clone()), Arg::Imm(b.clone()), Arg::Str(c.clone())]),
        Opcode::SUB_I_V(a, b, c) => (0x0e, vec![Arg::Imm(a.clone()), Arg::Str(b.clone()), Arg::Str(c.clone())]),
        Opcode::SUB_V_V(a, b, c) => (0x0f, vec![Arg::Str(a.clone()), Arg::Str(b.clone()), Arg::Str(c.clone())]),
        Opcode::MUL_I_I(a, b, c) => (0x10, vec![Arg::Imm(a.clone()), Arg::Imm(b.clone()), Arg::Str(c.clone())]),
        Opcode::MUL_V_I(a, b, c) => (0x11, vec![Arg::Str(a.clone()), Arg::Imm(b.clone()), Arg::Str(c.clone())]),
        Opcode::MUL_I_V(a, b, c) => (0x12, vec![Arg::Imm(a.clone()), Arg::Str(b.clone()), Arg::Str(c.clone())]),
        Opcode::MUL_V_V(a, b, c) => (0x13, vec![Arg::Str(a.clone()), Arg::Str(b.clone()), Arg::Str(c.clone())]),
        Opcode::DIV_I_I(a, b, c) => (0x14, vec![Arg::Imm(a.clone()), Arg::Imm(b.clone()), Arg::Str(c.clone())]),
        Opcode::DIV_V_I(a, b, c) => (0x15, vec![Arg::Str(a.clone()), Arg::Imm(b.clone()), Arg::Str(c.clone())]),
        Opcode::DIV_I_V(a, b, c) => (0x16, vec![Arg::Imm(a.clone()), Arg::Str(b.clone()), Arg::Str(c.clone())]),
        Opcode::DIV_V_V(a, b, c) => (0x17, vec![Arg::Str(a.clone()), Arg::Str(b.clone()), Arg::Str(c.clone())]),
        Opcode::JMP_IMM(a) => (0x18, vec![Arg::Imm(a.clone())]),
        Opcode::JMP_VAR(a) => (0x19, vec![Arg::Str(a.clone())]),
        Opcode::JNE_I_I_I(a, b, c) => (0x1a, vec![Arg::Imm(a.clone()), Arg::Imm(b.clone()), Arg::Imm(c.clone())]),
        Opcode::JNE_V_I_I(a, b, c) => (0x1b, vec![Arg::Str(a.clone()), Arg::Imm(b.clone()), Arg::Imm(c.clone())]),
        Opcode::JNE_I_V_I(a, b, c) => (0x1c, vec![Arg::Imm(a.clone()), Arg::Str(b.clone()), Arg::Imm(c.clone())]),
        Opcode::JNE_V_V_I(a, b, c) => (0x1d, vec![Arg::Str(a.clone()), Arg::Str(b.clone()), Arg::Imm(c.clone())]),
        Opcode::JNE_I_I_V(a, b, c) => (0x1e, vec![Arg::Imm(a.clone()), Arg::Imm(b.clone()), Arg::Str(c.clone())]),
        Opcode::JNE_V_I_V(a, b, c) => (0x1f, vec![Arg::Str(a.clone()), Arg::Imm(b.clone()), Arg::Str(c.clone())]),
        Opcode::JNE_I_V_V(a, b, c) => (0x20, vec![Arg::Imm(a.clone()), Arg::Str(b.clone()), Arg::Str(c.clone())]),
        Opcode::JNE_V_V_V(a, b, c) => (0x21, vec![Arg::Str(a.clone()), Arg::Str(b.clone()), Arg::Str(c.clone())]),
        Opcode::JE_I_I_I(a, b, c) => (0x22, vec![Arg::Imm(a.clone()), Arg::Imm(b.clone()), Arg::Imm(c.clone())]),
        Opcode::JE_V_I_I(a, b, c) => (0x23, vec![Arg::Str(a.clone()), Arg::Imm(b.clone()), Arg::Imm(c.clone())]),
        Opcode::JE_I_V_I(a, b, c) => (0x24, vec![Arg::Imm(a.clone()), Arg::Str(b.clone()), Arg::Imm(c.clone())]),
        Opcode::JE_V_V_I(a, b, c) => (0x25, vec![Arg::Str(a.clone()), Arg::Str(b.clone()), Arg::Imm(c.clone())]),
        Opcode::JE_I_I_V(a, b, c) => (0x26, vec![Arg::Imm(a.clone()), Arg::Imm(b.clone()), Arg::Str(c.clone())]),
        Opcode::JE_V_I_V(a, b, c) => (0x27, vec![Arg::Str(a.clone()), Arg::Imm(b.clone()), Arg::Str(c.clone())]),
        Opcode::JE_I_V_V(a, b, c) => (0x28, vec![Arg::Imm(a.clone()), Arg::Str(b.clone()), Arg::Str(c.clone())]),
        Opcode::JE_V_V_V(a, b, c) => (0x29, vec![Arg::Str(a.clone()), Arg::Str(b.clone()), Arg::Str(c.clone())]),
        Opcode::JGE_I_I_I(a, b, c) => (0x2a, vec![Arg::Imm(a.clone()), Arg::Imm(b.clone()), Arg::Imm(c.clone())]),
        Opcode::JGE_V_I_I(a, b, c) => (0x2b, vec![Arg::Str(a.clone()), Arg::Imm(b.clone()), Arg::Imm(c.clone())]),
        Opcode::JGE_I_V_I(a, b, c) => (0x2c, vec![Arg::Imm(a.clone()), Arg::Str(b.clone()), Arg::Imm(c.clone())]),
        Opcode::JGE_V_V_I(a, b, c) => (0x2d, vec![Arg::Str(a.clone()), Arg::Str(b.clone()), Arg::Imm(c.clone())]),
        Opcode::JGE_I_I_V(a, b, c) => (0x2e, vec![Arg::Imm(a.clone()), Arg::Imm(b.clone()), Arg::Str(c.clone())]),
        Opcode::JGE_V_I_V(a, b, c) => (0x2f, vec![Arg::Str(a.clone()), Arg::Imm(b.clone()), Arg::Str(c.clone())]),
        Opcode::JGE_I_V_V(a, b, c) => (0x30, vec![Arg::Imm(a.clone()), Arg::Str(b.clone()), Arg::Str(c.clone())]),
        Opcode::JGE_V_V_V(a, b, c) => (0x31, vec![Arg::Str(a.clone()), Arg::Str(b.clone()), Arg::Str(c.clone())]),
        Opcode::JG_I_I_I(a, b, c) => (0x32, vec![Arg::Imm(a.clone()), Arg::Imm(b.clone()), Arg::Imm(c.clone())]),
        Opcode::JG_V_I_I(a, b, c) => (0x33, vec![Arg::Str(a.clone()), Arg::Imm(b.clone()), Arg::Imm(c.clone())]),
        Opcode::JG_I_V_I(a, b, c) => (0x34, vec![Arg::Imm(a.clone()), Arg::Str(b.clone()), Arg::Imm(c.clone())]),
        Opcode::JG_V_V_I(a, b, c) => (0x35, vec![Arg::Str(a.clone()), Arg::Str(b.clone()), Arg::Imm(c.clone())]),
        Opcode::JG_I_I_V(a, b, c) => (0x36, vec![Arg::Imm(a.clone()), Arg::Imm(b.clone()), Arg::Str(c.clone())]),
        Opcode::JG_V_I_V(a, b, c) => (0x37, vec![Arg::Str(a.clone()), Arg::Imm(b.clone()), Arg::Str(c.clone())]),
        Opcode::JG_I_V_V(a, b, c) => (0x38, vec![Arg::Imm(a.clone()), Arg::Str(b.clone()), Arg::Str(c.clone())]),
        Opcode::JG_V_V_V(a, b, c) => (0x39, vec![Arg::Str(a.clone()), Arg::Str(b.clone()), Arg::Str(c.clone())]),
        Opcode::JLE_I_I_I(a, b, c) => (0x3a, vec![Arg::Imm(a.clone()), Arg::Imm(b.clone()), Arg::Imm(c.clone())]),
        Opcode::JLE_V_I_I(a, b, c) => (0x3b, vec![Arg::Str(a.clone()), Arg::Imm(b.clone()), Arg::Imm(c.clone())]),
        Opcode::JLE_I_V_I(a, b, c) => (0x3c, vec![Arg::Imm(a.clone()), Arg::Str(b.clone()), Arg::Imm(c.clone())]),
        Opcode::JLE_V_V_I(a, b, c) => (0x3d, vec![Arg::Str(a.clone()), Arg::Str(b.clone()), Arg::Imm(c.clone())]),
        Opcode::JLE_I_I_V(a, b, c) => (0x3e, vec![Arg::Imm(a.clone()), Arg::Imm(b.clone()), Arg::Str(c.clone())]),
        Opcode::JLE_V_I_V(a, b, c) => (0x3f, vec![Arg::Str(a.clone()), Arg::Imm(b.clone()), Arg::Str(c.clone())]),
        Opcode::JLE_I_V_V(a, b, c) => (0x40, vec![Arg::Imm(a.clone()), Arg::Str(b.clone()), Arg::Str(c.clone())]),
        Opcode::JLE_V_V_V(a, b, c) => (0x41, vec![Arg::Str(a.clone()), Arg::Str(b.clone()), Arg::Str(c.clone())]),
        Opcode::JL_I_I_I(a, b, c) => (0x42, vec![Arg::Imm(a.clone()), Arg::Imm(b.clone()), Arg::Imm(c.clone())]),
        Opcode::JL_V_I_I(a, b, c) => (0x43, vec![Arg::Str(a.clone()), Arg::Imm(b.clone()), Arg::Imm(c.clone())]),
        Opcode::JL_I_V_I(a, b, c) => (0x44, vec![Arg::Imm(a.clone()), Arg::Str(b.clone()), Arg::Imm(c.clone())]),
        Opcode::JL_V_V_I(a, b, c) => (0x45, vec![Arg::Str(a.clone()), Arg::Str(b.clone()), Arg::Imm(c.clone())]),
        Opcode::JL_I_I_V(a, b, c) => (0x46, vec![Arg::Imm(a.clone()), Arg::Imm(b.clone()), Arg::Str(c.clone())]),
        Opcode::JL_V_I_V(a, b, c) => (0x47, vec![Arg::Str(a.clone()), Arg::Imm(b.clone()), Arg::Str(c.clone())]),
        Opcode::JL_I_V_V(a, b, c) => (0x48, vec![Arg::Imm(a.clone()), Arg::Str(b.clone()), Arg::Str(c.clone())]),
        Opcode::JL_V_V_V(a, b, c) => (0x49, vec![Arg::Str(a.clone()), Arg::Str(b.clone()), Arg::Str(c.clone())]),
        Opcode::MOV_I_V(a, b) => (0x4a, vec![Arg::Imm(a.clone()), Arg::Str(b.clone())]),
        Opcode::MOV_V_V(a, b) => (0x4b, vec![Arg::Str(a.clone()), Arg::Str(b.clone())]),
        Opcode::MOV_VV_V(a, b) => (0x4c, vec![Arg::Str(a.clone()), Arg::Str(b.clone())]),
        Opcode::MOV_I_VV(a, b) => (0x4d, vec![Arg::Imm(a.clone()), Arg::Str(b.clone())]),
        Opcode::MOV_V_VV(a, b) => (0x4e, vec![Arg::Str(a.clone()), Arg::Str(b.clone())]),
        Opcode::MOV_VV_VV(a, b) => (0x4f, vec![Arg::Str(a.clone()), Arg::Str(b.clone())]),
        Opcode::AND_I_I(a, b, c) => (0x50, vec![Arg::Imm(a.clone()), Arg::Imm(b.clone()), Arg::Str(c.clone())]),
        Opcode::AND_V_I(a, b, c) => (0x51, vec![Arg::Str(a.clone()), Arg::Imm(b.clone()), Arg::Str(c.clone())]),
        Opcode::AND_I_V(a, b, c) => (0x52, vec![Arg::Imm(a.clone()), Arg::Str(b.clone()), Arg::Str(c.clone())]),
        Opcode::AND_V_V(a, b, c) => (0x53, vec![Arg::Str(a.clone()), Arg::Str(b.clone()), Arg::Str(c.clone())]),
        Opcode::OR_I_I(a, b, c) => (0x54, vec![Arg::Imm(a.clone()), Arg::Imm(b.clone()), Arg::Str(c.clone())]),
        Opcode::OR_V_I(a, b, c) => (0x55, vec![Arg::Str(a.clone()), Arg::Imm(b.clone()), Arg::Str(c.clone())]),
        Opcode::OR_I_V(a, b, c) => (0x56, vec![Arg::Imm(a.clone()), Arg::Str(b.clone()), Arg::Str(c.clone())]),
        Opcode::OR_V_V(a, b, c) => (0x57, vec![Arg::Str(a.clone()), Arg::Str(b.clone()), Arg::Str(c.clone())]),
        Opcode::XOR_I_I(a, b, c) => (0x58, vec![Arg::Imm(a.clone()), Arg::Imm(b.clone()), Arg::Str(c.clone())]),
        Opcode::XOR_V_I(a, b, c) => (0x59, vec![Arg::Str(a.clone()), Arg::Imm(b.clone()), Arg::Str(c.clone())]),
        Opcode::XOR_I_V(a, b, c) => (0x5a, vec![Arg::Imm(a.clone()), Arg::Str(b.clone()), Arg::Str(c.clone())]),
        Opcode::XOR_V_V(a, b, c) => (0x5b, vec![Arg::Str(a.clone()), Arg::Str(b.clone()), Arg::Str(c.clone())]),
        Opcode::NOT_IMM(a, b) => (0x5c, vec![Arg::Imm(a.clone()), Arg::Str(b.clone())]),
        Opcode::NOT_VAR(a, b) => (0x5d, vec![Arg::Str(a.clone()), Arg::Str(b.clone())]),
        Opcode::LSH_I_I(a, b, c) => (0x5e, vec![Arg::Imm(a.clone()), Arg::Imm(b.clone()), Arg::Str(c.clone())]),
        Opcode::LSH_V_I(a, b, c) => (0x5f, vec![Arg::Str(a.clone()), Arg::Imm(b.clone()), Arg::Str(c.clone())]),
        Opcode::LSH_I_V(a, b, c) => (0x60, vec![Arg::Imm(a.clone()), Arg::Str(b.clone()), Arg::Str(c.clone())]),
        Opcode::LSH_V_V(a, b, c) => (0x61, vec![Arg::Str(a.clone()), Arg::Str(b.clone()), Arg::Str(c.clone())]),
        Opcode::RSH_I_I(a, b, c) => (0x62, vec![Arg::Imm(a.clone()), Arg::Imm(b.clone()), Arg::Str(c.clone())]),
        Opcode::RSH_V_I(a, b, c) => (0x63, vec![Arg::Str(a.clone()), Arg::Imm(b.clone()), Arg::Str(c.clone())]),
        Opcode::RSH_I_V(a, b, c) => (0x64, vec![Arg::Imm(a.clone()), Arg::Str(b.clone()), Arg::Str(c.clone())]),
        Opcode::RSH_V_V(a, b, c) => (0x65, vec![Arg::Str(a.clone()), Arg::Str(b.clone()), Arg::Str(c.clone())]),
        Opcode::VAR_TYPE_NAME(a, b) => (0x66, vec![Arg::Ty(a.clone()), Arg::Str(b.clone())]),
        Opcode::VAR_VAR_NAME(a, b) => (0x67, vec![Arg::Str(a.clone()), Arg::Str(b.clone())]),
        Opcode::VAR_TYPE_VAR(a, b) => (0x68, vec![Arg::Ty(a.clone()), Arg::Str(b.clone())]),
        Opcode::VAR_VAR_VAR(a, b) => (0x69, vec![Arg::Str(a.clone()), Arg::Str(b.clone())]),
        Opcode::RET => (0x6a, vec![]),
        Opcode::RET_IMM(a) => (0x6b, vec![Arg::Imm(a.clone())]),
        Opcode::RET_VAR(a) => (0x6c, vec![Arg::Str(a.clone())]),
        Opcode::DEREF_IMM(a, b) => (0x6d, vec![Arg::Imm(a.clone()), Arg::Str(b.clone())]),
        Opcode::DEREF_VAR(a, b) => (0x6e, vec![Arg::Str(a.clone()), Arg::Str(b.clone())]),
        Opcode::REF_IMM(a, b) => (0x6f, vec![Arg::Imm(a.clone()), Arg::Str(b.clone())]),
        Opcode::REF_VAR(a, b) => (0x70, vec![Arg::Str(a.clone()), Arg::Str(b.clone())]),
        Opcode::INST_NAME(a, b) => (0x71, vec![Arg::Str(a.clone()), Arg::Str(b.clone())]),
        Opcode::INST_VAR(a, b) => (0x72, vec![Arg::Str(a.clone()), Arg::Str(b.clone())]),
        Opcode::MOD_I_I(a, b, c) => (0x73, vec![Arg::Imm(a.clone()), Arg::Imm(b.clone()), Arg::Str(c.clone())]),
        Opcode::MOD_V_I(a, b, c) => (0x74, vec![Arg::Str(a.clone()), Arg::Imm(b.clone()), Arg::Str(c.clone())]),
        Opcode::MOD_I_V(a, b, c) => (0x75, vec![Arg::Imm(a.clone()), Arg::Str(b.clone()), Arg::Str(c.clone())]),
        Opcode::MOD_V_V(a, b, c) => (0x76, vec![Arg::Str(a.clone()), Arg::Str(b.clone()), Arg::Str(c.clone())]),
        Opcode::PMOV_IMM_IMM(a, b, c) => (0x77, vec![Arg::Imm(a.clone()), Arg::Str(b.clone()), Arg::Imm(c.clone())]),
        Opcode::PMOV_VAR_IMM(a, b, c) => (0x78, vec![Arg::Str(a.clone()), Arg::Str(b.clone()), Arg::Imm(c.clone())]),
        Opcode::PMOV_IMM_VAR(a, b, c) => (0x79, vec![Arg::Imm(a.clone()), Arg::Str(b.clone()), Arg::Str(c.clone())]),
        Opcode::PMOV_VAR_VAR(a, b, c) => (0x7a, vec![Arg::Str(a.clone()), Arg::Str(b.clone()), Arg::Str(c.clone())]),
        Opcode::ALLOC_TYPE_IMM(a, b, c) => (0x7b, vec![Arg::Ty(a.clone()), Arg::Imm(b.clone()), Arg::Str(c.clone())]),
        Opcode::ALLOC_VAR_IMM(a, b, c) => (0x7c, vec![Arg::Str(a.clone()), Arg::Imm(b.clone()), Arg::Str(c.clone())]),
        Opcode::ALLOC_TYPE_VAR(a, b, c) => (0x7d, vec![Arg::Ty(a.clone()), Arg::Str(b.clone()), Arg::Str(c.clone())]),
        Opcode::ALLOC_VAR_VAR(a, b, c) => (0x7e, vec![Arg::Str(a.clone()), Arg::Str(b.clone()), Arg::Str(c.clone())]),
        Opcode::FREE_VAR(a) => (0x7f, vec![Arg::Str(a.clone())]),
        Opcode::FREE_IMM_IMM(a, b) => (0x80, vec![Arg::Imm(a.clone()), Arg::Imm(b.clone())]),
        Opcode::FREE_VAR_IMM(a, b) => (0x81, vec![Arg::Str(a.clone()), Arg::Imm(b.clone())]),
        Opcode::FREE_IMM_VAR(a, b) => (0x82, vec![Arg::Imm(a.clone()), Arg::Str(b.clone())]),
        Opcode::FREE_VAR_VAR(a, b) => (0x83, vec![Arg::Str(a.clone()), Arg::Str(b.clone())]),
        Opcode::CALLC_I_T_I(a, b, c) => (0x84, vec![Arg::Imm(a.clone()), Arg::Ty(b.clone()), Arg::Imm(c.clone())]),
        Opcode::CALLC_V_T_I(a, b, c) => (0x85, vec![Arg::Str(a.clone()), Arg::Ty(b.clone()), Arg::Imm(c.clone())]),
        Opcode::CALLC_I_V_I(a, b, c) => (0x86, vec![Arg::Imm(a.clone()), Arg::Str(b.clone()), Arg::Imm(c.clone())]),
        Opcode::CALLC_V_V_I(a, b, c) => (0x87, vec![Arg::Str(a.clone()), Arg::Str(b.clone()), Arg::Imm(c.clone())]),
        Opcode::CALLC_I_T_V(a, b, c) => (0x88, vec![Arg::Imm(a.clone()), Arg::Ty(b.clone()), Arg::Str(c.clone())]),
        Opcode::CALLC_V_T_V(a, b, c) => (0x89, vec![Arg::Str(a.clone()), Arg::Ty(b.clone()), Arg::Str(c.clone())]),
        Opcode::CALLC_I_V_V(a, b, c) => (0x8a, vec![Arg::Imm(a.clone()), Arg::Str(b.clone()), Arg::Str(c.clone())]),
        Opcode::CALLC_V_V_V(a, b, c) => (0x8b, vec![Arg::Str(a.clone()), Arg::Str(b.clone()), Arg::Str(c.clone())]),
        Opcode::CMP_I_I_I(a, b, c, d) => (0x8c, vec![Arg::Imm(a.clone()), Arg::Imm(b.clone()), Arg::Imm(c.clone()), Arg::Str(d.clone())]),
        Opcode::CMP_V_I_I(a, b, c, d) => (0x8d, vec![Arg::Str(a.clone()), Arg::Imm(b.clone()), Arg::Imm(c.clone()), Arg::Str(d.clone())]),
        Opcode::CMP_I_V_I(a, b, c, d) => (0x8e, vec![Arg::Imm(a.clone()), Arg::Str(b.clone()), Arg::Imm(c.clone()), Arg::Str(d.clone())]),
        Opcode::CMP_V_V_I(a, b, c, d) => (0x8f, vec![Arg::Str(a.clone()), Arg::Str(b.clone()), Arg::Imm(c.clone()), Arg::Str(d.clone())]),
        Opcode::CMP_I_I_V(a, b, c, d) => (0x90, vec![Arg::Imm(a.clone()), Arg::Imm(b.clone()), Arg::Str(c.clone()), Arg::Str(d.clone())]),
        Opcode::CMP_V_I_V(a, b, c, d) => (0x91, vec![Arg::Str(a.clone()), Arg::Imm(b.clone()), Arg::Str(c.clone()), Arg::Str(d.clone())]),
        Opcode::CMP_I_V_V(a, b, c, d) => (0x92, vec![Arg::Imm(a.clone()), Arg::Str(b.clone()), Arg::Str(c.clone()), Arg::Str(d.clone())]),
        Opcode::CMP_V_V_V(a, b, c, d) => (0x93, vec![Arg::Str(a.clone()), Arg::Str(b.clone()), Arg::Str(c.clone()), Arg::Str(d.clone())]),
    };
    proof {
        assert(arg_views(r.1@) =~= opcode_view(*op).1);
    }
    r
}

} // verus!
