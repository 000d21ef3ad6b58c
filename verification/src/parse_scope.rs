use vstd::prelude::*;
use vstd::utf8::*;
use crate::_type::{Type, Types, type_code};
use crate::error::{ParseError, ParseErrorV, result_view, err_view};
use crate::_struct::{Struct, StructV, struct_view, insert_pair};
use crate::scope::{Extern, ExternV, extern_view, types_view, names_view, Scope, ScopeV, Block, BlockV, Function,
    FunctionV, Module, ModuleV, InstrV, empty_scope_v, add_block_ok, add_block_v, needs_code_block, push_instr_v,
    merge_ok, merge_v, scope_view, function_view, module_view, starts_wf,
    can_add_block, merge_fits, push_instruction, finish_scope, lemma_functions_kview, lemma_modules_kview,
    lemma_externs_kview, lemma_structs_kview, lemma_blocks_view_push, lemma_blocks_view_len, lemma_blocks_view_concat,
    lemma_starts_wf_eq, blocks_view, code_view, merge_scopes, children_parented};
use crate::names::{lookup, get_name, insert_name, lemma_kfind, lemma_kview_insert, lemma_kview_extend, lemma_find_key};
use crate::frame::{Frame, FrameV, frame_view, empty_frame, declare_var, push_slot};
use crate::names::{kview, kinsert, klookup, kfind};
use crate::float::{f16_bits_to_f64, f32_bits_to_f64, f16_widen, f32_widen};
use crate::value::{Value, Values, ValuesV};
use crate::instruction::{Arg, ArgKind, ArgV, Instruction, Opcode, arg_kinds, arg_views,
    arg_kinds_of, build_opcode, opcode_view, signature};

verus! {

/// `256^n`.
pub open spec fn pow256(n: nat) -> nat
    decreases n,
{
    if n == 0 {
        1
    } else {
        256 * pow256((n - 1) as nat)
    }
}

/// The unsigned big-endian number that a byte sequence spells.
pub open spec fn be_value(s: Seq<u8>) -> nat
    decreases s.len(),
{
    if s.len() == 0 {
        0
    } else {
        be_value(s.drop_last()) * 256 + s.last() as nat
    }
}

/// The two's-complement reading of a `w`-byte unsigned value.
pub open spec fn signed_of(v: nat, w: nat) -> int {
    if v >= pow256(w) / 2 {
        v - pow256(w)
    } else {
        v as int
    }
}

/// The number of value bytes that an integer type byte announces.
pub open spec fn int_width(typ: u8) -> nat {
    if typ == 1 || typ == 5 {
        1
    } else if typ == 2 || typ == 6 {
        2
    } else if typ == 3 || typ == 7 {
        4
    } else if typ == 4 || typ == 8 {
        8
    } else {
        0
    }
}

/// The base type that a type byte `0x00..=0x0F` names.
pub open spec fn code_type(c: u8) -> Types {
    choose|t: Types| type_code(t) == c
}

pub proof fn lemma_code_type(t: Types)
    ensures
        code_type(type_code(t)) == t,
{
    let c = type_code(t);
    assert(type_code(t) == c);
    let u = code_type(c);
    crate::_type::lemma_type_code_roundtrip(u, t);
}

pub proof fn lemma_be_value_bound(s: Seq<u8>)
    ensures
        be_value(s) < pow256(s.len()),
    decreases s.len(),
{
    if s.len() > 0 {
        lemma_be_value_bound(s.drop_last());
    }
}

/// Reads `w` bytes at `start` as a big-endian unsigned number.
pub(crate) fn read_be(bytes: &[u8], start: usize, w: usize) -> (v: u64)
    requires
        w <= 8,
        start + w <= bytes@.len(),
    ensures
        v as nat == be_value(bytes@.subrange(start as int, start + w)),
{
    let mut v: u64 = 0;
    let mut k: usize = 0;
    proof {
        assert(bytes@.subrange(start as int, start as int) =~= Seq::<u8>::empty());
    }
    while k < w
        invariant
            k <= w <= 8,
            start + w <= bytes.len(),
            v as nat == be_value(bytes@.subrange(start as int, start + k)),
        decreases w - k,
    {
        proof {
            lemma_be_value_bound(bytes@.subrange(start as int, start + k));
            reveal_with_fuel(pow256, 8);
            assert(pow256(k as nat) <= pow256(7));
            assert(bytes@.subrange(start as int, start + k + 1).drop_last()
                =~= bytes@.subrange(start as int, start + k));
        }
        assert(start + k < bytes@.len());
        v = v * 256 + bytes[start + k] as u64;
        k = k + 1;
    }
    v
}

/// The UTF-8 decoding of a byte sequence, as `String::from_utf8` gives it.
#[verifier::external_body]
pub(crate) fn string_from_utf8(v: Vec<u8>) -> (res: Option<String>)
    ensures
        res is Some <==> valid_utf8(v@),
        res matches Some(s) ==> s@ == decode_utf8(v@),
{
    String::from_utf8(v).ok()
}

/// The string a bytecode string at `i` spells, when it is in bounds and UTF-8.
pub open spec fn bytecode_string_bytes(bytes: Seq<u8>, i: int) -> Seq<u8> {
    bytes.subrange(i + 1, i + 1 + bytes[i] as int)
}

/// What decoding a bytecode string at `i` gives: the characters or the error,
/// and where decoding leaves the read position.
pub open spec fn spec_bytecode_string(bytes: Seq<u8>, i: int) -> (Result<Seq<char>, ParseError>, int) {
    if i >= bytes.len() {
        (Err(ParseError::UnexpectedEnd { at: i as usize }), i)
    } else if i + 1 + bytes[i] > bytes.len() {
        (Err(ParseError::StringOutOfBounds { at: i as usize, len: bytes[i] as usize }), i + 1)
    } else if !valid_utf8(bytecode_string_bytes(bytes, i)) {
        (Err(ParseError::InvalidUtf8 { at: i as usize }), i + 1)
    } else {
        (Ok(decode_utf8(bytecode_string_bytes(bytes, i))), i + 1 + bytes[i])
    }
}

/// A decoded string stands for the characters that the specification gives.
pub open spec fn string_result_is(res: Result<String, ParseError>, spec: Result<Seq<char>, ParseError>) -> bool {
    match res {
        Ok(s) => spec matches Ok(c) && s@ == c,
        Err(e) => spec == Err::<Seq<char>, ParseError>(e),
    }
}

/// Decodes a bytecode string (a length byte, then that many UTF-8 bytes) at
/// `index`, leaving `index` after it.
pub fn parse_bytecode_string(bytes: &[u8], index: &mut usize) -> (res: Result<String, ParseError>)
    ensures
        string_result_is(res, spec_bytecode_string(bytes@, *old(index) as int).0),
        *final(index) == spec_bytecode_string(bytes@, *old(index) as int).1,
        *old(index) <= *final(index),
        *final(index) <= bytes@.len() || *final(index) == *old(index),
        res is Ok ==> *old(index) < *final(index),
{
    if *index >= bytes.len() {
        return Err(ParseError::UnexpectedEnd { at: *index });
    }
    let start = *index;
    let len = bytes[start] as usize;
    *index = start + 1;
    if len > bytes.len() - *index {
        return Err(ParseError::StringOutOfBounds { at: start, len });
    }
    let mut v: Vec<u8> = Vec::new();
    let mut k: usize = 0;
    while k < len
        invariant
            k <= len,
            start + 1 + len <= bytes.len(),
            v@ == bytes@.subrange(start + 1, start + 1 + k),
        decreases len - k,
    {
        assert(start + 1 + k < bytes@.len());
        v.push(bytes[start + 1 + k]);
        proof {
            assert(v@ =~= bytes@.subrange(start + 1, start + 1 + k + 1));
        }
        k = k + 1;
    }
    match string_from_utf8(v) {
        Some(s) => {
            *index = start + 1 + len;
            Ok(s)
        },
        None => Err(ParseError::InvalidUtf8 { at: start }),
    }
}

/// The number that a dynamic number with type byte `typ` and value bytes `s`
/// stands for once read as a `u64`: signed widths are sign-extended. As a
/// `usize` it is taken modulo `usize::MAX + 1`.
pub open spec fn dyn_number_value(typ: u8, s: Seq<u8>) -> int {
    let w = int_width(typ);
    let v = be_value(s);
    if typ <= 4 && signed_of(v, w) < 0 {
        signed_of(v, w) + 0x1_0000_0000_0000_0000
    } else {
        v as int
    }
}

/// Reduces a `u64` to a `usize` as `as usize` does: modulo `usize::MAX + 1`.
pub fn u64_to_usize_wrapping(v: u64) -> (r: usize)
    ensures
        r as int == v as int % (usize::MAX as int + 1),
{
    let r = #[verifier::truncate] (v as usize);
    if usize::BITS == 64 {
        assert(r as u64 == v) by (bit_vector)
            requires
                r == #[verifier::truncate] (v as usize),
                usize::BITS == 64,
        ;
        assert(usize::MAX as int + 1 == 0x1_0000_0000_0000_0000);
        proof { vstd::arithmetic::div_mod::lemma_small_mod(v as nat, 0x1_0000_0000_0000_0000); }
    } else {
        assert(usize::MAX == 0xFFFF_FFFF);
        assert(r as u64 == v & 0xFFFF_FFFF) by (bit_vector)
            requires
                r == #[verifier::truncate] (v as usize),
                usize::BITS == 32,
        ;
        assert(v & 0xFFFF_FFFF == v % 0x1_0000_0000) by (bit_vector);
    }
    r
}

/// What decoding a dynamic number (a type byte `1..=8` for i8..i64 and
/// u8..u64, then the big-endian value) at `i` gives as a `usize`, and where
/// decoding leaves the read position.
pub open spec fn spec_dyn_number(bytes: Seq<u8>, i: int) -> (Result<usize, ParseError>, int) {
    if i < 0 || i >= bytes.len() {
        (Err(ParseError::UnexpectedEnd { at: i as usize }), i)
    } else if bytes[i] < 1 || bytes[i] > 8 {
        (Err(ParseError::UnsupportedByteLength(bytes[i])), i + 1)
    } else if i + 1 + int_width(bytes[i]) > bytes.len() {
        (Err(ParseError::UnexpectedEnd { at: (i + 1) as usize }), i + 1)
    } else {
        (Ok((dyn_number_value(bytes[i], bytes.subrange(i + 1, i + 1 + int_width(bytes[i])))
            % (usize::MAX as int + 1)) as usize), i + 1 + int_width(bytes[i]))
    }
}

/// Decodes a dynamic number at `index` as a `usize`, leaving `index` after it.
pub fn parse_dyn_number(bytes: &[u8], index: &mut usize) -> (res: Result<usize, ParseError>)
    ensures
        spec_dyn_number(bytes@, *old(index) as int).0 == res,
        spec_dyn_number(bytes@, *old(index) as int).1 == *final(index),
        *old(index) <= *final(index),
        *final(index) <= bytes@.len() || *final(index) == *old(index),
{
    if *index >= bytes.len() {
        return Err(ParseError::UnexpectedEnd { at: *index });
    }
    let typ = bytes[*index];
    *index = *index + 1;
    if typ < 1 || typ > 8 {
        return Err(ParseError::UnsupportedByteLength(typ));
    }
    let w: usize = if typ == 1 || typ == 5 {
        1
    } else if typ == 2 || typ == 6 {
        2
    } else if typ == 3 || typ == 7 {
        4
    } else {
        8
    };
    if w > bytes.len() - *index {
        return Err(ParseError::UnexpectedEnd { at: *index });
    }
    let start = *index;
    let v = read_be(bytes, start, w);
    *index = start + w;
    proof {
        reveal_with_fuel(pow256, 9);
        lemma_be_value_bound(bytes@.subrange(start as int, start + w));
    }
    let n: u64 = if typ == 1 && v >= 0x80 {
        v + 0xFFFF_FFFF_FFFF_FF00
    } else if typ == 2 && v >= 0x8000 {
        v + 0xFFFF_FFFF_FFFF_0000
    } else if typ == 3 && v >= 0x8000_0000 {
        v + 0xFFFF_FFFF_0000_0000
    } else {
        v
    };
    Ok(u64_to_usize_wrapping(n))
}

/// The number of pointer markers (`0x0C`) in a row from `i`.
pub open spec fn pointer_run(b: Seq<u8>, i: int) -> nat
    decreases b.len() - i,
{
    if 0 <= i < b.len() && b[i] == 0x0C {
        1 + pointer_run(b, i + 1)
    } else {
        0
    }
}

/// The type chain of `run` pointer markers ending in the base type `code`.
pub open spec fn type_seq(run: nat, code: u8) -> Seq<Types> {
    Seq::new(run, |k: int| Types::POINTER).push(code_type(code))
}

/// What decoding a type at `i` gives: the chain or the error, and where
/// decoding leaves the read position.
pub open spec fn spec_type(bytes: Seq<u8>, i: int) -> (Result<Seq<Types>, ParseError>, int) {
    let j = i + pointer_run(bytes, i);
    if j >= bytes.len() {
        (Err(ParseError::UnexpectedEnd { at: j as usize }), j)
    } else if bytes[j] > 0x0F {
        (Err(ParseError::UnknownType(bytes[j])), j)
    } else {
        (Ok(type_seq(pointer_run(bytes, i), bytes[j])), j + 1)
    }
}

/// Decodes a type (pointer markers, then a base type byte) at `index`, leaving
/// `index` after it.
pub fn parse_type(bytes: &[u8], index: &mut usize) -> (res: Result<Type, ParseError>)
    ensures
        match res {
            Ok(t) => spec_type(bytes@, *old(index) as int).0 == Ok::<Seq<Types>, ParseError>(t@),
            Err(e) => spec_type(bytes@, *old(index) as int).0 == Err::<Seq<Types>, ParseError>(e),
        },
        *final(index) == spec_type(bytes@, *old(index) as int).1,
        *old(index) <= *final(index),
        *final(index) <= bytes@.len() || *final(index) == *old(index),
        res is Ok ==> *old(index) < *final(index),
        res matches Ok(t) ==> t@.len() >= 1 && t@.last() != Types::POINTER,
{
    if *index >= bytes.len() {
        return Err(ParseError::UnexpectedEnd { at: *index });
    }
    let ghost i = *index as int;
    let mut typ: Vec<Types> = Vec::new();
    while *index < bytes.len() && bytes[*index] == 0x0C
        invariant
            i <= *index <= bytes@.len(),
            *index - i + pointer_run(bytes@, *index as int) == pointer_run(bytes@, i),
            typ@ == Seq::new((*index - i) as nat, |k: int| Types::POINTER),
        decreases bytes@.len() - *index,
    {
        typ.push(Types::POINTER);
        *index = *index + 1;
        proof {
            assert(typ@ =~= Seq::new((*index - i) as nat, |k: int| Types::POINTER));
        }
    }
    if *index >= bytes.len() {
        return Err(ParseError::UnexpectedEnd { at: *index });
    }
    let code = bytes[*index];
    if code > 0x0F {
        return Err(ParseError::UnknownType(code));
    }
    let t = Types::from_u8(code);
    proof {
        lemma_code_type(t);
    }
    typ.push(t);
    *index = *index + 1;
    let res = Type { typ };
    proof {
        assert(res@ =~= type_seq(pointer_run(bytes@, i), code));
    }
    Ok(res)
}

/// The number of value bytes that follow an immediate's type byte.
pub open spec fn imm_width(typ: u8) -> nat {
    if 1 <= typ <= 8 {
        int_width(typ)
    } else if typ == 0x09 {
        2
    } else if typ == 0x0A {
        4
    } else if typ == 0x0B {
        8
    } else if typ == 0x0C {
        (usize::BITS / 8) as nat
    } else {
        0
    }
}

/// The value of an immediate of type `typ` (`0x01..=0x0C`) with value bytes `s`.
/// Half and single precision decimals are widened to f64.
pub open spec fn imm_value(typ: u8, s: Seq<u8>) -> ValuesV {
    if 1 <= typ <= 4 {
        ValuesV::SIGNED(signed_of(be_value(s), int_width(typ)) as i64)
    } else if 5 <= typ <= 8 {
        ValuesV::UNSIGNED(be_value(s) as u64)
    } else if typ == 0x09 {
        ValuesV::DECIMAL(f16_widen(be_value(s) as u16))
    } else if typ == 0x0A {
        ValuesV::DECIMAL(f32_widen(be_value(s) as u32))
    } else if typ == 0x0B {
        ValuesV::DECIMAL(be_value(s) as u64)
    } else {
        ValuesV::POINTER(be_value(s) as usize, 0)
    }
}

/// What decoding an immediate at `i` gives (its type and value, or the
/// error) and where decoding leaves the read position.
///
/// An immediate is a type byte followed by the value: big-endian numbers,
/// or a bytecode string for a name. Void, type and struct immediates are
/// refused. A pointer immediate holds an index as wide as a `usize`.
pub open spec fn spec_immediate(bytes: Seq<u8>, i: int) -> (Result<(Seq<Types>, ValuesV), ParseError>, int) {
    if i >= bytes.len() {
        (Err(ParseError::UnexpectedEnd { at: i as usize }), i)
    } else {
        let typ = bytes[i];
        if typ == 0x00 {
            (Err(ParseError::UnsupportedImmediate(Types::VOID)), i + 1)
        } else if typ == 0x0D {
            (Err(ParseError::UnsupportedImmediate(Types::TYPE)), i + 1)
        } else if typ == 0x0E {
            (Err(ParseError::UnsupportedImmediate(Types::STRUCT)), i + 1)
        } else if typ > 0x0F {
            (Err(ParseError::UnknownType(typ)), i + 1)
        } else if typ == 0x0F {
            let (sr, se) = spec_bytecode_string(bytes, i + 1);
            match sr {
                Ok(c) => (Ok((seq![Types::NAME], ValuesV::NAME(c))), se),
                Err(e) => (Err(e), se),
            }
        } else if i + 1 + imm_width(typ) > bytes.len() {
            (Err(ParseError::UnexpectedEnd { at: (i + 1) as usize }), i + 1)
        } else {
            (Ok((seq![code_type(typ)], imm_value(typ, bytes.subrange(i + 1, i + 1 + imm_width(typ))))),
                i + 1 + imm_width(typ))
        }
    }
}

/// A decoded value stands for the type and value that the specification gives.
pub open spec fn value_result_is(res: Result<Value, ParseError>, spec: Result<(Seq<Types>, ValuesV), ParseError>) -> bool {
    match res {
        Ok(v) => spec == Ok::<(Seq<Types>, ValuesV), ParseError>(v@),
        Err(e) => spec == Err::<(Seq<Types>, ValuesV), ParseError>(e),
    }
}

/// Converts a `w`-byte big-endian value to the `i64` it stands for in two's complement.
fn sign_extend(v: u64, w: usize) -> (r: i64)
    requires
        w == 1 || w == 2 || w == 4 || w == 8,
        v < pow256(w as nat),
    ensures
        r as int == signed_of(v as nat, w as nat),
{
    proof {
        reveal_with_fuel(pow256, 9);
    }
    if w == 1 {
        if v >= 0x80 { v as i64 - 0x100 } else { v as i64 }
    } else if w == 2 {
        if v >= 0x8000 { v as i64 - 0x1_0000 } else { v as i64 }
    } else if w == 4 {
        if v >= 0x8000_0000 { v as i64 - 0x1_0000_0000 } else { v as i64 }
    } else {
        if v >= 0x8000_0000_0000_0000 { -((u64::MAX - v) as i64) - 1 } else { v as i64 }
    }
}

/// The type made of one base type.
pub fn single_type(t: Types) -> (res: Type)
    ensures
        res@ == seq![t],
{
    let mut v: Vec<Types> = Vec::new();
    v.push(t);
    proof {
        assert(v@ =~= seq![t]);
    }
    Type { typ: v }
}

/// Decodes an immediate value at `index`, leaving `index` after it.
pub fn parse_immediate(bytes: &[u8], index: &mut usize) -> (res: Result<Value, ParseError>)
    ensures
        value_result_is(res, spec_immediate(bytes@, *old(index) as int).0),
        *final(index) == spec_immediate(bytes@, *old(index) as int).1,
        *old(index) <= *final(index),
        *final(index) <= bytes@.len() || *final(index) == *old(index),
        res is Ok ==> *old(index) < *final(index),
{
    if *index >= bytes.len() {
        return Err(ParseError::UnexpectedEnd { at: *index });
    }
    let start = *index;
    let typ = bytes[start];
    *index = start + 1;
    if typ == 0x00 {
        return Err(ParseError::UnsupportedImmediate(Types::VOID));
    } else if typ == 0x0D {
        return Err(ParseError::UnsupportedImmediate(Types::TYPE));
    } else if typ == 0x0E {
        return Err(ParseError::UnsupportedImmediate(Types::STRUCT));
    } else if typ > 0x0F {
        return Err(ParseError::UnknownType(typ));
    }
    let t = Types::from_u8(typ);
    proof {
        lemma_code_type(t);
    }
    if typ == 0x0F {
        let name = parse_bytecode_string(bytes, index)?;
        return Ok(Value { typ: single_type(t), val: Values::NAME(name) });
    }
    let w: usize = if 1 <= typ && typ <= 8 {
        if typ == 1 || typ == 5 {
            1
        } else if typ == 2 || typ == 6 {
            2
        } else if typ == 3 || typ == 7 {
            4
        } else {
            8
        }
    } else if typ == 0x09 {
        2
    } else if typ == 0x0A {
        4
    } else if typ == 0x0B {
        8
    } else {
        (usize::BITS / 8) as usize
    };
    if w > bytes.len() - *index {
        return Err(ParseError::UnexpectedEnd { at: *index });
    }
    let v = read_be(bytes, start + 1, w);
    proof {
        reveal_with_fuel(pow256, 9);
        lemma_be_value_bound(bytes@.subrange(start + 1, start + 1 + w));
    }
    let val = if typ <= 4 {
        Values::SIGNED(sign_extend(v, w))
    } else if typ <= 8 {
        Values::UNSIGNED(v)
    } else if typ == 0x09 {
        Values::DECIMAL(f16_bits_to_f64(v as u16))
    } else if typ == 0x0A {
        Values::DECIMAL(f32_bits_to_f64(v as u32))
    } else if typ == 0x0B {
        Values::DECIMAL(v)
    } else {
        Values::POINTER(v as usize, 0)
    };
    *index = start + 1 + w;
    proof {
        let sv = bytes@.subrange(start + 1, start + 1 + w);
        assert(v as nat == be_value(sv));
        if typ == 0x09 { assert(be_value(sv) < 0x1_0000); }
        if typ == 0x0A { assert(be_value(sv) < 0x1_0000_0000); }
        assert(imm_width(typ) == w);
        assert(imm_value(typ, sv) == val@);
    }
    Ok(Value { typ: single_type(t), val })
}

/// What decoding one argument of the given kind at `i` gives, and where
/// decoding leaves the read position.
pub open spec fn spec_arg(bytes: Seq<u8>, i: int, kind: ArgKind) -> (Result<ArgV, ParseError>, int) {
    match kind {
        ArgKind::Imm => {
            let (r, e) = spec_immediate(bytes, i);
            (match r {
                Ok(v) => Ok(ArgV::Imm(v)),
                Err(x) => Err(x),
            }, e)
        },
        ArgKind::Str => {
            let (r, e) = spec_bytecode_string(bytes, i);
            (match r {
                Ok(c) => Ok(ArgV::Str(c)),
                Err(x) => Err(x),
            }, e)
        },
        ArgKind::Ty => {
            let (r, e) = spec_type(bytes, i);
            (match r {
                Ok(t) => Ok(ArgV::Ty(t)),
                Err(x) => Err(x),
            }, e)
        },
    }
}

/// Puts `pre` in front of the arguments of a decoding outcome.
pub open spec fn prepend_args(pre: Seq<ArgV>, out: (Result<Seq<ArgV>, ParseError>, int)) -> (Result<Seq<ArgV>, ParseError>, int) {
    (match out.0 {
        Ok(a) => Ok(pre + a),
        Err(x) => Err(x),
    }, out.1)
}

/// What decoding arguments of the given kinds one after another from `i`
/// gives: all of them, or the first error and where it left the position.
pub open spec fn spec_args(bytes: Seq<u8>, i: int, kinds: Seq<ArgKind>) -> (Result<Seq<ArgV>, ParseError>, int)
    decreases kinds.len(),
{
    if kinds.len() == 0 {
        (Ok(seq![]), i)
    } else {
        let (r, e) = spec_arg(bytes, i, kinds[0]);
        match r {
            Ok(a) => prepend_args(seq![a], spec_args(bytes, e, kinds.drop_first())),
            Err(x) => (Err(x), e),
        }
    }
}

/// Decodes one argument of the given kind at `index`.
pub fn parse_arg(bytes: &[u8], index: &mut usize, kind: ArgKind) -> (res: Result<Arg, ParseError>)
    ensures
        match res {
            Ok(a) => spec_arg(bytes@, *old(index) as int, kind).0 == Ok::<ArgV, ParseError>(a@),
            Err(x) => spec_arg(bytes@, *old(index) as int, kind).0 == Err::<ArgV, ParseError>(x),
        },
        *final(index) == spec_arg(bytes@, *old(index) as int, kind).1,
        *old(index) <= *final(index),
        *final(index) <= bytes@.len() || *final(index) == *old(index),
        res is Ok ==> *old(index) < *final(index),
{
    match kind {
        ArgKind::Imm => {
            let v = parse_immediate(bytes, index)?;
            Ok(Arg::Imm(v))
        },
        ArgKind::Str => {
            let s = parse_bytecode_string(bytes, index)?;
            Ok(Arg::Str(s))
        },
        ArgKind::Ty => {
            let t = parse_type(bytes, index)?;
            Ok(Arg::Ty(t))
        },
    }
}

/// Decodes arguments of the given kinds one after another from `index`.
pub fn parse_args(bytes: &[u8], index: &mut usize, kinds: &Vec<ArgKind>) -> (res: Result<Vec<Arg>, ParseError>)
    ensures
        match res {
            Ok(a) => spec_args(bytes@, *old(index) as int, kinds@).0 == Ok::<Seq<ArgV>, ParseError>(arg_views(a@))
                && arg_kinds_of(a@) == kinds@,
            Err(x) => spec_args(bytes@, *old(index) as int, kinds@).0 == Err::<Seq<ArgV>, ParseError>(x),
        },
        *final(index) == spec_args(bytes@, *old(index) as int, kinds@).1,
        *old(index) <= *final(index),
        *final(index) <= bytes@.len() || *final(index) == *old(index),
{
    let ghost i0 = *index as int;
    let mut out: Vec<Arg> = Vec::new();
    let mut k: usize = 0;
    proof {
        assert(kinds@.skip(0) =~= kinds@);
        assert(arg_views(out@) + seq![] =~= seq![]);
    }
    while k < kinds.len()
        invariant
            k <= kinds@.len(),
            i0 == *old(index) as int,
            i0 <= *index,
            *index <= bytes@.len() || *index == i0,
            out@.len() == k,
            arg_kinds_of(out@) == kinds@.take(k as int),
            spec_args(bytes@, i0, kinds@) == prepend_args(arg_views(out@),
                spec_args(bytes@, *index as int, kinds@.skip(k as int))),
        decreases kinds@.len() - k,
    {
        let ghost p = *index as int;
        let ghost rest = kinds@.skip(k as int);
        proof {
            assert(rest[0] == kinds@[k as int]);
            assert(rest.drop_first() =~= kinds@.skip(k + 1));
        }
        match parse_arg(bytes, index, kinds[k]) {
            Ok(a) => {
                let ghost before = arg_views(out@);
                out.push(a);
                proof {
                    let tail = spec_args(bytes@, *index as int, kinds@.skip(k + 1));
                    assert(arg_views(out@) =~= before + seq![a@]);
                    match tail.0 {
                        Ok(t) => {
                            assert(before + (seq![a@] + t) =~= (before + seq![a@]) + t);
                        },
                        Err(_) => {},
                    }
                    assert(arg_kinds_of(out@) =~= kinds@.take(k + 1));
                }
                k = k + 1;
            },
            Err(x) => {
                proof {
                    assert(spec_args(bytes@, p, rest) == (Err::<Seq<ArgV>, ParseError>(x), *index as int));
                    assert(prepend_args(arg_views(out@), spec_args(bytes@, p, rest))
                        == (Err::<Seq<ArgV>, ParseError>(x), *index as int));
                    assert(spec_args(bytes@, i0, kinds@) == (Err::<Seq<ArgV>, ParseError>(x), *index as int));
                }
                return Err(x);
            },
        }
    }
    proof {
        assert(kinds@.skip(k as int) =~= seq![]);
        assert(arg_views(out@) + seq![] =~= arg_views(out@));
        assert(kinds@.take(k as int) =~= kinds@);
    }
    Ok(out)
}

/// What decoding an instruction at `i` gives (the position of its opcode, the
/// opcode byte and the arguments, or the error), and where decoding leaves the
/// read position.
#[verifier::opaque]
pub open spec fn spec_instruction(bytes: Seq<u8>, i: int) -> (Result<(int, (u8, Seq<ArgV>)), ParseError>, int) {
    if i >= bytes.len() {
        (Err(ParseError::UnexpectedEnd { at: i as usize }), i)
    } else {
        match signature(bytes[i]) {
            None => (Err(ParseError::UnknownInstruction { opcode: bytes[i], at: i as usize }), i + 1),
            Some(kinds) => {
                let (r, e) = spec_args(bytes, i + 1, kinds);
                (match r {
                    Ok(a) => Ok((i, (bytes[i], a))),
                    Err(x) => Err(x),
                }, e)
            },
        }
    }
}

/// Decodes an instruction (an opcode byte, then its arguments as the opcode's
/// signature lists them) at `index`, leaving `index` after it.
pub fn parse_instruction(bytes: &Vec<u8>, index: &mut usize) -> (res: Result<Instruction, ParseError>)
    ensures
        match res {
            Ok(ins) => spec_instruction(bytes@, *old(index) as int).0
                == Ok::<(int, (u8, Seq<ArgV>)), ParseError>((ins.index as int, opcode_view(ins.opcode))),
            Err(x) => spec_instruction(bytes@, *old(index) as int).0
                == Err::<(int, (u8, Seq<ArgV>)), ParseError>(x),
        },
        *final(index) == spec_instruction(bytes@, *old(index) as int).1,
        *old(index) < bytes@.len() ==> *old(index) < *final(index),
        *old(index) <= *final(index),
        *final(index) <= bytes@.len() || *final(index) == *old(index),
        res is Ok ==> *old(index) < *final(index),
{
    proof {
        reveal_with_fuel(spec_instruction, 1);
    }
    if *index >= bytes.len() {
        return Err(ParseError::UnexpectedEnd { at: *index });
    }
    let start = *index;
    let op = bytes[start];
    *index = start + 1;
    match arg_kinds(op) {
        None => Err(ParseError::UnknownInstruction { opcode: op, at: start }),
        Some(kinds) => {
            let args = parse_args(bytes.as_slice(), index, &kinds)?;
            Ok(Instruction { index: start, opcode: build_opcode(op, args) })
        },
    }
}


/// Where a read position ends after the decoder steps over one byte that it
/// does not look at: one further, or, once past the end, where it is.
pub open spec fn step(i: int, len: int) -> int {
    if i <= len {
        i + 1
    } else {
        i
    }
}

/// Steps over one byte without looking at it.
fn skip_byte(bytes: &Vec<u8>, index: &mut usize)
    requires
        bytes@.len() < usize::MAX,
        *old(index) <= bytes@.len() + 1,
    ensures
        *final(index) == step(*old(index) as int, bytes@.len() as int),
        *final(index) <= bytes@.len() + 1,
{
    if *index <= bytes.len() {
        *index = *index + 1;
    }
}

/// A struct definition with one more field: its size grows by one slot and
/// the field's offset is the old size.
pub open spec fn add_field_v(acc: StructV, t: Seq<Types>, n: Seq<char>) -> StructV {
    StructV {
        size: (acc.size + 1) as usize,
        var_names: acc.var_names.push(n),
        var_types: acc.var_types.push(t),
        var_offsets: insert_pair(acc.var_offsets, n, acc.size),
        ..acc
    }
}

/// What decoding the fields of a struct from `i` gives: fields (a type and a
/// name each) up to the closing `0xFD`, which is consumed.
#[verifier::opaque]
pub open spec fn spec_struct_fields(bytes: Seq<u8>, i: int, acc: StructV) -> (Result<StructV, ParseErrorV>, int)
    decreases bytes.len() - i,
{
    if i < 0 || i >= bytes.len() {
        (Err(ParseErrorV::UnexpectedEnd { at: i as usize }), i)
    } else if bytes[i] == 0xFD {
        (Ok(acc), i + 1)
    } else {
        let (tr, te) = spec_type(bytes, i);
        match tr {
            Err(e) => (Err(e@), te),
            Ok(t) => {
                let (nr, ne) = spec_bytecode_string(bytes, te);
                match nr {
                    Err(e) => (Err(e@), ne),
                    Ok(n) => if i < ne {
                        spec_struct_fields(bytes, ne, add_field_v(acc, t, n))
                    } else {
                        (Err(ParseErrorV::TooLarge), ne)
                    },
                }
            },
        }
    }
}

/// What decoding a struct definition at `i` (after its `0xFB`) gives: its
/// name, a byte that is stepped over (the `0xFE`), then its fields.
#[verifier::opaque]
pub open spec fn spec_parse_struct(bytes: Seq<u8>, i: int) -> (Result<StructV, ParseErrorV>, int) {
    let (nr, ne) = spec_bytecode_string(bytes, i);
    match nr {
        Err(e) => (Err(e@), ne),
        Ok(n) => spec_struct_fields(
            bytes,
            step(ne, bytes.len() as int),
            StructV { name: n, size: 0, var_names: Seq::empty(), var_types: Seq::empty(), var_offsets: Seq::empty() },
        ),
    }
}

/// Decodes a struct definition at `index` (after its `0xFB`), leaving `index`
/// after the closing `0xFD`.
pub fn parse_struct(bytes: &Vec<u8>, index: &mut usize) -> (res: Result<Struct, ParseError>)
    requires
        *old(index) <= bytes@.len() + 1,
        bytes@.len() < usize::MAX,
    ensures
        result_view(res, |s: Struct| struct_view(s)) == spec_parse_struct(bytes@, *old(index) as int).0,
        *final(index) == spec_parse_struct(bytes@, *old(index) as int).1,
        *old(index) <= *final(index) <= bytes@.len() + 1,
{
    proof {
        reveal_with_fuel(spec_parse_struct, 1);
        reveal_with_fuel(spec_struct_fields, 1);
    }
    let name = parse_bytecode_string(bytes.as_slice(), index)?;
    let mut strct = Struct::new(name);
    skip_byte(bytes, index);
    let ghost start = *index as int;
    let ghost acc0 = struct_view(strct);
    let mut offset: usize = 0;
    while *index < bytes.len() && bytes[*index] != 0xFD
        invariant
            *old(index) <= start <= *index <= bytes@.len() + 1,
            bytes@.len() < usize::MAX,
            spec_parse_struct(bytes@, *old(index) as int) == spec_struct_fields(bytes@, start, acc0),
            offset == strct.size,
            offset <= *index,
            spec_struct_fields(bytes@, start, acc0) == spec_struct_fields(bytes@, *index as int, struct_view(strct)),
        decreases bytes@.len() - *index,
    {
        proof {
            reveal_with_fuel(spec_struct_fields, 1);
        }
        let ghost i = *index as int;
        let typ = match parse_type(bytes.as_slice(), index) {
            Ok(t) => t,
            Err(e) => {
                return Err(e);
            },
        };
        let fname = match parse_bytecode_string(bytes.as_slice(), index) {
            Ok(n) => n,
            Err(e) => {
                return Err(e);
            },
        };
        strct.add_field(typ, fname, offset);
        offset = offset + 1;
    }
    if *index >= bytes.len() {
        return Err(ParseError::UnexpectedEnd { at: *index });
    }
    *index = *index + 1;
    Ok(strct)
}

/// What decoding the argument types of an extern from `i` gives: types up to
/// the `0xF8` that ends them, which is consumed.
#[verifier::opaque]
pub open spec fn spec_extern_args(bytes: Seq<u8>, i: int, acc: Seq<Seq<Types>>) -> (Result<Seq<Seq<Types>>, ParseErrorV>, int)
    decreases bytes.len() - i,
{
    if i < 0 || i >= bytes.len() {
        (Err(ParseErrorV::UnexpectedEnd { at: i as usize }), i)
    } else if bytes[i] == 0xF8 {
        (Ok(acc), i + 1)
    } else {
        let (tr, te) = spec_type(bytes, i);
        match tr {
            Err(e) => (Err(e@), te),
            Ok(t) => if i < te {
                spec_extern_args(bytes, te, acc.push(t))
            } else {
                (Err(ParseErrorV::TooLarge), te)
            },
        }
    }
}

/// What decoding an extern at `i` (after its `0xF9`) gives: the return type,
/// the name, the argument types up to `0xF8`, then the library's name.
#[verifier::opaque]
pub open spec fn spec_parse_extern(bytes: Seq<u8>, i: int) -> (Result<ExternV, ParseErrorV>, int) {
    let (tr, te) = spec_type(bytes, i);
    match tr {
        Err(e) => (Err(e@), te),
        Ok(rt) => {
            let (nr, ne) = spec_bytecode_string(bytes, te);
            match nr {
                Err(e) => (Err(e@), ne),
                Ok(n) => extern_finish(bytes, rt, n, spec_extern_args(bytes, ne, Seq::empty())),
            }
        },
    }
}

/// The rest of decoding an extern once its argument types are decoded: the
/// library's name.
#[verifier::opaque]
pub open spec fn extern_finish(
    bytes: Seq<u8>,
    rt: Seq<Types>,
    n: Seq<char>,
    args: (Result<Seq<Seq<Types>>, ParseErrorV>, int),
) -> (Result<ExternV, ParseErrorV>, int) {
    match args.0 {
        Err(e) => (Err(e), args.1),
        Ok(a) => {
            let (dr, de) = spec_bytecode_string(bytes, args.1);
            match dr {
                Err(e) => (Err(e@), de),
                Ok(dll) => (Ok(ExternV { name: n, ret_type: rt, arg_types: a, dll }), de),
            }
        },
    }
}

/// Decodes an extern at `index` (after its `0xF9`), leaving `index` after it.
pub fn parse_extern(bytes: &Vec<u8>, index: &mut usize) -> (res: Result<Extern, ParseError>)
    requires
        *old(index) <= bytes@.len() + 1,
    ensures
        result_view(res, |e: Extern| extern_view(e)) == spec_parse_extern(bytes@, *old(index) as int).0,
        *final(index) == spec_parse_extern(bytes@, *old(index) as int).1,
        *old(index) <= *final(index) <= bytes@.len() + 1,
{
    proof {
        reveal_with_fuel(spec_parse_extern, 1);
        reveal_with_fuel(spec_extern_args, 1);
        reveal_with_fuel(extern_finish, 1);
    }
    let ret_type = parse_type(bytes.as_slice(), index)?;
    let name = parse_bytecode_string(bytes.as_slice(), index)?;
    let mut arg_types: Vec<Type> = Vec::new();
    let ghost start = *index as int;
    let ghost rt = ret_type@;
    let ghost n = name@;
    proof {
        assert(types_view(arg_types@) =~= Seq::<Seq<Types>>::empty());
    }
    while *index < bytes.len() && bytes[*index] != 0xF8
        invariant
            *old(index) <= start <= *index <= bytes@.len() + 1,
            rt == ret_type@,
            n == name@,
            spec_parse_extern(bytes@, *old(index) as int) == extern_finish(bytes@, rt, n,
                spec_extern_args(bytes@, start, Seq::empty())),
            spec_extern_args(bytes@, start, Seq::empty()) == spec_extern_args(bytes@, *index as int, types_view(arg_types@)),
        decreases bytes@.len() - *index,
    {
        proof {
            reveal_with_fuel(spec_extern_args, 1);
            reveal_with_fuel(extern_finish, 1);
        }
        let t = match parse_type(bytes.as_slice(), index) {
            Ok(t) => t,
            Err(e) => {
                return Err(e);
            },
        };
        let ghost before = arg_types@;
        arg_types.push(t);
        proof {
            assert(types_view(arg_types@) =~= types_view(before).push(t@));
        }
    }
    if *index >= bytes.len() {
        return Err(ParseError::UnexpectedEnd { at: *index });
    }
    *index = *index + 1;
    let dll = parse_bytecode_string(bytes.as_slice(), index)?;
    Ok(Extern { name, ret_type, arg_types, dll })
}


/// What is left of the bytecode from `i`: the measure by which the decoder
/// terminates.
pub open spec fn rest(bytes: Seq<u8>, i: int) -> nat {
    if 0 <= i < bytes.len() {
        (bytes.len() - i) as nat
    } else {
        0
    }
}

/// Compares two constants by a condition byte `0..=5` (`==`, `!=`, `>=`, `>`,
/// `<=`, `<`).
pub open spec fn holds(c: u8, l: i32, r: i32) -> bool {
    if c == 0 {
        l == r
    } else if c == 1 {
        l != r
    } else if c == 2 {
        l >= r
    } else if c == 3 {
        l > r
    } else if c == 4 {
        l <= r
    } else {
        l < r
    }
}

/// The upper-case spelling of a name, as `str::to_uppercase` gives it.
pub uninterp spec fn str_to_uppercase(s: Seq<char>) -> Seq<char>;

/// `str::to_uppercase`.
#[verifier::external_body]
fn to_uppercase(s: &String) -> (r: String)
    ensures
        r@ == str_to_uppercase(s@),
{
    s.to_uppercase()
}

/// The error for a constant that is not declared.
pub open spec fn unknown_const(consts: Seq<(Seq<char>, i32)>, n: Seq<char>) -> ParseErrorV {
    if klookup(consts, str_to_uppercase(n)) is Some {
        ParseErrorV::UnknownConstSimilar { name: n, similar: str_to_uppercase(n) }
    } else {
        ParseErrorV::UnknownConst(n)
    }
}

/// What decoding the arguments of a function from `i` gives: (type, name)
/// pairs up to the `0xFE` that opens the body, which is consumed.
#[verifier::opaque]
pub open spec fn spec_fn_args(bytes: Seq<u8>, i: int, tys: Seq<Seq<Types>>, names: Seq<Seq<char>>)
    -> (Result<(Seq<Seq<Types>>, Seq<Seq<char>>), ParseErrorV>, int)
    decreases bytes.len() - i,
{
    if i < 0 || i >= bytes.len() {
        (Err(ParseErrorV::UnexpectedEnd { at: i as usize }), i)
    } else if bytes[i] == 0xFE {
        (Ok((tys, names)), i + 1)
    } else {
        let (tr, te) = spec_type(bytes, i);
        match tr {
            Err(e) => (Err(e@), te),
            Ok(t) => {
                let (nr, ne) = spec_bytecode_string(bytes, te);
                match nr {
                    Err(e) => (Err(e@), ne),
                    Ok(n) => if i < ne {
                        spec_fn_args(bytes, ne, tys.push(t), names.push(n))
                    } else {
                        (Err(ParseErrorV::TooLarge), ne)
                    },
                }
            },
        }
    }
}

/// What decoding the body of a scope from `i` gives, with `acc` holding what
/// has been decoded of it: the scope, where decoding stops, and the frames.
///
/// A scope runs to its `0xFD` (consumed), to a `0xFC` (the data section, not
/// consumed) or to the end of the bytecode; each item in it is decoded by
/// `spec_scope_step`.
#[verifier::opaque]
pub open spec fn spec_scope_loop(
    bytes: Seq<u8>,
    i: int,
    acc: ScopeV,
    st: Seq<FrameV>,
    consts: Seq<(Seq<char>, i32)>,
    imports: Seq<(Seq<char>, Seq<u8>)>,
    fuel: nat,
) -> (Result<ScopeV, ParseErrorV>, int, Seq<FrameV>)
    decreases fuel, rest(bytes, i), 2nat,
{
    if i < 0 || i >= bytes.len() {
        (Ok(acc), i, st)
    } else {
        let (r, e, st2, done) = spec_scope_step(bytes, i, acc, st, consts, imports, fuel);
        if done {
            (r, e, st2)
        } else {
            match r {
                Err(x) => (Err(x), e, st2),
                Ok(acc2) => if i < e {
                    spec_scope_loop(bytes, e, acc2, st2, consts, imports, fuel)
                } else {
                    (Err(ParseErrorV::TooLarge), e, st2)
                },
            }
        }
    }
}

/// What decoding the item of a scope at `i` (inside the bytecode) gives: the
/// scope with the item in it, where the item ends, the frames, and whether
/// the scope ends there. Functions, structs, externs and modules are bound by
/// name; a nested scope is added as a block; a conditional block that is
/// taken and an imported program are merged in; every other byte starts an
/// instruction. A module's frame is pushed after its scope.
#[verifier::opaque]
pub open spec fn spec_scope_step(
    bytes: Seq<u8>,
    i: int,
    acc: ScopeV,
    st: Seq<FrameV>,
    consts: Seq<(Seq<char>, i32)>,
    imports: Seq<(Seq<char>, Seq<u8>)>,
    fuel: nat,
) -> (Result<ScopeV, ParseErrorV>, int, Seq<FrameV>, bool)
    decreases fuel, rest(bytes, i), 1nat,
{
    if i < 0 || i >= bytes.len() {
        (Ok(acc), i, st, true)
    } else {
        let b = bytes[i];
        if b == 0xFF {
            let (fr, fe, fst) = spec_parse_function(bytes, i + 1, st, consts, imports, fuel);
            match fr {
                Err(e) => (Err(e), fe, fst, true),
                Ok(f) => (Ok(ScopeV { functions: kinsert(acc.functions, f.name, f), ..acc }), fe, fst, false),
            }
        } else if b == 0xFE {
            let (sr, se, sst) = spec_scope_loop(bytes, i + 1, empty_scope_v(), st, consts, imports, fuel);
            match sr {
                Err(e) => (Err(e), se, sst, true),
                Ok(sc) => if !add_block_ok(acc) {
                    (Err(ParseErrorV::TooLarge), se, sst, true)
                } else {
                    (Ok(add_block_v(acc, BlockV::SCOPE(sc))), se, sst, false)
                },
            }
        } else if b == 0xFD {
            (Ok(acc), i + 1, st, true)
        } else if b == 0xFC {
            (Ok(acc), i, st, true)
        } else if b == 0xFB {
            let (r, e) = spec_parse_struct(bytes, i + 1);
            match r {
                Err(x) => (Err(x), e, st, true),
                Ok(sv) => (Ok(ScopeV { structs: kinsert(acc.structs, sv.name, sv), ..acc }), e, st, false),
            }
        } else if b == 0xFA {
            let (r, e, st2) = spec_parse_import(bytes, i + 1, acc, st, consts, imports, fuel);
            (r, e, st2, r is Err)
        } else if b == 0xF9 {
            let (r, e) = spec_parse_extern(bytes, i + 1);
            match r {
                Err(x) => (Err(x), e, st, true),
                Ok(ev) => (Ok(ScopeV { externs: kinsert(acc.externs, ev.name, ev), ..acc }), e, st, false),
            }
        } else if b == 0xF7 {
            let (r, e, st2) = spec_cond_loop(bytes, i + 1, st, consts, imports, fuel);
            match r {
                Err(x) => (Err(x), e, st2, true),
                Ok(None) => (Ok(acc), e, st2, false),
                Ok(Some(sc)) => if !merge_ok(acc, sc) {
                    (Err(ParseErrorV::TooLarge), e, st2, true)
                } else {
                    (Ok(merge_v(acc, sc)), e, st2, false)
                },
            }
        } else if b == 0xF6 {
            let (nr, ne) = spec_bytecode_string(bytes, i + 1);
            match nr {
                Err(x) => (Err(x@), ne, st, true),
                Ok(n) => {
                    let j = step(ne, bytes.len() as int);
                    if i < j {
                        let (mr, me, mst) = spec_scope_loop(bytes, j, empty_scope_v(), st, consts, imports, fuel);
                        match mr {
                            Err(x) => (Err(x), me, mst, true),
                            Ok(ms) => (
                                Ok(ScopeV {
                                    modules: kinsert(acc.modules, n, ModuleV { name: n, scope: ms, frame: mst.len() as usize }),
                                    ..acc
                                }),
                                me,
                                mst.push(empty_frame()),
                                false,
                            ),
                        }
                    } else {
                        (Err(ParseErrorV::TooLarge), j, st, true)
                    }
                },
            }
        } else {
            let (ir, ie) = spec_instruction(bytes, i);
            match ir {
                Err(x) => (Err(x@), ie, st, true),
                Ok(ins) => if needs_code_block(acc) && !add_block_ok(acc) {
                    (Err(ParseErrorV::TooLarge), ie, st, true)
                } else {
                    (Ok(push_instr_v(acc, ins)), ie, st, false)
                },
            }
        }
    }
}

/// What decoding a function at `i` (after its `0xFF`) gives: its return type,
/// name, arguments up to `0xFE`, then its body as a scope.
#[verifier::opaque]
pub open spec fn spec_parse_function(
    bytes: Seq<u8>,
    i: int,
    st: Seq<FrameV>,
    consts: Seq<(Seq<char>, i32)>,
    imports: Seq<(Seq<char>, Seq<u8>)>,
    fuel: nat,
) -> (Result<FunctionV, ParseErrorV>, int, Seq<FrameV>)
    decreases fuel, rest(bytes, i), 0nat,
{
    let (tr, te) = spec_type(bytes, i);
    match tr {
        Err(e) => (Err(e@), te, st),
        Ok(rt) => {
            let (nr, ne) = spec_bytecode_string(bytes, te);
            match nr {
                Err(e) => (Err(e@), ne, st),
                Ok(n) => {
                    let (ar, ae) = spec_fn_args(bytes, ne, Seq::empty(), Seq::empty());
                    match ar {
                        Err(e) => (Err(e), ae, st),
                        Ok((tys, names)) => if 0 <= i < bytes.len() && i < ae {
                            let (sr, se, sst) = spec_scope_loop(bytes, ae, empty_scope_v(), st, consts, imports, fuel);
                            match sr {
                                Err(e) => (Err(e), se, sst),
                                Ok(sc) => (Ok(FunctionV { name: n, ret_type: rt, arg_types: tys, arg_names: names, scope: sc }), se, sst),
                            }
                        } else {
                            (Err(ParseErrorV::TooLarge), ae, st)
                        },
                    }
                },
            }
        },
    }
}

/// What decoding the head of an if or else-if block at `i` (at its kind byte)
/// gives: the left constant's name, the condition byte and the right
/// constant's name, and where the head ends (after a byte stepped over, the
/// `0xFE` of the block).
#[verifier::opaque]
pub open spec fn cond_header(bytes: Seq<u8>, i: int) -> (Result<(Seq<char>, u8, Seq<char>), ParseErrorV>, int) {
    let (lr, le) = spec_bytecode_string(bytes, i + 1);
    match lr {
        Err(e) => (Err(e@), le),
        Ok(left) => if le < 0 || le >= bytes.len() {
            (Err(ParseErrorV::UnexpectedEnd { at: le as usize }), le)
        } else {
            let (rr, re) = spec_bytecode_string(bytes, le + 1);
            match rr {
                Err(e) => (Err(e@), re),
                Ok(right) => (Ok((left, bytes[le], right)), step(re, bytes.len() as int)),
            }
        },
    }
}

/// What evaluating conditional blocks from `i` (after an `0xF7`) gives: the
/// scope of the first block that is taken, or `None` when an end block
/// (`0x03`) comes first. An else block (`0x02`) is always taken; an if or
/// else-if block (`0x00`, `0x01`) is evaluated by `spec_cond_if`. After a
/// block that is taken, the rest of the conditional is stepped over
/// (`spec_cond_rest`), so the position ends after the whole conditional.
#[verifier::opaque]
pub open spec fn spec_cond_loop(
    bytes: Seq<u8>,
    i: int,
    st: Seq<FrameV>,
    consts: Seq<(Seq<char>, i32)>,
    imports: Seq<(Seq<char>, Seq<u8>)>,
    fuel: nat,
) -> (Result<Option<ScopeV>, ParseErrorV>, int, Seq<FrameV>)
    decreases fuel, rest(bytes, i), 2nat,
{
    if i < 0 || i >= bytes.len() {
        (Ok(None), i, st)
    } else {
        let b = bytes[i];
        if b == 0x00 || b == 0x01 {
            spec_cond_if(bytes, i, st, consts, imports, fuel)
        } else if b == 0x02 {
            let (sr, se, sst) = spec_scope_loop(bytes, i + 2, empty_scope_v(), st, consts, imports, fuel);
            match sr {
                Err(e) => (Err(e), se, sst),
                Ok(sc) => if i < se {
                    (Ok(Some(sc)), spec_cond_rest(bytes, se, imports, fuel), sst)
                } else {
                    (Err(ParseErrorV::TooLarge), se, sst)
                },
            }
        } else if b == 0x03 {
            (Ok(None), i + 1, st)
        } else {
            (Err(ParseErrorV::UnknownConditionalBlock(b)), i, st)
        }
    }
}

/// What an if or else-if block at `i` gives: both constants must be declared
/// and the condition byte be `0..=5`; when the condition holds the block's
/// scope is decoded, otherwise it is skipped together with the `0xF7` after it
/// and the next block is evaluated.
#[verifier::opaque]
pub open spec fn spec_cond_if(
    bytes: Seq<u8>,
    i: int,
    st: Seq<FrameV>,
    consts: Seq<(Seq<char>, i32)>,
    imports: Seq<(Seq<char>, Seq<u8>)>,
    fuel: nat,
) -> (Result<Option<ScopeV>, ParseErrorV>, int, Seq<FrameV>)
    decreases fuel, rest(bytes, i), 1nat,
{
    let (hr, j) = cond_header(bytes, i);
    match hr {
        Err(e) => (Err(e), j, st),
        Ok((left, c, right)) => if klookup(consts, left) is None {
            (Err(unknown_const(consts, left)), j, st)
        } else if klookup(consts, right) is None {
            (Err(unknown_const(consts, right)), j, st)
        } else if c > 5 {
            (Err(ParseErrorV::UnknownCondition(c)), j, st)
        } else if !(0 <= i < bytes.len() && i < j) {
            (Err(ParseErrorV::TooLarge), j, st)
        } else if holds(c, klookup(consts, left)->0, klookup(consts, right)->0) {
            let (sr, se, sst) = spec_scope_loop(bytes, j, empty_scope_v(), st, consts, imports, fuel);
            match sr {
                Err(e) => (Err(e), se, sst),
                Ok(sc) => if i < se {
                    (Ok(Some(sc)), spec_cond_rest(bytes, se, imports, fuel), sst)
                } else {
                    (Err(ParseErrorV::TooLarge), se, sst)
                },
            }
        } else {
            let k = step(spec_skip_loop(bytes, j, imports, fuel), bytes.len() as int);
            if i < k {
                spec_cond_loop(bytes, k, st, consts, imports, fuel)
            } else {
                (Err(ParseErrorV::TooLarge), k, st)
            }
        },
    }
}

/// Where stepping over the rest of a conditional from `i` (after the `0xFD` of
/// a block that was taken) ends: each further `0xF7` with an if, else-if or
/// else block is skipped together with that block's body, and an `0xF7` with
/// an end block is consumed. Anything else ends the conditional where it
/// stands.
#[verifier::opaque]
pub open spec fn spec_cond_rest(bytes: Seq<u8>, i: int, imports: Seq<(Seq<char>, Seq<u8>)>, fuel: nat) -> int
    decreases fuel, rest(bytes, i), 3nat,
{
    if i < 0 || i + 1 >= bytes.len() || bytes[i] != 0xF7 {
        i
    } else {
        let b = bytes[i + 1];
        if b == 0x03 {
            i + 2
        } else if b == 0x00 || b == 0x01 || b == 0x02 {
            let j = if b == 0x02 { i + 3 } else { cond_header(bytes, i + 1).1 };
            if (b == 0x02 || cond_header(bytes, i + 1).0 is Ok) && i < j {
                let e = spec_skip_loop(bytes, j, imports, fuel);
                if i < e {
                    spec_cond_rest(bytes, e, imports, fuel)
                } else {
                    e
                }
            } else {
                j
            }
        } else {
            i
        }
    }
}

/// Where skipping the body of a scope from `i` stops: at its `0xFD`
/// (consumed), at a `0xFC` or at the end; each item is skipped by
/// `spec_skip_item`.
#[verifier::opaque]
pub open spec fn spec_skip_loop(bytes: Seq<u8>, i: int, imports: Seq<(Seq<char>, Seq<u8>)>, fuel: nat) -> int
    decreases fuel, rest(bytes, i), 2nat,
{
    if i < 0 || i >= bytes.len() {
        i
    } else {
        let b = bytes[i];
        let e = spec_skip_item(bytes, i, imports, fuel);
        if b == 0xFD || b == 0xFC {
            e
        } else if i < e {
            spec_skip_loop(bytes, e, imports, fuel)
        } else {
            e
        }
    }
}

/// Where skipping the item at `i` ends. The item is decoded and thrown away,
/// functions and conditionals with no constants and a frame stack of their
/// own; an error only ends the item.
#[verifier::opaque]
pub open spec fn spec_skip_item(bytes: Seq<u8>, i: int, imports: Seq<(Seq<char>, Seq<u8>)>, fuel: nat) -> int
    decreases fuel, rest(bytes, i), 1nat,
{
    if i < 0 || i >= bytes.len() {
        i
    } else {
        let b = bytes[i];
        if b == 0xFF {
            spec_parse_function(bytes, i + 1, Seq::empty(), Seq::empty(), imports, fuel).1
        } else if b == 0xFE {
            spec_skip_loop(bytes, i + 1, imports, fuel)
        } else if b == 0xFD {
            i + 1
        } else if b == 0xFC {
            i
        } else if b == 0xFB {
            spec_parse_struct(bytes, i + 1).1
        } else if b == 0xFA {
            spec_bytecode_string(bytes, i + 1).1
        } else if b == 0xF9 {
            spec_parse_extern(bytes, i + 1).1
        } else if b == 0xF7 {
            spec_cond_loop(bytes, i + 1, Seq::empty(), Seq::empty(), imports, fuel).1
        } else if b == 0xF6 {
            let j = step(spec_bytecode_string(bytes, i + 1).1, bytes.len() as int);
            if i < j {
                spec_skip_loop(bytes, j, imports, fuel)
            } else {
                j
            }
        } else {
            spec_instruction(bytes, i).1
        }
    }
}

/// What importing at `i` (after an `0xFA`) gives: the file is named by a
/// bytecode string, its program is decoded with one level of imports less,
/// and its scope is merged into `acc`.
#[verifier::opaque]
pub open spec fn spec_parse_import(
    bytes: Seq<u8>,
    i: int,
    acc: ScopeV,
    st: Seq<FrameV>,
    consts: Seq<(Seq<char>, i32)>,
    imports: Seq<(Seq<char>, Seq<u8>)>,
    fuel: nat,
) -> (Result<ScopeV, ParseErrorV>, int, Seq<FrameV>)
    decreases fuel, rest(bytes, i), 0nat,
{
    let (nr, ne) = spec_bytecode_string(bytes, i);
    match nr {
        Err(e) => (Err(e@), ne, st),
        Ok(name) => match klookup(imports, name) {
            None => (Err(ParseErrorV::ImportMissing(name)), ne, st),
            Some(prog) => if fuel == 0 {
                (Err(ParseErrorV::ImportTooDeep(name)), ne, st)
            } else {
                let (pr, _written, pst) = spec_parse_program(prog, st, consts, imports, (fuel - 1) as nat);
                match pr {
                    Err(e) => (Err(e), ne, pst),
                    Ok(ns) => if merge_ok(acc, ns) {
                        (Ok(merge_v(acc, ns)), ne, pst)
                    } else {
                        (Err(ParseErrorV::TooLarge), ne, pst)
                    },
                }
            },
        },
    }
}

/// What decoding a whole program gives: its scope, then a new global frame
/// that its data section fills. The second part is the scope written out,
/// which is there once the scope decodes, even when the data section fails.
#[verifier::opaque]
pub open spec fn spec_parse_program(
    program: Seq<u8>,
    st: Seq<FrameV>,
    consts: Seq<(Seq<char>, i32)>,
    imports: Seq<(Seq<char>, Seq<u8>)>,
    fuel: nat,
) -> (Result<ScopeV, ParseErrorV>, Option<ScopeV>, Seq<FrameV>)
    decreases fuel, program.len() + 1, 0nat,
{
    let (sr, se, sst) = spec_scope_loop(program, 0, empty_scope_v(), st, consts, imports, fuel);
    match sr {
        Err(e) => (Err(e), None, sst),
        Ok(sc) => {
            let (dr, dst, _) = spec_data_section(program, se, sst.push(empty_frame()), sst.len() as int);
            match dr {
                Err(e) => (Err(e), Some(sc), dst),
                Ok(_) => (Ok(sc), Some(sc), dst),
            }
        },
    }
}

/// The first index at or after `i` that holds `0xFC`, or where the bytecode
/// ends (or `i`, past the end).
pub open spec fn find_fc(bytes: Seq<u8>, i: int) -> int
    decreases bytes.len() - i,
{
    if i < 0 || i >= bytes.len() {
        i
    } else if bytes[i] == 0xFC {
        i
    } else {
        find_fc(bytes, i + 1)
    }
}

/// What pushing `count` elements of a data constant of type `t` from `i` onto
/// frame `gf` gives: each element is a big-endian value of the pointed-to base
/// type, and half and single precision decimals are widened to f64.
#[verifier::opaque]
pub open spec fn spec_data_values(bytes: Seq<u8>, i: int, st: Seq<FrameV>, gf: int, t: Seq<Types>, count: nat)
    -> (Result<(), ParseErrorV>, int, Seq<FrameV>)
    decreases count,
{
    if count == 0 {
        (Ok(()), i, st)
    } else {
        let c = type_code(t[1]);
        if c < 1 || c > 0x0B {
            (Err(ParseErrorV::UnsupportedDataType(t)), i, st)
        } else if i < 0 || i + imm_width(c) > bytes.len() {
            (Err(ParseErrorV::UnexpectedEnd { at: i as usize }), i, st)
        } else {
            let v = imm_value(c, bytes.subrange(i, i + imm_width(c)));
            spec_data_values(bytes, i + imm_width(c), st.update(gf, push_slot(st[gf], (t.drop_first(), v), Seq::empty())),
                gf, t, (count - 1) as nat)
        }
    }
}

/// What decoding the entries of a data section from `i` gives: each entry is
/// a name, a pointer type and a dynamic number of elements; the name becomes
/// a variable of frame `gf` pointing just past its own slot, and the elements
/// follow it on the frame. The last part is where decoding leaves the read
/// position.
#[verifier::opaque]
pub open spec fn spec_data_entries(bytes: Seq<u8>, i: int, st: Seq<FrameV>, gf: int) -> (Result<(), ParseErrorV>, Seq<FrameV>, int)
    decreases bytes.len() - i,
{
    if i < 0 || i >= bytes.len() {
        (Ok(()), st, i)
    } else {
        let (nr, ne) = spec_bytecode_string(bytes, i);
        match nr {
            Err(e) => (Err(e@), st, ne),
            Ok(name) => {
                let (tr, te) = spec_type(bytes, ne);
                match tr {
                    Err(e) => (Err(e@), st, te),
                    Ok(t) => {
                        let (lr, le) = spec_dyn_number(bytes, te);
                        match lr {
                            Err(e) => (Err(e@), st, le),
                            Ok(n) => if !(0 <= gf < st.len()) || st[gf].stack.len() >= usize::MAX {
                                (Err(ParseErrorV::TooLarge), st, le)
                            } else {
                                let idx = st[gf].stack.len();
                                let st1 = st.update(gf, declare_var(st[gf], name, (t, ValuesV::POINTER((idx + 1) as usize, n))));
                                if t[0] != Types::POINTER {
                                    (Err(ParseErrorV::UnsupportedDataType(t)), st1, le)
                                } else {
                                    let (vr, ve, st2) = spec_data_values(bytes, le, st1, gf, t, n as nat);
                                    match vr {
                                        Err(e) => (Err(e), st2, ve),
                                        Ok(_) => if i < ve <= bytes.len() {
                                            spec_data_entries(bytes, ve, st2, gf)
                                        } else {
                                            (Err(ParseErrorV::TooLarge), st2, ve)
                                        },
                                    }
                                }
                            },
                        }
                    },
                }
            },
        }
    }
}

/// What decoding the data section of a program from `i` gives: nothing when
/// the program ends at `i`; otherwise the section starts after the next
/// `0xFC`. The last part is where decoding leaves the read position.
#[verifier::opaque]
pub open spec fn spec_data_section(bytes: Seq<u8>, i: int, st: Seq<FrameV>, gf: int) -> (Result<(), ParseErrorV>, Seq<FrameV>, int) {
    if i == bytes.len() {
        (Ok(()), st, i)
    } else {
        let k = find_fc(bytes, i);
        if k < 0 || k >= bytes.len() {
            (Err(ParseErrorV::UnexpectedEnd { at: k as usize }), st, k)
        } else {
            spec_data_entries(bytes, k + 1, st, gf)
        }
    }
}


pub open spec fn frames_view(v: Seq<Frame>) -> Seq<FrameV> {
    v.map_values(|f: Frame| frame_view(f))
}

pub open spec fn i32_id(x: i32) -> i32 {
    x
}

/// The constants that conditional blocks compare, by name.
pub open spec fn consts_view(c: Seq<(String, i32)>) -> Seq<(Seq<char>, i32)> {
    kview(c, |x: i32| i32_id(x))
}

pub open spec fn bytes_of(v: Vec<u8>) -> Seq<u8> {
    v@
}

/// The programs that imports name, by file name.
pub open spec fn imports_view(v: Seq<(String, Vec<u8>)>) -> Seq<(Seq<char>, Seq<u8>)> {
    kview(v, |b: Vec<u8>| bytes_of(b))
}

/// Every imported program has a length below `usize::MAX`.
pub open spec fn imports_ok(v: Seq<(String, Vec<u8>)>) -> bool {
    forall|k: int| 0 <= k < v.len() ==> #[trigger] v[k].1@.len() < usize::MAX
}

/// Compares two constants by a condition byte `0..=5`.
fn holds_exec(c: u8, l: i32, r: i32) -> (b: bool)
    ensures
        b == holds(c, l, r),
{
    if c == 0 {
        l == r
    } else if c == 1 {
        l != r
    } else if c == 2 {
        l >= r
    } else if c == 3 {
        l > r
    } else if c == 4 {
        l <= r
    } else {
        l < r
    }
}

/// The error for a constant `name` that is not declared, naming its
/// upper-case spelling when that is declared.
fn unknown_const_error(consts: &Vec<(String, i32)>, name: String) -> (e: ParseError)
    ensures
        e@ == unknown_const(consts_view(consts@), name@),
{
    let upper = to_uppercase(&name);
    proof {
        lemma_kfind(consts@, |x: i32| i32_id(x), upper@);
    }
    if crate::names::contains_name(consts, &upper) {
        ParseError::UnknownConstSimilar { name, similar: upper }
    } else {
        ParseError::UnknownConst(name)
    }
}

/// The value of the constant `name`, or the error for an undeclared one.
fn get_const(consts: &Vec<(String, i32)>, name: String) -> (r: Result<i32, ParseError>)
    ensures
        match r {
            Ok(v) => klookup(consts_view(consts@), name@) == Some(v),
            Err(e) => klookup(consts_view(consts@), name@) is None && e@ == unknown_const(consts_view(consts@), name@),
        },
{
    proof {
        lemma_kfind(consts@, |x: i32| i32_id(x), name@);
    }
    match get_name(consts, &name) {
        Some(v) => Ok(*v),
        None => Err(unknown_const_error(consts, name)),
    }
}

/// Decodes the item of a scope at `index` into `scope` (see
/// `spec_scope_step`): `Ok(true)` when the scope ends there.
#[verifier::spinoff_prover]
#[verifier::rlimit(80)]
fn parse_scope_item(
    bytes: &Vec<u8>,
    stack: &mut Vec<Frame>,
    scope: &mut Scope,
    index: &mut usize,
    imports: &Vec<(String, Vec<u8>)>,
    consts: &Vec<(String, i32)>,
    fuel: usize,
) -> (res: Result<bool, ParseError>)
    requires
        *old(index) < bytes@.len(),
        bytes@.len() < usize::MAX,
        imports_ok(imports@),
        starts_wf(scope_view(*old(scope))),
    ensures
        ({
            let sp = spec_scope_step(bytes@, *old(index) as int, scope_view(*old(scope)), frames_view(old(stack)@),
                consts_view(consts@), imports_view(imports@), fuel as nat);
            &&& match res {
                Ok(done) => sp.0 == Ok::<ScopeV, ParseErrorV>(scope_view(*final(scope))) && sp.3 == done,
                Err(e) => sp.0 == Err::<ScopeV, ParseErrorV>(e@) && sp.3,
            }
            &&& *final(index) == sp.1
            &&& frames_view(final(stack)@) == sp.2
        }),
        starts_wf(scope_view(*final(scope))),
        *old(index) <= *final(index) <= bytes@.len() + 1,
        res matches Ok(false) ==> *old(index) < *final(index),
    decreases fuel, rest(bytes@, *old(index) as int), 0nat,
{
    proof {
        reveal_with_fuel(spec_scope_step, 1);
        reveal_with_fuel(spec_parse_function, 1);
        reveal_with_fuel(spec_scope_loop, 1);
        reveal_with_fuel(spec_parse_import, 1);
        reveal_with_fuel(spec_cond_loop, 1);
    }
    let ghost cv = consts_view(consts@);
    let ghost iv = imports_view(imports@);
    let ghost i = *index as int;
    let ghost acc = scope_view(*scope);
    let ghost stv = frames_view(stack@);
    let b = bytes[*index];
    if b == 0xFF {
        *index = *index + 1;
        let func = match parse_function(bytes, stack, index, imports, consts, fuel) {
            Ok(f) => f,
            Err(e) => {
                return Err(e);
            },
        };
        let key = func.name.clone();
        let ghost gf = func;
        let ghost old_fs = scope.functions@;
        insert_name(&mut scope.functions, key, func);
        proof {
            lemma_functions_kview(old_fs);
            lemma_kview_insert(old_fs, |f: Function| function_view(f), key, gf);
            lemma_functions_kview(scope.functions@);
        }
    } else if b == 0xFE {
        *index = *index + 1;
        let inner = match parse_scope_from(bytes, stack, index, imports, consts, fuel) {
            Ok(sc) => sc,
            Err(e) => {
                return Err(e);
            },
        };
        if !can_add_block(scope) {
            return Err(ParseError::TooLarge);
        }
        proof {
            lemma_blocks_view_len(scope.blocks@);
        }
        let nb = Block::SCOPE(inner);
        let ghost gb = nb;
        let ghost old_blocks = scope.blocks@;
        scope.add_block(nb);
        proof {
            lemma_blocks_view_push(old_blocks, gb);
        }
    } else if b == 0xFD {
        *index = *index + 1;
        return Ok(true);
    } else if b == 0xFC {
        return Ok(true);
    } else if b == 0xFB {
        *index = *index + 1;
        let strct = match parse_struct(bytes, index) {
            Ok(x) => x,
            Err(e) => {
                return Err(e);
            },
        };
        let key = strct.name.clone();
        let ghost gs = strct;
        let ghost old_ss = scope.structs@;
        insert_name(&mut scope.structs, key, strct);
        proof {
            lemma_structs_kview(old_ss);
            lemma_kview_insert(old_ss, |x: Struct| struct_view(x), key, gs);
            lemma_structs_kview(scope.structs@);
        }
    } else if b == 0xFA {
        *index = *index + 1;
        match parse_import(bytes, stack, scope, index, imports, consts, fuel) {
            Ok(()) => {},
            Err(e) => {
                return Err(e);
            },
        }
    } else if b == 0xF9 {
        *index = *index + 1;
        let ext = match parse_extern(bytes, index) {
            Ok(x) => x,
            Err(e) => {
                return Err(e);
            },
        };
        let key = ext.name.clone();
        let ghost ge = ext;
        let ghost old_es = scope.externs@;
        insert_name(&mut scope.externs, key, ext);
        proof {
            lemma_externs_kview(old_es);
            lemma_kview_insert(old_es, |x: Extern| extern_view(x), key, ge);
            lemma_externs_kview(scope.externs@);
        }
    } else if b == 0xF7 {
        *index = *index + 1;
        match eval_conditional_from(bytes, stack, index, imports, consts, fuel) {
            Err(e) => {
                return Err(e);
            },
            Ok(None) => {},
            Ok(Some(sc)) => {
                if !merge_fits(scope, &sc) {
                    return Err(ParseError::TooLarge);
                }
                merge_scopes(scope, sc);
            },
        }
    } else if b == 0xF6 {
        *index = *index + 1;
        let name = match parse_bytecode_string(bytes.as_slice(), index) {
            Ok(n) => n,
            Err(e) => {
                return Err(e);
            },
        };
        skip_byte(bytes, index);
        let module_scope = match parse_scope_from(bytes, stack, index, imports, consts, fuel) {
            Ok(sc) => sc,
            Err(e) => {
                return Err(e);
            },
        };
        let frame = stack.len();
        let key = name.clone();
        let m = Module { name, scope: module_scope, frame };
        let ghost gm = m;
        let ghost old_ms = scope.modules@;
        insert_name(&mut scope.modules, key, m);
        let ghost old_stack = stack@;
        stack.push(Frame::new());
        proof {
            lemma_modules_kview(old_ms);
            lemma_kview_insert(old_ms, |x: Module| module_view(x), key, gm);
            lemma_modules_kview(scope.modules@);
            assert(frames_view(stack@) =~= frames_view(old_stack).push(empty_frame()));
        }
    } else {
        let ins = match parse_instruction(bytes, index) {
            Ok(x) => x,
            Err(e) => {
                return Err(e);
            },
        };
        proof {
            lemma_blocks_view_len(scope.blocks@);
        }
        let need = if scope.blocks.len() == 0 {
            true
        } else {
            match &scope.blocks[scope.blocks.len() - 1] {
                Block::CODE(_) => false,
                Block::SCOPE(_) => true,
            }
        };
        if need && !can_add_block(scope) {
            return Err(ParseError::TooLarge);
        }
        push_instruction(scope, ins);
    }
    Ok(false)
}

/// Where `spec_scope_loop` goes from an item inside the bytecode.
proof fn lemma_scope_loop_unfold(
    bytes: Seq<u8>,
    i: int,
    acc: ScopeV,
    st: Seq<FrameV>,
    consts: Seq<(Seq<char>, i32)>,
    imports: Seq<(Seq<char>, Seq<u8>)>,
    fuel: nat,
)
    requires
        0 <= i < bytes.len(),
    ensures
        ({
            let sp = spec_scope_step(bytes, i, acc, st, consts, imports, fuel);
            spec_scope_loop(bytes, i, acc, st, consts, imports, fuel) == if sp.3 {
                (sp.0, sp.1, sp.2)
            } else {
                match sp.0 {
                    Err(x) => (Err(x), sp.1, sp.2),
                    Ok(a) => if i < sp.1 {
                        spec_scope_loop(bytes, sp.1, a, sp.2, consts, imports, fuel)
                    } else {
                        (Err(ParseErrorV::TooLarge), sp.1, sp.2)
                    },
                }
            }
        }),
{
    reveal_with_fuel(spec_scope_loop, 1);
    reveal_with_fuel(spec_scope_step, 1);
    let sp = spec_scope_step(bytes, i, acc, st, consts, imports, fuel);
    if sp.3 {
        assert(spec_scope_loop(bytes, i, acc, st, consts, imports, fuel) == (sp.0, sp.1, sp.2));
    } else {
        match sp.0 {
            Err(x) => {
                assert(spec_scope_loop(bytes, i, acc, st, consts, imports, fuel) == (Err::<ScopeV, ParseErrorV>(x), sp.1, sp.2));
            },
            Ok(a) => {
                if i < sp.1 {
                    assert(spec_scope_loop(bytes, i, acc, st, consts, imports, fuel) == spec_scope_loop(bytes, sp.1, a, sp.2, consts, imports, fuel));
                } else {
                    assert(spec_scope_loop(bytes, i, acc, st, consts, imports, fuel) == (Err::<ScopeV, ParseErrorV>(ParseErrorV::TooLarge), sp.1, sp.2));
                }
            },
        }
    }
}

/// Decodes the body of a scope at `index` (after its `0xFE`, or at the start
/// of a program), leaving `index` after its `0xFD`, at the data section or at
/// the end. Nested scopes, functions and modules get this scope as parent.
pub(crate) fn parse_scope_from(
    bytes: &Vec<u8>,
    stack: &mut Vec<Frame>,
    index: &mut usize,
    imports: &Vec<(String, Vec<u8>)>,
    consts: &Vec<(String, i32)>,
    fuel: usize,
) -> (res: Result<Scope, ParseError>)
    requires
        *old(index) <= bytes@.len() + 1,
        bytes@.len() < usize::MAX,
        imports_ok(imports@),
    ensures
        result_view(res, |s: Scope| scope_view(s)) == spec_scope_loop(bytes@, *old(index) as int, empty_scope_v(),
            frames_view(old(stack)@), consts_view(consts@), imports_view(imports@), fuel as nat).0,
        *final(index) == spec_scope_loop(bytes@, *old(index) as int, empty_scope_v(), frames_view(old(stack)@),
            consts_view(consts@), imports_view(imports@), fuel as nat).1,
        frames_view(final(stack)@) == spec_scope_loop(bytes@, *old(index) as int, empty_scope_v(), frames_view(old(stack)@),
            consts_view(consts@), imports_view(imports@), fuel as nat).2,
        *old(index) <= *final(index) <= bytes@.len() + 1,
        res matches Ok(s) ==> starts_wf(scope_view(s)) && children_parented(s),
    decreases fuel, rest(bytes@, *old(index) as int), 1nat,
{
    let mut scope = Scope::new();
    proof {
        reveal_with_fuel(spec_scope_loop, 1);
    }
    let ghost cv = consts_view(consts@);
    let ghost iv = imports_view(imports@);
    let ghost start = *index as int;
    let ghost st0 = frames_view(stack@);
    while *index < bytes.len()
        invariant
            start == *old(index) as int,
            st0 == frames_view(old(stack)@),
            cv == consts_view(consts@),
            iv == imports_view(imports@),
            start <= *index <= bytes@.len() + 1,
            bytes@.len() < usize::MAX,
            imports_ok(imports@),
            starts_wf(scope_view(scope)),
            spec_scope_loop(bytes@, start, empty_scope_v(), st0, cv, iv, fuel as nat)
                == spec_scope_loop(bytes@, *index as int, scope_view(scope), frames_view(stack@), cv, iv, fuel as nat),
        decreases bytes@.len() + 1 - *index,
    {
        let ghost i = *index as int;
        let ghost acc = scope_view(scope);
        let ghost stv = frames_view(stack@);
        proof {
            lemma_scope_loop_unfold(bytes@, i, acc, stv, cv, iv, fuel as nat);
        }
        match parse_scope_item(bytes, stack, &mut scope, index, imports, consts, fuel) {
            Err(e) => {
                return Err(e);
            },
            Ok(true) => {
                return Ok(finish_scope(scope));
            },
            Ok(false) => {},
        }
    }
    Ok(finish_scope(scope))
}


/// Decodes the arguments of a function at `index`: (type, name) pairs up to
/// the `0xFE` that opens the body, leaving `index` after that byte.
fn parse_fn_args(bytes: &Vec<u8>, index: &mut usize) -> (res: Result<(Vec<Type>, Vec<String>), ParseError>)
    requires
        *old(index) <= bytes@.len() + 1,
    ensures
        result_view(res, |a: (Vec<Type>, Vec<String>)| (types_view(a.0@), names_view(a.1@)))
            == spec_fn_args(bytes@, *old(index) as int, Seq::empty(), Seq::empty()).0,
        *final(index) == spec_fn_args(bytes@, *old(index) as int, Seq::empty(), Seq::empty()).1,
        *old(index) <= *final(index) <= bytes@.len() + 1,
        res is Ok ==> *old(index) < *final(index) <= bytes@.len(),
{
    proof {
        reveal_with_fuel(spec_fn_args, 1);
    }
    let mut arg_types: Vec<Type> = Vec::new();
    let mut arg_names: Vec<String> = Vec::new();
    let ghost start = *index as int;
    proof {
        assert(types_view(arg_types@) =~= Seq::<Seq<Types>>::empty());
        assert(names_view(arg_names@) =~= Seq::<Seq<char>>::empty());
    }
    while *index < bytes.len() && bytes[*index] != 0xFE
        invariant
            start == *old(index) as int,
            start <= *index <= bytes@.len() + 1,
            start > bytes@.len() ==> *index == start,
            spec_fn_args(bytes@, start, Seq::empty(), Seq::empty())
                == spec_fn_args(bytes@, *index as int, types_view(arg_types@), names_view(arg_names@)),
        decreases bytes@.len() - *index,
    {
        proof {
            reveal_with_fuel(spec_fn_args, 1);
        }
        let t = match parse_type(bytes.as_slice(), index) {
            Ok(t) => t,
            Err(e) => {
                return Err(e);
            },
        };
        let n = match parse_bytecode_string(bytes.as_slice(), index) {
            Ok(n) => n,
            Err(e) => {
                return Err(e);
            },
        };
        let ghost bt = arg_types@;
        let ghost bn = arg_names@;
        arg_types.push(t);
        arg_names.push(n);
        proof {
            assert(types_view(arg_types@) =~= types_view(bt).push(t@));
            assert(names_view(arg_names@) =~= names_view(bn).push(n@));
        }
    }
    if *index >= bytes.len() {
        return Err(ParseError::UnexpectedEnd { at: *index });
    }
    *index = *index + 1;
    Ok((arg_types, arg_names))
}

/// Pushes `count` elements of a data constant of pointer type `typ` from
/// `index` onto frame `gf`.
fn push_data_values(bytes: &Vec<u8>, stack: &mut Vec<Frame>, index: &mut usize, gf: usize, typ: &Type, count: usize)
    -> (res: Result<(), ParseError>)
    requires
        gf < old(stack)@.len(),
        typ@.len() >= 2,
        *old(index) <= bytes@.len(),
    ensures
        result_view(res, |u: ()| u) == spec_data_values(bytes@, *old(index) as int, frames_view(old(stack)@),
            gf as int, typ@, count as nat).0,
        *final(index) == spec_data_values(bytes@, *old(index) as int, frames_view(old(stack)@), gf as int, typ@,
            count as nat).1,
        frames_view(final(stack)@) == spec_data_values(bytes@, *old(index) as int, frames_view(old(stack)@),
            gf as int, typ@, count as nat).2,
        *old(index) <= *final(index) <= bytes@.len(),
        final(stack)@.len() == old(stack)@.len(),
{
    proof {
        reveal_with_fuel(spec_data_values, 1);
    }
    let code = typ.typ[1].to_u8();
    let mut k: usize = 0;
    while k < count
        invariant
            gf < stack@.len(),
            stack@.len() == old(stack)@.len(),
            typ@.len() >= 2,
            code == type_code(typ@[1]),
            k <= count,
            *old(index) <= *index <= bytes@.len(),
            spec_data_values(bytes@, *old(index) as int, frames_view(old(stack)@), gf as int, typ@, count as nat)
                == spec_data_values(bytes@, *index as int, frames_view(stack@), gf as int, typ@, (count - k) as nat),
        decreases count - k,
    {
        proof {
            reveal_with_fuel(spec_data_values, 1);
        }
        if code < 1 || code > 0x0B {
            return Err(ParseError::UnsupportedDataType(typ.clone()));
        }
        let w = value_width(code);
        if w > bytes.len() - *index {
            return Err(ParseError::UnexpectedEnd { at: *index });
        }
        let val = read_value(bytes.as_slice(), *index, code);
        *index = *index + w;
        let t = typ.clone().pop();
        let ghost bs = stack@;
        stack[gf].push(Value { typ: t, val });
        proof {
            assert(frames_view(stack@) =~= frames_view(bs).update(gf as int,
                push_slot(frames_view(bs)[gf as int], (typ@.drop_first(), val@), Seq::empty())));
        }
        k = k + 1;
    }
    Ok(())
}

/// Decodes a function at `index` (after its `0xFF`): its return type, name,
/// arguments up to `0xFE`, then its body; leaves `index` after the body.
pub fn parse_function(
    bytes: &Vec<u8>,
    stack: &mut Vec<Frame>,
    index: &mut usize,
    imports: &Vec<(String, Vec<u8>)>,
    consts: &Vec<(String, i32)>,
    fuel: usize,
) -> (res: Result<Function, ParseError>)
    requires
        *old(index) <= bytes@.len() + 1,
        bytes@.len() < usize::MAX,
        imports_ok(imports@),
    ensures
        result_view(res, |f: Function| function_view(f)) == spec_parse_function(bytes@, *old(index) as int,
            frames_view(old(stack)@), consts_view(consts@), imports_view(imports@), fuel as nat).0,
        *final(index) == spec_parse_function(bytes@, *old(index) as int, frames_view(old(stack)@),
            consts_view(consts@), imports_view(imports@), fuel as nat).1,
        frames_view(final(stack)@) == spec_parse_function(bytes@, *old(index) as int, frames_view(old(stack)@),
            consts_view(consts@), imports_view(imports@), fuel as nat).2,
        *old(index) <= *final(index) <= bytes@.len() + 1,
    decreases fuel, rest(bytes@, *old(index) as int), 0nat,
{
    proof {
        reveal_with_fuel(spec_parse_function, 1);
        reveal_with_fuel(spec_scope_loop, 1);
    }
    let ret_type = parse_type(bytes.as_slice(), index)?;
    let name = parse_bytecode_string(bytes.as_slice(), index)?;
    let (arg_types, arg_names) = parse_fn_args(bytes, index)?;
    let scope = parse_scope_from(bytes, stack, index, imports, consts, fuel)?;
    Ok(Function { name, ret_type, arg_types, arg_names, scope })
}


/// Decodes the head of an if or else-if block at `index` (at its kind byte):
/// the left constant's name, the condition byte and the right constant's
/// name; leaves `index` after the `0xFE` that follows them.
fn parse_cond_header(bytes: &Vec<u8>, index: &mut usize) -> (res: Result<(String, u8, String), ParseError>)
    requires
        *old(index) < bytes@.len(),
        bytes@.len() < usize::MAX,
    ensures
        result_view(res, |h: (String, u8, String)| (h.0@, h.1, h.2@)) == cond_header(bytes@, *old(index) as int).0,
        *final(index) == cond_header(bytes@, *old(index) as int).1,
        *old(index) < *final(index) <= bytes@.len() + 1,
{
    proof {
        reveal_with_fuel(cond_header, 1);
    }
    *index = *index + 1;
    let left = parse_bytecode_string(bytes.as_slice(), index)?;
    if *index >= bytes.len() {
        return Err(ParseError::UnexpectedEnd { at: *index });
    }
    let c = bytes[*index];
    *index = *index + 1;
    let right = parse_bytecode_string(bytes.as_slice(), index)?;
    skip_byte(bytes, index);
    Ok((left, c, right))
}

/// Evaluates conditional blocks at `index` (after an `0xF7`): the scope of the
/// first block whose condition holds, or `None` at an end block (`0x03`);
/// `index` is left after the whole conditional. Blocks not taken are skipped
/// with the `0xF7` that follows each.
#[verifier::spinoff_prover]
#[verifier::rlimit(50)]
pub(crate) fn eval_conditional_from(
    bytes: &Vec<u8>,
    stack: &mut Vec<Frame>,
    index: &mut usize,
    imports: &Vec<(String, Vec<u8>)>,
    consts: &Vec<(String, i32)>,
    fuel: usize,
) -> (res: Result<Option<Scope>, ParseError>)
    requires
        *old(index) <= bytes@.len() + 1,
        bytes@.len() < usize::MAX,
        imports_ok(imports@),
    ensures
        result_view(res, |o: Option<Scope>| match o {
            Some(s) => Some(scope_view(s)),
            None => None::<ScopeV>,
        }) == spec_cond_loop(bytes@, *old(index) as int, frames_view(old(stack)@), consts_view(consts@),
            imports_view(imports@), fuel as nat).0,
        *final(index) == spec_cond_loop(bytes@, *old(index) as int, frames_view(old(stack)@),
            consts_view(consts@), imports_view(imports@), fuel as nat).1,
        frames_view(final(stack)@) == spec_cond_loop(bytes@, *old(index) as int, frames_view(old(stack)@),
            consts_view(consts@), imports_view(imports@), fuel as nat).2,
        *old(index) <= *final(index) <= bytes@.len() + 1,
    decreases fuel, rest(bytes@, *old(index) as int), 0nat,
{
    proof {
        reveal_with_fuel(spec_cond_loop, 1);
        reveal_with_fuel(spec_scope_loop, 1);
        reveal_with_fuel(spec_skip_loop, 1);
        reveal_with_fuel(spec_cond_if, 1);
    }
    let ghost cv = consts_view(consts@);
    let ghost iv = imports_view(imports@);
    let ghost start = *index as int;
    let ghost st0 = frames_view(stack@);
    while *index < bytes.len()
        invariant
            start == *old(index) as int,
            st0 == frames_view(old(stack)@),
            st0 == frames_view(stack@),
            cv == consts_view(consts@),
            iv == imports_view(imports@),
            start <= *index <= bytes@.len() + 1,
            bytes@.len() < usize::MAX,
            imports_ok(imports@),
            spec_cond_loop(bytes@, start, st0, cv, iv, fuel as nat)
                == spec_cond_loop(bytes@, *index as int, st0, cv, iv, fuel as nat),
        decreases bytes@.len() + 1 - *index,
    {
        let b = bytes[*index];
        let here = *index;
        let ghost i = *index as int;
        proof {
            reveal_with_fuel(spec_cond_loop, 1);
            reveal_with_fuel(spec_scope_loop, 1);
            reveal_with_fuel(spec_skip_loop, 1);
            reveal_with_fuel(spec_cond_if, 1);
        }
        if b == 0x00 || b == 0x01 {
            proof {
                reveal_with_fuel(spec_cond_if, 1);
                reveal_with_fuel(spec_scope_loop, 1);
                reveal_with_fuel(spec_skip_loop, 1);
            }
            let (left, c, right) = parse_cond_header(bytes, index)?;
            let l = get_const(consts, left)?;
            let r = get_const(consts, right)?;
            if c > 5 {
                return Err(ParseError::UnknownCondition(c));
            }
            if holds_exec(c, l, r) {
                let sc = parse_scope_from(bytes, stack, index, imports, consts, fuel)?;
                if *index <= here {
                    return Err(ParseError::TooLarge);
                }
                skip_cond_rest(bytes, index, imports, fuel);
                return Ok(Some(sc));
            } else {
                skip_scope_from(bytes, index, imports, fuel);
                skip_byte(bytes, index);
            }
        } else if b == 0x02 {
            *index = *index + 2;
            let sc = parse_scope_from(bytes, stack, index, imports, consts, fuel)?;
            if *index <= here {
                return Err(ParseError::TooLarge);
            }
            skip_cond_rest(bytes, index, imports, fuel);
            return Ok(Some(sc));
        } else if b == 0x03 {
            *index = *index + 1;
            return Ok(None);
        } else {
            return Err(ParseError::UnknownConditionalBlock(b));
        }
    }
    Ok(None)
}

/// How `spec_cond_rest` goes on after a block it skips.
proof fn lemma_cond_rest_step(bytes: Seq<u8>, i: int, imports: Seq<(Seq<char>, Seq<u8>)>, fuel: nat, j: int, e: int)
    requires
        0 <= i,
        i + 1 < bytes.len(),
        bytes[i] == 0xF7,
        bytes[i + 1] == 0x00 || bytes[i + 1] == 0x01 || bytes[i + 1] == 0x02,
        j == if bytes[i + 1] == 0x02 { i + 3 } else { cond_header(bytes, i + 1).1 },
        bytes[i + 1] == 0x02 || cond_header(bytes, i + 1).0 is Ok,
        i < j,
        e == spec_skip_loop(bytes, j, imports, fuel),
        i < e,
    ensures
        spec_cond_rest(bytes, i, imports, fuel) == spec_cond_rest(bytes, e, imports, fuel),
{
    reveal_with_fuel(spec_cond_rest, 1);
    reveal_with_fuel(spec_skip_loop, 1);
}

/// Steps over the rest of a conditional at `index` (after the `0xFD` of a
/// block that was taken), as `spec_cond_rest` says.
fn skip_cond_rest(bytes: &Vec<u8>, index: &mut usize, imports: &Vec<(String, Vec<u8>)>, fuel: usize)
    requires
        *old(index) <= bytes@.len() + 1,
        bytes@.len() < usize::MAX,
        imports_ok(imports@),
    ensures
        *final(index) == spec_cond_rest(bytes@, *old(index) as int, imports_view(imports@), fuel as nat),
        *old(index) <= *final(index) <= bytes@.len() + 1,
    decreases fuel, rest(bytes@, *old(index) as int), 3nat,
{
    proof {
        reveal_with_fuel(spec_cond_rest, 1);
    }
    let i = *index;
    if i >= bytes.len() || i + 1 >= bytes.len() || bytes[i] != 0xF7 {
        return;
    }
    let b = bytes[i + 1];
    if b == 0x03 {
        *index = i + 2;
    } else if b == 0x00 || b == 0x01 || b == 0x02 {
        if b == 0x02 {
            *index = i + 3;
        } else {
            *index = i + 1;
            if parse_cond_header(bytes, index).is_err() {
                return;
            }
        }
        if *index <= i {
            return;
        }
        let ghost j = *index as int;
        skip_scope_from(bytes, index, imports, fuel);
        if *index <= i {
            return;
        }
        proof {
            lemma_cond_rest_step(bytes@, i as int, imports_view(imports@), fuel as nat, j, *index as int);
        }
        skip_cond_rest(bytes, index, imports, fuel);
    }
}

/// Skips an import at `index` (after its `0xFA`): steps over the file name.
pub fn skip_import(bytes: &Vec<u8>, index: &mut usize)
    ensures
        *final(index) == spec_bytecode_string(bytes@, *old(index) as int).1,
        *old(index) <= *final(index),
        *final(index) <= bytes@.len() || *final(index) == *old(index),
{
    let _ = parse_bytecode_string(bytes.as_slice(), index);
}

/// Where `spec_skip_loop` goes from an item inside the bytecode.
proof fn lemma_skip_loop_unfold(bytes: Seq<u8>, i: int, imports: Seq<(Seq<char>, Seq<u8>)>, fuel: nat)
    requires
        0 <= i < bytes.len(),
    ensures
        ({
            let e = spec_skip_item(bytes, i, imports, fuel);
            spec_skip_loop(bytes, i, imports, fuel) == if bytes[i] == 0xFD || bytes[i] == 0xFC {
                e
            } else if i < e {
                spec_skip_loop(bytes, e, imports, fuel)
            } else {
                e
            }
        }),
{
    reveal_with_fuel(spec_skip_loop, 1);
    reveal_with_fuel(spec_skip_item, 1);
}

/// Skips the body of a scope at `index`, leaving `index` after its `0xFD`, at
/// the data section or at the end. Everything in it is decoded and thrown
/// away; an error only ends the item being skipped.
pub(crate) fn skip_scope_from(bytes: &Vec<u8>, index: &mut usize, imports: &Vec<(String, Vec<u8>)>, fuel: usize)
    requires
        *old(index) <= bytes@.len() + 1,
        bytes@.len() < usize::MAX,
        imports_ok(imports@),
    ensures
        *final(index) == spec_skip_loop(bytes@, *old(index) as int, imports_view(imports@), fuel as nat),
        *old(index) <= *final(index) <= bytes@.len() + 1,
    decreases fuel, rest(bytes@, *old(index) as int), 0nat,
{
    proof {
        reveal_with_fuel(spec_skip_loop, 1);
        reveal_with_fuel(spec_parse_function, 1);
        reveal_with_fuel(spec_cond_loop, 1);
        reveal_with_fuel(spec_skip_item, 1);
    }
    let ghost iv = imports_view(imports@);
    let ghost start = *index as int;
    while *index < bytes.len()
        invariant
            start == *old(index) as int,
            iv == imports_view(imports@),
            start <= *index <= bytes@.len() + 1,
            bytes@.len() < usize::MAX,
            imports_ok(imports@),
            spec_skip_loop(bytes@, start, iv, fuel as nat) == spec_skip_loop(bytes@, *index as int, iv, fuel as nat),
        decreases bytes@.len() + 1 - *index,
    {
        let b = bytes[*index];
        let ghost i = *index as int;
        proof {
            lemma_skip_loop_unfold(bytes@, i, iv, fuel as nat);
            reveal_with_fuel(spec_skip_loop, 1);
            reveal_with_fuel(spec_skip_item, 1);
            reveal_with_fuel(spec_parse_function, 1);
            reveal_with_fuel(spec_cond_loop, 1);
        }
        if b == 0xFF {
            *index = *index + 1;
            let mut stack: Vec<Frame> = Vec::new();
            let consts: Vec<(String, i32)> = Vec::new();
            proof {
                assert(frames_view(stack@) =~= Seq::<FrameV>::empty());
                assert(consts_view(consts@) =~= Seq::<(Seq<char>, i32)>::empty());
            }
            let _ = parse_function(bytes, &mut stack, index, imports, &consts, fuel);
        } else if b == 0xFE {
            *index = *index + 1;
            skip_scope_from(bytes, index, imports, fuel);
        } else if b == 0xFD {
            *index = *index + 1;
            return;
        } else if b == 0xFC {
            return;
        } else if b == 0xFB {
            *index = *index + 1;
            let _ = parse_struct(bytes, index);
        } else if b == 0xFA {
            *index = *index + 1;
            skip_import(bytes, index);
        } else if b == 0xF9 {
            *index = *index + 1;
            let _ = parse_extern(bytes, index);
        } else if b == 0xF7 {
            *index = *index + 1;
            let mut stack: Vec<Frame> = Vec::new();
            let consts: Vec<(String, i32)> = Vec::new();
            proof {
                assert(frames_view(stack@) =~= Seq::<FrameV>::empty());
                assert(consts_view(consts@) =~= Seq::<(Seq<char>, i32)>::empty());
            }
            let _ = eval_conditional_from(bytes, &mut stack, index, imports, &consts, fuel);
        } else if b == 0xF6 {
            *index = *index + 1;
            let _ = parse_bytecode_string(bytes.as_slice(), index);
            skip_byte(bytes, index);
            skip_scope_from(bytes, index, imports, fuel);
        } else {
            let _ = parse_instruction(bytes, index);
        }
        assert(spec_skip_item(bytes@, i, iv, fuel as nat) == *index as int);
    }
}

/// Imports at `index` (after an `0xFA`): the program the file name names is
/// decoded with one level of imports less, and its scope is merged into
/// `scope`. `index` is left after the file name.
fn parse_import(
    bytes: &Vec<u8>,
    stack: &mut Vec<Frame>,
    scope: &mut Scope,
    index: &mut usize,
    imports: &Vec<(String, Vec<u8>)>,
    consts: &Vec<(String, i32)>,
    fuel: usize,
) -> (res: Result<(), ParseError>)
    requires
        *old(index) <= bytes@.len() + 1,
        bytes@.len() < usize::MAX,
        imports_ok(imports@),
        starts_wf(scope_view(*old(scope))),
    ensures
        ({
            let sp = spec_parse_import(bytes@, *old(index) as int, scope_view(*old(scope)), frames_view(old(stack)@),
                consts_view(consts@), imports_view(imports@), fuel as nat);
            &&& match res {
                Ok(_) => sp.0 == Ok::<ScopeV, ParseErrorV>(scope_view(*final(scope))),
                Err(e) => sp.0 == Err::<ScopeV, ParseErrorV>(e@),
            }
            &&& *final(index) == sp.1
            &&& frames_view(final(stack)@) == sp.2
        }),
        res is Ok ==> starts_wf(scope_view(*final(scope))),
        res is Err ==> *final(scope) == *old(scope),
        *old(index) <= *final(index) <= bytes@.len() + 1,
    decreases fuel, rest(bytes@, *old(index) as int), 0nat,
{
    proof {
        reveal_with_fuel(spec_parse_import, 1);
        reveal_with_fuel(spec_parse_program, 1);
    }
    let import = parse_bytecode_string(bytes.as_slice(), index)?;
    proof {
        lemma_kfind(imports@, |b: Vec<u8>| bytes_of(b), import@);
        lemma_find_key(imports@, import@);
    }
    let program = match get_name(imports, &import) {
        Some(p) => p,
        None => {
            return Err(ParseError::ImportMissing(import));
        },
    };
    if fuel == 0 {
        return Err(ParseError::ImportTooDeep(import));
    }
    let mut new_scope = Scope::new();
    match parse_program(program, stack, &mut new_scope, imports, consts, fuel - 1) {
        Ok(()) => {},
        Err(e) => {
            return Err(e);
        },
    }
    if !merge_fits(scope, &new_scope) {
        return Err(ParseError::TooLarge);
    }
    merge_scopes(scope, new_scope);
    Ok(())
}

/// Decodes a whole program: its scope into `scope`, then a new global frame
/// on `stack` that its data section fills.
pub fn parse_program(
    program: &Vec<u8>,
    stack: &mut Vec<Frame>,
    scope: &mut Scope,
    imports: &Vec<(String, Vec<u8>)>,
    consts: &Vec<(String, i32)>,
    fuel: usize,
) -> (res: Result<(), ParseError>)
    requires
        program@.len() < usize::MAX,
        imports_ok(imports@),
    ensures
        ({
            let sp = spec_parse_program(program@, frames_view(old(stack)@), consts_view(consts@),
                imports_view(imports@), fuel as nat);
            &&& match res {
                Ok(_) => sp.0 is Ok,
                Err(e) => sp.0 == Err::<ScopeV, ParseErrorV>(e@),
            }
            &&& match sp.1 {
                Some(v) => scope_view(*final(scope)) == v && starts_wf(v),
                None => *final(scope) == *old(scope),
            }
            &&& frames_view(final(stack)@) == sp.2
        }),
    decreases fuel, program@.len() + 1, 0nat,
{
    proof {
        reveal_with_fuel(spec_parse_program, 1);
        reveal_with_fuel(spec_scope_loop, 1);
    }
    let mut index: usize = 0;
    let s = parse_scope_from(program, stack, &mut index, imports, consts, fuel)?;
    *scope = s;
    let global_frame = stack.len();
    let ghost before = stack@;
    stack.push(Frame::new());
    proof {
        assert(frames_view(stack@) =~= frames_view(before).push(empty_frame()));
    }
    parse_data_section(program, stack, &mut index, global_frame)?;
    Ok(())
}


/// The width of the value of a numeric base type byte `0x01..=0x0B`.
fn value_width(code: u8) -> (w: usize)
    requires
        1 <= code <= 0x0B,
    ensures
        w as nat == imm_width(code),
        w == 1 || w == 2 || w == 4 || w == 8,
{
    if code == 1 || code == 5 {
        1
    } else if code == 2 || code == 6 || code == 0x09 {
        2
    } else if code == 3 || code == 7 || code == 0x0A {
        4
    } else {
        8
    }
}

/// Reads the big-endian value of numeric base type byte `code` at `start`.
fn read_value(bytes: &[u8], start: usize, code: u8) -> (v: Values)
    requires
        1 <= code <= 0x0B,
        start + imm_width(code) <= bytes@.len(),
    ensures
        v@ == imm_value(code, bytes@.subrange(start as int, start + imm_width(code))),
{
    let w = value_width(code);
    let x = read_be(bytes, start, w);
    proof {
        reveal_with_fuel(pow256, 9);
        lemma_be_value_bound(bytes@.subrange(start as int, start + w));
    }
    let val = if code <= 4 {
        Values::SIGNED(sign_extend(x, w))
    } else if code <= 8 {
        Values::UNSIGNED(x)
    } else if code == 0x09 {
        Values::DECIMAL(f16_bits_to_f64(x as u16))
    } else if code == 0x0A {
        Values::DECIMAL(f32_bits_to_f64(x as u32))
    } else {
        Values::DECIMAL(x)
    };
    proof {
        let sv = bytes@.subrange(start as int, start + w);
        if code == 0x09 {
            assert(be_value(sv) < 0x1_0000);
        }
        if code == 0x0A {
            assert(be_value(sv) < 0x1_0000_0000);
        }
    }
    val
}

/// Decodes the data section of a program from `index`: after the next `0xFC`
/// come entries, each a name, a pointer type and a dynamic number of
/// elements; the name becomes a variable of frame `global_frame` that points
/// just past its own slot, and the elements are pushed after it.
fn parse_data_section(bytes: &Vec<u8>, stack: &mut Vec<Frame>, index: &mut usize, global_frame: usize) -> (res: Result<(), ParseError>)
    requires
        global_frame < old(stack)@.len(),
    ensures
        result_view(res, |u: ()| u) == spec_data_section(bytes@, *old(index) as int, frames_view(old(stack)@),
            global_frame as int).0,
        frames_view(final(stack)@) == spec_data_section(bytes@, *old(index) as int, frames_view(old(stack)@),
            global_frame as int).1,
        *final(index) == spec_data_section(bytes@, *old(index) as int, frames_view(old(stack)@),
            global_frame as int).2,
{
    proof {
        reveal_with_fuel(spec_data_section, 1);
        reveal_with_fuel(spec_data_entries, 1);
    }
    if *index == bytes.len() {
        return Ok(());
    }
    let ghost start = *index as int;
    while *index < bytes.len() && bytes[*index] != 0xFC
        invariant
            start == *old(index) as int,
            start <= *index,
            start < bytes@.len() ==> *index <= bytes@.len(),
            start >= bytes@.len() ==> *index == start,
            find_fc(bytes@, start) == find_fc(bytes@, *index as int),
        decreases bytes@.len() - *index,
    {
        *index = *index + 1;
    }
    if *index >= bytes.len() {
        return Err(ParseError::UnexpectedEnd { at: *index });
    }
    *index = *index + 1;
    let gf = global_frame;
    let ghost st0 = frames_view(stack@);
    while *index < bytes.len()
        invariant
            gf == global_frame,
            start == *old(index) as int,
            gf < stack@.len(),
            spec_data_section(bytes@, start, st0, gf as int)
                == spec_data_entries(bytes@, *index as int, frames_view(stack@), gf as int),
            st0 == frames_view(old(stack)@),
            *index <= bytes@.len(),
        decreases bytes@.len() - *index,
    {
        proof {
            reveal_with_fuel(spec_data_entries, 1);
        }
        let ghost i = *index as int;
        let name = parse_bytecode_string(bytes.as_slice(), index)?;
        let typ = parse_type(bytes.as_slice(), index)?;
        let len = match parse_dyn_number(bytes.as_slice(), index) {
            Ok(n) => n,
            Err(e) => {
                return Err(e);
            },
        };
        let slot = stack[gf].stack.len();
        if slot == usize::MAX {
            return Err(ParseError::TooLarge);
        }
        let ghost before = stack@;
        stack[gf].push_var(&name, typ.clone(), Values::POINTER(slot + 1, len));
        proof {
            assert(frames_view(stack@) =~= frames_view(before).update(gf as int,
                declare_var(frames_view(before)[gf as int], name@, (typ@, ValuesV::POINTER((slot + 1) as usize, len)))));
        }
        let is_pointer = match typ.typ[0] {
            Types::POINTER => true,
            _ => false,
        };
        if !is_pointer {
            return Err(ParseError::UnsupportedDataType(typ));
        }
        push_data_values(bytes, stack, index, gf, &typ, len)?;
    }
    Ok(())
}


/// Decodes the body of a scope at `index` (after its `0xFE`, or at the start
/// of a program), leaving `index` after its `0xFD`, at the data section or at
/// the end; from a position past the end it gives an empty scope. Nested
/// scopes, functions and modules get this scope as parent.
pub fn parse_scope(
    bytes: &Vec<u8>,
    stack: &mut Vec<Frame>,
    index: &mut usize,
    imports: &Vec<(String, Vec<u8>)>,
    consts: &Vec<(String, i32)>,
    fuel: usize,
) -> (res: Result<Scope, ParseError>)
    requires
        bytes@.len() < usize::MAX,
        imports_ok(imports@),
    ensures
        result_view(res, |s: Scope| scope_view(s)) == spec_scope_loop(bytes@, *old(index) as int, empty_scope_v(),
            frames_view(old(stack)@), consts_view(consts@), imports_view(imports@), fuel as nat).0,
        *final(index) == spec_scope_loop(bytes@, *old(index) as int, empty_scope_v(), frames_view(old(stack)@),
            consts_view(consts@), imports_view(imports@), fuel as nat).1,
        frames_view(final(stack)@) == spec_scope_loop(bytes@, *old(index) as int, empty_scope_v(), frames_view(old(stack)@),
            consts_view(consts@), imports_view(imports@), fuel as nat).2,
        *old(index) <= *final(index),
        res matches Ok(s) ==> starts_wf(scope_view(s)) && children_parented(s),
{
    if *index > bytes.len() {
        proof {
            reveal_with_fuel(spec_scope_loop, 1);
        }
        let e = Scope::new();
        proof {
            assert(starts_wf(scope_view(e)));
        }
        return Ok(finish_scope(e));
    }
    parse_scope_from(bytes, stack, index, imports, consts, fuel)
}

/// Evaluates conditional blocks at `index` (after an `0xF7`): the scope of the
/// first block whose condition holds, or `None` at an end block (`0x03`) or
/// past the end; `index` is left after the whole conditional.
pub fn eval_conditional(
    bytes: &Vec<u8>,
    stack: &mut Vec<Frame>,
    index: &mut usize,
    imports: &Vec<(String, Vec<u8>)>,
    consts: &Vec<(String, i32)>,
    fuel: usize,
) -> (res: Result<Option<Scope>, ParseError>)
    requires
        bytes@.len() < usize::MAX,
        imports_ok(imports@),
    ensures
        result_view(res, |o: Option<Scope>| match o {
            Some(s) => Some(scope_view(s)),
            None => None::<ScopeV>,
        }) == spec_cond_loop(bytes@, *old(index) as int, frames_view(old(stack)@), consts_view(consts@),
            imports_view(imports@), fuel as nat).0,
        *final(index) == spec_cond_loop(bytes@, *old(index) as int, frames_view(old(stack)@),
            consts_view(consts@), imports_view(imports@), fuel as nat).1,
        frames_view(final(stack)@) == spec_cond_loop(bytes@, *old(index) as int, frames_view(old(stack)@),
            consts_view(consts@), imports_view(imports@), fuel as nat).2,
        *old(index) <= *final(index),
{
    if *index > bytes.len() {
        proof {
            reveal_with_fuel(spec_cond_loop, 1);
        }
        return Ok(None);
    }
    eval_conditional_from(bytes, stack, index, imports, consts, fuel)
}

/// Skips the body of a scope at `index`, leaving `index` after its `0xFD`, at
/// the data section or at the end; a position past the end is left as it is.
pub fn skip_scope(bytes: &Vec<u8>, index: &mut usize, imports: &Vec<(String, Vec<u8>)>, fuel: usize)
    requires
        bytes@.len() < usize::MAX,
        imports_ok(imports@),
    ensures
        *final(index) == spec_skip_loop(bytes@, *old(index) as int, imports_view(imports@), fuel as nat),
        *old(index) <= *final(index),
{
    if *index > bytes.len() {
        proof {
            reveal_with_fuel(spec_skip_loop, 1);
        }
        return;
    }
    skip_scope_from(bytes, index, imports, fuel)
}

} // verus!
