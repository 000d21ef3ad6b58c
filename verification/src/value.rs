use vstd::prelude::*;
use crate::_type::{Type, Types, type_text};
use crate::text::{decimal, signed_decimal, push_decimal, push_signed_decimal};
use vstd::string::StringExecFns;
use crate::float::{f64_as_i64, f64_as_u64, f64_as_usize, f64_from_int, f64_to_i64, f64_to_u64,
    f64_to_usize, i64_to_f64, u64_to_f64, f64_eq, f64_lt, f64_less, f64_equal};

verus! {

/// A runtime value. Decimals are held by the bit pattern of an f64.
#[derive(Debug)]
pub enum Values {
    VOID,
    SIGNED(i64),
    UNSIGNED(u64),
    DECIMAL(u64),
    /// index and size
    POINTER(usize, usize),
    STRUCT(String, usize),
    TYPE(Type),
    NAME(String),
}

/// The mathematical content of a value.
pub enum ValuesV {
    VOID,
    SIGNED(i64),
    UNSIGNED(u64),
    DECIMAL(u64),
    POINTER(usize, usize),
    STRUCT(Seq<char>, usize),
    TYPE(Seq<Types>),
    NAME(Seq<char>),
}

impl View for Values {
    type V = ValuesV;

    open spec fn view(&self) -> ValuesV {
        match self {
            Values::VOID => ValuesV::VOID,
            Values::SIGNED(n) => ValuesV::SIGNED(*n),
            Values::UNSIGNED(n) => ValuesV::UNSIGNED(*n),
            Values::DECIMAL(n) => ValuesV::DECIMAL(*n),
            Values::POINTER(p, s) => ValuesV::POINTER(*p, *s),
            Values::STRUCT(n, i) => ValuesV::STRUCT(n@, *i),
            Values::TYPE(t) => ValuesV::TYPE(t@),
            Values::NAME(n) => ValuesV::NAME(n@),
        }
    }
}

impl Clone for Values {
    fn clone(&self) -> (res: Self)
        ensures
            res@ == self@,
    {
        match self {
            Values::VOID => Values::VOID,
            Values::SIGNED(n) => Values::SIGNED(*n),
            Values::UNSIGNED(n) => Values::UNSIGNED(*n),
            Values::DECIMAL(n) => Values::DECIMAL(*n),
            Values::POINTER(p, s) => Values::POINTER(*p, *s),
            Values::STRUCT(n, i) => Values::STRUCT(n.clone(), *i),
            Values::TYPE(t) => Values::TYPE(t.clone()),
            Values::NAME(n) => Values::NAME(n.clone()),
        }
    }
}

/// A typed runtime value.
#[derive(Debug)]
pub struct Value {
    pub typ: Type,
    pub val: Values,
}

impl View for Value {
    type V = (Seq<Types>, ValuesV);

    open spec fn view(&self) -> (Seq<Types>, ValuesV) {
        (self.typ@, self.val@)
    }
}

impl Clone for Value {
    fn clone(&self) -> (res: Self)
        ensures
            res@ == self@,
    {
        Value { typ: self.typ.clone(), val: self.val.clone() }
    }
}

impl Value {
    /// Stores `other` in this value's slot, converting it as `Values::set` does.
    pub fn set(&mut self, other: &Values)
        requires
            set_ok(old(self).val@, other@),
        ensures
            final(self).typ@ == old(self).typ@,
            final(self).val@ == set_v(old(self).val@, other@),
    {
        self.val.set(other);
    }
}

/// Whether a value is a number: signed, unsigned, decimal or a pointer.
pub open spec fn is_number(v: ValuesV) -> bool {
    v is SIGNED || v is UNSIGNED || v is DECIMAL || v is POINTER
}

/// A number converted to `i64` as `as i64` does.
pub open spec fn to_i64(v: ValuesV) -> i64 {
    match v {
        ValuesV::SIGNED(x) => x,
        ValuesV::UNSIGNED(x) => x as i64,
        ValuesV::DECIMAL(x) => f64_as_i64(x),
        ValuesV::POINTER(x, _) => x as i64,
        _ => 0,
    }
}

/// A number converted to `u64` as `as u64` does.
pub open spec fn to_u64(v: ValuesV) -> u64 {
    match v {
        ValuesV::SIGNED(x) => x as u64,
        ValuesV::UNSIGNED(x) => x,
        ValuesV::DECIMAL(x) => f64_as_u64(x),
        ValuesV::POINTER(x, _) => x as u64,
        _ => 0,
    }
}

/// A number converted to `usize` as `as usize` does.
pub open spec fn to_usize(v: ValuesV) -> usize {
    match v {
        ValuesV::SIGNED(x) => x as usize,
        ValuesV::UNSIGNED(x) => x as usize,
        ValuesV::DECIMAL(x) => f64_as_usize(x),
        ValuesV::POINTER(x, _) => x,
        _ => 0,
    }
}

/// A number converted to an f64 (its bit pattern) as `as f64` does.
pub open spec fn to_f64(v: ValuesV) -> u64 {
    match v {
        ValuesV::SIGNED(x) => f64_from_int(x as int),
        ValuesV::UNSIGNED(x) => f64_from_int(x as int),
        ValuesV::DECIMAL(x) => x,
        ValuesV::POINTER(x, _) => f64_from_int(x as int),
        _ => 0,
    }
}

pub(crate) fn num_to_i64(v: &Values) -> (r: i64)
    requires
        is_number(v@),
    ensures
        r == to_i64(v@),
{
    match v {
        Values::SIGNED(x) => *x,
        Values::UNSIGNED(x) => *x as i64,
        Values::DECIMAL(x) => f64_to_i64(*x),
        Values::POINTER(x, _) => *x as i64,
        _ => 0,
    }
}

pub(crate) fn num_to_u64(v: &Values) -> (r: u64)
    requires
        is_number(v@),
    ensures
        r == to_u64(v@),
{
    match v {
        Values::SIGNED(x) => *x as u64,
        Values::UNSIGNED(x) => *x,
        Values::DECIMAL(x) => f64_to_u64(*x),
        Values::POINTER(x, _) => *x as u64,
        _ => 0,
    }
}

pub(crate) fn num_to_usize(v: &Values) -> (r: usize)
    requires
        is_number(v@),
    ensures
        r == to_usize(v@),
{
    match v {
        Values::SIGNED(x) => *x as usize,
        Values::UNSIGNED(x) => *x as usize,
        Values::DECIMAL(x) => f64_to_usize(*x),
        Values::POINTER(x, _) => *x,
        _ => 0,
    }
}

pub(crate) fn num_to_f64(v: &Values) -> (r: u64)
    requires
        is_number(v@),
    ensures
        r == to_f64(v@),
{
    match v {
        Values::SIGNED(x) => i64_to_f64(*x),
        Values::UNSIGNED(x) => u64_to_f64(*x),
        Values::DECIMAL(x) => *x,
        Values::POINTER(x, _) => u64_to_f64(*x as u64),
        _ => 0,
    }
}

/// Whether `set` accepts storing `b` in a slot holding `a`.
pub open spec fn set_ok(a: ValuesV, b: ValuesV) -> bool {
    match a {
        ValuesV::VOID => true,
        ValuesV::SIGNED(_) | ValuesV::UNSIGNED(_) | ValuesV::DECIMAL(_) => b is VOID || is_number(b),
        ValuesV::POINTER(_, _) => b is VOID || is_number(b) || b is STRUCT,
        ValuesV::STRUCT(_, _) => b is STRUCT,
        ValuesV::TYPE(_) => b is TYPE,
        ValuesV::NAME(_) => b is VOID || b is NAME,
    }
}

/// What a slot holding `a` holds after `b` is stored in it: `b` converted to
/// the slot's kind, void as zero (or the empty name); a pointer takes the
/// other pointer's size, or a struct's position; a void slot stays void.
pub open spec fn set_v(a: ValuesV, b: ValuesV) -> ValuesV {
    match a {
        ValuesV::VOID => ValuesV::VOID,
        ValuesV::SIGNED(_) => ValuesV::SIGNED(if b is VOID { 0 } else { to_i64(b) }),
        ValuesV::UNSIGNED(_) => ValuesV::UNSIGNED(if b is VOID { 0 } else { to_u64(b) }),
        ValuesV::DECIMAL(_) => ValuesV::DECIMAL(if b is VOID { 0 } else { to_f64(b) }),
        ValuesV::POINTER(p, s) => match b {
            ValuesV::VOID => ValuesV::POINTER(0, s),
            ValuesV::POINTER(v, o) => ValuesV::POINTER(v, o),
            ValuesV::STRUCT(_, v) => ValuesV::POINTER(v, s),
            _ => ValuesV::POINTER(to_usize(b), s),
        },
        ValuesV::STRUCT(_, _) => b,
        ValuesV::TYPE(_) => b,
        ValuesV::NAME(_) => if b is VOID { ValuesV::NAME(Seq::empty()) } else { b },
    }
}

impl Values {
    /// Stores `other` in this value, converted to this value's kind (see `set_v`).
    pub fn set(&mut self, other: &Values)
        requires
            set_ok(old(self)@, other@),
        ensures
            final(self)@ == set_v(old(self)@, other@),
    {
        let r = match (&*self, other) {
            (Values::VOID, _) => Values::VOID,
            (Values::SIGNED(_), Values::VOID) => Values::SIGNED(0),
            (Values::SIGNED(_), _) => Values::SIGNED(num_to_i64(other)),
            (Values::UNSIGNED(_), Values::VOID) => Values::UNSIGNED(0),
            (Values::UNSIGNED(_), _) => Values::UNSIGNED(num_to_u64(other)),
            (Values::DECIMAL(_), Values::VOID) => Values::DECIMAL(0),
            (Values::DECIMAL(_), _) => Values::DECIMAL(num_to_f64(other)),
            (Values::POINTER(_, s), Values::VOID) => Values::POINTER(0, *s),
            (Values::POINTER(_, _), Values::POINTER(v, o)) => Values::POINTER(*v, *o),
            (Values::POINTER(_, s), Values::STRUCT(_, v)) => Values::POINTER(*v, *s),
            (Values::POINTER(_, s), _) => Values::POINTER(num_to_usize(other), *s),
            (Values::STRUCT(_, _), _) => other.clone(),
            (Values::TYPE(_), _) => other.clone(),
            (Values::NAME(_), Values::VOID) => Values::NAME(String::new()),
            (Values::NAME(_), _) => other.clone(),
        };
        *self = r;
    }
}

/// The arithmetic operations of values.
#[derive(Debug, Clone, Copy, PartialEq, Eq, Structural)]
pub enum MathOp {
    Add,
    Sub,
    Mul,
    Div,
    Rem,
}

/// `|a|`.
pub open spec fn abs(a: int) -> int {
    if a < 0 { -a } else { a }
}

/// Division rounding toward zero, as Rust's `/` on integers.
pub open spec fn trunc_div(a: int, b: int) -> int {
    let q = abs(a) / abs(b);
    if (a < 0) != (b < 0) { -q } else { q }
}

/// The remainder of `trunc_div`, with the sign of `a`, as Rust's `%`.
pub open spec fn trunc_rem(a: int, b: int) -> int {
    let r = abs(a) % abs(b);
    if a < 0 { -r } else { r }
}

/// An operation on mathematical integers.
pub open spec fn int_op(op: MathOp, a: int, b: int) -> int {
    match op {
        MathOp::Add => a + b,
        MathOp::Sub => a - b,
        MathOp::Mul => a * b,
        MathOp::Div => trunc_div(a, b),
        MathOp::Rem => trunc_rem(a, b),
    }
}

/// Whether an operation on a type with range `lo..=hi` neither divides by
/// zero nor overflows (for `%`, the quotient must fit too).
pub open spec fn op_fits(op: MathOp, a: int, b: int, lo: int, hi: int) -> bool {
    match op {
        MathOp::Div | MathOp::Rem => b != 0 && lo <= trunc_div(a, b) <= hi,
        _ => lo <= int_op(op, a, b) <= hi,
    }
}

/// The result of an arithmetic operation on values. A decimal left operand
/// makes a float operation on two f64 bit patterns, the right operand already
/// converted, which is left to the caller.
pub enum Arith {
    Done(Values),
    Float(MathOp, u64, u64),
}

pub enum ArithV {
    Done(ValuesV),
    Float(MathOp, u64, u64),
}

impl View for Arith {
    type V = ArithV;

    open spec fn view(&self) -> ArithV {
        match self {
            Arith::Done(v) => ArithV::Done(v@),
            Arith::Float(op, a, b) => ArithV::Float(*op, *a, *b),
        }
    }
}

/// Whether `a op b` is defined: a number (or void) on the left, void or a
/// number on the right, and no division by zero or overflow in the type of
/// the left operand.
pub open spec fn math_ok(op: MathOp, a: ValuesV, b: ValuesV) -> bool {
    match a {
        ValuesV::VOID => true,
        ValuesV::SIGNED(s) => b is VOID || (is_number(b)
            && op_fits(op, s as int, to_i64(b) as int, i64::MIN as int, i64::MAX as int)),
        ValuesV::UNSIGNED(s) => b is VOID || (is_number(b)
            && op_fits(op, s as int, to_u64(b) as int, 0, u64::MAX as int)),
        ValuesV::DECIMAL(_) => b is VOID || is_number(b),
        ValuesV::POINTER(p, _) => b is VOID || (is_number(b)
            && op_fits(op, p as int, to_usize(b) as int, 0, usize::MAX as int)),
        _ => false,
    }
}

/// `a op b`: void on the left gives void, void on the right gives the left
/// operand; otherwise the right operand is converted to the kind of the left
/// one and the operation is done in that kind (a pointer keeps its size).
pub open spec fn math_v(op: MathOp, a: ValuesV, b: ValuesV) -> ArithV {
    match a {
        ValuesV::SIGNED(s) => if b is VOID {
            ArithV::Done(a)
        } else {
            ArithV::Done(ValuesV::SIGNED(int_op(op, s as int, to_i64(b) as int) as i64))
        },
        ValuesV::UNSIGNED(s) => if b is VOID {
            ArithV::Done(a)
        } else {
            ArithV::Done(ValuesV::UNSIGNED(int_op(op, s as int, to_u64(b) as int) as u64))
        },
        ValuesV::DECIMAL(s) => if b is VOID { ArithV::Done(a) } else { ArithV::Float(op, s, to_f64(b)) },
        ValuesV::POINTER(p, z) => if b is VOID {
            ArithV::Done(a)
        } else {
            ArithV::Done(ValuesV::POINTER(int_op(op, p as int, to_usize(b) as int) as usize, z))
        },
        _ => ArithV::Done(ValuesV::VOID),
    }
}

fn magnitude(a: i64) -> (r: u64)
    ensures
        r as int == abs(a as int),
{
    if a < 0 {
        ((-(a + 1)) as u64) + 1
    } else {
        a as u64
    }
}

fn i64_op(op: MathOp, a: i64, b: i64) -> (r: i64)
    requires
        op_fits(op, a as int, b as int, i64::MIN as int, i64::MAX as int),
    ensures
        r as int == int_op(op, a as int, b as int),
{
    match op {
        MathOp::Add => a + b,
        MathOp::Sub => a - b,
        MathOp::Mul => a * b,
        MathOp::Div => {
            let q: u64 = magnitude(a) / magnitude(b);
            if (a < 0) != (b < 0) {
                if q == 0x8000_0000_0000_0000 { i64::MIN } else { -(q as i64) }
            } else {
                q as i64
            }
        },
        MathOp::Rem => {
            let m: u64 = magnitude(a) % magnitude(b);
            if a < 0 { -(m as i64) } else { m as i64 }
        },
    }
}

fn u64_op(op: MathOp, a: u64, b: u64) -> (r: u64)
    requires
        op_fits(op, a as int, b as int, 0, u64::MAX as int),
    ensures
        r as int == int_op(op, a as int, b as int),
{
    match op {
        MathOp::Add => a + b,
        MathOp::Sub => a - b,
        MathOp::Mul => a * b,
        MathOp::Div => a / b,
        MathOp::Rem => a % b,
    }
}

fn usize_op(op: MathOp, a: usize, b: usize) -> (r: usize)
    requires
        op_fits(op, a as int, b as int, 0, usize::MAX as int),
    ensures
        r as int == int_op(op, a as int, b as int),
{
    match op {
        MathOp::Add => a + b,
        MathOp::Sub => a - b,
        MathOp::Mul => a * b,
        MathOp::Div => a / b,
        MathOp::Rem => a % b,
    }
}

/// The bitwise operations of values.
#[derive(Debug, Clone, Copy, PartialEq, Eq, Structural)]
pub enum BitOp {
    And,
    Or,
    Xor,
    Lsh,
    Rsh,
}

/// A number's bits read as `i64` (a decimal by its bit pattern).
pub open spec fn bits_i64(v: ValuesV) -> i64 {
    match v {
        ValuesV::SIGNED(x) => x,
        ValuesV::UNSIGNED(x) => x as i64,
        ValuesV::DECIMAL(x) => x as i64,
        ValuesV::POINTER(x, _) => x as i64,
        _ => 0,
    }
}

/// A number's bits read as `u64` (a decimal by its bit pattern).
pub open spec fn bits_u64(v: ValuesV) -> u64 {
    match v {
        ValuesV::SIGNED(x) => x as u64,
        ValuesV::UNSIGNED(x) => x,
        ValuesV::DECIMAL(x) => x,
        ValuesV::POINTER(x, _) => x as u64,
        _ => 0,
    }
}

/// A number's bits read as `usize` (a decimal by its bit pattern).
pub open spec fn bits_usize(v: ValuesV) -> usize {
    match v {
        ValuesV::SIGNED(x) => x as usize,
        ValuesV::UNSIGNED(x) => x as usize,
        ValuesV::DECIMAL(x) => x as usize,
        ValuesV::POINTER(x, _) => x,
        _ => 0,
    }
}

/// A shift by `n` in a type of `w` bits does not overflow.
pub open spec fn shift_ok(op: BitOp, n: int, w: int) -> bool {
    (op == BitOp::Lsh || op == BitOp::Rsh) ==> 0 <= n < w
}

pub open spec fn i64_bit(op: BitOp, a: i64, b: i64) -> i64 {
    match op {
        BitOp::And => a & b,
        BitOp::Or => a | b,
        BitOp::Xor => a ^ b,
        BitOp::Lsh => a << (b as u32),
        BitOp::Rsh => a >> (b as u32),
    }
}

pub open spec fn u64_bit(op: BitOp, a: u64, b: u64) -> u64 {
    match op {
        BitOp::And => a & b,
        BitOp::Or => a | b,
        BitOp::Xor => a ^ b,
        BitOp::Lsh => a << (b as u32),
        BitOp::Rsh => a >> (b as u32),
    }
}

pub open spec fn usize_bit(op: BitOp, a: usize, b: usize) -> usize {
    match op {
        BitOp::And => a & b,
        BitOp::Or => a | b,
        BitOp::Xor => a ^ b,
        BitOp::Lsh => a << (b as u32),
        BitOp::Rsh => a >> (b as u32),
    }
}

/// Whether `a op b` is defined for a bitwise operation: a number (or void) on
/// the left, void or a number on the right, and a shift by less than the
/// width of the left operand.
pub open spec fn bit_ok(op: BitOp, a: ValuesV, b: ValuesV) -> bool {
    match a {
        ValuesV::VOID => true,
        ValuesV::SIGNED(_) => b is VOID || (is_number(b) && shift_ok(op, bits_i64(b) as int, 64)),
        ValuesV::UNSIGNED(_) | ValuesV::DECIMAL(_) => b is VOID || (is_number(b) && shift_ok(op, bits_u64(b) as int, 64)),
        ValuesV::POINTER(_, _) => b is VOID || (is_number(b) && shift_ok(op, bits_usize(b) as int, usize::BITS as int)),
        _ => false,
    }
}

/// `a op b` for a bitwise operation: the right operand's bits are taken in
/// the kind of the left one, a decimal working on its bit pattern.
pub open spec fn bit_v(op: BitOp, a: ValuesV, b: ValuesV) -> ValuesV {
    if b is VOID {
        a
    } else {
        match a {
            ValuesV::SIGNED(s) => ValuesV::SIGNED(i64_bit(op, s, bits_i64(b))),
            ValuesV::UNSIGNED(s) => ValuesV::UNSIGNED(u64_bit(op, s, bits_u64(b))),
            ValuesV::DECIMAL(s) => ValuesV::DECIMAL(u64_bit(op, s, bits_u64(b))),
            ValuesV::POINTER(p, z) => ValuesV::POINTER(usize_bit(op, p, bits_usize(b)), z),
            _ => a,
        }
    }
}

pub(crate) fn num_bits_i64(v: &Values) -> (r: i64)
    requires
        is_number(v@),
    ensures
        r == bits_i64(v@),
{
    match v {
        Values::SIGNED(x) => *x,
        Values::UNSIGNED(x) => *x as i64,
        Values::DECIMAL(x) => *x as i64,
        Values::POINTER(x, _) => *x as i64,
        _ => 0,
    }
}

pub(crate) fn num_bits_u64(v: &Values) -> (r: u64)
    requires
        is_number(v@),
    ensures
        r == bits_u64(v@),
{
    match v {
        Values::SIGNED(x) => *x as u64,
        Values::UNSIGNED(x) => *x,
        Values::DECIMAL(x) => *x,
        Values::POINTER(x, _) => *x as u64,
        _ => 0,
    }
}

pub(crate) fn num_bits_usize(v: &Values) -> (r: usize)
    requires
        is_number(v@),
    ensures
        r == bits_usize(v@),
{
    match v {
        Values::SIGNED(x) => *x as usize,
        Values::UNSIGNED(x) => *x as usize,
        Values::DECIMAL(x) => *x as usize,
        Values::POINTER(x, _) => *x,
        _ => 0,
    }
}

fn i64_bitop(op: BitOp, a: i64, b: i64) -> (r: i64)
    requires
        shift_ok(op, b as int, 64),
    ensures
        r == i64_bit(op, a, b),
{
    match op {
        BitOp::And => a & b,
        BitOp::Or => a | b,
        BitOp::Xor => a ^ b,
        BitOp::Lsh => a << (b as u32),
        BitOp::Rsh => a >> (b as u32),
    }
}

fn u64_bitop(op: BitOp, a: u64, b: u64) -> (r: u64)
    requires
        shift_ok(op, b as int, 64),
    ensures
        r == u64_bit(op, a, b),
{
    match op {
        BitOp::And => a & b,
        BitOp::Or => a | b,
        BitOp::Xor => a ^ b,
        BitOp::Lsh => a << (b as u32),
        BitOp::Rsh => a >> (b as u32),
    }
}

fn usize_bitop(op: BitOp, a: usize, b: usize) -> (r: usize)
    requires
        shift_ok(op, b as int, usize::BITS as int),
    ensures
        r == usize_bit(op, a, b),
{
    match op {
        BitOp::And => a & b,
        BitOp::Or => a | b,
        BitOp::Xor => a ^ b,
        BitOp::Lsh => a << (b as u32),
        BitOp::Rsh => a >> (b as u32),
    }
}

/// The bitwise NOT of a number (of a decimal's bit pattern); void stays void.
pub open spec fn not_v(a: ValuesV) -> ValuesV {
    match a {
        ValuesV::SIGNED(v) => ValuesV::SIGNED(!v),
        ValuesV::UNSIGNED(v) => ValuesV::UNSIGNED(!v),
        ValuesV::DECIMAL(v) => ValuesV::DECIMAL(!v),
        ValuesV::POINTER(v, s) => ValuesV::POINTER(!v, s),
        _ => a,
    }
}

impl Values {
    /// `self op other` as `math_v` says.
    pub fn math(&self, op: MathOp, other: &Values) -> (r: Arith)
        requires
            math_ok(op, self@, other@),
        ensures
            r@ == math_v(op, self@, other@),
    {
        match self {
            Values::VOID => Arith::Done(Values::VOID),
            Values::SIGNED(s) => match other {
                Values::VOID => Arith::Done(Values::SIGNED(*s)),
                _ => Arith::Done(Values::SIGNED(i64_op(op, *s, num_to_i64(other)))),
            },
            Values::UNSIGNED(s) => match other {
                Values::VOID => Arith::Done(Values::UNSIGNED(*s)),
                _ => Arith::Done(Values::UNSIGNED(u64_op(op, *s, num_to_u64(other)))),
            },
            Values::DECIMAL(s) => match other {
                Values::VOID => Arith::Done(Values::DECIMAL(*s)),
                _ => Arith::Float(op, *s, num_to_f64(other)),
            },
            Values::POINTER(p, z) => match other {
                Values::VOID => Arith::Done(Values::POINTER(*p, *z)),
                _ => Arith::Done(Values::POINTER(usize_op(op, *p, num_to_usize(other)), *z)),
            },
            _ => Arith::Done(Values::VOID),
        }
    }

    /// `self + other`.
    pub fn add(&self, other: &Values) -> (r: Arith)
        requires
            math_ok(MathOp::Add, self@, other@),
        ensures
            r@ == math_v(MathOp::Add, self@, other@),
    {
        self.math(MathOp::Add, other)
    }

    /// `self - other`.
    pub fn sub(&self, other: &Values) -> (r: Arith)
        requires
            math_ok(MathOp::Sub, self@, other@),
        ensures
            r@ == math_v(MathOp::Sub, self@, other@),
    {
        self.math(MathOp::Sub, other)
    }

    /// `self * other`.
    pub fn mul(&self, other: &Values) -> (r: Arith)
        requires
            math_ok(MathOp::Mul, self@, other@),
        ensures
            r@ == math_v(MathOp::Mul, self@, other@),
    {
        self.math(MathOp::Mul, other)
    }

    /// `self / other`, rounding toward zero.
    pub fn div(&self, other: &Values) -> (r: Arith)
        requires
            math_ok(MathOp::Div, self@, other@),
        ensures
            r@ == math_v(MathOp::Div, self@, other@),
    {
        self.math(MathOp::Div, other)
    }

    /// `self % other`, with the sign of `self`.
    pub fn modulo(&self, other: &Values) -> (r: Arith)
        requires
            math_ok(MathOp::Rem, self@, other@),
        ensures
            r@ == math_v(MathOp::Rem, self@, other@),
    {
        self.math(MathOp::Rem, other)
    }

    /// `self op other` for a bitwise operation, as `bit_v` says.
    pub fn bitwise(&self, op: BitOp, other: &Values) -> (r: Values)
        requires
            bit_ok(op, self@, other@),
        ensures
            r@ == bit_v(op, self@, other@),
    {
        match other {
            Values::VOID => self.clone(),
            _ => match self {
                Values::SIGNED(s) => Values::SIGNED(i64_bitop(op, *s, num_bits_i64(other))),
                Values::UNSIGNED(s) => Values::UNSIGNED(u64_bitop(op, *s, num_bits_u64(other))),
                Values::DECIMAL(s) => Values::DECIMAL(u64_bitop(op, *s, num_bits_u64(other))),
                Values::POINTER(p, z) => Values::POINTER(usize_bitop(op, *p, num_bits_usize(other)), *z),
                _ => self.clone(),
            },
        }
    }

    /// Bitwise AND.
    pub fn and(&self, other: &Values) -> (r: Values)
        requires
            bit_ok(BitOp::And, self@, other@),
        ensures
            r@ == bit_v(BitOp::And, self@, other@),
    {
        self.bitwise(BitOp::And, other)
    }

    /// Bitwise OR.
    pub fn or(&self, other: &Values) -> (r: Values)
        requires
            bit_ok(BitOp::Or, self@, other@),
        ensures
            r@ == bit_v(BitOp::Or, self@, other@),
    {
        self.bitwise(BitOp::Or, other)
    }

    /// Bitwise XOR.
    pub fn xor(&self, other: &Values) -> (r: Values)
        requires
            bit_ok(BitOp::Xor, self@, other@),
        ensures
            r@ == bit_v(BitOp::Xor, self@, other@),
    {
        self.bitwise(BitOp::Xor, other)
    }

    /// Bitwise NOT.
    pub fn not(&self) -> (r: Values)
        requires
            self@ is VOID || is_number(self@),
        ensures
            r@ == not_v(self@),
    {
        match self {
            Values::SIGNED(v) => Values::SIGNED(!*v),
            Values::UNSIGNED(v) => Values::UNSIGNED(!*v),
            Values::DECIMAL(v) => Values::DECIMAL(!*v),
            Values::POINTER(v, s) => Values::POINTER(!*v, *s),
            _ => Values::VOID,
        }
    }

    /// Left shift.
    pub fn lsh(&self, other: &Values) -> (r: Values)
        requires
            bit_ok(BitOp::Lsh, self@, other@),
        ensures
            r@ == bit_v(BitOp::Lsh, self@, other@),
    {
        self.bitwise(BitOp::Lsh, other)
    }

    /// Right shift (arithmetic for signed values).
    pub fn rsh(&self, other: &Values) -> (r: Values)
        requires
            bit_ok(BitOp::Rsh, self@, other@),
        ensures
            r@ == bit_v(BitOp::Rsh, self@, other@),
    {
        self.bitwise(BitOp::Rsh, other)
    }
}

/// The relations values are compared by: `0` equal, `1` below, `2` above.
pub open spec fn rel_int(rel: u8, x: int, y: int) -> bool {
    if rel == 0 {
        x == y
    } else if rel == 1 {
        x < y
    } else {
        x > y
    }
}

pub open spec fn rel_float(rel: u8, x: u64, y: u64) -> bool {
    if rel == 0 {
        f64_eq(x, y)
    } else if rel == 1 {
        f64_lt(x, y)
    } else {
        f64_lt(y, x)
    }
}

/// Whether `a rel b`: void relates only to void (under every relation);
/// a number relates to a number converted to its own kind; anything else
/// relates to nothing.
pub open spec fn relation_v(rel: u8, a: ValuesV, b: ValuesV) -> bool {
    match a {
        ValuesV::VOID => b is VOID,
        ValuesV::SIGNED(s) => is_number(b) && rel_int(rel, s as int, to_i64(b) as int),
        ValuesV::UNSIGNED(s) => is_number(b) && rel_int(rel, s as int, to_u64(b) as int),
        ValuesV::DECIMAL(s) => is_number(b) && rel_float(rel, s, to_f64(b)),
        ValuesV::POINTER(s, _) => is_number(b) && rel_int(rel, s as int, to_usize(b) as int),
        _ => false,
    }
}

fn rel_i128(rel: u8, x: i128, y: i128) -> (r: bool)
    ensures
        r == rel_int(rel, x as int, y as int),
{
    if rel == 0 {
        x == y
    } else if rel == 1 {
        x < y
    } else {
        x > y
    }
}

fn rel_f64(rel: u8, x: u64, y: u64) -> (r: bool)
    ensures
        r == rel_float(rel, x, y),
{
    if rel == 0 {
        f64_equal(x, y)
    } else if rel == 1 {
        f64_less(x, y)
    } else {
        f64_less(y, x)
    }
}

/// Whether `a rel b`, as `relation_v` says.
pub fn relation(rel: u8, a: &Values, b: &Values) -> (r: bool)
    ensures
        r == relation_v(rel, a@, b@),
{
    match a {
        Values::VOID => match b {
            Values::VOID => true,
            _ => false,
        },
        Values::SIGNED(s) => match b {
            Values::SIGNED(_) | Values::UNSIGNED(_) | Values::DECIMAL(_) | Values::POINTER(_, _) =>
                rel_i128(rel, *s as i128, num_to_i64(b) as i128),
            _ => false,
        },
        Values::UNSIGNED(s) => match b {
            Values::SIGNED(_) | Values::UNSIGNED(_) | Values::DECIMAL(_) | Values::POINTER(_, _) =>
                rel_i128(rel, *s as i128, num_to_u64(b) as i128),
            _ => false,
        },
        Values::DECIMAL(s) => match b {
            Values::SIGNED(_) | Values::UNSIGNED(_) | Values::DECIMAL(_) | Values::POINTER(_, _) =>
                rel_f64(rel, *s, num_to_f64(b)),
            _ => false,
        },
        Values::POINTER(s, _) => match b {
            Values::SIGNED(_) | Values::UNSIGNED(_) | Values::DECIMAL(_) | Values::POINTER(_, _) =>
                rel_i128(rel, *s as i128, num_to_usize(b) as i128),
            _ => false,
        },
        _ => false,
    }
}

/// Whether `set` accepts storing `b` in a slot holding `a`, as `set_ok` says.
pub fn set_allowed(a: &Values, b: &Values) -> (r: bool)
    ensures
        r == set_ok(a@, b@),
{
    let num = match b {
        Values::SIGNED(_) | Values::UNSIGNED(_) | Values::DECIMAL(_) | Values::POINTER(_, _) => true,
        _ => false,
    };
    match a {
        Values::VOID => true,
        Values::SIGNED(_) | Values::UNSIGNED(_) | Values::DECIMAL(_) => num || matches!(b, Values::VOID),
        Values::POINTER(_, _) => num || matches!(b, Values::VOID) || matches!(b, Values::STRUCT(_, _)),
        Values::STRUCT(_, _) => matches!(b, Values::STRUCT(_, _)),
        Values::TYPE(_) => matches!(b, Values::TYPE(_)),
        Values::NAME(_) => matches!(b, Values::VOID) || matches!(b, Values::NAME(_)),
    }
}

fn is_num(v: &Values) -> (r: bool)
    ensures
        r == is_number(v@),
{
    match v {
        Values::SIGNED(_) | Values::UNSIGNED(_) | Values::DECIMAL(_) | Values::POINTER(_, _) => true,
        _ => false,
    }
}

proof fn lemma_trunc_div_fits(a: i64, b: i64)
    requires
        b != 0,
    ensures
        (i64::MIN <= trunc_div(a as int, b as int) <= i64::MAX) <==> !(a == i64::MIN && b == -1),
{
    let x = abs(a as int);
    let y = abs(b as int);
    let q = x / y;
    assert(0 <= x <= 0x8000_0000_0000_0000);
    assert(y >= 1);
    if y == 1 {
        assert(q == x) by (nonlinear_arith)
            requires
                y == 1,
                q == x / y,
        ;
    } else {
        assert(q * 2 <= x) by (nonlinear_arith)
            requires
                y >= 2,
                x >= 0,
                q == x / y,
        {
            assert(q * y <= x);
            assert(q * 2 <= q * y);
        }
    }
}

proof fn lemma_unsigned_div_fits(a: int, b: int)
    requires
        a >= 0,
        b >= 1,
    ensures
        0 <= trunc_div(a, b) <= a,
{
    assert(0 <= a / b <= a) by (nonlinear_arith)
        requires
            a >= 0,
            b >= 1,
    {
        assert(a / b * b <= a);
        assert(a / b * 1 <= a / b * b);
    }
}

fn i64_fits(op: MathOp, a: i64, b: i64) -> (r: bool)
    ensures
        r == op_fits(op, a as int, b as int, i64::MIN as int, i64::MAX as int),
{
    match op {
        MathOp::Add => {
            let s: i128 = a as i128 + b as i128;
            i64::MIN as i128 <= s && s <= i64::MAX as i128
        },
        MathOp::Sub => {
            let s: i128 = a as i128 - b as i128;
            i64::MIN as i128 <= s && s <= i64::MAX as i128
        },
        MathOp::Mul => {
            let x = a as i128;
            let y = b as i128;
            assert(-0x4000_0000_0000_0000_0000_0000_0000_0000 <= x * y <= 0x4000_0000_0000_0000_0000_0000_0000_0000) by (nonlinear_arith)
                requires
                    -0x8000_0000_0000_0000 <= x <= 0x7FFF_FFFF_FFFF_FFFF,
                    -0x8000_0000_0000_0000 <= y <= 0x7FFF_FFFF_FFFF_FFFF,
            {
                assert(x * y <= 0x8000_0000_0000_0000 * 0x8000_0000_0000_0000);
                assert(x * y >= -0x8000_0000_0000_0000 * 0x8000_0000_0000_0000);
            }
            let s: i128 = x * y;
            i64::MIN as i128 <= s && s <= i64::MAX as i128
        },
        MathOp::Div | MathOp::Rem => {
            if b == 0 {
                false
            } else {
                proof {
                    lemma_trunc_div_fits(a, b);
                }
                !(a == i64::MIN && b == -1)
            }
        },
    }
}

fn u64_fits(op: MathOp, a: u64, b: u64) -> (r: bool)
    ensures
        r == op_fits(op, a as int, b as int, 0, u64::MAX as int),
{
    match op {
        MathOp::Add => a <= u64::MAX - b,
        MathOp::Sub => b <= a,
        MathOp::Mul => {
            let x = a as u128;
            let y = b as u128;
            assert(x * y <= 0xFFFF_FFFF_FFFF_FFFF * 0xFFFF_FFFF_FFFF_FFFF) by (nonlinear_arith)
                requires
                    x <= 0xFFFF_FFFF_FFFF_FFFF,
                    y <= 0xFFFF_FFFF_FFFF_FFFF,
            ;
            x * y <= u64::MAX as u128
        },
        MathOp::Div | MathOp::Rem => {
            if b == 0 {
                false
            } else {
                proof {
                    lemma_unsigned_div_fits(a as int, b as int);
                }
                true
            }
        },
    }
}

fn usize_fits(op: MathOp, a: usize, b: usize) -> (r: bool)
    ensures
        r == op_fits(op, a as int, b as int, 0, usize::MAX as int),
{
    match op {
        MathOp::Add => a <= usize::MAX - b,
        MathOp::Sub => b <= a,
        MathOp::Mul => {
            let x = a as u128;
            let y = b as u128;
            assert(x * y <= 0xFFFF_FFFF_FFFF_FFFF * 0xFFFF_FFFF_FFFF_FFFF) by (nonlinear_arith)
                requires
                    x <= 0xFFFF_FFFF_FFFF_FFFF,
                    y <= 0xFFFF_FFFF_FFFF_FFFF,
            ;
            x * y <= usize::MAX as u128
        },
        MathOp::Div | MathOp::Rem => {
            if b == 0 {
                false
            } else {
                proof {
                    lemma_unsigned_div_fits(a as int, b as int);
                }
                true
            }
        },
    }
}

/// Whether `a op b` is defined, as `math_ok` says.
pub fn math_allowed(op: MathOp, a: &Values, b: &Values) -> (r: bool)
    ensures
        r == math_ok(op, a@, b@),
{
    let void = matches!(b, Values::VOID);
    let num = is_num(b);
    match a {
        Values::VOID => true,
        Values::SIGNED(s) => void || (num && i64_fits(op, *s, num_to_i64(b))),
        Values::UNSIGNED(s) => void || (num && u64_fits(op, *s, num_to_u64(b))),
        Values::DECIMAL(_) => void || num,
        Values::POINTER(p, _) => void || (num && usize_fits(op, *p, num_to_usize(b))),
        _ => false,
    }
}

/// Whether `a op b` is defined for a bitwise operation, as `bit_ok` says.
pub fn bit_allowed(op: BitOp, a: &Values, b: &Values) -> (r: bool)
    ensures
        r == bit_ok(op, a@, b@),
{
    let void = matches!(b, Values::VOID);
    let num = is_num(b);
    let shift = op == BitOp::Lsh || op == BitOp::Rsh;
    match a {
        Values::VOID => true,
        Values::SIGNED(_) => void || (num && (!shift || {
            let n = num_bits_i64(b);
            0 <= n && n < 64
        })),
        Values::UNSIGNED(_) | Values::DECIMAL(_) => void || (num && (!shift || num_bits_u64(b) < 64)),
        Values::POINTER(_, _) => void || (num && (!shift || num_bits_usize(b) < usize::BITS as usize)),
        _ => false,
    }
}

/// The text of a value other than a decimal or a struct: `VOID`, a number in
/// decimal, `*` and the index of a pointer, the text of a type, or a name in
/// double quotes.
pub open spec fn value_text(v: ValuesV) -> Seq<char> {
    match v {
        ValuesV::VOID => seq!['V', 'O', 'I', 'D'],
        ValuesV::SIGNED(n) => signed_decimal(n as int),
        ValuesV::UNSIGNED(n) => decimal(n as nat),
        ValuesV::POINTER(n, _) => seq!['*'] + decimal(n as nat),
        ValuesV::TYPE(t) => type_text(t),
        ValuesV::NAME(n) => seq!['"'] + n + seq!['"'],
        _ => Seq::empty(),
    }
}

impl Value {
    /// The value's text, as `value_text` spells it; `None` for a decimal,
    /// whose text is the f64's own.
    pub fn to_string(&self) -> (s: Option<String>)
        requires
            !(self.val is STRUCT),
        ensures
            s is None <==> self.val is DECIMAL,
            s matches Some(t) ==> t@ == value_text(self.val@),
    {
        proof {
            reveal_strlit("VOID");
            reveal_strlit("*");
            reveal_strlit("\"");
        }
        let mut s = String::new();
        match &self.val {
            Values::VOID => s.append("VOID"),
            Values::SIGNED(n) => push_signed_decimal(&mut s, *n),
            Values::UNSIGNED(n) => push_decimal(&mut s, *n),
            Values::POINTER(n, _) => {
                s.append("*");
                push_decimal(&mut s, *n as u64);
            },
            Values::TYPE(t) => {
                s = t.to_string();
            },
            Values::NAME(n) => {
                s.append("\"");
                s.append(n.as_str());
                s.append("\"");
            },
            _ => {
                return None;
            },
        }
        proof {
            assert(s@ =~= value_text(self.val@));
        }
        Some(s)
    }
}

} // verus!
