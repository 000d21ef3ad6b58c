//! Running a block of instructions: steps until the block is left, the
//! program finishes, a fault, or an action the caller performs (a call, a
//! float operation); after the action the caller runs the block again from
//! the same position.
use vstd::prelude::*;
use crate::frame::{Frame, FrameV};
use crate::parse_scope::frames_view;
use crate::scope::{Scope, InstrV, code_view};
use crate::instruction::Instruction;
use crate::interp::{Env, Fault, env_ok, structs_of};
use crate::step::{Control, ControlV, Structs, step_v};
use crate::machine::exec_instruction;
use crate::value::MathOp;

verus! {

/// Why a block run stopped.
#[derive(Debug)]
pub enum BlockExit {
    /// The block is done, with the exit code the program finishes with (0
    /// when it goes on).
    Done(i32),
    /// The function or native function of this name must be called; the
    /// position is already past the call.
    Call(String),
    /// This float operation must be computed and its decimal result stored in
    /// the variable; the position is already past the instruction.
    Float(MathOp, u64, u64, String),
    /// The step budget ran out; the position is that of the next instruction.
    Yield,
}

pub enum BlockExitV {
    Done(i32),
    Call(Seq<char>),
    Float(MathOp, u64, u64, Seq<char>),
    Yield,
}

impl View for BlockExit {
    type V = BlockExitV;

    open spec fn view(&self) -> BlockExitV {
        match self {
            BlockExit::Done(c) => BlockExitV::Done(*c),
            BlockExit::Call(n) => BlockExitV::Call(n@),
            BlockExit::Float(op, a, b, n) => BlockExitV::Float(*op, *a, *b, n@),
            BlockExit::Yield => BlockExitV::Yield,
        }
    }
}

/// Running the block `code`, which starts at address `start`, from address
/// `pc` for at most `fuel` instructions: how the run stops, the frames after
/// it, and the position it leaves.
pub open spec fn run_block(fs: Seq<FrameV>, env: Env, st: Structs, code: Seq<InstrV>, pc: int, start: int, fuel: nat)
    -> (Result<BlockExitV, Fault>, Seq<FrameV>, int)
    decreases fuel,
{
    if !(pc - start < code.len()) {
        (Ok(BlockExitV::Done(0)), fs, pc)
    } else if fuel == 0 {
        (Ok(BlockExitV::Yield), fs, pc)
    } else {
        match step_v(fs, env, st, code[pc - start]) {
            Err(e) => (Err(e), fs, pc),
            Ok((c, fs1)) => match c {
                ControlV::Next => if pc + 1 < start {
                    (Ok(BlockExitV::Done(0)), fs1, pc + 1)
                } else {
                    run_block(fs1, env, st, code, pc + 1, start, (fuel - 1) as nat)
                },
                ControlV::Jump(p) => if p < start {
                    (Ok(BlockExitV::Done(0)), fs1, p as int)
                } else {
                    run_block(fs1, env, st, code, p as int, start, (fuel - 1) as nat)
                },
                ControlV::Exit => (Ok(BlockExitV::Done(0)), fs1, pc),
                ControlV::Finish(x) => (Ok(BlockExitV::Done(x)), fs1, pc),
                ControlV::Call(n) => (Ok(BlockExitV::Call(n)), fs1, pc + 1),
                ControlV::Float(op, a, b, n) => (Ok(BlockExitV::Float(op, a, b, n)), fs1, pc + 1),
            },
        }
    }
}

/// Runs `block`, which starts at address `block_start`, from `*pc` for at
/// most `fuel` instructions, as `run_block` says. On a fault the frames and
/// the position are left as far as the run got.
pub fn exec_block(block: &Vec<Instruction>, global_scope: &Scope, stack: &mut Vec<Frame>, env: Env, pc: &mut usize,
    block_start: usize, fuel: u64) -> (r: Result<BlockExit, Fault>)
    requires
        env_ok(frames_view(old(stack)@), env),
        block_start <= *old(pc),
        block_start + block@.len() <= usize::MAX,
    ensures
        ({
            let spec = run_block(frames_view(old(stack)@), env, structs_of(global_scope), code_view(block@),
                *old(pc) as int, block_start as int, fuel as nat);
            match r {
                Ok(x) => spec.0 == Ok::<BlockExitV, Fault>(x@) && spec.1 == frames_view(final(stack)@)
                    && spec.2 == *final(pc) as int,
                Err(e) => spec.0 == Err::<BlockExitV, Fault>(e),
            }
        }),
{
    let ghost st = structs_of(global_scope);
    let ghost code = code_view(block@);
    let ghost target = run_block(frames_view(stack@), env, st, code, *pc as int, block_start as int, fuel as nat);
    let mut left: u64 = fuel;
    loop
        invariant
            env_ok(frames_view(stack@), env),
            block_start <= *pc,
            block_start + block@.len() <= usize::MAX,
            st == structs_of(global_scope),
            code == code_view(block@),
            run_block(frames_view(stack@), env, st, code, *pc as int, block_start as int, left as nat) == target,
            target == run_block(frames_view(old(stack)@), env, structs_of(global_scope), code_view(block@),
                *old(pc) as int, block_start as int, fuel as nat),
        decreases left,
    {
        if *pc - block_start >= block.len() {
            return Ok(BlockExit::Done(0));
        }
        if left == 0 {
            return Ok(BlockExit::Yield);
        }
        let ghost fs0 = frames_view(stack@);
        let ghost p0 = *pc;
        let instr = &block[*pc - block_start];
        assert(code[p0 - block_start] == crate::instruction::instr_view(*instr));
        let c = match exec_instruction(instr, global_scope, stack, env) {
            Ok(c) => c,
            Err(e) => return Err(e),
        };
        proof {
            assert(frames_view(stack@).len() == fs0.len());
        }
        match c {
            Control::Next => {
                *pc = *pc + 1;
            },
            Control::Jump(p) => {
                *pc = p;
                if p < block_start {
                    return Ok(BlockExit::Done(0));
                }
            },
            Control::Exit => return Ok(BlockExit::Done(0)),
            Control::Finish(x) => return Ok(BlockExit::Done(x)),
            Control::Call(n) => {
                *pc = *pc + 1;
                return Ok(BlockExit::Call(n));
            },
            Control::Float(op, a, b, n) => {
                *pc = *pc + 1;
                return Ok(BlockExit::Float(op, a, b, n));
            },
        }
        left = left - 1;
    }
}

} // verus!
