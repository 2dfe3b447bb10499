//! The step semantics: what one instruction does to the state, as a pure
//! mathematical function, and the bounded iteration of it.

use vstd::prelude::*;

use crate::instruction::{Error, Instruction};
use crate::state::{Model, wf_model};

verus! {

/// The contribution of one instruction to the loop-nesting depth.
pub open spec fn nesting_delta(i: Instruction) -> int {
    match i {
        Instruction::LoopStart => 1,
        Instruction::LoopEnd => -1,
        _ => 0,
    }
}

/// The net loop-nesting depth of `prog[lo..hi)`: loop-starts opened minus
/// loop-ends closed over that range.
pub open spec fn net_depth(prog: Seq<Instruction>, lo: int, hi: int) -> int
    decreases hi - lo,
{
    if lo >= hi {
        0
    } else {
        net_depth(prog, lo, hi - 1) + nesting_delta(prog[hi - 1])
    }
}

/// Where a forward scan from `idx`, with `opened` loop-starts already
/// pending, finds its loop-end: the first position holding a loop-end
/// while the pending count is back at zero. `None` when the scan runs off
/// the end of the program first.
pub open spec fn find_match(prog: Seq<Instruction>, idx: int, opened: int) -> Option<int>
    decreases prog.len() - idx,
{
    if idx < 0 || idx >= prog.len() {
        None
    } else if prog[idx] == Instruction::LoopEnd && opened == 0 {
        Some(idx)
    } else if prog[idx] == Instruction::LoopStart {
        find_match(prog, idx + 1, opened + 1)
    } else if prog[idx] == Instruction::LoopEnd {
        find_match(prog, idx + 1, opened - 1)
    } else {
        find_match(prog, idx + 1, opened)
    }
}

/// One more, wrapping 255 back to 0.
pub open spec fn inc_byte(v: u8) -> u8 {
    if v == 255 {
        0
    } else {
        (v + 1) as u8
    }
}

/// One less, wrapping 0 back to 255.
pub open spec fn dec_byte(v: u8) -> u8 {
    if v == 0 {
        255
    } else {
        (v - 1) as u8
    }
}

/// What one step yields: the next state and instruction pointer, or the
/// fatal error that ends the run.
#[verifier::ext_equal]
pub enum Step {
    Next(Model, int),
    Fail(Error),
}

/// The effect of the instruction at `ip` on the state `m`, per the step
/// table of the language:
/// - the moves shift the cursor, failing fast at either tape edge;
/// - increment and decrement wrap the current cell modulo 256;
/// - output appends the current cell to the output stream;
/// - input stores the next input byte, failing when none is left;
/// - loop-start over a non-zero cell pushes its position and falls
///   through; over a zero cell it jumps one past the matching loop-end,
///   failing when the scan finds none;
/// - loop-end pops the most recent loop-start position and jumps back to
///   it, failing when the stack is empty.
pub open spec fn step_spec(prog: Seq<Instruction>, m: Model, ip: int) -> Step
    recommends
        0 <= ip < prog.len(),
        wf_model(m),
{
    match prog[ip] {
        Instruction::MoveRight => if m.pointer_idx + 1 >= m.memory.len() {
            Step::Fail(Error::CursorOutOfBounds)
        } else {
            Step::Next(Model { pointer_idx: m.pointer_idx + 1, ..m }, ip + 1)
        },
        Instruction::MoveLeft => if m.pointer_idx <= 0 {
            Step::Fail(Error::CursorOutOfBounds)
        } else {
            Step::Next(Model { pointer_idx: m.pointer_idx - 1, ..m }, ip + 1)
        },
        Instruction::Inc => Step::Next(
            Model {
                memory: m.memory.update(m.pointer_idx, inc_byte(m.memory[m.pointer_idx])),
                ..m
            },
            ip + 1,
        ),
        Instruction::Dec => Step::Next(
            Model {
                memory: m.memory.update(m.pointer_idx, dec_byte(m.memory[m.pointer_idx])),
                ..m
            },
            ip + 1,
        ),
        Instruction::Output => Step::Next(
            Model { output: m.output.push(m.memory[m.pointer_idx]), ..m },
            ip + 1,
        ),
        Instruction::Input => if m.input_pos >= m.input.len() {
            Step::Fail(Error::InputExhausted)
        } else {
            Step::Next(
                Model {
                    memory: m.memory.update(m.pointer_idx, m.input[m.input_pos]),
                    input_pos: m.input_pos + 1,
                    ..m
                },
                ip + 1,
            )
        },
        Instruction::LoopStart => if m.memory[m.pointer_idx] != 0 {
            Step::Next(Model { loop_starts: m.loop_starts.push(ip), ..m }, ip + 1)
        } else {
            match find_match(prog, ip + 1, 0) {
                Some(j) => Step::Next(m, j + 1),
                None => Step::Fail(Error::UnmatchedLoopStart),
            }
        },
        Instruction::LoopEnd => if m.loop_starts.len() == 0 {
            Step::Fail(Error::UnmatchedLoopEnd)
        } else {
            Step::Next(Model { loop_starts: m.loop_starts.drop_last(), ..m }, m.loop_starts.last())
        },
    }
}

/// The outcome of iterating the step function with a bounded budget.
#[verifier::ext_equal]
pub enum Run {
    /// The instruction pointer ran off the end of the program: the sole
    /// normal termination.
    Done(Model),
    /// The budget ran out with the run still going, at this state and
    /// instruction pointer.
    Running(Model, int),
    /// A step failed; the error is fatal and ends the run.
    Failed(Error),
}

/// At most `n` steps of the step function from `(m, ip)`: the run ends
/// early on normal termination or on a fatal error, and is `Running`
/// when the budget is used up first.
pub open spec fn run_steps(prog: Seq<Instruction>, m: Model, ip: int, n: nat) -> Run
    decreases n,
{
    if ip >= prog.len() {
        Run::Done(m)
    } else if n == 0 {
        Run::Running(m, ip)
    } else {
        match step_spec(prog, m, ip) {
            Step::Next(m2, ip2) => run_steps(prog, m2, ip2, (n - 1) as nat),
            Step::Fail(e) => Run::Failed(e),
        }
    }
}

} // verus!
