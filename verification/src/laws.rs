//! Laws of the step semantics, stated and proved once for all programs
//! and states.

use vstd::prelude::*;

use crate::instruction::{Error, Instruction};
use crate::state::{Model, wf_model};
use crate::step::{
    Run, Step, dec_byte, find_match, inc_byte, nesting_delta, net_depth, run_steps, step_spec,
};

verus! {

/// Helper for the scan characterization: from any scan position `idx`
/// whose pending count equals the net depth of `prog[start..idx)`, a
/// successful scan lands on the first loop-end at balanced depth.
proof fn lemma_find_match_from(prog: Seq<Instruction>, start: int, idx: int, j: int)
    requires
        0 <= start <= idx,
        net_depth(prog, start, idx) >= 0,
        find_match(prog, idx, net_depth(prog, start, idx)) == Some(j),
    ensures
        idx <= j < prog.len(),
        prog[j] == Instruction::LoopEnd,
        net_depth(prog, start, j) == 0,
        forall|k: int|
            idx <= k < j ==> !(prog[k] == Instruction::LoopEnd && net_depth(prog, start, k) == 0),
    decreases prog.len() - idx,
{
    let opened = net_depth(prog, start, idx);
    assert(idx < prog.len());
    assert(net_depth(prog, start, idx + 1) == opened + nesting_delta(prog[idx]));
    if prog[idx] == Instruction::LoopEnd && opened == 0 {
    } else {
        lemma_find_match_from(prog, start, idx + 1, j);
    }
}

/// The forward scan is depth-balanced, not naive first-match: a
/// successful scan from the position after a loop-start lands on the
/// first loop-end past it whose nesting depth, counted from there, is
/// balanced; every earlier position is either no loop-end or sits at
/// unbalanced depth.
pub proof fn lemma_matching_loop_end(prog: Seq<Instruction>, ip: int, j: int)
    requires
        0 <= ip < prog.len(),
        find_match(prog, ip + 1, 0) == Some(j),
    ensures
        ip < j < prog.len(),
        prog[j] == Instruction::LoopEnd,
        net_depth(prog, ip + 1, j) == 0,
        forall|k: int|
            ip < k < j ==> !(prog[k] == Instruction::LoopEnd && net_depth(prog, ip + 1, k) == 0),
{
    assert(net_depth(prog, ip + 1, ip + 1) == 0);
    lemma_find_match_from(prog, ip + 1, ip + 1, j);
}

/// Increment then decrement at the same cell, with no move between,
/// restores the state exactly, across the wrap boundary too: the two
/// steps end at `ip + 2` with the model unchanged.
pub proof fn lemma_inc_then_dec(prog: Seq<Instruction>, m: Model, ip: int)
    requires
        wf_model(m),
        0 <= ip,
        ip + 1 < prog.len(),
        prog[ip] == Instruction::Inc,
        prog[ip + 1] == Instruction::Dec,
    ensures
        step_spec(prog, m, ip) matches Step::Next(m1, ip1) && ip1 == ip + 1 && step_spec(
            prog,
            m1,
            ip1,
        ) == Step::Next(m, ip + 2),
{
    let p = m.pointer_idx;
    let v = m.memory[p];
    let m1 = Model { memory: m.memory.update(p, inc_byte(v)), ..m };
    assert(step_spec(prog, m, ip) == Step::Next(m1, ip + 1));
    assert(m1.memory[p] == inc_byte(v));
    assert(dec_byte(inc_byte(v)) == v);
    let m2 = Model { memory: m1.memory.update(p, v), ..m1 };
    assert(step_spec(prog, m1, ip + 1) == Step::Next(m2, ip + 2));
    assert(m2.memory =~= m.memory);
    assert(m2 =~= m);
}

/// Decrement then increment at the same cell, with no move between,
/// restores the state exactly, across the wrap boundary too.
pub proof fn lemma_dec_then_inc(prog: Seq<Instruction>, m: Model, ip: int)
    requires
        wf_model(m),
        0 <= ip,
        ip + 1 < prog.len(),
        prog[ip] == Instruction::Dec,
        prog[ip + 1] == Instruction::Inc,
    ensures
        step_spec(prog, m, ip) matches Step::Next(m1, ip1) && ip1 == ip + 1 && step_spec(
            prog,
            m1,
            ip1,
        ) == Step::Next(m, ip + 2),
{
    let p = m.pointer_idx;
    let v = m.memory[p];
    let m1 = Model { memory: m.memory.update(p, dec_byte(v)), ..m };
    assert(step_spec(prog, m, ip) == Step::Next(m1, ip + 1));
    assert(m1.memory[p] == dec_byte(v));
    assert(inc_byte(dec_byte(v)) == v);
    let m2 = Model { memory: m1.memory.update(p, v), ..m1 };
    assert(step_spec(prog, m1, ip + 1) == Step::Next(m2, ip + 2));
    assert(m2.memory =~= m.memory);
    assert(m2 =~= m);
}

/// A loop-start over a zero cell executes its body zero times: the state
/// is untouched and the instruction pointer lands exactly one past the
/// matching loop-end; with no matching loop-end the step is the fatal
/// `UnmatchedLoopStart` error.
pub proof fn lemma_loop_start_zero_skips(prog: Seq<Instruction>, m: Model, ip: int)
    requires
        wf_model(m),
        0 <= ip < prog.len(),
        prog[ip] == Instruction::LoopStart,
        m.memory[m.pointer_idx] == 0,
    ensures
        (match find_match(prog, ip + 1, 0) {
            Some(j) => step_spec(prog, m, ip) == Step::Next(m, j + 1),
            None => step_spec(prog, m, ip) == Step::Fail(Error::UnmatchedLoopStart),
        }),
{
}

/// A loop-start over a non-zero cell enters the body: the instruction
/// pointer moves to the first body position, the loop-start's own
/// position is pushed onto the loop-stack, and nothing else changes.
pub proof fn lemma_loop_start_nonzero_enters(prog: Seq<Instruction>, m: Model, ip: int)
    requires
        wf_model(m),
        0 <= ip < prog.len(),
        prog[ip] == Instruction::LoopStart,
        m.memory[m.pointer_idx] != 0,
    ensures
        step_spec(prog, m, ip) == Step::Next(
            Model { loop_starts: m.loop_starts.push(ip), ..m },
            ip + 1,
        ),
{
}

/// A loop-end with an empty loop-stack is the fatal `UnmatchedLoopEnd`
/// error, never a silent no-op.
pub proof fn lemma_loop_end_empty_stack_fatal(prog: Seq<Instruction>, m: Model, ip: int)
    requires
        0 <= ip < prog.len(),
        prog[ip] == Instruction::LoopEnd,
        m.loop_starts.len() == 0,
    ensures
        step_spec(prog, m, ip) == Step::Fail(Error::UnmatchedLoopEnd),
{
}

/// The step budget is only a bound, never part of the outcome: once a
/// bounded run has finished or failed, any larger budget yields the very
/// same outcome.
pub proof fn lemma_run_steps_fuel_monotonic(
    prog: Seq<Instruction>,
    m: Model,
    ip: int,
    n1: nat,
    n2: nat,
)
    requires
        n1 <= n2,
        !(run_steps(prog, m, ip, n1) is Running),
    ensures
        run_steps(prog, m, ip, n2) == run_steps(prog, m, ip, n1),
    decreases n1,
{
    if ip >= prog.len() {
    } else {
        assert(n1 > 0);
        match step_spec(prog, m, ip) {
            Step::Next(m2, ip2) => {
                lemma_run_steps_fuel_monotonic(prog, m2, ip2, (n1 - 1) as nat, (n2 - 1) as nat);
            },
            Step::Fail(_) => {
            },
        }
    }
}

} // verus!
