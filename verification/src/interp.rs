//! The executor: the loop-matching scan, the single-step function, and
//! the bounded driver, each proved to follow the step semantics.

use vstd::prelude::*;

use crate::instruction::{Error, Instruction};
use crate::state::{Model, State, init_model};
use crate::step::{
    Run, Step, dec_byte, find_match, inc_byte, net_depth, nesting_delta, run_steps, step_spec,
};

verus! {

/// Position of the loop-end matching the loop-start at
/// `curr_instr_pointer`: scanning forward from the next position, the
/// first loop-end found at balanced nesting depth. The scan failing to
/// find one before the end of the program is the fatal
/// `UnmatchedLoopStart` error.
pub fn find_matching_loop_end_pos(curr_instr_pointer: usize, instructions: &Vec<Instruction>) -> (r:
    Result<usize, Error>)
    requires
        curr_instr_pointer < instructions@.len(),
    ensures
        r is Ok <==> find_match(instructions@, curr_instr_pointer + 1, 0) is Some,
        (r matches Ok(j) ==> find_match(instructions@, curr_instr_pointer + 1, 0) == Some(j as int)
            && curr_instr_pointer < j < instructions@.len()),
        (r matches Err(e) ==> e == Error::UnmatchedLoopStart),
{
    let ghost prog = instructions@;
    let ghost start = curr_instr_pointer + 1int;
    let n = instructions.len();
    let mut idx: usize = curr_instr_pointer + 1;
    let mut opened: usize = 0;
    loop
        invariant
            curr_instr_pointer + 1 <= idx <= prog.len(),
            prog == instructions@,
            start == curr_instr_pointer + 1int,
            n == prog.len(),
            opened <= idx,
            opened as int == net_depth(prog, start, idx as int),
            find_match(prog, start, 0) == find_match(prog, idx as int, opened as int),
        decreases prog.len() - idx,
    {
        if idx >= n {
            return Err(Error::UnmatchedLoopStart);
        }
        let ins = instructions[idx];
        if ins == Instruction::LoopEnd && opened == 0 {
            return Ok(idx);
        }
        proof {
            assert(net_depth(prog, start, idx + 1) == net_depth(prog, start, idx as int)
                + nesting_delta(prog[idx as int]));
        }
        if ins == Instruction::LoopStart {
            opened = opened + 1;
        } else if ins == Instruction::LoopEnd {
            opened = opened - 1;
        }
        idx = idx + 1;
    }
}

/// Execute the one instruction at `instr_pointer` and hand back the next
/// instruction pointer, exactly as the step semantics say: on `Ok` the
/// state is the next model and the returned position is the next
/// instruction pointer; on `Err` the error is the one the semantics name
/// and the state is untouched.
pub fn interpret_one(state: &mut State, instructions: &Vec<Instruction>, instr_pointer: usize) -> (r:
    Result<usize, Error>)
    requires
        old(state).wf(),
        instr_pointer < instructions@.len(),
    ensures
        final(state).wf(),
        (match step_spec(instructions@, old(state)@, instr_pointer as int) {
            Step::Next(m, ip2) => r is Ok && final(state)@ == m && r->Ok_0 == ip2,
            Step::Fail(e) => r is Err && r->Err_0 == e && final(state)@ == old(state)@,
        }),
{
    // The length as a machine word: it bounds every position the arithmetic
    // below produces, so no next-position computation can overflow.
    let _program_len = instructions.len();
    let ins = instructions[instr_pointer];
    match ins {
        Instruction::MoveRight => {
            if state.pointer_idx + 1 >= state.memory.len() {
                Err(Error::CursorOutOfBounds)
            } else {
                state.pointer_idx = state.pointer_idx + 1;
                proof {
                    assert(state@ =~= Model { pointer_idx: old(state)@.pointer_idx + 1, ..old(
                        state,
                    )@ });
                }
                Ok(instr_pointer + 1)
            }
        },
        Instruction::MoveLeft => {
            if state.pointer_idx == 0 {
                Err(Error::CursorOutOfBounds)
            } else {
                state.pointer_idx = state.pointer_idx - 1;
                proof {
                    assert(state@ =~= Model { pointer_idx: old(state)@.pointer_idx - 1, ..old(
                        state,
                    )@ });
                }
                Ok(instr_pointer + 1)
            }
        },
        Instruction::Inc => {
            let p = state.pointer_idx;
            let v = state.memory[p];
            let nv: u8 = if v == 255 {
                0
            } else {
                v + 1
            };
            state.memory.set(p, nv);
            proof {
                assert(state@ =~= Model {
                    memory: old(state)@.memory.update(
                        old(state)@.pointer_idx,
                        inc_byte(old(state)@.memory[old(state)@.pointer_idx]),
                    ),
                    ..old(state)@
                });
            }
            Ok(instr_pointer + 1)
        },
        Instruction::Dec => {
            let p = state.pointer_idx;
            let v = state.memory[p];
            let nv: u8 = if v == 0 {
                255
            } else {
                v - 1
            };
            state.memory.set(p, nv);
            proof {
                assert(state@ =~= Model {
                    memory: old(state)@.memory.update(
                        old(state)@.pointer_idx,
                        dec_byte(old(state)@.memory[old(state)@.pointer_idx]),
                    ),
                    ..old(state)@
                });
            }
            Ok(instr_pointer + 1)
        },
        Instruction::Output => {
            let v = state.memory[state.pointer_idx];
            state.output.push(v);
            proof {
                assert(state@ =~= Model {
                    output: old(state)@.output.push(
                        old(state)@.memory[old(state)@.pointer_idx],
                    ),
                    ..old(state)@
                });
            }
            Ok(instr_pointer + 1)
        },
        Instruction::Input => {
            if state.input_pos >= state.input.len() {
                Err(Error::InputExhausted)
            } else {
                let b = state.input[state.input_pos];
                let p = state.pointer_idx;
                state.memory.set(p, b);
                state.input_pos = state.input_pos + 1;
                proof {
                    assert(state@ =~= Model {
                        memory: old(state)@.memory.update(
                            old(state)@.pointer_idx,
                            old(state)@.input[old(state)@.input_pos],
                        ),
                        input_pos: old(state)@.input_pos + 1,
                        ..old(state)@
                    });
                }
                Ok(instr_pointer + 1)
            }
        },
        Instruction::LoopStart => {
            let v = state.memory[state.pointer_idx];
            if v != 0 {
                state.loop_starts.push(instr_pointer);
                proof {
                    assert(state@.loop_starts =~= old(state)@.loop_starts.push(
                        instr_pointer as int,
                    ));
                    assert(state@ =~= Model {
                        loop_starts: old(state)@.loop_starts.push(instr_pointer as int),
                        ..old(state)@
                    });
                }
                Ok(instr_pointer + 1)
            } else {
                match find_matching_loop_end_pos(instr_pointer, instructions) {
                    Ok(j) => Ok(j + 1),
                    Err(e) => Err(e),
                }
            }
        },
        Instruction::LoopEnd => {
            match state.loop_starts.pop() {
                Some(p) => {
                    proof {
                        assert(state@.loop_starts =~= old(state)@.loop_starts.drop_last());
                        assert(state@ =~= Model {
                            loop_starts: old(state)@.loop_starts.drop_last(),
                            ..old(state)@
                        });
                        assert(p as int == old(state)@.loop_starts.last());
                    }
                    Ok(p)
                },
                None => {
                    proof {
                        assert(state@ =~= old(state)@);
                    }
                    Err(Error::UnmatchedLoopEnd)
                },
            }
        },
    }
}

/// What a bounded run returns: the finished state, the state of a run
/// interrupted by the step budget (with the next instruction pointer), or
/// the fatal error.
pub enum RunResult {
    Done(State),
    Running(State, usize),
    Failed(Error),
}

/// Run a program from a fresh state against the given input bytes, for at
/// most `max_steps` steps, and return exactly what the bounded iteration
/// of the step semantics yields for that budget. Termination is reaching
/// the end of the program; a budget large enough is never the reason a
/// terminating or failing run stops early (more budget cannot change a
/// finished outcome, see `lemma_run_steps_fuel_monotonic`).
pub fn interpret_many(instructions: &Vec<Instruction>, input: Vec<u8>, max_steps: u64) -> (r:
    RunResult)
    ensures
        (match r {
            RunResult::Done(st) => st.wf() && run_steps(
                instructions@,
                init_model(input@),
                0,
                max_steps as nat,
            ) == Run::Done(st@),
            RunResult::Running(st, ip) => st.wf() && ip < instructions@.len() && run_steps(
                instructions@,
                init_model(input@),
                0,
                max_steps as nat,
            ) == Run::Running(st@, ip as int),
            RunResult::Failed(e) => run_steps(
                instructions@,
                init_model(input@),
                0,
                max_steps as nat,
            ) == Run::Failed(e),
        }),
{
    let ghost prog = instructions@;
    let mut state = State::with_input(input);
    let ghost init = state@;
    let mut instr_pointer: usize = 0;
    let mut steps: u64 = 0;
    let instructions_len = instructions.len();

    while instr_pointer < instructions_len && steps < max_steps
        invariant
            state.wf(),
            prog == instructions@,
            instructions_len == prog.len(),
            init == init_model(input@),
            steps <= max_steps,
            run_steps(prog, init, 0, max_steps as nat) == run_steps(
                prog,
                state@,
                instr_pointer as int,
                (max_steps - steps) as nat,
            ),
        decreases max_steps - steps,
    {
        let ghost prev = state@;
        let ghost fuel = (max_steps - steps) as nat;
        match interpret_one(&mut state, instructions, instr_pointer) {
            Ok(next_ip) => {
                proof {
                    assert(run_steps(prog, prev, instr_pointer as int, fuel) == run_steps(
                        prog,
                        state@,
                        next_ip as int,
                        (fuel - 1) as nat,
                    ));
                }
                instr_pointer = next_ip;
                steps = steps + 1;
            },
            Err(e) => {
                proof {
                    assert(run_steps(prog, prev, instr_pointer as int, fuel) == Run::Failed(e));
                }
                return RunResult::Failed(e);
            },
        }
    }
    if instr_pointer >= instructions_len {
        RunResult::Done(state)
    } else {
        RunResult::Running(state, instr_pointer)
    }
}

} // verus!
