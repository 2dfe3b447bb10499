use brainfuck::instruction::{translate, translate_permissive, Error, Instruction};
use brainfuck::interp::{find_matching_loop_end_pos, interpret_many, interpret_one, RunResult};
use brainfuck::state::{State, TAPE_LEN};

fn run(src: &str, input: &[u8]) -> RunResult {
    let prog = translate(&src.as_bytes().to_vec()).expect("source should translate");
    interpret_many(&prog, input.to_vec(), 1_000_000)
}

fn run_done(src: &str, input: &[u8]) -> State {
    match run(src, input) {
        RunResult::Done(state) => state,
        RunResult::Running(_, _) => panic!("run should have terminated"),
        RunResult::Failed(e) => panic!("run failed: {:?}", e),
    }
}

#[test]
fn translate_all_eight_symbols() {
    let prog = translate(&b"><+-.,[]".to_vec()).unwrap();
    assert_eq!(
        prog,
        vec![
            Instruction::MoveRight,
            Instruction::MoveLeft,
            Instruction::Inc,
            Instruction::Dec,
            Instruction::Output,
            Instruction::Input,
            Instruction::LoopStart,
            Instruction::LoopEnd,
        ]
    );
}

#[test]
fn translate_keeps_length_of_valid_program() {
    let src = b"++[>+++<-]".to_vec();
    let prog = translate(&src).unwrap();
    assert_eq!(prog.len(), src.len());
}

#[test]
fn translate_rejects_unknown_char() {
    assert_eq!(
        translate(&b"+a+".to_vec()),
        Err(Error::InvalidInstruction('a'))
    );
}

#[test]
fn translate_names_first_bad_char() {
    assert_eq!(
        translate(&b"+xy".to_vec()),
        Err(Error::InvalidInstruction('x'))
    );
}

#[test]
fn translate_permissive_skips_comments() {
    let prog = translate_permissive(&b"inc + then dec -".to_vec());
    assert_eq!(prog, vec![Instruction::Inc, Instruction::Dec]);
}

#[test]
fn try_from_maps_the_table() {
    assert_eq!(Instruction::try_from('>'), Ok(Instruction::MoveRight));
    assert_eq!(Instruction::try_from('<'), Ok(Instruction::MoveLeft));
    assert_eq!(Instruction::try_from('+'), Ok(Instruction::Inc));
    assert_eq!(Instruction::try_from('-'), Ok(Instruction::Dec));
    assert_eq!(Instruction::try_from('.'), Ok(Instruction::Output));
    assert_eq!(Instruction::try_from(','), Ok(Instruction::Input));
    assert_eq!(Instruction::try_from('['), Ok(Instruction::LoopStart));
    assert_eq!(Instruction::try_from(']'), Ok(Instruction::LoopEnd));
    assert_eq!(Instruction::try_from('!'), Err(Error::InvalidInstruction('!')));
}

#[test]
fn fresh_state_is_zeroed() {
    let state = State::new();
    assert_eq!(state.memory.len(), TAPE_LEN);
    assert!(state.memory.iter().all(|&b| b == 0));
    assert_eq!(state.pointer_idx, 0);
    assert!(state.loop_starts.is_empty());
    assert!(state.output.is_empty());
}

#[test]
fn inc_then_dec_restores_cell() {
    let state = run_done("+-", &[]);
    assert_eq!(state.memory[0], 0);
    assert_eq!(state.pointer_idx, 0);
}

#[test]
fn dec_wraps_zero_to_255() {
    let state = run_done("-", &[]);
    assert_eq!(state.memory[0], 255);
}

#[test]
fn dec_then_inc_restores_across_wrap() {
    let state = run_done("-+", &[]);
    assert_eq!(state.memory[0], 0);
}

#[test]
fn inc_wraps_255_to_zero() {
    let src = "+".repeat(256);
    let state = run_done(&src, &[]);
    assert_eq!(state.memory[0], 0);
}

#[test]
fn loop_over_zero_cell_skips_body() {
    let state = run_done("[>]", &[]);
    assert_eq!(state.pointer_idx, 0);
    assert!(state.memory.iter().all(|&b| b == 0));
}

#[test]
fn loop_body_not_touching_tested_cell_runs_once() {
    let state = run_done("+[>]", &[]);
    assert_eq!(state.pointer_idx, 1);
    assert_eq!(state.memory[0], 1);
}

#[test]
fn loop_end_with_empty_stack_is_fatal() {
    match run("]", &[]) {
        RunResult::Failed(e) => assert_eq!(e, Error::UnmatchedLoopEnd),
        _ => panic!("loop-end with an empty stack must fail"),
    }
}

#[test]
fn unmatched_loop_start_is_fatal() {
    match run("[", &[]) {
        RunResult::Failed(e) => assert_eq!(e, Error::UnmatchedLoopStart),
        _ => panic!("a scan past the program end must fail"),
    }
}

#[test]
fn two_incs_output_byte_two() {
    let state = run_done("++.", &[]);
    assert_eq!(state.output, vec![2]);
    assert_eq!(state.input_pos, 0);
}

#[test]
fn echo_one_byte() {
    let state = run_done(",.", &[65]);
    assert_eq!(state.output, vec![65]);
}

#[test]
fn multiply_via_nested_loop() {
    let state = run_done("++[>+++<-]", &[]);
    assert_eq!(state.memory[1], 6);
    assert_eq!(state.memory[0], 0);
    assert_eq!(state.pointer_idx, 0);
}

#[test]
fn forward_scan_is_depth_balanced() {
    let prog = translate(&b"[[]+]".to_vec()).unwrap();
    assert_eq!(find_matching_loop_end_pos(0, &prog), Ok(4));
    assert_eq!(find_matching_loop_end_pos(1, &prog), Ok(2));
}

#[test]
fn forward_scan_without_match_fails() {
    let prog = translate(&b"[[]".to_vec()).unwrap();
    assert_eq!(
        find_matching_loop_end_pos(0, &prog),
        Err(Error::UnmatchedLoopStart)
    );
}

#[test]
fn skip_over_nested_loops_lands_past_match() {
    let state = run_done("[[]]+", &[]);
    assert_eq!(state.memory[0], 1);
    assert_eq!(state.pointer_idx, 0);
}

#[test]
fn move_left_at_edge_is_fatal() {
    match run("<", &[]) {
        RunResult::Failed(e) => assert_eq!(e, Error::CursorOutOfBounds),
        _ => panic!("moving left off the tape must fail"),
    }
}

#[test]
fn move_right_past_last_cell_is_fatal() {
    let src = ">".repeat(TAPE_LEN);
    let prog = translate(&src.as_bytes().to_vec()).unwrap();
    match interpret_many(&prog, Vec::new(), 1_000_000) {
        RunResult::Failed(e) => assert_eq!(e, Error::CursorOutOfBounds),
        _ => panic!("moving right off the tape must fail"),
    }
}

#[test]
fn input_on_empty_stream_is_fatal() {
    match run(",", &[]) {
        RunResult::Failed(e) => assert_eq!(e, Error::InputExhausted),
        _ => panic!("input with no bytes left must fail"),
    }
}

#[test]
fn exhausted_budget_reports_running() {
    let prog = translate(&b"+[]".to_vec()).unwrap();
    match interpret_many(&prog, Vec::new(), 10) {
        RunResult::Running(state, ip) => {
            assert!(ip < prog.len());
            assert_eq!(state.memory[0], 1);
        }
        _ => panic!("an endless loop must exhaust the budget"),
    }
}

#[test]
fn single_step_increments_and_advances() {
    let mut state = State::new();
    let prog = translate(&b"+".to_vec()).unwrap();
    let next = interpret_one(&mut state, &prog, 0);
    assert_eq!(next, Ok(1));
    assert_eq!(state.memory[0], 1);
}

#[test]
fn single_step_loop_end_returns_pushed_position() {
    let mut state = State::new();
    let prog = translate(&b"+[-]".to_vec()).unwrap();
    assert_eq!(interpret_one(&mut state, &prog, 0), Ok(1));
    assert_eq!(interpret_one(&mut state, &prog, 1), Ok(2));
    assert_eq!(state.loop_starts, vec![1]);
    assert_eq!(interpret_one(&mut state, &prog, 2), Ok(3));
    assert_eq!(interpret_one(&mut state, &prog, 3), Ok(1));
    assert!(state.loop_starts.is_empty());
}
