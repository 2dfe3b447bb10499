//! The interpreter state and its mathematical model.

use vstd::prelude::*;

verus! {

/// Length of the tape: a fixed number of byte cells.
pub const TAPE_LEN: usize = 30000;

/// The mutable state of one run: the tape and the cursor into it, the
/// stack of open loop-starts, and the two byte streams the run consumes
/// and produces. Input and output are held as plain byte sequences so the
/// whole run is a function of its inputs; whatever feeds the input bytes
/// in or carries the output bytes away stands outside this crate.
pub struct State {
    /// The tape: `TAPE_LEN` byte cells, all zero at the start of a run.
    pub memory: Vec<u8>,
    /// The cursor: the index of the currently selected tape cell.
    pub pointer_idx: usize,
    /// The positions of the loop-starts entered and not yet closed.
    pub loop_starts: Vec<usize>,
    /// The input stream, consumed one byte at a time.
    pub input: Vec<u8>,
    /// How many input bytes have been consumed so far.
    pub input_pos: usize,
    /// The output stream, grown one byte at a time.
    pub output: Vec<u8>,
}

/// The mathematical shape of a [`State`]: the same data over `Seq` and
/// `int`. All contracts of the executor speak of this model.
#[verifier::ext_equal]
pub struct Model {
    pub memory: Seq<u8>,
    pub pointer_idx: int,
    pub loop_starts: Seq<int>,
    pub input: Seq<u8>,
    pub input_pos: int,
    pub output: Seq<u8>,
}

/// Well-formedness of a model: the tape has its fixed length, the cursor
/// is on the tape, and no more input has been consumed than exists.
pub open spec fn wf_model(m: Model) -> bool {
    &&& m.memory.len() == TAPE_LEN
    &&& 0 <= m.pointer_idx < m.memory.len()
    &&& 0 <= m.input_pos <= m.input.len()
    &&& forall|i: int| 0 <= i < m.loop_starts.len() ==> m.loop_starts[i] >= 0
}

/// The model a run starts from: a zeroed tape, the cursor at the left
/// edge, nothing on the loop-stack, the given input untouched, no output.
pub open spec fn init_model(input: Seq<u8>) -> Model {
    Model {
        memory: Seq::new(TAPE_LEN as nat, |i: int| 0u8),
        pointer_idx: 0,
        loop_starts: Seq::empty(),
        input: input,
        input_pos: 0,
        output: Seq::empty(),
    }
}

impl View for State {
    type V = Model;

    open spec fn view(&self) -> Model {
        Model {
            memory: self.memory@,
            pointer_idx: self.pointer_idx as int,
            loop_starts: self.loop_starts@.map_values(|p: usize| p as int),
            input: self.input@,
            input_pos: self.input_pos as int,
            output: self.output@,
        }
    }
}

impl State {
    /// Well-formedness, lifted to the executable state.
    pub open spec fn wf(&self) -> bool {
        wf_model(self@)
    }

    /// A fresh state with an empty input stream.
    pub fn new() -> (r: State)
        ensures
            r@ == init_model(Seq::<u8>::empty()),
            r.wf(),
    {
        State::with_input(Vec::new())
    }

    /// A fresh state that will consume the given input bytes.
    pub fn with_input(input: Vec<u8>) -> (r: State)
        ensures
            r@ == init_model(input@),
            r.wf(),
    {
        let mut memory: Vec<u8> = Vec::new();
        let mut i: usize = 0;
        while i < TAPE_LEN
            invariant
                i <= TAPE_LEN,
                memory@.len() == i,
                forall|j: int| 0 <= j < i ==> memory@[j] == 0u8,
            decreases TAPE_LEN - i,
        {
            memory.push(0u8);
            i = i + 1;
        }
        let r = State {
            memory,
            pointer_idx: 0,
            loop_starts: Vec::new(),
            input,
            input_pos: 0,
            output: Vec::new(),
        };
        proof {
            assert(r@.memory =~= init_model(input@).memory);
            assert(r@.loop_starts =~= init_model(input@).loop_starts);
            assert(r@ =~= init_model(input@));
        }
        r
    }
}

} // verus!
