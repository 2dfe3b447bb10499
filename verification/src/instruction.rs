//! The instruction set, the error taxonomy, and the translator.

use vstd::prelude::*;

verus! {

/// One primitive operation of the language. A program is a finite sequence
/// of these, and nothing else: there is no payload beyond the tag.
#[derive(Clone, Copy, Debug, PartialEq, Eq, Structural)]
pub enum Instruction {
    MoveRight,
    MoveLeft,
    Inc,
    Dec,
    Output,
    Input,
    LoopStart,
    LoopEnd,
}

/// Everything that can go wrong while translating or running a program.
/// Every failure is fatal: the run is over the moment one arises.
#[derive(Clone, Copy, Debug, PartialEq, Eq, Structural)]
pub enum Error {
    /// A source character outside the eight-symbol table (strict translation).
    InvalidInstruction(char),
    /// A loop-end executed while the loop-stack was empty.
    UnmatchedLoopEnd,
    /// The forward scan for a matching loop-end ran off the end of the program.
    UnmatchedLoopStart,
    /// A move off either edge of the tape.
    CursorOutOfBounds,
    /// An input instruction executed with no input bytes left.
    InputExhausted,
}

/// The fixed character table: which instruction, if any, a source
/// character denotes.
pub open spec fn char_to_instruction(c: char) -> Option<Instruction> {
    if c == '>' {
        Some(Instruction::MoveRight)
    } else if c == '<' {
        Some(Instruction::MoveLeft)
    } else if c == '+' {
        Some(Instruction::Inc)
    } else if c == '-' {
        Some(Instruction::Dec)
    } else if c == '.' {
        Some(Instruction::Output)
    } else if c == ',' {
        Some(Instruction::Input)
    } else if c == '[' {
        Some(Instruction::LoopStart)
    } else if c == ']' {
        Some(Instruction::LoopEnd)
    } else {
        None
    }
}

impl Instruction {
    /// Translate one character, strictly: a character outside the table is
    /// an `InvalidInstruction` error naming that exact character.
    pub fn try_from(c: char) -> (r: Result<Instruction, Error>)
        ensures
            r == (match char_to_instruction(c) {
                Some(i) => Ok::<Instruction, Error>(i),
                None => Err::<Instruction, Error>(Error::InvalidInstruction(c)),
            }),
    {
        match c {
            '>' => Ok(Instruction::MoveRight),
            '<' => Ok(Instruction::MoveLeft),
            '+' => Ok(Instruction::Inc),
            '-' => Ok(Instruction::Dec),
            '.' => Ok(Instruction::Output),
            ',' => Ok(Instruction::Input),
            '[' => Ok(Instruction::LoopStart),
            ']' => Ok(Instruction::LoopEnd),
            _ => Err(Error::InvalidInstruction(c)),
        }
    }
}

/// Whether every byte of a source, read as a character, is in the table.
pub open spec fn all_chars_valid(src: Seq<u8>) -> bool {
    forall|i: int| 0 <= i < src.len() ==> char_to_instruction(src[i] as char) is Some
}

/// Strict translation: the whole source becomes a program of the same
/// length, or the first character outside the table aborts the translation
/// with an `InvalidInstruction` error naming it. No partial program is
/// ever produced.
pub fn translate(source: &Vec<u8>) -> (r: Result<Vec<Instruction>, Error>)
    ensures
        r is Ok <==> all_chars_valid(source@),
        (r matches Ok(prog) ==> prog@.len() == source@.len() && (forall|i: int|
            0 <= i < source@.len() ==> char_to_instruction(source@[i] as char) == Some(
                prog@[i],
            ))),
        (r matches Err(e) ==> (exists|i: int|
            0 <= i < source@.len() && char_to_instruction(source@[i] as char) is None && (forall|
                j: int,
            | 0 <= j < i ==> char_to_instruction(source@[j] as char) is Some) && e
                == Error::InvalidInstruction(source@[i] as char))),
{
    let mut prog: Vec<Instruction> = Vec::new();
    let mut i: usize = 0;
    while i < source.len()
        invariant
            i <= source@.len(),
            prog@.len() == i,
            forall|j: int| 0 <= j < i ==> char_to_instruction(source@[j] as char) == Some(prog@[j]),
        decreases source@.len() - i,
    {
        let c = source[i] as char;
        match Instruction::try_from(c) {
            Ok(ins) => {
                prog.push(ins);
            },
            Err(e) => {
                proof {
                    assert(char_to_instruction(source@[i as int] as char) is None);
                }
                return Err(e);
            },
        }
        i = i + 1;
    }
    Ok(prog)
}

/// What permissive translation yields: the instructions of the characters
/// in the table, in source order, the rest skipped as comments.
pub open spec fn skipped_translation(src: Seq<u8>) -> Seq<Instruction>
    decreases src.len(),
{
    if src.len() == 0 {
        Seq::empty()
    } else {
        let rest = skipped_translation(src.drop_last());
        match char_to_instruction(src.last() as char) {
            Some(i) => rest.push(i),
            None => rest,
        }
    }
}

/// Permissive translation: characters outside the table are skipped
/// silently, as comments. This mode never fails.
pub fn translate_permissive(source: &Vec<u8>) -> (prog: Vec<Instruction>)
    ensures
        prog@ == skipped_translation(source@),
{
    let mut prog: Vec<Instruction> = Vec::new();
    let mut i: usize = 0;
    while i < source.len()
        invariant
            i <= source@.len(),
            prog@ == skipped_translation(source@.subrange(0, i as int)),
        decreases source@.len() - i,
    {
        let c = source[i] as char;
        match Instruction::try_from(c) {
            Ok(ins) => {
                prog.push(ins);
            },
            Err(_) => {
            },
        }
        proof {
            let pre = source@.subrange(0, i as int);
            let post = source@.subrange(0, i + 1);
            assert(post.drop_last() =~= pre);
            assert(post.last() == source@[i as int]);
        }
        i = i + 1;
    }
    proof {
        assert(source@.subrange(0, source@.len() as int) =~= source@);
    }
    prog
}

} // verus!
