//! Instructions in their compiled form.

use vstd::prelude::*;

use crate::errors::ConversionError;
use crate::seqs::{
    lemma_try_map_prefix, lemma_try_map_step, lemma_views_empty, lemma_views_push, try_map, views,
};
use crate::text::{base58_decoded, decode_base58};
use crate::ui::{UiCompiledInstruction, UiInnerInstructions, UiInstruction};

verus! {

/// An instruction of a message: the program by its place among the account
/// keys, the accounts by theirs, and the input of the program.
#[derive(Clone, Debug, PartialEq, Eq)]
pub struct CompiledInstruction {
    pub program_id_index: u8,
    pub accounts: Vec<u8>,
    pub data: Vec<u8>,
}

pub struct CompiledInstructionView {
    pub program_id_index: u8,
    pub accounts: Seq<u8>,
    pub data: Seq<u8>,
}

impl View for CompiledInstruction {
    type V = CompiledInstructionView;

    open spec fn view(&self) -> CompiledInstructionView {
        CompiledInstructionView {
            program_id_index: self.program_id_index,
            accounts: self.accounts@,
            data: self.data@,
        }
    }
}

/// An instruction that a program issued while it ran.
#[derive(Clone, Debug, PartialEq, Eq)]
pub struct InnerInstruction {
    pub instruction: CompiledInstruction,
    /// How deep in the stack of calls the instruction was issued.
    pub stack_height: Option<u32>,
}

pub struct InnerInstructionView {
    pub instruction: CompiledInstructionView,
    pub stack_height: Option<u32>,
}

impl View for InnerInstruction {
    type V = InnerInstructionView;

    open spec fn view(&self) -> InnerInstructionView {
        InnerInstructionView { instruction: self.instruction@, stack_height: self.stack_height }
    }
}

/// The instructions that one instruction of a transaction issued.
#[derive(Clone, Debug, PartialEq, Eq)]
pub struct InnerInstructions {
    /// The place of the issuing instruction in the transaction.
    pub index: u8,
    pub instructions: Vec<InnerInstruction>,
}

pub struct InnerInstructionsView {
    pub index: u8,
    pub instructions: Seq<InnerInstructionView>,
}

impl View for InnerInstructions {
    type V = InnerInstructionsView;

    open spec fn view(&self) -> InnerInstructionsView {
        InnerInstructionsView { index: self.index, instructions: views(self.instructions@) }
    }
}

/// The instruction that a document's instruction stands for: the same, with
/// its data decoded from base 58. `None` where the data is not base 58.
pub open spec fn decoded_instruction(ui: UiCompiledInstruction) -> Option<CompiledInstructionView> {
    match base58_decoded(ui.data@) {
        Some(data) => Some(
            CompiledInstructionView {
                program_id_index: ui.program_id_index,
                accounts: ui.accounts@,
                data,
            },
        ),
        None => None,
    }
}

/// The inner instruction that a document's instruction stands for.
pub open spec fn decoded_inner_instruction(ui: UiCompiledInstruction) -> Option<
    InnerInstructionView,
> {
    match decoded_instruction(ui) {
        Some(instruction) => Some(
            InnerInstructionView { instruction, stack_height: ui.stack_height },
        ),
        None => None,
    }
}

/// The inner instruction that an instruction of either form stands for: only
/// the compiled form stands for one, and only where its data is base 58.
pub open spec fn converted_instruction(ui: UiInstruction) -> Result<
    InnerInstructionView,
    ConversionError,
> {
    match ui {
        UiInstruction::Compiled(compiled) => match decoded_inner_instruction(compiled) {
            Some(inner) => Ok(inner),
            None => Err(ConversionError::InvalidData),
        },
        UiInstruction::Parsed => Err(ConversionError::UnsupportedInstructionFormat),
    }
}

/// Converts one instruction of either form.
pub open spec fn instruction_converter() -> spec_fn(UiInstruction) -> Result<
    InnerInstructionView,
    ConversionError,
> {
    |ui: UiInstruction| converted_instruction(ui)
}

/// What a document's group of inner instructions stands for: its
/// instructions converted in order, or the error of the first that cannot be.
pub open spec fn converted_inner_instructions(ui: UiInnerInstructions) -> Result<
    InnerInstructionsView,
    ConversionError,
> {
    match try_map(ui.instructions@, instruction_converter()) {
        Ok(instructions) => Ok(InnerInstructionsView { index: ui.index, instructions }),
        Err(e) => Err(e),
    }
}

/// Converts one group of inner instructions.
pub open spec fn group_converter() -> spec_fn(UiInnerInstructions) -> Result<
    InnerInstructionsView,
    ConversionError,
> {
    |ui: UiInnerInstructions| converted_inner_instructions(ui)
}

impl CompiledInstruction {
    /// The instruction of a document with the data that its text decodes to.
    pub fn with_data(ui: &UiCompiledInstruction, data: Vec<u8>) -> (instruction:
        CompiledInstruction)
        ensures
            instruction@ == (CompiledInstructionView {
                program_id_index: ui.program_id_index,
                accounts: ui.accounts@,
                data: data@,
            }),
    {
        let accounts = ui.accounts.clone();
        assert(accounts@ =~= ui.accounts@);
        CompiledInstruction { program_id_index: ui.program_id_index, accounts, data }
    }

    /// Decodes the instruction of a document. `None` where its data is not
    /// base 58.
    pub fn try_from_ui(ui: &UiCompiledInstruction) -> (instruction: Option<CompiledInstruction>)
        ensures
            decoded_instruction(*ui) == match instruction {
                Some(i) => Some(i@),
                None => None,
            },
    {
        match decode_base58(ui.data.as_str()) {
            Some(data) => Some(CompiledInstruction::with_data(ui, data)),
            None => None,
        }
    }
}

impl InnerInstruction {
    /// Decodes an inner instruction of a document. `None` where its data is
    /// not base 58.
    pub fn try_from_ui(ui: &UiCompiledInstruction) -> (inner: Option<InnerInstruction>)
        ensures
            decoded_inner_instruction(*ui) == match inner {
                Some(i) => Some(i@),
                None => None,
            },
    {
        match CompiledInstruction::try_from_ui(ui) {
            Some(instruction) => Some(
                InnerInstruction { instruction, stack_height: ui.stack_height },
            ),
            None => None,
        }
    }

    /// Converts an instruction of either form.
    pub fn try_from_instruction(ui: &UiInstruction) -> (inner: Result<
        InnerInstruction,
        ConversionError,
    >)
        ensures
            converted_instruction(*ui) == match inner {
                Ok(i) => Ok::<InnerInstructionView, ConversionError>(i@),
                Err(e) => Err(e),
            },
    {
        match ui {
            UiInstruction::Compiled(compiled) => match InnerInstruction::try_from_ui(compiled) {
                Some(inner) => Ok(inner),
                None => Err(ConversionError::InvalidData),
            },
            UiInstruction::Parsed => Err(ConversionError::UnsupportedInstructionFormat),
        }
    }
}

impl InnerInstructions {
    /// Converts a group of inner instructions of a document. The error is
    /// that of the first instruction that cannot be converted.
    pub fn try_from_ui(ui: &UiInnerInstructions) -> (group: Result<
        InnerInstructions,
        ConversionError,
    >)
        ensures
            converted_inner_instructions(*ui) == match group {
                Ok(g) => Ok::<InnerInstructionsView, ConversionError>(g@),
                Err(e) => Err(e),
            },
    {
        let mut out: Vec<InnerInstruction> = Vec::new();
        let mut i: usize = 0;
        proof {
            lemma_views_empty::<InnerInstruction>();
            assert(ui.instructions@.subrange(0, 0) =~= Seq::<UiInstruction>::empty());
        }
        while i < ui.instructions.len()
            invariant
                i <= ui.instructions.len(),
                try_map(ui.instructions@.subrange(0, i as int), instruction_converter()) == Ok::<
                    Seq<InnerInstructionView>,
                    ConversionError,
                >(views(out@)),
            decreases ui.instructions.len() - i,
        {
            proof {
                lemma_try_map_step(ui.instructions@, instruction_converter(), i as int);
            }
            match InnerInstruction::try_from_instruction(&ui.instructions[i]) {
                Ok(inner) => {
                    proof {
                        lemma_views_push(out@, inner);
                    }
                    out.push(inner);
                },
                Err(e) => {
                    proof {
                        lemma_try_map_prefix(ui.instructions@, instruction_converter(), i + 1);
                    }
                    return Err(e);
                },
            }
            i = i + 1;
        }
        assert(ui.instructions@.subrange(0, ui.instructions.len() as int) =~= ui.instructions@);
        Ok(InnerInstructions { index: ui.index, instructions: out })
    }

    /// Converts the groups of inner instructions of a document in order. The
    /// error is that of the first group that cannot be converted.
    pub fn try_from_ui_list(uis: &Vec<UiInnerInstructions>) -> (groups: Result<
        Vec<InnerInstructions>,
        ConversionError,
    >)
        ensures
            try_map(uis@, group_converter()) == match groups {
                Ok(g) => Ok::<Seq<InnerInstructionsView>, ConversionError>(views(g@)),
                Err(e) => Err(e),
            },
    {
        let mut out: Vec<InnerInstructions> = Vec::new();
        let mut i: usize = 0;
        proof {
            lemma_views_empty::<InnerInstructions>();
            assert(uis@.subrange(0, 0) =~= Seq::<UiInnerInstructions>::empty());
        }
        while i < uis.len()
            invariant
                i <= uis.len(),
                try_map(uis@.subrange(0, i as int), group_converter()) == Ok::<
                    Seq<InnerInstructionsView>,
                    ConversionError,
                >(views(out@)),
            decreases uis.len() - i,
        {
            proof {
                lemma_try_map_step(uis@, group_converter(), i as int);
            }
            match InnerInstructions::try_from_ui(&uis[i]) {
                Ok(group) => {
                    proof {
                        lemma_views_push(out@, group);
                    }
                    out.push(group);
                },
                Err(e) => {
                    proof {
                        lemma_try_map_prefix(uis@, group_converter(), i + 1);
                    }
                    return Err(e);
                },
            }
            i = i + 1;
        }
        assert(uis@.subrange(0, uis.len() as int) =~= uis@);
        Ok(out)
    }
}

} // verus!
