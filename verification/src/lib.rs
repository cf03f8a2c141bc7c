//! The execution core of a register-based virtual machine: machine words,
//! fat pointers, addressing modes, call frames and the execution loop.

pub mod addressing_modes;
pub mod bitset;
pub mod debug;
pub mod execution;
pub mod fat_pointer;
pub mod heaps;
pub mod instruction;
pub mod instruction_handlers;
pub mod predication;
pub mod state;
pub mod word;

pub use crate::debug::Inspection;
pub use crate::fat_pointer::FatPointer;
pub use crate::heaps::{Heaps, MemoryQuery};
pub use crate::instruction::{
    end_execution, jump_to_beginning, ExecutionEnd, Instruction, InstructionVariant,
};
pub use crate::instruction_handlers::pointer::{
    PtrAdd, PtrAddSub, PtrOp, PtrPack, PtrShrink, PtrSub,
};
pub use crate::predication::{Flags, Predicate};
pub use crate::state::{Callframe, State};
pub use crate::word::Word;
