//! Startup support for AArch64 Cortex-A cores: boot-stack reservation,
//! exception-level selection of the vector table, and the protocol that hands
//! a unit of work to a secondary core through the tail of its stack.

pub mod bringup;
pub mod descriptor;
pub mod exception;
pub mod firmware;
pub mod stack;

pub use stack::{BootStack, Stack, StackPage, DEFAULT_BOOT_STACK_PAGES, PAGE_SIZE};
pub use exception::{ExceptionLevel, LevelSelection, VectorConfig, VectorError};
pub use descriptor::{trampoline, StartCoreStack, TrampolineError};
pub use bringup::{
    descriptor_slot, BringupAction, BringupEvent, BringupStage, CoreBringup, CpuOnRequest,
    LayoutError, STACK_ALIGN,
};
