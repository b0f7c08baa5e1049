//! Inventory and guided cleanup of developer toolchains, blockchain CLI
//! releases and emulator images.
//!
//! The library holds the decisions: how installed items are normalised,
//! which of them are active, how usage is summed and shown, which items may
//! be offered for deletion, and how a deletion batch and the cleanup wizard
//! advance. Walking the disk, running external tools and prompting the
//! operator are left to the caller, which hands the results in as plain values.

pub mod cleanup;
pub mod interactive;
pub mod rust;
pub mod selection;
pub mod simulator;
pub mod solana;
pub mod status;
pub mod text;
pub mod utils;

pub use cleanup::DeletionBatch;
pub use interactive::{Backend, Interactive, WizardAction, WizardStep};
pub use rust::{Rust, RustInfo, RustRecord, ToolchainEntry};
pub use selection::{SelectStep, SelectionGate};
pub use simulator::{
    DeviceEntry, DeviceGroup, MeasuredRuntime, RuntimeEntry, Simulator, SimulatorInfo, SimulatorKind,
    SimulatorRecord,
};
pub use solana::{ReleaseEntry, Solana, SolanaInfo, SolanaRecord};
pub use status::{Status, Summary};
pub use text::{contains_text, nth_token};
pub use utils::Utils;
