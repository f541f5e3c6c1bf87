//! Typed, validated PCR selections and their fixed-size wire encoding.

pub mod error;
pub mod mask;
pub mod select;
pub mod select_size;
pub mod slot;
pub mod slot_set;
pub mod wire;

pub use error::{Error, WrapperErrorKind};
pub use select::PcrSelect;
pub use select_size::PcrSelectSize;
pub use slot::PcrSlot;
pub use slot_set::PcrSlotSet;
pub use wire::{TpmsPcrSelect, TPM2_PCR_SELECT_MAX};
