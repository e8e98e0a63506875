//! Privileged-state substrate of a 32-bit ARM7TDMI-class processor core:
//! banked-register mode switching, condition-flag derivation, exception
//! entry, and a cycle-accurate bus timing model with address-space dispatch.

pub mod codec;
pub mod mem_map;
pub mod cpu;
