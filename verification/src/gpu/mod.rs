//! The GPU generators' verified parts: the PCI ID database parser and pinned
//! sources of the device catalogue, the parameter typing of the tier tables,
//! and the tier tables' float-free sections.

pub mod catalogue;
pub mod emit;
pub mod tier;
