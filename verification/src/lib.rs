//! Identifier space and CPU-targeting encodings of an ARM Generic Interrupt
//! Controller, together with the operation set that a controller driver offers.

pub mod affinity;
pub mod decimal;
pub mod gic;
pub mod intid;

pub use affinity::{CPUTarget, SGITarget, MPID};
pub use gic::{GicError, GicGeneric, GicResult, Trigger};
pub use intid::{
    IntId, PPI_END, PPI_START, SGI_END, SGI_START, SPECIAL_END, SPECIAL_START, SPI_END, SPI_START,
};
