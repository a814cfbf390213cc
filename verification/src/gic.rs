//! What a controller driver offers to the code that handles interrupts.

use crate::affinity::CPUTarget;
use crate::intid::IntId;
use vstd::prelude::*;

verus! {

/// The trigger configuration for an interrupt.
#[derive(Copy, Clone, Debug, Eq, PartialEq, Structural)]
pub enum Trigger {
    /// The interrupt is edge triggered.
    Edge,
    /// The interrupt is level triggered.
    Level,
}

/// Why an operation of a controller driver failed.
#[derive(Debug)]
pub enum GicError {
    /// The controller generation lacks the feature that was asked for.
    Notimplemented,
    /// The hardware did not complete a handshake within the driver's bound.
    Timeout,
}

impl Clone for GicError {
    fn clone(&self) -> (copy: Self)
        ensures
            copy == *self,
    {
        match self {
            GicError::Notimplemented => GicError::Notimplemented,
            GicError::Timeout => GicError::Timeout,
        }
    }
}

/// What a fallible operation of a controller driver returns.
pub type GicResult<T = ()> = core::result::Result<T, GicError>;

/// The operations that every controller driver offers, whatever the
/// generation of the controller.
///
/// A driver acts on registers that all cores share, and of which this crate
/// holds no model: what is known of arguments and results is what their types
/// carry, such as that every [`IntId`] lies in the ID space.
///
/// The methods that take `&mut self` read, modify and write state of the
/// distributor, so the caller serialises them. The methods that take `&self`
/// act on the calling core's own interface and may run on several cores at
/// once. No method retries: where a driver waits for the hardware and its
/// bound is exceeded, the caller decides what follows.
pub trait GicGeneric {
    /// Reads the highest-priority pending interrupt of the calling core and
    /// marks it active; `None` if no interrupt is pending. Each ID that is
    /// returned is to be handed to `end_interrupt` once.
    fn get_and_acknowledge_interrupt(&self) -> Option<IntId>;

    /// Signals that the handling of an acknowledged interrupt is complete.
    fn end_interrupt(&self, intid: IntId);

    /// The number of interrupt IDs that this controller supports.
    fn irq_max_size(&self) -> usize;

    /// Enables one interrupt.
    fn irq_enable(&mut self, intid: IntId);

    /// Disables one interrupt.
    fn irq_disable(&mut self, intid: IntId);

    /// Sets the priority of one interrupt, on the controller's own scale.
    fn set_priority(&mut self, intid: IntId, priority: usize);

    /// Makes one interrupt edge or level triggered.
    fn set_trigger(&mut self, intid: IntId, trigger: Trigger);

    /// Routes a shared interrupt to the cores given.
    fn set_bind_cpu(&mut self, intid: IntId, cpu_list: &[CPUTarget]);

    /// Prepares the calling core to receive interrupts.
    fn current_cpu_setup(&self);
}

} // verus!
