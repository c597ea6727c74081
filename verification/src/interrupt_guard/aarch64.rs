//! Interrupt-flag handling for a processor whose enable state is an
//! interrupt-mask register: the snapshot is the whole mask word, and
//! maskable interrupts are enabled exactly when the IRQ-mask bit, bit 7,
//! is clear.

use vstd::prelude::*;
use crate::interrupt_guard::InterruptControl;

verus! {

/// The IRQ-mask bit of the interrupt-mask register.
pub const IRQ_MASK_BIT: usize = 0x80;

/// Model of this processor's interrupt-enable state: the interrupt-mask
/// register, whose bit 7 masks IRQs when set.
pub struct InterruptState {
    pub daif: usize,
}

impl InterruptState {
    /// Maskable interrupts are enabled exactly when the IRQ-mask bit is
    /// clear.
    pub open spec fn irq_enabled(&self) -> bool {
        (self.daif & IRQ_MASK_BIT) == 0
    }
}

/// Returns the whole interrupt-mask register as the snapshot word.
pub fn get_flag(st: &InterruptState) -> (flag: usize)
    ensures
        flag == st.daif,
{
    st.daif
}

/// Sets the IRQ-mask bit, masking maskable interrupts. Other mask bits are
/// untouched. Idempotent.
pub fn disable(st: &mut InterruptState)
    ensures
        final(st).daif == old(st).daif | IRQ_MASK_BIT,
        !final(st).irq_enabled(),
{
    st.daif = st.daif | IRQ_MASK_BIT;
    proof {
        let d = old(st).daif;
        assert(((d | 0x80usize) & 0x80usize) != 0) by (bit_vector);
    }
}

/// Writes the snapshot back into the interrupt-mask register, restoring
/// every mask bit to its recorded state.
pub fn set_flag(st: &mut InterruptState, flag: usize)
    ensures
        final(st).daif == flag,
{
    st.daif = flag;
}

/// Whether maskable interrupts are currently enabled. Diagnostics only.
pub fn are_enabled(st: &InterruptState) -> (r: bool)
    ensures
        r == st.irq_enabled(),
{
    (st.daif & IRQ_MASK_BIT) == 0
}

impl InterruptControl for InterruptState {
    open spec fn int_enabled(&self) -> bool {
        self.irq_enabled()
    }

    open spec fn flag_enabled(flag: usize) -> bool {
        (flag & IRQ_MASK_BIT) == 0
    }

    fn get_flag(&self) -> (flag: usize) {
        get_flag(self)
    }

    fn disable(&mut self) {
        disable(self)
    }

    fn set_flag(&mut self, flag: usize) {
        set_flag(self, flag)
    }
}

} // verus!
