//! Interrupt-flag handling for a processor whose enable state is one bit of
//! the machine-status register: bit 3, the machine-interrupt-enable bit. The
//! snapshot word carries that bit alone, so it is `0x08` or `0`.

use vstd::prelude::*;
use crate::interrupt_guard::InterruptControl;

verus! {

/// Model of this processor's interrupt-enable state: the
/// machine-interrupt-enable bit of the machine-status register.
pub struct InterruptState {
    pub mie: bool,
}

/// Snapshot encoding: the machine-interrupt-enable bit in place, so `0x08`
/// when enabled and `0` when disabled.
pub open spec fn spec_get_flag(st: InterruptState) -> usize {
    if st.mie {
        0x08
    } else {
        0
    }
}

/// Returns the machine-status word masked to the interrupt-enable bit.
pub fn get_flag(st: &InterruptState) -> (flag: usize)
    ensures
        flag == spec_get_flag(*st),
{
    if st.mie {
        0x08
    } else {
        0
    }
}

/// Clears the machine-interrupt-enable bit. Idempotent.
pub fn disable(st: &mut InterruptState)
    ensures
        !final(st).mie,
{
    st.mie = false;
}

/// Sets the machine-interrupt-enable bit. Idempotent.
pub fn enable(st: &mut InterruptState)
    ensures
        final(st).mie,
{
    st.mie = true;
}

/// Sets the enable state to what the snapshot recorded: enabled exactly when
/// the snapshot has the interrupt-enable bit set.
pub fn set_flag(st: &mut InterruptState, flag: usize)
    ensures
        final(st).mie == ((flag & 0x08) != 0),
{
    if flag & 0x08 > 0 {
        enable(st);
    } else {
        disable(st);
    }
}

impl InterruptControl for InterruptState {
    open spec fn int_enabled(&self) -> bool {
        self.mie
    }

    open spec fn flag_enabled(flag: usize) -> bool {
        (flag & 0x08) != 0
    }

    fn get_flag(&self) -> (flag: usize) {
        let flag = get_flag(self);
        proof {
            assert((0x08usize & 0x08) != 0) by (bit_vector);
            assert((0usize & 0x08) == 0) by (bit_vector);
        }
        flag
    }

    fn disable(&mut self) {
        disable(self)
    }

    fn set_flag(&mut self, flag: usize) {
        set_flag(self, flag)
    }
}

} // verus!
