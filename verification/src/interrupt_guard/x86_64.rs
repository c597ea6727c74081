//! Interrupt-flag handling for a processor whose enable state is a single
//! interrupt-enable bit, snapshotted as the word `1` (enabled) or `0`
//! (disabled).

use vstd::prelude::*;
use crate::interrupt_guard::InterruptControl;

verus! {

/// Model of this processor's interrupt-enable state: the interrupt-enable
/// bit of the flags register.
pub struct InterruptState {
    pub interrupts_on: bool,
}

/// Snapshot encoding: `1` when interrupts are enabled, `0` when disabled.
pub open spec fn spec_get_flag(st: InterruptState) -> usize {
    if st.interrupts_on {
        1
    } else {
        0
    }
}

/// Returns an opaque word encoding the current enable state.
pub fn get_flag(st: &InterruptState) -> (flag: usize)
    ensures
        flag == spec_get_flag(*st),
{
    if st.interrupts_on {
        1
    } else {
        0
    }
}

/// Masks maskable interrupts. Idempotent.
pub fn disable(st: &mut InterruptState)
    ensures
        !final(st).interrupts_on,
{
    st.interrupts_on = false;
}

/// Sets the enable state to exactly what the snapshot recorded: a zero flag
/// disables, any other flag enables.
pub fn set_flag(st: &mut InterruptState, flag: usize)
    ensures
        final(st).interrupts_on == (flag != 0),
{
    if flag == 0 {
        st.interrupts_on = false;
    } else {
        st.interrupts_on = true;
    }
}

/// Whether maskable interrupts are currently enabled. Diagnostics only.
pub fn are_enabled(st: &InterruptState) -> (r: bool)
    ensures
        r == st.interrupts_on,
{
    st.interrupts_on
}

impl InterruptControl for InterruptState {
    open spec fn int_enabled(&self) -> bool {
        self.interrupts_on
    }

    open spec fn flag_enabled(flag: usize) -> bool {
        flag != 0
    }

    fn get_flag(&self) -> (flag: usize) {
        get_flag(self)
    }

    fn disable(&mut self) {
        disable(self)
    }

    fn set_flag(&mut self, flag: usize) {
        set_flag(self, flag)
    }
}

} // verus!
