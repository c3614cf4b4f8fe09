use vstd::prelude::*;

use crate::instant::TickError;
use crate::storage::{advanced, step_units, tick_overflows, Storage};

verus! {

/// Advances one clock's storage by that clock's fixed step, once per tick.
pub struct Ticker<'a> {
    /// The storage of the clock that this ticker drives.
    pub storage: &'a mut Storage,
    /// The units that each tick adds; `None` where the tick period cannot be
    /// expressed in the clock's units.
    pub step: Option<u32>,
}

impl<'a> Ticker<'a> {
    pub(crate) fn new(storage: &'a mut Storage, step: Option<u32>) -> (r: Self)
        ensures
            *r.storage == *old(storage),
            *final(r.storage) == *final(storage),
            r.step == step,
    {
        Ticker { storage, step }
    }

    /// Records one tick on the bound storage. Where the clock runs and the
    /// step cannot be added within `u32`, nothing changes and `Overflow`
    /// comes back: the clock never wraps around.
    pub fn tick(&mut self) -> (r: Result<(), TickError>)
        ensures
            final(self).step == old(self).step,
            *final(final(self).storage) == *final(old(self).storage),
            r is Err <==> tick_overflows(old(self).storage@, old(self).step),
            r is Err ==> r == Err::<(), TickError>(TickError::Overflow) && final(self).storage@
                == old(self).storage@,
            r is Ok ==> final(self).storage@ == advanced(
                old(self).storage@,
                step_units(old(self).step),
            ),
    {
        self.storage.tick(self.step)
    }
}

} // verus!
