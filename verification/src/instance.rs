use vstd::prelude::*;
use crate::device::Device;
use crate::error::Error;

verus! {

/// The explicit backend-selection step: an instance hands out devices, each
/// bound to its own backend binding, numbered in creation order. Binding a
/// device is the only implicit state this layer ever holds, and it is held
/// here, injectable, rather than process-wide.
#[derive(Debug)]
pub struct Instance {
    /// how many devices this instance has bound so far
    pub devices_bound: usize,
}

impl Instance {
    /// An instance that has bound nothing yet.
    pub fn new() -> (r: Instance)
        ensures
            r.devices_bound == 0,
    {
        Instance { devices_bound: 0 }
    }

    /// Binds a fresh device. Each device gets the next binding number, so no
    /// two devices of one instance share a binding and no handle of one is
    /// live on another.
    pub fn create_device(&mut self) -> (r: Result<Device, Error>)
        requires
            old(self).devices_bound < usize::MAX,
        ensures
            final(self).devices_bound == old(self).devices_bound + 1,
            r matches Ok(d) && d.wf() && d.backend == old(self).devices_bound
                && d.buffers@.len() == 0 && d.programs@.len() == 0 && d.images@.len() == 0
                && d.queues@.len() == 0 && d.sync_events@.len() == 0 && d.profile_events@.len()
                == 0,
    {
        let binding = self.devices_bound;
        self.devices_bound = self.devices_bound + 1;
        Ok(Device::new(binding))
    }
}

} // verus!
