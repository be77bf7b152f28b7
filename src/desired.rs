use vstd::prelude::*;
use crate::error::ReconcileError;

verus! {

/// What the remote proxy should forward: the ports of the ingress service
/// and the cluster's externally visible address, in its text form.
#[derive(Debug)]
pub struct DesiredState {
    /// The service's ports, in the order the cluster listed them.
    pub ports: Vec<i32>,
    /// The public address, as text (`203.0.113.7`).
    pub address: String,
}

impl DesiredState {
    /// The set of ports; order and repeats in `ports` carry no meaning.
    pub open spec fn port_set(&self) -> Set<i32> {
        self.ports@.to_set()
    }

    /// Builds the desired state from what the cluster and the address lookup
    /// returned: `None` stands for a service without a port list, or for an
    /// address that could not be found. A missing port list is reported first.
    pub fn from_observation(ports: Option<Vec<i32>>, address: Option<String>) -> (r: Result<
        DesiredState,
        ReconcileError,
    >)
        ensures
            ports is None ==> r == Err::<DesiredState, ReconcileError>(
                ReconcileError::TopologyIncomplete,
            ),
            ports is Some && address is None ==> r == Err::<DesiredState, ReconcileError>(
                ReconcileError::AddressResolutionFailed,
            ),
            ports is Some && address is Some ==> r is Ok && r->Ok_0.ports == ports->Some_0
                && r->Ok_0.address == address->Some_0,
    {
        match ports {
            None => Err(ReconcileError::TopologyIncomplete),
            Some(p) => match address {
                None => Err(ReconcileError::AddressResolutionFailed),
                Some(a) => Ok(DesiredState { ports: p, address: a }),
            },
        }
    }
}

} // verus!
