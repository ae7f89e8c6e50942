//! Data model of the tunnel directory: tunnel records, access tokens and the
//! destination configuration sent with open/rotate requests.

use vstd::prelude::*;

verus! {

/// Lifecycle status of a tunnel record as reported by the directory service.
#[derive(Clone, Copy, Debug, PartialEq, Eq, Structural)]
pub enum TunnelStatus {
    Open,
    Closed,
    /// Any other terminal state the service may report.
    Unknown,
}

/// One tunnel record for a device, as returned by the directory's list
/// operation. The reconciler only ever reads it.
#[derive(Debug)]
pub struct TunnelDescriptor {
    pub tunnel_id: String,
    pub device_id: String,
    pub status: TunnelStatus,
}

impl Clone for TunnelDescriptor {
    fn clone(&self) -> (r: Self)
        ensures
            r == *self,
    {
        TunnelDescriptor {
            tunnel_id: self.tunnel_id.clone(),
            device_id: self.device_id.clone(),
            status: self.status,
        }
    }
}

/// The pair of secrets handed back by open/rotate: the source token is
/// consumed by the local proxy, the destination token only by the remote
/// agent.
#[derive(Debug)]
pub struct AccessTokenPair {
    pub source_token: String,
    pub destination_token: String,
}

impl Clone for AccessTokenPair {
    fn clone(&self) -> (r: Self)
        ensures
            r == *self,
    {
        AccessTokenPair {
            source_token: self.source_token.clone(),
            destination_token: self.destination_token.clone(),
        }
    }
}

/// Request parameter for open/rotate: the device name and the two fixed
/// service names bridged by the proxy.
#[derive(Debug)]
pub struct DestinationConfig {
    pub device_id: String,
    pub services: Vec<String>,
}

impl Clone for DestinationConfig {
    fn clone(&self) -> (r: Self)
        ensures
            r.device_id == self.device_id,
            r.services@ == self.services@,
    {
        let mut services: Vec<String> = Vec::new();
        let mut i: usize = 0;
        while i < self.services.len()
            invariant
                i <= self.services@.len(),
                services@ == self.services@.take(i as int),
            decreases self.services@.len() - i,
        {
            services.push(self.services[i].clone());
            proof {
                assert(services@ =~= self.services@.take(i + 1 as int));
            }
            i = i + 1;
        }
        proof {
            assert(services@ =~= self.services@);
        }
        DestinationConfig { device_id: self.device_id.clone(), services }
    }
}

/// Whether `c` is the fixed destination configuration for device `d`:
/// exactly the two service names, terminal first, shell second.
pub open spec fn is_fixed_config(c: DestinationConfig, d: String) -> bool {
    &&& c.device_id == d
    &&& c.services@.len() == 2
    &&& c.services@[0]@ == "remote-terminal"@
    &&& c.services@[1]@ == "secure-shell"@
}

impl DestinationConfig {
    /// Build the destination configuration used for every open and rotate
    /// request of this device: the two fixed service names, in order.
    pub fn new(device_id: String) -> (c: DestinationConfig)
        ensures
            is_fixed_config(c, device_id),
    {
        let mut services: Vec<String> = Vec::new();
        services.push("remote-terminal".to_owned());
        services.push("secure-shell".to_owned());
        DestinationConfig { device_id, services }
    }
}

/// What reconciliation hands to the session launcher: the tunnel to use and
/// a freshly issued source-side access token.
#[derive(Debug)]
pub struct TunnelLease {
    pub tunnel_id: String,
    pub source_token: String,
}

} // verus!
