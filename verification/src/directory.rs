//! A programmable double of the remote tunnel directory and of the
//! re-authentication flow.
//!
//! Every operation returns its canned response and appends one entry to an
//! ordered call log, so that a caller's contract can state exactly which
//! remote invocations a flow performs, and in which order.

use vstd::prelude::*;

use crate::machine::{ApiFailure, OpenedTunnel};
use crate::tunnel::{AccessTokenPair, DestinationConfig, TunnelDescriptor};

verus! {

/// One remote invocation recorded by the double.
#[derive(Debug)]
pub enum DirectoryCall {
    List { device_id: String },
    Close { tunnel_id: String },
    Rotate { tunnel_id: String },
    Open { device_id: String },
    Recovery,
}

/// An in-memory stand-in for the remote tunnel directory, programmable per
/// operation. The canned responses are never modified by the operations;
/// only the call log grows.
#[derive(Debug)]
pub struct FakeDirectory {
    /// Canned response of the list operation.
    pub tunnels: Result<Vec<TunnelDescriptor>, ApiFailure>,
    /// Canned response of the open operation.
    pub open_response: Result<OpenedTunnel, ApiFailure>,
    /// Canned response of the rotate operation.
    pub rotate_response: Result<AccessTokenPair, ApiFailure>,
    /// Canned response of the close operation.
    pub close_response: Result<(), ApiFailure>,
    /// Canned outcome of the re-authentication flow.
    pub recovery_response: Result<(), String>,
    /// Every remote invocation made so far, in order.
    pub calls: Vec<DirectoryCall>,
}

/// The two doubles are programmed identically.
pub open spec fn same_programming(a: FakeDirectory, b: FakeDirectory) -> bool {
    &&& a.tunnels == b.tunnels
    &&& a.open_response == b.open_response
    &&& a.rotate_response == b.rotate_response
    &&& a.close_response == b.close_response
    &&& a.recovery_response == b.recovery_response
}

/// Duplicate a tunnel list, record by record.
fn duplicate_tunnels(v: &Vec<TunnelDescriptor>) -> (r: Vec<TunnelDescriptor>)
    ensures
        r@ == v@,
{
    let mut r: Vec<TunnelDescriptor> = Vec::new();
    let mut i: usize = 0;
    while i < v.len()
        invariant
            i <= v@.len(),
            r@ == v@.take(i as int),
        decreases v@.len() - i,
    {
        r.push(v[i].clone());
        proof {
            assert(r@ =~= v@.take(i + 1 as int));
        }
        i = i + 1;
    }
    proof {
        assert(r@ =~= v@);
    }
    r
}

impl FakeDirectory {
    /// List the tunnel records for a device: the canned response, recorded.
    pub fn list_tunnels(&mut self, device_id: &String) -> (r: Result<
        Vec<TunnelDescriptor>,
        ApiFailure,
    >)
        ensures
            same_programming(*final(self), *old(self)),
            final(self).calls@ == old(self).calls@.push(DirectoryCall::List {
                device_id: *device_id,
            }),
            r is Ok <==> old(self).tunnels is Ok,
            r matches Ok(v) ==> old(self).tunnels matches Ok(v0) && v@ == v0@,
            r matches Err(f) ==> old(self).tunnels matches Err(f0) && f == f0,
    {
        self.calls.push(DirectoryCall::List { device_id: device_id.clone() });
        match &self.tunnels {
            Ok(v) => Ok(duplicate_tunnels(v)),
            Err(f) => Err(f.clone()),
        }
    }

    /// Open a tunnel for the configured device: the canned response,
    /// recorded under the device name of the request.
    pub fn open_tunnel(&mut self, config: DestinationConfig) -> (r: Result<
        OpenedTunnel,
        ApiFailure,
    >)
        ensures
            same_programming(*final(self), *old(self)),
            final(self).calls@ == old(self).calls@.push(DirectoryCall::Open {
                device_id: config.device_id,
            }),
            r == old(self).open_response,
    {
        let DestinationConfig { device_id, services: _ } = config;
        self.calls.push(DirectoryCall::Open { device_id });
        match &self.open_response {
            Ok(o) => Ok(o.clone()),
            Err(f) => Err(f.clone()),
        }
    }

    /// Rotate the access tokens of a tunnel: the canned response, recorded.
    pub fn rotate_tokens(&mut self, tunnel_id: &String, _config: DestinationConfig) -> (r: Result<
        AccessTokenPair,
        ApiFailure,
    >)
        ensures
            same_programming(*final(self), *old(self)),
            final(self).calls@ == old(self).calls@.push(DirectoryCall::Rotate {
                tunnel_id: *tunnel_id,
            }),
            r == old(self).rotate_response,
    {
        self.calls.push(DirectoryCall::Rotate { tunnel_id: tunnel_id.clone() });
        match &self.rotate_response {
            Ok(pair) => Ok(pair.clone()),
            Err(f) => Err(f.clone()),
        }
    }

    /// Close a tunnel: the canned response, recorded.
    pub fn close_tunnel(&mut self, tunnel_id: &String) -> (r: Result<(), ApiFailure>)
        ensures
            same_programming(*final(self), *old(self)),
            final(self).calls@ == old(self).calls@.push(DirectoryCall::Close {
                tunnel_id: *tunnel_id,
            }),
            r == old(self).close_response,
    {
        self.calls.push(DirectoryCall::Close { tunnel_id: tunnel_id.clone() });
        match &self.close_response {
            Ok(u) => Ok(*u),
            Err(f) => Err(f.clone()),
        }
    }

    /// Run the re-authentication flow: the canned outcome, recorded.
    pub fn run_recovery(&mut self) -> (r: Result<(), String>)
        ensures
            same_programming(*final(self), *old(self)),
            final(self).calls@ == old(self).calls@.push(DirectoryCall::Recovery),
            r == old(self).recovery_response,
    {
        self.calls.push(DirectoryCall::Recovery);
        match &self.recovery_response {
            Ok(u) => Ok(*u),
            Err(m) => Err(m.clone()),
        }
    }
}

} // verus!
