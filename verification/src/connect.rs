//! The connection orchestrator, run to completion against the programmable
//! directory double.
//!
//! [`run_connect`] drives the verified state machine until it is terminal:
//! it performs each requested operation on the double and feeds the
//! completion back. Its contract states, for every programming of the
//! double, exactly which remote invocations are made, in which order, and
//! what is returned.

use vstd::prelude::*;

use crate::directory::{same_programming, DirectoryCall, FakeDirectory};
use crate::error::TunnelError;
use crate::machine::{
    failure_detail, ApiFailure, ConnectMachine, DirectoryAction, DirectoryEvent, Phase,
};
use crate::plan::{first_open_index, stale_prefix_len, stale_ids, PlanAction};
use crate::tunnel::{TunnelDescriptor, TunnelLease};

verus! {

/// The close invocations for the first `n` records of `ts`, in order.
pub open spec fn close_calls(ts: Seq<TunnelDescriptor>, n: int) -> Seq<DirectoryCall> {
    Seq::new(n as nat, |i: int| DirectoryCall::Close { tunnel_id: ts[i].tunnel_id })
}

/// Exactly the remote invocations one connection attempt performs, in
/// order, for a double programmed as `d`: nothing for an empty device id;
/// the list and one recovery run on an authentication failure; otherwise
/// the list, the closes of the records before the first Open one (stopping
/// at the first failed close), then one rotate of the first Open record or
/// one open when there is none.
pub open spec fn expected_calls(device_id: String, d: FakeDirectory) -> Seq<DirectoryCall> {
    if device_id@.len() == 0 {
        Seq::empty()
    } else {
        match d.tunnels {
            Err(f) => if f is Authentication {
                seq![DirectoryCall::List { device_id }, DirectoryCall::Recovery]
            } else {
                seq![DirectoryCall::List { device_id }]
            },
            Ok(ts) => {
                let k = first_open_index(ts@);
                let c = stale_prefix_len(ts@);
                if c > 0 && !(d.close_response is Ok) {
                    seq![
                        DirectoryCall::List { device_id },
                        DirectoryCall::Close { tunnel_id: ts@[0].tunnel_id },
                    ]
                } else if k < ts@.len() {
                    seq![DirectoryCall::List { device_id }] + close_calls(ts@, c) + seq![
                        DirectoryCall::Rotate { tunnel_id: ts@[k].tunnel_id },
                    ]
                } else {
                    seq![DirectoryCall::List { device_id }] + close_calls(ts@, c) + seq![
                        DirectoryCall::Open { device_id },
                    ]
                }
            },
        }
    }
}

/// When the attempt is owed a lease: a non-empty device id, a listable
/// directory, and success of every operation the plan calls for.
pub open spec fn connect_succeeds(device_id: String, d: FakeDirectory) -> bool {
    &&& device_id@.len() > 0
    &&& d.tunnels matches Ok(ts) && ({
        let k = first_open_index(ts@);
        let c = stale_prefix_len(ts@);
        &&& (c > 0 ==> d.close_response is Ok)
        &&& (k < ts@.len() ==> d.rotate_response is Ok)
        &&& (k >= ts@.len() ==> d.open_response is Ok)
    })
}

/// The lease a successful attempt returns: the first Open record with its
/// freshly rotated source token, or the newly opened tunnel with its first
/// source token.
pub open spec fn lease_of(d: FakeDirectory, lease: TunnelLease) -> bool {
    d.tunnels matches Ok(ts) && ({
        let k = first_open_index(ts@);
        if k < ts@.len() {
            d.rotate_response matches Ok(pair) && lease == (TunnelLease {
                tunnel_id: ts@[k].tunnel_id,
                source_token: pair.source_token,
            })
        } else {
            d.open_response matches Ok(o) && lease == (TunnelLease {
                tunnel_id: o.tunnel_id,
                source_token: o.tokens.source_token,
            })
        }
    })
}

/// The error a failed attempt returns, for each way the programming can
/// make it fail. After a successful recovery the error is the retryable
/// authentication outcome.
pub open spec fn error_of(device_id: String, d: FakeDirectory, error: TunnelError) -> bool {
    if device_id@.len() == 0 {
        error == (TunnelError::InvalidDeviceId { device_id })
    } else {
        match d.tunnels {
            Err(f) => match f {
                ApiFailure::Authentication { .. } => {
                    if d.recovery_response is Ok {
                        error matches TunnelError::AwsAuth { message } && message@
                            == "Login successful, please try again."@
                    } else {
                        d.recovery_response matches Err(msg) && error == (TunnelError::AwsAuth {
                            message: msg,
                        })
                    }
                },
                ApiFailure::Operation { detail } => error matches TunnelError::TunnelOperation {
                    message,
                } && message@ == "Failed to list tunnels: "@ + detail@,
            },
            Ok(ts) => {
                let k = first_open_index(ts@);
                let c = stale_prefix_len(ts@);
                if c > 0 && !(d.close_response is Ok) {
                    d.close_response matches Err(f) && error matches
                        TunnelError::TunnelOperation { message } && message@
                        == "Failed to close tunnel: "@ + failure_detail(f)@
                } else if k < ts@.len() {
                    d.rotate_response matches Err(f) && error == (TunnelError::TokenRotation {
                        tunnel_id: ts@[k].tunnel_id,
                        message: failure_detail(f),
                    })
                } else {
                    d.open_response matches Err(f) && error matches TunnelError::TunnelOperation {
                        message,
                    } && message@ == "Failed to open tunnel: "@ + failure_detail(f)@
                }
            },
        }
    }
}

/// The log entry one action produces when performed.
pub open spec fn call_of(a: DirectoryAction) -> DirectoryCall {
    match a {
        DirectoryAction::ListTunnels { device_id } => DirectoryCall::List { device_id },
        DirectoryAction::CloseTunnel { tunnel_id } => DirectoryCall::Close { tunnel_id },
        DirectoryAction::RotateTokens { tunnel_id, config } => DirectoryCall::Rotate { tunnel_id },
        DirectoryAction::OpenTunnel { config } => DirectoryCall::Open {
            device_id: config.device_id,
        },
        DirectoryAction::RunRecovery => DirectoryCall::Recovery,
    }
}

/// Perform one requested operation on the double and report its completion.
fn perform(dir: &mut FakeDirectory, action: DirectoryAction) -> (ev: DirectoryEvent)
    ensures
        same_programming(*final(dir), *old(dir)),
        final(dir).calls@ == old(dir).calls@.push(call_of(action)),
        action is ListTunnels ==> (ev matches DirectoryEvent::TunnelsListed(res) ==> ({
            &&& res is Ok <==> old(dir).tunnels is Ok
            &&& res matches Ok(v) ==> old(dir).tunnels matches Ok(v0) && v@ == v0@
            &&& res matches Err(f) ==> old(dir).tunnels matches Err(f0) && f == f0
        })),
        action is ListTunnels ==> ev is TunnelsListed,
        action is CloseTunnel ==> ev == DirectoryEvent::TunnelClosed(old(dir).close_response),
        action is RotateTokens ==> ev == DirectoryEvent::TokensRotated(old(dir).rotate_response),
        action is OpenTunnel ==> ev == DirectoryEvent::TunnelOpened(old(dir).open_response),
        action is RunRecovery ==> ev == DirectoryEvent::RecoveryFinished(
            old(dir).recovery_response,
        ),
{
    match action {
        DirectoryAction::ListTunnels { device_id } => DirectoryEvent::TunnelsListed(
            dir.list_tunnels(&device_id),
        ),
        DirectoryAction::CloseTunnel { tunnel_id } => DirectoryEvent::TunnelClosed(
            dir.close_tunnel(&tunnel_id),
        ),
        DirectoryAction::RotateTokens { tunnel_id, config } => DirectoryEvent::TokensRotated(
            dir.rotate_tokens(&tunnel_id, config),
        ),
        DirectoryAction::OpenTunnel { config } => DirectoryEvent::TunnelOpened(
            dir.open_tunnel(config),
        ),
        DirectoryAction::RunRecovery => DirectoryEvent::RecoveryFinished(dir.run_recovery()),
    }
}

/// How many of the expected invocations have been performed when the
/// machine stands in this phase.
pub open spec fn progress_of(device_id: String, d0: FakeDirectory, m: ConnectMachine) -> int {
    match m.phase {
        Phase::AwaitingList => 0,
        Phase::Recovering => 1,
        Phase::Closing { pending, after } => match d0.tunnels {
            Ok(ts) => stale_prefix_len(ts@) - pending@.len(),
            Err(_) => 0,
        },
        Phase::AwaitingRotation { .. } => match d0.tunnels {
            Ok(ts) => 1 + stale_prefix_len(ts@),
            Err(_) => 0,
        },
        Phase::AwaitingOpen => match d0.tunnels {
            Ok(ts) => 1 + stale_prefix_len(ts@),
            Err(_) => 0,
        },
        Phase::Done { .. } => expected_calls(device_id, d0).len() as int,
        Phase::Failed { .. } => expected_calls(device_id, d0).len() as int,
        Phase::NeedsRetry => expected_calls(device_id, d0).len() as int,
    }
}

/// The driver's loop invariant: the double still carries its programming,
/// the log holds exactly the first `progress_of` expected invocations, the
/// next action (if any) is the next expected invocation, and the machine's
/// phase carries what its scenario dictates.
pub open spec fn driver_inv(
    device_id: String,
    d0: FakeDirectory,
    dir: FakeDirectory,
    m: ConnectMachine,
    a: Option<DirectoryAction>,
) -> bool {
    let ec = expected_calls(device_id, d0);
    let p = progress_of(device_id, d0, m);
    &&& same_programming(dir, d0)
    &&& m.device_id == device_id
    &&& 0 <= p <= ec.len()
    &&& dir.calls@ == d0.calls@ + ec.take(p)
    &&& a matches Some(act) ==> p < ec.len() && call_of(act) == ec[p]
    &&& match m.phase {
        Phase::AwaitingList => {
            &&& device_id@.len() > 0
            &&& a == Some(DirectoryAction::ListTunnels { device_id })
        },
        Phase::Recovering => {
            &&& device_id@.len() > 0
            &&& d0.tunnels matches Err(f) && f is Authentication
            &&& a == Some(DirectoryAction::RunRecovery)
        },
        Phase::Closing { pending, after } => {
            &&& device_id@.len() > 0
            &&& d0.tunnels matches Ok(ts) && ({
                let k = first_open_index(ts@);
                let c = stale_prefix_len(ts@);
                let j = c - pending@.len() - 1;
                &&& 0 <= j < c
                &&& j > 0 ==> d0.close_response is Ok
                &&& a == Some(DirectoryAction::CloseTunnel { tunnel_id: ts@[j].tunnel_id })
                &&& pending@ == stale_ids(ts@).skip(j + 1)
                &&& k < ts@.len() ==> after == (PlanAction::Rotate { tunnel_id: ts@[k].tunnel_id })
                &&& k >= ts@.len() ==> after is OpenNew
            })
        },
        Phase::AwaitingRotation { tunnel_id } => {
            &&& device_id@.len() > 0
            &&& d0.tunnels matches Ok(ts) && ({
                let k = first_open_index(ts@);
                let c = stale_prefix_len(ts@);
                &&& k < ts@.len()
                &&& tunnel_id == ts@[k].tunnel_id
                &&& c > 0 ==> d0.close_response is Ok
                &&& a matches Some(act) && act is RotateTokens
            })
        },
        Phase::AwaitingOpen => {
            &&& device_id@.len() > 0
            &&& d0.tunnels matches Ok(ts) && ({
                let k = first_open_index(ts@);
                let c = stale_prefix_len(ts@);
                &&& k >= ts@.len()
                &&& c > 0 ==> d0.close_response is Ok
                &&& a matches Some(act) && act is OpenTunnel
            })
        },
        Phase::Done { lease } => {
            &&& a is None
            &&& connect_succeeds(device_id, d0)
            &&& lease_of(d0, lease)
        },
        Phase::Failed { error } => {
            &&& a is None
            &&& !connect_succeeds(device_id, d0)
            &&& error_of(device_id, d0, error)
        },
        Phase::NeedsRetry => {
            &&& a is None
            &&& device_id@.len() > 0
            &&& d0.tunnels matches Err(f) && f is Authentication
            &&& d0.recovery_response is Ok
        },
    }
}

/// One complete connection attempt against the double: validate the device
/// id, list, reconcile (close stale records, rotate or open), and hand back
/// the lease for the session launcher — or the error that ended the
/// attempt. The call log states exactly which remote invocations happened,
/// in which order.
pub fn run_connect(device_id: String, dir: &mut FakeDirectory) -> (r: Result<
    TunnelLease,
    TunnelError,
>)
    ensures
        same_programming(*final(dir), *old(dir)),
        final(dir).calls@ == old(dir).calls@ + expected_calls(device_id, *old(dir)),
        r is Ok <==> connect_succeeds(device_id, *old(dir)),
        r matches Ok(lease) ==> lease_of(*old(dir), lease),
        r matches Err(error) ==> error_of(device_id, *old(dir), error),
{
    let ghost dev: String = device_id;
    let ghost d0: FakeDirectory = *dir;
    let (m0, a0) = ConnectMachine::start(device_id);
    let mut machine = m0;
    let mut action = a0;
    proof {
        let ec = expected_calls(dev, d0);
        assert(dir.calls@ =~= d0.calls@ + ec.take(0));
        if machine.phase is Failed {
            assert(ec =~= Seq::<DirectoryCall>::empty());
        }
    }
    while action.is_some()
        invariant
            driver_inv(dev, d0, *dir, machine, action),
        decreases machine.rank(), machine.pending_len(),
    {
        let ghost pre_m = machine;
        let ghost p = progress_of(dev, d0, pre_m);
        let act = action.unwrap();
        let event = perform(dir, act);
        let next = machine.handle(event);
        machine = next.0;
        action = next.1;
        proof {
            let ec = expected_calls(dev, d0);
            assert(dir.calls@ =~= d0.calls@ + ec.take(p + 1));
            match d0.tunnels {
                Ok(canned) => {
                    let stale = stale_ids(canned@);
                    assert forall|j: int| 0 <= j && j < stale.len() implies #[trigger] stale.skip(
                        j,
                    ).drop_first() == stale.skip(j + 1) by {
                        assert(stale.skip(j).drop_first() =~= stale.skip(j + 1));
                    }
                    crate::plan::lemma_first_open_index(canned@);
                },
                Err(_) => {},
            }
        }
    }
    proof {
        let ec = expected_calls(dev, d0);
        assert(dir.calls@ =~= d0.calls@ + ec) by {
            assert(ec.take(ec.len() as int) =~= ec);
        }
    }
    match machine.phase {
        Phase::Done { lease } => Ok(lease),
        Phase::Failed { error } => Err(error),
        Phase::NeedsRetry => Err(TunnelError::aws_auth("Login successful, please try again.")),
        _ => vstd::pervasive::unreached(),
    }
}

/// Law: for a device with no existing tunnel records, one attempt makes
/// exactly one open call after the list, and no close or rotate call.
pub proof fn lemma_fresh_device_opens_once(device_id: String, d: FakeDirectory)
    requires
        device_id@.len() > 0,
        d.tunnels matches Ok(ts) && ts@.len() == 0,
    ensures
        expected_calls(device_id, d) == seq![
            DirectoryCall::List { device_id },
            DirectoryCall::Open { device_id },
        ],
{
    assert(expected_calls(device_id, d) =~= seq![
        DirectoryCall::List { device_id },
        DirectoryCall::Open { device_id },
    ]);
}

/// Law: when exactly one record is Open (at position `i0`), one attempt
/// rotates exactly that tunnel and never opens one.
pub proof fn lemma_single_open_tunnel_is_rotated(device_id: String, d: FakeDirectory, i0: int)
    requires
        device_id@.len() > 0,
        d.close_response is Ok,
        d.tunnels matches Ok(ts) && 0 <= i0 < ts@.len() && ts@[i0].status is Open && (forall|
            j: int,
        |
            0 <= j < ts@.len() && j != i0 ==> !(ts@[j].status is Open)),
    ensures
        d.tunnels matches Ok(ts) ==> expected_calls(device_id, d) == seq![
            DirectoryCall::List { device_id },
        ] + close_calls(ts@, i0) + seq![DirectoryCall::Rotate { tunnel_id: ts@[i0].tunnel_id }],
        forall|i: int|
            0 <= i < expected_calls(device_id, d).len() ==> !(#[trigger] expected_calls(
                device_id,
                d,
            )[i] is Open),
{
    let ts = d.tunnels->Ok_0;
    crate::plan::lemma_first_open_index(ts@);
    assert(first_open_index(ts@) == i0);
}

/// Law: when `n` records that are not Open precede the first Open one, one
/// attempt closes exactly those `n`, in order, then rotates the Open one;
/// the records after it are never touched.
pub proof fn lemma_stale_prefix_closed_then_rotated(device_id: String, d: FakeDirectory, n: int)
    requires
        device_id@.len() > 0,
        d.close_response is Ok,
        d.tunnels matches Ok(ts) && 0 <= n < ts@.len() && ts@[n].status is Open && (forall|j: int|
            0 <= j < n ==> !(ts@[j].status is Open)),
    ensures
        d.tunnels matches Ok(ts) ==> ({
            let ec = expected_calls(device_id, d);
            &&& ec == seq![DirectoryCall::List { device_id }] + close_calls(ts@, n) + seq![
                DirectoryCall::Rotate { tunnel_id: ts@[n].tunnel_id },
            ]
            &&& ec.len() == n + 2
            &&& forall|j: int|
                0 <= j < n ==> ec[1 + j] == (DirectoryCall::Close { tunnel_id: ts@[j].tunnel_id })
        }),
{
    let ts = d.tunnels->Ok_0;
    crate::plan::lemma_first_open_index(ts@);
    assert(first_open_index(ts@) == n);
}

/// Law: when no record is Open, one attempt closes all of them, in order,
/// then opens a new tunnel.
pub proof fn lemma_no_open_tunnel_closes_all_then_opens(device_id: String, d: FakeDirectory)
    requires
        device_id@.len() > 0,
        d.close_response is Ok,
        d.tunnels matches Ok(ts) && (forall|j: int|
            0 <= j < ts@.len() ==> !(ts@[j].status is Open)),
    ensures
        d.tunnels matches Ok(ts) ==> ({
            let ec = expected_calls(device_id, d);
            &&& ec == seq![DirectoryCall::List { device_id }] + close_calls(ts@, ts@.len() as int)
                + seq![DirectoryCall::Open { device_id }]
            &&& ec.len() == ts@.len() + 2
            &&& forall|j: int|
                0 <= j < ts@.len() ==> ec[1 + j] == (DirectoryCall::Close {
                    tunnel_id: ts@[j].tunnel_id,
                })
        }),
{
    let ts = d.tunnels->Ok_0;
    crate::plan::lemma_first_open_index(ts@);
    assert(first_open_index(ts@) == ts@.len());
}

/// Law: an authentication failure of the list operation leads to exactly
/// one recovery invocation — whatever the device id — and every error the
/// attempt can then return is the retryable authentication outcome.
pub proof fn lemma_auth_failure_recovers_once(device_id: String, d: FakeDirectory)
    requires
        device_id@.len() > 0,
        d.tunnels matches Err(f) && f is Authentication,
    ensures
        expected_calls(device_id, d) == seq![
            DirectoryCall::List { device_id },
            DirectoryCall::Recovery,
        ],
        !connect_succeeds(device_id, d),
        forall|error: TunnelError| error_of(device_id, d, error) ==> error is AwsAuth,
{
    assert(expected_calls(device_id, d) =~= seq![
        DirectoryCall::List { device_id },
        DirectoryCall::Recovery,
    ]);
}

/// Law: an empty device id is rejected before any remote invocation, with
/// the invalid-device error.
pub proof fn lemma_empty_device_makes_no_calls(device_id: String, d: FakeDirectory)
    requires
        device_id@.len() == 0,
    ensures
        expected_calls(device_id, d) == Seq::<DirectoryCall>::empty(),
        forall|error: TunnelError|
            error_of(device_id, d, error) ==> error == (TunnelError::InvalidDeviceId {
                device_id,
            }),
{
}

} // verus!
