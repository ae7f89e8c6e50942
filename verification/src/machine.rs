//! The connection state machine.
//!
//! One connection attempt is a sequence of remote requests (list, close,
//! rotate, open, re-authenticate) whose results decide the next request.
//! The machine holds every decision of that sequence as a verified
//! transition function: the driver performs a [`DirectoryAction`], hands the
//! completion back as a [`DirectoryEvent`], and the machine says what to do
//! next. The driver does only I/O; every branch is taken here.

use vstd::prelude::*;
use vstd::string::StringExecFns;

use crate::error::TunnelError;
use crate::plan::{first_open_index, plan_reconciliation, stale_ids, PlanAction, ReconcilePlan};
use crate::tunnel::{
    is_fixed_config, AccessTokenPair, DestinationConfig, TunnelDescriptor, TunnelLease,
};

verus! {

/// A failure reported for a remote directory request, classified by the one
/// distinction the reconciler branches on.
#[derive(Debug)]
pub enum ApiFailure {
    /// The endpoint could not be reached for a credential/dispatch reason.
    Authentication { detail: String },
    /// Any other rejection (malformed request, not found, quota, ...).
    Operation { detail: String },
}

/// The detail text carried by a failure, whatever its kind.
pub open spec fn failure_detail(f: ApiFailure) -> String {
    match f {
        ApiFailure::Authentication { detail } => detail,
        ApiFailure::Operation { detail } => detail,
    }
}

impl ApiFailure {
    /// Extract the detail text.
    pub fn into_detail(self) -> (r: String)
        ensures
            r == failure_detail(self),
    {
        match self {
            ApiFailure::Authentication { detail } => detail,
            ApiFailure::Operation { detail } => detail,
        }
    }
}

impl Clone for ApiFailure {
    fn clone(&self) -> (r: Self)
        ensures
            r == *self,
    {
        match self {
            ApiFailure::Authentication { detail } => ApiFailure::Authentication {
                detail: detail.clone(),
            },
            ApiFailure::Operation { detail } => ApiFailure::Operation { detail: detail.clone() },
        }
    }
}

/// A remote request the machine asks its driver to perform next.
#[derive(Debug)]
pub enum DirectoryAction {
    ListTunnels { device_id: String },
    CloseTunnel { tunnel_id: String },
    RotateTokens { tunnel_id: String, config: DestinationConfig },
    OpenTunnel { config: DestinationConfig },
    RunRecovery,
}

/// A newly opened tunnel: its id and its first token pair.
#[derive(Debug)]
pub struct OpenedTunnel {
    pub tunnel_id: String,
    pub tokens: AccessTokenPair,
}

impl Clone for OpenedTunnel {
    fn clone(&self) -> (r: Self)
        ensures
            r == *self,
    {
        OpenedTunnel { tunnel_id: self.tunnel_id.clone(), tokens: self.tokens.clone() }
    }
}

/// The completion of a remote request, handed back to the machine by its
/// driver.
#[derive(Debug)]
pub enum DirectoryEvent {
    TunnelsListed(Result<Vec<TunnelDescriptor>, ApiFailure>),
    TunnelClosed(Result<(), ApiFailure>),
    TokensRotated(Result<AccessTokenPair, ApiFailure>),
    TunnelOpened(Result<OpenedTunnel, ApiFailure>),
    RecoveryFinished(Result<(), String>),
}

/// Where a connection attempt stands.
#[derive(Debug)]
pub enum Phase {
    /// The list request is in flight.
    AwaitingList,
    /// A close request is in flight; `pending` holds the ids still to close
    /// after it, `after` the terminal reconciliation step.
    Closing { pending: Vec<String>, after: PlanAction },
    /// The rotate request for the reused tunnel is in flight.
    AwaitingRotation { tunnel_id: String },
    /// The open request for a fresh tunnel is in flight.
    AwaitingOpen,
    /// The external re-authentication flow is running.
    Recovering,
    /// Reconciliation succeeded: the lease is ready for the launcher.
    Done { lease: TunnelLease },
    /// The attempt failed; nothing further will be requested.
    Failed { error: TunnelError },
    /// Re-authentication succeeded; the caller must retry the whole attempt.
    NeedsRetry,
}

/// The per-device connection attempt: the machine never talks to the
/// network itself.
#[derive(Debug)]
pub struct ConnectMachine {
    pub device_id: String,
    pub phase: Phase,
}

impl ConnectMachine {
    /// Coarse progress measure: strictly decreases (lexicographically with
    /// [`Self::pending_len`]) on every accepted event.
    pub open spec fn rank(self) -> int {
        match self.phase {
            Phase::AwaitingList => 4,
            Phase::Closing { .. } => 3,
            Phase::AwaitingRotation { .. } => 2,
            Phase::AwaitingOpen => 2,
            Phase::Recovering => 2,
            Phase::Done { .. } => 0,
            Phase::Failed { .. } => 0,
            Phase::NeedsRetry => 0,
        }
    }

    /// Fine progress measure: how many close requests are still queued.
    pub open spec fn pending_len(self) -> int {
        match self.phase {
            Phase::Closing { pending, .. } => pending@.len() as int,
            _ => 0,
        }
    }

    /// A terminal machine requests nothing further.
    pub open spec fn is_terminal(self) -> bool {
        self.rank() == 0
    }

    /// Whether the machine is waiting for exactly this kind of event.
    pub open spec fn accepts(self, e: DirectoryEvent) -> bool {
        match (self.phase, e) {
            (Phase::AwaitingList, DirectoryEvent::TunnelsListed(_)) => true,
            (Phase::Closing { .. }, DirectoryEvent::TunnelClosed(_)) => true,
            (Phase::AwaitingRotation { .. }, DirectoryEvent::TokensRotated(_)) => true,
            (Phase::AwaitingOpen, DirectoryEvent::TunnelOpened(_)) => true,
            (Phase::Recovering, DirectoryEvent::RecoveryFinished(_)) => true,
            _ => false,
        }
    }

    /// Begin a connection attempt. An empty device id is rejected before any
    /// remote call is requested; otherwise the driver is asked to list the
    /// device's tunnels.
    pub fn start(device_id: String) -> (r: (ConnectMachine, Option<DirectoryAction>))
        ensures
            r.0.device_id == device_id,
            device_id@.len() == 0 ==> r.0.phase == (Phase::Failed {
                error: TunnelError::InvalidDeviceId { device_id },
            }) && r.1 is None,
            device_id@.len() > 0 ==> r.0.phase is AwaitingList && r.1 == Some(
                DirectoryAction::ListTunnels { device_id },
            ),
    {
        if device_id.as_str().is_empty() {
            let rejected = device_id.clone();
            (
                ConnectMachine {
                    device_id,
                    phase: Phase::Failed {
                        error: TunnelError::InvalidDeviceId { device_id: rejected },
                    },
                },
                None,
            )
        } else {
            let listed = device_id.clone();
            (
                ConnectMachine { device_id, phase: Phase::AwaitingList },
                Some(DirectoryAction::ListTunnels { device_id: listed }),
            )
        }
    }

    /// Move to the terminal reconciliation step once nothing is left to
    /// close: rotate the chosen tunnel's tokens, or open a new tunnel.
    fn dispatch(device_id: String, action: PlanAction) -> (r: (
        ConnectMachine,
        Option<DirectoryAction>,
    ))
        ensures
            r.0.device_id == device_id,
            action matches PlanAction::Rotate { tunnel_id } ==> r.0.phase == (
            Phase::AwaitingRotation { tunnel_id }) && (r.1 matches Some(
                DirectoryAction::RotateTokens { tunnel_id: requested, config },
            ) && requested == tunnel_id && is_fixed_config(config, device_id)),
            action is OpenNew ==> r.0.phase is AwaitingOpen && (r.1 matches Some(
                DirectoryAction::OpenTunnel { config },
            ) && is_fixed_config(config, device_id)),
    {
        match action {
            PlanAction::Rotate { tunnel_id } => {
                let config = DestinationConfig::new(device_id.clone());
                let requested = tunnel_id.clone();
                (
                    ConnectMachine { device_id, phase: Phase::AwaitingRotation { tunnel_id } },
                    Some(DirectoryAction::RotateTokens { tunnel_id: requested, config }),
                )
            },
            PlanAction::OpenNew => {
                let config = DestinationConfig::new(device_id.clone());
                (
                    ConnectMachine { device_id, phase: Phase::AwaitingOpen },
                    Some(DirectoryAction::OpenTunnel { config }),
                )
            },
        }
    }

    /// Feed the completion of the requested remote call into the machine and
    /// obtain the next request, if any. Every decision of the connection
    /// flow is one of the cases below; an event the current phase is not
    /// waiting for leaves the machine unchanged.
    pub fn handle(self, event: DirectoryEvent) -> (r: (ConnectMachine, Option<DirectoryAction>))
        ensures
            r.0.device_id == self.device_id,
            !self.accepts(event) ==> r.0 == self && r.1 is None,
            self.accepts(event) ==> r.0.rank() < self.rank() || (r.0.rank() == self.rank()
                && r.0.pending_len() < self.pending_len()),
            // Listing succeeded: follow the reconciliation plan.
            self.phase is AwaitingList ==> (event matches DirectoryEvent::TunnelsListed(Ok(ts))
                ==> ({
                let k = first_open_index(ts@);
                let n = ts@.len() as int;
                &&& n == 0 ==> r.0.phase is AwaitingOpen && (r.1 matches Some(
                    DirectoryAction::OpenTunnel { config },
                ) && is_fixed_config(config, self.device_id))
                &&& n > 0 && k == 0 ==> r.0.phase == (Phase::AwaitingRotation {
                    tunnel_id: ts@[0].tunnel_id,
                }) && (r.1 matches Some(DirectoryAction::RotateTokens { tunnel_id, config })
                    && tunnel_id == ts@[0].tunnel_id && is_fixed_config(config, self.device_id))
                &&& n > 0 && k > 0 ==> (r.0.phase matches Phase::Closing { pending, after }
                    && pending@ == stale_ids(ts@).drop_first() && (k < n ==> after == (
                    PlanAction::Rotate { tunnel_id: ts@[k].tunnel_id })) && (k >= n
                    ==> after is OpenNew)) && r.1 == Some(DirectoryAction::CloseTunnel {
                    tunnel_id: ts@[0].tunnel_id,
                })
            })),
            // Listing failed for a credential reason: run recovery.
            self.phase is AwaitingList ==> (event matches DirectoryEvent::TunnelsListed(Err(f))
                ==> (f is Authentication ==> r.0.phase is Recovering && r.1 == Some(
                DirectoryAction::RunRecovery,
            ))),
            // Listing failed otherwise: the attempt is over.
            self.phase is AwaitingList ==> (event matches DirectoryEvent::TunnelsListed(Err(f))
                ==> (f matches ApiFailure::Operation { detail } ==> (r.0.phase matches
                Phase::Failed { error } && error matches TunnelError::TunnelOperation { message }
                && message@ == "Failed to list tunnels: "@ + detail@) && r.1 is None)),
            // A stale record was closed: close the next one, or finish.
            self.phase matches Phase::Closing { pending, after } ==> (event matches
                DirectoryEvent::TunnelClosed(Ok(u)) ==> ({
                &&& pending@.len() > 0 ==> (r.0.phase matches Phase::Closing {
                    pending: rest,
                    after: a2,
                } && rest@ == pending@.drop_first() && a2 == after) && r.1 == Some(
                    DirectoryAction::CloseTunnel { tunnel_id: pending@[0] },
                )
                &&& pending@.len() == 0 ==> (after matches PlanAction::Rotate { tunnel_id }
                    ==> r.0.phase == (Phase::AwaitingRotation { tunnel_id }) && (r.1 matches Some(
                    DirectoryAction::RotateTokens { tunnel_id: requested, config },
                ) && requested == tunnel_id && is_fixed_config(config, self.device_id)))
                &&& pending@.len() == 0 && after is OpenNew ==> r.0.phase is AwaitingOpen && (
                r.1 matches Some(DirectoryAction::OpenTunnel { config }) && is_fixed_config(
                    config,
                    self.device_id,
                ))
            })),
            // A close failed: abort rather than continue on an inconsistent
            // view.
            self.phase is Closing ==> (event matches DirectoryEvent::TunnelClosed(Err(f)) ==> (
            r.0.phase matches Phase::Failed { error } && error matches
                TunnelError::TunnelOperation { message } && message@
                == "Failed to close tunnel: "@ + failure_detail(f)@) && r.1 is None),
            // Recovery ran: on success the whole attempt must be retried, on
            // failure surface the authentication error.
            self.phase is Recovering ==> (event matches DirectoryEvent::RecoveryFinished(Ok(u))
                ==> r.0.phase is NeedsRetry && r.1 is None),
            self.phase is Recovering ==> (event matches DirectoryEvent::RecoveryFinished(Err(
                message,
            )) ==> r.0.phase == (Phase::Failed { error: TunnelError::AwsAuth { message } }) && r.1
                is None),
            // Rotation answered: the reused tunnel's lease, or a rotation
            // error naming the tunnel.
            self.phase matches Phase::AwaitingRotation { tunnel_id } ==> (event matches
                DirectoryEvent::TokensRotated(Ok(pair)) ==> r.0.phase == (Phase::Done {
                lease: TunnelLease { tunnel_id, source_token: pair.source_token },
            }) && r.1 is None),
            self.phase matches Phase::AwaitingRotation { tunnel_id } ==> (event matches
                DirectoryEvent::TokensRotated(Err(f)) ==> r.0.phase == (Phase::Failed {
                error: TunnelError::TokenRotation { tunnel_id, message: failure_detail(f) },
            }) && r.1 is None),
            // Opening answered: the fresh tunnel's lease, or the error.
            self.phase is AwaitingOpen ==> (event matches DirectoryEvent::TunnelOpened(Ok(o))
                ==> r.0.phase == (Phase::Done {
                lease: TunnelLease {
                    tunnel_id: o.tunnel_id,
                    source_token: o.tokens.source_token,
                },
            }) && r.1 is None),
            self.phase is AwaitingOpen ==> (event matches DirectoryEvent::TunnelOpened(Err(f))
                ==> (r.0.phase matches Phase::Failed { error } && error matches
                TunnelError::TunnelOperation { message } && message@
                == "Failed to open tunnel: "@ + failure_detail(f)@) && r.1 is None),
    {
        let ConnectMachine { device_id, phase } = self;
        match (phase, event) {
            (Phase::AwaitingList, DirectoryEvent::TunnelsListed(result)) => match result {
                Ok(ts) => {
                    proof {
                        crate::plan::lemma_first_open_index(ts@);
                    }
                    let ReconcilePlan { mut closes, action } = plan_reconciliation(&ts);
                    if closes.len() == 0 {
                        Self::dispatch(device_id, action)
                    } else {
                        let first = closes.remove(0);
                        proof {
                            assert(closes@ =~= stale_ids(ts@).drop_first());
                        }
                        (
                            ConnectMachine {
                                device_id,
                                phase: Phase::Closing { pending: closes, after: action },
                            },
                            Some(DirectoryAction::CloseTunnel { tunnel_id: first }),
                        )
                    }
                },
                Err(ApiFailure::Authentication { .. }) => (
                    ConnectMachine { device_id, phase: Phase::Recovering },
                    Some(DirectoryAction::RunRecovery),
                ),
                Err(ApiFailure::Operation { detail }) => (
                    ConnectMachine {
                        device_id,
                        phase: Phase::Failed {
                            error: TunnelError::TunnelOperation {
                                message: "Failed to list tunnels: ".to_owned().concat(
                                    detail.as_str(),
                                ),
                            },
                        },
                    },
                    None,
                ),
            },
            (Phase::Closing { pending, after }, DirectoryEvent::TunnelClosed(result)) => match result {
                Ok(_) => {
                    if pending.len() == 0 {
                        Self::dispatch(device_id, after)
                    } else {
                        let ghost queued = pending@;
                        let mut rest = pending;
                        let next = rest.remove(0);
                        proof {
                            assert(rest@ =~= queued.drop_first());
                        }
                        (
                            ConnectMachine {
                                device_id,
                                phase: Phase::Closing { pending: rest, after },
                            },
                            Some(DirectoryAction::CloseTunnel { tunnel_id: next }),
                        )
                    }
                },
                Err(f) => (
                    ConnectMachine {
                        device_id,
                        phase: Phase::Failed {
                            error: TunnelError::TunnelOperation {
                                message: "Failed to close tunnel: ".to_owned().concat(
                                    f.into_detail().as_str(),
                                ),
                            },
                        },
                    },
                    None,
                ),
            },
            (Phase::Recovering, DirectoryEvent::RecoveryFinished(result)) => match result {
                Ok(_) => (ConnectMachine { device_id, phase: Phase::NeedsRetry }, None),
                Err(message) => (
                    ConnectMachine {
                        device_id,
                        phase: Phase::Failed { error: TunnelError::AwsAuth { message } },
                    },
                    None,
                ),
            },
            (Phase::AwaitingRotation { tunnel_id }, DirectoryEvent::TokensRotated(result)) => match result {
                Ok(pair) => (
                    ConnectMachine {
                        device_id,
                        phase: Phase::Done {
                            lease: TunnelLease { tunnel_id, source_token: pair.source_token },
                        },
                    },
                    None,
                ),
                Err(f) => (
                    ConnectMachine {
                        device_id,
                        phase: Phase::Failed {
                            error: TunnelError::TokenRotation {
                                tunnel_id,
                                message: f.into_detail(),
                            },
                        },
                    },
                    None,
                ),
            },
            (Phase::AwaitingOpen, DirectoryEvent::TunnelOpened(result)) => match result {
                Ok(o) => (
                    ConnectMachine {
                        device_id,
                        phase: Phase::Done {
                            lease: TunnelLease {
                                tunnel_id: o.tunnel_id,
                                source_token: o.tokens.source_token,
                            },
                        },
                    },
                    None,
                ),
                Err(f) => (
                    ConnectMachine {
                        device_id,
                        phase: Phase::Failed {
                            error: TunnelError::TunnelOperation {
                                message: "Failed to open tunnel: ".to_owned().concat(
                                    f.into_detail().as_str(),
                                ),
                            },
                        },
                    },
                    None,
                ),
            },
            (phase, _) => (ConnectMachine { device_id, phase }, None),
        }
    }
}

} // verus!
