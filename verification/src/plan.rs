//! The reconciliation policy: given the tunnel records listed for a device,
//! decide which records to close and whether to reuse (rotate) an existing
//! Open tunnel or open a new one.
//!
//! The policy is: the first Open tunnel wins and has its tokens rotated;
//! every record scanned before it is closed; anything after it is left
//! untouched; if no record is Open, all are closed and a new tunnel is
//! opened. That the records after the first Open one are not inspected is
//! inherited behaviour, kept deliberately.

use vstd::prelude::*;

use crate::tunnel::{TunnelDescriptor, TunnelStatus};

verus! {

/// The terminal step of a reconciliation plan, once the stale records are
/// closed.
#[derive(Debug)]
pub enum PlanAction {
    /// Reuse the first Open tunnel: rotate its access tokens.
    Rotate { tunnel_id: String },
    /// No reusable tunnel: open a new one.
    OpenNew,
}

/// Index of the first Open record in `ts`, or `ts.len()` if none is Open.
pub open spec fn first_open_index(ts: Seq<TunnelDescriptor>) -> int
    decreases ts.len(),
{
    if ts.len() == 0 {
        0
    } else if ts[0].status is Open {
        0
    } else {
        1 + first_open_index(ts.drop_first())
    }
}

/// How many records stand before the first Open one (all of them, if none
/// is Open).
pub open spec fn stale_prefix_len(ts: Seq<TunnelDescriptor>) -> int {
    if first_open_index(ts) < ts.len() {
        first_open_index(ts)
    } else {
        ts.len() as int
    }
}

/// The ids of the records standing before the first Open one, in list order.
pub open spec fn stale_ids(ts: Seq<TunnelDescriptor>) -> Seq<String> {
    Seq::new(stale_prefix_len(ts) as nat, |i: int| ts[i].tunnel_id)
}

/// `first_open_index` is a position in the list (or its length), it points
/// at an Open record whenever one exists, and nothing before it is Open.
pub proof fn lemma_first_open_index(ts: Seq<TunnelDescriptor>)
    ensures
        0 <= first_open_index(ts) <= ts.len(),
        first_open_index(ts) < ts.len() ==> ts[first_open_index(ts)].status is Open,
        forall|i: int| 0 <= i < first_open_index(ts) ==> !(ts[i].status is Open),
    decreases ts.len(),
{
    if ts.len() == 0 {
    } else if ts[0].status is Open {
    } else {
        lemma_first_open_index(ts.drop_first());
        if first_open_index(ts) < ts.len() {
            assert(ts.drop_first()[first_open_index(ts.drop_first())] == ts[first_open_index(ts)]);
        }
        assert forall|i: int| 0 <= i < first_open_index(ts) implies !(ts[i].status is Open) by {
            if i > 0 {
                assert(ts.drop_first()[i - 1] == ts[i]);
            }
        }
    }
}

/// A reconciliation plan: the stale records to close, in order, then the
/// terminal step.
#[derive(Debug)]
pub struct ReconcilePlan {
    pub closes: Vec<String>,
    pub action: PlanAction,
}

/// Compute the reconciliation plan for the records listed for one device:
/// close everything before the first Open record, then rotate that record's
/// tokens, or open a new tunnel when no record is Open.
pub fn plan_reconciliation(tunnels: &Vec<TunnelDescriptor>) -> (p: ReconcilePlan)
    ensures
        p.closes@ == stale_ids(tunnels@),
        first_open_index(tunnels@) < tunnels@.len() ==> p.action == (PlanAction::Rotate {
            tunnel_id: tunnels@[first_open_index(tunnels@)].tunnel_id,
        }),
        first_open_index(tunnels@) >= tunnels@.len() ==> p.action == PlanAction::OpenNew,
{
    proof {
        lemma_first_open_index(tunnels@);
    }
    let mut closes: Vec<String> = Vec::new();
    let mut i: usize = 0;
    while i < tunnels.len()
        invariant
            i <= tunnels@.len(),
            forall|j: int| 0 <= j < i ==> !(tunnels@[j].status is Open),
            closes@ == Seq::new(i as nat, |j: int| tunnels@[j].tunnel_id),
            0 <= first_open_index(tunnels@) <= tunnels@.len(),
            first_open_index(tunnels@) < tunnels@.len() ==> tunnels@[first_open_index(
                tunnels@,
            )].status is Open,
            forall|j: int| 0 <= j < first_open_index(tunnels@) ==> !(tunnels@[j].status is Open),
        decreases tunnels@.len() - i,
    {
        let t = &tunnels[i];
        if t.status == TunnelStatus::Open {
            proof {
                assert(first_open_index(tunnels@) == i);
                assert(closes@ =~= stale_ids(tunnels@));
            }
            return ReconcilePlan {
                closes,
                action: PlanAction::Rotate { tunnel_id: t.tunnel_id.clone() },
            };
        }
        closes.push(t.tunnel_id.clone());
        proof {
            assert(closes@ =~= Seq::new((i + 1) as nat, |j: int| tunnels@[j].tunnel_id));
        }
        i = i + 1;
    }
    proof {
        assert(first_open_index(tunnels@) == tunnels@.len());
        assert(closes@ =~= stale_ids(tunnels@));
    }
    ReconcilePlan { closes, action: PlanAction::OpenNew }
}

} // verus!
