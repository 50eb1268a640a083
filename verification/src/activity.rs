//! The activity probe's decisions: which workspaces flip between idle and
//! active, given the established TCP ports of one tick.

use vstd::prelude::*;

verus! {

/// What the probe reads of one running workspace: its id (as the canonical
/// 128-bit value of its unique id), its SSH and IDE ports, and whether an
/// inactivity instant is currently recorded for it.
#[derive(Debug, Clone, Copy, PartialEq, Eq, Structural)]
pub struct RunningWorkspace {
    pub id: u128,
    pub ssh_port: Option<i32>,
    pub ide_port: Option<i32>,
    pub has_last_inactivity: bool,
}

/// One update the probe pushes to the Conductor: clear a workspace's
/// recorded inactivity instant, or set it to the tick's current time.
#[derive(Debug, Clone, Copy, PartialEq, Eq, Structural)]
pub enum ActivityAction {
    ClearLastInactivity { id: u128 },
    SetLastInactivity { id: u128 },
}

/// Whether a (possibly absent) port is among the established local ports.
pub open spec fn port_established(port: Option<i32>, established: Seq<i32>) -> bool {
    match port {
        Some(p) => established.contains(p),
        None => false,
    }
}

/// A workspace counts as active when its SSH port or its IDE port carries an
/// established connection.
pub open spec fn workspace_active(ws: RunningWorkspace, established: Seq<i32>) -> bool {
    port_established(ws.ssh_port, established) || port_established(ws.ide_port, established)
}

/// The transition of one workspace on one tick: an active workspace with a
/// recorded inactivity gets it cleared; an inactive one without gets it set;
/// every other combination is left alone.
pub open spec fn workspace_action(ws: RunningWorkspace, established: Seq<i32>) -> Option<
    ActivityAction,
> {
    if workspace_active(ws, established) {
        if ws.has_last_inactivity {
            Some(ActivityAction::ClearLastInactivity { id: ws.id })
        } else {
            None
        }
    } else {
        if !ws.has_last_inactivity {
            Some(ActivityAction::SetLastInactivity { id: ws.id })
        } else {
            None
        }
    }
}

/// All updates of one tick, in the workspaces' order, at most one per
/// workspace.
pub open spec fn tick_actions_spec(
    workspaces: Seq<RunningWorkspace>,
    established: Seq<i32>,
) -> Seq<ActivityAction>
    decreases workspaces.len(),
{
    if workspaces.len() == 0 {
        Seq::empty()
    } else {
        let rest = tick_actions_spec(workspaces.drop_last(), established);
        match workspace_action(workspaces.last(), established) {
            Some(a) => rest.push(a),
            None => rest,
        }
    }
}

fn port_active(port: Option<i32>, established: &Vec<i32>) -> (r: bool)
    ensures
        r == port_established(port, established@),
{
    if port.is_none() {
        return false;
    }
    let p = port.unwrap();
    let mut i: usize = 0;
    while i < established.len()
        invariant
            i <= established.len(),
            port == Some(p),
            forall|j: int| 0 <= j < i ==> established@[j] != p,
        decreases established.len() - i,
    {
        if established[i] == p {
            proof {
                assert(established@[i as int] == p);
                assert(established@.contains(p));
            }
            return true;
        }
        i = i + 1;
    }
    proof {
        if established@.contains(p) {
            let j = choose|j: int| 0 <= j < established@.len() && established@[j] == p;
            assert(established@[j] != p);
        }
    }
    false
}

/// Computes one tick's updates, as `tick_actions_spec` says.
pub fn tick_actions(workspaces: &Vec<RunningWorkspace>, established: &Vec<i32>) -> (r: Vec<
    ActivityAction,
>)
    ensures
        r@ == tick_actions_spec(workspaces@, established@),
{
    let mut r: Vec<ActivityAction> = Vec::new();
    let mut i: usize = 0;
    while i < workspaces.len()
        invariant
            i <= workspaces.len(),
            r@ == tick_actions_spec(workspaces@.take(i as int), established@),
        decreases workspaces.len() - i,
    {
        let ws = &workspaces[i];
        let active = {
            let ssh = port_active(ws.ssh_port, established);
            let ide = port_active(ws.ide_port, established);
            ssh || ide
        };
        if active {
            if ws.has_last_inactivity {
                r.push(ActivityAction::ClearLastInactivity { id: ws.id });
            }
        } else {
            if !ws.has_last_inactivity {
                r.push(ActivityAction::SetLastInactivity { id: ws.id });
            }
        }
        proof {
            assert(workspaces@.take(i + 1 as int).drop_last() =~= workspaces@.take(i as int));
            assert(workspaces@.take(i + 1 as int).last() == workspaces@[i as int]);
        }
        i = i + 1;
    }
    proof {
        assert(workspaces@.take(workspaces@.len() as int) =~= workspaces@);
    }
    r
}

/// The workspace as the Conductor records it after an action is applied:
/// clearing removes the recorded instant, setting records one.
pub open spec fn apply_action_spec(ws: RunningWorkspace, established: Seq<i32>) -> RunningWorkspace {
    match workspace_action(ws, established) {
        Some(ActivityAction::ClearLastInactivity { .. }) => RunningWorkspace {
            has_last_inactivity: false,
            ..ws
        },
        Some(ActivityAction::SetLastInactivity { .. }) => RunningWorkspace {
            has_last_inactivity: true,
            ..ws
        },
        None => ws,
    }
}

/// The whole tick applied: every workspace settled into the state its action
/// leaves behind.
pub open spec fn apply_tick_spec(
    workspaces: Seq<RunningWorkspace>,
    established: Seq<i32>,
) -> Seq<RunningWorkspace> {
    workspaces.map_values(|ws: RunningWorkspace| apply_action_spec(ws, established))
}

/// One workspace settles after one action: with the TCP state unchanged, the
/// updated workspace asks for nothing more.
pub proof fn lemma_action_settles(ws: RunningWorkspace, established: Seq<i32>)
    ensures
        workspace_action(apply_action_spec(ws, established), established) is None,
{
}

proof fn lemma_no_actions(workspaces: Seq<RunningWorkspace>, established: Seq<i32>)
    requires
        forall|i: int| 0 <= i < workspaces.len() ==> workspace_action(
            #[trigger] workspaces[i],
            established,
        ) is None,
    ensures
        tick_actions_spec(workspaces, established) == Seq::<ActivityAction>::empty(),
    decreases workspaces.len(),
{
    if workspaces.len() > 0 {
        lemma_no_actions(workspaces.drop_last(), established);
    }
}

/// Ticks are idempotent: once a tick's updates are applied, a second tick
/// over the same established TCP ports asks for no update at all — each
/// workspace gets at most one update per change of state.
pub proof fn lemma_tick_idempotent(workspaces: Seq<RunningWorkspace>, established: Seq<i32>)
    ensures
        tick_actions_spec(apply_tick_spec(workspaces, established), established) == Seq::<
            ActivityAction,
        >::empty(),
{
    let after = apply_tick_spec(workspaces, established);
    assert forall|i: int| 0 <= i < after.len() implies workspace_action(
        #[trigger] after[i],
        established,
    ) is None by {
        assert(after[i] == apply_action_spec(workspaces[i], established));
        lemma_action_settles(workspaces[i], established);
    }
    lemma_no_actions(after, established);
}

/// A tick never pushes more updates than there are workspaces.
pub proof fn lemma_at_most_one_action_per_workspace(
    workspaces: Seq<RunningWorkspace>,
    established: Seq<i32>,
)
    ensures
        tick_actions_spec(workspaces, established).len() <= workspaces.len(),
    decreases workspaces.len(),
{
    if workspaces.len() > 0 {
        lemma_at_most_one_action_per_workspace(workspaces.drop_last(), established);
    }
}

} // verus!
