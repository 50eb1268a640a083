use lapdev_ws::activity::{tick_actions, ActivityAction, RunningWorkspace};

fn ws(id: u128, has_last_inactivity: bool) -> RunningWorkspace {
    RunningWorkspace {
        id,
        ssh_port: Some(2200),
        ide_port: Some(3000),
        has_last_inactivity,
    }
}

#[test]
fn idle_workspace_gets_inactivity_set_once() {
    let workspaces = vec![ws(7, false)];
    let established: Vec<i32> = Vec::new();

    let first = tick_actions(&workspaces, &established);
    assert_eq!(first, vec![ActivityAction::SetLastInactivity { id: 7 }]);

    // The Conductor records the instant; the next tick over identical TCP
    // state asks for nothing.
    let settled = vec![ws(7, true)];
    let second = tick_actions(&settled, &established);
    assert!(second.is_empty());
}

#[test]
fn active_workspace_gets_inactivity_cleared() {
    let workspaces = vec![ws(7, true)];
    let established = vec![2200];
    let actions = tick_actions(&workspaces, &established);
    assert_eq!(actions, vec![ActivityAction::ClearLastInactivity { id: 7 }]);

    let settled = vec![ws(7, false)];
    assert!(tick_actions(&settled, &established).is_empty());
}

#[test]
fn ide_port_alone_counts_as_active() {
    let workspaces = vec![ws(7, false)];
    let established = vec![3000];
    assert!(tick_actions(&workspaces, &established).is_empty());
}

#[test]
fn workspace_without_ports_is_idle() {
    let workspaces = vec![RunningWorkspace {
        id: 9,
        ssh_port: None,
        ide_port: None,
        has_last_inactivity: false,
    }];
    let established = vec![2200, 3000];
    assert_eq!(
        tick_actions(&workspaces, &established),
        vec![ActivityAction::SetLastInactivity { id: 9 }]
    );
}

#[test]
fn one_action_per_workspace_in_order() {
    let workspaces = vec![ws(1, false), ws(2, true), ws(3, true)];
    let established = vec![2200];
    let actions = tick_actions(&workspaces, &established);
    // All three are active on their SSH port: 1 has nothing recorded and
    // needs no change; 2 and 3 carry a recorded inactivity and get it
    // cleared, in the workspaces' order.
    assert_eq!(
        actions,
        vec![
            ActivityAction::ClearLastInactivity { id: 2 },
            ActivityAction::ClearLastInactivity { id: 3 },
        ]
    );
}
