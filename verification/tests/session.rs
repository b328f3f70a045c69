use mixlab::protocol::ClientMessage;
use mixlab::protocol::ClientSequence;
use mixlab::protocol::Coords;
use mixlab::protocol::InputId;
use mixlab::protocol::LineType;
use mixlab::protocol::MediaLibrary;
use mixlab::protocol::ModuleId;
use mixlab::protocol::OutputId;
use mixlab::protocol::PerformanceInfo;
use mixlab::protocol::ServerMessage;
use mixlab::protocol::ServerUpdate;
use mixlab::protocol::WindowGeometry;
use mixlab::protocol::WorkspaceOp;
use mixlab::protocol::WorkspaceState as WireState;
use mixlab::session::input_key;
use mixlab::session::Notification;
use mixlab::session::SessionState;
use mixlab::session::SyncState;
use mixlab::session::WorkspaceState;

type Session = SessionState<u32, u8>;

fn geometry(x: i32, y: i32, z: usize) -> WindowGeometry {
    WindowGeometry { position: Coords { x, y }, z_index: z }
}

fn create(id: usize, params: u32) -> ServerUpdate<u32, u8> {
    ServerUpdate::CreateModule {
        id: ModuleId(id),
        params,
        geometry: geometry(10, 20, 1),
        indication: 7,
        inputs: vec![LineType::Stereo.labeled("in")],
        outputs: vec![LineType::Stereo.unlabeled()],
    }
}

fn empty_wire() -> WireState<u32, u8> {
    WireState {
        modules: vec![],
        geometry: vec![],
        indications: vec![],
        connections: vec![],
        inputs: vec![],
        outputs: vec![],
    }
}

fn session_with_workspace() -> Session {
    let mut s = Session::new();
    let n = s.on_server_message(ServerMessage::WorkspaceState(empty_wire()));
    assert!(matches!(n, Some(Notification::Workspace)));
    s
}

#[test]
fn from_wire_later_entries_win() {
    let wire = WireState {
        modules: vec![(ModuleId(1), 10u32), (ModuleId(2), 20), (ModuleId(1), 11)],
        geometry: vec![(ModuleId(1), geometry(1, 1, 1)), (ModuleId(1), geometry(2, 2, 2))],
        indications: vec![(ModuleId(2), 5u8)],
        connections: vec![
            (InputId(ModuleId(2), 0), OutputId(ModuleId(1), 0)),
            (InputId(ModuleId(2), 0), OutputId(ModuleId(1), 1)),
        ],
        inputs: vec![(ModuleId(2), vec![LineType::Mono.unlabeled()])],
        outputs: vec![(ModuleId(1), vec![LineType::Mono.unlabeled(), LineType::Video.unlabeled()])],
    };
    let w = WorkspaceState::from_wire(wire);
    assert_eq!(w.modules.len(), 2);
    assert_eq!(w.modules[&1], 11);
    assert_eq!(w.modules[&2], 20);
    assert_eq!(w.geometry[&1], geometry(2, 2, 2));
    assert_eq!(w.indications[&2], 5);
    assert_eq!(w.connections.len(), 1);
    assert_eq!(w.connections[&(2, 0)], OutputId(ModuleId(1), 1));
    assert_eq!(w.inputs[&2].len(), 1);
    assert_eq!(w.outputs[&1].len(), 2);
}

#[test]
fn apply_update_create_update_delete_module() {
    let mut w = WorkspaceState::from_wire(empty_wire());
    w.apply_update(create(3, 100));
    assert_eq!(w.modules[&3], 100);
    assert_eq!(w.geometry[&3], geometry(10, 20, 1));
    assert_eq!(w.indications[&3], 7);
    assert_eq!(w.inputs[&3][0].label(), Some("in"));
    assert_eq!(w.outputs[&3][0].label(), None);

    w.apply_update(ServerUpdate::UpdateModuleParams(ModuleId(3), 101));
    w.apply_update(ServerUpdate::UpdateWindowGeometry(ModuleId(3), geometry(-5, 6, 9)));
    w.apply_update(ServerUpdate::UpdateModuleIndication(ModuleId(3), 8));
    assert_eq!(w.modules[&3], 101);
    assert_eq!(w.geometry[&3], geometry(-5, 6, 9));
    assert_eq!(w.indications[&3], 8);

    w.apply_update(ServerUpdate::DeleteModule(ModuleId(3)));
    assert!(w.modules.is_empty());
    assert!(w.geometry.is_empty());
    assert!(w.indications.is_empty());
    assert!(w.inputs.is_empty());
    assert!(w.outputs.is_empty());
}

#[test]
fn apply_update_of_missing_module_changes_nothing() {
    let mut w = WorkspaceState::from_wire(empty_wire());
    w.apply_update(ServerUpdate::UpdateModuleParams(ModuleId(9), 1));
    w.apply_update(ServerUpdate::UpdateWindowGeometry(ModuleId(9), geometry(0, 0, 0)));
    w.apply_update(ServerUpdate::UpdateModuleIndication(ModuleId(9), 1));
    assert!(w.modules.is_empty());
    assert!(w.geometry.is_empty());
    assert!(w.indications.is_empty());
}

#[test]
fn create_then_delete_connection_restores_connections() {
    let mut w = WorkspaceState::from_wire(empty_wire());
    w.apply_update(ServerUpdate::CreateConnection(InputId(ModuleId(4), 1), OutputId(ModuleId(5), 0)));
    assert_eq!(w.connections[&(4, 1)], OutputId(ModuleId(5), 0));
    w.apply_update(ServerUpdate::CreateConnection(InputId(ModuleId(4), 1), OutputId(ModuleId(6), 2)));
    assert_eq!(w.connections[&(4, 1)], OutputId(ModuleId(6), 2));
    w.apply_update(ServerUpdate::DeleteConnection(InputId(ModuleId(4), 1)));
    assert!(w.connections.is_empty());
    assert_eq!(input_key(InputId(ModuleId(4), 1)), (4, 1));
}

#[test]
fn create_then_delete_module_restores_workspace() {
    let mut w = WorkspaceState::from_wire(empty_wire());
    w.apply_update(create(1, 5));
    w.apply_update(create(2, 6));
    w.apply_update(ServerUpdate::DeleteModule(ModuleId(2)));
    assert_eq!(w.modules.keys().copied().collect::<Vec<_>>(), vec![1]);
    assert_eq!(w.geometry.len(), 1);
    assert_eq!(w.inputs.len(), 1);
}

#[test]
fn sync_state_tracks_acknowledgements() {
    let mut s = SyncState::new();
    assert!(s.workspace_synced());
    let a = s.next_sequence();
    let b = s.next_sequence();
    assert_eq!((a, b), (ClientSequence(1), ClientSequence(2)));
    assert!(!s.workspace_synced());
    s.sync(ClientSequence(1));
    assert!(!s.workspace_synced());
    s.sync(ClientSequence(2));
    assert!(s.workspace_synced());
}

#[test]
fn session_update_workspace_numbers_operations() {
    let mut s = session_with_workspace();
    let ClientMessage::Workspace(m1) = s.update_workspace(WorkspaceOp::DeleteModule(ModuleId(1)));
    let ClientMessage::Workspace(m2) = s.update_workspace(WorkspaceOp::CreateModule(4, geometry(0, 0, 1)));
    assert_eq!(m1.sequence, ClientSequence(1));
    assert_eq!(m2.sequence, ClientSequence(2));
    assert!(matches!(m1.op, WorkspaceOp::DeleteModule(ModuleId(1))));
    assert!(matches!(m2.op, WorkspaceOp::CreateModule(4, _)));
}

#[test]
fn session_renders_only_once_every_operation_came_back() {
    let mut s = session_with_workspace();
    s.update_workspace(WorkspaceOp::DeleteModule(ModuleId(1)));
    s.update_workspace(WorkspaceOp::DeleteModule(ModuleId(2)));

    // an update while the server is behind is applied but not rendered
    let n = s.on_server_message(ServerMessage::Update(create(1, 9)));
    assert!(n.is_none());
    assert_eq!(s.state.as_ref().unwrap().modules[&1], 9);

    let n = s.on_server_message(ServerMessage::Sync(ClientSequence(1)));
    assert!(n.is_none());
    let n = s.on_server_message(ServerMessage::Sync(ClientSequence(2)));
    assert!(matches!(n, Some(Notification::Workspace)));

    let n = s.on_server_message(ServerMessage::Update(ServerUpdate::DeleteModule(ModuleId(1))));
    assert!(matches!(n, Some(Notification::Workspace)));
    assert!(s.state.as_ref().unwrap().modules.is_empty());
}

#[test]
fn session_passes_performance_and_library_on() {
    let mut s = Session::new();
    let perf = PerformanceInfo {
        realtime: true,
        lag: None,
        tick_rate: 100,
        tick_budget: mixlab::protocol::Microseconds(10000),
        accounts: vec![],
    };
    match s.on_server_message(ServerMessage::Performance(perf)) {
        Some(Notification::Performance(p)) => {
            assert!(p.realtime);
            assert_eq!(p.tick_rate, 100);
        }
        _ => panic!("expected performance notification"),
    }
    let lib = MediaLibrary { items: vec![] };
    assert!(matches!(s.on_server_message(ServerMessage::MediaLibrary(lib)), Some(Notification::MediaLibrary(_))));
    assert!(s.state.is_none());
}

#[test]
fn session_workspace_state_replaces_workspace() {
    let mut s = session_with_workspace();
    s.on_server_message(ServerMessage::Update(create(5, 1)));
    let mut wire = empty_wire();
    wire.modules.push((ModuleId(8), 2));
    let n = s.on_server_message(ServerMessage::WorkspaceState(wire));
    assert!(matches!(n, Some(Notification::Workspace)));
    let w = s.state.as_ref().unwrap();
    assert_eq!(w.modules.keys().copied().collect::<Vec<_>>(), vec![8]);
    assert!(w.geometry.is_empty());
}

#[test]
fn coords_add_then_sub() {
    let a = Coords { x: -3, y: 40 };
    let d = Coords { x: 10, y: -50 };
    let moved = a.add(d);
    assert_eq!(moved, Coords { x: 7, y: -10 });
    assert_eq!(moved.sub(d), a);
}
