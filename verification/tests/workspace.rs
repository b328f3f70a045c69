use mixlab::protocol::Coords;
use mixlab::protocol::InputId;
use mixlab::protocol::LineType;
use mixlab::protocol::ModuleId;
use mixlab::protocol::OutputId;
use mixlab::protocol::TerminalId;
use mixlab::protocol::WindowGeometry;
use mixlab::protocol::WorkspaceOp;
use mixlab::protocol::WorkspaceState as WireState;
use mixlab::session::WorkspaceState;
use mixlab::workspace::lines_extent;
use mixlab::workspace::make_terminal_refs;
use mixlab::workspace::plan_line_points;
use mixlab::workspace::terminal_mouse_down;
use mixlab::workspace::terminal_screen_coords;
use mixlab::workspace::window_ref_changes;
use mixlab::workspace::MouseMode;
use mixlab::workspace::TerminalRef;
use mixlab::workspace::TerminalType;
use mixlab::workspace::WorkspaceMsg;
use mixlab::workspace::WorkspaceUi;

type State = WorkspaceState<u32, ()>;

/// Parameters of the same kind share their tens digit.
fn same_kind(a: &u32, b: &u32) -> bool {
    a / 10 == b / 10
}

fn geometry(x: i32, y: i32, z: usize) -> WindowGeometry {
    WindowGeometry { position: Coords { x, y }, z_index: z }
}

fn out(m: usize, i: usize) -> OutputId {
    OutputId(ModuleId(m), i)
}

fn inp(m: usize, i: usize) -> InputId {
    InputId(ModuleId(m), i)
}

/// Three modules; module 1's output 0 feeds inputs of modules 2 and 3,
/// and module 2's output 0 feeds module 3's input 1.
fn sample_state() -> State {
    WorkspaceState::from_wire(WireState {
        modules: vec![(ModuleId(1), 10), (ModuleId(2), 20), (ModuleId(3), 30)],
        geometry: vec![
            (ModuleId(1), geometry(0, 0, 0)),
            (ModuleId(2), geometry(100, 50, 0)),
            (ModuleId(3), geometry(300, 80, 0)),
        ],
        indications: vec![],
        connections: vec![(inp(2, 0), out(1, 0)), (inp(3, 0), out(1, 0)), (inp(3, 1), out(2, 0))],
        inputs: vec![(ModuleId(1), vec![]), (ModuleId(2), vec![]), (ModuleId(3), vec![])],
        outputs: vec![(ModuleId(1), vec![]), (ModuleId(2), vec![])],
    })
}

fn tref(line_type: LineType, terminal_type: TerminalType) -> TerminalRef {
    TerminalRef { label: None, line_type, terminal_type }
}

fn connection_keys(state: &State) -> Vec<(usize, usize)> {
    state.connections.keys().copied().collect()
}

#[test]
fn drag_moves_window_and_sends_geometry_on_release() {
    let mut ui = WorkspaceUi::new();
    let mut state = sample_state();

    let r = ui.update(&mut state, WorkspaceMsg::DragStart(ModuleId(2), Coords { x: 500, y: 500 }), same_kind);
    assert!(r.render && r.ops.is_empty() && r.moved.is_none());
    assert_eq!(state.geometry[&2], geometry(100, 50, 1));
    assert!(matches!(ui.mouse, MouseMode::Drag(_)));

    let r = ui.update(
        &mut state,
        WorkspaceMsg::MouseMove { page: Coords { x: 510, y: 490 }, target_offset: None, offset: Coords { x: 0, y: 0 } },
        same_kind,
    );
    assert!(r.render && r.ops.is_empty());
    assert_eq!(r.moved, Some((ModuleId(2), Coords { x: 110, y: 40 })));

    let r = ui.update(&mut state, WorkspaceMsg::MouseUp { page: Coords { x: 530, y: 495 } }, same_kind);
    assert!(r.render);
    assert_eq!(r.moved, Some((ModuleId(2), Coords { x: 130, y: 45 })));
    assert_eq!(r.ops.len(), 1);
    match &r.ops[0] {
        WorkspaceOp::UpdateWindowGeometry(m, g) => {
            assert_eq!(*m, ModuleId(2));
            assert_eq!(*g, geometry(130, 45, 1));
        }
        other => panic!("unexpected op {:?}", other),
    }
    assert_eq!(state.geometry[&2], geometry(130, 45, 1));
    assert!(matches!(ui.mouse, MouseMode::Normal));
}

#[test]
fn drag_start_stacks_windows_in_order() {
    let mut ui = WorkspaceUi::new();
    let mut state = sample_state();
    ui.update(&mut state, WorkspaceMsg::DragStart(ModuleId(3), Coords { x: 0, y: 0 }), same_kind);
    ui.update(&mut state, WorkspaceMsg::MouseUp { page: Coords { x: 0, y: 0 } }, same_kind);
    ui.update(&mut state, WorkspaceMsg::DragStart(ModuleId(1), Coords { x: 0, y: 0 }), same_kind);
    assert_eq!(state.geometry[&3].z_index, 1);
    assert_eq!(state.geometry[&1].z_index, 2);
    ui.update(&mut state, WorkspaceMsg::MouseUp { page: Coords { x: 0, y: 0 } }, same_kind);
    let r = ui.update(&mut state, WorkspaceMsg::CreateModule(50, Coords { x: 0, y: 0 }), same_kind);
    assert!(matches!(r.ops.as_slice(), [WorkspaceOp::CreateModule(50, g)] if g.z_index == 3));
    ui.update(&mut state, WorkspaceMsg::DragStart(ModuleId(2), Coords { x: 0, y: 0 }), same_kind);
    assert_eq!(state.geometry[&2].z_index, 4);
}

#[test]
fn drag_start_of_missing_window_does_nothing() {
    let mut ui = WorkspaceUi::new();
    let mut state = sample_state();
    let r = ui.update(&mut state, WorkspaceMsg::DragStart(ModuleId(9), Coords { x: 0, y: 0 }), same_kind);
    assert!(!r.render && r.ops.is_empty());
    assert!(matches!(ui.mouse, MouseMode::Normal));
    assert_eq!(ui.gen_z_index.last(), None);
}

#[test]
fn connecting_output_to_input_of_same_type() {
    let mut ui = WorkspaceUi::new();
    let mut state = sample_state();
    let r = ui.update(
        &mut state,
        WorkspaceMsg::SelectTerminal(TerminalId::Output(out(3, 0)), tref(LineType::Stereo, TerminalType::Output)),
        same_kind,
    );
    assert!(!r.render && r.ops.is_empty());
    assert!(matches!(ui.mouse, MouseMode::Connect(_, _, None)));

    let r = ui.update(
        &mut state,
        WorkspaceMsg::MouseMove {
            page: Coords { x: 0, y: 0 },
            target_offset: Some(Coords { x: 40, y: 60 }),
            offset: Coords { x: 2, y: 3 },
        },
        same_kind,
    );
    assert!(r.render);
    assert!(matches!(ui.mouse, MouseMode::Connect(_, _, Some(Coords { x: 42, y: 63 }))));

    let r = ui.update(
        &mut state,
        WorkspaceMsg::SelectTerminal(TerminalId::Input(inp(2, 1)), tref(LineType::Stereo, TerminalType::Input)),
        same_kind,
    );
    assert!(r.render);
    assert!(matches!(r.ops.as_slice(), [WorkspaceOp::CreateConnection(i, o)] if *i == inp(2, 1) && *o == out(3, 0)));
    assert_eq!(state.connections[&(2, 1)], out(3, 0));
    assert!(matches!(ui.mouse, MouseMode::Normal));
}

#[test]
fn connecting_mismatched_or_same_direction_terminals_is_refused() {
    let mut ui = WorkspaceUi::new();
    let mut state = sample_state();
    ui.update(
        &mut state,
        WorkspaceMsg::SelectTerminal(TerminalId::Output(out(3, 0)), tref(LineType::Video, TerminalType::Output)),
        same_kind,
    );
    let r = ui.update(
        &mut state,
        WorkspaceMsg::SelectTerminal(TerminalId::Input(inp(2, 1)), tref(LineType::Mono, TerminalType::Input)),
        same_kind,
    );
    assert!(!r.render && r.ops.is_empty());
    let r = ui.update(
        &mut state,
        WorkspaceMsg::SelectTerminal(TerminalId::Output(out(2, 1)), tref(LineType::Video, TerminalType::Output)),
        same_kind,
    );
    assert!(!r.render && r.ops.is_empty());
    assert_eq!(connection_keys(&state), vec![(2, 0), (3, 0), (3, 1)]);
    assert!(matches!(ui.mouse, MouseMode::Connect(..)));
}

#[test]
fn clearing_an_output_deletes_every_connection_from_it() {
    let mut ui = WorkspaceUi::new();
    let mut state = sample_state();
    let r = ui.update(&mut state, WorkspaceMsg::ClearTerminal(TerminalId::Output(out(1, 0))), same_kind);
    assert!(r.render);
    let mut deleted: Vec<InputId> = r
        .ops
        .iter()
        .map(|op| match op {
            WorkspaceOp::DeleteConnection(i) => *i,
            other => panic!("unexpected op {:?}", other),
        })
        .collect();
    deleted.sort();
    assert_eq!(deleted, vec![inp(2, 0), inp(3, 0)]);
    assert_eq!(connection_keys(&state), vec![(3, 1)]);
}

#[test]
fn clearing_an_input_deletes_its_connection() {
    let mut ui = WorkspaceUi::new();
    let mut state = sample_state();
    let r = ui.update(&mut state, WorkspaceMsg::ClearTerminal(TerminalId::Input(inp(3, 1))), same_kind);
    assert!(r.render);
    assert!(matches!(r.ops.as_slice(), [WorkspaceOp::DeleteConnection(i)] if *i == inp(3, 1)));
    assert_eq!(connection_keys(&state), vec![(2, 0), (3, 0)]);
}

#[test]
fn deleting_a_window_removes_module_and_its_connections() {
    let mut ui = WorkspaceUi::new();
    let mut state = sample_state();
    let r = ui.update(&mut state, WorkspaceMsg::DeleteWindow(ModuleId(2)), same_kind);
    assert!(r.render);
    assert!(matches!(r.ops.as_slice(), [WorkspaceOp::DeleteModule(ModuleId(2))]));
    assert!(!state.modules.contains_key(&2));
    assert!(!state.geometry.contains_key(&2));
    assert_eq!(connection_keys(&state), vec![(3, 0)]);
    for (k, o) in state.connections.iter() {
        assert_ne!(k.0, 2);
        assert_ne!(o.0, ModuleId(2));
    }
}

#[test]
fn updating_params_of_the_same_kind_only() {
    let mut ui = WorkspaceUi::new();
    let mut state = sample_state();
    let r = ui.update(&mut state, WorkspaceMsg::UpdateModuleParams(ModuleId(2), 25), same_kind);
    assert!(r.render);
    assert!(matches!(r.ops.as_slice(), [WorkspaceOp::UpdateModuleParams(ModuleId(2), 25)]));
    assert_eq!(state.modules[&2], 25);

    let r = ui.update(&mut state, WorkspaceMsg::UpdateModuleParams(ModuleId(2), 99), same_kind);
    assert!(!r.render && r.ops.is_empty());
    assert_eq!(state.modules[&2], 25);

    let r = ui.update(&mut state, WorkspaceMsg::UpdateModuleParams(ModuleId(7), 70), same_kind);
    assert!(!r.render && r.ops.is_empty());
}

#[test]
fn creating_a_module_stacks_it_on_top() {
    let mut ui = WorkspaceUi::new();
    let mut state = sample_state();
    ui.update(&mut state, WorkspaceMsg::MouseDown { buttons: 2, offset: Coords { x: 5, y: 6 } }, same_kind);
    assert!(matches!(ui.mouse, MouseMode::ContextMenu(Coords { x: 5, y: 6 })));
    let r = ui.update(&mut state, WorkspaceMsg::CreateModule(40, Coords { x: 5, y: 6 }), same_kind);
    assert!(r.render);
    assert!(matches!(
        r.ops.as_slice(),
        [WorkspaceOp::CreateModule(40, g)] if *g == geometry(5, 6, 1)
    ));
    assert!(matches!(ui.mouse, MouseMode::Normal));
    assert_eq!(state.modules.len(), 3);
}

#[test]
fn mouse_down_closes_menus_and_cancels_connections() {
    let mut ui = WorkspaceUi::new();
    let mut state = sample_state();
    let r = ui.update(&mut state, WorkspaceMsg::MouseDown { buttons: 1, offset: Coords { x: 0, y: 0 } }, same_kind);
    assert!(!r.render);

    ui.update(&mut state, WorkspaceMsg::MouseDown { buttons: 2, offset: Coords { x: 1, y: 1 } }, same_kind);
    let r = ui.update(&mut state, WorkspaceMsg::MouseDown { buttons: 1, offset: Coords { x: 0, y: 0 } }, same_kind);
    assert!(r.render);
    assert!(matches!(ui.mouse, MouseMode::Normal));

    ui.update(
        &mut state,
        WorkspaceMsg::SelectTerminal(TerminalId::Input(inp(1, 0)), tref(LineType::Mono, TerminalType::Input)),
        same_kind,
    );
    let r = ui.update(&mut state, WorkspaceMsg::MouseDown { buttons: 2, offset: Coords { x: 0, y: 0 } }, same_kind);
    assert!(r.render);
    assert!(matches!(ui.mouse, MouseMode::Normal));

    let r = ui.update(&mut state, WorkspaceMsg::Rerender, same_kind);
    assert!(r.render && r.ops.is_empty());
}

#[test]
fn line_points_mostly_horizontal() {
    let pts = plan_line_points(Coords { x: 0, y: 0 }, Coords { x: 100, y: 40 });
    assert_eq!(
        pts,
        vec![
            Coords { x: 0, y: 0 },
            Coords { x: 16, y: 0 },
            Coords { x: 50, y: 0 },
            Coords { x: 50, y: 40 },
            Coords { x: 84, y: 40 },
            Coords { x: 100, y: 40 },
        ]
    );
}

#[test]
fn line_points_mostly_vertical_round_toward_zero() {
    let pts = plan_line_points(Coords { x: 50, y: -3 }, Coords { x: 40, y: 0 });
    assert_eq!(
        pts,
        vec![
            Coords { x: 50, y: -3 },
            Coords { x: 66, y: -3 },
            Coords { x: 66, y: -1 },
            Coords { x: 24, y: -1 },
            Coords { x: 24, y: 0 },
            Coords { x: 40, y: 0 },
        ]
    );
    for w in pts.windows(2) {
        assert!(w[0].x == w[1].x || w[0].y == w[1].y);
    }
}

#[test]
fn lines_extent_is_largest_coordinates() {
    let lines = vec![
        vec![Coords { x: -5, y: 3 }, Coords { x: 20, y: 1 }],
        vec![],
        vec![Coords { x: 7, y: 44 }],
    ];
    assert_eq!(lines_extent(&lines), Coords { x: 20, y: 44 });
    assert_eq!(lines_extent(&vec![vec![Coords { x: -1, y: -2 }]]), Coords { x: 0, y: 0 });
}

#[test]
fn terminal_helpers() {
    assert_eq!(terminal_screen_coords(Coords { x: 100, y: 200 }, 5, 30), Coords { x: 114, y: 239 });
    let refs = make_terminal_refs(&vec![LineType::Mono.labeled("L"), LineType::Video.unlabeled()], TerminalType::Input);
    assert_eq!(refs.len(), 2);
    assert_eq!(refs[0].label.as_deref(), Some("L"));
    assert_eq!(refs[0].line_type, LineType::Mono);
    assert_eq!(refs[1].label, None);
    assert_eq!(refs[1].terminal_type, TerminalType::Input);
    assert_eq!(TerminalType::Input.to_css_name(), "input");
    assert_eq!(TerminalType::Output.to_css_name(), "output");

    let t = TerminalId::Output(out(1, 0));
    assert!(matches!(
        terminal_mouse_down::<u32>(2, t, tref(LineType::Mono, TerminalType::Output)),
        WorkspaceMsg::ClearTerminal(TerminalId::Output(_))
    ));
    assert!(matches!(
        terminal_mouse_down::<u32>(1, t, tref(LineType::Mono, TerminalType::Output)),
        WorkspaceMsg::SelectTerminal(..)
    ));
    assert_eq!(t.module_id(), ModuleId(1));
    assert_eq!(inp(4, 2).index(), 2);
}

#[test]
fn window_references_follow_the_workspace() {
    let state = sample_state();
    let (mut create, mut delete) = window_ref_changes(&state, &vec![1, 7]);
    create.sort();
    delete.sort();
    // module 3 has no outputs yet, so no window is made for it
    assert_eq!(create, vec![2]);
    assert_eq!(delete, vec![7]);
}
