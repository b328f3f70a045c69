//! The workspace editor's decisions: dragging windows, drawing and clearing
//! connections, the context menu, and the operations these send to the
//! server. The page supplies mouse positions; the editor says what changed,
//! whether to re-render, and what to send.
use vstd::prelude::*;
use std::collections::BTreeMap;
use vstd::std_specs::iter::IteratorSpec;

use crate::protocol::Coords;
use crate::protocol::InputId;
use crate::protocol::LineType;
use crate::protocol::Terminal;
use crate::protocol::ModuleId;
use crate::protocol::OutputId;
use crate::protocol::TerminalId;
use crate::protocol::WindowGeometry;
use crate::protocol::WorkspaceOp;
use crate::protocol::coords_add_fits;
use crate::protocol::coords_sub_fits;
use crate::seq_facts::lemma_push_contains;
use crate::seq_facts::lemma_push_no_duplicates;
use crate::session::WorkspaceState;
use crate::session::WorkspaceView;
use crate::session::input_key;
use crate::session::input_key_spec;
use crate::util::Sequence;
use crate::util::lemma_sequence_fits;

verus! {

/// Which connections a sweep selects: those from one output, or those that
/// touch one module at either end.
#[derive(Debug, Clone, Copy, PartialEq, Eq, Structural)]
pub enum ConnectionFilter {
    FromOutput(OutputId),
    TouchingModule(ModuleId),
}

/// Whether the connection from the input stored under `key` to `output` is
/// selected by `filter`.
pub open spec fn filter_selects(filter: ConnectionFilter, key: (usize, usize), output: OutputId) -> bool {
    match filter {
        ConnectionFilter::FromOutput(o) => output == o,
        ConnectionFilter::TouchingModule(m) => key.0 == m.0 || output.0 == m,
    }
}

fn selects(filter: ConnectionFilter, key: (usize, usize), output: OutputId) -> (r: bool)
    ensures
        r == filter_selects(filter, key, output),
{
    match filter {
        ConnectionFilter::FromOutput(o) => output == o,
        ConnectionFilter::TouchingModule(m) => key.0 == m.0 || output.0 == m,
    }
}

/// The keys of the connections a filter selects.
pub open spec fn selected_keys(conns: Map<(usize, usize), OutputId>, filter: ConnectionFilter) -> Set<(usize, usize)> {
    Set::new(|k: (usize, usize)| conns.contains_key(k) && filter_selects(filter, k, conns[k]))
}

/// The keys of the connections `filter` selects, each once.
fn selected_connection_keys(conns: &BTreeMap<(usize, usize), OutputId>, filter: ConnectionFilter) -> (r: Vec<(usize, usize)>)
    ensures
        r@.to_set() == selected_keys(conns@, filter),
        r@.no_duplicates(),
{
    let mut r: Vec<(usize, usize)> = Vec::new();
    let ghost ks = conns.keys().remaining().unref();
    assert(ks.to_set() == conns@.dom());
    assert(ks.no_duplicates());
    for k in it: conns.keys()
        invariant
            ks == it.seq().unref(),
            ks.no_duplicates(),
            ks.to_set() == conns@.dom(),
            forall|x: (usize, usize)| #[trigger] r@.contains(x) <==> (ks.take(it.index() as int).contains(x)
                && filter_selects(filter, x, conns@[x])),
            r@.no_duplicates(),
    {
        let ghost idx = it.index();
        assert(*k == ks[idx as int]);
        assert(conns@.contains_key(*k)) by {
            assert(ks.contains(*k));
        }
        let v = conns.get(k).unwrap();
        assert(*v == conns@[*k]);
        assert(ks.take(idx + 1) =~= ks.take(idx as int).push(*k));
        assert(!ks.take(idx as int).contains(*k)) by {
            if ks.take(idx as int).contains(*k) {
                let j = choose|j: int| 0 <= j < idx && ks.take(idx as int)[j] == *k;
                assert(ks[j] == ks[idx as int]);
            }
        }
        let ghost r0 = r@;
        if selects(filter, *k, *v) {
            proof { lemma_push_no_duplicates(r0, *k); }
            r.push(*k);
            assert(r@ == r0.push(*k));
        } else {
            assert(r@ == r0);
        }
        assert forall|x: (usize, usize)| #[trigger] r@.contains(x) <==> (ks.take(idx + 1).contains(x)
            && filter_selects(filter, x, conns@[x])) by {
            lemma_push_contains(r0, *k, x);
            lemma_push_contains(ks.take(idx as int), *k, x);
        }
    }
    assert(ks.take(ks.len() as int) =~= ks);
    assert(r@.to_set() =~= selected_keys(conns@, filter));
    r
}

/// Removes the connections stored under `keys`.
fn remove_connections(conns: &mut BTreeMap<(usize, usize), OutputId>, keys: &Vec<(usize, usize)>)
    ensures
        final(conns)@ == old(conns)@.remove_keys(keys@.to_set()),
{
    let ghost m0 = conns@;
    let mut i: usize = 0;
    assert(m0.remove_keys(keys@.take(0).to_set()) =~= m0);
    while i < keys.len()
        invariant
            i <= keys@.len(),
            m0 == old(conns)@,
            conns@ == m0.remove_keys(keys@.take(i as int).to_set()),
        decreases keys@.len() - i,
    {
        let ghost before = conns@;
        conns.remove(&keys[i]);
        assert(keys@.take(i + 1) =~= keys@.take(i as int).push(keys@[i as int]));
        proof {
            assert forall|x: (usize, usize)| #[trigger] keys@.take(i + 1).to_set().contains(x)
                <==> (keys@.take(i as int).to_set().contains(x) || x == keys@[i as int]) by {
                lemma_push_contains(keys@.take(i as int), keys@[i as int], x);
            }
        }
        assert(conns@ =~= m0.remove_keys(keys@.take(i + 1).to_set()));
        i = i + 1;
    }
    assert(keys@.take(keys@.len() as int) =~= keys@);
}

/// The input whose connection is stored under `key`.
pub open spec fn input_of_key(key: (usize, usize)) -> InputId {
    InputId(ModuleId(key.0), key.1)
}

/// The operations that delete the connections stored under `keys`, in order.
pub open spec fn delete_connection_ops<P>(keys: Seq<(usize, usize)>) -> Seq<WorkspaceOp<P>> {
    keys.map_values(|k: (usize, usize)| WorkspaceOp::<P>::DeleteConnection(input_of_key(k)))
}

fn delete_connection_ops_exec<P>(keys: &Vec<(usize, usize)>) -> (r: Vec<WorkspaceOp<P>>)
    ensures
        r@ == delete_connection_ops::<P>(keys@),
{
    let mut r: Vec<WorkspaceOp<P>> = Vec::new();
    let mut i: usize = 0;
    while i < keys.len()
        invariant
            i <= keys@.len(),
            r@ == delete_connection_ops::<P>(keys@.take(i as int)),
        decreases keys@.len() - i,
    {
        let k = keys[i];
        r.push(WorkspaceOp::DeleteConnection(InputId(ModuleId(k.0), k.1)));
        assert(delete_connection_ops::<P>(keys@.take(i + 1)) =~= delete_connection_ops::<P>(keys@.take(i as int)).push(
            WorkspaceOp::<P>::DeleteConnection(input_of_key(k)),
        ));
        i = i + 1;
    }
    assert(keys@.take(keys@.len() as int) =~= keys@);
    r
}


/// Whether a terminal is an input or an output.
#[derive(Clone, Copy, Debug, PartialEq, Eq, Structural)]
pub enum TerminalType {
    Input,
    Output,
}

impl TerminalType {
    /// The CSS class fragment of the terminal type.
    pub fn to_css_name(&self) -> (r: &'static str)
        ensures
            r@ == (match *self {
                TerminalType::Input => "input"@,
                TerminalType::Output => "output"@,
            }),
    {
        match self {
            TerminalType::Input => "input",
            TerminalType::Output => "output",
        }
    }
}

/// What the editor knows of a terminal it shows.
#[derive(Clone, Debug)]
pub struct TerminalRef {
    pub label: Option<String>,
    pub line_type: LineType,
    pub terminal_type: TerminalType,
}

/// A window being dragged, and the last mouse position seen.
#[derive(Clone, Copy, Debug, PartialEq, Eq, Structural)]
pub struct Drag {
    pub module: ModuleId,
    pub origin: Coords,
}

/// What the mouse is doing in the workspace.
#[derive(Clone, Debug)]
pub enum MouseMode {
    Normal,
    Drag(Drag),
    /// A connection being drawn from a terminal, with the mouse position
    /// once it has moved.
    Connect(TerminalId, TerminalRef, Option<Coords>),
    ContextMenu(Coords),
}

/// The bit of the mouse buttons field that stands for the right button.
pub const RIGHT_MOUSE_BUTTON: u16 = 2;

/// The events the editor takes, with the mouse positions the page reports.
pub enum WorkspaceMsg<Params> {
    Rerender,
    /// A window's title bar was pressed; the position is the page position.
    DragStart(ModuleId, Coords),
    /// The buttons held, and the position within the workspace.
    MouseDown { buttons: u16, offset: Coords },
    /// The page position.
    MouseUp { page: Coords },
    /// The page position; the offset of the element under the mouse within
    /// the workspace, if known; and the position within that element.
    MouseMove { page: Coords, target_offset: Option<Coords>, offset: Coords },
    SelectTerminal(TerminalId, TerminalRef),
    ClearTerminal(TerminalId),
    DeleteWindow(ModuleId),
    UpdateModuleParams(ModuleId, Params),
    CreateModule(Params, Coords),
}

/// What the editor decided: whether to re-render, the operations to send
/// in order, and the window moved and its new position, if any.
pub struct UpdateResult<Params> {
    pub render: bool,
    pub ops: Vec<WorkspaceOp<Params>>,
    pub moved: Option<(ModuleId, Coords)>,
}

/// The editor's own state: the counter that stacks windows, and the mouse.
pub struct WorkspaceUi {
    pub gen_z_index: Sequence,
    pub mouse: MouseMode,
}

/// The offset of the mouse since the drag last moved.
pub open spec fn drag_delta(drag: Drag, page: Coords) -> Coords {
    Coords { x: (page.x - drag.origin.x) as i32, y: (page.y - drag.origin.y) as i32 }
}

/// Whether a drag step to `page` stays within the coordinate type.
pub open spec fn drag_fits<P, I>(w: WorkspaceView<P, I>, drag: Drag, page: Coords) -> bool {
    &&& coords_sub_fits(page, drag.origin)
    &&& w.geometry.contains_key(drag.module.0) ==> coords_add_fits(w.geometry[drag.module.0].position, drag_delta(drag, page))
}

/// The workspace after the dragged window follows the mouse to `page`.
pub open spec fn dragged<P, I>(w: WorkspaceView<P, I>, drag: Drag, page: Coords) -> WorkspaceView<P, I> {
    if w.geometry.contains_key(drag.module.0) {
        let g = w.geometry[drag.module.0];
        let d = drag_delta(drag, page);
        WorkspaceView {
            geometry: w.geometry.insert(
                drag.module.0,
                WindowGeometry {
                    position: Coords { x: (g.position.x + d.x) as i32, y: (g.position.y + d.y) as i32 },
                    z_index: g.z_index,
                },
            ),
            ..w
        }
    } else {
        w
    }
}

/// Moves the dragged window by the mouse's movement since the last step.
fn drag_event<P, I>(state: &mut WorkspaceState<P, I>, drag: &mut Drag, page: Coords) -> (r: (bool, Option<(ModuleId, Coords)>))
    requires
        drag_fits(old(state)@, *old(drag), page),
    ensures
        final(state)@ == dragged(old(state)@, *old(drag), page),
        *final(drag) == (Drag { module: old(drag).module, origin: page }),
        r.0 == old(state)@.geometry.contains_key(old(drag).module.0),
        r.1 == (if r.0 {
            Some((old(drag).module, final(state)@.geometry[old(drag).module.0].position))
        } else {
            None
        }),
{
    let delta = page.sub(drag.origin);
    drag.origin = page;

    match state.geometry.get(&drag.module.0) {
        Some(geom) => {
            let mut geom = *geom;
            geom.position = geom.position.add(delta);
            state.geometry.insert(drag.module.0, geom);
            (true, Some((drag.module, geom.position)))
        },
        None => (false, None),
    }
}


/// Whether the editor can take `msg` without stopping: stacking counters and
/// coordinates must not overflow, a connection drag needs the element under
/// the mouse, and the kind check must accept the two parameter values.
pub open spec fn update_acceptable<P, I, F: Fn(&P, &P) -> bool>(
    ui: WorkspaceUi,
    w: WorkspaceView<P, I>,
    msg: WorkspaceMsg<P>,
    same_kind: F,
) -> bool {
    match msg {
        WorkspaceMsg::DragStart(m, _) => w.geometry.contains_key(m.0) ==> ui.gen_z_index@ < usize::MAX,
        WorkspaceMsg::MouseUp { page } => ui.mouse matches MouseMode::Drag(d) ==> drag_fits(w, d, page),
        WorkspaceMsg::MouseMove { page, target_offset, offset } => match ui.mouse {
            MouseMode::Drag(d) => drag_fits(w, d, page),
            MouseMode::Connect(..) => target_offset matches Some(t) && coords_add_fits(t, offset),
            _ => true,
        },
        WorkspaceMsg::UpdateModuleParams(m, p) => w.modules.contains_key(m.0) ==> call_requires(
            same_kind,
            (&w.modules[m.0], &p),
        ),
        WorkspaceMsg::CreateModule(..) => ui.gen_z_index@ < usize::MAX,
        _ => true,
    }
}

/// Whether a mouse buttons field holds the right button.
pub open spec fn right_button(buttons: u16) -> bool {
    (buttons & RIGHT_MOUSE_BUTTON) != 0
}

/// The connection a selected terminal completes with the one selected
/// before: one must be an input and the other an output.
pub open spec fn connection_between(a: TerminalId, b: TerminalId) -> Option<(InputId, OutputId)> {
    match (a, b) {
        (TerminalId::Input(i), TerminalId::Output(o)) => Some((i, o)),
        (TerminalId::Output(o), TerminalId::Input(i)) => Some((i, o)),
        _ => None,
    }
}

/// What the editor does with each event (the mouse state, the workspace,
/// the stacking counter, the render decision, the operations sent and the
/// window moved), given the state before and the state after.
pub open spec fn update_post<P: Clone, I, F: Fn(&P, &P) -> bool>(
    ui: WorkspaceUi,
    w: WorkspaceView<P, I>,
    msg: WorkspaceMsg<P>,
    same_kind: F,
    ui2: WorkspaceUi,
    w2: WorkspaceView<P, I>,
    r: UpdateResult<P>,
) -> bool {
    let unchanged = ui2.mouse == ui.mouse && ui2.gen_z_index@ == ui.gen_z_index@ && w2 == w;
    let quiet = !r.render && r.ops@.len() == 0 && r.moved is None;
    match msg {
        WorkspaceMsg::Rerender => unchanged && r.render && r.ops@.len() == 0 && r.moved is None,
        WorkspaceMsg::DragStart(m, page) => if w.geometry.contains_key(m.0) {
            &&& ui2.mouse == MouseMode::Drag(Drag { module: m, origin: page })
            &&& ui2.gen_z_index@ == ui.gen_z_index@ + 1
            &&& w2 == WorkspaceView {
                geometry: w.geometry.insert(
                    m.0,
                    WindowGeometry { position: w.geometry[m.0].position, z_index: ui2.gen_z_index@ as usize },
                ),
                ..w
            }
            &&& r.render && r.ops@.len() == 0 && r.moved is None
        } else {
            unchanged && quiet
        },
        WorkspaceMsg::MouseDown { buttons, offset } => {
            &&& ui2.gen_z_index@ == ui.gen_z_index@
            &&& w2 == w
            &&& r.ops@.len() == 0
            &&& r.moved is None
            &&& if right_button(buttons) {
                &&& r.render
                &&& ui2.mouse == match ui.mouse {
                    MouseMode::Connect(..) => MouseMode::Normal,
                    MouseMode::Normal | MouseMode::ContextMenu(_) => MouseMode::ContextMenu(offset),
                    MouseMode::Drag(d) => MouseMode::Drag(d),
                }
            } else {
                match ui.mouse {
                    MouseMode::Normal | MouseMode::Drag(_) => !r.render && ui2.mouse == ui.mouse,
                    _ => r.render && ui2.mouse == MouseMode::Normal,
                }
            }
        },
        WorkspaceMsg::MouseUp { page } => match ui.mouse {
            MouseMode::Drag(d) => {
                let w1 = dragged(w, d, page);
                &&& ui2.mouse == MouseMode::Normal
                &&& ui2.gen_z_index@ == ui.gen_z_index@
                &&& w2 == w1
                &&& r.render == w.geometry.contains_key(d.module.0)
                &&& r.ops@ == if w.geometry.contains_key(d.module.0) {
                    seq![WorkspaceOp::<P>::UpdateWindowGeometry(d.module, w1.geometry[d.module.0])]
                } else {
                    Seq::empty()
                }
                &&& r.moved == if w.geometry.contains_key(d.module.0) {
                    Some((d.module, w1.geometry[d.module.0].position))
                } else {
                    None
                }
            },
            _ => unchanged && quiet,
        },
        WorkspaceMsg::MouseMove { page, target_offset, offset } => match ui.mouse {
            MouseMode::Drag(d) => {
                let w1 = dragged(w, d, page);
                &&& ui2.mouse == MouseMode::Drag(Drag { module: d.module, origin: page })
                &&& ui2.gen_z_index@ == ui.gen_z_index@
                &&& w2 == w1
                &&& r.render == w.geometry.contains_key(d.module.0)
                &&& r.ops@.len() == 0
                &&& r.moved == if w.geometry.contains_key(d.module.0) {
                    Some((d.module, w1.geometry[d.module.0].position))
                } else {
                    None
                }
            },
            MouseMode::Connect(t, tr, _) => {
                let to = target_offset->Some_0;
                &&& ui2.mouse == MouseMode::Connect(
                    t,
                    tr,
                    Some(Coords { x: (to.x + offset.x) as i32, y: (to.y + offset.y) as i32 }),
                )
                &&& ui2.gen_z_index@ == ui.gen_z_index@
                &&& w2 == w
                &&& r.render && r.ops@.len() == 0 && r.moved is None
            },
            _ => unchanged && quiet,
        },
        WorkspaceMsg::SelectTerminal(t, tr) => match ui.mouse {
            MouseMode::Normal | MouseMode::ContextMenu(_) => {
                &&& ui2.mouse == MouseMode::Connect(t, tr, None)
                &&& ui2.gen_z_index@ == ui.gen_z_index@
                &&& w2 == w
                &&& quiet
            },
            MouseMode::Connect(other, other_ref, _) => match connection_between(t, other) {
                Some((i, o)) => if tr.line_type == other_ref.line_type {
                    &&& ui2.mouse == MouseMode::Normal
                    &&& ui2.gen_z_index@ == ui.gen_z_index@
                    &&& w2 == WorkspaceView { connections: w.connections.insert(input_key_spec(i), o), ..w }
                    &&& r.render
                    &&& r.ops@ == seq![WorkspaceOp::<P>::CreateConnection(i, o)]
                    &&& r.moved is None
                } else {
                    unchanged && quiet
                },
                None => unchanged && quiet,
            },
            MouseMode::Drag(_) => unchanged && quiet,
        },
        WorkspaceMsg::ClearTerminal(t) => {
            &&& ui2.mouse == ui.mouse
            &&& ui2.gen_z_index@ == ui.gen_z_index@
            &&& r.render
            &&& r.moved is None
            &&& match t {
                TerminalId::Input(i) => {
                    &&& w2 == WorkspaceView { connections: w.connections.remove(input_key_spec(i)), ..w }
                    &&& r.ops@ == seq![WorkspaceOp::<P>::DeleteConnection(i)]
                },
                TerminalId::Output(o) => {
                    let gone = selected_keys(w.connections, ConnectionFilter::FromOutput(o));
                    &&& w2 == WorkspaceView { connections: w.connections.remove_keys(gone), ..w }
                    &&& exists|keys: Seq<(usize, usize)>|
                        keys.to_set() == gone && keys.no_duplicates() && r.ops@ == delete_connection_ops::<P>(keys)
                },
            }
        },
        WorkspaceMsg::DeleteWindow(m) => {
            let gone = selected_keys(w.connections, ConnectionFilter::TouchingModule(m));
            &&& ui2.mouse == ui.mouse
            &&& ui2.gen_z_index@ == ui.gen_z_index@
            &&& w2 == WorkspaceView {
                modules: w.modules.remove(m.0),
                geometry: w.geometry.remove(m.0),
                connections: w.connections.remove_keys(gone),
                ..w
            }
            &&& r.render
            &&& r.ops@ == seq![WorkspaceOp::<P>::DeleteModule(m)]
            &&& r.moved is None
        },
        WorkspaceMsg::UpdateModuleParams(m, p) => if w.modules.contains_key(m.0) {
            &&& ui2.mouse == ui.mouse
            &&& ui2.gen_z_index@ == ui.gen_z_index@
            &&& r.moved is None
            &&& if r.render {
                &&& call_ensures(same_kind, (&w.modules[m.0], &p), true)
                &&& w2.modules.dom() == w.modules.dom()
                &&& cloned(p, w2.modules[m.0])
                &&& w2 == WorkspaceView { modules: w.modules.insert(m.0, w2.modules[m.0]), ..w }
                &&& r.ops@ == seq![WorkspaceOp::UpdateModuleParams(m, p)]
            } else {
                &&& call_ensures(same_kind, (&w.modules[m.0], &p), false)
                &&& w2 == w
                &&& r.ops@.len() == 0
            }
        } else {
            unchanged && quiet
        },
        WorkspaceMsg::CreateModule(p, coords) => {
            &&& ui2.mouse == MouseMode::Normal
            &&& ui2.gen_z_index@ == ui.gen_z_index@ + 1
            &&& w2 == w
            &&& r.render
            &&& r.moved is None
            &&& r.ops@ == seq![
                WorkspaceOp::CreateModule(p, WindowGeometry { position: coords, z_index: ui2.gen_z_index@ as usize }),
            ]
        },
    }
}

fn quiet_result<P>() -> (r: UpdateResult<P>)
    ensures
        !r.render,
        r.ops@.len() == 0,
        r.moved is None,
{
    UpdateResult { render: false, ops: Vec::new(), moved: None }
}

fn single_op<P>(render: bool, op: WorkspaceOp<P>) -> (r: UpdateResult<P>)
    ensures
        r.render == render,
        r.ops@ == seq![op],
        r.moved is None,
{
    let mut ops: Vec<WorkspaceOp<P>> = Vec::new();
    ops.push(op);
    UpdateResult { render, ops, moved: None }
}

impl WorkspaceUi {
    /// An editor with no window stacked yet and the mouse at rest.
    pub fn new() -> (r: Self)
        ensures
            r.gen_z_index@ == 0,
            r.mouse == MouseMode::Normal,
    {
        WorkspaceUi { gen_z_index: Sequence::new(), mouse: MouseMode::Normal }
    }

    /// Takes one event: updates the mouse state and the workspace, and says
    /// whether to re-render, which operations to send to the server, and
    /// which window moved. `same_kind` tells whether two parameter values
    /// belong to the same kind of module.
    pub fn update<P, I, F: Fn(&P, &P) -> bool>(
        &mut self,
        state: &mut WorkspaceState<P, I>,
        msg: WorkspaceMsg<P>,
        same_kind: F,
    ) -> (r: UpdateResult<P>)
        where P: Clone,
        requires
            update_acceptable(*old(self), old(state)@, msg, same_kind),
        ensures
            update_post(*old(self), old(state)@, msg, same_kind, *final(self), final(state)@, r),
    {
        match msg {
            WorkspaceMsg::Rerender => {
                UpdateResult { render: true, ops: Vec::new(), moved: None }
            },
            WorkspaceMsg::DragStart(module, page) => {
                match state.geometry.get(&module.0) {
                    Some(geom) => {
                        let mut geom = *geom;
                        self.mouse = MouseMode::Drag(Drag { module, origin: page });
                        geom.z_index = self.gen_z_index.next();
                        state.geometry.insert(module.0, geom);
                        UpdateResult { render: true, ops: Vec::new(), moved: None }
                    },
                    None => quiet_result(),
                }
            },
            WorkspaceMsg::MouseDown { buttons, offset } => {
                if (buttons & RIGHT_MOUSE_BUTTON) != 0 {
                    match self.mouse {
                        MouseMode::Connect(..) => {
                            self.mouse = MouseMode::Normal;
                        },
                        MouseMode::Normal | MouseMode::ContextMenu(_) => {
                            self.mouse = MouseMode::ContextMenu(offset);
                        },
                        MouseMode::Drag(_) => {},
                    }
                    UpdateResult { render: true, ops: Vec::new(), moved: None }
                } else {
                    match self.mouse {
                        MouseMode::Normal | MouseMode::Drag(_) => quiet_result(),
                        MouseMode::Connect(..) | MouseMode::ContextMenu(_) => {
                            self.mouse = MouseMode::Normal;
                            UpdateResult { render: true, ops: Vec::new(), moved: None }
                        },
                    }
                }
            },
            WorkspaceMsg::MouseUp { page } => {
                match self.mouse {
                    MouseMode::Drag(d) => {
                        let mut drag = d;
                        let (should_render, moved) = drag_event(state, &mut drag, page);
                        let mut ops: Vec<WorkspaceOp<P>> = Vec::new();
                        match state.geometry.get(&drag.module.0) {
                            Some(geometry) => {
                                ops.push(WorkspaceOp::UpdateWindowGeometry(drag.module, *geometry));
                            },
                            None => {},
                        }
                        self.mouse = MouseMode::Normal;
                        UpdateResult { render: should_render, ops, moved }
                    },
                    _ => quiet_result(),
                }
            },
            WorkspaceMsg::MouseMove { page, target_offset, offset } => {
                match &mut self.mouse {
                    MouseMode::Drag(drag) => {
                        let (render, moved) = drag_event(state, drag, page);
                        UpdateResult { render, ops: Vec::new(), moved }
                    },
                    MouseMode::Connect(_, _, coords) => {
                        let target_offset_coords = target_offset.expect("offset_coords_in");
                        *coords = Some(target_offset_coords.add(offset));
                        UpdateResult { render: true, ops: Vec::new(), moved: None }
                    },
                    _ => quiet_result(),
                }
            },
            WorkspaceMsg::SelectTerminal(terminal_id, terminal_ref) => {
                match &self.mouse {
                    MouseMode::Normal | MouseMode::ContextMenu(_) => {
                        self.mouse = MouseMode::Connect(terminal_id, terminal_ref, None);
                        quiet_result()
                    },
                    MouseMode::Connect(other_terminal_id, other_terminal_ref, _) => {
                        let pair = match (terminal_id, *other_terminal_id) {
                            (TerminalId::Input(input), TerminalId::Output(output)) => Some((input, output)),
                            (TerminalId::Output(output), TerminalId::Input(input)) => Some((input, output)),
                            _ => None,
                        };
                        match pair {
                            Some((input, output)) => {
                                if terminal_ref.line_type == other_terminal_ref.line_type {
                                    state.connections.insert(input_key(input), output);
                                    self.mouse = MouseMode::Normal;
                                    single_op(true, WorkspaceOp::CreateConnection(input, output))
                                } else {
                                    // type mismatch on connection, don't let the user connect it.
                                    quiet_result()
                                }
                            },
                            None => {
                                // invalid connection, don't let the user do it
                                quiet_result()
                            },
                        }
                    },
                    MouseMode::Drag(_) => quiet_result(),
                }
            },
            WorkspaceMsg::ClearTerminal(terminal) => {
                match terminal {
                    TerminalId::Input(input) => {
                        state.connections.remove(&input_key(input));
                        single_op(true, WorkspaceOp::DeleteConnection(input))
                    },
                    TerminalId::Output(output) => {
                        let keys = selected_connection_keys(&state.connections, ConnectionFilter::FromOutput(output));
                        let ops = delete_connection_ops_exec(&keys);
                        remove_connections(&mut state.connections, &keys);
                        UpdateResult { render: true, ops, moved: None }
                    },
                }
            },
            WorkspaceMsg::DeleteWindow(module) => {
                state.modules.remove(&module.0);
                state.geometry.remove(&module.0);
                let keys = selected_connection_keys(&state.connections, ConnectionFilter::TouchingModule(module));
                remove_connections(&mut state.connections, &keys);
                single_op(true, WorkspaceOp::DeleteModule(module))
            },
            WorkspaceMsg::UpdateModuleParams(module, params) => {
                let same = match state.modules.get(&module.0) {
                    Some(module_params) => Some(same_kind(module_params, &params)),
                    None => None,
                };
                match same {
                    Some(true) => {
                        // the module's params are replaced by params of the same kind
                        let ghost m0 = state.modules@;
                        state.modules.insert(module.0, params.clone());
                        assert(state.modules@.dom() =~= m0.dom());
                        single_op(true, WorkspaceOp::UpdateModuleParams(module, params))
                    },
                    _ => quiet_result(),
                }
            },
            WorkspaceMsg::CreateModule(module, coords) => {
                self.mouse = MouseMode::Normal;
                let geometry = WindowGeometry { position: coords, z_index: self.gen_z_index.next() };
                single_op(true, WorkspaceOp::CreateModule(module, geometry))
            },
        }
    }
}


/// After a sweep with `filter`, no remaining connection is selected by it.
pub proof fn lemma_sweep_leaves_none(conns: Map<(usize, usize), OutputId>, filter: ConnectionFilter)
    ensures
        forall|k: (usize, usize)| #[trigger] conns.remove_keys(selected_keys(conns, filter)).contains_key(k)
            ==> !filter_selects(filter, k, conns.remove_keys(selected_keys(conns, filter))[k]),
        forall|k: (usize, usize)| conns.contains_key(k) && !filter_selects(filter, k, conns[k])
            ==> #[trigger] conns.remove_keys(selected_keys(conns, filter)).contains_key(k)
                && conns.remove_keys(selected_keys(conns, filter))[k] == conns[k],
{
}

/// Once a window is deleted, no connection of the workspace touches its
/// module, and every other connection is kept.
pub proof fn lemma_delete_window_clears_connections<P: Clone, I, F: Fn(&P, &P) -> bool>(
    ui: WorkspaceUi,
    w: WorkspaceView<P, I>,
    m: ModuleId,
    same_kind: F,
    ui2: WorkspaceUi,
    w2: WorkspaceView<P, I>,
    r: UpdateResult<P>,
)
    requires
        update_post(ui, w, WorkspaceMsg::DeleteWindow(m), same_kind, ui2, w2, r),
    ensures
        forall|k: (usize, usize)| #[trigger] w2.connections.contains_key(k) ==> k.0 != m.0 && w2.connections[k].0 != m,
        !w2.modules.contains_key(m.0),
        !w2.geometry.contains_key(m.0),
{
    lemma_sweep_leaves_none(w.connections, ConnectionFilter::TouchingModule(m));
}

/// Once an output's terminal is cleared, no connection comes from it, and
/// every other connection is kept.
pub proof fn lemma_clear_output_clears_connections<P: Clone, I, F: Fn(&P, &P) -> bool>(
    ui: WorkspaceUi,
    w: WorkspaceView<P, I>,
    o: OutputId,
    same_kind: F,
    ui2: WorkspaceUi,
    w2: WorkspaceView<P, I>,
    r: UpdateResult<P>,
)
    requires
        update_post(ui, w, WorkspaceMsg::ClearTerminal(TerminalId::Output(o)), same_kind, ui2, w2, r),
    ensures
        forall|k: (usize, usize)| #[trigger] w2.connections.contains_key(k) ==> w2.connections[k] != o,
        forall|k: (usize, usize)| w.connections.contains_key(k) && w.connections[k] != o
            ==> #[trigger] w2.connections.contains_key(k) && w2.connections[k] == w.connections[k],
{
    lemma_sweep_leaves_none(w.connections, ConnectionFilter::FromOutput(o));
}

/// A dragged window follows the mouse: after two drag steps its position has
/// Whether `msg` stacks a window on top: a raise of a window that is there,
/// or the creation of a module.
pub open spec fn raises<P, I>(w: WorkspaceView<P, I>, msg: WorkspaceMsg<P>) -> bool {
    match msg {
        WorkspaceMsg::DragStart(m, _) => w.geometry.contains_key(m.0),
        WorkspaceMsg::CreateModule(..) => true,
        _ => false,
    }
}

/// The stacking index a raising message hands out: the raised window's new
/// one, or the one the created module is sent with.
pub open spec fn assigned_z_index<P, I>(msg: WorkspaceMsg<P>, w2: WorkspaceView<P, I>, r: UpdateResult<P>) -> int {
    match msg {
        WorkspaceMsg::DragStart(m, _) => w2.geometry[m.0].z_index as int,
        WorkspaceMsg::CreateModule(..) => match r.ops@[0] {
            WorkspaceOp::CreateModule(_, g) => g.z_index as int,
            _ => 0,
        },
        _ => 0,
    }
}

/// The number of raising messages among the first `k` of a run.
pub open spec fn raises_before<P, I>(ws: Seq<WorkspaceView<P, I>>, msgs: Seq<WorkspaceMsg<P>>, k: int) -> nat
    decreases k,
{
    if k <= 0 {
        0
    } else {
        raises_before(ws, msgs, k - 1) + if raises(ws[k - 1], msgs[k - 1]) { 1nat } else { 0nat }
    }
}

/// A run of the editor: the `i`-th message is taken in the editor state
/// `uis[i]` and workspace `ws[i]`, and leaves `uis[i + 1]`, `ws[i + 1]` and
/// the result `rs[i]`.
pub open spec fn editor_run<P: Clone, I, F: Fn(&P, &P) -> bool>(
    uis: Seq<WorkspaceUi>,
    ws: Seq<WorkspaceView<P, I>>,
    msgs: Seq<WorkspaceMsg<P>>,
    rs: Seq<UpdateResult<P>>,
    same_kind: F,
) -> bool {
    &&& uis.len() == msgs.len() + 1
    &&& ws.len() == msgs.len() + 1
    &&& rs.len() == msgs.len()
    &&& forall|i: int| #![trigger msgs[i]] 0 <= i < msgs.len()
        ==> editor_step(uis[i], ws[i], msgs[i], same_kind, uis[i + 1], ws[i + 1], rs[i])
}

/// One step of a run: what `update` does with one message.
#[verifier::opaque]
pub open spec fn editor_step<P: Clone, I, F: Fn(&P, &P) -> bool>(
    ui: WorkspaceUi,
    w: WorkspaceView<P, I>,
    msg: WorkspaceMsg<P>,
    same_kind: F,
    ui2: WorkspaceUi,
    w2: WorkspaceView<P, I>,
    r: UpdateResult<P>,
) -> bool {
    update_post(ui, w, msg, same_kind, ui2, w2, r)
}

proof fn lemma_step_counter<P: Clone, I, F: Fn(&P, &P) -> bool>(
    ui: WorkspaceUi,
    w: WorkspaceView<P, I>,
    msg: WorkspaceMsg<P>,
    same_kind: F,
    ui2: WorkspaceUi,
    w2: WorkspaceView<P, I>,
    r: UpdateResult<P>,
)
    requires
        editor_step(ui, w, msg, same_kind, ui2, w2, r),
    ensures
        ui2.gen_z_index@ == ui.gen_z_index@ + if raises(w, msg) { 1int } else { 0int },
        raises(w, msg) ==> assigned_z_index(msg, w2, r) == ui2.gen_z_index@,
{
    reveal(editor_step);
    lemma_sequence_fits(ui2.gen_z_index);
    match msg {
        WorkspaceMsg::CreateModule(..) => {
            assert(r.ops@.len() == 1);
        },
        _ => {},
    }
}

/// Windows stack in the order they are raised or created: over a run of a
/// fresh editor, the raises and creations hand out the stacking indices 1,
/// 2, 3, ... in message order, so the window raised or created last has the
/// largest index handed out.
pub proof fn lemma_stacking_counts_up<P: Clone, I, F: Fn(&P, &P) -> bool>(
    uis: Seq<WorkspaceUi>,
    ws: Seq<WorkspaceView<P, I>>,
    msgs: Seq<WorkspaceMsg<P>>,
    rs: Seq<UpdateResult<P>>,
    same_kind: F,
)
    requires
        editor_run(uis, ws, msgs, rs, same_kind),
        uis[0].gen_z_index@ == 0,
    ensures
        forall|i: int| 0 <= i <= msgs.len() ==> #[trigger] uis[i].gen_z_index@ == raises_before(ws, msgs, i),
        forall|i: int| 0 <= i < msgs.len() && #[trigger] raises(ws[i], msgs[i])
            ==> assigned_z_index(msgs[i], ws[i + 1], rs[i]) == raises_before(ws, msgs, i + 1),
    decreases msgs.len(),
{
    if msgs.len() > 0 {
        let n = msgs.len() - 1;
        let uis0 = uis.drop_last();
        let ws0 = ws.drop_last();
        let msgs0 = msgs.drop_last();
        let rs0 = rs.drop_last();
        assert forall|i: int| #![trigger msgs0[i]] 0 <= i < msgs0.len()
            implies editor_step(uis0[i], ws0[i], msgs0[i], same_kind, uis0[i + 1], ws0[i + 1], rs0[i]) by {
            assert(msgs0[i] == msgs[i]);
        }
        lemma_stacking_counts_up(uis0, ws0, msgs0, rs0, same_kind);
        assert forall|k: int| 0 <= k <= n implies raises_before(ws0, msgs0, k) == raises_before(ws, msgs, k) by {
            lemma_raises_before_prefix(ws, msgs, k);
        }
        assert(msgs[n] == msgs[n]);
        lemma_step_counter(uis[n], ws[n], msgs[n], same_kind, uis[n + 1], ws[n + 1], rs[n]);
        assert(uis0[n] == uis[n]);
        assert(uis[n].gen_z_index@ == raises_before(ws, msgs, n));
        assert(uis[n + 1].gen_z_index@ == raises_before(ws, msgs, n + 1));
        assert forall|i: int| 0 <= i <= msgs.len() implies #[trigger] uis[i].gen_z_index@ == raises_before(ws, msgs, i) by {
            if i <= n {
                assert(uis0[i] == uis[i]);
            }
        }
        assert forall|i: int| 0 <= i < msgs.len() && #[trigger] raises(ws[i], msgs[i])
            implies assigned_z_index(msgs[i], ws[i + 1], rs[i]) == raises_before(ws, msgs, i + 1) by {
            if i < n {
                assert(msgs0[i] == msgs[i] && ws0[i] == ws[i] && ws0[i + 1] == ws[i + 1] && rs0[i] == rs[i]);
                assert(raises(ws0[i], msgs0[i]));
            }
        }
    }
}

proof fn lemma_raises_before_prefix<P, I>(ws: Seq<WorkspaceView<P, I>>, msgs: Seq<WorkspaceMsg<P>>, k: int)
    requires
        msgs.len() > 0,
        ws.len() == msgs.len() + 1,
        0 <= k < msgs.len(),
    ensures
        raises_before(ws.drop_last(), msgs.drop_last(), k) == raises_before(ws, msgs, k),
    decreases k,
{
    if k > 0 {
        lemma_raises_before_prefix(ws, msgs, k - 1);
    }
}

/// moved by exactly the mouse's total movement since the drag's origin.
pub proof fn lemma_drag_follows_mouse<P, I>(w: WorkspaceView<P, I>, d: Drag, p1: Coords, p2: Coords)
    requires
        w.geometry.contains_key(d.module.0),
        drag_fits(w, d, p1),
        drag_fits(dragged(w, d, p1), Drag { module: d.module, origin: p1 }, p2),
    ensures
        dragged(dragged(w, d, p1), Drag { module: d.module, origin: p1 }, p2).geometry[d.module.0].position
            == (Coords {
                x: (w.geometry[d.module.0].position.x + (p2.x - d.origin.x)) as i32,
                y: (w.geometry[d.module.0].position.y + (p2.y - d.origin.y)) as i32,
            }),
        dragged(dragged(w, d, p1), Drag { module: d.module, origin: p1 }, p2).geometry[d.module.0].z_index
            == w.geometry[d.module.0].z_index,
{
}

/// A connection can be drawn in either direction: while a connection is being
/// drawn from one terminal, selecting a terminal of the other direction with
/// the same kind of signal connects the input to the output, whichever of the
/// two was selected first; selecting a terminal of the same direction, or one
/// of another kind of signal, connects nothing.
pub proof fn lemma_connect_either_direction<P: Clone, I, F: Fn(&P, &P) -> bool>(
    ui: WorkspaceUi,
    w: WorkspaceView<P, I>,
    first: TerminalId,
    first_ref: TerminalRef,
    coords: Option<Coords>,
    second: TerminalId,
    second_ref: TerminalRef,
    same_kind: F,
    ui2: WorkspaceUi,
    w2: WorkspaceView<P, I>,
    r: UpdateResult<P>,
)
    requires
        ui.mouse == MouseMode::Connect(first, first_ref, coords),
        update_post(ui, w, WorkspaceMsg::SelectTerminal(second, second_ref), same_kind, ui2, w2, r),
    ensures
        ({
            let same_signal = first_ref.line_type == second_ref.line_type;
            &&& forall|i: InputId, o: OutputId|
                ((first == TerminalId::Input(i) && second == TerminalId::Output(o))
                    || (first == TerminalId::Output(o) && second == TerminalId::Input(i))) && same_signal
                ==> {
                    &&& r.render
                    &&& r.ops@ == seq![WorkspaceOp::<P>::CreateConnection(i, o)]
                    &&& w2.connections == w.connections.insert((i.0.0, i.1), o)
                    &&& ui2.mouse == MouseMode::Normal
                }
            &&& ((first is Input && second is Input) || (first is Output && second is Output) || !same_signal)
                ==> !r.render && r.ops@.len() == 0 && w2 == w && ui2.mouse == ui.mouse
        }),
{
}

/// Every connection the editor creates joins an input and an output whose
/// terminals carry the same kind of signal.
pub proof fn lemma_connections_match_line_type<P: Clone, I, F: Fn(&P, &P) -> bool>(
    ui: WorkspaceUi,
    w: WorkspaceView<P, I>,
    t: TerminalId,
    tr: TerminalRef,
    same_kind: F,
    ui2: WorkspaceUi,
    w2: WorkspaceView<P, I>,
    r: UpdateResult<P>,
)
    requires
        update_post(ui, w, WorkspaceMsg::SelectTerminal(t, tr), same_kind, ui2, w2, r),
        r.ops@.len() > 0,
    ensures
        ui.mouse is Connect,
        ui.mouse->Connect_1.line_type == tr.line_type,
        connection_between(t, ui.mouse->Connect_0) is Some,
        ({
            let (i, o) = connection_between(t, ui.mouse->Connect_0)->Some_0;
            &&& r.ops@ == seq![WorkspaceOp::<P>::CreateConnection(i, o)]
            &&& w2.connections == w.connections.insert(input_key_spec(i), o)
        }),
{
}


/// Division by two that rounds towards zero, as integer division does.
pub open spec fn half_toward_zero(a: int) -> int {
    if a >= 0 { a / 2 } else { -((-a) / 2) }
}

/// The horizontal length of the straight pieces at either end of a line.
pub const END_SEGMENT_LENGTH: i32 = 16;

/// The points of the line drawn for a connection from `start` to `end`: a
/// short horizontal piece out of `start`, a bend at the middle (vertical
/// when the ends are far enough apart horizontally, horizontal otherwise),
/// and a short horizontal piece into `end`.
pub open spec fn line_points_spec(start: Coords, end: Coords) -> Seq<Coords> {
    let es = Coords { x: (start.x + END_SEGMENT_LENGTH) as i32, y: start.y };
    let ee = Coords { x: (end.x - END_SEGMENT_LENGTH) as i32, y: end.y };
    let middle = if es.x <= ee.x {
        let xm = half_toward_zero(es.x + ee.x) as i32;
        seq![Coords { x: xm, y: es.y }, Coords { x: xm, y: ee.y }]
    } else {
        let ym = half_toward_zero(es.y + ee.y) as i32;
        seq![Coords { x: es.x, y: ym }, Coords { x: ee.x, y: ym }]
    };
    seq![start, es] + middle + seq![ee, end]
}

/// Whether the points of a connection's line stay within the coordinate type.
pub open spec fn line_fits(start: Coords, end: Coords) -> bool {
    &&& start.x + END_SEGMENT_LENGTH <= i32::MAX
    &&& end.x - END_SEGMENT_LENGTH >= i32::MIN
    &&& i32::MIN <= (start.x + END_SEGMENT_LENGTH) + (end.x - END_SEGMENT_LENGTH) <= i32::MAX
    &&& i32::MIN <= start.y + end.y <= i32::MAX
}

/// The points of the line drawn for a connection from `start` to `end`.
pub fn plan_line_points(start: Coords, end: Coords) -> (r: Vec<Coords>)
    requires
        line_fits(start, end),
    ensures
        r@ == line_points_spec(start, end),
{
    let mut segments: Vec<Coords> = Vec::new();

    let end_segment_size = Coords { x: END_SEGMENT_LENGTH, y: 0 };
    let effective_start = start.add(end_segment_size);
    let effective_end = end.sub(end_segment_size);

    segments.push(start);
    segments.push(effective_start);

    if effective_start.x <= effective_end.x {
        // line is mostly horizontal:
        let x_midpoint = (effective_start.x + effective_end.x) / 2;

        segments.push(Coords { x: x_midpoint, y: effective_start.y });
        segments.push(Coords { x: x_midpoint, y: effective_end.y });
    } else {
        // line is mostly vertical:
        let y_midpoint = (effective_start.y + effective_end.y) / 2;

        segments.push(Coords { x: effective_start.x, y: y_midpoint });
        segments.push(Coords { x: effective_end.x, y: y_midpoint });
    }

    segments.push(effective_end);
    segments.push(end);

    assert(segments@ =~= line_points_spec(start, end));
    segments
}

/// A connection's line starts at its output, ends at its input, and each of
/// its pieces is horizontal or vertical.
pub proof fn lemma_line_points_axis_aligned(start: Coords, end: Coords)
    requires
        line_fits(start, end),
    ensures
        line_points_spec(start, end).len() == 6,
        line_points_spec(start, end)[0] == start,
        line_points_spec(start, end)[5] == end,
        forall|i: int| 0 <= i < 5 ==> {
            let p = #[trigger] line_points_spec(start, end)[i];
            let q = line_points_spec(start, end)[i + 1];
            p.x == q.x || p.y == q.y
        },
{
    let pts = line_points_spec(start, end);
    assert(pts.len() == 6);
    assert forall|i: int| 0 <= i < 5 implies {
        let p = #[trigger] pts[i];
        let q = pts[i + 1];
        p.x == q.x || p.y == q.y
    } by {
        if i == 0 || i == 4 {
        } else if i == 1 || i == 2 || i == 3 {
        }
    }
}


/// The editor's reference to a terminal, made from the terminal's
/// description.
pub open spec fn terminal_ref_of(t: Terminal, terminal_type: TerminalType, r: TerminalRef) -> bool {
    &&& r.line_type == t.1
    &&& r.terminal_type == terminal_type
    &&& match (r.label, t.0) {
        (Some(a), Some(b)) => a@ == b@,
        (None, None) => true,
        _ => false,
    }
}

/// The editor's references to a module's terminals, in order.
pub fn make_terminal_refs(terminals: &Vec<Terminal>, terminal_type: TerminalType) -> (r: Vec<TerminalRef>)
    ensures
        r@.len() == terminals@.len(),
        forall|i: int| 0 <= i < r@.len() ==> terminal_ref_of(terminals@[i], terminal_type, #[trigger] r@[i]),
{
    let mut refs: Vec<TerminalRef> = Vec::new();
    let mut i: usize = 0;
    while i < terminals.len()
        invariant
            i <= terminals@.len(),
            refs@.len() == i,
            forall|k: int| 0 <= k < i ==> terminal_ref_of(terminals@[k], terminal_type, #[trigger] refs@[k]),
        decreases terminals@.len() - i,
    {
        let terminal = &terminals[i];
        let label = match terminal.label() {
            Some(l) => Some(l.to_owned()),
            None => None,
        };
        refs.push(TerminalRef { label, line_type: terminal.line_type(), terminal_type });
        i = i + 1;
    }
    refs
}

/// What a press on a terminal asks of the editor: the right button clears
/// the terminal's connections, any other starts or completes a connection.
pub fn terminal_mouse_down<P>(buttons: u16, terminal_id: TerminalId, terminal_ref: TerminalRef) -> (r: WorkspaceMsg<P>)
    ensures
        right_button(buttons) ==> r == WorkspaceMsg::<P>::ClearTerminal(terminal_id),
        !right_button(buttons) ==> r == WorkspaceMsg::<P>::SelectTerminal(terminal_id, terminal_ref),
{
    if (buttons & RIGHT_MOUSE_BUTTON) != 0 {
        // right click
        WorkspaceMsg::ClearTerminal(terminal_id)
    } else {
        WorkspaceMsg::SelectTerminal(terminal_id, terminal_ref)
    }
}

/// The distance from a terminal element's corner to its centre.
pub const TERMINAL_CENTRE_OFFSET: i32 = 9;

/// Where a connection meets a terminal on the workspace: the centre of the
/// terminal element, whose corner is at `node_left`, `node_top` within a
/// window at `position`.
pub fn terminal_screen_coords(position: Coords, node_left: i32, node_top: i32) -> (r: Coords)
    requires
        node_left + TERMINAL_CENTRE_OFFSET <= i32::MAX,
        node_top + TERMINAL_CENTRE_OFFSET <= i32::MAX,
        coords_add_fits(position, Coords { x: (node_left + TERMINAL_CENTRE_OFFSET) as i32, y: (node_top + TERMINAL_CENTRE_OFFSET) as i32 }),
    ensures
        r.x == position.x + node_left + TERMINAL_CENTRE_OFFSET,
        r.y == position.y + node_top + TERMINAL_CENTRE_OFFSET,
{
    let terminal_coords = Coords { x: node_left + TERMINAL_CENTRE_OFFSET, y: node_top + TERMINAL_CENTRE_OFFSET };
    position.add(terminal_coords)
}

/// The largest coordinates among `points`, and 0 when there are none larger.
pub open spec fn points_extent(points: Seq<Coords>) -> (int, int)
    decreases points.len(),
{
    if points.len() == 0 {
        (0, 0)
    } else {
        let (x, y) = points_extent(points.drop_last());
        let p = points.last();
        (if p.x > x { p.x as int } else { x }, if p.y > y { p.y as int } else { y })
    }
}

/// The points of every line, in order.
pub open spec fn all_points(lines: Seq<Vec<Coords>>) -> Seq<Coords>
    decreases lines.len(),
{
    if lines.len() == 0 {
        Seq::empty()
    } else {
        all_points(lines.drop_last()) + lines.last()@
    }
}

/// The size the connection canvas needs: the largest coordinates of every
/// point of every line, and 0 when there are none larger.
pub fn lines_extent(lines: &Vec<Vec<Coords>>) -> (r: Coords)
    ensures
        r.x == points_extent(all_points(lines@)).0,
        r.y == points_extent(all_points(lines@)).1,
{
    let mut area = Coords { x: 0, y: 0 };
    let mut i: usize = 0;
    while i < lines.len()
        invariant
            i <= lines@.len(),
            area.x == points_extent(all_points(lines@.take(i as int))).0,
            area.y == points_extent(all_points(lines@.take(i as int))).1,
        decreases lines@.len() - i,
    {
        let line = &lines[i];
        let ghost before = all_points(lines@.take(i as int));
        let mut j: usize = 0;
        while j < line.len()
            invariant
                i < lines@.len(),
                *line == lines@[i as int],
                j <= line@.len(),
                area.x == points_extent(before + line@.take(j as int)).0,
                area.y == points_extent(before + line@.take(j as int)).1,
            decreases line@.len() - j,
        {
            let point = line[j];
            assert((before + line@.take(j + 1)).drop_last() =~= before + line@.take(j as int));
            assert((before + line@.take(j + 1)).last() == point);
            if point.x > area.x {
                area.x = point.x;
            }
            if point.y > area.y {
                area.y = point.y;
            }
            j = j + 1;
        }
        assert(line@.take(line@.len() as int) =~= line@);
        assert(lines@.take(i + 1).drop_last() =~= lines@.take(i as int));
        assert(all_points(lines@.take(i + 1)) == before + line@);
        i = i + 1;
    }
    assert(lines@.take(lines@.len() as int) =~= lines@);
    area
}


/// The modules whose windows need references made: those of the workspace
/// that have none yet and whose terminals are known.
pub open spec fn windows_to_create<P, I>(w: WorkspaceView<P, I>, existing: Seq<usize>) -> Set<usize> {
    Set::new(|k: usize| w.modules.contains_key(k) && !existing.contains(k) && w.inputs.contains_key(k) && w.outputs.contains_key(k))
}

/// The window references to drop: those of modules no longer in the workspace.
pub open spec fn windows_to_delete<P, I>(w: WorkspaceView<P, I>, existing: Seq<usize>) -> Set<usize> {
    Set::new(|k: usize| existing.contains(k) && !w.modules.contains_key(k))
}

fn vec_contains(v: &Vec<usize>, x: usize) -> (r: bool)
    ensures
        r == v@.contains(x),
{
    let mut i: usize = 0;
    while i < v.len()
        invariant
            i <= v@.len(),
            forall|k: int| 0 <= k < i ==> v@[k] != x,
        decreases v@.len() - i,
    {
        if v[i] == x {
            assert(v@[i as int] == x);
            return true;
        }
        i = i + 1;
    }
    false
}

/// Which modules' windows need references made and which
/// windows' references to drop, when the workspace changed. `existing` are
/// the modules whose windows have references.
pub fn window_ref_changes<P, I>(state: &WorkspaceState<P, I>, existing: &Vec<usize>) -> (r: (Vec<usize>, Vec<usize>))
    ensures
        r.0@.to_set() == windows_to_create(state@, existing@),
        r.0@.no_duplicates(),
        r.1@.to_set() == windows_to_delete(state@, existing@),
{
    let mut create: Vec<usize> = Vec::new();
    let ghost ks = state.modules.keys().remaining().unref();
    assert(ks.to_set() == state.modules@.dom());
    assert(ks.no_duplicates());
    for id in it: state.modules.keys()
        invariant
            ks == it.seq().unref(),
            ks.no_duplicates(),
            ks.to_set() == state.modules@.dom(),
            forall|x: usize| #[trigger] create@.contains(x) <==> (ks.take(it.index() as int).contains(x)
                && !existing@.contains(x) && state.inputs@.contains_key(x) && state.outputs@.contains_key(x)),
            create@.no_duplicates(),
    {
        let ghost idx = it.index();
        assert(*id == ks[idx as int]);
        assert(ks.take(idx + 1) =~= ks.take(idx as int).push(*id));
        assert(!ks.take(idx as int).contains(*id)) by {
            if ks.take(idx as int).contains(*id) {
                let j = choose|j: int| 0 <= j < idx && ks.take(idx as int)[j] == *id;
                assert(ks[j] == ks[idx as int]);
            }
        }
        let ghost c0 = create@;
        if !vec_contains(existing, *id) && state.inputs.contains_key(id) && state.outputs.contains_key(id) {
            proof { lemma_push_no_duplicates(c0, *id); }
            create.push(*id);
            assert(create@ == c0.push(*id));
        } else {
            assert(create@ == c0);
        }
        assert forall|x: usize| #[trigger] create@.contains(x) <==> (ks.take(idx + 1).contains(x)
            && !existing@.contains(x) && state.inputs@.contains_key(x) && state.outputs@.contains_key(x)) by {
            lemma_push_contains(c0, *id, x);
            lemma_push_contains(ks.take(idx as int), *id, x);
        }
    }
    assert(ks.take(ks.len() as int) =~= ks);
    assert(create@.to_set() =~= windows_to_create(state@, existing@));

    let mut delete: Vec<usize> = Vec::new();
    let mut i: usize = 0;
    while i < existing.len()
        invariant
            i <= existing@.len(),
            forall|x: usize| #[trigger] delete@.contains(x) <==> (existing@.take(i as int).contains(x)
                && !state.modules@.contains_key(x)),
        decreases existing@.len() - i,
    {
        let id = existing[i];
        let ghost d0 = delete@;
        assert(existing@.take(i + 1) =~= existing@.take(i as int).push(id));
        if !state.modules.contains_key(&id) {
            delete.push(id);
            assert(delete@ == d0.push(id));
        } else {
            assert(delete@ == d0);
        }
        assert forall|x: usize| #[trigger] delete@.contains(x) <==> (existing@.take(i + 1).contains(x)
            && !state.modules@.contains_key(x)) by {
            lemma_push_contains(d0, id, x);
            lemma_push_contains(existing@.take(i as int), id, x);
        }
        i = i + 1;
    }
    assert(existing@.take(existing@.len() as int) =~= existing@);
    assert(delete@.to_set() =~= windows_to_delete(state@, existing@));
    (create, delete)
}

} // verus!
