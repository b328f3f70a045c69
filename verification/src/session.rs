//! The client's copy of the workspace and its session bookkeeping: which of
//! its own operations the server has acknowledged, and how server messages
//! change the local state.
use vstd::prelude::*;
use std::collections::BTreeMap;
use std::collections::HashMap;

use crate::protocol::ClientMessage;
use crate::protocol::ClientSequence;
use crate::protocol::InputId;
use crate::protocol::MediaLibrary;
use crate::protocol::OutputId;
use crate::protocol::PerformanceInfo;
use crate::protocol::ServerMessage;
use crate::protocol::ServerUpdate;
use crate::protocol::Terminal;
use crate::protocol::WindowGeometry;
use crate::protocol::WorkspaceMessage;
use crate::protocol::WorkspaceOp;
use crate::protocol::ModuleId;
use crate::protocol::WorkspaceState as WireWorkspaceState;
use crate::util::Sequence;

verus! {

/// The key under which a connection is stored: the input's module and index.
pub open spec fn input_key_spec(input: InputId) -> (usize, usize) {
    (input.0.0, input.1)
}

/// The key under which a connection is stored: the input's module and index.
pub fn input_key(input: InputId) -> (r: (usize, usize))
    ensures
        r == input_key_spec(input),
{
    (input.0.0, input.1)
}

/// The client's copy of the workspace. Modules are keyed by their id's
/// number, connections by their input's module number and index.
#[derive(Debug, Clone)]
pub struct WorkspaceState<Params, Indication> {
    pub modules: BTreeMap<usize, Params>,
    pub geometry: HashMap<usize, WindowGeometry>,
    pub connections: BTreeMap<(usize, usize), OutputId>,
    pub indications: HashMap<usize, Indication>,
    pub inputs: HashMap<usize, Vec<Terminal>>,
    pub outputs: HashMap<usize, Vec<Terminal>>,
}

/// The workspace as maps.
pub struct WorkspaceView<Params, Indication> {
    pub modules: Map<usize, Params>,
    pub geometry: Map<usize, WindowGeometry>,
    pub connections: Map<(usize, usize), OutputId>,
    pub indications: Map<usize, Indication>,
    pub inputs: Map<usize, Vec<Terminal>>,
    pub outputs: Map<usize, Vec<Terminal>>,
}

impl<Params, Indication> View for WorkspaceState<Params, Indication> {
    type V = WorkspaceView<Params, Indication>;

    open spec fn view(&self) -> WorkspaceView<Params, Indication> {
        WorkspaceView {
            modules: self.modules@,
            geometry: self.geometry@,
            connections: self.connections@,
            indications: self.indications@,
            inputs: self.inputs@,
            outputs: self.outputs@,
        }
    }
}

/// The workspace after a server update: a created module appears in every
/// per-module map; an update of a module that is not there changes nothing;
/// a deleted module leaves every per-module map (its connections stay until
/// the server deletes them); connections are set and removed by input.
pub open spec fn apply_update_spec<P, I>(w: WorkspaceView<P, I>, u: ServerUpdate<P, I>) -> WorkspaceView<P, I> {
    match u {
        ServerUpdate::CreateModule { id, params, geometry, indication, inputs, outputs } => WorkspaceView {
            modules: w.modules.insert(id.0, params),
            geometry: w.geometry.insert(id.0, geometry),
            connections: w.connections,
            indications: w.indications.insert(id.0, indication),
            inputs: w.inputs.insert(id.0, inputs),
            outputs: w.outputs.insert(id.0, outputs),
        },
        ServerUpdate::UpdateModuleParams(id, params) => WorkspaceView {
            modules: if w.modules.contains_key(id.0) { w.modules.insert(id.0, params) } else { w.modules },
            ..w
        },
        ServerUpdate::UpdateWindowGeometry(id, geometry) => WorkspaceView {
            geometry: if w.geometry.contains_key(id.0) { w.geometry.insert(id.0, geometry) } else { w.geometry },
            ..w
        },
        ServerUpdate::UpdateModuleIndication(id, indication) => WorkspaceView {
            indications: if w.indications.contains_key(id.0) {
                w.indications.insert(id.0, indication)
            } else {
                w.indications
            },
            ..w
        },
        ServerUpdate::DeleteModule(id) => WorkspaceView {
            modules: w.modules.remove(id.0),
            geometry: w.geometry.remove(id.0),
            connections: w.connections,
            indications: w.indications.remove(id.0),
            inputs: w.inputs.remove(id.0),
            outputs: w.outputs.remove(id.0),
        },
        ServerUpdate::CreateConnection(input, output) => WorkspaceView {
            connections: w.connections.insert(input_key_spec(input), output),
            ..w
        },
        ServerUpdate::DeleteConnection(input) => WorkspaceView {
            connections: w.connections.remove(input_key_spec(input)),
            ..w
        },
    }
}

impl<Params, Indication> WorkspaceState<Params, Indication> {
    /// Applies one update announced by the server.
    pub fn apply_update(&mut self, update: ServerUpdate<Params, Indication>)
        ensures
            final(self)@ == apply_update_spec(old(self)@, update),
    {
        let ghost u = update;
        match update {
            ServerUpdate::CreateModule { id, params, geometry, indication, inputs, outputs } => {
                self.modules.insert(id.0, params);
                self.geometry.insert(id.0, geometry);
                self.indications.insert(id.0, indication);
                self.inputs.insert(id.0, inputs);
                self.outputs.insert(id.0, outputs);
            },
            ServerUpdate::UpdateModuleParams(id, new_params) => {
                if self.modules.contains_key(&id.0) {
                    self.modules.insert(id.0, new_params);
                }
            },
            ServerUpdate::UpdateWindowGeometry(id, new_geometry) => {
                if self.geometry.contains_key(&id.0) {
                    self.geometry.insert(id.0, new_geometry);
                }
            },
            ServerUpdate::UpdateModuleIndication(id, new_indication) => {
                if self.indications.contains_key(&id.0) {
                    self.indications.insert(id.0, new_indication);
                }
            },
            ServerUpdate::DeleteModule(id) => {
                self.modules.remove(&id.0);
                self.geometry.remove(&id.0);
                self.indications.remove(&id.0);
                self.inputs.remove(&id.0);
                self.outputs.remove(&id.0);
            },
            ServerUpdate::CreateConnection(input, output) => {
                self.connections.insert(input_key(input), output);
            },
            ServerUpdate::DeleteConnection(input) => {
                self.connections.remove(&input_key(input));
            },
        }
    }
}


/// The map built from key-value pairs, later pairs overriding earlier ones.
pub open spec fn pairs_map<V>(s: Seq<(ModuleId, V)>) -> Map<usize, V>
    decreases s.len(),
{
    if s.len() == 0 {
        Map::empty()
    } else {
        pairs_map(s.drop_last()).insert(s.last().0.0, s.last().1)
    }
}

/// The connection map built from pairs, later pairs overriding earlier ones.
pub open spec fn connections_map(s: Seq<(InputId, OutputId)>) -> Map<(usize, usize), OutputId>
    decreases s.len(),
{
    if s.len() == 0 {
        Map::empty()
    } else {
        connections_map(s.drop_last()).insert(input_key_spec(s.last().0), s.last().1)
    }
}

fn hash_map_from_pairs<V>(pairs: Vec<(ModuleId, V)>) -> (r: HashMap<usize, V>)
    ensures
        r@ == pairs_map(pairs@),
{
    let ghost orig = pairs@;
    let mut pairs = pairs;
    let mut m: HashMap<usize, V> = HashMap::new();
    assert(pairs_map(orig).union_prefer_right(m@) =~= pairs_map(orig));
    while pairs.len() > 0
        invariant
            pairs_map(orig) == pairs_map(pairs@).union_prefer_right(m@),
        decreases pairs@.len(),
    {
        let ghost before = pairs@;
        let ghost m0 = m@;
        let (k, v) = pairs.pop().unwrap();
        assert(pairs@ =~= before.drop_last());
        if !m.contains_key(&k.0) {
            m.insert(k.0, v);
        }
        assert(pairs_map(before) == pairs_map(pairs@).insert(k.0, v));
        assert(pairs_map(pairs@).insert(k.0, v).union_prefer_right(m0) =~= pairs_map(pairs@).union_prefer_right(m@));
    }
    assert(pairs_map(pairs@).union_prefer_right(m@) =~= m@);
    m
}

fn btree_map_from_pairs<V>(pairs: Vec<(ModuleId, V)>) -> (r: BTreeMap<usize, V>)
    ensures
        r@ == pairs_map(pairs@),
{
    let ghost orig = pairs@;
    let mut pairs = pairs;
    let mut m: BTreeMap<usize, V> = BTreeMap::new();
    assert(pairs_map(orig).union_prefer_right(m@) =~= pairs_map(orig));
    while pairs.len() > 0
        invariant
            pairs_map(orig) == pairs_map(pairs@).union_prefer_right(m@),
        decreases pairs@.len(),
    {
        let ghost before = pairs@;
        let ghost m0 = m@;
        let (k, v) = pairs.pop().unwrap();
        assert(pairs@ =~= before.drop_last());
        if !m.contains_key(&k.0) {
            m.insert(k.0, v);
        }
        assert(pairs_map(before) == pairs_map(pairs@).insert(k.0, v));
        assert(pairs_map(pairs@).insert(k.0, v).union_prefer_right(m0) =~= pairs_map(pairs@).union_prefer_right(m@));
    }
    assert(pairs_map(pairs@).union_prefer_right(m@) =~= m@);
    m
}

fn connections_from_pairs(pairs: Vec<(InputId, OutputId)>) -> (r: BTreeMap<(usize, usize), OutputId>)
    ensures
        r@ == connections_map(pairs@),
{
    let ghost orig = pairs@;
    let mut pairs = pairs;
    let mut m: BTreeMap<(usize, usize), OutputId> = BTreeMap::new();
    assert(connections_map(orig).union_prefer_right(m@) =~= connections_map(orig));
    while pairs.len() > 0
        invariant
            connections_map(orig) == connections_map(pairs@).union_prefer_right(m@),
        decreases pairs@.len(),
    {
        let ghost before = pairs@;
        let ghost m0 = m@;
        let (k, v) = pairs.pop().unwrap();
        assert(pairs@ =~= before.drop_last());
        let key = input_key(k);
        if !m.contains_key(&key) {
            m.insert(key, v);
        }
        assert(connections_map(before) == connections_map(pairs@).insert(key, v));
        assert(connections_map(pairs@).insert(key, v).union_prefer_right(m0)
            =~= connections_map(pairs@).union_prefer_right(m@));
    }
    assert(connections_map(pairs@).union_prefer_right(m@) =~= m@);
    m
}

/// The client's workspace built from the one the server sends.
pub open spec fn workspace_from_wire<P, I>(w: WireWorkspaceState<P, I>) -> WorkspaceView<P, I> {
    WorkspaceView {
        modules: pairs_map(w.modules@),
        geometry: pairs_map(w.geometry@),
        connections: connections_map(w.connections@),
        indications: pairs_map(w.indications@),
        inputs: pairs_map(w.inputs@),
        outputs: pairs_map(w.outputs@),
    }
}

impl<Params, Indication> WorkspaceState<Params, Indication> {
    /// The client's workspace built from the one the server sends; where a
    /// key occurs twice, the later entry wins.
    pub fn from_wire(wstate: WireWorkspaceState<Params, Indication>) -> (r: Self)
        ensures
            r@ == workspace_from_wire(wstate),
    {
        let ghost w = wstate;
        WorkspaceState {
            modules: btree_map_from_pairs(wstate.modules),
            geometry: hash_map_from_pairs(wstate.geometry),
            indications: hash_map_from_pairs(wstate.indications),
            connections: connections_from_pairs(wstate.connections),
            inputs: hash_map_from_pairs(wstate.inputs),
            outputs: hash_map_from_pairs(wstate.outputs),
        }
    }
}

/// Deleting a module that was just created leaves every per-module map as
/// it was before the creation, when the module was not there before.
pub proof fn lemma_create_then_delete_module<P, I>(
    w: WorkspaceView<P, I>,
    id: ModuleId,
    params: P,
    geometry: WindowGeometry,
    indication: I,
    inputs: Vec<Terminal>,
    outputs: Vec<Terminal>,
)
    requires
        !w.modules.contains_key(id.0),
        !w.geometry.contains_key(id.0),
        !w.indications.contains_key(id.0),
        !w.inputs.contains_key(id.0),
        !w.outputs.contains_key(id.0),
    ensures
        apply_update_spec(
            apply_update_spec(w, ServerUpdate::CreateModule { id, params, geometry, indication, inputs, outputs }),
            ServerUpdate::DeleteModule(id),
        ) == w,
{
    let w2 = apply_update_spec(
        apply_update_spec(w, ServerUpdate::CreateModule { id, params, geometry, indication, inputs, outputs }),
        ServerUpdate::<P, I>::DeleteModule(id),
    );
    assert(w2.modules =~= w.modules);
    assert(w2.geometry =~= w.geometry);
    assert(w2.indications =~= w.indications);
    assert(w2.inputs =~= w.inputs);
    assert(w2.outputs =~= w.outputs);
}

/// Deleting a connection that was just created leaves the connections as
/// they were, when its input had none before.
pub proof fn lemma_create_then_delete_connection<P, I>(w: WorkspaceView<P, I>, input: InputId, output: OutputId)
    requires
        !w.connections.contains_key(input_key_spec(input)),
    ensures
        apply_update_spec(
            apply_update_spec(w, ServerUpdate::CreateConnection(input, output)),
            ServerUpdate::DeleteConnection(input),
        ) == w,
{
    let w2 = apply_update_spec(
        apply_update_spec(w, ServerUpdate::<P, I>::CreateConnection(input, output)),
        ServerUpdate::<P, I>::DeleteConnection(input),
    );
    assert(w2.connections =~= w.connections);
}

/// The order of sequence numbers, where no number comes before every number.
pub open spec fn seq_lt(a: Option<ClientSequence>, b: Option<ClientSequence>) -> bool {
    match (a, b) {
        (None, Some(_)) => true,
        (Some(x), Some(y)) => x.0 < y.0,
        _ => false,
    }
}

/// The last sequence number the client handed out, if any.
pub open spec fn client_last(c: nat) -> Option<ClientSequence> {
    if c == 0 {
        None
    } else {
        Some(ClientSequence(c as usize))
    }
}

/// The client's and the server's view of which operations were sent and
/// acknowledged.
#[derive(Debug)]
pub struct SyncState {
    pub client: Sequence,
    pub server: Option<ClientSequence>,
}

fn opt_seq_lt(a: Option<ClientSequence>, b: Option<ClientSequence>) -> (r: bool)
    ensures
        r == seq_lt(a, b),
{
    match (a, b) {
        (None, Some(_)) => true,
        (Some(x), Some(y)) => x.0 < y.0,
        _ => false,
    }
}

fn opt_seq_eq(a: Option<ClientSequence>, b: Option<ClientSequence>) -> (r: bool)
    ensures
        r == (a == b),
{
    match (a, b) {
        (None, None) => true,
        (Some(x), Some(y)) => x.0 == y.0,
        _ => false,
    }
}

impl SyncState {
    /// Nothing sent, nothing acknowledged.
    pub fn new() -> (r: Self)
        ensures
            r.client@ == 0,
            r.server is None,
    {
        SyncState { client: Sequence::new(), server: None }
    }

    /// Records the server's acknowledgement of the client's operations up to
    /// `new_client_seq`. An acknowledgement that does not move forward is a
    /// desynchronisation, on which the client stops.
    pub fn sync(&mut self, new_client_seq: ClientSequence)
        requires
            seq_lt(old(self).server, Some(new_client_seq)),
        ensures
            final(self).server == Some(new_client_seq),
            final(self).client@ == old(self).client@,
    {
        if !opt_seq_lt(self.server, Some(new_client_seq)) {
            proof { assert(false); }
        }
        self.server = Some(new_client_seq);
    }

    /// Whether every operation the client sent has been acknowledged. The
    /// server acknowledging more than was sent is a desynchronisation, on
    /// which the client stops.
    pub fn workspace_synced(&self) -> (r: bool)
        requires
            !seq_lt(client_last(self.client@), self.server),
        ensures
            r == (self.server == client_last(self.client@)),
    {
        let client_seq = match self.client.last() {
            Some(n) => Some(ClientSequence(n)),
            None => None,
        };
        if opt_seq_eq(self.server, client_seq) {
            // server is up to date, re-render
            true
        } else {
            // server is behind, skip render
            false
        }
    }

    /// The sequence number of the next operation the client sends.
    pub fn next_sequence(&mut self) -> (r: ClientSequence)
        requires
            old(self).client@ < usize::MAX,
        ensures
            final(self).client@ == old(self).client@ + 1,
            final(self).server == old(self).server,
            Some(r) == client_last(final(self).client@),
    {
        ClientSequence(self.client.next())
    }
}

/// Once every operation sent is acknowledged, sending one more leaves the
/// workspace unsynchronised until the server acknowledges that one.
pub proof fn lemma_send_unsyncs(server: Option<ClientSequence>, c: nat)
    requires
        server == client_last(c),
        c < usize::MAX,
    ensures
        seq_lt(server, client_last(c + 1)),
        server != client_last(c + 1),
{
}

/// What the client's views are told after a server message.
#[derive(Debug, Clone)]
pub enum Notification {
    Workspace,
    Performance(PerformanceInfo),
    MediaLibrary(MediaLibrary),
}

/// The client end of a session: its workspace, once the server has sent
/// one, and its sequence bookkeeping.
#[derive(Debug)]
pub struct SessionState<Params, Indication> {
    pub state: Option<WorkspaceState<Params, Indication>>,
    pub seq: SyncState,
}

/// Whether the client can take a server message without stopping: an
/// acknowledgement must move forward and not pass what was sent, and an
/// update needs a workspace to apply to.
pub open spec fn message_acceptable<P, I>(s: SessionState<P, I>, msg: ServerMessage<P, I>) -> bool {
    match msg {
        ServerMessage::Sync(n) => seq_lt(s.seq.server, Some(n)) && !seq_lt(client_last(s.seq.client@), Some(n)),
        ServerMessage::Update(_) => s.state is Some && !seq_lt(client_last(s.seq.client@), s.seq.server),
        _ => true,
    }
}

impl<Params, Indication> SessionState<Params, Indication> {
    /// A session with no workspace yet.
    pub fn new() -> (r: Self)
        ensures
            r.state is None,
            r.seq.client@ == 0,
            r.seq.server is None,
    {
        SessionState { state: None, seq: SyncState::new() }
    }

    /// Takes one message from the server and says which views to notify.
    /// A full workspace replaces the local one; an acknowledgement or an
    /// update asks for a re-render only when every operation the client sent
    /// has come back, so the user never sees their own change undone.
    pub fn on_server_message(&mut self, msg: ServerMessage<Params, Indication>) -> (r: Option<Notification>)
        requires
            message_acceptable(*old(self), msg),
        ensures
            match msg {
                ServerMessage::WorkspaceState(w) => {
                    &&& final(self).state matches Some(st) && st@ == workspace_from_wire(w)
                    &&& final(self).seq == old(self).seq
                    &&& r matches Some(Notification::Workspace)
                },
                ServerMessage::Sync(n) => {
                    &&& final(self).state == old(self).state
                    &&& final(self).seq.server == Some(n)
                    &&& final(self).seq.client@ == old(self).seq.client@
                    &&& (r matches Some(Notification::Workspace)) == (Some(n) == client_last(old(self).seq.client@))
                    &&& (r is None) == (Some(n) != client_last(old(self).seq.client@))
                },
                ServerMessage::Update(u) => {
                    &&& final(self).state matches Some(st) && st@ == apply_update_spec(old(self).state->Some_0@, u)
                    &&& final(self).seq == old(self).seq
                    &&& (r matches Some(Notification::Workspace)) == (old(self).seq.server == client_last(old(self).seq.client@))
                    &&& (r is None) == (old(self).seq.server != client_last(old(self).seq.client@))
                },
                ServerMessage::Performance(p) => {
                    &&& final(self).state == old(self).state
                    &&& final(self).seq == old(self).seq
                    &&& r matches Some(Notification::Performance(q)) && q == p
                },
                ServerMessage::MediaLibrary(l) => {
                    &&& final(self).state == old(self).state
                    &&& final(self).seq == old(self).seq
                    &&& r matches Some(Notification::MediaLibrary(m)) && m == l
                },
            },
    {
        match msg {
            ServerMessage::WorkspaceState(state) => {
                self.state = Some(WorkspaceState::from_wire(state));
                Some(Notification::Workspace)
            },
            ServerMessage::Sync(seq) => {
                self.seq.sync(seq);

                // re-render if this Sync message caused us to consider
                // ourselves synced - there may be prior updates
                // waiting for render
                if self.seq.workspace_synced() {
                    Some(Notification::Workspace)
                } else {
                    None
                }
            },
            ServerMessage::Update(op) => {
                match &mut self.state {
                    Some(state) => { state.apply_update(op); },
                    None => { proof { assert(false); } },
                }

                // only re-render according to server state if all of
                // our changes have successfully round-tripped
                if self.seq.workspace_synced() {
                    Some(Notification::Workspace)
                } else {
                    None
                }
            },
            ServerMessage::Performance(perf_info) => {
                Some(Notification::Performance(perf_info))
            },
            ServerMessage::MediaLibrary(library) => {
                Some(Notification::MediaLibrary(library))
            },
        }
    }

    /// The message that sends a workspace operation to the server, with the
    /// next sequence number.
    pub fn update_workspace(&mut self, op: WorkspaceOp<Params>) -> (r: ClientMessage<Params>)
        requires
            old(self).seq.client@ < usize::MAX,
        ensures
            final(self).state == old(self).state,
            final(self).seq.client@ == old(self).seq.client@ + 1,
            final(self).seq.server == old(self).seq.server,
            r matches ClientMessage::Workspace(m) && m.op == op && Some(m.sequence) == client_last(final(self).seq.client@),
    {
        ClientMessage::Workspace(WorkspaceMessage { sequence: self.seq.next_sequence(), op: op })
    }
}

} // verus!
