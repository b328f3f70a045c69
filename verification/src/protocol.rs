//! The messages exchanged between the mixlab server and its web client,
//! and the identifiers and plain data they carry.
//!
//! Identifiers that the wire format keeps non-zero are held as `usize` here;
//! the sequences that hand them out only ever produce non-zero values.
use vstd::prelude::*;

verus! {

/// Whether a warning condition holds now or held a moment ago.
#[derive(Clone, Copy, Debug, PartialEq, Eq, Structural)]
pub enum TemporalWarningStatus {
    Active,
    Recent,
}

/// What a share of the engine's tick time is accounted to.
#[derive(Debug, Clone, Copy, Hash, PartialEq, Eq, Structural)]
pub enum PerformanceAccount {
    Engine,
    Module(ModuleId),
}

/// One measurement of an account's tick time.
#[derive(Debug, Clone, Copy, PartialEq, Eq, Structural)]
pub struct PerformanceMetric {
    pub last: Microseconds,
}

/// A duration in microseconds.
#[derive(Debug, Clone, Copy, PartialOrd, Ord, PartialEq, Eq, Structural)]
pub struct Microseconds(pub u64);

/// The engine's performance report.
#[derive(Debug, Clone)]
pub struct PerformanceInfo {
    pub realtime: bool,
    pub lag: Option<TemporalWarningStatus>,
    pub tick_rate: usize,
    pub tick_budget: Microseconds,
    pub accounts: Vec<(PerformanceAccount, PerformanceMetric)>,
}

/// The media files known to the server.
#[derive(Debug, Clone)]
pub struct MediaLibrary {
    pub items: Vec<MediaItem>,
}

/// The server's identifier of a media file.
#[derive(Debug, Clone, Copy, PartialEq, Eq, Structural)]
pub struct MediaId(pub i64);

/// A media file of the library.
#[derive(Debug, Clone)]
pub struct MediaItem {
    pub id: MediaId,
    pub name: String,
    pub kind: String,
    pub size: usize,
}

/// The sequence number of a client operation (never zero).
#[derive(Debug, Clone, Copy, PartialEq, Eq, PartialOrd, Ord, Structural)]
pub struct ClientSequence(pub usize);

/// The identifier of a module of the workspace (never zero).
#[derive(Clone, Copy, Debug, PartialOrd, Ord, PartialEq, Eq, Hash, Structural)]
pub struct ModuleId(pub usize);

/// An input or output terminal of a module.
#[derive(Clone, Copy, Debug, PartialOrd, Ord, PartialEq, Eq, Hash, Structural)]
pub enum TerminalId {
    Input(InputId),
    Output(OutputId),
}

impl TerminalId {
    /// The module the terminal belongs to.
    pub fn module_id(&self) -> (r: ModuleId)
        ensures
            r == (match *self {
                TerminalId::Input(input) => input.0,
                TerminalId::Output(output) => output.0,
            }),
    {
        match self {
            TerminalId::Input(input) => input.module_id(),
            TerminalId::Output(output) => output.module_id(),
        }
    }
}

/// The `index`-th input of a module.
#[derive(Clone, Copy, Debug, PartialOrd, Ord, PartialEq, Eq, Hash, Structural)]
pub struct InputId(pub ModuleId, pub usize);

impl InputId {
    /// The module the input belongs to.
    pub fn module_id(&self) -> (r: ModuleId)
        ensures
            r == self.0,
    {
        self.0
    }

    /// The position of the input among its module's inputs.
    pub fn index(&self) -> (r: usize)
        ensures
            r == self.1,
    {
        self.1
    }
}

/// The `index`-th output of a module.
#[derive(Clone, Copy, Debug, PartialOrd, Ord, PartialEq, Eq, Hash, Structural)]
pub struct OutputId(pub ModuleId, pub usize);

impl OutputId {
    /// The module the output belongs to.
    pub fn module_id(&self) -> (r: ModuleId)
        ensures
            r == self.0,
    {
        self.0
    }

    /// The position of the output among its module's outputs.
    pub fn index(&self) -> (r: usize)
        ensures
            r == self.1,
    {
        self.1
    }
}

/// A terminal's optional label and the kind of signal it carries.
#[derive(Debug, Clone, PartialEq, Eq)]
pub struct Terminal(pub Option<String>, pub LineType);

impl Terminal {
    /// The terminal's label, if it has one.
    pub fn label(&self) -> (r: Option<&str>)
        ensures
            match (r, self.0) {
                (Some(l), Some(s)) => l@ == s@,
                (None, None) => true,
                _ => false,
            },
    {
        match &self.0 {
            Some(s) => Some(s.as_str()),
            None => None,
        }
    }

    /// The kind of signal the terminal carries.
    pub fn line_type(&self) -> (r: LineType)
        ensures
            r == self.1,
    {
        self.1
    }
}

/// The kind of signal a connection carries.
#[derive(Debug, Clone, Copy, PartialEq, Eq, Structural)]
pub enum LineType {
    Mono,
    Stereo,
    Video,
}

impl LineType {
    /// A terminal of this kind with a label.
    pub fn labeled(self, label: &str) -> (r: Terminal)
        ensures
            r.1 == self,
            r.0 matches Some(s) && s@ == label@,
    {
        Terminal(Some(label.to_owned()), self)
    }

    /// A terminal of this kind without a label.
    pub fn unlabeled(self) -> (r: Terminal)
        ensures
            r.1 == self,
            r.0 is None,
    {
        Terminal(None, self)
    }
}

/// The waveforms an oscillator produces.
#[derive(Clone, Debug, Copy, PartialEq, Eq, Structural)]
pub enum Waveform {
    On,
    Off,
    Sine,
    Square,
    Triangle,
    Saw,
}

/// The audio device a module plays to, and the channels it uses.
#[derive(Clone, Debug)]
pub struct OutputDeviceParams {
    pub device: Option<String>,
    pub left: Option<usize>,
    pub right: Option<usize>,
}

/// What the server reports about an output device module.
#[derive(Clone, Debug)]
pub struct OutputDeviceIndication {
    pub clip: Option<TemporalWarningStatus>,
    pub lag: Option<TemporalWarningStatus>,
    pub default_device: Option<String>,
    pub devices: Option<Vec<(String, usize)>>,
}

/// Whether a trigger module's gate is open.
#[derive(Clone, Copy, Debug, PartialEq, Eq, Structural)]
pub enum GateState {
    Open,
    Closed,
}

/// Where a stream input module takes its stream from.
#[derive(Clone, Debug, Default)]
pub struct StreamInputParams {
    pub protocol: Option<StreamProtocol>,
    pub mountpoint: Option<String>,
}

/// The protocols a stream input accepts.
#[derive(Clone, Copy, Debug, PartialEq, Eq, Structural)]
pub enum StreamProtocol {
    Icecast,
    Rtmp,
}

/// Where a stream output module sends its stream. The three sequence
/// numbers carry one-time impulses (connect, disconnect) inside the params.
#[derive(Clone, Debug, PartialEq)]
pub struct StreamOutputParams {
    pub seq: u64,
    pub connect_seq: u64,
    pub disconnect_seq: u64,
    pub rtmp_url: String,
    pub rtmp_stream_key: String,
}

impl Default for StreamOutputParams {
    fn default() -> (r: Self)
        ensures
            r.seq == 1,
            r.connect_seq == 0,
            r.disconnect_seq == 0,
            r.rtmp_url@ == Seq::<char>::empty(),
            r.rtmp_stream_key@ == Seq::<char>::empty(),
    {
        Self {
            seq: 1,
            connect_seq: 0,
            disconnect_seq: 0,
            rtmp_url: String::new(),
            rtmp_stream_key: String::new(),
        }
    }
}

/// What the server reports about a stream output module.
#[derive(Clone, Copy, Debug, PartialEq, Eq, Structural)]
pub struct StreamOutputIndication {
    pub live: StreamOutputLiveStatus,
    pub error: bool,
}

/// The connection state of a stream output.
#[derive(Clone, Copy, Debug, PartialEq, Eq, Structural)]
pub enum StreamOutputLiveStatus {
    Offline,
    Connecting,
    Live,
}

/// The codec and bit rate of a stream.
#[derive(Clone, Debug, Default)]
pub struct StreamSource {
    pub codec: String,
    pub kbps: usize,
}

/// The number of channels of the video mixer.
pub const VIDEO_MIXER_CHANNELS: usize = 4;

/// A point of the workspace, in pixels.
#[derive(Debug, Clone, Copy, PartialEq, Eq, Default, Structural)]
pub struct Coords {
    pub x: i32,
    pub y: i32,
}

/// Where a module's window stands and how it stacks.
#[derive(Debug, Clone, Copy, Default, PartialEq, Eq, Structural)]
pub struct WindowGeometry {
    pub position: Coords,
    pub z_index: usize,
}

/// Whether the sum of two points fits the coordinate type.
pub open spec fn coords_add_fits(a: Coords, b: Coords) -> bool {
    i32::MIN <= a.x + b.x <= i32::MAX && i32::MIN <= a.y + b.y <= i32::MAX
}

/// Whether the difference of two points fits the coordinate type.
pub open spec fn coords_sub_fits(a: Coords, b: Coords) -> bool {
    i32::MIN <= a.x - b.x <= i32::MAX && i32::MIN <= a.y - b.y <= i32::MAX
}

impl Coords {
    /// The point moved by `other`.
    pub fn add(&self, other: Coords) -> (r: Coords)
        requires
            coords_add_fits(*self, other),
        ensures
            r.x == self.x + other.x,
            r.y == self.y + other.y,
    {
        Coords { x: self.x + other.x, y: self.y + other.y }
    }

    /// The offset from `other` to the point.
    pub fn sub(&self, other: Coords) -> (r: Coords)
        requires
            coords_sub_fits(*self, other),
        ensures
            r.x == self.x - other.x,
            r.y == self.y - other.y,
    {
        Coords { x: self.x - other.x, y: self.y - other.y }
    }
}

/// Moving a point by an offset and back gives the point again; `add` and
/// `sub` undo each other wherever both fit.
pub proof fn lemma_coords_add_sub(a: Coords, d: Coords)
    requires
        coords_add_fits(a, d),
    ensures
        coords_sub_fits(Coords { x: (a.x + d.x) as i32, y: (a.y + d.y) as i32 }, d),
        (Coords { x: ((a.x + d.x) - d.x) as i32, y: ((a.y + d.y) - d.y) as i32 }) == a,
{
}

/// The operations a client asks the server to perform on the workspace.
/// `Params` is the type of module parameters.
#[derive(Debug, Clone)]
pub enum WorkspaceOp<Params> {
    CreateModule(Params, WindowGeometry),
    UpdateModuleParams(ModuleId, Params),
    UpdateWindowGeometry(ModuleId, WindowGeometry),
    DeleteModule(ModuleId),
    CreateConnection(InputId, OutputId),
    DeleteConnection(InputId),
}

/// A workspace operation with its sequence number.
#[derive(Debug, Clone)]
pub struct WorkspaceMessage<Params> {
    pub sequence: ClientSequence,
    pub op: WorkspaceOp<Params>,
}

/// What a client sends.
#[derive(Debug, Clone)]
pub enum ClientMessage<Params> {
    Workspace(WorkspaceMessage<Params>),
}

/// A change to the workspace announced by the server. `Params` and
/// `Indication` are the types of module parameters and indications.
#[derive(Debug, Clone)]
pub enum ServerUpdate<Params, Indication> {
    CreateModule {
        id: ModuleId,
        params: Params,
        geometry: WindowGeometry,
        indication: Indication,
        inputs: Vec<Terminal>,
        outputs: Vec<Terminal>,
    },
    UpdateModuleParams(ModuleId, Params),
    UpdateWindowGeometry(ModuleId, WindowGeometry),
    UpdateModuleIndication(ModuleId, Indication),
    DeleteModule(ModuleId),
    CreateConnection(InputId, OutputId),
    DeleteConnection(InputId),
}

/// The whole workspace as the server sends it on connection.
#[derive(Debug, Clone)]
pub struct WorkspaceState<Params, Indication> {
    pub modules: Vec<(ModuleId, Params)>,
    pub geometry: Vec<(ModuleId, WindowGeometry)>,
    pub indications: Vec<(ModuleId, Indication)>,
    pub connections: Vec<(InputId, OutputId)>,
    pub inputs: Vec<(ModuleId, Vec<Terminal>)>,
    pub outputs: Vec<(ModuleId, Vec<Terminal>)>,
}

/// What the server sends.
#[derive(Debug, Clone)]
pub enum ServerMessage<Params, Indication> {
    WorkspaceState(WorkspaceState<Params, Indication>),
    Update(ServerUpdate<Params, Indication>),
    Sync(ClientSequence),
    Performance(PerformanceInfo),
    MediaLibrary(MediaLibrary),
}

} // verus!
