//! The video monitor's playback state: stopped, loading the media source,
//! or playing; and the buffering of the MP4 fragments it receives, which
//! are handed to the media source buffer one batch at a time, whenever the
//! buffer is ready for more.
use vstd::prelude::*;

verus! {

/// Playback in progress: whether the source buffer takes data now, whether
/// the stream's initialisation has arrived, and the bytes not yet handed on.
#[derive(Debug)]
pub struct PlayState {
    pub ready: bool,
    pub has_mux: bool,
    pub fragment: Vec<u8>,
}

/// The monitor's state.
#[derive(Debug)]
pub enum MonitorState {
    Stopped,
    Loading,
    Playing(PlayState),
}

/// What the page must do besides buffering.
#[derive(Debug, Clone, Copy, PartialEq, Eq, Structural)]
pub enum MonitorAction {
    Nothing,
    /// Create the media source, point the video at it, and wait for it to open.
    StartLoading,
    /// Drop the media source, the connection and the buffer.
    Stop,
    /// Attach a source buffer to the opened media source.
    StartPlaying,
}

/// The events the monitor takes. `InitData` and `FrameData` carry the bytes
/// the MP4 muxer produced for an initialisation packet and a frame packet.
#[derive(Debug)]
pub enum MonitorMsg {
    OverlayClick,
    SourceOpen,
    SourceBufferUpdate,
    InitData(Vec<u8>),
    FrameData(Vec<u8>),
}

/// What the monitor decided: whether to re-render, what the page must do,
/// and the bytes to append to the source buffer now, if any.
#[derive(Debug)]
pub struct MonitorUpdate {
    pub render: bool,
    pub action: MonitorAction,
    pub append: Option<Vec<u8>>,
}

impl PlayState {
    /// Hands the pending bytes on if the buffer is ready and there are any;
    /// the buffer is then busy until it reports an update.
    pub fn ready(&mut self) -> (r: Option<Vec<u8>>)
        ensures
            final(self).has_mux == old(self).has_mux,
            if old(self).ready && old(self).fragment@.len() > 0 {
                &&& r matches Some(v) && v@ == old(self).fragment@
                &&& !final(self).ready
                &&& final(self).fragment@ == Seq::<u8>::empty()
            } else {
                &&& r is None
                &&& final(self).ready == old(self).ready
                &&& final(self).fragment@ == old(self).fragment@
            },
    {
        if self.ready {
            if self.fragment.len() > 0 {
                let mut fragment: Vec<u8> = Vec::new();
                std::mem::swap(&mut fragment, &mut self.fragment);
                self.ready = false;
                Some(fragment)
            } else {
                None
            }
        } else {
            None
        }
    }

    /// Adds bytes behind the pending ones, then hands on what is ready.
    fn receive(&mut self, data: Vec<u8>) -> (r: Option<Vec<u8>>)
        ensures
            final(self).has_mux == old(self).has_mux,
            match r {
                Some(v) => v@ == old(self).fragment@ + data@ && final(self).fragment@ == Seq::<u8>::empty(),
                None => final(self).fragment@ == old(self).fragment@ + data@,
            },
            r is Some <==> (old(self).ready && (old(self).fragment@ + data@).len() > 0),
            final(self).ready == (old(self).ready && (old(self).fragment@ + data@).len() == 0),
    {
        let mut data = data;
        self.fragment.append(&mut data);
        self.ready()
    }
}

/// Whether the monitor can take `msg`: the stream's initialisation must
/// come exactly once, before any frame (the monitor stops on anything else).
pub open spec fn monitor_msg_acceptable(s: MonitorState, msg: MonitorMsg) -> bool {
    match (s, msg) {
        (MonitorState::Playing(p), MonitorMsg::InitData(_)) => !p.has_mux,
        (MonitorState::Playing(p), MonitorMsg::FrameData(_)) => p.has_mux,
        _ => true,
    }
}

/// What the monitor does with each event, given its state before and after.
pub open spec fn monitor_post(before: MonitorState, msg: MonitorMsg, after: MonitorState, r: MonitorUpdate) -> bool {
    match msg {
        MonitorMsg::OverlayClick => {
            &&& r.render
            &&& r.append is None
            &&& match before {
                MonitorState::Stopped => after is Loading && r.action == MonitorAction::StartLoading,
                _ => after is Stopped && r.action == MonitorAction::Stop,
            }
        },
        MonitorMsg::SourceOpen => {
            &&& !r.render
            &&& r.append is None
            &&& r.action == MonitorAction::StartPlaying
            &&& after matches MonitorState::Playing(p) && p.ready && !p.has_mux && p.fragment@.len() == 0
        },
        MonitorMsg::SourceBufferUpdate => {
            &&& !r.render
            &&& r.action == MonitorAction::Nothing
            &&& match before {
                MonitorState::Playing(p) => after matches MonitorState::Playing(q) && q.has_mux == p.has_mux
                    && if p.fragment@.len() > 0 {
                    r.append matches Some(v) && v@ == p.fragment@ && !q.ready && q.fragment@.len() == 0
                } else {
                    r.append is None && q.ready && q.fragment@ == p.fragment@
                },
                MonitorState::Stopped => after is Stopped && r.append is None,
                MonitorState::Loading => after is Loading && r.append is None,
            }
        },
        MonitorMsg::InitData(data) | MonitorMsg::FrameData(data) => {
            &&& !r.render
            &&& r.action == MonitorAction::Nothing
            &&& match before {
                MonitorState::Playing(p) => after matches MonitorState::Playing(q) && q.has_mux
                    && match r.append {
                    Some(v) => p.ready && v@ == p.fragment@ + data@ && v@.len() > 0 && !q.ready && q.fragment@.len() == 0,
                    None => q.fragment@ == p.fragment@ + data@ && q.ready == p.ready
                        && (p.ready ==> (p.fragment@ + data@).len() == 0),
                },
                MonitorState::Stopped => after is Stopped && r.append is None,
                MonitorState::Loading => after is Loading && r.append is None,
            }
        },
    }
}

impl MonitorState {
    /// Whether the stream's initialisation has arrived during playback.
    pub fn has_mux(&self) -> (r: bool)
        ensures
            r == (*self matches MonitorState::Playing(p) && p.has_mux),
    {
        match self {
            MonitorState::Playing(p) => p.has_mux,
            _ => false,
        }
    }

    /// Takes one event. A click on the overlay starts loading when stopped,
    /// and stops otherwise; an opened source starts playback with a ready
    /// buffer; data is buffered during playback and handed on whenever the
    /// buffer is ready, and ignored otherwise.
    pub fn update(&mut self, msg: MonitorMsg) -> (r: MonitorUpdate)
        requires
            monitor_msg_acceptable(*old(self), msg),
        ensures
            monitor_post(*old(self), msg, *final(self), r),
    {
        match msg {
            MonitorMsg::OverlayClick => {
                let action = match self {
                    MonitorState::Stopped => {
                        *self = MonitorState::Loading;
                        MonitorAction::StartLoading
                    },
                    _ => {
                        *self = MonitorState::Stopped;
                        MonitorAction::Stop
                    },
                };
                MonitorUpdate { render: true, action, append: None }
            },
            MonitorMsg::SourceOpen => {
                *self = MonitorState::Playing(PlayState { ready: true, has_mux: false, fragment: Vec::new() });
                MonitorUpdate { render: false, action: MonitorAction::StartPlaying, append: None }
            },
            MonitorMsg::SourceBufferUpdate => {
                let append = match self {
                    MonitorState::Playing(play_state) => {
                        play_state.ready = true;
                        play_state.ready()
                    },
                    _ => None,
                };
                MonitorUpdate { render: false, action: MonitorAction::Nothing, append }
            },
            MonitorMsg::InitData(data) | MonitorMsg::FrameData(data) => {
                let append = match self {
                    MonitorState::Playing(play_state) => {
                        play_state.has_mux = true;
                        play_state.receive(data)
                    },
                    _ => None,
                };
                MonitorUpdate { render: false, action: MonitorAction::Nothing, append }
            },
        }
    }
}

/// No byte of the stream is lost or reordered during playback: what is
/// handed to the source buffer, followed by what is still pending, is what
/// was pending before followed by what arrived.
pub proof fn lemma_monitor_keeps_every_byte(before: MonitorState, msg: MonitorMsg, after: MonitorState, r: MonitorUpdate)
    requires
        monitor_post(before, msg, after, r),
        before is Playing,
        msg is InitData || msg is FrameData,
    ensures
        ({
            let data = match msg {
                MonitorMsg::InitData(d) => d@,
                MonitorMsg::FrameData(d) => d@,
                _ => Seq::empty(),
            };
            let appended = match r.append {
                Some(v) => v@,
                None => Seq::empty(),
            };
            &&& after is Playing
            &&& appended + after->Playing_0.fragment@ == before->Playing_0.fragment@ + data
        }),
{
    let data = match msg {
        MonitorMsg::InitData(d) => d@,
        MonitorMsg::FrameData(d) => d@,
        _ => Seq::empty(),
    };
    let appended = match r.append {
        Some(v) => v@,
        None => Seq::<u8>::empty(),
    };
    assert(appended + after->Playing_0.fragment@ =~= before->Playing_0.fragment@ + data);
}

} // verus!
