//! The MIDI broker: which controls are bound to which subscribers, the one
//! control binding being configured, and how a MIDI message is dispatched.
use vstd::prelude::*;

use crate::util::Sequence;

verus! {

/// A continuous controller of a MIDI input: the input's id and the
/// controller number.
#[derive(Debug, PartialEq, Eq, Clone)]
pub struct MidiRangeId(pub String, pub u8);

/// A note of a MIDI input: the input's id and the note number.
#[derive(Debug, PartialEq, Eq, Clone)]
pub struct MidiNoteId(pub String, pub u8);

/// The number of a subscription to a controller (never zero).
#[derive(Debug, Clone, Copy, PartialEq, Eq, PartialOrd, Ord, Structural)]
pub struct SubscriptionId(pub usize);

impl SubscriptionId {
    /// The smallest subscription number.
    pub fn min() -> (r: SubscriptionId)
        ensures
            r.0 == 1,
    {
        SubscriptionId(1)
    }

    /// The largest subscription number.
    pub fn max() -> (r: SubscriptionId)
        ensures
            r.0 == usize::MAX,
    {
        SubscriptionId(usize::MAX)
    }
}

/// The controller and value of a MIDI control change message: three bytes,
/// the first with status 0xB (any channel); seven-bit data.
pub open spec fn control_change_spec(data: Seq<u8>) -> Option<(u8, u8)> {
    if data.len() == 3 && (data[0] & 0xf0) == 0xb0 {
        Some(((data[1] & 0x7f) as u8, (data[2] & 0x7f) as u8))
    } else {
        None
    }
}

/// Reads a MIDI control change message.
pub fn parse_control_change(data: &[u8]) -> (r: Option<(u8, u8)>)
    ensures
        r == control_change_spec(data@),
{
    if data.len() == 3 && (data[0] & 0xf0) == 0xb0 {
        Some((data[1] & 0x7f, data[2] & 0x7f))
    } else {
        None
    }
}

/// Only a control change is a controller message: a three-byte message whose
/// status nibble (the high four bits of its first byte) is 0xB, on any of the
/// sixteen channels. Every other message (notes, aftertouch, pitch bend,
/// system messages, and anything not three bytes long) is none, and a control
/// change names the controller of its second byte and the value of its third,
/// each taken to seven bits.
pub proof fn lemma_only_control_changes(data: Seq<u8>)
    ensures
        control_change_spec(data) is Some <==> (data.len() == 3 && data[0] / 16 == 11),
        control_change_spec(data) matches Some((c, v)) ==> c == data[1] % 128 && v == data[2] % 128,
{
    if data.len() == 3 {
        let b0 = data[0];
        let b1 = data[1];
        let b2 = data[2];
        assert(((b0 & 0xf0) == 0xb0) == (b0 / 16 == 11)) by (bit_vector);
        assert((b1 & 0x7f) == b1 % 128) by (bit_vector);
        assert((b2 & 0x7f) == b2 % 128) by (bit_vector);
    }
}

/// Whether two controller ids name the same controller.
pub open spec fn same_range(a: MidiRangeId, b: MidiRangeId) -> bool {
    a.0@ == b.0@ && a.1 == b.1
}

fn range_eq(a: &MidiRangeId, b: &MidiRangeId) -> (r: bool)
    ensures
        r == same_range(*a, *b),
{
    a.1 == b.1 && a.0 == b.0
}

/// The subscription numbers bound to `range`, in the order they were made.
pub open spec fn subscribers_of(subs: Seq<(MidiRangeId, usize)>, range: MidiRangeId) -> Seq<usize>
    decreases subs.len(),
{
    if subs.len() == 0 {
        Seq::empty()
    } else {
        let rest = subscribers_of(subs.drop_last(), range);
        if same_range(subs.last().0, range) {
            rest.push(subs.last().1)
        } else {
            rest
        }
    }
}

/// What a control change leads to: the controller and its value, the
/// subscriptions to tell, and the configuring binding to complete, if any.
#[derive(Debug)]
pub struct MidiDispatch {
    pub range: MidiRangeId,
    pub value: u8,
    pub subscribers: Vec<usize>,
    pub configured: Option<usize>,
}

/// The broker's bookkeeping. Bindings being configured and subscriptions
/// are known by number; the page keeps the callbacks that go with them.
#[derive(Debug)]
pub struct MidiBrokerCore {
    pub configuring: Option<usize>,
    pub id_seq: Sequence,
    pub range_subscribers: Vec<(MidiRangeId, usize)>,
}

/// `after` is `before` without the subscription numbered `id`: the one entry
/// with that number taken out, or `before` itself when there is none.
pub open spec fn subscription_removed(before: Seq<(MidiRangeId, usize)>, id: usize, after: Seq<(MidiRangeId, usize)>) -> bool {
    ||| exists|k: int| 0 <= k < before.len() && (#[trigger] before[k]).1 == id && after == before.remove(k)
    ||| (forall|k: int| 0 <= k < before.len() ==> (#[trigger] before[k]).1 != id) && after == before
}

impl MidiBrokerCore {
    /// Subscription numbers are made by the sequence, in increasing order,
    /// so each is held once.
    pub open spec fn wf(&self) -> bool {
        &&& forall|i: int, j: int| 0 <= i < j < self.range_subscribers@.len()
            ==> (#[trigger] self.range_subscribers@[i]).1 < (#[trigger] self.range_subscribers@[j]).1
        &&& forall|i: int| 0 <= i < self.range_subscribers@.len()
            ==> 0 < (#[trigger] self.range_subscribers@[i]).1 <= self.id_seq@
    }

    /// A broker with nothing bound.
    pub fn new() -> (r: Self)
        ensures
            r.wf(),
            r.configuring is None,
            r.range_subscribers@.len() == 0,
    {
        MidiBrokerCore { configuring: None, id_seq: Sequence::new(), range_subscribers: Vec::new() }
    }

    /// Starts configuring the binding numbered `configure`; the binding that
    /// was being configured before, if any, is cancelled and returned.
    pub fn configure(&mut self, configure: usize) -> (r: Option<usize>)
        ensures
            r == old(self).configuring,
            final(self).configuring == Some(configure),
            final(self).range_subscribers@ == old(self).range_subscribers@,
            final(self).id_seq@ == old(self).id_seq@,
    {
        let previous = self.configuring.take();
        self.configuring = Some(configure);
        previous
    }

    /// Ends the configuring of the binding numbered `configure`, if it is the
    /// one being configured.
    pub fn end_configure(&mut self, configure: usize)
        ensures
            final(self).configuring == (if old(self).configuring == Some(configure) {
                None
            } else {
                old(self).configuring
            }),
            final(self).range_subscribers@ == old(self).range_subscribers@,
            final(self).id_seq@ == old(self).id_seq@,
    {
        if self.configuring == Some(configure) {
            self.configuring = None;
        }
    }

    /// Subscribes to `range_id`, with a new subscription number.
    pub fn subscribe_range(&mut self, range_id: MidiRangeId) -> (r: SubscriptionId)
        requires
            old(self).wf(),
            old(self).id_seq@ < usize::MAX,
        ensures
            final(self).wf(),
            r.0 == old(self).id_seq@ + 1,
            final(self).range_subscribers@ == old(self).range_subscribers@.push((range_id, r.0)),
            final(self).configuring == old(self).configuring,
    {
        let subscription_id = self.id_seq.next();
        self.range_subscribers.push((range_id, subscription_id));
        SubscriptionId(subscription_id)
    }

    /// Ends the subscription numbered `id`.
    pub fn unsubscribe(&mut self, id: SubscriptionId)
        requires
            old(self).wf(),
        ensures
            final(self).wf(),
            final(self).configuring == old(self).configuring,
            final(self).id_seq@ == old(self).id_seq@,
            forall|k: int| 0 <= k < final(self).range_subscribers@.len() ==> (#[trigger] final(self).range_subscribers@[k]).1 != id.0,
            forall|k: int| 0 <= k < old(self).range_subscribers@.len() && (#[trigger] old(self).range_subscribers@[k]).1 != id.0
                ==> final(self).range_subscribers@.contains(old(self).range_subscribers@[k]),
            final(self).range_subscribers@.len() <= old(self).range_subscribers@.len(),
            subscription_removed(old(self).range_subscribers@, id.0, final(self).range_subscribers@),
    {
        let mut i: usize = 0;
        let mut found: Option<usize> = None;
        while i < self.range_subscribers.len()
            invariant
                i <= self.range_subscribers@.len(),
                found matches Some(f) ==> f < self.range_subscribers@.len() && self.range_subscribers@[f as int].1 == id.0,
                found is None ==> forall|k: int| 0 <= k < i ==> (#[trigger] self.range_subscribers@[k]).1 != id.0,
            decreases self.range_subscribers@.len() - i,
        {
            if found.is_none() && self.range_subscribers[i].1 == id.0 {
                found = Some(i);
            }
            i = i + 1;
        }
        match found {
            Some(f) => {
                let ghost before = self.range_subscribers@;
                self.range_subscribers.remove(f);
                assert(self.range_subscribers@ == before.remove(f as int));
                assert(before[f as int].1 == id.0);
                assert forall|k: int| 0 <= k < self.range_subscribers@.len() implies (#[trigger] self.range_subscribers@[k]).1 != id.0 by {
                    if k < f {
                        assert(self.range_subscribers@[k] == before[k]);
                    } else {
                        assert(self.range_subscribers@[k] == before[k + 1]);
                    }
                }
                assert forall|k: int| 0 <= k < before.len() && (#[trigger] before[k]).1 != id.0
                    implies self.range_subscribers@.contains(before[k]) by {
                    if k < f {
                        assert(self.range_subscribers@[k] == before[k]);
                    } else {
                        assert(k != f);
                        assert(self.range_subscribers@[k - 1] == before[k]);
                    }
                }
            },
            None => {
                assert forall|k: int| 0 <= k < self.range_subscribers@.len() && (#[trigger] self.range_subscribers@[k]).1 != id.0
                    implies self.range_subscribers@.contains(self.range_subscribers@[k]) by {
                }
            },
        }
    }

    /// Dispatches a MIDI message from the input `input_id`: a control change
    /// goes to every subscription of its controller, in the order they were
    /// made, and completes the binding being configured, if any. Other
    /// messages are ignored.
    pub fn on_message(&mut self, input_id: &String, data: &[u8]) -> (r: Option<MidiDispatch>)
        ensures
            match control_change_spec(data@) {
                None => r is None && final(self).configuring == old(self).configuring,
                Some((controller, value)) => r matches Some(d) && {
                    &&& d.range.0@ == input_id@
                    &&& d.range.1 == controller
                    &&& d.value == value
                    &&& d.subscribers@ == subscribers_of(old(self).range_subscribers@, d.range)
                    &&& d.configured == old(self).configuring
                    &&& final(self).configuring is None
                },
            },
            final(self).range_subscribers@ == old(self).range_subscribers@,
            final(self).id_seq@ == old(self).id_seq@,
    {
        match parse_control_change(data) {
            None => None,
            Some((controller, value)) => {
                let range_id = MidiRangeId(input_id.clone(), controller);
                let mut subscribers: Vec<usize> = Vec::new();
                let mut i: usize = 0;
                while i < self.range_subscribers.len()
                    invariant
                        i <= self.range_subscribers@.len(),
                        subscribers@ == subscribers_of(self.range_subscribers@.take(i as int), range_id),
                    decreases self.range_subscribers@.len() - i,
                {
                    let ghost subs = self.range_subscribers@;
                    assert(subs.take(i + 1).drop_last() =~= subs.take(i as int));
                    if range_eq(&self.range_subscribers[i].0, &range_id) {
                        subscribers.push(self.range_subscribers[i].1);
                    }
                    i = i + 1;
                }
                assert(self.range_subscribers@.take(self.range_subscribers@.len() as int) =~= self.range_subscribers@);
                let configured = self.configuring.take();
                Some(MidiDispatch { range: range_id, value, subscribers, configured })
            },
        }
    }
}

/// Every subscription number the broker hands out is new: it is larger than
/// every number already held, so no two subscriptions share one.
pub proof fn lemma_subscription_ids_unique(b: MidiBrokerCore)
    requires
        b.wf(),
    ensures
        forall|i: int, j: int| 0 <= i < b.range_subscribers@.len() && 0 <= j < b.range_subscribers@.len() && i != j
            ==> (#[trigger] b.range_subscribers@[i]).1 != (#[trigger] b.range_subscribers@[j]).1,
        forall|i: int| 0 <= i < b.range_subscribers@.len() ==> (#[trigger] b.range_subscribers@[i]).1 < b.id_seq@ + 1,
{
    assert forall|i: int, j: int| 0 <= i < b.range_subscribers@.len() && 0 <= j < b.range_subscribers@.len() && i != j
        implies (#[trigger] b.range_subscribers@[i]).1 != (#[trigger] b.range_subscribers@[j]).1 by {
        if i < j {
        } else {
        }
    }
}


/// Whether the page shows controls normally or for binding them to MIDI.
#[derive(Debug, Clone, Copy, PartialEq, Eq, Structural)]
pub enum MidiUiMode {
    Normal,
    Configure,
}

/// The events a MIDI-bindable control takes.
#[derive(Debug)]
pub enum MidiTargetMsg {
    /// The user asked to bind the control.
    Configure,
    /// The user asked to unbind the control, or configuring was cancelled.
    Unbind,
    /// A controller moved while the control was being configured.
    RangeConfigured(MidiRangeId, u8),
    /// The bound controller moved to a value.
    RangeChanged(u8),
}

/// Whether a control is bound to a controller.
#[derive(Debug, Clone, Copy, PartialEq, Eq, Structural)]
pub enum MidiBinding {
    Unbound,
    Configuring,
    Bound,
}

/// What the page must do for a control besides re-rendering.
#[derive(Debug)]
pub enum MidiTargetAction {
    Nothing,
    /// Ask the broker to configure a binding for this control.
    StartConfigure,
    /// Subscribe this control to the controller (dropping any binding task).
    Subscribe(MidiRangeId),
    /// Drop the binding task or subscription the control holds.
    Release,
}

/// What a control decided: whether to re-render, the controller value to
/// hand to the control (0 to 127), and what the page must do.
#[derive(Debug)]
pub struct MidiTargetUpdate {
    pub render: bool,
    pub emit: Option<u8>,
    pub action: MidiTargetAction,
}

/// A MIDI-bindable control: the page's mode and the control's binding.
#[derive(Debug, Clone, Copy, PartialEq, Eq, Structural)]
pub struct MidiRangeTarget {
    pub ui_mode: MidiUiMode,
    pub state: MidiBinding,
}

impl MidiRangeTarget {
    /// A control, unbound.
    pub fn new(ui_mode: MidiUiMode) -> (r: Self)
        ensures
            r == (MidiRangeTarget { ui_mode, state: MidiBinding::Unbound }),
    {
        MidiRangeTarget { ui_mode, state: MidiBinding::Unbound }
    }

    /// The page's mode changed: a control still being configured when the
    /// page returns to normal mode goes back to unbound. Always re-renders.
    pub fn change(&mut self, ui_mode: MidiUiMode) -> (r: bool)
        ensures
            r,
            final(self).ui_mode == ui_mode,
            final(self).state == (if ui_mode != old(self).ui_mode && old(self).state == MidiBinding::Configuring
                && ui_mode == MidiUiMode::Normal {
                MidiBinding::Unbound
            } else {
                old(self).state
            }),
    {
        let previous = self.ui_mode;
        self.ui_mode = ui_mode;

        if previous != self.ui_mode {
            match (self.state, self.ui_mode) {
                (MidiBinding::Configuring, MidiUiMode::Normal) => {
                    // if we're still in configure state when the UI changes
                    // back to normal mode, return to unbound mode:
                    self.state = MidiBinding::Unbound;
                },
                _ => {},
            }
        }

        true
    }

    /// Takes one event: configuring starts on request and ends in a binding
    /// when a controller moves; unbinding releases the binding; a bound
    /// controller's values are handed to the control.
    pub fn update(&mut self, msg: MidiTargetMsg) -> (r: MidiTargetUpdate)
        ensures
            final(self).ui_mode == old(self).ui_mode,
            match msg {
                MidiTargetMsg::Configure => final(self).state == MidiBinding::Configuring && r.render && r.emit is None
                    && r.action is StartConfigure,
                MidiTargetMsg::Unbind => final(self).state == MidiBinding::Unbound && r.render && r.emit is None
                    && r.action is Release,
                MidiTargetMsg::RangeConfigured(range, value) => if old(self).state == MidiBinding::Configuring {
                    &&& final(self).state == MidiBinding::Bound
                    &&& r.render
                    &&& r.emit == Some(value)
                    &&& r.action matches MidiTargetAction::Subscribe(rr) && same_range(rr, range)
                } else {
                    final(self).state == old(self).state && !r.render && r.emit is None && r.action is Nothing
                },
                MidiTargetMsg::RangeChanged(value) => final(self).state == old(self).state && !r.render
                    && r.emit == Some(value) && r.action is Nothing,
            },
    {
        match msg {
            MidiTargetMsg::Configure => {
                self.state = MidiBinding::Configuring;
                MidiTargetUpdate { render: true, emit: None, action: MidiTargetAction::StartConfigure }
            },
            MidiTargetMsg::Unbind => {
                self.state = MidiBinding::Unbound;
                MidiTargetUpdate { render: true, emit: None, action: MidiTargetAction::Release }
            },
            MidiTargetMsg::RangeConfigured(range_id, range_value) => {
                // only handle this message if we're still in configure state:
                if self.state == MidiBinding::Configuring {
                    self.state = MidiBinding::Bound;
                    MidiTargetUpdate {
                        render: true,
                        emit: Some(range_value),
                        action: MidiTargetAction::Subscribe(range_id),
                    }
                } else {
                    MidiTargetUpdate { render: false, emit: None, action: MidiTargetAction::Nothing }
                }
            },
            MidiTargetMsg::RangeChanged(range_value) => {
                MidiTargetUpdate { render: false, emit: Some(range_value), action: MidiTargetAction::Nothing }
            },
        }
    }

    /// The CSS classes of the overlay drawn over the control, if any: a
    /// "MIDI" badge on bound controls in normal mode, and the binding's
    /// state in configure mode.
    pub fn overlay_class(&self) -> (r: Option<&'static str>)
        ensures
            match (self.ui_mode, self.state) {
                (MidiUiMode::Normal, MidiBinding::Bound) => r matches Some(c)
                    && c@ == "midi-target-overlay midi-target-overlay-bound"@,
                (MidiUiMode::Normal, _) => r is None,
                (MidiUiMode::Configure, MidiBinding::Unbound) => r matches Some(c)
                    && c@ == "midi-target-overlay midi-target-cfg-overlay midi-target-cfg-overlay-unbound"@,
                (MidiUiMode::Configure, MidiBinding::Configuring) => r matches Some(c)
                    && c@ == "midi-target-overlay midi-target-cfg-overlay midi-target-cfg-overlay-configure"@,
                (MidiUiMode::Configure, MidiBinding::Bound) => r matches Some(c)
                    && c@ == "midi-target-overlay midi-target-cfg-overlay midi-target-cfg-overlay-bound"@,
            },
    {
        match self.ui_mode {
            MidiUiMode::Normal => {
                if self.state == MidiBinding::Bound {
                    Some("midi-target-overlay midi-target-overlay-bound")
                } else {
                    None
                }
            },
            MidiUiMode::Configure => Some(match self.state {
                MidiBinding::Unbound => "midi-target-overlay midi-target-cfg-overlay midi-target-cfg-overlay-unbound",
                MidiBinding::Configuring => "midi-target-overlay midi-target-cfg-overlay midi-target-cfg-overlay-configure",
                MidiBinding::Bound => "midi-target-overlay midi-target-cfg-overlay midi-target-cfg-overlay-bound",
            }),
        }
    }

    /// Whether a press on the configure overlay unbinds (the right button
    /// alone) rather than starts configuring.
    pub fn press_unbinds(buttons: u16) -> (r: bool)
        ensures
            r == (buttons == 2),
    {
        buttons == 2
    }
}

} // verus!
