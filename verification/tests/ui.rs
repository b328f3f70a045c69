use mixlab::drag::accepts_buttons;
use mixlab::drag::DragEvent;
use mixlab::drag::DragNotice;
use mixlab::drag::DragTarget;
use mixlab::drag::DragTargetMsg;
use mixlab::drag::DragUpdate;
use mixlab::library::size_unit;
use mixlab::library::SizeUnit;
use mixlab::library::UploadEvent;
use mixlab::library::UploadProgress;
use mixlab::library::UploadRegistry;
use mixlab::midi::parse_control_change;
use mixlab::midi::MidiBinding;
use mixlab::midi::MidiBrokerCore;
use mixlab::midi::MidiRangeId;
use mixlab::midi::MidiRangeTarget;
use mixlab::midi::MidiTargetAction;
use mixlab::midi::MidiTargetMsg;
use mixlab::midi::MidiUiMode;
use mixlab::midi::SubscriptionId;
use mixlab::monitor::MonitorAction;
use mixlab::monitor::MonitorMsg;
use mixlab::monitor::MonitorState;
use mixlab::notify::NotifyCore;
use mixlab::protocol::Microseconds;
use mixlab::protocol::ModuleId;
use mixlab::protocol::PerformanceAccount;
use mixlab::protocol::PerformanceMetric;
use mixlab::protocol::StreamOutputLiveStatus;
use mixlab::protocol::TemporalWarningStatus;
use mixlab::status::accounts_slowest_first;
use mixlab::status::lag_class;
use mixlab::status::live_class;
use mixlab::status::realtime_class;
use mixlab::status::total_tick_time;
use mixlab::status::warning_class;
use mixlab::status::Tab;

fn account(module: usize, micros: u64) -> (PerformanceAccount, PerformanceMetric) {
    let account = if module == 0 { PerformanceAccount::Engine } else { PerformanceAccount::Module(ModuleId(module)) };
    (account, PerformanceMetric { last: Microseconds(micros) })
}

#[test]
fn drag_target_reports_offsets_from_the_press() {
    let mut t = DragTarget::new();
    let r = t.update(DragTargetMsg::MouseDown { page_x: 100, page_y: 200, offset_x: 5, offset_y: 7 });
    assert_eq!(
        r,
        DragUpdate { render: false, notice: Some(DragNotice::Start(DragEvent { offset_x: 5, offset_y: 7 })), listen: true }
    );
    let r = t.update(DragTargetMsg::MouseMove { page_x: 90, page_y: 230 });
    assert_eq!(r.notice, Some(DragNotice::Drag(DragEvent { offset_x: -5, offset_y: 37 })));
    assert!(!r.render && !r.listen);
    // a second press during the drag is ignored
    let r = t.update(DragTargetMsg::MouseDown { page_x: 0, page_y: 0, offset_x: 0, offset_y: 0 });
    assert_eq!(r, DragUpdate { render: false, notice: None, listen: false });
    let r = t.update(DragTargetMsg::MouseUp { page_x: 100, page_y: 200 });
    assert_eq!(r, DragUpdate { render: true, notice: Some(DragNotice::End(DragEvent { offset_x: 5, offset_y: 7 })), listen: false });
    assert!(t.drag_state.is_none());
}

#[test]
fn drag_target_without_drag() {
    let mut t = DragTarget::new();
    assert_eq!(t.update(DragTargetMsg::MouseMove { page_x: 1, page_y: 1 }), DragUpdate { render: false, notice: None, listen: false });
    assert_eq!(t.update(DragTargetMsg::MouseUp { page_x: 1, page_y: 1 }), DragUpdate { render: true, notice: None, listen: false });
    assert!(accepts_buttons(1));
    assert!(!accepts_buttons(3));
    assert!(!accepts_buttons(2));
}

#[test]
fn monitor_plays_and_batches_fragments() {
    let mut m = MonitorState::Stopped;
    let r = m.update(MonitorMsg::OverlayClick);
    assert!(r.render && r.action == MonitorAction::StartLoading && r.append.is_none());
    assert!(matches!(m, MonitorState::Loading));

    // data before the source opens is dropped
    let r = m.update(MonitorMsg::InitData(vec![9]));
    assert!(r.append.is_none());

    let r = m.update(MonitorMsg::SourceOpen);
    assert_eq!(r.action, MonitorAction::StartPlaying);
    assert!(!m.has_mux());

    let r = m.update(MonitorMsg::InitData(vec![1, 2]));
    assert_eq!(r.append, Some(vec![1, 2]));
    assert!(m.has_mux());

    // the buffer is busy: frames wait
    assert!(m.update(MonitorMsg::FrameData(vec![3])).append.is_none());
    assert!(m.update(MonitorMsg::FrameData(vec![4, 5])).append.is_none());

    // ready again: everything waiting goes in one batch
    let r = m.update(MonitorMsg::SourceBufferUpdate);
    assert_eq!(r.append, Some(vec![3, 4, 5]));
    assert_eq!(r.action, MonitorAction::Nothing);

    // ready with nothing waiting: the next frame goes straight in
    assert!(m.update(MonitorMsg::SourceBufferUpdate).append.is_none());
    assert_eq!(m.update(MonitorMsg::FrameData(vec![6])).append, Some(vec![6]));

    let r = m.update(MonitorMsg::OverlayClick);
    assert_eq!(r.action, MonitorAction::Stop);
    assert!(matches!(m, MonitorState::Stopped));
}

#[test]
fn control_change_parsing() {
    assert_eq!(parse_control_change(&[0xb3, 7, 100]), Some((7, 100)));
    assert_eq!(parse_control_change(&[0xb0, 0xff, 0x80]), Some((0x7f, 0)));
    assert_eq!(parse_control_change(&[0x90, 60, 100]), None);
    assert_eq!(parse_control_change(&[0xb0, 1]), None);
    assert_eq!(parse_control_change(&[0xb0, 1, 2, 3]), None);
}

#[test]
fn midi_broker_dispatches_to_subscribers_in_order() {
    let mut b = MidiBrokerCore::new();
    let dev = "dev".to_string();
    let s1 = b.subscribe_range(MidiRangeId(dev.clone(), 7));
    let s2 = b.subscribe_range(MidiRangeId("other".to_string(), 7));
    let s3 = b.subscribe_range(MidiRangeId(dev.clone(), 7));
    assert_eq!((s1, s2, s3), (SubscriptionId(1), SubscriptionId(2), SubscriptionId(3)));

    assert_eq!(b.configure(40), None);
    assert_eq!(b.configure(41), Some(40));

    let d = b.on_message(&dev, &[0xb1, 7, 64]).unwrap();
    assert_eq!(d.range, MidiRangeId(dev.clone(), 7));
    assert_eq!(d.value, 64);
    assert_eq!(d.subscribers, vec![1, 3]);
    assert_eq!(d.configured, Some(41));
    assert_eq!(b.configuring, None);

    b.unsubscribe(s1);
    let d = b.on_message(&dev, &[0xb1, 7, 65]).unwrap();
    assert_eq!(d.subscribers, vec![3]);
    assert_eq!(d.configured, None);

    assert!(b.on_message(&dev, &[0x80, 7, 65]).is_none());
    assert_eq!(SubscriptionId::min(), SubscriptionId(1));
    assert_eq!(SubscriptionId::max(), SubscriptionId(usize::MAX));
}

#[test]
fn midi_broker_end_configure_only_ends_its_own() {
    let mut b = MidiBrokerCore::new();
    b.configure(5);
    b.end_configure(6);
    assert_eq!(b.configuring, Some(5));
    b.end_configure(5);
    assert_eq!(b.configuring, None);
}

#[test]
fn midi_target_binding_life_cycle() {
    let mut t = MidiRangeTarget::new(MidiUiMode::Configure);
    assert_eq!(t.overlay_class(), Some("midi-target-overlay midi-target-cfg-overlay midi-target-cfg-overlay-unbound"));
    let r = t.update(MidiTargetMsg::Configure);
    assert!(r.render && matches!(r.action, MidiTargetAction::StartConfigure));
    assert_eq!(t.state, MidiBinding::Configuring);
    assert_eq!(t.overlay_class(), Some("midi-target-overlay midi-target-cfg-overlay midi-target-cfg-overlay-configure"));

    let r = t.update(MidiTargetMsg::RangeConfigured(MidiRangeId("x".to_string(), 3), 99));
    assert!(r.render);
    assert_eq!(r.emit, Some(99));
    assert!(matches!(r.action, MidiTargetAction::Subscribe(MidiRangeId(ref s, 3)) if s == "x"));
    assert_eq!(t.state, MidiBinding::Bound);

    // a second configured controller is ignored once bound
    let r = t.update(MidiTargetMsg::RangeConfigured(MidiRangeId("y".to_string(), 4), 1));
    assert!(!r.render && r.emit.is_none() && matches!(r.action, MidiTargetAction::Nothing));

    let r = t.update(MidiTargetMsg::RangeChanged(12));
    assert_eq!(r.emit, Some(12));

    assert!(t.change(MidiUiMode::Normal));
    assert_eq!(t.overlay_class(), Some("midi-target-overlay midi-target-overlay-bound"));

    let r = t.update(MidiTargetMsg::Unbind);
    assert!(matches!(r.action, MidiTargetAction::Release));
    assert_eq!(t.overlay_class(), None);
    assert!(MidiRangeTarget::press_unbinds(2));
    assert!(!MidiRangeTarget::press_unbinds(1));
}

#[test]
fn midi_target_configuring_is_cancelled_by_normal_mode() {
    let mut t = MidiRangeTarget::new(MidiUiMode::Configure);
    t.update(MidiTargetMsg::Configure);
    t.change(MidiUiMode::Normal);
    assert_eq!(t.state, MidiBinding::Unbound);
    assert_eq!(t.ui_mode, MidiUiMode::Normal);
}

#[test]
fn status_classes() {
    assert_eq!(realtime_class(true), "status-light status-light-green-active");
    assert_eq!(realtime_class(false), "status-light");
    assert_eq!(lag_class(None), "status-light");
    assert_eq!(lag_class(Some(TemporalWarningStatus::Active)), "status-light status-light-red-active");
    assert_eq!(lag_class(Some(TemporalWarningStatus::Recent)), "status-light status-light-red");
    assert_eq!(live_class(StreamOutputLiveStatus::Offline), "status-light");
    assert_eq!(live_class(StreamOutputLiveStatus::Connecting), "status-light status-light-green");
    assert_eq!(live_class(StreamOutputLiveStatus::Live), "status-light status-light-green-active");
    assert_eq!(warning_class(true), "status-light status-light-red-active");
    assert_eq!(warning_class(false), "status-light");
    assert_eq!(Tab::Workspace.label(), "Workspace");
    assert_eq!(Tab::MediaLibrary.label(), "Media Library");
    assert_eq!(Tab::Workspace.class(Tab::Workspace), "tab-bar-tab tab-bar-active");
    assert_eq!(Tab::MediaLibrary.class(Tab::Workspace), "tab-bar-tab");
}

#[test]
fn tick_time_totals_and_ordering() {
    let accounts = vec![account(0, 300), account(1, 50), account(2, 900), account(3, 300), account(4, 50)];
    assert_eq!(total_tick_time(&accounts), 1600);
    assert_eq!(total_tick_time(&vec![]), 0);
    let sorted = accounts_slowest_first(&accounts);
    assert_eq!(sorted, vec![account(2, 900), account(0, 300), account(3, 300), account(1, 50), account(4, 50)]);
    assert!(accounts_slowest_first(&vec![]).is_empty());
}

#[test]
fn size_units() {
    assert_eq!(size_unit(0), SizeUnit::Bytes);
    assert_eq!(size_unit(1), SizeUnit::Byte);
    assert_eq!(size_unit(1023), SizeUnit::Bytes);
    assert_eq!(size_unit(1024), SizeUnit::KiB);
    assert_eq!(size_unit(1024 * 1024 - 1), SizeUnit::KiB);
    assert_eq!(size_unit(1024 * 1024), SizeUnit::MiB);
    assert_eq!(size_unit(1024 * 1024 * 1024), SizeUnit::GiB);
}

#[test]
fn upload_registry_tracks_progress_until_complete() {
    let mut reg = UploadRegistry::new();
    let a = reg.start("a.mp4".to_string());
    let b = reg.start("b.wav".to_string());
    assert_eq!((a, b), (1, 2));
    let p = UploadProgress { uploaded: 10, total: 100 };
    assert!(reg.on_event(a, UploadEvent::Progress(p)));
    assert_eq!(reg.uploads[&a].progress, Some(p));
    assert_eq!(reg.uploads[&a].filename, "a.mp4");
    assert_eq!(reg.uploads[&b].progress, None);
    assert!(!reg.on_event(9, UploadEvent::Progress(p)));
    assert!(reg.on_event(a, UploadEvent::Complete));
    assert_eq!(reg.uploads.keys().copied().collect::<Vec<_>>(), vec![b]);
}

#[test]
fn notify_tells_new_subscribers_the_latest_value() {
    let mut n: NotifyCore<String> = NotifyCore::new();
    let (h1, initial) = n.subscribe();
    assert_eq!(initial, None);
    assert_eq!(n.broadcast("one".to_string()), vec![h1.id]);
    let (h2, initial) = n.subscribe();
    assert_eq!(initial, Some("one".to_string()));
    assert_eq!(n.broadcast("two".to_string()), vec![h1.id, h2.id]);
    n.deregister(h1);
    assert_eq!(n.broadcast("three".to_string()), vec![h2.id]);
    assert_eq!(n.value, Some("three".to_string()));
}
