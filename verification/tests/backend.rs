use gtk_layer_sound::connect::{ConnectAction, ConnectEvent, Connector, ContextState};
use gtk_layer_sound::device::{
    position_of_index, position_of_name, AudioDevice, EndpointKind, EndpointState,
};
use gtk_layer_sound::level::FULL_SCALE;
use gtk_layer_sound::listing::{defaults_read, DeviceInfo, DeviceListing, ListEvent};
use gtk_layer_sound::meter::{
    microphone_level, native_samples, Meter, MeterAction, MeterEvent, MeterPeek,
};
use gtk_layer_sound::reply::wait_success;
use gtk_layer_sound::session::{
    RefreshAction, RefreshEvent, SelectAction, SelectEvent, Selection, Session,
};
use gtk_layer_sound::streams::{
    listing_message, move_streams, MoveAction, MoveEvent, StreamListing, NO_STREAM,
};
use gtk_layer_sound::volume::{Volume, LIMIT_UNITS};

fn device(index: u32, name: &str) -> AudioDevice {
    AudioDevice {
        index,
        channels: 2,
        name: name.into(),
        label: format!("label of {name}"),
        volume: Volume { units: 65536 },
        muted: false,
    }
}

fn info(index: u32, name: Option<&str>, monitor_of_sink: Option<u32>) -> DeviceInfo {
    DeviceInfo {
        index,
        channels: 1,
        name: name.map(|name| name.to_string()),
        description: name.map(|name| format!("about {name}")),
        volume: Volume { units: 40 },
        muted: true,
        monitor_of_sink,
    }
}

fn error<T>(result: Result<T, String>) -> String {
    match result {
        Ok(_) => panic!("expected an error"),
        Err(message) => message,
    }
}

#[test]
fn lookups_find_the_first_device() {
    let devices = vec![device(3, "a"), device(5, "b"), device(5, "b")];
    assert_eq!(position_of_index(&devices, 5), Some(1));
    assert_eq!(position_of_index(&devices, 4), None);
    assert_eq!(position_of_name(&devices, &"b".to_string()), Some(1));
    assert_eq!(position_of_name(&devices, &"c".to_string()), None);
}

#[test]
fn copies_are_equal() {
    let state = EndpointState {
        kind: EndpointKind::Input,
        devices: vec![device(1, "x"), device(2, "y")],
        default_name: Some("y".into()),
    };
    assert_eq!(state.clone(), state);
}

#[test]
fn answers_become_results() {
    assert_eq!(wait_success(Some(true), "设置音量"), Ok(()));
    assert_eq!(
        wait_success(Some(false), "设置音量"),
        Err("PulseAudio 拒绝设置音量".to_string())
    );
    assert_eq!(
        wait_success(None, "设置音量"),
        Err("等待设置音量完成超时".to_string())
    );
}

#[test]
fn outputs_are_listed_with_fallback_names() {
    let mut listing = DeviceListing::new(EndpointKind::Output);
    assert!(!listing.receive(ListEvent::Item(info(1, Some("one"), None))));
    assert!(!listing.receive(ListEvent::Item(info(2, None, Some(9)))));
    assert!(listing.receive(ListEvent::End));
    let devices = listing.finish(true).unwrap();
    assert_eq!(devices.len(), 2);
    assert_eq!(devices[0].name, "one");
    assert_eq!(devices[0].label, "about one");
    assert_eq!(devices[0].volume, Volume { units: 40 });
    assert!(devices[0].muted);
    assert_eq!(devices[1].index, 2);
    assert_eq!(devices[1].channels, 1);
    assert_eq!(devices[1].name, "");
    assert_eq!(devices[1].label, "未命名输出");
}

#[test]
fn inputs_leave_out_monitors() {
    let mut listing = DeviceListing::new(EndpointKind::Input);
    listing.receive(ListEvent::Item(info(1, Some("mic"), None)));
    listing.receive(ListEvent::Item(info(2, Some("monitor"), Some(0))));
    listing.receive(ListEvent::Item(info(3, None, None)));
    assert!(listing.receive(ListEvent::Error));
    let devices = listing.finish(true).unwrap();
    let indices: Vec<u32> = devices.iter().map(|device| device.index).collect();
    assert_eq!(indices, vec![1, 3]);
    assert_eq!(devices[1].label, "未命名麦克风");
}

#[test]
fn queries_time_out() {
    assert_eq!(
        error(DeviceListing::new(EndpointKind::Output).finish(false)),
        "读取 PulseAudio 输出设备超时"
    );
    assert_eq!(
        error(DeviceListing::new(EndpointKind::Input).finish(false)),
        "读取 PulseAudio 输入设备超时"
    );
    assert_eq!(error(defaults_read(None)), "读取 PulseAudio 默认设备超时");
    let names = (Some("sink".to_string()), None);
    assert_eq!(defaults_read(Some(names.clone())), Ok(names));
}

/// Polls with `states`, one after the other, and returns the outcome with the number of looks.
fn connect(states: &mut dyn FnMut() -> ContextState) -> (Result<(), String>, bool, usize, usize) {
    let mut connector = Connector::new();
    assert!(matches!(
        connector.step(ConnectEvent::MainloopCreated(true)),
        ConnectAction::CreateContext
    ));
    assert!(matches!(
        connector.step(ConnectEvent::ContextCreated(true)),
        ConnectAction::RequestConnection
    ));
    assert!(matches!(
        connector.step(ConnectEvent::ConnectionRequested(Ok(()))),
        ConnectAction::StartMainloop
    ));
    let mut action = connector.step(ConnectEvent::MainloopStarted(Ok(())));
    let mut looks = 0;
    let mut pauses = 0;
    loop {
        match action {
            ConnectAction::Poll { pause } => {
                looks += 1;
                if pause {
                    pauses += 1;
                }
                action = connector.step(ConnectEvent::Polled(states()));
            }
            ConnectAction::Finish {
                stop_mainloop,
                result,
            } => return (result, stop_mainloop, looks, pauses),
            _ => panic!("unexpected action"),
        }
    }
}

#[test]
fn connecting_waits_until_the_context_is_ready() {
    let mut left = 3;
    let (result, stop, looks, pauses) = connect(&mut || {
        if left == 0 {
            ContextState::Ready
        } else {
            left -= 1;
            ContextState::Connecting
        }
    });
    assert_eq!(result, Ok(()));
    assert!(!stop);
    assert_eq!((looks, pauses), (5, 3));
}

#[test]
fn connecting_gives_up() {
    let (result, stop, looks, pauses) = connect(&mut || ContextState::Authorizing);
    assert_eq!(error(result), "等待 PulseAudio context 超时");
    assert!(stop);
    assert_eq!((looks, pauses), (51, 50));
    for broken in [ContextState::Failed, ContextState::Terminated] {
        let (result, stop, looks, _) = connect(&mut || broken);
        assert_eq!(error(result), "PulseAudio context 已断开");
        assert!(stop);
        assert_eq!(looks, 1);
    }
}

#[test]
fn context_that_ripens_at_the_last_look_counts() {
    let mut looks = 0;
    let (result, _, _, _) = connect(&mut || {
        looks += 1;
        if looks == 51 {
            ContextState::Ready
        } else {
            ContextState::SettingName
        }
    });
    assert_eq!(result, Ok(()));
}

#[test]
fn context_that_breaks_after_being_ready_times_out() {
    let mut first = true;
    let (result, stop, looks, _) = connect(&mut || {
        if first {
            first = false;
            ContextState::Ready
        } else {
            ContextState::Failed
        }
    });
    assert_eq!(error(result), "等待 PulseAudio context 超时");
    assert!(stop);
    assert_eq!(looks, 2);
}

#[test]
fn connecting_fails_early() {
    let cases = vec![
        (
            ConnectEvent::MainloopCreated(false),
            "无法创建 PulseAudio threaded mainloop",
        ),
        (
            ConnectEvent::ContextCreated(false),
            "无法创建 PulseAudio context",
        ),
        (ConnectEvent::ConnectionRequested(Err("no".into())), "no"),
        (ConnectEvent::MainloopStarted(Err("never".into())), "never"),
    ];
    for (event, expected) in cases {
        match Connector::new().step(event) {
            ConnectAction::Finish {
                stop_mainloop,
                result,
            } => {
                assert!(!stop_mainloop);
                assert_eq!(error(result), expected);
            }
            _ => panic!("expected the end"),
        }
    }
}

/// Moves `listed` streams; `answer` confirms each move. Returns what was moved and the outcome.
fn move_all(
    kind: EndpointKind,
    reports: Vec<StreamListing>,
    answer: &dyn Fn(u32) -> Option<bool>,
) -> (Vec<u32>, Result<(), String>) {
    let mut messages = reports.into_iter().map(listing_message);
    let mut moved = Vec::new();
    let mut action = MoveAction::Receive;
    loop {
        action = match action {
            MoveAction::Receive => move_streams(
                kind,
                match messages.next() {
                    Some(message) => MoveEvent::Received(message),
                    None => MoveEvent::TimedOut,
                },
            ),
            MoveAction::Move(stream) => {
                moved.push(stream);
                move_streams(kind, MoveEvent::Moved(answer(stream)))
            }
            MoveAction::Finish(result) => return (moved, result),
        }
    }
}

#[test]
fn all_streams_are_moved() {
    let (moved, result) = move_all(
        EndpointKind::Output,
        vec![
            StreamListing::Item(4),
            StreamListing::Item(2),
            StreamListing::End,
        ],
        &|_| Some(true),
    );
    assert_eq!(moved, vec![4, 2]);
    assert_eq!(result, Ok(()));
}

#[test]
fn a_refused_move_stops_the_others() {
    let reports = || {
        vec![
            StreamListing::Item(4),
            StreamListing::Item(2),
            StreamListing::Item(9),
            StreamListing::End,
        ]
    };
    let (moved, result) = move_all(EndpointKind::Output, reports(), &|stream| Some(stream != 2));
    assert_eq!(moved, vec![4, 2]);
    assert_eq!(error(result), "PulseAudio 拒绝迁移播放流");
    let (moved, result) = move_all(EndpointKind::Input, reports(), &|_| None);
    assert_eq!(moved, vec![4]);
    assert_eq!(error(result), "等待迁移录音流完成超时");
    let (_, result) = move_all(EndpointKind::Input, reports(), &|_| Some(false));
    assert_eq!(error(result), "PulseAudio 拒绝迁移录音流");
    let (_, result) = move_all(EndpointKind::Output, reports(), &|_| None);
    assert_eq!(error(result), "等待迁移播放流完成超时");
}

#[test]
fn a_broken_enumeration_is_reported() {
    let cases = [
        (EndpointKind::Output, StreamListing::Error, "枚举播放流失败"),
        (EndpointKind::Input, StreamListing::Error, "枚举录音流失败"),
        (EndpointKind::Output, StreamListing::Item(NO_STREAM), "枚举播放流失败"),
    ];
    for (kind, report, expected) in cases {
        let (moved, result) = move_all(kind, vec![StreamListing::Item(1), report], &|_| Some(true));
        assert_eq!(moved, vec![1]);
        assert_eq!(error(result), expected);
    }
    let (_, result) = move_all(EndpointKind::Output, vec![], &|_| Some(true));
    assert_eq!(error(result), "枚举播放流超时");
    let (_, result) = move_all(EndpointKind::Input, vec![], &|_| Some(true));
    assert_eq!(error(result), "枚举录音流超时");
}

#[test]
fn meter_replaces_its_stream() {
    let mut meter = Meter::stopped();
    assert!(matches!(
        meter.step(MeterEvent::Requested),
        MeterAction::CreateStream { disconnect: false }
    ));
    assert!(matches!(
        meter.step(MeterEvent::StreamCreated(true)),
        MeterAction::ConnectRecording
    ));
    assert!(matches!(
        meter.step(MeterEvent::RecordingConnected(Ok(()))),
        MeterAction::Finish(Ok(()))
    ));
    assert!(meter.running);
    assert!(matches!(
        meter.step(MeterEvent::Requested),
        MeterAction::CreateStream { disconnect: true }
    ));
    assert!(!meter.running);
    match meter.step(MeterEvent::StreamCreated(false)) {
        MeterAction::Finish(result) => assert_eq!(error(result), "无法创建麦克风调试流"),
        _ => panic!("expected the end"),
    }
    assert!(!meter.running);
    match meter.step(MeterEvent::RecordingConnected(Err("busy".into()))) {
        MeterAction::Finish(result) => assert_eq!(error(result), "busy"),
        _ => panic!("expected the end"),
    }
    assert!(!meter.running);
}

#[test]
fn captured_bytes_become_samples() {
    let mut bytes: Vec<u8> = Vec::new();
    for sample in [258i16, -2, i16::MIN, i16::MAX] {
        bytes.extend_from_slice(&sample.to_ne_bytes());
    }
    bytes.push(77);
    assert_eq!(native_samples(&bytes), vec![258, -2, i16::MIN, i16::MAX]);
    assert!(native_samples(&[1]).is_empty());
}

#[test]
fn microphone_level_depends_on_what_was_found() {
    let loud = i16::MAX.to_ne_bytes();
    let reading = microphone_level(MeterPeek::Data(&loud));
    assert!(reading.discard);
    assert_eq!(reading.level.unwrap().attos, FULL_SCALE);
    let reading = microphone_level(MeterPeek::Data(&[]));
    assert!(reading.discard);
    assert_eq!(reading.level.unwrap().attos, 0);
    let reading = microphone_level(MeterPeek::Hole);
    assert!(reading.discard);
    assert_eq!(reading.level.unwrap().attos, 0);
    for quiet in [MeterPeek::NoStream, MeterPeek::Empty] {
        let reading = microphone_level(quiet);
        assert!(!reading.discard);
        assert_eq!(reading.level.unwrap().attos, 0);
    }
    let reading = microphone_level(MeterPeek::Failed("lost".into()));
    assert!(!reading.discard);
    assert_eq!(error(reading.level), "lost");
}

/// A session that has read two outputs and one input.
fn session() -> Session {
    let mut session = Session::new();
    assert!(matches!(
        session.refresh(RefreshEvent::OutputsListed(Ok(vec![
            device(1, "front"),
            device(2, "back")
        ]))),
        RefreshAction::ListInputs
    ));
    assert!(matches!(
        session.refresh(RefreshEvent::InputsListed(Ok(vec![device(5, "mic")]))),
        RefreshAction::ReadDefaults
    ));
    let action = session.refresh(RefreshEvent::DefaultsRead(Ok((
        Some("back".to_string()),
        Some("mic".to_string()),
    ))));
    match action {
        RefreshAction::StartMeter(source) => assert_eq!(source, "mic"),
        _ => panic!("expected the meter to start"),
    }
    session
}

#[test]
fn refresh_reports_both_endpoints() {
    let mut session = session();
    match session.refresh(RefreshEvent::MeterStarted(Ok(()))) {
        RefreshAction::Finish(Ok(states)) => {
            assert_eq!(states.len(), 2);
            assert_eq!(states[0].kind, EndpointKind::Output);
            assert_eq!(states[0].devices.len(), 2);
            assert_eq!(states[0].default_name, Some("back".to_string()));
            assert_eq!(states[1].kind, EndpointKind::Input);
            assert_eq!(states[1].devices, vec![device(5, "mic")]);
            assert_eq!(states[1].default_name, Some("mic".to_string()));
        }
        _ => panic!("expected both endpoints"),
    }
    match session.refresh(RefreshEvent::DefaultsRead(Ok((None, None)))) {
        RefreshAction::Finish(Ok(states)) => {
            assert_eq!(states[0].default_name, None);
            assert_eq!(states[1].default_name, None);
        }
        _ => panic!("expected both endpoints"),
    }
}

#[test]
fn refresh_passes_errors_on_and_keeps_the_devices() {
    let events = vec![
        RefreshEvent::OutputsListed(Err("a".into())),
        RefreshEvent::InputsListed(Err("a".into())),
        RefreshEvent::DefaultsRead(Err("a".into())),
        RefreshEvent::MeterStarted(Err("a".into())),
    ];
    for event in events {
        let mut session = session();
        match session.refresh(event) {
            RefreshAction::Finish(result) => assert_eq!(error(result), "a"),
            _ => panic!("expected the end"),
        }
        assert_eq!(session.endpoint(EndpointKind::Output).devices.len(), 2);
        assert_eq!(session.endpoint(EndpointKind::Input).devices.len(), 1);
    }
}

#[test]
fn selecting_an_output() {
    let mut session = session();
    let selection = session.select(EndpointKind::Output, 1).unwrap();
    assert_eq!(selection.name, "front");
    assert!(matches!(
        session.continue_selection(&selection, SelectEvent::DefaultSet(Some(true))),
        SelectAction::MoveStreams
    ));
    assert_eq!(
        session.endpoint(EndpointKind::Output).default_name,
        Some("back".to_string())
    );
    assert!(matches!(
        session.continue_selection(&selection, SelectEvent::StreamsMoved(Ok(()))),
        SelectAction::Finish(Ok(()))
    ));
    assert_eq!(
        session.endpoint(EndpointKind::Output).default_name,
        Some("front".to_string())
    );
    assert_eq!(
        session.endpoint(EndpointKind::Input).default_name,
        Some("mic".to_string())
    );
}

#[test]
fn selecting_an_input_restarts_the_meter() {
    let mut session = session();
    let selection = session.select(EndpointKind::Input, 5).unwrap();
    assert!(matches!(
        session.continue_selection(&selection, SelectEvent::StreamsMoved(Ok(()))),
        SelectAction::StartMeter
    ));
    match session.start_meter(MeterEvent::Requested) {
        MeterAction::CreateStream { disconnect } => assert!(!disconnect),
        _ => panic!("expected a new stream"),
    }
    assert!(matches!(
        session.continue_selection(&selection, SelectEvent::MeterStarted(Ok(()))),
        SelectAction::Finish(Ok(()))
    ));
}

#[test]
fn selection_failures() {
    let mut session = session();
    assert_eq!(
        error(session.select(EndpointKind::Output, 5)),
        "选择的音频设备已不可用，请刷新"
    );
    let selection = Selection {
        kind: EndpointKind::Output,
        index: 1,
        name: "front".to_string(),
    };
    let cases = vec![
        (
            SelectEvent::DefaultSet(Some(false)),
            "PulseAudio 拒绝切换默认设备",
        ),
        (SelectEvent::DefaultSet(None), "等待切换默认设备完成超时"),
        (SelectEvent::StreamsMoved(Err("stuck".into())), "stuck"),
        (SelectEvent::MeterStarted(Err("deaf".into())), "deaf"),
    ];
    for (event, expected) in cases {
        match session.continue_selection(&selection, event) {
            SelectAction::Finish(result) => assert_eq!(error(result), expected),
            _ => panic!("expected the end"),
        }
        assert_eq!(
            session.endpoint(EndpointKind::Output).default_name,
            Some("back".to_string())
        );
    }
}

#[test]
fn volume_reads_back() {
    let mut session = session();
    let request = session
        .set_volume(EndpointKind::Output, 2, Volume { units: 200_000 })
        .unwrap();
    assert_eq!(request.channels, 2);
    assert_eq!(request.volume.units, LIMIT_UNITS);
    assert_eq!(
        error(session.set_volume(EndpointKind::Input, 2, Volume { units: 1 })),
        "选择的音频设备已不可用，请刷新"
    );
    let volume = Volume { units: 123 };
    assert_eq!(
        session.volume_set(EndpointKind::Output, 2, volume, Some(true)),
        Ok(())
    );
    assert_eq!(
        session.selected(EndpointKind::Output, 2).unwrap().volume,
        volume
    );
    assert_eq!(
        session.selected(EndpointKind::Output, 1).unwrap().volume.units,
        65536
    );
    let other = Volume { units: 7 };
    assert_eq!(
        error(session.volume_set(EndpointKind::Output, 2, other, Some(false))),
        "PulseAudio 拒绝设置音量"
    );
    assert_eq!(
        error(session.volume_set(EndpointKind::Output, 2, other, None)),
        "等待设置音量完成超时"
    );
    assert_eq!(
        session.selected(EndpointKind::Output, 2).unwrap().volume,
        volume
    );
    assert_eq!(
        session.volume_set(EndpointKind::Output, 2, other, Some(true)),
        Ok(())
    );
    assert_eq!(
        session.selected(EndpointKind::Output, 2).unwrap().volume,
        other
    );
}

#[test]
fn muting_reads_back() {
    let mut session = session();
    assert_eq!(
        session.mute_set(EndpointKind::Input, 5, true, Some(true)),
        Ok(())
    );
    assert!(session.selected(EndpointKind::Input, 5).unwrap().muted);
    assert!(!session.selected(EndpointKind::Output, 1).unwrap().muted);
    assert_eq!(
        session.mute_set(EndpointKind::Input, 99, true, Some(true)),
        Ok(())
    );
    assert_eq!(
        error(session.mute_set(EndpointKind::Input, 5, false, Some(false))),
        "PulseAudio 拒绝设置静音"
    );
    assert_eq!(
        error(session.mute_set(EndpointKind::Input, 5, false, None)),
        "等待设置静音完成超时"
    );
    assert!(session.selected(EndpointKind::Input, 5).unwrap().muted);
}
