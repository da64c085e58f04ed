use std::sync::{Arc, Mutex};

use gtk_layer_sound::controls::{meter_display, MeterState};
use gtk_layer_sound::device::{AudioDevice, EndpointKind, EndpointState};
use gtk_layer_sound::level::{rms_level, Level, FULL_SCALE, SIGNAL_FLOOR};
use gtk_layer_sound::volume::{Volume, NORMAL_UNITS};
use gtk_layer_sound::worker::{
    run_command_no_refresh, send_level, send_snapshot, serve, start, AudioBackend, AudioCommand,
    AudioEvent, WorkerInput,
};

fn volume(value: f64) -> Volume {
    Volume {
        units: (value * NORMAL_UNITS as f64) as u32,
    }
}

fn volume_value(volume: Volume) -> f64 {
    volume.units as f64 / NORMAL_UNITS as f64
}

fn level(value: f64) -> Level {
    Level {
        attos: (value * FULL_SCALE as f64) as u64,
    }
}

fn level_value(level: Level) -> f64 {
    level.attos as f64 / FULL_SCALE as f64
}

struct FakeBackend {
    calls: Arc<Mutex<Vec<String>>>,
    fail_select: bool,
}

impl AudioBackend for FakeBackend {
    fn refresh(&mut self) -> Result<Vec<EndpointState>, String> {
        Ok(vec![EndpointState {
            kind: EndpointKind::Output,
            devices: vec![AudioDevice {
                index: 7,
                channels: 2,
                name: "fake.sink".into(),
                label: "Fake speaker".into(),
                volume: volume(0.5),
                muted: false,
            }],
            default_name: Some("fake.sink".into()),
        }])
    }
    fn select(&mut self, kind: EndpointKind, index: u32) -> Result<(), String> {
        self.calls
            .lock()
            .unwrap()
            .push(format!("select:{kind:?}:{index}"));
        if self.fail_select {
            Err("selection failed".into())
        } else {
            Ok(())
        }
    }
    fn set_volume(&mut self, kind: EndpointKind, index: u32, volume: Volume) -> Result<(), String> {
        let volume = volume_value(volume);
        self.calls
            .lock()
            .unwrap()
            .push(format!("volume:{kind:?}:{index}:{volume:.1}"));
        Ok(())
    }
    fn set_mute(&mut self, kind: EndpointKind, index: u32, muted: bool) -> Result<(), String> {
        self.calls
            .lock()
            .unwrap()
            .push(format!("mute:{kind:?}:{index}:{muted}"));
        Ok(())
    }
    fn microphone_level(&mut self) -> Result<Level, String> {
        Ok(level(0.25))
    }
}

/// Runs the worker over a script of inputs and returns the events of each step, the start first.
fn run<B: AudioBackend>(
    factory: impl FnOnce() -> Result<B, String>,
    inputs: Vec<WorkerInput>,
) -> Vec<Vec<AudioEvent>> {
    let mut first = Vec::new();
    let started = start(factory(), &mut first);
    let mut steps = vec![first];
    if let Some(mut backend) = started {
        for input in inputs {
            let mut events = Vec::new();
            let running = serve(&mut backend, input, &mut events);
            steps.push(events);
            if !running {
                break;
            }
        }
    }
    steps
}

#[test]
fn rms_is_normalized() {
    assert_eq!(level_value(rms_level(&[])), 0.0);
    assert!((level_value(rms_level(&[i16::MAX, i16::MAX])) - 1.0).abs() < 0.001);
    assert!((level_value(rms_level(&[0, i16::MAX])) - 0.707).abs() < 0.01);
}

#[test]
fn endpoint_state_preserves_kind() {
    let state = EndpointState {
        kind: EndpointKind::Input,
        devices: vec![],
        default_name: None,
    };
    assert_eq!(state.kind, EndpointKind::Input);
}

#[test]
fn worker_publishes_fake_backend_snapshot() {
    let steps = run(
        || {
            Ok(FakeBackend {
                calls: Arc::new(Mutex::new(vec![])),
                fail_select: false,
            })
        },
        vec![WorkerInput::Command(AudioCommand::Stop)],
    );
    match &steps[0][0] {
        AudioEvent::Snapshot(state) => assert_eq!(state.devices[0].index, 7),
        other => panic!("expected snapshot, got {other:?}"),
    }
    assert_eq!(steps.len(), 2);
    assert!(steps[1].is_empty());
}

#[test]
fn worker_routes_output_input_commands_and_clamps_volume() {
    let calls = Arc::new(Mutex::new(vec![]));
    let factory_calls = Arc::clone(&calls);
    let steps = run(
        move || {
            Ok(FakeBackend {
                calls: factory_calls,
                fail_select: false,
            })
        },
        vec![
            WorkerInput::Command(AudioCommand::Select {
                kind: EndpointKind::Output,
                index: 7,
            }),
            WorkerInput::Command(AudioCommand::Select {
                kind: EndpointKind::Input,
                index: 8,
            }),
            WorkerInput::Command(AudioCommand::SetVolume {
                kind: EndpointKind::Input,
                index: 8,
                volume: volume(9.0),
            }),
            WorkerInput::Command(AudioCommand::SetMute {
                kind: EndpointKind::Output,
                index: 7,
                muted: true,
            }),
            WorkerInput::Command(AudioCommand::Stop),
        ],
    );
    assert_eq!(
        *calls.lock().unwrap(),
        vec![
            "select:Output:7",
            "select:Input:8",
            "volume:Input:8:1.5",
            "mute:Output:7:true"
        ]
    );
    // Each selection publishes a snapshot; a volume and a muting that succeed publish nothing.
    assert!(matches!(steps[1][..], [AudioEvent::Snapshot(_)]));
    assert!(matches!(steps[2][..], [AudioEvent::Snapshot(_)]));
    assert!(steps[3].is_empty());
    assert!(steps[4].is_empty());
}

#[test]
fn backend_error_keeps_last_snapshot() {
    let calls = Arc::new(Mutex::new(vec![]));
    let factory_calls = Arc::clone(&calls);
    let steps = run(
        move || {
            Ok(FakeBackend {
                calls: factory_calls,
                fail_select: true,
            })
        },
        vec![
            WorkerInput::Command(AudioCommand::Select {
                kind: EndpointKind::Output,
                index: 7,
            }),
            WorkerInput::Command(AudioCommand::Stop),
        ],
    );
    let events: Vec<&AudioEvent> = steps.iter().flatten().collect();
    assert!(matches!(events[0], AudioEvent::Snapshot(_)));
    assert!(matches!(events[1], AudioEvent::Snapshot(_)));
    assert!(matches!(events[2], AudioEvent::Error(_)));
    match events[2] {
        AudioEvent::Error(message) => assert_eq!(message, "selection failed"),
        other => panic!("expected error, got {other:?}"),
    }
    assert_eq!(events.len(), 3);
}

#[test]
fn backend_that_cannot_be_created_is_reported() {
    let steps = run(
        || Err::<FakeBackend, String>("no server".into()),
        vec![WorkerInput::Command(AudioCommand::Refresh)],
    );
    assert_eq!(steps.len(), 1);
    match &steps[0][..] {
        [AudioEvent::Error(message)] => {
            assert_eq!(message, "无法连接 PulseAudio / PipeWire-Pulse")
        }
        other => panic!("expected one error, got {other:?}"),
    }
}

#[test]
fn idle_worker_publishes_the_level() {
    let steps = run(
        || {
            Ok(FakeBackend {
                calls: Arc::new(Mutex::new(vec![])),
                fail_select: false,
            })
        },
        vec![WorkerInput::Idle, WorkerInput::Disconnected, WorkerInput::Idle],
    );
    assert_eq!(steps.len(), 3);
    match steps[1][..] {
        [AudioEvent::Level(read)] => assert_eq!(read, level(0.25)),
        _ => panic!("expected one level"),
    }
    assert!(steps[2].is_empty());
}

#[test]
fn levels_are_held_to_full_scale() {
    let mut events = Vec::new();
    send_level(&mut events, Ok(level(3.0)));
    send_level(&mut events, Ok(level(0.5)));
    send_level(&mut events, Err("gone".into()));
    match &events[..] {
        [AudioEvent::Level(loud), AudioEvent::Level(soft), AudioEvent::Error(message)] => {
            assert_eq!(level_value(*loud), 1.0);
            assert_eq!(level_value(*soft), 0.5);
            assert_eq!(message, "麦克风电平不可用：gone");
        }
        other => panic!("unexpected {other:?}"),
    }
}

#[test]
fn refresh_errors_and_command_errors_are_passed_on() {
    let mut events = Vec::new();
    send_snapshot(&mut events, Err("no devices".into()));
    run_command_no_refresh(&mut events, Ok(()));
    run_command_no_refresh(&mut events, Err("refused".into()));
    match &events[..] {
        [AudioEvent::Error(first), AudioEvent::Error(second)] => {
            assert_eq!(first, "no devices");
            assert_eq!(second, "refused");
        }
        other => panic!("unexpected {other:?}"),
    }
}

#[test]
fn snapshots_keep_their_order() {
    let endpoint = |kind: EndpointKind| EndpointState {
        kind,
        devices: vec![],
        default_name: None,
    };
    let mut events = Vec::new();
    send_snapshot(
        &mut events,
        Ok(vec![
            endpoint(EndpointKind::Output),
            endpoint(EndpointKind::Input),
        ]),
    );
    let kinds: Vec<EndpointKind> = events
        .clone()
        .iter()
        .map(|event| match event {
            AudioEvent::Snapshot(state) => state.kind,
            other => panic!("unexpected {other:?}"),
        })
        .collect();
    assert_eq!(kinds, vec![EndpointKind::Output, EndpointKind::Input]);
}

#[test]
fn a_loud_constant_and_a_peak_below_zero() {
    assert_eq!(rms_level(&[i16::MAX, -i16::MAX]).attos, FULL_SCALE);
    assert_eq!(rms_level(&[i16::MIN]).attos, FULL_SCALE);
    assert_eq!(rms_level(&[0, 0, 0]).attos, 0);
    // 16384 / 32767, rounded up.
    assert_eq!(rms_level(&[16384, -16384]).attos, 500_015_259_254_737_999);
    // The square root of one half, rounded up.
    assert_eq!(rms_level(&[0, i16::MAX]).attos, 707_106_781_186_547_525);
    // The softest possible sound.
    assert_eq!(rms_level(&[1]).attos, 30_518_509_475_998);
}

#[test]
fn sound_is_never_rounded_away() {
    let mut samples = vec![0i16; 3_000_000];
    assert_eq!(rms_level(&samples).attos, 0);
    samples[1_234_567] = -1;
    assert!(rms_level(&samples).attos > 0);
}

#[test]
fn a_single_soft_sample_keeps_the_level_below_full_scale() {
    let mut samples = vec![i16::MAX; 100_000];
    assert_eq!(rms_level(&samples).attos, FULL_SCALE);
    samples[5] = i16::MAX - 1;
    assert!(rms_level(&samples).attos < FULL_SCALE);
}

#[test]
fn signal_just_above_two_percent_is_reported() {
    let mut samples = vec![655i16; 20];
    samples[0] = 831;
    samples[1] = 420;
    let level = rms_level(&samples);
    assert!(level.attos > SIGNAL_FLOOR);
    assert_eq!(meter_display(level, false).state, MeterState::Receiving);
    samples[1] = 418;
    let level = rms_level(&samples);
    assert!(level.attos <= SIGNAL_FLOOR);
    assert_eq!(meter_display(level, false).state, MeterState::Silent);
}

#[test]
fn level_agrees_with_the_floating_point_formula() {
    let mut state: u64 = 88172645463325252;
    for length in 1..200usize {
        let mut samples: Vec<i16> = Vec::new();
        for _ in 0..length {
            state ^= state << 13;
            state ^= state >> 7;
            state ^= state << 17;
            samples.push((state >> 40) as i16);
        }
        let sum: f64 = samples
            .iter()
            .map(|sample| {
                let value = f64::from(*sample) / f64::from(i16::MAX);
                value * value
            })
            .sum();
        let expected = (sum / samples.len() as f64).sqrt().clamp(0.0, 1.0);
        assert!((level_value(rms_level(&samples)) - expected).abs() < 1e-14);
    }
}

#[test]
fn order_of_samples_does_not_matter() {
    assert_eq!(rms_level(&[100, -2000, 3]), rms_level(&[3, 100, -2000]));
    assert!(rms_level(&[100, 100]).attos < rms_level(&[100, -101]).attos);
}
