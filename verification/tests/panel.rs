use gtk_layer_sound::controls::{meter_display, Controls, ControlsChange, MeterState, METER_WAITING};
use gtk_layer_sound::device::{AudioDevice, EndpointKind, EndpointState};
use gtk_layer_sound::level::{Level, SIGNAL_FLOOR};
use gtk_layer_sound::panel::{card_class, icon_name, EndpointPanel};
use gtk_layer_sound::volume::Volume;
use gtk_layer_sound::window::{anchored, toggle, ScreenEdge, WindowAction};
use gtk_layer_sound::worker::{AudioCommand, AudioEvent};

fn device(index: u32, name: &str, units: u32, muted: bool) -> AudioDevice {
    AudioDevice {
        index,
        channels: 2,
        name: name.into(),
        label: format!("label of {name}"),
        volume: Volume { units },
        muted,
    }
}

fn state(kind: EndpointKind, default_name: Option<&str>) -> EndpointState {
    EndpointState {
        kind,
        devices: vec![
            device(11, "a", 65536, false),
            device(12, "b", 32768, true),
            device(13, "b", 0, false),
        ],
        default_name: default_name.map(|name| name.to_string()),
    }
}

#[test]
fn snapshot_selects_the_default_device() {
    let mut panel = EndpointPanel::new(EndpointKind::Output);
    let update = panel.apply_snapshot(state(EndpointKind::Output, Some("b")));
    assert_eq!(
        update.labels,
        vec!["label of a", "label of b", "label of b"]
    );
    assert_eq!(update.selected, 1);
    let shown = update.shown.unwrap();
    assert_eq!(shown.volume, Volume { units: 32768 });
    assert!(shown.muted);
    assert_eq!(shown.text, "50%");
}

#[test]
fn snapshot_falls_back_to_the_first_device() {
    for default_name in [None, Some("elsewhere")] {
        let mut panel = EndpointPanel::new(EndpointKind::Output);
        let update = panel.apply_snapshot(state(EndpointKind::Output, default_name));
        assert_eq!(update.selected, 0);
        assert_eq!(update.shown.unwrap().text, "100%");
    }
}

#[test]
fn empty_snapshot_shows_nothing() {
    let mut panel = EndpointPanel::new(EndpointKind::Input);
    let update = panel.apply_snapshot(EndpointState {
        kind: EndpointKind::Input,
        devices: vec![],
        default_name: Some("b".into()),
    });
    assert!(update.labels.is_empty());
    assert_eq!(update.selected, 0);
    assert!(update.shown.is_none());
}

#[test]
fn signals_during_an_update_are_ignored() {
    let mut panel = EndpointPanel::new(EndpointKind::Output);
    panel.apply_snapshot(state(EndpointKind::Output, None));
    assert_eq!(panel.select_command(0), None);
    assert_eq!(panel.mute_command(0, true), None);
    assert!(!panel.slide(Volume { units: 5 }));
    panel.finish_update();
    assert!(panel.slide(Volume { units: 5 }));
}

#[test]
fn commands_address_the_selected_entry() {
    let mut panel = EndpointPanel::new(EndpointKind::Input);
    assert_eq!(panel.select_command(0), None);
    panel.apply_snapshot(state(EndpointKind::Input, None));
    panel.finish_update();
    assert_eq!(
        panel.select_command(2),
        Some(AudioCommand::Select {
            kind: EndpointKind::Input,
            index: 13
        })
    );
    assert_eq!(panel.select_command(3), None);
    assert_eq!(panel.select_command(u32::MAX), None);
    assert_eq!(
        panel.mute_command(1, false),
        Some(AudioCommand::SetMute {
            kind: EndpointKind::Input,
            index: 12,
            muted: false
        })
    );
    assert_eq!(panel.mute_command(3, false), None);
    assert!(panel.is_muted(1));
    assert!(!panel.is_muted(0));
    assert!(!panel.is_muted(3));
}

#[test]
fn slides_are_gathered() {
    let mut panel = EndpointPanel::new(EndpointKind::Output);
    panel.apply_snapshot(state(EndpointKind::Output, None));
    panel.finish_update();
    assert!(panel.slide(Volume { units: 1 }));
    assert!(!panel.slide(Volume { units: 2 }));
    assert!(!panel.slide(Volume { units: 3 }));
    assert_eq!(
        panel.volume_command(1),
        Some(AudioCommand::SetVolume {
            kind: EndpointKind::Output,
            index: 12,
            volume: Volume { units: 3 }
        })
    );
    assert!(panel.slide(Volume { units: 4 }));
    assert_eq!(panel.volume_command(9), None);
    assert!(panel.slide(Volume { units: 4 }));
}

#[test]
fn timer_that_ends_during_an_update_still_sends() {
    let mut panel = EndpointPanel::new(EndpointKind::Output);
    panel.apply_snapshot(state(EndpointKind::Output, None));
    panel.finish_update();
    assert!(panel.slide(Volume { units: 8 }));
    panel.apply_snapshot(state(EndpointKind::Output, None));
    assert!(panel.volume_command(0).is_some());
}

#[test]
fn cards_differ_by_kind() {
    assert_eq!(card_class(EndpointKind::Output), "output-card");
    assert_eq!(card_class(EndpointKind::Input), "input-card");
    assert_eq!(icon_name(EndpointKind::Output), "audio-speakers-symbolic");
    assert_eq!(
        icon_name(EndpointKind::Input),
        "audio-input-microphone-symbolic"
    );
}

#[test]
fn events_reach_their_panel() {
    let mut controls = Controls::new();
    match controls.handle(
        AudioEvent::Snapshot(state(EndpointKind::Input, Some("b"))),
        0,
    ) {
        ControlsChange::Endpoint { kind, update } => {
            assert_eq!(kind, EndpointKind::Input);
            assert_eq!(update.selected, 1);
        }
        _ => panic!("expected an endpoint"),
    }
    controls.endpoint_mut(EndpointKind::Input).finish_update();
    assert!(controls
        .endpoint(EndpointKind::Input)
        .select_command(0)
        .is_some());
    assert!(controls
        .endpoint(EndpointKind::Output)
        .select_command(0)
        .is_none());
}

#[test]
fn errors_are_revealed_until_the_next_snapshot() {
    let mut controls = Controls::new();
    assert!(controls.error().is_none());
    assert!(matches!(
        controls.handle(AudioEvent::Error("broken".into()), 0),
        ControlsChange::Error
    ));
    assert_eq!(controls.error().unwrap(), "broken");
    controls.handle(AudioEvent::Level(Level { attos: 0 }), 0);
    assert_eq!(controls.error().unwrap(), "broken");
    controls.handle(AudioEvent::Snapshot(state(EndpointKind::Output, None)), 0);
    assert!(controls.error().is_none());
}

#[test]
fn failed_command_is_revealed_after_its_snapshots() {
    let mut controls = Controls::new();
    for event in [
        AudioEvent::Snapshot(state(EndpointKind::Output, None)),
        AudioEvent::Snapshot(state(EndpointKind::Input, None)),
        AudioEvent::Error("selection failed".into()),
    ] {
        controls.handle(event, 0);
    }
    assert_eq!(controls.error().unwrap(), "selection failed");
}

#[test]
fn meter_follows_the_selected_microphone() {
    let mut controls = Controls::new();
    controls.handle(AudioEvent::Snapshot(state(EndpointKind::Input, None)), 0);
    let level = Level {
        attos: 500_000_000_000_000_000,
    };
    match controls.handle(AudioEvent::Level(level), 0) {
        ControlsChange::Meter(display) => {
            assert_eq!(display.fraction, level);
            assert_eq!(display.state, MeterState::Receiving);
        }
        _ => panic!("expected the meter"),
    }
    match controls.handle(AudioEvent::Level(level), 1) {
        ControlsChange::Meter(display) => {
            assert_eq!(display.fraction.attos, 0);
            assert_eq!(display.state, MeterState::Muted);
        }
        _ => panic!("expected the meter"),
    }
}

#[test]
fn meter_reports_a_signal_above_the_floor() {
    let at = |attos: u64| meter_display(Level { attos }, false).state;
    assert_eq!(at(SIGNAL_FLOOR), MeterState::Silent);
    assert_eq!(at(SIGNAL_FLOOR + 1), MeterState::Receiving);
    assert_eq!(METER_WAITING, "等待信号");
    assert_eq!(MeterState::Muted.text(), "已静音");
    assert_eq!(MeterState::Receiving.text(), "正在接收");
    assert_eq!(MeterState::Silent.text(), "无信号");
}

#[test]
fn toggling_flips_the_window() {
    assert_eq!(toggle(true, true), WindowAction::Hide);
    assert_eq!(toggle(true, false), WindowAction::Present);
    assert_eq!(toggle(false, true), WindowAction::Keep);
    assert_eq!(toggle(false, false), WindowAction::Keep);
}

#[test]
fn window_hangs_in_the_top_left_corner() {
    assert!(anchored(ScreenEdge::Left));
    assert!(anchored(ScreenEdge::Top));
    assert!(!anchored(ScreenEdge::Right));
    assert!(!anchored(ScreenEdge::Bottom));
}
