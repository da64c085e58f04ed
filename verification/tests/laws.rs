use gtk_layer_sound::device::{AudioDevice, EndpointKind, EndpointState};
use gtk_layer_sound::panel::EndpointPanel;
use gtk_layer_sound::session::{RefreshAction, RefreshEvent, SelectEvent, Session};
use gtk_layer_sound::volume::Volume;
use gtk_layer_sound::worker::AudioCommand;

fn device(index: u32, name: &str) -> AudioDevice {
    AudioDevice {
        index,
        channels: 2,
        name: name.into(),
        label: name.to_uppercase(),
        volume: Volume { units: 65536 },
        muted: false,
    }
}

/// A session with three outputs, the second of which is the default one.
fn session() -> Session {
    let mut session = Session::new();
    session.refresh(RefreshEvent::OutputsListed(Ok(vec![
        device(4, "left"),
        device(2, "middle"),
        device(9, "right"),
    ])));
    session.refresh(RefreshEvent::InputsListed(Ok(vec![])));
    session.refresh(RefreshEvent::DefaultsRead(Ok((
        Some("middle".to_string()),
        None,
    ))));
    session
}

/// The endpoint of outputs, as a refresh that reads nothing new reports it.
fn outputs(session: &mut Session) -> EndpointState {
    match session.refresh(RefreshEvent::MeterStarted(Ok(()))) {
        RefreshAction::Finish(Ok(states)) => states[0].clone(),
        _ => panic!("expected both endpoints"),
    }
}

#[test]
fn panel_commands_find_their_device() {
    let mut session = session();
    let mut panel = EndpointPanel::new(EndpointKind::Output);
    panel.apply_snapshot(outputs(&mut session));
    panel.finish_update();
    for (position, name) in [(0, "left"), (1, "middle"), (2, "right")] {
        match panel.select_command(position) {
            Some(AudioCommand::Select { kind, index }) => {
                assert_eq!(session.select(kind, index).unwrap().name, name)
            }
            other => panic!("unexpected {other:?}"),
        }
    }
}

#[test]
fn selected_device_is_shown() {
    let mut session = session();
    let mut panel = EndpointPanel::new(EndpointKind::Output);
    assert_eq!(panel.apply_snapshot(outputs(&mut session)).selected, 1);
    let selection = session.select(EndpointKind::Output, 9).unwrap();
    session.continue_selection(&selection, SelectEvent::DefaultSet(Some(true)));
    session.continue_selection(&selection, SelectEvent::StreamsMoved(Ok(())));
    assert_eq!(panel.apply_snapshot(outputs(&mut session)).selected, 2);
}

#[test]
fn changes_keep_the_selection() {
    let mut session = session();
    let mut panel = EndpointPanel::new(EndpointKind::Output);
    let volume = Volume { units: 6554 };
    session
        .volume_set(EndpointKind::Output, 2, volume, Some(true))
        .unwrap();
    session
        .mute_set(EndpointKind::Output, 2, true, Some(true))
        .unwrap();
    let update = panel.apply_snapshot(outputs(&mut session));
    assert_eq!(update.selected, 1);
    let shown = update.shown.unwrap();
    assert_eq!(shown.volume, volume);
    assert_eq!(shown.text, "10%");
    assert!(shown.muted);
}

#[test]
fn louder_volumes_show_no_smaller_percentage() {
    let mut last = 0;
    for units in (0..120_000u32).step_by(13) {
        let percent = Volume { units }.percent();
        assert!(percent >= last);
        assert!(Volume { units }.clamped().percent() <= 150);
        last = percent;
    }
}
