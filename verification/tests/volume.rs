use gtk_layer_sound::text::decimal;
use gtk_layer_sound::volume::{channel_volume, ChannelVolume, Volume, LIMIT_UNITS, NORMAL_UNITS};

fn percent_text(units: u32) -> String {
    Volume { units }.percent_text()
}

#[test]
fn decimal_spelling() {
    assert_eq!(decimal(0), "0");
    assert_eq!(decimal(9), "9");
    assert_eq!(decimal(10), "10");
    assert_eq!(decimal(123456780), "123456780");
    assert_eq!(decimal(u64::MAX), "18446744073709551615");
}

#[test]
fn percent_of_round_volumes() {
    assert_eq!(percent_text(0), "0%");
    assert_eq!(percent_text(NORMAL_UNITS), "100%");
    assert_eq!(percent_text(LIMIT_UNITS), "150%");
    assert_eq!(percent_text(NORMAL_UNITS / 2), "50%");
}

#[test]
fn half_percents_go_to_the_even_neighbour() {
    assert_eq!(percent_text(8192), "12%");
    assert_eq!(percent_text(24576), "38%");
    assert_eq!(Volume { units: 8192 }.percent(), 12);
}

#[test]
fn percent_agrees_with_the_floating_point_formula() {
    let mut units: u64 = 0;
    while units <= u32::MAX as u64 {
        let value = units as f64 / NORMAL_UNITS as f64;
        assert_eq!(percent_text(units as u32), format!("{:.0}%", value * 100.0));
        units += 1 + units / 97;
    }
    for eighths in 0..200u32 {
        let units = eighths * 8192;
        let value = units as f64 / NORMAL_UNITS as f64;
        assert_eq!(percent_text(units), format!("{:.0}%", value * 100.0));
    }
}

#[test]
fn volume_is_held_to_the_limit() {
    assert_eq!(Volume { units: LIMIT_UNITS }.clamped().units, LIMIT_UNITS);
    assert_eq!(Volume { units: LIMIT_UNITS + 1 }.clamped().units, LIMIT_UNITS);
    assert_eq!(Volume { units: 17 }.clamped().units, 17);
    let twice = Volume { units: u32::MAX }.clamped().clamped();
    assert_eq!(twice, Volume { units: LIMIT_UNITS });
}

#[test]
fn limit_agrees_with_clamping_the_fraction() {
    for value in [
        -1.0, -0.0, 0.0, 1e-9, 0.00001, 0.3, 0.333333, 1.0, 1.4999999, 1.5, 1.50001, 9.0, 1e12,
        f64::INFINITY, f64::NEG_INFINITY, f64::NAN,
    ] {
        let expected = (NORMAL_UNITS as f64 * value.clamp(0.0, 1.5)) as u32;
        let units = (NORMAL_UNITS as f64 * value) as u32;
        assert_eq!(Volume { units }.clamped().units, expected);
    }
}

#[test]
fn every_channel_gets_the_volume() {
    assert_eq!(
        channel_volume(Volume { units: 1000 }, 2),
        ChannelVolume {
            channels: 2,
            volume: Volume { units: 1000 }
        }
    );
    assert_eq!(
        channel_volume(Volume { units: 200_000 }, 0),
        ChannelVolume {
            channels: 1,
            volume: Volume { units: LIMIT_UNITS }
        }
    );
}
