use rtw_core::color::{map_channel, map_pixel, RADIANCE_MAX};
use rtw_core::RADIANCE_ONE;

#[test]
fn map_channel_endpoints() {
    assert_eq!(map_channel(0), 0);
    assert_eq!(map_channel(RADIANCE_ONE), 255);
}

#[test]
fn map_channel_clamps_below_zero() {
    // Minus half a unit of radiance maps to black, not wraparound.
    assert_eq!(map_channel(-500_000), 0);
    assert_eq!(map_channel(-1), 0);
    assert_eq!(map_channel(i64::MIN), 0);
}

#[test]
fn map_channel_clamps_above_one() {
    // Four units of radiance map to full brightness, no overflow.
    assert_eq!(map_channel(4 * RADIANCE_ONE), 255);
    assert_eq!(map_channel(RADIANCE_ONE + 1), 255);
    assert_eq!(map_channel(RADIANCE_MAX), 255);
}

#[test]
fn map_channel_gamma_values() {
    // A quarter unit: sqrt(0.25) = 0.5, truncated from 127.5.
    assert_eq!(map_channel(250_000), 127);
    // Half a unit: sqrt(0.5) ~ 0.70710678, truncated from 180.31.
    assert_eq!(map_channel(500_000), 180);
    // 0.8 of a unit, the default material gray: sqrt(0.8) ~ 0.894427.
    assert_eq!(map_channel(800_000), 228);
}

#[test]
fn map_channel_monotonic_on_samples() {
    let mut prev = 0u8;
    let mut v: i64 = 0;
    while v <= 2 * RADIANCE_ONE {
        let m = map_channel(v);
        assert!(m >= prev);
        prev = m;
        v += 12_345;
    }
}

#[test]
fn map_pixel_maps_channels_independently() {
    let p = map_pixel(RADIANCE_ONE, 0, 250_000);
    assert_eq!(p.r, 255);
    assert_eq!(p.g, 0);
    assert_eq!(p.b, 127);
}
