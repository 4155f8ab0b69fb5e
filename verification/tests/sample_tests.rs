use rtw_core::sample::{LinearColor, RadianceSample};
use rtw_core::RADIANCE_ONE;

fn accumulate_constant(c: LinearColor, n: u32) -> LinearColor {
    let mut s = RadianceSample::new();
    for _ in 0..n {
        s.add(c);
    }
    s.average()
}

#[test]
fn constant_scene_averages_to_itself() {
    // A constant radiance averages to exactly itself, whatever the
    // sample count.
    let c = LinearColor {
        r: RADIANCE_ONE,
        g: 0,
        b: 333_333,
    };
    for n in [1u32, 10, 1000] {
        assert_eq!(accumulate_constant(c, n), c);
    }
}

#[test]
fn average_of_two_samples() {
    let mut s = RadianceSample::new();
    s.add(LinearColor { r: 1_000_000, g: 0, b: 500_000 });
    s.add(LinearColor { r: 0, g: 1_000_000, b: 500_000 });
    let avg = s.average();
    assert_eq!(avg, LinearColor { r: 500_000, g: 500_000, b: 500_000 });
}

#[test]
fn average_truncates_toward_zero() {
    let mut s = RadianceSample::new();
    s.add(LinearColor { r: 1, g: 2, b: 0 });
    s.add(LinearColor { r: 0, g: 3, b: 0 });
    s.add(LinearColor { r: 0, g: 0, b: 1 });
    let avg = s.average();
    assert_eq!(avg, LinearColor { r: 0, g: 1, b: 0 });
}
