use rtw_core::config::{
    interactive_budget, resolve_export, resolve_preview, CameraText, ConfigError, ConfigField,
};

fn default_camera_text() -> CameraText<'static> {
    CameraText {
        cam_x: "-1.0",
        cam_y: "0.0",
        cam_z: "0.0",
        look_x: "0.0",
        look_y: "0.0",
        look_z: "0.0",
        fov: "45.0",
        focus_dist: "1.5",
        aperture: "0.0",
    }
}

#[test]
fn interactive_budget_is_fixed() {
    let b = interactive_budget();
    assert_eq!(b.samples, 10);
    assert_eq!(b.bounces, 5);
}

#[test]
fn resolve_export_takes_fields_verbatim() {
    let text = default_camera_text();
    let c = resolve_export("338", "600", "50", "15", &text).unwrap();
    assert_eq!(c.width, 338);
    assert_eq!(c.height, 600);
    assert_eq!(c.samples, 50);
    assert_eq!(c.bounces, 15);
    assert_eq!(c.cam_x, -1_000_000);
    assert_eq!(c.cam_y, 0);
    assert_eq!(c.fov, 45_000_000);
    assert_eq!(c.focus_dist, 1_500_000);
    assert_eq!(c.aperture, 0);
}

#[test]
fn resolve_export_reports_the_failing_field() {
    let text = default_camera_text();
    assert_eq!(
        resolve_export("banana", "600", "50", "15", &text).unwrap_err(),
        ConfigError::Parse(ConfigField::Width)
    );
    assert_eq!(
        resolve_export("338", "", "50", "15", &text).unwrap_err(),
        ConfigError::Parse(ConfigField::Height)
    );
    assert_eq!(
        resolve_export("338", "600", "5.5", "15", &text).unwrap_err(),
        ConfigError::Parse(ConfigField::Samples)
    );
    assert_eq!(
        resolve_export("338", "600", "50", "-1", &text).unwrap_err(),
        ConfigError::Parse(ConfigField::Bounces)
    );
    let mut bad = default_camera_text();
    bad.fov = "wide";
    assert_eq!(
        resolve_export("338", "600", "50", "15", &bad).unwrap_err(),
        ConfigError::Parse(ConfigField::Fov)
    );
    let mut bad = default_camera_text();
    bad.cam_x = "*";
    bad.aperture = "*";
    assert_eq!(
        resolve_export("338", "600", "50", "15", &bad).unwrap_err(),
        ConfigError::Parse(ConfigField::CamX)
    );
}

#[test]
fn resolve_export_rejects_empty_budget() {
    let text = default_camera_text();
    assert_eq!(
        resolve_export("0", "600", "50", "15", &text).unwrap_err(),
        ConfigError::InvalidBudget
    );
    assert_eq!(
        resolve_export("338", "0", "50", "15", &text).unwrap_err(),
        ConfigError::InvalidBudget
    );
    assert_eq!(
        resolve_export("338", "600", "0", "15", &text).unwrap_err(),
        ConfigError::InvalidBudget
    );
    // A zero bounce budget is allowed.
    assert!(resolve_export("338", "600", "50", "0", &text).is_ok());
}

#[test]
fn resolve_export_rejects_out_of_range_fov() {
    let mut text = default_camera_text();
    text.fov = "180.0";
    assert_eq!(
        resolve_export("338", "600", "50", "15", &text).unwrap_err(),
        ConfigError::InvalidFov
    );
    text.fov = "0";
    assert_eq!(
        resolve_export("338", "600", "50", "15", &text).unwrap_err(),
        ConfigError::InvalidFov
    );
    text.fov = "-45.0";
    assert_eq!(
        resolve_export("338", "600", "50", "15", &text).unwrap_err(),
        ConfigError::InvalidFov
    );
}

#[test]
fn resolve_preview_uses_interactive_budget() {
    // The preview budget ignores whatever quality the user typed into
    // the export fields; it is always the interactive one.
    let text = default_camera_text();
    let c = resolve_preview(80, 24, &text).unwrap();
    assert_eq!(c.samples, 10);
    assert_eq!(c.bounces, 5);
    assert_eq!(c.width, 80);
    assert_eq!(c.height, 48);
}

#[test]
fn resolve_preview_rejects_empty_area() {
    let text = default_camera_text();
    assert_eq!(
        resolve_preview(0, 24, &text).unwrap_err(),
        ConfigError::InvalidBudget
    );
    assert_eq!(
        resolve_preview(80, 0, &text).unwrap_err(),
        ConfigError::InvalidBudget
    );
}

#[test]
fn resolve_preview_reports_camera_parse_errors() {
    let mut text = default_camera_text();
    text.look_y = "up";
    assert_eq!(
        resolve_preview(80, 24, &text).unwrap_err(),
        ConfigError::Parse(ConfigField::LookY)
    );
}
