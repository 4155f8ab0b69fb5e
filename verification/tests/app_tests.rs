use rtw_core::app_state::{App, AppAction, CurrentScreen, CurrentlyEditing, InputKey};
use rtw_core::color::DisplayPixel;
use rtw_core::scene::{MaterialType, SceneMaterial, SceneObject, SkyModel, SkyType, Vec3Fixed};

#[test]
fn new_app_defaults() {
    let app = App::new();
    assert!(matches!(app.current_screen, CurrentScreen::Main));
    assert!(app.current_edit.is_none());
    assert!(app.world.is_empty());
    assert_eq!(app.materials.len(), 1);
    assert_eq!(app.materials[0].0, "Diffuse 1");
    assert_eq!(
        app.materials[0].1,
        SceneMaterial::Lambertian {
            albedo: DisplayPixel { r: 204, g: 204, b: 204 }
        }
    );
    assert_eq!(app.size_input, "0.5");
    assert_eq!(app.image_width, "338");
    assert_eq!(app.image_height, "600");
    assert_eq!(app.samples, "50");
    assert_eq!(app.bounces, "15");
    assert_eq!(app.camx, "-1.0");
    assert_eq!(app.fov, "45.0");
    assert_eq!(
        app.sky,
        SkyModel::Gradient {
            start: DisplayPixel { r: 160, g: 160, b: 160 },
            end: DisplayPixel { r: 255, g: 255, b: 255 },
        }
    );
}

#[test]
fn get_type_labels() {
    let mut app = App::new();
    assert_eq!(app.get_type(), "Sphere");
    app.type_input = 1;
    assert_eq!(app.get_type(), "Plane");
    app.type_input = 9;
    assert_eq!(app.get_type(), "Unknown");
}

#[test]
fn material_type_display_names() {
    assert_eq!(MaterialType::Lambertian.display_name(), "Diffuse");
    assert_eq!(MaterialType::Metal.display_name(), "Metal");
    assert_eq!(MaterialType::Normal.display_name(), "Debug");
    assert_eq!(MaterialType::Dielectric.display_name(), "Glass");
}

#[test]
fn get_color_parses_and_falls_back() {
    let mut app = App::new();
    assert_eq!(app.get_color(), DisplayPixel { r: 0xfa, g: 0x4e, b: 0x4e });
    // Wrong length: the loud magenta sentinel, not a quiet gray.
    app.mat_color_input = "fff".to_owned();
    assert_eq!(app.get_color(), DisplayPixel { r: 255, g: 0, b: 255 });
    app.mat_color_input = "ff00ff00".to_owned();
    assert_eq!(app.get_color(), DisplayPixel { r: 255, g: 0, b: 255 });
    // Six characters with bad pairs: each channel falls back on its own.
    app.mat_color_input = "zz11zz".to_owned();
    assert_eq!(app.get_color(), DisplayPixel { r: 255, g: 0x11, b: 255 });
    app.mat_color_input = "11zz11".to_owned();
    assert_eq!(app.get_color(), DisplayPixel { r: 0x11, g: 0, b: 0x11 });
}

#[test]
fn get_color_channel_pairs_accept_signs() {
    // Each two-character channel is read like a radix-16 byte parse: a
    // leading plus keeps one digit, and a minus is only good for zero.
    let mut app = App::new();
    app.mat_color_input = "+f0000".to_owned();
    assert_eq!(app.get_color(), DisplayPixel { r: 15, g: 0, b: 0 });
    app.mat_color_input = "-00000".to_owned();
    assert_eq!(app.get_color(), DisplayPixel { r: 0, g: 0, b: 0 });
    app.mat_color_input = "-10000".to_owned();
    assert_eq!(app.get_color(), DisplayPixel { r: 255, g: 0, b: 0 });
}

#[test]
fn save_material_appends_and_resets() {
    let mut app = App::new();
    app.mat_type_input = Some(MaterialType::Metal);
    app.mat_color_input = "ff0000".to_owned();
    app.mat_other_input = "0.25".to_owned();
    app.mat_name_input = "Shiny".to_owned();
    assert!(app.save_material().is_ok());
    assert_eq!(app.materials.len(), 2);
    assert_eq!(app.materials[1].0, "Shiny");
    assert_eq!(
        app.materials[1].1,
        SceneMaterial::Metal {
            albedo: DisplayPixel { r: 255, g: 0, b: 0 },
            roughness: 250_000,
        }
    );
    assert_eq!(app.mat_color_input, "fa4e4e");
    assert!(app.mat_type_input.is_none());
    assert_eq!(app.mat_other_input, "1.0");
    // The name field keeps its text.
    assert_eq!(app.mat_name_input, "Shiny");
}

#[test]
fn save_material_errors() {
    let mut app = App::new();
    app.mat_other_input = "rough".to_owned();
    app.mat_type_input = Some(MaterialType::Metal);
    assert_eq!(app.save_material().unwrap_err(), "Invalid other value");
    app.mat_other_input = "0.5".to_owned();
    app.mat_type_input = None;
    assert_eq!(app.save_material().unwrap_err(), "No material type provided");
}

#[test]
fn save_object_appends_sphere_and_resets() {
    let mut app = App::new();
    app.size_input = "2.5".to_owned();
    app.position_input_x = "1.0".to_owned();
    app.position_input_y = "-2.0".to_owned();
    app.position_input_z = "0.5".to_owned();
    assert!(app.save_object().is_ok());
    assert_eq!(app.world.len(), 1);
    assert_eq!(
        app.world[0],
        SceneObject::Sphere {
            center: Vec3Fixed { x: 1_000_000, y: -2_000_000, z: 500_000 },
            radius: 2_500_000,
            material: 0,
        }
    );
    assert_eq!(app.size_input, "0.5");
    assert_eq!(app.position_input_x, "0.0");
}

#[test]
fn save_object_builds_plane_from_size_and_position() {
    let mut app = App::new();
    app.type_input = 1;
    app.size_input = "3.0".to_owned();
    app.position_input_x = "0.0".to_owned();
    app.position_input_y = "1.0".to_owned();
    app.position_input_z = "0.0".to_owned();
    assert!(app.save_object().is_ok());
    assert_eq!(
        app.world[0],
        SceneObject::Plane {
            origin: Vec3Fixed { x: 0, y: 3_000_000, z: 0 },
            normal: Vec3Fixed { x: 0, y: 1_000_000, z: 0 },
            material: 0,
        }
    );
}

#[test]
fn save_object_errors() {
    let mut app = App::new();
    app.material_input = 5;
    assert_eq!(app.save_object().unwrap_err(), "Invalid material input");
    let mut app = App::new();
    app.size_input = "big".to_owned();
    assert_eq!(app.save_object().unwrap_err(), "Invalid size input");
    let mut app = App::new();
    app.position_input_y = "".to_owned();
    assert_eq!(app.save_object().unwrap_err(), "Invalid position input y");
    let mut app = App::new();
    app.type_input = 7;
    assert_eq!(app.save_object().unwrap_err(), "Invalid object type");
    assert!(app.world.is_empty());
}

#[test]
fn save_sky_solid_and_gradient() {
    let mut app = App::new();
    app.sky_type = SkyType::Solid;
    app.sky_color1 = "102030".to_owned();
    app.sky_color2 = "405060".to_owned();
    assert!(app.save_sky().is_ok());
    // The solid sky takes the second color.
    assert_eq!(
        app.sky,
        SkyModel::Solid { color: DisplayPixel { r: 0x40, g: 0x50, b: 0x60 } }
    );
    app.sky_type = SkyType::Gradient;
    assert!(app.save_sky().is_ok());
    assert_eq!(
        app.sky,
        SkyModel::Gradient {
            start: DisplayPixel { r: 0x40, g: 0x50, b: 0x60 },
            end: DisplayPixel { r: 0x10, g: 0x20, b: 0x30 },
        }
    );
}

#[test]
fn save_sky_errors() {
    let mut app = App::new();
    app.sky_color1 = "xyz".to_owned();
    assert_eq!(app.save_sky().unwrap_err(), "Invalid sky color 1");
    let mut app = App::new();
    app.sky_color2 = "12".to_owned();
    assert_eq!(app.save_sky().unwrap_err(), "Invalid sky color 2");
}

#[test]
fn change_editing_cycles_render_form() {
    let mut app = App::new();
    app.current_edit = Some(CurrentlyEditing::Width);
    app.change_editing(true);
    assert_eq!(app.current_edit, Some(CurrentlyEditing::Height));
    app.change_editing(false);
    assert_eq!(app.current_edit, Some(CurrentlyEditing::Width));
    app.change_editing(false);
    assert_eq!(app.current_edit, Some(CurrentlyEditing::Aperture));
    app.change_editing(true);
    assert_eq!(app.current_edit, Some(CurrentlyEditing::Width));
}

#[test]
fn change_editing_skips_property_unless_used() {
    let mut app = App::new();
    app.current_edit = Some(CurrentlyEditing::MatColor);
    app.mat_type_input = Some(MaterialType::Lambertian);
    app.change_editing(true);
    assert_eq!(app.current_edit, Some(CurrentlyEditing::MatName));
    app.current_edit = Some(CurrentlyEditing::MatColor);
    app.mat_type_input = Some(MaterialType::Metal);
    app.change_editing(true);
    assert_eq!(app.current_edit, Some(CurrentlyEditing::MatProperty));
}

#[test]
fn change_editing_starts_at_first_field() {
    let mut app = App::new();
    app.current_screen = CurrentScreen::MaterialEditor;
    app.current_edit = None;
    app.change_editing(true);
    assert_eq!(app.current_edit, Some(CurrentlyEditing::MatColor));
    let mut app = App::new();
    app.current_edit = None;
    app.change_editing(false);
    assert_eq!(app.current_edit, Some(CurrentlyEditing::Size));
}

#[test]
fn keys_navigate_from_main() {
    let mut app = App::new();
    assert_eq!(app.handle_key(InputKey::Char('n')), AppAction::Continue);
    assert!(matches!(app.current_screen, CurrentScreen::Editor));
    assert_eq!(app.current_edit, Some(CurrentlyEditing::Size));

    let mut app = App::new();
    app.handle_key(InputKey::Char('m'));
    assert!(matches!(app.current_screen, CurrentScreen::MaterialEditor));
    assert_eq!(app.current_edit, Some(CurrentlyEditing::MatType));
    assert_eq!(app.mat_type_input, Some(MaterialType::Lambertian));

    let mut app = App::new();
    app.handle_key(InputKey::Char('r'));
    assert!(matches!(app.current_screen, CurrentScreen::Render));
    assert_eq!(app.current_edit, Some(CurrentlyEditing::Width));
}

#[test]
fn quit_needs_confirmation() {
    let mut app = App::new();
    assert_eq!(app.handle_key(InputKey::Char('q')), AppAction::Continue);
    assert!(matches!(app.current_screen, CurrentScreen::Confirmation));
    assert_eq!(app.handle_key(InputKey::Char('y')), AppAction::Quit);
    let mut app = App::new();
    app.handle_key(InputKey::Char('q'));
    assert_eq!(app.handle_key(InputKey::Char('n')), AppAction::Continue);
    assert!(matches!(app.current_screen, CurrentScreen::Main));
}

#[test]
fn typing_edits_the_focused_field() {
    let mut app = App::new();
    app.handle_key(InputKey::Char('n'));
    app.handle_key(InputKey::Char('1'));
    app.handle_key(InputKey::Char('2'));
    assert_eq!(app.size_input, "0.512");
    app.handle_key(InputKey::Backspace);
    assert_eq!(app.size_input, "0.51");
    // Tab moves to the next field; typing lands there.
    app.handle_key(InputKey::Tab);
    assert_eq!(app.current_edit, Some(CurrentlyEditing::PositionX));
    app.handle_key(InputKey::Char('7'));
    assert_eq!(app.position_input_x, "0.07");
}

#[test]
fn enter_on_render_form_requests_the_render() {
    let mut app = App::new();
    app.handle_key(InputKey::Char('r'));
    assert_eq!(app.handle_key(InputKey::Enter), AppAction::RenderImage);
    assert!(matches!(app.current_screen, CurrentScreen::Render));
    app.render_finished(true);
    assert!(matches!(app.current_screen, CurrentScreen::Main));
    app.current_screen = CurrentScreen::Render;
    app.render_finished(false);
    assert!(matches!(app.current_screen, CurrentScreen::Render));
}

#[test]
fn enter_in_editor_saves_and_returns_to_main() {
    let mut app = App::new();
    app.handle_key(InputKey::Char('n'));
    assert_eq!(app.handle_key(InputKey::Enter), AppAction::Continue);
    assert!(matches!(app.current_screen, CurrentScreen::Main));
    assert_eq!(app.world.len(), 1);
    // A failing save stays in the editor.
    let mut app = App::new();
    app.handle_key(InputKey::Char('n'));
    app.size_input = "nope".to_owned();
    app.handle_key(InputKey::Enter);
    assert!(matches!(app.current_screen, CurrentScreen::Editor));
    assert!(app.world.is_empty());
}

#[test]
fn material_selection_cycles_in_editor() {
    let mut app = App::new();
    app.mat_type_input = Some(MaterialType::Normal);
    assert!(app.save_material().is_ok());
    assert_eq!(app.materials.len(), 2);
    app.current_screen = CurrentScreen::Editor;
    app.current_edit = Some(CurrentlyEditing::Material);
    app.handle_key(InputKey::Up);
    assert_eq!(app.material_input, 1);
    app.handle_key(InputKey::Up);
    assert_eq!(app.material_input, 0);
    app.handle_key(InputKey::Down);
    assert_eq!(app.material_input, 1);
}

#[test]
fn material_kind_cycles_in_material_editor() {
    let mut app = App::new();
    app.handle_key(InputKey::Char('m'));
    app.handle_key(InputKey::Up);
    assert_eq!(app.mat_type_input, Some(MaterialType::Metal));
    app.handle_key(InputKey::Up);
    assert_eq!(app.mat_type_input, Some(MaterialType::Dielectric));
    app.handle_key(InputKey::Down);
    assert_eq!(app.mat_type_input, Some(MaterialType::Metal));
}

#[test]
fn object_selection_wraps_on_main() {
    let mut app = App::new();
    assert!(app.save_object().is_ok());
    assert!(app.save_object().is_ok());
    assert!(app.save_object().is_ok());
    app.handle_key(InputKey::Up);
    assert_eq!(app.selected_object, Some(2));
    app.handle_key(InputKey::Up);
    assert_eq!(app.selected_object, Some(1));
    app.handle_key(InputKey::Down);
    assert_eq!(app.selected_object, Some(2));
    app.handle_key(InputKey::Down);
    assert_eq!(app.selected_object, Some(0));
}
