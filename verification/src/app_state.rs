//! The editor's state and its transitions.
//!
//! The application state holds the current screen, the field being
//! edited, the raw text of every form field, and the scene built so
//! far: a flat material table, objects holding material indices, and
//! the sky. Saving a form parses its text fields and extends the scene;
//! key handling is a pure transition from state and key to state and
//! action, with the outside work (drawing, rendering, reading events)
//! left to the embedding application.

use vstd::prelude::*;

use crate::color::DisplayPixel;
use crate::parse::{
    parse_fixed, spec_parse_fixed, spec_hex_byte, spec_hex_rgb, hex_rgb, hex_byte_at, chars_of,
};
use crate::scene::{MaterialType, SceneMaterial, SceneObject, SkyModel, SkyType, Vec3Fixed};

verus! {

/// Which view the application is showing.
#[derive(Clone, Copy, Debug, PartialEq, Eq, Structural)]
pub enum CurrentScreen {
    Main,
    Editor,
    MaterialEditor,
    Confirmation,
    Render,
    Preview,
    PreviewFull,
    SkyEditor,
}

/// Which form field is being edited.
#[derive(Clone, Copy, Debug, PartialEq, Eq, Structural)]
pub enum CurrentlyEditing {
    Type,
    Size,
    PositionX,
    PositionY,
    PositionZ,
    Material,
    MatType,
    MatColor,
    MatProperty,
    MatName,
    Height,
    Width,
    ImgName,
    Samples,
    Bounces,
    CamX,
    CamY,
    CamZ,
    LookX,
    LookY,
    LookZ,
    Fov,
    FocusDist,
    Aperture,
    SkyColor1,
    SkyColor2,
    SkyType,
}

/// The full editor state.
pub struct App {
    pub current_screen: CurrentScreen,
    pub current_edit: Option<CurrentlyEditing>,
    pub world: Vec<SceneObject>,
    pub materials: Vec<(String, SceneMaterial)>,
    pub material_input: usize,
    pub type_input: usize,
    pub size_input: String,
    pub position_input_x: String,
    pub position_input_y: String,
    pub position_input_z: String,
    pub mat_type_input: Option<MaterialType>,
    pub mat_color_input: String,
    pub mat_other_input: String,
    pub mat_name_input: String,
    pub image_name_input: String,
    pub image_height: String,
    pub image_width: String,
    pub samples: String,
    pub bounces: String,
    pub camx: String,
    pub camy: String,
    pub camz: String,
    pub lookx: String,
    pub looky: String,
    pub lookz: String,
    pub fov: String,
    pub focus_dist: String,
    pub aperture: String,
    pub selected_object: Option<usize>,
    pub sky_type: SkyType,
    pub sky_color1: String,
    pub sky_color2: String,
    pub sky: SkyModel,
}

/// The sentinel color shown for a malformed material color: a loud
/// magenta rather than a quiet gray, so bad input stays visible.
pub open spec fn magenta() -> DisplayPixel {
    DisplayPixel { r: 255, g: 0, b: 255 }
}

/// What the material color field shows: six characters parsed as three
/// channel pairs, each falling back to the corresponding magenta
/// channel when malformed; any other length gives the full sentinel.
pub open spec fn spec_get_color(s: Seq<char>) -> DisplayPixel {
    if s.len() != 6 {
        magenta()
    } else {
        DisplayPixel {
            r: match spec_hex_byte(s.subrange(0, 2)) {
                Some(v) => v,
                None => 255,
            },
            g: match spec_hex_byte(s.subrange(2, 4)) {
                Some(v) => v,
                None => 0,
            },
            b: match spec_hex_byte(s.subrange(4, 6)) {
                Some(v) => v,
                None => 255,
            },
        }
    }
}

/// Relies on String::push: appends exactly the given character.
#[verifier::external_body]
fn string_push(s: &mut String, c: char)
    ensures
        final(s)@ == old(s)@.push(c),
{
    s.push(c);
}

/// Relies on String::pop: removes and returns the last character, or
/// leaves an empty string unchanged.
#[verifier::external_body]
fn string_pop(s: &mut String) -> (r: Option<char>)
    ensures
        old(s)@.len() == 0 ==> final(s)@ == old(s)@ && r is None,
        old(s)@.len() > 0 ==> final(s)@ == old(s)@.drop_last() && r == Some(old(s)@.last()),
{
    s.pop()
}

impl App {
    /// The state every method keeps: the material table is never empty,
    /// so the editor always has a material to offer.
    pub open spec fn wf(self) -> bool {
        self.materials@.len() >= 1
    }

    /// The label of the object type being edited.
    pub fn get_type(&self) -> (r: String)
        ensures
            self.type_input == 0 ==> r@ == "Sphere"@,
            self.type_input == 1 ==> r@ == "Plane"@,
            self.type_input >= 2 ==> r@ == "Unknown"@,
    {
        match self.type_input {
            0 => "Sphere".to_owned(),
            1 => "Plane".to_owned(),
            _ => "Unknown".to_owned(),
        }
    }

    /// A fresh editor: the main screen, one default diffuse material,
    /// an empty scene, a gradient sky, and the form defaults.
    pub fn new() -> (app: App)
        ensures
            app.wf(),
            app.current_screen is Main,
            app.current_edit is None,
            app.world@.len() == 0,
            app.materials@.len() == 1,
            app.materials@[0].0@ == "Diffuse 1"@,
            app.materials@[0].1 == (SceneMaterial::Lambertian {
                albedo: DisplayPixel { r: 204, g: 204, b: 204 },
            }),
            app.material_input == 0,
            app.type_input == 0,
            app.size_input@ == "0.5"@,
            app.position_input_x@ == "0.0"@,
            app.position_input_y@ == "0.0"@,
            app.position_input_z@ == "0.0"@,
            app.mat_type_input is None,
            app.mat_color_input@ == "fa4e4e"@,
            app.mat_other_input@ == "0.0"@,
            app.mat_name_input@ == "Material"@,
            app.image_name_input@ == "image"@,
            app.image_height@ == "600"@,
            app.image_width@ == "338"@,
            app.samples@ == "50"@,
            app.bounces@ == "15"@,
            app.camx@ == "-1.0"@,
            app.camy@ == "0.0"@,
            app.camz@ == "0.0"@,
            app.lookx@ == "0.0"@,
            app.looky@ == "0.0"@,
            app.lookz@ == "0.0"@,
            app.fov@ == "45.0"@,
            app.focus_dist@ == "1.5"@,
            app.aperture@ == "0.0"@,
            app.selected_object is None,
            app.sky_type is Gradient,
            app.sky == (SkyModel::Gradient {
                start: DisplayPixel { r: 160, g: 160, b: 160 },
                end: DisplayPixel { r: 255, g: 255, b: 255 },
            }),
            app.sky_color1@ == "a0a0a0"@,
            app.sky_color2@ == "ffffff"@,
    {
        let mut materials: Vec<(String, SceneMaterial)> = Vec::new();
        materials.push(
            (
                "Diffuse 1".to_owned(),
                SceneMaterial::Lambertian { albedo: DisplayPixel { r: 204, g: 204, b: 204 } },
            ),
        );
        App {
            current_screen: CurrentScreen::Main,
            current_edit: None,
            world: Vec::new(),
            materials,
            material_input: 0,
            type_input: 0,
            size_input: "0.5".to_owned(),
            position_input_x: "0.0".to_owned(),
            position_input_y: "0.0".to_owned(),
            position_input_z: "0.0".to_owned(),
            mat_type_input: None,
            mat_color_input: "fa4e4e".to_owned(),
            mat_other_input: "0.0".to_owned(),
            mat_name_input: "Material".to_owned(),
            image_name_input: "image".to_owned(),
            image_height: "600".to_owned(),
            image_width: "338".to_owned(),
            samples: "50".to_owned(),
            bounces: "15".to_owned(),
            camx: "-1.0".to_owned(),
            camy: "0.0".to_owned(),
            camz: "0.0".to_owned(),
            lookx: "0.0".to_owned(),
            looky: "0.0".to_owned(),
            lookz: "0.0".to_owned(),
            fov: "45.0".to_owned(),
            focus_dist: "1.5".to_owned(),
            aperture: "0.0".to_owned(),
            selected_object: None,
            sky_type: SkyType::Gradient,
            sky_color1: "a0a0a0".to_owned(),
            sky_color2: "ffffff".to_owned(),
            sky: SkyModel::Gradient {
                start: DisplayPixel { r: 160, g: 160, b: 160 },
                end: DisplayPixel { r: 255, g: 255, b: 255 },
            },
        }
    }

    /// The color the material form's swatch shows, with the magenta
    /// sentinel for malformed input.
    pub fn get_color(&self) -> (r: DisplayPixel)
        ensures
            r == spec_get_color(self.mat_color_input@),
    {
        let v = chars_of(self.mat_color_input.as_str());
        if v.len() != 6 {
            return DisplayPixel { r: 255, g: 0, b: 255 };
        }
        let rr = match hex_byte_at(&v, 0) {
            Some(x) => x,
            None => 255,
        };
        let gg = match hex_byte_at(&v, 2) {
            Some(x) => x,
            None => 0,
        };
        let bb = match hex_byte_at(&v, 4) {
            Some(x) => x,
            None => 255,
        };
        proof {
            assert(v@.subrange(0, 2) =~= self.mat_color_input@.subrange(0, 2));
            assert(v@.subrange(2, 4) =~= self.mat_color_input@.subrange(2, 4));
            assert(v@.subrange(4, 6) =~= self.mat_color_input@.subrange(4, 6));
        }
        DisplayPixel { r: rr, g: gg, b: bb }
    }

    /// Why saving the material form would fail: the extra-property text
    /// does not parse, or no material kind is chosen.
    pub open spec fn spec_save_material_err(self) -> Option<Seq<char>> {
        if spec_parse_fixed(self.mat_other_input@) is None {
            Some("Invalid other value"@)
        } else if self.mat_type_input is None {
            Some("No material type provided"@)
        } else {
            None
        }
    }

    /// The material the form describes: the swatch color and, where the
    /// kind needs it, the parsed extra property.
    pub open spec fn spec_new_material(self) -> SceneMaterial {
        let color = spec_get_color(self.mat_color_input@);
        let other = spec_parse_fixed(self.mat_other_input@)->0 as i64;
        match self.mat_type_input->0 {
            MaterialType::Lambertian => SceneMaterial::Lambertian { albedo: color },
            MaterialType::Metal => SceneMaterial::Metal { albedo: color, roughness: other },
            MaterialType::Dielectric => SceneMaterial::Dielectric { ior: other },
            MaterialType::Normal => SceneMaterial::Normal,
        }
    }

    /// Saves the material form: appends the described material under the
    /// typed name and resets the color, kind and property fields; on
    /// failure reports why and changes nothing.
    pub fn save_material(&mut self) -> (r: Result<(), String>)
        requires
            old(self).wf(),
        ensures
            final(self).wf(),
            match r {
                Ok(_) => {
                    &&& old(self).spec_save_material_err() is None
                    &&& final(self).materials@ == old(self).materials@.push(
                        (old(self).mat_name_input, old(self).spec_new_material()),
                    )
                    &&& final(self).mat_color_input@ == "fa4e4e"@
                    &&& final(self).mat_type_input is None
                    &&& final(self).mat_other_input@ == "1.0"@
                    &&& *final(self) == (App {
                        materials: final(self).materials,
                        mat_color_input: final(self).mat_color_input,
                        mat_type_input: None,
                        mat_other_input: final(self).mat_other_input,
                        ..*old(self)
                    })
                },
                Err(m) => old(self).spec_save_material_err() == Some(m@) && *final(self) == *old(
                    self,
                ),
            },
    {
        let other = match parse_fixed(self.mat_other_input.as_str()) {
            Some(v) => v,
            None => {
                return Err("Invalid other value".to_owned());
            },
        };
        let color = self.get_color();
        let mat = match &self.mat_type_input {
            Some(t) => match t {
                MaterialType::Lambertian => SceneMaterial::Lambertian { albedo: color },
                MaterialType::Metal => SceneMaterial::Metal { albedo: color, roughness: other },
                MaterialType::Dielectric => SceneMaterial::Dielectric { ior: other },
                MaterialType::Normal => SceneMaterial::Normal,
            },
            None => {
                return Err("No material type provided".to_owned());
            },
        };
        self.materials.push((self.mat_name_input.clone(), mat));
        self.mat_color_input = "fa4e4e".to_owned();
        self.mat_type_input = None;
        self.mat_other_input = "1.0".to_owned();
        Ok(())
    }

    /// Why saving the object form would fail: a material index past the
    /// table, an unparseable size or position field, or an unknown
    /// object type, in that order.
    pub open spec fn spec_save_object_err(self) -> Option<Seq<char>> {
        if self.material_input >= self.materials@.len() {
            Some("Invalid material input"@)
        } else if spec_parse_fixed(self.size_input@) is None {
            Some("Invalid size input"@)
        } else if spec_parse_fixed(self.position_input_x@) is None {
            Some("Invalid position input x"@)
        } else if spec_parse_fixed(self.position_input_y@) is None {
            Some("Invalid position input y"@)
        } else if spec_parse_fixed(self.position_input_z@) is None {
            Some("Invalid position input z"@)
        } else if self.type_input >= 2 {
            Some("Invalid object type"@)
        } else {
            None
        }
    }

    /// The object the form describes: a sphere at the typed position, or
    /// a plane whose origin height is the size field and whose normal is
    /// the typed position, each holding the chosen material's index.
    pub open spec fn spec_new_object(self) -> SceneObject {
        let size = spec_parse_fixed(self.size_input@)->0 as i64;
        let pos = Vec3Fixed {
            x: spec_parse_fixed(self.position_input_x@)->0 as i64,
            y: spec_parse_fixed(self.position_input_y@)->0 as i64,
            z: spec_parse_fixed(self.position_input_z@)->0 as i64,
        };
        if self.type_input == 0 {
            SceneObject::Sphere { center: pos, radius: size, material: self.material_input }
        } else {
            SceneObject::Plane {
                origin: Vec3Fixed { x: 0, y: size, z: 0 },
                normal: pos,
                material: self.material_input,
            }
        }
    }

    /// Saves the object form: appends the described object and resets
    /// the form to its defaults; on failure reports why and changes
    /// nothing.
    pub fn save_object(&mut self) -> (r: Result<(), String>)
        requires
            old(self).wf(),
        ensures
            final(self).wf(),
            match r {
                Ok(_) => {
                    &&& old(self).spec_save_object_err() is None
                    &&& final(self).world@ == old(self).world@.push(old(self).spec_new_object())
                    &&& final(self).material_input == 0
                    &&& final(self).size_input@ == "0.5"@
                    &&& final(self).position_input_x@ == "0.0"@
                    &&& final(self).position_input_y@ == "0.0"@
                    &&& final(self).position_input_z@ == "0.0"@
                    &&& *final(self) == (App {
                        world: final(self).world,
                        material_input: 0,
                        size_input: final(self).size_input,
                        position_input_x: final(self).position_input_x,
                        position_input_y: final(self).position_input_y,
                        position_input_z: final(self).position_input_z,
                        ..*old(self)
                    })
                },
                Err(m) => old(self).spec_save_object_err() == Some(m@) && *final(self) == *old(
                    self,
                ),
            },
    {
        if self.material_input >= self.materials.len() {
            return Err("Invalid material input".to_owned());
        }
        let size = match parse_fixed(self.size_input.as_str()) {
            Some(v) => v,
            None => {
                return Err("Invalid size input".to_owned());
            },
        };
        let pos_x = match parse_fixed(self.position_input_x.as_str()) {
            Some(v) => v,
            None => {
                return Err("Invalid position input x".to_owned());
            },
        };
        let pos_y = match parse_fixed(self.position_input_y.as_str()) {
            Some(v) => v,
            None => {
                return Err("Invalid position input y".to_owned());
            },
        };
        let pos_z = match parse_fixed(self.position_input_z.as_str()) {
            Some(v) => v,
            None => {
                return Err("Invalid position input z".to_owned());
            },
        };
        let position = Vec3Fixed { x: pos_x, y: pos_y, z: pos_z };
        let object = match self.type_input {
            0 => SceneObject::Sphere {
                center: position,
                radius: size,
                material: self.material_input,
            },
            1 => SceneObject::Plane {
                origin: Vec3Fixed { x: 0, y: size, z: 0 },
                normal: position,
                material: self.material_input,
            },
            _ => {
                return Err("Invalid object type".to_owned());
            },
        };
        self.world.push(object);
        self.material_input = 0;
        self.size_input = "0.5".to_owned();
        self.position_input_x = "0.0".to_owned();
        self.position_input_y = "0.0".to_owned();
        self.position_input_z = "0.0".to_owned();
        Ok(())
    }

    /// Why saving the sky form would fail: the first or the second color
    /// field is not a six-digit color, in that order.
    pub open spec fn spec_save_sky_err(self) -> Option<Seq<char>> {
        if spec_hex_rgb(self.sky_color1@) is None {
            Some("Invalid sky color 1"@)
        } else if spec_hex_rgb(self.sky_color2@) is None {
            Some("Invalid sky color 2"@)
        } else {
            None
        }
    }

    /// The sky the form describes: the second color alone for a solid
    /// sky, or a gradient running from the second color to the first.
    pub open spec fn spec_new_sky(self) -> SkyModel {
        let end = spec_hex_rgb(self.sky_color1@)->0;
        let start = spec_hex_rgb(self.sky_color2@)->0;
        match self.sky_type {
            SkyType::Solid => SkyModel::Solid { color: start },
            SkyType::Gradient => SkyModel::Gradient { start, end },
        }
    }

    /// Saves the sky form: replaces the sky with the one described; on
    /// failure reports which color field is bad and changes nothing.
    pub fn save_sky(&mut self) -> (r: Result<(), String>)
        requires
            old(self).wf(),
        ensures
            final(self).wf(),
            match r {
                Ok(_) => {
                    &&& old(self).spec_save_sky_err() is None
                    &&& final(self).sky == old(self).spec_new_sky()
                    &&& *final(self) == (App { sky: final(self).sky, ..*old(self) })
                },
                Err(m) => old(self).spec_save_sky_err() == Some(m@) && *final(self) == *old(self),
            },
    {
        let end = match hex_rgb(self.sky_color1.as_str()) {
            Some(c) => c,
            None => {
                return Err("Invalid sky color 1".to_owned());
            },
        };
        let start = match hex_rgb(self.sky_color2.as_str()) {
            Some(c) => c,
            None => {
                return Err("Invalid sky color 2".to_owned());
            },
        };
        self.sky = match self.sky_type {
            SkyType::Solid => SkyModel::Solid { color: start },
            SkyType::Gradient => SkyModel::Gradient { start, end },
        };
        Ok(())
    }

    /// The field the focus moves to from the current one. Fields cycle
    /// within their form; the material property is skipped unless the
    /// chosen kind uses it, and the second sky color is skipped for a
    /// solid sky. With no field in focus, editing starts at the form's
    /// first sensible field.
    pub open spec fn spec_next_edit(self, forwards: bool) -> Option<CurrentlyEditing> {
        match self.current_edit {
            Some(edit_mode) => Some(
                match (edit_mode, forwards) {
                    (CurrentlyEditing::Type, true) => CurrentlyEditing::Size,
                    (CurrentlyEditing::Size, true) => CurrentlyEditing::PositionX,
                    (CurrentlyEditing::PositionX, true) => CurrentlyEditing::PositionY,
                    (CurrentlyEditing::PositionY, true) => CurrentlyEditing::PositionZ,
                    (CurrentlyEditing::PositionZ, true) => CurrentlyEditing::Material,
                    (CurrentlyEditing::Material, true) => CurrentlyEditing::Type,
                    (CurrentlyEditing::MatType, true) => CurrentlyEditing::MatColor,
                    (CurrentlyEditing::MatColor, true) => match self.mat_type_input {
                        Some(MaterialType::Dielectric) => CurrentlyEditing::MatProperty,
                        Some(MaterialType::Metal) => CurrentlyEditing::MatProperty,
                        _ => CurrentlyEditing::MatName,
                    },
                    (CurrentlyEditing::MatProperty, true) => CurrentlyEditing::MatName,
                    (CurrentlyEditing::MatName, true) => CurrentlyEditing::MatType,
                    (CurrentlyEditing::SkyColor1, true) => match self.sky_type {
                        SkyType::Gradient => CurrentlyEditing::SkyColor2,
                        SkyType::Solid => CurrentlyEditing::SkyType,
                    },
                    (CurrentlyEditing::SkyColor2, true) => CurrentlyEditing::SkyType,
                    (CurrentlyEditing::SkyType, true) => CurrentlyEditing::SkyColor1,
                    (CurrentlyEditing::Width, true) => CurrentlyEditing::Height,
                    (CurrentlyEditing::Height, true) => CurrentlyEditing::ImgName,
                    (CurrentlyEditing::ImgName, true) => CurrentlyEditing::Samples,
                    (CurrentlyEditing::Samples, true) => CurrentlyEditing::Bounces,
                    (CurrentlyEditing::Bounces, true) => CurrentlyEditing::CamX,
                    (CurrentlyEditing::CamX, true) => CurrentlyEditing::CamY,
                    (CurrentlyEditing::CamY, true) => CurrentlyEditing::CamZ,
                    (CurrentlyEditing::CamZ, true) => CurrentlyEditing::LookX,
                    (CurrentlyEditing::LookX, true) => CurrentlyEditing::LookY,
                    (CurrentlyEditing::LookY, true) => CurrentlyEditing::LookZ,
                    (CurrentlyEditing::LookZ, true) => CurrentlyEditing::Fov,
                    (CurrentlyEditing::Fov, true) => CurrentlyEditing::FocusDist,
                    (CurrentlyEditing::FocusDist, true) => CurrentlyEditing::Aperture,
                    (CurrentlyEditing::Aperture, true) => CurrentlyEditing::Width,
                    (CurrentlyEditing::Type, false) => CurrentlyEditing::Material,
                    (CurrentlyEditing::Size, false) => CurrentlyEditing::Type,
                    (CurrentlyEditing::PositionX, false) => CurrentlyEditing::Size,
                    (CurrentlyEditing::PositionY, false) => CurrentlyEditing::PositionX,
                    (CurrentlyEditing::PositionZ, false) => CurrentlyEditing::PositionY,
                    (CurrentlyEditing::Material, false) => CurrentlyEditing::PositionZ,
                    (CurrentlyEditing::MatType, false) => CurrentlyEditing::MatName,
                    (CurrentlyEditing::MatColor, false) => CurrentlyEditing::MatType,
                    (CurrentlyEditing::MatProperty, false) => CurrentlyEditing::MatColor,
                    (CurrentlyEditing::MatName, false) => match self.mat_type_input {
                        Some(MaterialType::Dielectric) => CurrentlyEditing::MatProperty,
                        Some(MaterialType::Metal) => CurrentlyEditing::MatProperty,
                        _ => CurrentlyEditing::MatColor,
                    },
                    (CurrentlyEditing::SkyColor1, false) => CurrentlyEditing::SkyType,
                    (CurrentlyEditing::SkyColor2, false) => CurrentlyEditing::SkyColor1,
                    (CurrentlyEditing::SkyType, false) => match self.sky_type {
                        SkyType::Gradient => CurrentlyEditing::SkyColor2,
                        SkyType::Solid => CurrentlyEditing::SkyColor1,
                    },
                    (CurrentlyEditing::Width, false) => CurrentlyEditing::Aperture,
                    (CurrentlyEditing::Height, false) => CurrentlyEditing::Width,
                    (CurrentlyEditing::ImgName, false) => CurrentlyEditing::Height,
                    (CurrentlyEditing::Samples, false) => CurrentlyEditing::ImgName,
                    (CurrentlyEditing::Bounces, false) => CurrentlyEditing::Samples,
                    (CurrentlyEditing::CamX, false) => CurrentlyEditing::Bounces,
                    (CurrentlyEditing::CamY, false) => CurrentlyEditing::CamX,
                    (CurrentlyEditing::CamZ, false) => CurrentlyEditing::CamY,
                    (CurrentlyEditing::LookX, false) => CurrentlyEditing::CamZ,
                    (CurrentlyEditing::LookY, false) => CurrentlyEditing::LookX,
                    (CurrentlyEditing::LookZ, false) => CurrentlyEditing::LookY,
                    (CurrentlyEditing::Fov, false) => CurrentlyEditing::LookZ,
                    (CurrentlyEditing::FocusDist, false) => CurrentlyEditing::Fov,
                    (CurrentlyEditing::Aperture, false) => CurrentlyEditing::FocusDist,
                },
            ),
            None => Some(
                match self.current_screen {
                    CurrentScreen::MaterialEditor => CurrentlyEditing::MatColor,
                    _ => CurrentlyEditing::Size,
                },
            ),
        }
    }

    /// Moves the focus to the next (or previous) field of the current
    /// form; nothing else changes.
    pub fn change_editing(&mut self, forwards: bool)
        ensures
            final(self).current_edit == old(self).spec_next_edit(forwards),
            *final(self) == (App { current_edit: final(self).current_edit, ..*old(self) }),
    {
        if let Some(edit_mode) = &self.current_edit {
            self.current_edit = match (edit_mode, forwards) {
                (CurrentlyEditing::Type, true) => Some(CurrentlyEditing::Size),
                (CurrentlyEditing::Size, true) => Some(CurrentlyEditing::PositionX),
                (CurrentlyEditing::PositionX, true) => Some(CurrentlyEditing::PositionY),
                (CurrentlyEditing::PositionY, true) => Some(CurrentlyEditing::PositionZ),
                (CurrentlyEditing::PositionZ, true) => Some(CurrentlyEditing::Material),
                (CurrentlyEditing::Material, true) => Some(CurrentlyEditing::Type),
                (CurrentlyEditing::MatType, true) => Some(CurrentlyEditing::MatColor),
                (CurrentlyEditing::MatColor, true) => match self.mat_type_input {
                    Some(MaterialType::Dielectric) | Some(MaterialType::Metal) => Some(
                        CurrentlyEditing::MatProperty,
                    ),
                    _ => Some(CurrentlyEditing::MatName),
                },
                (CurrentlyEditing::MatProperty, true) => Some(CurrentlyEditing::MatName),
                (CurrentlyEditing::MatName, true) => Some(CurrentlyEditing::MatType),
                (CurrentlyEditing::SkyColor1, true) => match self.sky_type {
                    SkyType::Gradient => Some(CurrentlyEditing::SkyColor2),
                    SkyType::Solid => Some(CurrentlyEditing::SkyType),
                },
                (CurrentlyEditing::SkyColor2, true) => Some(CurrentlyEditing::SkyType),
                (CurrentlyEditing::SkyType, true) => Some(CurrentlyEditing::SkyColor1),
                (CurrentlyEditing::Width, true) => Some(CurrentlyEditing::Height),
                (CurrentlyEditing::Height, true) => Some(CurrentlyEditing::ImgName),
                (CurrentlyEditing::ImgName, true) => Some(CurrentlyEditing::Samples),
                (CurrentlyEditing::Samples, true) => Some(CurrentlyEditing::Bounces),
                (CurrentlyEditing::Bounces, true) => Some(CurrentlyEditing::CamX),
                (CurrentlyEditing::CamX, true) => Some(CurrentlyEditing::CamY),
                (CurrentlyEditing::CamY, true) => Some(CurrentlyEditing::CamZ),
                (CurrentlyEditing::CamZ, true) => Some(CurrentlyEditing::LookX),
                (CurrentlyEditing::LookX, true) => Some(CurrentlyEditing::LookY),
                (CurrentlyEditing::LookY, true) => Some(CurrentlyEditing::LookZ),
                (CurrentlyEditing::LookZ, true) => Some(CurrentlyEditing::Fov),
                (CurrentlyEditing::Fov, true) => Some(CurrentlyEditing::FocusDist),
                (CurrentlyEditing::FocusDist, true) => Some(CurrentlyEditing::Aperture),
                (CurrentlyEditing::Aperture, true) => Some(CurrentlyEditing::Width),
                (CurrentlyEditing::Type, false) => Some(CurrentlyEditing::Material),
                (CurrentlyEditing::Size, false) => Some(CurrentlyEditing::Type),
                (CurrentlyEditing::PositionX, false) => Some(CurrentlyEditing::Size),
                (CurrentlyEditing::PositionY, false) => Some(CurrentlyEditing::PositionX),
                (CurrentlyEditing::PositionZ, false) => Some(CurrentlyEditing::PositionY),
                (CurrentlyEditing::Material, false) => Some(CurrentlyEditing::PositionZ),
                (CurrentlyEditing::MatType, false) => Some(CurrentlyEditing::MatName),
                (CurrentlyEditing::MatColor, false) => Some(CurrentlyEditing::MatType),
                (CurrentlyEditing::MatProperty, false) => Some(CurrentlyEditing::MatColor),
                (CurrentlyEditing::MatName, false) => match self.mat_type_input {
                    Some(MaterialType::Dielectric) | Some(MaterialType::Metal) => Some(
                        CurrentlyEditing::MatProperty,
                    ),
                    _ => Some(CurrentlyEditing::MatColor),
                },
                (CurrentlyEditing::SkyColor1, false) => Some(CurrentlyEditing::SkyType),
                (CurrentlyEditing::SkyColor2, false) => Some(CurrentlyEditing::SkyColor1),
                (CurrentlyEditing::SkyType, false) => match self.sky_type {
                    SkyType::Gradient => Some(CurrentlyEditing::SkyColor2),
                    SkyType::Solid => Some(CurrentlyEditing::SkyColor1),
                },
                (CurrentlyEditing::Width, false) => Some(CurrentlyEditing::Aperture),
                (CurrentlyEditing::Height, false) => Some(CurrentlyEditing::Width),
                (CurrentlyEditing::ImgName, false) => Some(CurrentlyEditing::Height),
                (CurrentlyEditing::Samples, false) => Some(CurrentlyEditing::ImgName),
                (CurrentlyEditing::Bounces, false) => Some(CurrentlyEditing::Samples),
                (CurrentlyEditing::CamX, false) => Some(CurrentlyEditing::Bounces),
                (CurrentlyEditing::CamY, false) => Some(CurrentlyEditing::CamX),
                (CurrentlyEditing::CamZ, false) => Some(CurrentlyEditing::CamY),
                (CurrentlyEditing::LookX, false) => Some(CurrentlyEditing::CamZ),
                (CurrentlyEditing::LookY, false) => Some(CurrentlyEditing::LookX),
                (CurrentlyEditing::LookZ, false) => Some(CurrentlyEditing::LookY),
                (CurrentlyEditing::Fov, false) => Some(CurrentlyEditing::LookZ),
                (CurrentlyEditing::FocusDist, false) => Some(CurrentlyEditing::Fov),
                (CurrentlyEditing::Aperture, false) => Some(CurrentlyEditing::FocusDist),
            }
        } else {
            self.current_edit = match self.current_screen {
                CurrentScreen::MaterialEditor => Some(CurrentlyEditing::MatColor),
                _ => Some(CurrentlyEditing::Size),
            }
        }
    }
}

/// A key press, as the state machine sees it. The embedding application
/// translates its input events to these.
#[derive(Clone, Copy, Debug, PartialEq, Eq, Structural)]
pub enum InputKey {
    Char(char),
    Esc,
    Enter,
    Tab,
    BackTab,
    Left,
    Right,
    Up,
    Down,
    Backspace,
}

/// What the embedding application must do after a key is handled: keep
/// going, quit, or run the full render and report how it went.
#[derive(Clone, Copy, Debug, PartialEq, Eq, Structural)]
pub enum AppAction {
    Continue,
    Quit,
    RenderImage,
}

/// The text with its last character removed, or unchanged when empty.
pub open spec fn spec_pop(s: Seq<char>) -> Seq<char> {
    if s.len() == 0 {
        s
    } else {
        s.drop_last()
    }
}

/// The last valid index of a list, or zero when it is empty.
pub open spec fn spec_sat_last(len: nat) -> int {
    if len == 0 {
        0
    } else {
        len - 1
    }
}

impl App {
    /// Where the object-list selection moves on an up key: back one, or
    /// around to the end.
    pub open spec fn spec_sel_up(self) -> int {
        match self.selected_object {
            Some(s) => if s > 0 {
                s - 1
            } else {
                spec_sat_last(self.world@.len())
            },
            None => spec_sat_last(self.world@.len()),
        }
    }

    /// Where the object-list selection moves on a down key: forward one,
    /// or around to the start.
    pub open spec fn spec_sel_down(self) -> int {
        match self.selected_object {
            Some(s) => if s < spec_sat_last(self.world@.len()) {
                s + 1
            } else {
                0int
            },
            None => 0,
        }
    }

    /// The next material in the table, wrapping around.
    pub open spec fn spec_mat_cycle_up(self) -> int {
        if self.material_input < self.materials@.len() - 1 {
            self.material_input + 1
        } else {
            0
        }
    }

    /// The previous material in the table, wrapping around.
    pub open spec fn spec_mat_cycle_down(self) -> int {
        if self.material_input > 0 {
            self.material_input - 1
        } else {
            spec_sat_last(self.materials@.len())
        }
    }
}

/// The next material kind in the cycle the form offers.
pub open spec fn spec_mat_type_up(t: MaterialType) -> MaterialType {
    match t {
        MaterialType::Lambertian => MaterialType::Metal,
        MaterialType::Metal => MaterialType::Dielectric,
        MaterialType::Dielectric => MaterialType::Normal,
        MaterialType::Normal => MaterialType::Lambertian,
    }
}

/// The previous material kind in the cycle the form offers.
pub open spec fn spec_mat_type_down(t: MaterialType) -> MaterialType {
    match t {
        MaterialType::Lambertian => MaterialType::Normal,
        MaterialType::Metal => MaterialType::Lambertian,
        MaterialType::Dielectric => MaterialType::Metal,
        MaterialType::Normal => MaterialType::Dielectric,
    }
}

/// The action a key press asks of the embedding application: quitting
/// is confirmed on the confirmation screen, and the full render starts
/// from the render form.
pub open spec fn spec_key_action(a: App, key: InputKey) -> AppAction {
    match a.current_screen {
        CurrentScreen::Confirmation => match key {
            InputKey::Char(c) => if c == 'y' || c == 'q' {
                AppAction::Quit
            } else {
                AppAction::Continue
            },
            _ => AppAction::Continue,
        },
        CurrentScreen::Render => if key is Enter {
            AppAction::RenderImage
        } else {
            AppAction::Continue
        },
        _ => AppAction::Continue,
    }
}

/// How a key changes the state on the main screen.
pub open spec fn spec_main_transition(a: App, b: App, key: InputKey) -> bool {
    match key {
        InputKey::Char(c) => if c == 'n' {
            b == (App {
                current_screen: CurrentScreen::Editor,
                current_edit: Some(CurrentlyEditing::Size),
                ..a
            })
        } else if c == 'm' {
            b == (App {
                current_screen: CurrentScreen::MaterialEditor,
                current_edit: Some(CurrentlyEditing::MatType),
                mat_type_input: Some(MaterialType::Lambertian),
                ..a
            })
        } else if c == 'q' {
            b == (App { current_screen: CurrentScreen::Confirmation, ..a })
        } else if c == 'r' {
            b == (App {
                current_screen: CurrentScreen::Render,
                current_edit: Some(CurrentlyEditing::Width),
                ..a
            })
        } else if c == 'p' {
            b == (App { current_screen: CurrentScreen::Preview, ..a })
        } else {
            b == a
        },
        InputKey::Up => b == (App {
            selected_object: Some(a.spec_sel_up() as usize),
            ..a
        }),
        InputKey::Down => b == (App {
            selected_object: Some(a.spec_sel_down() as usize),
            ..a
        }),
        _ => b == a,
    }
}

/// How a key changes the state on the quit-confirmation screen.
pub open spec fn spec_confirmation_transition(a: App, b: App, key: InputKey) -> bool {
    match key {
        InputKey::Char(c) => if c == 'n' {
            b == (App { current_screen: CurrentScreen::Main, ..a })
        } else {
            b == a
        },
        _ => b == a,
    }
}

/// How a key changes the state on the preview screens: escape leaves,
/// and the windowed preview can go full screen.
pub open spec fn spec_preview_transition(a: App, b: App, key: InputKey) -> bool {
    match key {
        InputKey::Esc => b == (App { current_screen: CurrentScreen::Main, ..a }),
        InputKey::Char(c) => if c == 'f' && a.current_screen is Preview {
            b == (App { current_screen: CurrentScreen::PreviewFull, ..a })
        } else {
            b == a
        },
        _ => b == a,
    }
}

/// The focus moved one field, nothing else changed.
pub open spec fn spec_focus_moved(a: App, b: App, forwards: bool) -> bool {
    &&& b.current_edit == a.spec_next_edit(forwards)
    &&& b == (App { current_edit: b.current_edit, ..a })
}

/// The object form was saved and the editor returned to the main
/// screen.
pub open spec fn spec_object_saved_main(a: App, b: App) -> bool {
    &&& b.world@ == a.world@.push(a.spec_new_object())
    &&& b.material_input == 0
    &&& b.size_input@ == "0.5"@
    &&& b.position_input_x@ == "0.0"@
    &&& b.position_input_y@ == "0.0"@
    &&& b.position_input_z@ == "0.0"@
    &&& b == (App {
        current_screen: CurrentScreen::Main,
        world: b.world,
        material_input: 0,
        size_input: b.size_input,
        position_input_x: b.position_input_x,
        position_input_y: b.position_input_y,
        position_input_z: b.position_input_z,
        ..a
    })
}

/// The material form was saved and the editor returned to the main
/// screen with no field in focus.
pub open spec fn spec_material_saved_main(a: App, b: App) -> bool {
    &&& b.materials@ == a.materials@.push((a.mat_name_input, a.spec_new_material()))
    &&& b.mat_color_input@ == "fa4e4e"@
    &&& b.mat_other_input@ == "1.0"@
    &&& b == (App {
        current_screen: CurrentScreen::Main,
        current_edit: None,
        materials: b.materials,
        mat_color_input: b.mat_color_input,
        mat_type_input: None,
        mat_other_input: b.mat_other_input,
        ..a
    })
}

/// How a key changes the state in the object editor.
pub open spec fn spec_editor_transition(a: App, b: App, key: InputKey) -> bool {
    match key {
        InputKey::Esc => b == (App {
            current_screen: CurrentScreen::Main,
            current_edit: None,
            ..a
        }),
        InputKey::Tab => spec_focus_moved(a, b, true),
        InputKey::Right => spec_focus_moved(a, b, true),
        InputKey::BackTab => spec_focus_moved(a, b, false),
        InputKey::Left => spec_focus_moved(a, b, false),
        InputKey::Enter => if a.spec_save_object_err() is None {
            spec_object_saved_main(a, b)
        } else {
            b == a
        },
        InputKey::Up => if a.current_edit == Some(CurrentlyEditing::Material) {
            b == (App { material_input: a.spec_mat_cycle_up() as usize, ..a })
        } else {
            b == a
        },
        InputKey::Down => if a.current_edit == Some(CurrentlyEditing::Material) {
            b == (App { material_input: a.spec_mat_cycle_down() as usize, ..a })
        } else {
            b == a
        },
        InputKey::Char(c) => match a.current_edit {
            Some(CurrentlyEditing::Size) => b.size_input@ == a.size_input@.push(c) && b == (App {
                size_input: b.size_input,
                ..a
            }),
            Some(CurrentlyEditing::PositionX) => b.position_input_x@ == a.position_input_x@.push(
                c,
            ) && b == (App { position_input_x: b.position_input_x, ..a }),
            Some(CurrentlyEditing::PositionY) => b.position_input_y@ == a.position_input_y@.push(
                c,
            ) && b == (App { position_input_y: b.position_input_y, ..a }),
            Some(CurrentlyEditing::PositionZ) => b.position_input_z@ == a.position_input_z@.push(
                c,
            ) && b == (App { position_input_z: b.position_input_z, ..a }),
            _ => b == a,
        },
        InputKey::Backspace => match a.current_edit {
            Some(CurrentlyEditing::Size) => b.size_input@ == spec_pop(a.size_input@) && b == (App {
                size_input: b.size_input,
                ..a
            }),
            Some(CurrentlyEditing::PositionX) => b.position_input_x@ == spec_pop(
                a.position_input_x@,
            ) && b == (App { position_input_x: b.position_input_x, ..a }),
            Some(CurrentlyEditing::PositionY) => b.position_input_y@ == spec_pop(
                a.position_input_y@,
            ) && b == (App { position_input_y: b.position_input_y, ..a }),
            Some(CurrentlyEditing::PositionZ) => b.position_input_z@ == spec_pop(
                a.position_input_z@,
            ) && b == (App { position_input_z: b.position_input_z, ..a }),
            _ => b == a,
        },
    }
}

/// How a key changes the state in the material editor.
pub open spec fn spec_material_editor_transition(a: App, b: App, key: InputKey) -> bool {
    match key {
        InputKey::Esc => b == (App { current_screen: CurrentScreen::Main, ..a }),
        InputKey::Tab => spec_focus_moved(a, b, true),
        InputKey::Right => spec_focus_moved(a, b, true),
        InputKey::BackTab => spec_focus_moved(a, b, false),
        InputKey::Left => spec_focus_moved(a, b, false),
        InputKey::Enter => if a.spec_save_material_err() is None {
            spec_material_saved_main(a, b)
        } else {
            b == a
        },
        InputKey::Up => if a.current_edit == Some(CurrentlyEditing::MatType) {
            match a.mat_type_input {
                Some(t) => b == (App { mat_type_input: Some(spec_mat_type_up(t)), ..a }),
                None => b == a,
            }
        } else {
            b == a
        },
        InputKey::Down => if a.current_edit == Some(CurrentlyEditing::MatType) {
            match a.mat_type_input {
                Some(t) => b == (App { mat_type_input: Some(spec_mat_type_down(t)), ..a }),
                None => b == a,
            }
        } else {
            b == a
        },
        InputKey::Char(c) => match a.current_edit {
            Some(CurrentlyEditing::MatColor) => b.mat_color_input@ == a.mat_color_input@.push(c)
                && b == (App { mat_color_input: b.mat_color_input, ..a }),
            Some(CurrentlyEditing::MatProperty) => b.mat_other_input@ == a.mat_other_input@.push(
                c,
            ) && b == (App { mat_other_input: b.mat_other_input, ..a }),
            Some(CurrentlyEditing::MatName) => b.mat_name_input@ == a.mat_name_input@.push(c) && b
                == (App { mat_name_input: b.mat_name_input, ..a }),
            _ => b == a,
        },
        InputKey::Backspace => match a.current_edit {
            Some(CurrentlyEditing::MatColor) => b.mat_color_input@ == spec_pop(a.mat_color_input@)
                && b == (App { mat_color_input: b.mat_color_input, ..a }),
            Some(CurrentlyEditing::MatProperty) => b.mat_other_input@ == spec_pop(
                a.mat_other_input@,
            ) && b == (App { mat_other_input: b.mat_other_input, ..a }),
            Some(CurrentlyEditing::MatName) => b.mat_name_input@ == spec_pop(a.mat_name_input@)
                && b == (App { mat_name_input: b.mat_name_input, ..a }),
            _ => b == a,
        },
    }
}

/// How a key changes the state on the render form. The render itself is
/// the embedding application's action; the state does not change on
/// enter.
pub open spec fn spec_render_transition(a: App, b: App, key: InputKey) -> bool {
    match key {
        InputKey::Esc => b == (App { current_screen: CurrentScreen::Main, ..a }),
        InputKey::Enter => b == a,
        InputKey::Up => b == a,
        InputKey::Down => b == a,
        InputKey::Tab => spec_focus_moved(a, b, true),
        InputKey::Right => spec_focus_moved(a, b, true),
        InputKey::BackTab => spec_focus_moved(a, b, false),
        InputKey::Left => spec_focus_moved(a, b, false),
        InputKey::Char(c) => match a.current_edit {
            Some(CurrentlyEditing::Width) => b.image_width@ == a.image_width@.push(c) && b == (App {
                image_width: b.image_width,
                ..a
            }),
            Some(CurrentlyEditing::Height) => b.image_height@ == a.image_height@.push(c) && b
                == (App { image_height: b.image_height, ..a }),
            Some(CurrentlyEditing::ImgName) => b.image_name_input@ == a.image_name_input@.push(c)
                && b == (App { image_name_input: b.image_name_input, ..a }),
            Some(CurrentlyEditing::Samples) => b.samples@ == a.samples@.push(c) && b == (App {
                samples: b.samples,
                ..a
            }),
            Some(CurrentlyEditing::Bounces) => b.bounces@ == a.bounces@.push(c) && b == (App {
                bounces: b.bounces,
                ..a
            }),
            Some(CurrentlyEditing::CamX) => b.camx@ == a.camx@.push(c) && b == (App {
                camx: b.camx,
                ..a
            }),
            Some(CurrentlyEditing::CamY) => b.camy@ == a.camy@.push(c) && b == (App {
                camy: b.camy,
                ..a
            }),
            Some(CurrentlyEditing::CamZ) => b.camz@ == a.camz@.push(c) && b == (App {
                camz: b.camz,
                ..a
            }),
            Some(CurrentlyEditing::LookX) => b.lookx@ == a.lookx@.push(c) && b == (App {
                lookx: b.lookx,
                ..a
            }),
            Some(CurrentlyEditing::LookY) => b.looky@ == a.looky@.push(c) && b == (App {
                looky: b.looky,
                ..a
            }),
            Some(CurrentlyEditing::LookZ) => b.lookz@ == a.lookz@.push(c) && b == (App {
                lookz: b.lookz,
                ..a
            }),
            Some(CurrentlyEditing::Fov) => b.fov@ == a.fov@.push(c) && b == (App {
                fov: b.fov,
                ..a
            }),
            Some(CurrentlyEditing::FocusDist) => b.focus_dist@ == a.focus_dist@.push(c) && b
                == (App { focus_dist: b.focus_dist, ..a }),
            Some(CurrentlyEditing::Aperture) => b.aperture@ == a.aperture@.push(c) && b == (App {
                aperture: b.aperture,
                ..a
            }),
            _ => b == a,
        },
        InputKey::Backspace => match a.current_edit {
            Some(CurrentlyEditing::Width) => b.image_width@ == spec_pop(a.image_width@) && b
                == (App { image_width: b.image_width, ..a }),
            Some(CurrentlyEditing::Height) => b.image_height@ == spec_pop(a.image_height@) && b
                == (App { image_height: b.image_height, ..a }),
            Some(CurrentlyEditing::ImgName) => b.image_name_input@ == spec_pop(
                a.image_name_input@,
            ) && b == (App { image_name_input: b.image_name_input, ..a }),
            Some(CurrentlyEditing::Samples) => b.samples@ == spec_pop(a.samples@) && b == (App {
                samples: b.samples,
                ..a
            }),
            Some(CurrentlyEditing::Bounces) => b.bounces@ == spec_pop(a.bounces@) && b == (App {
                bounces: b.bounces,
                ..a
            }),
            Some(CurrentlyEditing::CamX) => b.camx@ == spec_pop(a.camx@) && b == (App {
                camx: b.camx,
                ..a
            }),
            Some(CurrentlyEditing::CamY) => b.camy@ == spec_pop(a.camy@) && b == (App {
                camy: b.camy,
                ..a
            }),
            Some(CurrentlyEditing::CamZ) => b.camz@ == spec_pop(a.camz@) && b == (App {
                camz: b.camz,
                ..a
            }),
            Some(CurrentlyEditing::LookX) => b.lookx@ == spec_pop(a.lookx@) && b == (App {
                lookx: b.lookx,
                ..a
            }),
            Some(CurrentlyEditing::LookY) => b.looky@ == spec_pop(a.looky@) && b == (App {
                looky: b.looky,
                ..a
            }),
            Some(CurrentlyEditing::LookZ) => b.lookz@ == spec_pop(a.lookz@) && b == (App {
                lookz: b.lookz,
                ..a
            }),
            Some(CurrentlyEditing::Fov) => b.fov@ == spec_pop(a.fov@) && b == (App {
                fov: b.fov,
                ..a
            }),
            Some(CurrentlyEditing::FocusDist) => b.focus_dist@ == spec_pop(a.focus_dist@) && b
                == (App { focus_dist: b.focus_dist, ..a }),
            Some(CurrentlyEditing::Aperture) => b.aperture@ == spec_pop(a.aperture@) && b == (App {
                aperture: b.aperture,
                ..a
            }),
            _ => b == a,
        },
    }
}

/// How a key changes the state on the sky editor: only escape, back to
/// the main screen.
pub open spec fn spec_sky_editor_transition(a: App, b: App, key: InputKey) -> bool {
    match key {
        InputKey::Esc => b == (App { current_screen: CurrentScreen::Main, ..a }),
        _ => b == a,
    }
}

/// How one key press changes the state, by screen.
pub open spec fn spec_key_transition(a: App, b: App, key: InputKey) -> bool {
    match a.current_screen {
        CurrentScreen::Main => spec_main_transition(a, b, key),
        CurrentScreen::Confirmation => spec_confirmation_transition(a, b, key),
        CurrentScreen::Editor => spec_editor_transition(a, b, key),
        CurrentScreen::MaterialEditor => spec_material_editor_transition(a, b, key),
        CurrentScreen::Render => spec_render_transition(a, b, key),
        CurrentScreen::Preview => spec_preview_transition(a, b, key),
        CurrentScreen::PreviewFull => spec_preview_transition(a, b, key),
        CurrentScreen::SkyEditor => spec_sky_editor_transition(a, b, key),
    }
}

impl App {
    fn key_main(&mut self, key: InputKey)
        requires
            old(self).wf(),
            old(self).current_screen is Main,
        ensures
            final(self).wf(),
            spec_main_transition(*old(self), *final(self), key),
    {
        match key {
            InputKey::Char(c) => {
                if c == 'n' {
                    self.current_screen = CurrentScreen::Editor;
                    self.current_edit = Some(CurrentlyEditing::Size);
                } else if c == 'm' {
                    self.current_screen = CurrentScreen::MaterialEditor;
                    self.current_edit = Some(CurrentlyEditing::MatType);
                    self.mat_type_input = Some(MaterialType::Lambertian);
                } else if c == 'q' {
                    self.current_screen = CurrentScreen::Confirmation;
                } else if c == 'r' {
                    self.current_screen = CurrentScreen::Render;
                    self.current_edit = Some(CurrentlyEditing::Width);
                } else if c == 'p' {
                    self.current_screen = CurrentScreen::Preview;
                }
            },
            InputKey::Up => {
                let last = if self.world.len() == 0 {
                    0
                } else {
                    self.world.len() - 1
                };
                self.selected_object = match self.selected_object {
                    Some(s) => if s > 0 {
                        Some(s - 1)
                    } else {
                        Some(last)
                    },
                    None => Some(last),
                };
            },
            InputKey::Down => {
                let last = if self.world.len() == 0 {
                    0
                } else {
                    self.world.len() - 1
                };
                self.selected_object = match self.selected_object {
                    Some(s) => if s < last {
                        Some(s + 1)
                    } else {
                        Some(0)
                    },
                    None => Some(0),
                };
            },
            _ => {},
        }
    }

    fn key_confirmation(&mut self, key: InputKey)
        requires
            old(self).wf(),
            old(self).current_screen is Confirmation,
        ensures
            final(self).wf(),
            spec_confirmation_transition(*old(self), *final(self), key),
    {
        match key {
            InputKey::Char(c) => {
                if c == 'n' {
                    self.current_screen = CurrentScreen::Main;
                }
            },
            _ => {},
        }
    }

    fn key_editor(&mut self, key: InputKey)
        requires
            old(self).wf(),
            old(self).current_screen is Editor,
        ensures
            final(self).wf(),
            spec_editor_transition(*old(self), *final(self), key),
    {
        match key {
            InputKey::Esc => {
                self.current_screen = CurrentScreen::Main;
                self.current_edit = None;
            },
            InputKey::Tab => self.change_editing(true),
            InputKey::Right => self.change_editing(true),
            InputKey::BackTab => self.change_editing(false),
            InputKey::Left => self.change_editing(false),
            InputKey::Enter => {
                match self.save_object() {
                    Ok(_) => {
                        self.current_screen = CurrentScreen::Main;
                    },
                    Err(_) => {},
                }
            },
            InputKey::Up => {
                if let Some(CurrentlyEditing::Material) = self.current_edit {
                    if self.material_input < self.materials.len() - 1 {
                        self.material_input = self.material_input + 1;
                    } else {
                        self.material_input = 0;
                    }
                }
            },
            InputKey::Down => {
                if let Some(CurrentlyEditing::Material) = self.current_edit {
                    if self.material_input > 0 {
                        self.material_input = self.material_input - 1;
                    } else {
                        self.material_input = self.materials.len() - 1;
                    }
                }
            },
            InputKey::Char(c) => {
                match self.current_edit {
                    Some(CurrentlyEditing::Size) => string_push(&mut self.size_input, c),
                    Some(CurrentlyEditing::PositionX) => string_push(
                        &mut self.position_input_x,
                        c,
                    ),
                    Some(CurrentlyEditing::PositionY) => string_push(
                        &mut self.position_input_y,
                        c,
                    ),
                    Some(CurrentlyEditing::PositionZ) => string_push(
                        &mut self.position_input_z,
                        c,
                    ),
                    _ => {},
                }
            },
            InputKey::Backspace => {
                match self.current_edit {
                    Some(CurrentlyEditing::Size) => {
                        let _ = string_pop(&mut self.size_input);
                    },
                    Some(CurrentlyEditing::PositionX) => {
                        let _ = string_pop(&mut self.position_input_x);
                    },
                    Some(CurrentlyEditing::PositionY) => {
                        let _ = string_pop(&mut self.position_input_y);
                    },
                    Some(CurrentlyEditing::PositionZ) => {
                        let _ = string_pop(&mut self.position_input_z);
                    },
                    _ => {},
                }
            },
        }
    }

    fn key_material_editor(&mut self, key: InputKey)
        requires
            old(self).wf(),
            old(self).current_screen is MaterialEditor,
        ensures
            final(self).wf(),
            spec_material_editor_transition(*old(self), *final(self), key),
    {
        match key {
            InputKey::Esc => {
                self.current_screen = CurrentScreen::Main;
            },
            InputKey::Tab => self.change_editing(true),
            InputKey::Right => self.change_editing(true),
            InputKey::BackTab => self.change_editing(false),
            InputKey::Left => self.change_editing(false),
            InputKey::Enter => {
                match self.save_material() {
                    Ok(_) => {
                        self.current_screen = CurrentScreen::Main;
                        self.current_edit = None;
                    },
                    Err(_) => {},
                }
            },
            InputKey::Up => {
                if let Some(CurrentlyEditing::MatType) = self.current_edit {
                    if let Some(t) = self.mat_type_input {
                        self.mat_type_input = Some(
                            match t {
                                MaterialType::Lambertian => MaterialType::Metal,
                                MaterialType::Metal => MaterialType::Dielectric,
                                MaterialType::Dielectric => MaterialType::Normal,
                                MaterialType::Normal => MaterialType::Lambertian,
                            },
                        );
                    }
                }
            },
            InputKey::Down => {
                if let Some(CurrentlyEditing::MatType) = self.current_edit {
                    if let Some(t) = self.mat_type_input {
                        self.mat_type_input = Some(
                            match t {
                                MaterialType::Lambertian => MaterialType::Normal,
                                MaterialType::Metal => MaterialType::Lambertian,
                                MaterialType::Dielectric => MaterialType::Metal,
                                MaterialType::Normal => MaterialType::Dielectric,
                            },
                        );
                    }
                }
            },
            InputKey::Char(c) => {
                match self.current_edit {
                    Some(CurrentlyEditing::MatColor) => string_push(&mut self.mat_color_input, c),
                    Some(CurrentlyEditing::MatProperty) => string_push(
                        &mut self.mat_other_input,
                        c,
                    ),
                    Some(CurrentlyEditing::MatName) => string_push(&mut self.mat_name_input, c),
                    _ => {},
                }
            },
            InputKey::Backspace => {
                match self.current_edit {
                    Some(CurrentlyEditing::MatColor) => {
                        let _ = string_pop(&mut self.mat_color_input);
                    },
                    Some(CurrentlyEditing::MatProperty) => {
                        let _ = string_pop(&mut self.mat_other_input);
                    },
                    Some(CurrentlyEditing::MatName) => {
                        let _ = string_pop(&mut self.mat_name_input);
                    },
                    _ => {},
                }
            },
        }
    }

    fn key_render(&mut self, key: InputKey)
        requires
            old(self).wf(),
            old(self).current_screen is Render,
        ensures
            final(self).wf(),
            spec_render_transition(*old(self), *final(self), key),
    {
        match key {
            InputKey::Esc => {
                self.current_screen = CurrentScreen::Main;
            },
            InputKey::Enter => {},
            InputKey::Up => {},
            InputKey::Down => {},
            InputKey::Tab => self.change_editing(true),
            InputKey::Right => self.change_editing(true),
            InputKey::BackTab => self.change_editing(false),
            InputKey::Left => self.change_editing(false),
            InputKey::Char(c) => {
                match self.current_edit {
                    Some(CurrentlyEditing::Width) => string_push(&mut self.image_width, c),
                    Some(CurrentlyEditing::Height) => string_push(&mut self.image_height, c),
                    Some(CurrentlyEditing::ImgName) => string_push(&mut self.image_name_input, c),
                    Some(CurrentlyEditing::Samples) => string_push(&mut self.samples, c),
                    Some(CurrentlyEditing::Bounces) => string_push(&mut self.bounces, c),
                    Some(CurrentlyEditing::CamX) => string_push(&mut self.camx, c),
                    Some(CurrentlyEditing::CamY) => string_push(&mut self.camy, c),
                    Some(CurrentlyEditing::CamZ) => string_push(&mut self.camz, c),
                    Some(CurrentlyEditing::LookX) => string_push(&mut self.lookx, c),
                    Some(CurrentlyEditing::LookY) => string_push(&mut self.looky, c),
                    Some(CurrentlyEditing::LookZ) => string_push(&mut self.lookz, c),
                    Some(CurrentlyEditing::Fov) => string_push(&mut self.fov, c),
                    Some(CurrentlyEditing::FocusDist) => string_push(&mut self.focus_dist, c),
                    Some(CurrentlyEditing::Aperture) => string_push(&mut self.aperture, c),
                    _ => {},
                }
            },
            InputKey::Backspace => {
                match self.current_edit {
                    Some(CurrentlyEditing::Width) => {
                        let _ = string_pop(&mut self.image_width);
                    },
                    Some(CurrentlyEditing::Height) => {
                        let _ = string_pop(&mut self.image_height);
                    },
                    Some(CurrentlyEditing::ImgName) => {
                        let _ = string_pop(&mut self.image_name_input);
                    },
                    Some(CurrentlyEditing::Samples) => {
                        let _ = string_pop(&mut self.samples);
                    },
                    Some(CurrentlyEditing::Bounces) => {
                        let _ = string_pop(&mut self.bounces);
                    },
                    Some(CurrentlyEditing::CamX) => {
                        let _ = string_pop(&mut self.camx);
                    },
                    Some(CurrentlyEditing::CamY) => {
                        let _ = string_pop(&mut self.camy);
                    },
                    Some(CurrentlyEditing::CamZ) => {
                        let _ = string_pop(&mut self.camz);
                    },
                    Some(CurrentlyEditing::LookX) => {
                        let _ = string_pop(&mut self.lookx);
                    },
                    Some(CurrentlyEditing::LookY) => {
                        let _ = string_pop(&mut self.looky);
                    },
                    Some(CurrentlyEditing::LookZ) => {
                        let _ = string_pop(&mut self.lookz);
                    },
                    Some(CurrentlyEditing::Fov) => {
                        let _ = string_pop(&mut self.fov);
                    },
                    Some(CurrentlyEditing::FocusDist) => {
                        let _ = string_pop(&mut self.focus_dist);
                    },
                    Some(CurrentlyEditing::Aperture) => {
                        let _ = string_pop(&mut self.aperture);
                    },
                    _ => {},
                }
            },
        }
    }

    /// Handles one key press: updates the state as the current screen's
    /// form dictates and says what the embedding application must do
    /// next. Quitting is only ever requested from the confirmation
    /// screen, and the full render only from the render form.
    pub fn handle_key(&mut self, key: InputKey) -> (action: AppAction)
        requires
            old(self).wf(),
        ensures
            final(self).wf(),
            action == spec_key_action(*old(self), key),
            spec_key_transition(*old(self), *final(self), key),
    {
        let action = match self.current_screen {
            CurrentScreen::Confirmation => match key {
                InputKey::Char(c) => if c == 'y' || c == 'q' {
                    AppAction::Quit
                } else {
                    AppAction::Continue
                },
                _ => AppAction::Continue,
            },
            CurrentScreen::Render => match key {
                InputKey::Enter => AppAction::RenderImage,
                _ => AppAction::Continue,
            },
            _ => AppAction::Continue,
        };
        match self.current_screen {
            CurrentScreen::Main => self.key_main(key),
            CurrentScreen::Confirmation => self.key_confirmation(key),
            CurrentScreen::Editor => self.key_editor(key),
            CurrentScreen::MaterialEditor => self.key_material_editor(key),
            CurrentScreen::Render => self.key_render(key),
            CurrentScreen::Preview => {
                match key {
                    InputKey::Esc => {
                        self.current_screen = CurrentScreen::Main;
                    },
                    InputKey::Char(c) => {
                        if c == 'f' {
                            self.current_screen = CurrentScreen::PreviewFull;
                        }
                    },
                    _ => {},
                }
            },
            CurrentScreen::PreviewFull => {
                match key {
                    InputKey::Esc => {
                        self.current_screen = CurrentScreen::Main;
                    },
                    _ => {},
                }
            },
            CurrentScreen::SkyEditor => {
                match key {
                    InputKey::Esc => {
                        self.current_screen = CurrentScreen::Main;
                    },
                    _ => {},
                }
            },
        }
        action
    }

    /// Records how the full render ended: back to the main screen on
    /// success, back to the render form on failure, with no partial
    /// result presented either way.
    pub fn render_finished(&mut self, ok: bool)
        ensures
            ok ==> *final(self) == (App { current_screen: CurrentScreen::Main, ..*old(self) }),
            !ok ==> *final(self) == (App { current_screen: CurrentScreen::Render, ..*old(self) }),
    {
        if ok {
            self.current_screen = CurrentScreen::Main;
        } else {
            self.current_screen = CurrentScreen::Render;
        }
    }
}

} // verus!
