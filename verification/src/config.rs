//! Camera configuration and its resolution from form text.
//!
//! Every numeric camera field arrives as text from the editing forms.
//! The resolver parses each field independently and reports the first
//! field that fails, so the editing layer can highlight exactly the
//! invalid input. Positions and angles are carried as fixed-point
//! micro-units; the up vector is always (0, 1, 0) and is not editable.

use vstd::prelude::*;

use crate::parse::{parse_fixed, parse_u32, spec_parse_fixed, spec_parse_u32, FIXED_MAX};

verus! {

/// One degree, in the micro-unit scale the fixed-point fields use.
pub const DEGREE_ONE: i64 = 1_000_000;

/// The samples-per-pixel and bounce budget of one render.
#[derive(Clone, Copy, Debug, PartialEq, Eq, Structural)]
pub struct RenderBudget {
    pub samples: u32,
    pub bounces: u32,
}

/// The fixed low-cost budget every preview pass uses, whatever the
/// export fields hold.
pub fn interactive_budget() -> (b: RenderBudget)
    ensures
        b.samples == 10,
        b.bounces == 5,
{
    RenderBudget { samples: 10, bounces: 5 }
}

/// A validated camera configuration. Distances and angles are in
/// fixed-point micro-units.
#[derive(Clone, Copy, Debug, PartialEq, Eq, Structural)]
pub struct CameraConfig {
    pub cam_x: i64,
    pub cam_y: i64,
    pub cam_z: i64,
    pub look_x: i64,
    pub look_y: i64,
    pub look_z: i64,
    pub fov: i64,
    pub focus_dist: i64,
    pub aperture: i64,
    pub width: u32,
    pub height: u32,
    pub samples: u32,
    pub bounces: u32,
}

impl CameraConfig {
    /// A usable configuration: a non-empty image, at least one sample,
    /// a field of view strictly between 0 and 180 degrees, and every
    /// fixed-point field within the parseable magnitude.
    pub open spec fn wf(self) -> bool {
        &&& self.width >= 1
        &&& self.height >= 1
        &&& self.samples >= 1
        &&& 0 < self.fov < 180 * DEGREE_ONE
        &&& -FIXED_MAX <= self.cam_x <= FIXED_MAX
        &&& -FIXED_MAX <= self.cam_y <= FIXED_MAX
        &&& -FIXED_MAX <= self.cam_z <= FIXED_MAX
        &&& -FIXED_MAX <= self.look_x <= FIXED_MAX
        &&& -FIXED_MAX <= self.look_y <= FIXED_MAX
        &&& -FIXED_MAX <= self.look_z <= FIXED_MAX
        &&& -FIXED_MAX <= self.focus_dist <= FIXED_MAX
        &&& -FIXED_MAX <= self.aperture <= FIXED_MAX
    }

    /// The up vector, fixed to one unit of +Y.
    pub fn up_vector(&self) -> (u: (i64, i64, i64))
        ensures
            u == (0i64, 1_000_000i64, 0i64),
    {
        (0, 1_000_000, 0)
    }
}

/// The camera form fields, in the order the resolver reads them.
#[derive(Clone, Copy, Debug, PartialEq, Eq, Structural)]
pub enum ConfigField {
    Width,
    Height,
    Samples,
    Bounces,
    CamX,
    CamY,
    CamZ,
    LookX,
    LookY,
    LookZ,
    Fov,
    FocusDist,
    Aperture,
}

/// Why a configuration was rejected: a named field failed numeric
/// parsing, the image or sample budget was empty, or the field of view
/// lay outside (0, 180) degrees.
#[derive(Clone, Copy, Debug, PartialEq, Eq, Structural)]
pub enum ConfigError {
    Parse(ConfigField),
    InvalidBudget,
    InvalidFov,
}

/// The first camera-position field, in form order, whose text does not
/// parse.
pub open spec fn spec_first_fixed_error(
    cam_x: Seq<char>,
    cam_y: Seq<char>,
    cam_z: Seq<char>,
    look_x: Seq<char>,
    look_y: Seq<char>,
    look_z: Seq<char>,
    fov: Seq<char>,
    focus_dist: Seq<char>,
    aperture: Seq<char>,
) -> Option<ConfigField> {
    if spec_parse_fixed(cam_x) is None {
        Some(ConfigField::CamX)
    } else if spec_parse_fixed(cam_y) is None {
        Some(ConfigField::CamY)
    } else if spec_parse_fixed(cam_z) is None {
        Some(ConfigField::CamZ)
    } else if spec_parse_fixed(look_x) is None {
        Some(ConfigField::LookX)
    } else if spec_parse_fixed(look_y) is None {
        Some(ConfigField::LookY)
    } else if spec_parse_fixed(look_z) is None {
        Some(ConfigField::LookZ)
    } else if spec_parse_fixed(fov) is None {
        Some(ConfigField::Fov)
    } else if spec_parse_fixed(focus_dist) is None {
        Some(ConfigField::FocusDist)
    } else if spec_parse_fixed(aperture) is None {
        Some(ConfigField::Aperture)
    } else {
        None
    }
}

/// The raw text of the camera-position form fields.
pub struct CameraText<'a> {
    pub cam_x: &'a str,
    pub cam_y: &'a str,
    pub cam_z: &'a str,
    pub look_x: &'a str,
    pub look_y: &'a str,
    pub look_z: &'a str,
    pub fov: &'a str,
    pub focus_dist: &'a str,
    pub aperture: &'a str,
}

impl<'a> CameraText<'a> {
    /// The first of these fields whose text does not parse.
    pub open spec fn spec_first_error(self) -> Option<ConfigField> {
        spec_first_fixed_error(
            self.cam_x@,
            self.cam_y@,
            self.cam_z@,
            self.look_x@,
            self.look_y@,
            self.look_z@,
            self.fov@,
            self.focus_dist@,
            self.aperture@,
        )
    }

    /// All nine fields parse.
    pub open spec fn spec_all_parse(self) -> bool {
        self.spec_first_error() is None
    }

    /// The camera fields' parsed values agree with the configuration.
    pub open spec fn spec_matches(self, c: CameraConfig) -> bool {
        &&& spec_parse_fixed(self.cam_x@) == Some(c.cam_x as int)
        &&& spec_parse_fixed(self.cam_y@) == Some(c.cam_y as int)
        &&& spec_parse_fixed(self.cam_z@) == Some(c.cam_z as int)
        &&& spec_parse_fixed(self.look_x@) == Some(c.look_x as int)
        &&& spec_parse_fixed(self.look_y@) == Some(c.look_y as int)
        &&& spec_parse_fixed(self.look_z@) == Some(c.look_z as int)
        &&& spec_parse_fixed(self.fov@) == Some(c.fov as int)
        &&& spec_parse_fixed(self.focus_dist@) == Some(c.focus_dist as int)
        &&& spec_parse_fixed(self.aperture@) == Some(c.aperture as int)
    }
}

/// Parses the nine camera-position fields, reporting the first failure.
fn parse_camera(
    text: &CameraText<'_>,
) -> (r: Result<(i64, i64, i64, i64, i64, i64, i64, i64, i64), ConfigError>)
    ensures
        match r {
            Ok(v) => text.spec_all_parse() && spec_parse_fixed(text.cam_x@) == Some(v.0 as int)
                && spec_parse_fixed(text.cam_y@) == Some(v.1 as int) && spec_parse_fixed(
                text.cam_z@,
            ) == Some(v.2 as int) && spec_parse_fixed(text.look_x@) == Some(v.3 as int)
                && spec_parse_fixed(text.look_y@) == Some(v.4 as int) && spec_parse_fixed(
                text.look_z@,
            ) == Some(v.5 as int) && spec_parse_fixed(text.fov@) == Some(v.6 as int)
                && spec_parse_fixed(text.focus_dist@) == Some(v.7 as int) && spec_parse_fixed(
                text.aperture@,
            ) == Some(v.8 as int) && -FIXED_MAX <= v.0 <= FIXED_MAX && -FIXED_MAX <= v.1
                <= FIXED_MAX && -FIXED_MAX <= v.2 <= FIXED_MAX && -FIXED_MAX <= v.3 <= FIXED_MAX
                && -FIXED_MAX <= v.4 <= FIXED_MAX && -FIXED_MAX <= v.5 <= FIXED_MAX && -FIXED_MAX
                <= v.6 <= FIXED_MAX && -FIXED_MAX <= v.7 <= FIXED_MAX && -FIXED_MAX <= v.8
                <= FIXED_MAX,
            Err(e) => e matches ConfigError::Parse(f) && text.spec_first_error() == Some(f),
        },
{
    let cam_x = match parse_fixed(text.cam_x) {
        Some(v) => v,
        None => {
            return Err(ConfigError::Parse(ConfigField::CamX));
        },
    };
    let cam_y = match parse_fixed(text.cam_y) {
        Some(v) => v,
        None => {
            return Err(ConfigError::Parse(ConfigField::CamY));
        },
    };
    let cam_z = match parse_fixed(text.cam_z) {
        Some(v) => v,
        None => {
            return Err(ConfigError::Parse(ConfigField::CamZ));
        },
    };
    let look_x = match parse_fixed(text.look_x) {
        Some(v) => v,
        None => {
            return Err(ConfigError::Parse(ConfigField::LookX));
        },
    };
    let look_y = match parse_fixed(text.look_y) {
        Some(v) => v,
        None => {
            return Err(ConfigError::Parse(ConfigField::LookY));
        },
    };
    let look_z = match parse_fixed(text.look_z) {
        Some(v) => v,
        None => {
            return Err(ConfigError::Parse(ConfigField::LookZ));
        },
    };
    let fov = match parse_fixed(text.fov) {
        Some(v) => v,
        None => {
            return Err(ConfigError::Parse(ConfigField::Fov));
        },
    };
    let focus_dist = match parse_fixed(text.focus_dist) {
        Some(v) => v,
        None => {
            return Err(ConfigError::Parse(ConfigField::FocusDist));
        },
    };
    let aperture = match parse_fixed(text.aperture) {
        Some(v) => v,
        None => {
            return Err(ConfigError::Parse(ConfigField::Aperture));
        },
    };
    Ok((cam_x, cam_y, cam_z, look_x, look_y, look_z, fov, focus_dist, aperture))
}

/// Resolves an export (full render) configuration: image size and
/// quality budget come verbatim from the user's text fields.
///
/// Fails with the first unparseable field in form order; then rejects a
/// zero-sized image or an empty sample budget; then a field of view
/// outside (0, 180) degrees.
pub fn resolve_export(
    width: &str,
    height: &str,
    samples: &str,
    bounces: &str,
    text: &CameraText<'_>,
) -> (r: Result<CameraConfig, ConfigError>)
    ensures
        match r {
            Ok(c) => {
                &&& c.wf()
                &&& spec_parse_u32(width@) == Some(c.width)
                &&& spec_parse_u32(height@) == Some(c.height)
                &&& spec_parse_u32(samples@) == Some(c.samples)
                &&& spec_parse_u32(bounces@) == Some(c.bounces)
                &&& text.spec_matches(c)
            },
            Err(e) => match e {
                ConfigError::Parse(f) => {
                    if spec_parse_u32(width@) is None {
                        f == ConfigField::Width
                    } else if spec_parse_u32(height@) is None {
                        f == ConfigField::Height
                    } else if spec_parse_u32(samples@) is None {
                        f == ConfigField::Samples
                    } else if spec_parse_u32(bounces@) is None {
                        f == ConfigField::Bounces
                    } else {
                        text.spec_first_error() == Some(f)
                    }
                },
                ConfigError::InvalidBudget => {
                    &&& spec_parse_u32(width@) is Some
                    &&& spec_parse_u32(height@) is Some
                    &&& spec_parse_u32(samples@) is Some
                    &&& spec_parse_u32(bounces@) is Some
                    &&& text.spec_all_parse()
                    &&& (spec_parse_u32(width@)->0 == 0 || spec_parse_u32(height@)->0 == 0
                        || spec_parse_u32(samples@)->0 == 0)
                },
                ConfigError::InvalidFov => {
                    &&& spec_parse_u32(width@)->0 >= 1
                    &&& spec_parse_u32(height@)->0 >= 1
                    &&& spec_parse_u32(samples@)->0 >= 1
                    &&& text.spec_all_parse()
                    &&& !(0 < spec_parse_fixed(text.fov@)->0 < 180 * DEGREE_ONE)
                },
            },
        },
{
    let w = match parse_u32(width) {
        Some(v) => v,
        None => {
            return Err(ConfigError::Parse(ConfigField::Width));
        },
    };
    let h = match parse_u32(height) {
        Some(v) => v,
        None => {
            return Err(ConfigError::Parse(ConfigField::Height));
        },
    };
    let s = match parse_u32(samples) {
        Some(v) => v,
        None => {
            return Err(ConfigError::Parse(ConfigField::Samples));
        },
    };
    let b = match parse_u32(bounces) {
        Some(v) => v,
        None => {
            return Err(ConfigError::Parse(ConfigField::Bounces));
        },
    };
    let cam = match parse_camera(text) {
        Ok(c) => c,
        Err(e) => {
            return Err(e);
        },
    };
    if w == 0 || h == 0 || s == 0 {
        return Err(ConfigError::InvalidBudget);
    }
    if !(0 < cam.6 && cam.6 < 180 * DEGREE_ONE) {
        return Err(ConfigError::InvalidFov);
    }
    Ok(
        CameraConfig {
            cam_x: cam.0,
            cam_y: cam.1,
            cam_z: cam.2,
            look_x: cam.3,
            look_y: cam.4,
            look_z: cam.5,
            fov: cam.6,
            focus_dist: cam.7,
            aperture: cam.8,
            width: w,
            height: h,
            samples: s,
            bounces: b,
        },
    )
}

/// Resolves a preview configuration: the image extent is derived from
/// the character grid (one pixel per column, two per row, exploiting the
/// half-block doubling), and the quality budget is always the fixed
/// interactive one, whatever the export fields hold.
pub fn resolve_preview(
    avail_cols: u16,
    avail_rows: u16,
    text: &CameraText<'_>,
) -> (r: Result<CameraConfig, ConfigError>)
    ensures
        match r {
            Ok(c) => {
                &&& c.wf()
                &&& c.width == avail_cols as u32
                &&& c.height == 2 * avail_rows as u32
                &&& c.samples == 10
                &&& c.bounces == 5
                &&& text.spec_matches(c)
            },
            Err(e) => match e {
                ConfigError::Parse(f) => text.spec_first_error() == Some(f),
                ConfigError::InvalidBudget => text.spec_all_parse() && (avail_cols == 0
                    || avail_rows == 0),
                ConfigError::InvalidFov => {
                    &&& text.spec_all_parse()
                    &&& avail_cols >= 1
                    &&& avail_rows >= 1
                    &&& !(0 < spec_parse_fixed(text.fov@)->0 < 180 * DEGREE_ONE)
                },
            },
        },
{
    let cam = match parse_camera(text) {
        Ok(c) => c,
        Err(e) => {
            return Err(e);
        },
    };
    if avail_cols == 0 || avail_rows == 0 {
        return Err(ConfigError::InvalidBudget);
    }
    if !(0 < cam.6 && cam.6 < 180 * DEGREE_ONE) {
        return Err(ConfigError::InvalidFov);
    }
    let budget = interactive_budget();
    Ok(
        CameraConfig {
            cam_x: cam.0,
            cam_y: cam.1,
            cam_z: cam.2,
            look_x: cam.3,
            look_y: cam.4,
            look_z: cam.5,
            fov: cam.6,
            focus_dist: cam.7,
            aperture: cam.8,
            width: avail_cols as u32,
            height: 2 * (avail_rows as u32),
            samples: budget.samples,
            bounces: budget.bounces,
        },
    )
}

} // verus!
