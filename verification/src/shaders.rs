//! The two shader programs, each in two source variants keyed by the shading
//! language version a device offers.

use vstd::prelude::*;

verus! {

/// A source variant, named by the shading-language version it is written for.
#[derive(Clone, Copy, Debug, PartialEq, Eq, Structural)]
pub enum ShaderModel {
    /// GLSL 1.20.
    Glsl120,
    /// GLSL 1.50.
    Glsl150,
}

/// Which of the two programs.
#[derive(Clone, Copy, Debug, PartialEq, Eq, Structural)]
pub enum ProgramKind {
    /// Draws the coloured triangle.
    Scene,
    /// Draws one textured glyph quad.
    Text,
}

/// The vertex and fragment source of one program.
#[derive(Clone, Copy, Debug)]
pub struct ProgramSource {
    pub vertex: &'static str,
    pub fragment: &'static str,
}

pub const SCENE_VERTEX_120: &'static str = "
#version 120

uniform mat4 projection, view;

attribute vec3 pos, color;

varying vec4 v_Color;

void main() {
        v_Color = vec4(color, 1.0);
        gl_Position = projection * view * vec4(pos, 1.0);
}
";

pub const SCENE_VERTEX_150: &'static str = "
#version 150

uniform mat4 projection, view;

in vec3 pos, color;

out vec4 v_Color;

void main() {
        v_Color = vec4(color, 1.0);
        gl_Position = projection * view * vec4(pos, 1.0);
}
";

pub const SCENE_FRAGMENT_120: &'static str = "
#version 120
varying vec4 v_Color;
void main() {
        gl_FragColor = v_Color;
}
";

pub const SCENE_FRAGMENT_150: &'static str = "
#version 150
in vec4 v_Color;
out vec4 o_Color;
void main() {
        o_Color = v_Color;
}
";

pub const TEXT_VERTEX_120: &'static str = "
#version 120
attribute vec4 coord;
varying vec2 texpos;

void main() {
        gl_Position = vec4(coord.xy, 1, 1);
        texpos = coord.zw;
}
";

pub const TEXT_VERTEX_150: &'static str = "
#version 150
in vec4 coord;
out vec2 texpos;

void main() {
        gl_Position = vec4(coord.xy, 1, 1);
        texpos = coord.zw;
}
";

pub const TEXT_FRAGMENT_120: &'static str = "
#version 120
varying vec2 texpos;
uniform sampler2D tex;
uniform vec4 color;

void main() {
        gl_FragColor = vec4(1, 1, 1, texture2D(tex, texpos).a) * color;
}
";

pub const TEXT_FRAGMENT_150: &'static str = "
#version 150
in vec2 texpos;
uniform sampler2D tex;
uniform vec4 color;
out vec4 o_Color;

void main() {
        o_Color = vec4(1, 1, 1, texture(tex, texpos).a) * color;
}
";

/// The variant for a device that offers the given shading-language version, written
/// as major times one hundred plus minor (330 for 3.30): the newest variant that is
/// not newer than the device, if there is one.
pub open spec fn variant_for(version: int) -> Option<ShaderModel> {
    if version >= 150 {
        Some(ShaderModel::Glsl150)
    } else if version >= 120 {
        Some(ShaderModel::Glsl120)
    } else {
        None
    }
}

/// The vertex-stage source of a program in a variant.
pub open spec fn vertex_text(kind: ProgramKind, model: ShaderModel) -> Seq<char> {
    match (kind, model) {
        (ProgramKind::Scene, ShaderModel::Glsl120) => SCENE_VERTEX_120@,
        (ProgramKind::Scene, ShaderModel::Glsl150) => SCENE_VERTEX_150@,
        (ProgramKind::Text, ShaderModel::Glsl120) => TEXT_VERTEX_120@,
        (ProgramKind::Text, ShaderModel::Glsl150) => TEXT_VERTEX_150@,
    }
}

/// The fragment-stage source of a program in a variant.
pub open spec fn fragment_text(kind: ProgramKind, model: ShaderModel) -> Seq<char> {
    match (kind, model) {
        (ProgramKind::Scene, ShaderModel::Glsl120) => SCENE_FRAGMENT_120@,
        (ProgramKind::Scene, ShaderModel::Glsl150) => SCENE_FRAGMENT_150@,
        (ProgramKind::Text, ShaderModel::Glsl120) => TEXT_FRAGMENT_120@,
        (ProgramKind::Text, ShaderModel::Glsl150) => TEXT_FRAGMENT_150@,
    }
}

/// Picks the source variant for a device's shading-language version.
pub fn select_model(version: u16) -> (model: Option<ShaderModel>)
    ensures
        model == variant_for(version as int),
{
    if version >= 150 {
        Some(ShaderModel::Glsl150)
    } else if version >= 120 {
        Some(ShaderModel::Glsl120)
    } else {
        None
    }
}

/// Looks up the source pair of a program in a variant.
pub fn program_source(kind: ProgramKind, model: ShaderModel) -> (source: ProgramSource)
    ensures
        source.vertex@ == vertex_text(kind, model),
        source.fragment@ == fragment_text(kind, model),
{
    match kind {
        ProgramKind::Scene => match model {
            ShaderModel::Glsl120 => ProgramSource {
                vertex: SCENE_VERTEX_120,
                fragment: SCENE_FRAGMENT_120,
            },
            ShaderModel::Glsl150 => ProgramSource {
                vertex: SCENE_VERTEX_150,
                fragment: SCENE_FRAGMENT_150,
            },
        },
        ProgramKind::Text => match model {
            ShaderModel::Glsl120 => ProgramSource {
                vertex: TEXT_VERTEX_120,
                fragment: TEXT_FRAGMENT_120,
            },
            ShaderModel::Glsl150 => ProgramSource {
                vertex: TEXT_VERTEX_150,
                fragment: TEXT_FRAGMENT_150,
            },
        },
    }
}

} // verus!
