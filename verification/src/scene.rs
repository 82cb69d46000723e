//! The scene: one triangle whose corners carry pure red, green and blue.

use vstd::prelude::*;
use crate::units::Rgb;

verus! {

/// A vector of three components, each in thousandths.
#[derive(Clone, Copy, Debug, PartialEq, Eq, Structural)]
pub struct Vector3 {
    pub x: i32,
    pub y: i32,
    pub z: i32,
}

/// A coordinate axis.
#[derive(Clone, Copy, Debug, PartialEq, Eq, Structural)]
pub enum Axis {
    X,
    Y,
    Z,
}

/// One corner of the triangle.
///
/// `pos` is the corner's place at angle zero. The frame's rotation is applied to it
/// by whoever draws the frame; the colour never changes.
#[derive(Clone, Copy, Debug, PartialEq, Eq, Structural)]
pub struct Vertex {
    pub pos: Vector3,
    pub color: Rgb,
}

/// A vector of four components, each in thousandths.
#[derive(Clone, Copy, Debug, PartialEq, Eq, Structural)]
pub struct Vector4 {
    pub x: i32,
    pub y: i32,
    pub z: i32,
    pub w: i32,
}

/// A four by four matrix held as its four rows.
#[derive(Clone, Copy, Debug, PartialEq, Eq, Structural)]
pub struct Matrix4 {
    pub r0: Vector4,
    pub r1: Vector4,
    pub r2: Vector4,
    pub r3: Vector4,
}

/// The uniforms of the scene program. There is no camera: both are the identity.
#[derive(Clone, Copy, Debug, PartialEq, Eq, Structural)]
pub struct ShaderParams {
    pub projection: Matrix4,
    pub view: Matrix4,
}

/// The identity matrix.
pub open spec fn identity() -> Matrix4 {
    Matrix4 {
        r0: Vector4 { x: 1000, y: 0, z: 0, w: 0 },
        r1: Vector4 { x: 0, y: 1000, z: 0, w: 0 },
        r2: Vector4 { x: 0, y: 0, z: 1000, w: 0 },
        r3: Vector4 { x: 0, y: 0, z: 0, w: 1000 },
    }
}

/// The triangle's corner `i` at angle zero.
pub open spec fn template(i: int) -> Vector3 {
    if i == 0 {
        Vector3 { x: 500, y: 0, z: 0 }
    } else if i == 1 {
        Vector3 { x: 0, y: 500, z: 0 }
    } else {
        Vector3 { x: -500i32, y: 0, z: 0 }
    }
}

/// The colour of corner `i`: red, green, then blue.
pub open spec fn corner_color(i: int) -> Rgb {
    if i == 0 {
        Rgb { r: 1000, g: 0, b: 0 }
    } else if i == 1 {
        Rgb { r: 0, g: 1000, b: 0 }
    } else {
        Rgb { r: 0, g: 0, b: 1000 }
    }
}

/// The three corners of the triangle, in index order.
pub open spec fn triangle() -> Seq<Vertex> {
    Seq::new(3, |i: int| Vertex { pos: template(i), color: corner_color(i) })
}

/// The identity matrix.
pub fn identity_matrix() -> (m: Matrix4)
    ensures
        m == identity(),
{
    Matrix4 {
        r0: Vector4 { x: 1000, y: 0, z: 0, w: 0 },
        r1: Vector4 { x: 0, y: 1000, z: 0, w: 0 },
        r2: Vector4 { x: 0, y: 0, z: 1000, w: 0 },
        r3: Vector4 { x: 0, y: 0, z: 0, w: 1000 },
    }
}

/// The scene program's uniforms.
pub fn scene_params() -> (p: ShaderParams)
    ensures
        p.projection == identity(),
        p.view == identity(),
{
    ShaderParams { projection: identity_matrix(), view: identity_matrix() }
}

/// The colour of corner `i`.
pub fn vertex_color(i: usize) -> (c: Rgb)
    ensures
        c == corner_color(i as int),
{
    match i {
        0 => Rgb { r: 1000, g: 0, b: 0 },
        1 => Rgb { r: 0, g: 1000, b: 0 },
        _ => Rgb { r: 0, g: 0, b: 1000 },
    }
}

/// The place of corner `i` at angle zero.
pub fn vertex_template(i: usize) -> (v: Vector3)
    ensures
        v == template(i as int),
{
    match i {
        0 => Vector3 { x: 500, y: 0, z: 0 },
        1 => Vector3 { x: 0, y: 500, z: 0 },
        _ => Vector3 { x: -500i32, y: 0, z: 0 },
    }
}

/// Builds the triangle's vertex list.
pub fn scene_vertices() -> (vertices: Vec<Vertex>)
    ensures
        vertices@ == triangle(),
{
    let mut vertices: Vec<Vertex> = Vec::new();
    let mut i: usize = 0;
    while i < 3
        invariant
            i <= 3,
            vertices@.len() == i,
            forall|k: int|
                0 <= k < i ==> vertices@[k] == (Vertex { pos: template(k), color: corner_color(k) }),
        decreases 3 - i,
    {
        vertices.push(Vertex { pos: vertex_template(i), color: vertex_color(i) });
        i += 1;
    }
    assert(vertices@ =~= triangle());
    vertices
}

/// The corner colours are red, green and blue in index order, whatever the frame.
pub proof fn lemma_triangle_colors()
    ensures
        triangle().len() == 3,
        triangle()[0].color == (Rgb { r: 1000, g: 0, b: 0 }),
        triangle()[1].color == (Rgb { r: 0, g: 1000, b: 0 }),
        triangle()[2].color == (Rgb { r: 0, g: 0, b: 1000 }),
{
}

} // verus!
