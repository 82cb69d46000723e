use threeddit::scene::identity_matrix;
use threeddit::scene::scene_params;
use threeddit::scene::scene_vertices;
use threeddit::scene::vertex_color;
use threeddit::scene::vertex_template;
use threeddit::scene::Vector3;
use threeddit::scene::Vector4;
use threeddit::units::Rgb;

#[test]
fn corners_are_red_green_blue() {
    assert_eq!(vertex_color(0), Rgb { r: 1000, g: 0, b: 0 });
    assert_eq!(vertex_color(1), Rgb { r: 0, g: 1000, b: 0 });
    assert_eq!(vertex_color(2), Rgb { r: 0, g: 0, b: 1000 });
}

#[test]
fn any_further_index_is_blue() {
    assert_eq!(vertex_color(3), Rgb { r: 0, g: 0, b: 1000 });
    assert_eq!(vertex_color(usize::MAX), Rgb { r: 0, g: 0, b: 1000 });
}

#[test]
fn template_corners() {
    assert_eq!(vertex_template(0), Vector3 { x: 500, y: 0, z: 0 });
    assert_eq!(vertex_template(1), Vector3 { x: 0, y: 500, z: 0 });
    assert_eq!(vertex_template(2), Vector3 { x: -500, y: 0, z: 0 });
}

#[test]
fn triangle_has_three_corners_in_index_order() {
    let vertices = scene_vertices();
    assert_eq!(vertices.len(), 3);
    for (i, v) in vertices.iter().enumerate() {
        assert_eq!(v.pos, vertex_template(i));
        assert_eq!(v.color, vertex_color(i));
    }
}

#[test]
fn triangle_is_the_same_every_time() {
    assert_eq!(scene_vertices(), scene_vertices());
}

#[test]
fn uniforms_are_identity() {
    let m = identity_matrix();
    assert_eq!(m.r0, Vector4 { x: 1000, y: 0, z: 0, w: 0 });
    assert_eq!(m.r1, Vector4 { x: 0, y: 1000, z: 0, w: 0 });
    assert_eq!(m.r2, Vector4 { x: 0, y: 0, z: 1000, w: 0 });
    assert_eq!(m.r3, Vector4 { x: 0, y: 0, z: 0, w: 1000 });
    let p = scene_params();
    assert_eq!(p.projection, m);
    assert_eq!(p.view, m);
}
