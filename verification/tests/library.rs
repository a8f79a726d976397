use raymarch_scene::geometry::{
    quad_corner_signs, quad_indices, quad_vertex_layout, viewport_rect, QUAD_VERTEX_COUNT,
};
use raymarch_scene::scene::{
    object_uniform_name, scene_shape_kind, ShapeField, ShapeKind, SHAPE_COUNT,
};
use raymarch_scene::shader::{compile_outcome, link_outcome, shader_object_outcome};

#[test]
fn compile_succeeds_only_on_true_status() {
    assert_eq!(compile_outcome(Some(true), None), Ok(()));
    assert_eq!(
        compile_outcome(Some(true), Some("stale log".to_string())),
        Ok(())
    );
}

#[test]
fn compile_failure_reports_info_log() {
    assert_eq!(
        compile_outcome(Some(false), Some("syntax error".to_string())),
        Err("syntax error".to_string())
    );
    assert_eq!(
        compile_outcome(None, Some("syntax error".to_string())),
        Err("syntax error".to_string())
    );
}

#[test]
fn compile_failure_without_log_reports_fixed_message() {
    assert_eq!(
        compile_outcome(Some(false), None),
        Err("Unknown error creating shader".to_string())
    );
    assert_eq!(
        compile_outcome(None, None),
        Err("Unknown error creating shader".to_string())
    );
}

#[test]
fn link_succeeds_only_on_true_status() {
    assert_eq!(link_outcome(Some(true), None), Ok(()));
    assert!(link_outcome(Some(false), None).is_err());
    assert!(link_outcome(None, None).is_err());
}

#[test]
fn link_failure_messages() {
    assert_eq!(
        link_outcome(Some(false), Some("undefined symbol".to_string())),
        Err("undefined symbol".to_string())
    );
    assert_eq!(
        link_outcome(None, None),
        Err("Unknown error linking program".to_string())
    );
}

#[test]
fn shader_object_present_is_passed_through() {
    assert_eq!(shader_object_outcome(Some(42u32)), Ok(42u32));
}

#[test]
fn shader_object_missing_is_reported() {
    assert_eq!(
        shader_object_outcome::<u32>(None),
        Err("Unable to create shader object".to_string())
    );
}

#[test]
fn quad_indices_are_two_triangles() {
    assert_eq!(quad_indices(), vec![0u16, 1, 2, 0, 2, 3]);
}

#[test]
fn quad_indices_stay_inside_the_quad() {
    for i in quad_indices() {
        assert!((i as usize) < QUAD_VERTEX_COUNT);
    }
}

#[test]
fn quad_corners_run_counterclockwise_from_bottom_left() {
    assert_eq!(
        quad_corner_signs(),
        vec![(-1, -1), (1, -1), (1, 1), (-1, 1)]
    );
}

#[test]
fn quad_layout_is_two_packed_components() {
    let l = quad_vertex_layout();
    assert_eq!(l.components, 2);
    assert_eq!(l.stride_bytes, 8);
    assert_eq!(l.offset_bytes, 0);
}

#[test]
fn viewport_covers_the_canvas() {
    assert_eq!(viewport_rect(640, 480), Some((0, 0, 640, 480)));
    assert_eq!(viewport_rect(0, 0), Some((0, 0, 0, 0)));
}

#[test]
fn viewport_rejects_dimensions_beyond_signed_range() {
    assert_eq!(viewport_rect(u32::MAX, 480), None);
    assert_eq!(viewport_rect(640, 1 << 31), None);
    assert_eq!(
        viewport_rect(i32::MAX as u32, i32::MAX as u32),
        Some((0, 0, i32::MAX, i32::MAX))
    );
}

#[test]
fn scene_lists_a_cube_then_a_sphere() {
    assert_eq!(SHAPE_COUNT, 2);
    assert_eq!(scene_shape_kind(0), ShapeKind::Cube);
    assert_eq!(scene_shape_kind(1), ShapeKind::Sphere);
}

#[test]
fn kind_tags_match_the_shader_convention() {
    assert_eq!(ShapeKind::Cube.tag(), 0);
    assert_eq!(ShapeKind::Sphere.tag(), 1);
}

#[test]
fn field_names_match_the_shader_record() {
    assert_eq!(ShapeField::Position.name(), "position");
    assert_eq!(ShapeField::Size.name(), "size");
    assert_eq!(ShapeField::Color.name(), "color");
    assert_eq!(ShapeField::Kind.name(), "shape");
}

#[test]
fn object_uniform_names_for_the_scene() {
    assert_eq!(
        object_uniform_name(0, ShapeField::Position),
        "objects[0].position"
    );
    assert_eq!(object_uniform_name(0, ShapeField::Size), "objects[0].size");
    assert_eq!(
        object_uniform_name(0, ShapeField::Color),
        "objects[0].color"
    );
    assert_eq!(object_uniform_name(0, ShapeField::Kind), "objects[0].shape");
    assert_eq!(
        object_uniform_name(1, ShapeField::Position),
        "objects[1].position"
    );
    assert_eq!(object_uniform_name(1, ShapeField::Kind), "objects[1].shape");
}

#[test]
fn object_uniform_names_for_any_single_digit_index() {
    assert_eq!(
        object_uniform_name(7, ShapeField::Color),
        "objects[7].color"
    );
    assert_eq!(object_uniform_name(9, ShapeField::Size), "objects[9].size");
}
