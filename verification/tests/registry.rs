use gloof::command::{Command, MatrixSlot};
use gloof::context::{ContextState, Surface};
use gloof::error::GlxError;
use gloof::frame::{Line, Pixel, SurfaceSize};
use gloof::geometry::{Matrix4, Point3};
use gloof::registry::{ContextHandle, FormatDescriptor, Registry};
use gloof::scalar::Scalar;

fn scalar(x: f32) -> Scalar {
    Scalar::from_bits(x.to_bits())
}

fn float(s: Scalar) -> f32 {
    f32::from_bits(s.to_bits())
}

fn point(x: f32, y: f32, z: f32) -> Point3 {
    Point3::new(scalar(x), scalar(y), scalar(z))
}

fn vertex(x: f32, y: f32, z: f32) -> Command {
    Command::SetVertex(point(x, y, z))
}

fn matrix(m: glam::Mat4) -> Matrix4 {
    Matrix4::from_cols_array(m.to_cols_array().map(scalar))
}

fn transform(m: &Matrix4, p: Point3) -> Point3 {
    let mat = glam::Mat4::from_cols_array(&m.to_cols_array().map(float));
    let q = mat.transform_point3(glam::Vec3::new(float(p.x), float(p.y), float(p.z)));
    point(q.x, q.y, q.z)
}

fn viewport(c: Scalar, extent: u32) -> i32 {
    let e = extent as f32;
    (float(c) * e / 2.0 + e / 2.0) as i32
}

fn line(x0: i32, y0: i32, x1: i32, y1: i32) -> Line {
    Line { from: Pixel { x: x0, y: y0 }, to: Pixel { x: x1, y: y1 } }
}

fn matrices(state: &ContextState) -> ([Scalar; 16], [Scalar; 16]) {
    let t = state.transform();
    (t.modelview.to_cols_array(), t.projection.to_cols_array())
}

const WINDOW: Surface = Surface { id: 0x40_0001 };
const OTHER_WINDOW: Surface = Surface { id: 0x40_0002 };
const SQUARE: SurfaceSize = SurfaceSize { width: 300, height: 300 };
const MAIN: u64 = 1;
const WORKER: u64 = 2;

#[test]
fn a_new_registry_is_empty() {
    let registry = Registry::new();
    assert_eq!(registry.len(), 0);
    assert_eq!(registry.get_current(MAIN), None);
    assert!(!registry.contains(ContextHandle { index: 0 }));
    assert!(registry.context(ContextHandle { index: 0 }).is_none());
}

#[test]
fn create_gives_an_inactive_context_with_identity_matrices() {
    let mut registry = Registry::new();
    let a = registry.create();
    let b = registry.create();
    assert_eq!(a, ContextHandle { index: 0 });
    assert_eq!(b, ContextHandle { index: 1 });
    assert_eq!(registry.len(), 2);
    let state = registry.context(a).unwrap();
    assert!(!state.is_current());
    assert_eq!(state.pending(), 0);
    assert_eq!(state.surfaces(), None);
    let identity = Matrix4::identity().to_cols_array();
    assert_eq!(matrices(state), (identity, identity));
    assert_eq!(registry.get_current(MAIN), None);
}

#[test]
fn create_context_without_sharing_creates() {
    let mut registry = Registry::new();
    let a = registry.create_context(&FormatDescriptor { id: 0 }, None);
    assert_eq!(a, Ok(ContextHandle { index: 0 }));
    assert_eq!(registry.len(), 1);
    assert!(!registry.context(ContextHandle { index: 0 }).unwrap().is_current());
}

#[test]
fn create_context_with_sharing_is_unsupported() {
    let mut registry = Registry::new();
    let a = registry.create();
    let b = registry.create_context(&FormatDescriptor { id: 33 }, Some(a));
    assert_eq!(b, Err(GlxError::UnsupportedCapability));
    assert_eq!(registry.len(), 1);
}

#[test]
fn make_current_binds_the_context_to_the_thread() {
    let mut registry = Registry::new();
    let a = registry.create();
    assert_eq!(registry.make_current(MAIN, Some(a), WINDOW, OTHER_WINDOW), Ok(()));
    assert_eq!(registry.get_current(MAIN), Some(a));
    assert_eq!(registry.get_current(WORKER), None);
    let state = registry.context(a).unwrap();
    assert!(state.is_current());
    assert_eq!(state.surfaces(), Some((WINDOW, OTHER_WINDOW)));
    assert_eq!(state.pending(), 0);
}

#[test]
fn make_current_on_another_thread_is_already_bound() {
    let mut registry = Registry::new();
    let a = registry.create();
    registry.make_current(MAIN, Some(a), WINDOW, WINDOW).unwrap();
    assert_eq!(
        registry.make_current(WORKER, Some(a), WINDOW, WINDOW),
        Err(GlxError::AlreadyBound)
    );
    assert_eq!(registry.get_current(MAIN), Some(a));
    assert_eq!(registry.get_current(WORKER), None);
    assert_eq!(registry.context(a).unwrap().surfaces(), Some((WINDOW, WINDOW)));
}

#[test]
fn already_bound_keeps_the_context_of_the_asking_thread() {
    let mut registry = Registry::new();
    let a = registry.create();
    let b = registry.create();
    registry.make_current(MAIN, Some(a), WINDOW, WINDOW).unwrap();
    registry.make_current(WORKER, Some(b), OTHER_WINDOW, OTHER_WINDOW).unwrap();
    assert_eq!(
        registry.make_current(WORKER, Some(a), OTHER_WINDOW, OTHER_WINDOW),
        Err(GlxError::AlreadyBound)
    );
    assert_eq!(registry.get_current(MAIN), Some(a));
    assert_eq!(registry.get_current(WORKER), Some(b));
    assert!(registry.context(b).unwrap().is_current());
}

#[test]
fn make_current_on_other_surfaces_is_already_bound() {
    let mut registry = Registry::new();
    let a = registry.create();
    registry.make_current(MAIN, Some(a), WINDOW, WINDOW).unwrap();
    assert_eq!(
        registry.make_current(MAIN, Some(a), OTHER_WINDOW, OTHER_WINDOW),
        Err(GlxError::AlreadyBound)
    );
    assert_eq!(registry.context(a).unwrap().surfaces(), Some((WINDOW, WINDOW)));
}

#[test]
fn repeating_a_binding_changes_nothing() {
    let mut registry = Registry::new();
    let a = registry.create();
    registry.make_current(MAIN, Some(a), WINDOW, WINDOW).unwrap();
    registry.submit(MAIN, vertex(0.0, 0.0, 0.0)).unwrap();
    assert_eq!(registry.make_current(MAIN, Some(a), WINDOW, WINDOW), Ok(()));
    assert_eq!(registry.get_current(MAIN), Some(a));
    assert_eq!(registry.context(a).unwrap().pending(), 1);
}

#[test]
fn a_handle_of_no_context_is_unknown() {
    let mut registry = Registry::new();
    let a = registry.create();
    registry.make_current(MAIN, Some(a), WINDOW, WINDOW).unwrap();
    assert_eq!(
        registry.make_current(MAIN, Some(ContextHandle { index: 1 }), WINDOW, WINDOW),
        Err(GlxError::UnknownContext)
    );
    assert_eq!(registry.get_current(MAIN), Some(a));
}

#[test]
fn detach_leaves_the_thread_without_a_context() {
    let mut registry = Registry::new();
    let a = registry.create();
    registry.make_current(MAIN, Some(a), WINDOW, WINDOW).unwrap();
    assert_eq!(registry.make_current(MAIN, None, WINDOW, WINDOW), Ok(()));
    assert_eq!(registry.get_current(MAIN), None);
    let state = registry.context(a).unwrap();
    assert!(!state.is_current());
    assert_eq!(state.surfaces(), None);
}

#[test]
fn detach_without_a_context_succeeds() {
    let mut registry = Registry::new();
    let a = registry.create();
    registry.make_current(MAIN, Some(a), WINDOW, WINDOW).unwrap();
    assert_eq!(registry.make_current(WORKER, None, WINDOW, WINDOW), Ok(()));
    assert_eq!(registry.get_current(MAIN), Some(a));
}

#[test]
fn detach_with_a_dirty_queue_fails_and_changes_nothing() {
    let mut registry = Registry::new();
    let a = registry.create();
    registry.make_current(MAIN, Some(a), WINDOW, WINDOW).unwrap();
    registry.submit(MAIN, vertex(0.0, 0.0, 0.0)).unwrap();
    assert_eq!(registry.make_current(MAIN, None, WINDOW, WINDOW), Err(GlxError::DirtyQueue));
    assert_eq!(registry.get_current(MAIN), Some(a));
    let state = registry.context(a).unwrap();
    assert!(state.is_current());
    assert_eq!(state.pending(), 1);
    assert_eq!(state.surfaces(), Some((WINDOW, WINDOW)));
}

#[test]
fn detach_succeeds_once_the_frame_is_finalized() {
    let mut registry = Registry::new();
    let a = registry.create();
    registry.make_current(MAIN, Some(a), WINDOW, WINDOW).unwrap();
    registry.submit(MAIN, vertex(0.0, 0.0, 0.0)).unwrap();
    registry.finalize(MAIN, WINDOW, SQUARE, &transform, &viewport).unwrap();
    assert_eq!(registry.make_current(MAIN, None, WINDOW, WINDOW), Ok(()));
    assert_eq!(registry.get_current(MAIN), None);
}

#[test]
fn switching_contexts_releases_the_one_before() {
    let mut registry = Registry::new();
    let a = registry.create();
    let b = registry.create();
    registry.make_current(MAIN, Some(a), WINDOW, WINDOW).unwrap();
    assert_eq!(registry.make_current(MAIN, Some(b), OTHER_WINDOW, OTHER_WINDOW), Ok(()));
    assert_eq!(registry.get_current(MAIN), Some(b));
    assert!(!registry.context(a).unwrap().is_current());
    assert_eq!(registry.context(b).unwrap().surfaces(), Some((OTHER_WINDOW, OTHER_WINDOW)));
    assert_eq!(registry.make_current(WORKER, Some(a), WINDOW, WINDOW), Ok(()));
    assert_eq!(registry.get_current(WORKER), Some(a));
}

#[test]
fn switching_contexts_with_a_dirty_queue_fails() {
    let mut registry = Registry::new();
    let a = registry.create();
    let b = registry.create();
    registry.make_current(MAIN, Some(a), WINDOW, WINDOW).unwrap();
    registry.submit(MAIN, Command::Other(1)).unwrap();
    assert_eq!(registry.make_current(MAIN, Some(b), WINDOW, WINDOW), Err(GlxError::DirtyQueue));
    assert_eq!(registry.get_current(MAIN), Some(a));
    assert!(!registry.context(b).unwrap().is_current());
    assert_eq!(registry.context(a).unwrap().pending(), 1);
}

#[test]
fn submit_without_a_current_context_is_not_current() {
    let mut registry = Registry::new();
    let a = registry.create();
    assert_eq!(registry.submit(MAIN, vertex(0.0, 0.0, 0.0)), Err(GlxError::NotCurrent));
    registry.make_current(MAIN, Some(a), WINDOW, WINDOW).unwrap();
    assert_eq!(registry.submit(WORKER, vertex(0.0, 0.0, 0.0)), Err(GlxError::NotCurrent));
    assert_eq!(registry.context(a).unwrap().pending(), 0);
}

#[test]
fn submit_appends_to_the_queue() {
    let mut registry = Registry::new();
    let a = registry.create();
    registry.make_current(MAIN, Some(a), WINDOW, WINDOW).unwrap();
    for i in 0..5 {
        assert_eq!(registry.submit(MAIN, Command::Other(i)), Ok(()));
        assert_eq!(registry.context(a).unwrap().pending(), i as usize + 1);
    }
}

#[test]
fn finalize_without_a_current_context_is_not_current() {
    let mut registry = Registry::new();
    registry.create();
    assert_eq!(
        registry.finalize(MAIN, WINDOW, SQUARE, &transform, &viewport),
        Err(GlxError::NotCurrent)
    );
}

#[test]
fn finalize_against_another_surface_leaves_the_queue() {
    let mut registry = Registry::new();
    let a = registry.create();
    registry.make_current(MAIN, Some(a), WINDOW, WINDOW).unwrap();
    registry.submit(MAIN, vertex(0.0, 0.0, 0.0)).unwrap();
    registry.submit(MAIN, vertex(1.0, 0.0, 0.0)).unwrap();
    assert_eq!(
        registry.finalize(MAIN, OTHER_WINDOW, SQUARE, &transform, &viewport),
        Err(GlxError::SurfaceMismatch)
    );
    assert_eq!(registry.context(a).unwrap().pending(), 2);
    assert_eq!(
        registry.finalize(MAIN, WINDOW, SQUARE, &transform, &viewport),
        Ok(vec![line(150, 150, 300, 150)])
    );
}

#[test]
fn finalize_needs_both_surfaces_to_match() {
    let mut registry = Registry::new();
    let a = registry.create();
    registry.make_current(MAIN, Some(a), WINDOW, OTHER_WINDOW).unwrap();
    assert_eq!(
        registry.finalize(MAIN, WINDOW, SQUARE, &transform, &viewport),
        Err(GlxError::SurfaceMismatch)
    );
    assert_eq!(
        registry.finalize(MAIN, OTHER_WINDOW, SQUARE, &transform, &viewport),
        Err(GlxError::SurfaceMismatch)
    );
}

#[test]
fn finalize_draws_consecutive_vertices_in_order() {
    let mut registry = Registry::new();
    let a = registry.create();
    registry.make_current(MAIN, Some(a), WINDOW, WINDOW).unwrap();
    registry.submit(MAIN, vertex(-0.5, -0.5, 0.0)).unwrap();
    registry.submit(MAIN, vertex(0.5, -0.5, 0.0)).unwrap();
    registry.submit(MAIN, vertex(0.0, 0.5, 0.0)).unwrap();
    let lines = registry.finalize(MAIN, WINDOW, SQUARE, &transform, &viewport);
    assert_eq!(lines, Ok(vec![line(75, 225, 225, 225), line(225, 225, 150, 75)]));
    assert_eq!(registry.context(a).unwrap().pending(), 0);
}

#[test]
fn finalizing_an_empty_queue_draws_nothing_and_keeps_the_state() {
    let mut registry = Registry::new();
    let a = registry.create();
    registry.make_current(MAIN, Some(a), WINDOW, WINDOW).unwrap();
    let m = matrix(glam::Mat4::from_translation(glam::Vec3::new(0.5, 0.0, 0.0)));
    registry.submit(MAIN, Command::SetMatrix(MatrixSlot::Modelview, m)).unwrap();
    registry.finalize(MAIN, WINDOW, SQUARE, &transform, &viewport).unwrap();
    let before = matrices(registry.context(a).unwrap());
    assert_eq!(registry.finalize(MAIN, WINDOW, SQUARE, &transform, &viewport), Ok(Vec::new()));
    assert_eq!(registry.finalize(MAIN, WINDOW, SQUARE, &transform, &viewport), Ok(Vec::new()));
    assert_eq!(matrices(registry.context(a).unwrap()), before);
    assert_eq!(before.0, m.to_cols_array());
}

#[test]
fn the_state_of_one_frame_is_in_effect_in_the_next() {
    let mut registry = Registry::new();
    let a = registry.create();
    registry.make_current(MAIN, Some(a), WINDOW, WINDOW).unwrap();
    let shift = matrix(glam::Mat4::from_translation(glam::Vec3::new(0.5, 0.0, 0.0)));
    registry.submit(MAIN, Command::SetMatrix(MatrixSlot::Modelview, shift)).unwrap();
    assert_eq!(registry.finalize(MAIN, WINDOW, SQUARE, &transform, &viewport), Ok(Vec::new()));
    registry.submit(MAIN, vertex(0.0, 0.0, 0.0)).unwrap();
    registry.submit(MAIN, vertex(0.5, 0.0, 0.0)).unwrap();
    assert_eq!(
        registry.finalize(MAIN, WINDOW, SQUARE, &transform, &viewport),
        Ok(vec![line(225, 150, 300, 150)])
    );
}

#[test]
fn a_chain_does_not_reach_across_frames() {
    let mut registry = Registry::new();
    let a = registry.create();
    registry.make_current(MAIN, Some(a), WINDOW, WINDOW).unwrap();
    registry.submit(MAIN, vertex(0.0, 0.0, 0.0)).unwrap();
    assert_eq!(registry.finalize(MAIN, WINDOW, SQUARE, &transform, &viewport), Ok(Vec::new()));
    registry.submit(MAIN, vertex(1.0, 0.0, 0.0)).unwrap();
    assert_eq!(registry.finalize(MAIN, WINDOW, SQUARE, &transform, &viewport), Ok(Vec::new()));
}

#[test]
fn the_state_survives_detach_and_a_new_binding() {
    let mut registry = Registry::new();
    let a = registry.create();
    registry.make_current(MAIN, Some(a), WINDOW, WINDOW).unwrap();
    let shift = matrix(glam::Mat4::from_translation(glam::Vec3::new(0.0, 0.5, 0.0)));
    registry.submit(MAIN, Command::SetMatrix(MatrixSlot::Projection, shift)).unwrap();
    registry.finalize(MAIN, WINDOW, SQUARE, &transform, &viewport).unwrap();
    registry.make_current(MAIN, None, WINDOW, WINDOW).unwrap();
    assert_eq!(matrices(registry.context(a).unwrap()).1, shift.to_cols_array());
    registry.make_current(WORKER, Some(a), OTHER_WINDOW, OTHER_WINDOW).unwrap();
    assert_eq!(matrices(registry.context(a).unwrap()).1, shift.to_cols_array());
    registry.submit(WORKER, vertex(0.0, 0.0, 0.0)).unwrap();
    registry.submit(WORKER, vertex(0.0, 0.5, 0.0)).unwrap();
    assert_eq!(
        registry.finalize(WORKER, OTHER_WINDOW, SQUARE, &transform, &viewport),
        Ok(vec![line(150, 75, 150, 0)])
    );
}

#[test]
fn threads_record_into_their_own_contexts() {
    let mut registry = Registry::new();
    let a = registry.create();
    let b = registry.create();
    registry.make_current(MAIN, Some(a), WINDOW, WINDOW).unwrap();
    registry.make_current(WORKER, Some(b), OTHER_WINDOW, OTHER_WINDOW).unwrap();
    registry.submit(MAIN, vertex(0.0, 0.0, 0.0)).unwrap();
    registry.submit(WORKER, vertex(1.0, 1.0, 0.0)).unwrap();
    registry.submit(MAIN, vertex(1.0, 0.0, 0.0)).unwrap();
    registry.submit(WORKER, vertex(-1.0, -1.0, 0.0)).unwrap();
    assert_eq!(
        registry.finalize(WORKER, OTHER_WINDOW, SQUARE, &transform, &viewport),
        Ok(vec![line(300, 0, 0, 300)])
    );
    assert_eq!(registry.context(a).unwrap().pending(), 2);
    assert_eq!(
        registry.finalize(MAIN, WINDOW, SQUARE, &transform, &viewport),
        Ok(vec![line(150, 150, 300, 150)])
    );
}
