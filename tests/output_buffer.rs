use clyon::buffer::{
    lyon_build_fill, lyon_build_stroke, lyon_deinit, lyon_init, TessellationError, MAX_VERTICES,
};
use clyon::geometry::{LyonPoint, DEFAULT_TOLERANCE_BITS};
use clyon::path::{lyon_begin, lyon_line_to, lyon_new_builder};

fn verts(n: usize) -> Vec<LyonPoint> {
    (0..n).map(|i| LyonPoint::new(i as u32, 0)).collect()
}

#[test]
fn stores_mesh_and_narrows_indices() {
    let mut ctx = lyon_init();
    assert_eq!(ctx.store_mesh(verts(4), vec![0, 1, 2, 2, 3, 0]), Ok(()));
    assert_eq!(ctx.vertex_data().vertices, verts(4));
    assert_eq!(ctx.vertex_data().indices, vec![0u16, 1, 2, 2, 3, 0]);
}

#[test]
fn second_call_replaces_first() {
    let mut ctx = lyon_init();
    assert_eq!(ctx.store_mesh(verts(6), vec![0, 1, 2, 3, 4, 5]), Ok(()));
    let req = lyon_build_fill(&mut ctx, lyon_new_builder());
    assert!(req.is_ok());
    assert!(ctx.vertex_data().vertices.is_empty());
    assert!(ctx.vertex_data().indices.is_empty());
    assert_eq!(ctx.store_mesh(verts(3), vec![2, 1, 0]), Ok(()));
    assert_eq!(ctx.vertex_data().vertices, verts(3));
    assert_eq!(ctx.vertex_data().indices, vec![2u16, 1, 0]);
}

#[test]
fn capacity_boundary_exact() {
    let mut ctx = lyon_init();
    let n = MAX_VERTICES;
    assert_eq!(n, 65536);
    let idx: Vec<u32> = vec![0, 1, (n - 1) as u32];
    assert_eq!(ctx.store_mesh(verts(n), idx), Ok(()));
    assert_eq!(ctx.vertex_data().vertices.len(), 65536);
    assert_eq!(ctx.vertex_data().indices, vec![0u16, 1, 65535]);
}

#[test]
fn capacity_boundary_exceeded() {
    let mut ctx = lyon_init();
    assert_eq!(ctx.store_mesh(verts(3), vec![0, 1, 2]), Ok(()));
    let idx: Vec<u32> = vec![0, 1, 65536];
    assert_eq!(ctx.store_mesh(verts(65537), idx), Err(TessellationError::TooManyVertices));
    assert!(ctx.vertex_data().vertices.is_empty());
    assert!(ctx.vertex_data().indices.is_empty());
}

#[test]
fn malformed_meshes_are_refused() {
    let mut ctx = lyon_init();
    assert_eq!(ctx.store_mesh(verts(3), vec![0, 1]), Err(TessellationError::IncompleteTriangle));
    assert_eq!(ctx.store_mesh(verts(3), vec![0, 1, 3]), Err(TessellationError::IndexOutOfRange));
    assert!(ctx.vertex_data().indices.is_empty());
}

#[test]
fn calls_after_deinit_are_refused() {
    let mut ctx = lyon_init();
    assert!(ctx.is_initialized());
    lyon_deinit(&mut ctx);
    assert!(!ctx.is_initialized());
    assert_eq!(ctx.store_mesh(verts(3), vec![0, 1, 2]), Err(TessellationError::NotInitialized));
    assert_eq!(lyon_build_fill(&mut ctx, lyon_new_builder()).err(), Some(TessellationError::NotInitialized));
    let r = lyon_build_stroke(&mut ctx, lyon_new_builder(), 1.0f32.to_bits());
    assert_eq!(r.err(), Some(TessellationError::NotInitialized));
}

#[test]
fn stroke_width_must_be_positive_and_finite() {
    let mut ctx = lyon_init();
    for w in [0.0f32, -1.0, f32::NAN, f32::INFINITY] {
        let r = lyon_build_stroke(&mut ctx, lyon_new_builder(), w.to_bits());
        assert_eq!(r.err(), Some(TessellationError::InvalidLineWidth));
    }
    let mut b = lyon_new_builder();
    let origin = LyonPoint::new(0, 0);
    assert_eq!(lyon_begin(&mut b, &origin), Ok(()));
    assert_eq!(lyon_line_to(&mut b, &LyonPoint::new(1.0f32.to_bits(), 0)), Ok(()));
    let req = lyon_build_stroke(&mut ctx, b, 2.0f32.to_bits()).ok().unwrap();
    assert_eq!(req.line_width, 2.0f32.to_bits());
    assert_eq!(req.tolerance, DEFAULT_TOLERANCE_BITS);
    assert_eq!(f32::from_bits(req.tolerance), 0.01f32);
    assert_eq!(req.path.subpaths.len(), 1);
}
