use clockutils::frame::{
    blur_radius_from_density, digital_extent, digital_frame_plan, digital_resize,
    portal_frame_plan, PassTarget,
};
use clockutils::mesh::{build_mesh, FaceRow, MeshError, VertexRow};
use clockutils::pack::{pack_clock_data, pack_drawspace_scales, pack_u32s_le};
use clockutils::scaling::{DrawspaceScales, Extent, Ratio};

fn ratio_value(r: Ratio) -> f64 {
    r.num as f64 / r.den as f64
}

#[test]
fn drawspace_is_idempotent() {
    let e = Extent { half_width_q16: 16 << 16, half_height_q16: 16 << 16 };
    let a = DrawspaceScales::new(512, 512, e);
    let b = DrawspaceScales::new(512, 512, e);
    assert_eq!(a, b);
}

#[test]
fn density_scales_with_resolution() {
    let e = digital_extent();
    let a = DrawspaceScales::new(1024, 576, e);
    let b = DrawspaceScales::new(2048, 1152, e);
    // Exactly double: compare as cross products.
    assert_eq!(
        (b.density.num as u128) * (a.density.den as u128),
        2 * (a.density.num as u128) * (b.density.den as u128)
    );
}

#[test]
fn drawspace_wide_window_clamps_vertically() {
    // A 2:1 window against a square extent of 16 units: the vertical
    // axis is clamped, scale_y == 1/16, density == h/32.
    let e = Extent { half_width_q16: 16 << 16, half_height_q16: 16 << 16 };
    let d = DrawspaceScales::new(1024, 512, e);
    assert!((ratio_value(d.scale_y) - 1.0 / 16.0).abs() < 1e-12);
    assert!((ratio_value(d.scale_x) - 0.5 / 16.0).abs() < 1e-12);
    assert!((ratio_value(d.density) - 16.0).abs() < 1e-12);
}

#[test]
fn drawspace_tall_window_clamps_horizontally() {
    let e = Extent { half_width_q16: 16 << 16, half_height_q16: 16 << 16 };
    let d = DrawspaceScales::new(512, 1024, e);
    assert!((ratio_value(d.scale_x) - 1.0 / 16.0).abs() < 1e-12);
    assert!((ratio_value(d.scale_y) - 0.5 / 16.0).abs() < 1e-12);
    assert!((ratio_value(d.density) - 16.0).abs() < 1e-12);
}

#[test]
fn digital_resize_reproduces_startup_blur() {
    // At the digital clock's startup resolution the density is 204.8
    // pixels per unit, which derives the radius-40, sigma-10 table.
    let r = digital_resize(1024, 576).unwrap();
    assert!((ratio_value(r.scales.density) - 204.8).abs() < 1e-9);
    assert_eq!(r.blur_radius, 40);
    assert_eq!(r.blur_sigma_q16, 40 * 16384); // sigma == 10.0
    assert_eq!(r.table.len(), 41); // paired: radius + 1
}

#[test]
fn digital_resize_rejects_tiny_windows() {
    assert!(digital_resize(8, 8).is_err());
    assert!(digital_resize(1024, 576).is_ok());
}

#[test]
fn blur_radius_rule() {
    // radius == floor((density / 204) * 40)
    assert_eq!(blur_radius_from_density(Ratio { num: 204, den: 1 }), 40);
    assert_eq!(blur_radius_from_density(Ratio { num: 102, den: 1 }), 20);
    assert_eq!(blur_radius_from_density(Ratio { num: 1024 * 0x8000, den: 163840 }), 40);
    assert_eq!(blur_radius_from_density(Ratio { num: 5, den: 1 }), 0);
}

#[test]
fn digital_frame_passes_chain() {
    let p = digital_frame_plan();
    assert_eq!(p.first_blur.source, p.forward_target);
    assert_eq!(p.first_blur.target, PassTarget::Offscreen(p.second_blur.source));
    assert_eq!(p.second_blur.target, PassTarget::Surface);
    assert!(!p.first_blur.vertical);
    assert!(p.second_blur.vertical);
}

#[test]
fn portal_frame_decisions() {
    let day = portal_frame_plan(true, 14, 5);
    assert!(!day.other_world_rotated);
    assert!(day.celestial_is_sun);
    assert_eq!(day.lightmap_index, 0);
    assert_eq!(day.digits, (1 << 16) | 4);

    let night = portal_frame_plan(false, 14, 5);
    assert!(night.other_world_rotated);
    assert!(!night.celestial_is_sun);
    assert_eq!(night.lightmap_index, 1);
    assert_eq!(night.digits, 5);
    assert!(!night.platform_first_rotated);
    assert!(night.platform_second_rotated);
}

fn float_row(x: f32, y: f32, z: f32, s: f32, t: f32) -> VertexRow {
    VertexRow {
        x: Some(x.to_bits()),
        y: Some(y.to_bits()),
        z: Some(z.to_bits()),
        s: Some(s.to_bits()),
        t: Some(t.to_bits()),
    }
}

#[test]
fn mesh_builds_from_good_rows() {
    let vrows = vec![
        float_row(0.0, 0.0, 0.0, 0.0, 0.0),
        float_row(1.0, 0.0, 0.0, 1.0, 0.0),
        float_row(0.0, 1.0, 0.0, 0.0, 1.0),
    ];
    let frows = vec![FaceRow { vertex_indices: Some(vec![0, 1, 2]) }];
    let m = build_mesh(&vrows, &frows).unwrap();
    assert_eq!(m.vertices.len(), 3);
    assert_eq!(m.indices, vec![0, 1, 2]);
    assert_eq!(m.vertices[1].x_bits, 1.0f32.to_bits());
    assert_eq!(m.vertices[2].t_bits, 1.0f32.to_bits());
}

#[test]
fn mesh_rejects_non_float_vertex() {
    let mut row = float_row(0.0, 0.0, 0.0, 0.0, 0.0);
    row.z = None;
    let frows: Vec<FaceRow> = vec![];
    assert_eq!(build_mesh(&vec![row], &frows), Err(MeshError::VertexNotFloat));
}

#[test]
fn mesh_rejects_bad_faces() {
    let vrows = vec![float_row(0.0, 0.0, 0.0, 0.0, 0.0)];
    let quad = vec![FaceRow { vertex_indices: Some(vec![0, 0, 0, 0]) }];
    assert_eq!(build_mesh(&vrows, &quad), Err(MeshError::FaceIndexCount));
    let not_list = vec![FaceRow { vertex_indices: None }];
    assert_eq!(build_mesh(&vrows, &not_list), Err(MeshError::FaceNotUintList));
    // The first bad face decides the error.
    let mixed = vec![
        FaceRow { vertex_indices: Some(vec![0, 0, 0]) },
        FaceRow { vertex_indices: None },
        FaceRow { vertex_indices: Some(vec![0]) },
    ];
    assert_eq!(build_mesh(&vrows, &mixed), Err(MeshError::FaceNotUintList));
}

#[test]
fn mesh_narrows_indices_to_u16() {
    let vrows = vec![float_row(0.0, 0.0, 0.0, 0.0, 0.0)];
    let frows = vec![FaceRow { vertex_indices: Some(vec![65535, 65536, 70000]) }];
    let m = build_mesh(&vrows, &frows).unwrap();
    assert_eq!(m.indices, vec![65535, 0, (70000 % 65536) as u16]);
}

#[test]
fn clock_data_layout_is_16_little_endian_bytes() {
    let b = pack_clock_data(0x04030201, 0x08070605, 0x0C0B0A09, 0x100F0E0D);
    assert_eq!(b.len(), 16);
    let expect: Vec<u8> = (1..=16).collect();
    assert_eq!(b, expect);
}

#[test]
fn word_packing_is_little_endian() {
    let b = pack_u32s_le(&vec![0xAABBCCDD, 0x00000001]);
    assert_eq!(b, vec![0xDD, 0xCC, 0xBB, 0xAA, 1, 0, 0, 0]);
}

#[test]
fn drawspace_record_is_32_bytes_padded() {
    let b = pack_drawspace_scales(1, 2, 3, 4, 5, 6, 7);
    assert_eq!(b.len(), 32);
    assert_eq!(&b[0..4], &[1, 0, 0, 0]);
    assert_eq!(&b[24..28], &[7, 0, 0, 0]);
    assert_eq!(&b[28..32], &[0, 0, 0, 0]);
}
