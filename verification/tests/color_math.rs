use srgb_gradients::color::{linear_of_srgba, modulate, srgba_of_linear, LinearRgba, Srgba};
use srgb_gradients::gradient::Gradient;
use srgb_gradients::panel::{
    panel_scenarios, show_gradients_rows, texel_inset_uv, vertex_gradient_mesh, ColorTest,
    RowKind,
};
use srgb_gradients::widget::{demo, toggle};

fn rgba(r: u8, g: u8, b: u8, a: u8) -> Srgba {
    Srgba::new(r, g, b, a)
}

#[test]
fn one_color_gives_two_equal_samples() {
    let c = rgba(255, 165, 0, 255);
    let row = Gradient::one_color(c).to_pixel_row();
    assert_eq!(row.len(), 2);
    assert_eq!(row[0], c);
    assert_eq!(row[1], c);
}

#[test]
fn texture_gradient_keeps_endpoints_verbatim() {
    let l = rgba(1, 2, 3, 4);
    let r = rgba(250, 251, 252, 253);
    let row = Gradient::texture_gradient(l, r).to_pixel_row();
    assert_eq!(row, vec![l, r]);
}

#[test]
fn ground_truth_endpoints_exact_for_opaque_pair() {
    let l = rgba(255, 0, 0, 255);
    let r = rgba(0, 255, 0, 255);
    let row = Gradient::ground_truth_linear_gradient(l, r).to_pixel_row();
    assert_eq!(row.len(), 256);
    assert_eq!(row[0], l);
    assert_eq!(row[255], r);
}

#[test]
fn ground_truth_endpoints_exact_for_transparent_pair() {
    let l = rgba(0, 0, 0, 0);
    let r = rgba(0, 255, 0, 255);
    let row = Gradient::ground_truth_linear_gradient(l, r).to_pixel_row();
    assert_eq!(row[0], l);
    assert_eq!(row[255], r);
}

#[test]
fn red_green_midpoint_is_linear_space_average() {
    let l = rgba(255, 0, 0, 255);
    let r = rgba(0, 255, 0, 255);
    let row = Gradient::ground_truth_linear_gradient(l, r).to_pixel_row();
    // The sRGB-correct mid blend of the red and green primaries is near
    // (188, 188, 0), far from the naive gamma-space (128, 128, 0).
    assert_eq!(row[127], rgba(188, 187, 0, 255));
    assert_eq!(row[128], rgba(187, 188, 0, 255));
    assert_ne!(row[127], rgba(128, 128, 0, 255));
}

#[test]
fn naive_gradient_darkens_the_middle() {
    let l = rgba(255, 0, 0, 255);
    let r = rgba(0, 255, 0, 255);
    let good = Gradient::ground_truth_linear_gradient(l, r).to_pixel_row();
    let bad = Gradient::ground_truth_bad_srgba_gradient(l, r).to_pixel_row();
    assert_eq!(bad.len(), 256);
    // The naive interpolation keeps the endpoints but is visibly darker at
    // the midpoint.
    assert_eq!(bad[0], l);
    assert_eq!(bad[255], r);
    assert_eq!(bad[127], rgba(128, 127, 0, 255));
    assert_ne!(good[127], bad[127]);
}

#[test]
fn bg_fill_is_identity_on_opaque_gradient() {
    let l = rgba(200, 100, 50, 255);
    let r = rgba(0, 255, 0, 255);
    let g = Gradient::ground_truth_linear_gradient(l, r);
    let plain = g.to_pixel_row();
    let filled = Gradient::ground_truth_linear_gradient(l, r)
        .with_bg_fill(rgba(17, 93, 240, 255))
        .to_pixel_row();
    assert_eq!(plain, filled);
}

#[test]
fn bg_fill_on_transparent_constant_gives_background() {
    let bg = rgba(12, 34, 56, 78);
    let row = Gradient::one_color(rgba(0, 0, 0, 0)).with_bg_fill(bg).to_pixel_row();
    assert_eq!(row, vec![bg, bg]);
}

#[test]
fn bg_fill_adds_premultiplied_additive_color() {
    // A premultiplied color with zero alpha adds light without occluding:
    // transparent blue over opaque red gives magenta.
    let red = rgba(255, 0, 0, 255);
    let row = Gradient::one_color(rgba(0, 0, 255, 0)).with_bg_fill(red).to_pixel_row();
    assert_eq!(row, vec![rgba(255, 0, 255, 255), rgba(255, 0, 255, 255)]);
}

#[test]
fn bg_fill_blends_partial_alpha_in_linear_space() {
    let red = rgba(255, 0, 0, 255);
    let row = Gradient::one_color(rgba(0, 120, 0, 120)).with_bg_fill(red).to_pixel_row();
    assert_eq!(row, vec![rgba(192, 120, 0, 255), rgba(192, 120, 0, 255)]);
}

#[test]
fn show_gradients_rows_opaque_pair() {
    let bg = rgba(255, 255, 255, 255);
    let l = rgba(255, 0, 0, 255);
    let r = rgba(0, 255, 0, 255);
    let rows = show_gradients_rows(bg, l, r, false);
    assert_eq!(rows.len(), 2);
    assert_eq!(rows[0].kind, RowKind::GroundTruth);
    assert_eq!(rows[0].gradient.to_pixel_row().len(), 256);
    assert_eq!(rows[1].kind, RowKind::TwoStop);
    assert_eq!(rows[1].gradient.to_pixel_row(), vec![l, r]);
}

#[test]
fn show_gradients_rows_transparent_pair_with_naive() {
    let bg = rgba(255, 0, 0, 255);
    let l = rgba(0, 0, 0, 0);
    let r = rgba(0, 255, 0, 255);
    let rows = show_gradients_rows(bg, l, r, true);
    assert_eq!(rows.len(), 4);
    assert_eq!(rows[0].kind, RowKind::GroundTruthBlended);
    assert_eq!(rows[1].kind, RowKind::GroundTruthGpuBlend);
    assert_eq!(rows[2].kind, RowKind::TwoStop);
    assert_eq!(rows[3].kind, RowKind::NaiveBlended);
    // The CPU-blended ground truth starts at the background color exactly.
    assert_eq!(rows[0].gradient.to_pixel_row()[0], bg);
    // The unblended one starts at the transparent left endpoint.
    assert_eq!(rows[1].gradient.to_pixel_row()[0], l);
}

#[test]
fn panel_catalogue_lists_six_scenarios() {
    let list = panel_scenarios();
    assert_eq!(list.len(), 6);
    let white = rgba(255, 255, 255, 255);
    let red = rgba(255, 0, 0, 255);
    let green = rgba(0, 255, 0, 255);
    assert_eq!(list[0], (white, (red, green)));
    assert_eq!(list[5], (red, (rgba(0, 0, 0, 0), rgba(0, 0, 255, 0))));
}

#[test]
fn strip_mesh_of_two_samples() {
    let l = rgba(10, 20, 30, 255);
    let r = rgba(40, 50, 60, 255);
    let m = vertex_gradient_mesh(&Gradient::texture_gradient(l, r));
    assert_eq!(m.colors, vec![l, l, r, r]);
    assert_eq!(m.indices, vec![0, 1, 2, 1, 2, 3]);
}

#[test]
fn strip_mesh_of_ground_truth() {
    let g = Gradient::ground_truth_linear_gradient(rgba(0, 0, 0, 255), rgba(255, 255, 255, 255));
    let m = vertex_gradient_mesh(&g);
    assert_eq!(m.colors.len(), 512);
    assert_eq!(m.indices.len(), 6 * 255);
    assert_eq!(&m.indices[6..12], &[2, 3, 4, 3, 4, 5]);
}

#[test]
fn panel_defaults() {
    let panel = ColorTest::default();
    assert!(panel.vertex_gradients);
    assert!(panel.texture_gradients);
    assert!(!panel.srgb);
    assert_eq!(panel.tex_mngr.entry_len(), 0);
}

#[test]
fn toggle_flips_only_on_click() {
    let mut on = false;
    assert!(toggle(&mut on, true));
    assert!(on);
    assert!(!toggle(&mut on, false));
    assert!(on);
    assert!(toggle(&mut on, true));
    assert!(!on);
}

#[test]
fn demo_drives_the_toggle() {
    let mut on = false;
    assert!(demo(&mut on, true));
    assert!(on);
    assert!(!demo(&mut on, false));
    assert!(on);
}

#[test]
fn tint_times_texture_is_multiplied_in_linear_space() {
    // A texture color (1.0, 0.25, 0.25, 1.0) under a vertex tint
    // (0.5, 0.75, 0.75, 1.0), both in linear units of 2^-20.
    let tex = LinearRgba { r: 1048576, g: 262144, b: 262144, a: 1048576 };
    let tint = LinearRgba { r: 524288, g: 786432, b: 786432, a: 1048576 };
    let product = srgba_of_linear(modulate(tex, tint));
    assert_eq!(product, Srgba::new(188, 120, 120, 255));
    // The unmodulated texture color, for contrast.
    assert_eq!(srgba_of_linear(tex), Srgba::new(255, 137, 137, 255));
}

#[test]
fn display_blend_round_trip_is_exact() {
    for c in [
        Srgba::new(0, 0, 0, 0),
        Srgba::new(1, 10, 11, 2),
        Srgba::new(127, 128, 129, 130),
        Srgba::new(255, 254, 200, 255),
    ] {
        assert_eq!(srgba_of_linear(linear_of_srgba(c)), c);
    }
}

#[test]
fn out_of_range_linear_values_saturate() {
    // Premultiplied additive blending can push a channel past full
    // brightness; conversion back to display space clamps at 255.
    let loud = LinearRgba { r: 2097152, g: 1048577, b: 0, a: 2097152 };
    assert_eq!(srgba_of_linear(loud), Srgba::new(255, 255, 0, 255));
}

#[test]
fn texel_inset_puts_endpoints_on_texel_centers() {
    // A 2-texel gradient samples U from 1/4 to 3/4; a 256-texel one from
    // 1/512 to 511/512.
    assert_eq!(texel_inset_uv(2), (1, 3, 4));
    assert_eq!(texel_inset_uv(256), (1, 511, 512));
}

#[test]
fn frame_rows_follow_the_catalogue_and_the_naive_toggle() {
    let mut panel = ColorTest::default();
    let frame = panel.frame_rows();
    assert_eq!(frame.len(), 6);
    // First scenario is the opaque red-green pair: two rows, no naive one.
    assert_eq!(frame[0].0, Srgba::new(255, 255, 255, 255));
    assert_eq!(frame[0].1.len(), 2);
    // The other five have a non-opaque endpoint: three rows each.
    for (_, rows) in &frame[1..] {
        assert_eq!(rows.len(), 3);
        assert_eq!(rows[0].kind, RowKind::GroundTruthBlended);
    }
    // Enabling the naive comparison appends one row per scenario.
    panel.srgb = true;
    let frame = panel.frame_rows();
    assert_eq!(frame[0].1.len(), 3);
    assert_eq!(frame[0].1[2].kind, RowKind::NaiveBlended);
    assert_eq!(frame[1].1.len(), 4);
}
