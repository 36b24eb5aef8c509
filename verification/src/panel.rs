use vstd::prelude::*;

use crate::cache::TextureManager;
use crate::color::Srgba;
use crate::gradient::{ground_truth_seq, naive_seq, over_seq, Gradient};

verus! {

/// What one comparison row shows.
#[derive(Clone, Copy, PartialEq, Eq, Structural, Debug)]
pub enum RowKind {
    /// The correct gradient, already composited over the background fill on
    /// the CPU: the expected appearance for a non-opaque endpoint pair.
    GroundTruthBlended,
    /// The correct gradient left uncomposited, so the renderer's own
    /// blending against the background is under test.
    GroundTruthGpuBlend,
    /// The correct gradient of an opaque endpoint pair; no blending is
    /// involved.
    GroundTruth,
    /// The raw two-stop gradient: the renderer's vertex interpolation or
    /// texture sampler is under test in isolation.
    TwoStop,
    /// The naive gamma-space gradient, composited on the CPU: the defect on
    /// display.
    NaiveBlended,
}

/// One comparison row: a labeled gradient, drawn once per enabled path
/// (vertex mesh and sampled texture) so the two can be diffed by eye.
#[derive(Debug)]
pub struct GradientRow {
    pub kind: RowKind,
    pub gradient: Gradient,
}

/// The visual test panel's state: which render paths are enabled, whether
/// the naive gradient is shown, and the texture cache the panel owns.
pub struct ColorTest {
    pub tex_mngr: TextureManager,
    pub vertex_gradients: bool,
    pub texture_gradients: bool,
    pub srgb: bool,
}

impl Default for ColorTest {
    /// Both render paths enabled, the naive gradient hidden, the cache
    /// empty.
    fn default() -> (c: ColorTest)
        ensures
            c.vertex_gradients,
            c.texture_gradients,
            !c.srgb,
            c.tex_mngr.entry_count() == 0,
    {
        ColorTest {
            tex_mngr: Default::default(),
            vertex_gradients: true,
            texture_gradients: true,
            srgb: false,
        }
    }
}

impl ColorTest {
    /// One frame of the comparison panel: the rows of every catalogue
    /// scenario in order, each with its background fill, with the naive
    /// gradient included only while its toggle is set.  Which render paths
    /// (vertex strip, sampled texture) draw a row is decided later from the
    /// path flags; the rows themselves do not depend on them.
    pub fn frame_rows(&self) -> (frame: Vec<(Srgba, Vec<GradientRow>)>)
        ensures
            frame@.len() == catalogue_spec().len(),
            forall|i: int| 0 <= i < catalogue_spec().len() ==> (#[trigger] frame@[i]).0
                == catalogue_spec()[i].0 && scenario_rows_match(
                frame@[i].1@,
                catalogue_spec()[i].0,
                catalogue_spec()[i].1.0,
                catalogue_spec()[i].1.1,
                self.srgb,
            ),
    {
        let scenarios = panel_scenarios();
        let mut frame: Vec<(Srgba, Vec<GradientRow>)> = Vec::new();
        let mut i: usize = 0;
        while i < scenarios.len()
            invariant
                i <= scenarios@.len(),
                scenarios@ == catalogue_spec(),
                frame@.len() == i,
                forall|j: int| 0 <= j < i ==> (#[trigger] frame@[j]).0 == catalogue_spec()[j].0
                    && scenario_rows_match(
                    frame@[j].1@,
                    catalogue_spec()[j].0,
                    catalogue_spec()[j].1.0,
                    catalogue_spec()[j].1.1,
                    self.srgb,
                ),
            decreases scenarios@.len() - i,
        {
            let sc = scenarios[i];
            let rows = show_gradients_rows(sc.0, sc.1.0, sc.1.1, self.srgb);
            frame.push((sc.0, rows));
            i = i + 1;
        }
        frame
    }
}

/// What one scenario's rows must hold, in display order.  An opaque
/// endpoint pair needs no background compositing, so it gets the plain
/// ground truth; a non-opaque pair gets the CPU-composited expected
/// appearance first and then the uncomposited gradient whose blending is
/// left to the renderer.  The raw two-stop gradient always follows, and
/// the naive gradient closes the scenario when it is enabled.
pub open spec fn scenario_rows_match(
    rows: Seq<GradientRow>,
    bg: Srgba,
    left: Srgba,
    right: Srgba,
    naive: bool,
) -> bool {
    if left.is_opaque_spec() && right.is_opaque_spec() {
        &&& rows.len() == (if naive {
            3int
        } else {
            2int
        })
        &&& rows[0].kind == RowKind::GroundTruth
        &&& rows[0].gradient@ == ground_truth_seq(left, right)
        &&& rows[1].kind == RowKind::TwoStop
        &&& rows[1].gradient@ == seq![left, right]
        &&& (naive ==> rows[2].kind == RowKind::NaiveBlended && rows[2].gradient@ == over_seq(
            naive_seq(left, right),
            bg,
        ))
    } else {
        &&& rows.len() == (if naive {
            4int
        } else {
            3int
        })
        &&& rows[0].kind == RowKind::GroundTruthBlended
        &&& rows[0].gradient@ == over_seq(ground_truth_seq(left, right), bg)
        &&& rows[1].kind == RowKind::GroundTruthGpuBlend
        &&& rows[1].gradient@ == ground_truth_seq(left, right)
        &&& rows[2].kind == RowKind::TwoStop
        &&& rows[2].gradient@ == seq![left, right]
        &&& (naive ==> rows[3].kind == RowKind::NaiveBlended && rows[3].gradient@ == over_seq(
            naive_seq(left, right),
            bg,
        ))
    }
}

/// The rows one test scenario produces, in display order.  An opaque
/// endpoint pair needs no background compositing, so it gets the plain
/// ground truth; a non-opaque pair gets the CPU-composited expected
/// appearance first and then the uncomposited gradient whose blending is
/// left to the renderer.  The raw two-stop gradient always follows, and the
/// naive gradient closes the scenario when it is enabled.
pub fn show_gradients_rows(bg_fill: Srgba, left: Srgba, right: Srgba, show_naive: bool) -> (rows:
    Vec<GradientRow>)
    ensures
        scenario_rows_match(rows@, bg_fill, left, right, show_naive),
{
    let mut rows: Vec<GradientRow> = Vec::new();
    let is_opaque = left.is_opaque() && right.is_opaque();
    if is_opaque {
        rows.push(
            GradientRow {
                kind: RowKind::GroundTruth,
                gradient: Gradient::ground_truth_linear_gradient(left, right),
            },
        );
    } else {
        rows.push(
            GradientRow {
                kind: RowKind::GroundTruthBlended,
                gradient: Gradient::ground_truth_linear_gradient(left, right).with_bg_fill(bg_fill),
            },
        );
        rows.push(
            GradientRow {
                kind: RowKind::GroundTruthGpuBlend,
                gradient: Gradient::ground_truth_linear_gradient(left, right),
            },
        );
    }
    rows.push(
        GradientRow { kind: RowKind::TwoStop, gradient: Gradient::texture_gradient(left, right) },
    );
    if show_naive {
        rows.push(
            GradientRow {
                kind: RowKind::NaiveBlended,
                gradient: Gradient::ground_truth_bad_srgba_gradient(left, right).with_bg_fill(
                    bg_fill,
                ),
            },
        );
    }
    rows
}

/// The panel's fixed catalogue of scenarios: a background fill and an
/// endpoint pair each, from fully opaque blends to additive blending of a
/// transparent blue onto a red background.
pub open spec fn catalogue_spec() -> Seq<(Srgba, (Srgba, Srgba))> {
    seq![
        (
            (Srgba { r: 255, g: 255, b: 255, a: 255 }),
            ((Srgba { r: 255, g: 0, b: 0, a: 255 }), (Srgba { r: 0, g: 255, b: 0, a: 255 })),
        ),
        (
            (Srgba { r: 255, g: 0, b: 0, a: 255 }),
            ((Srgba { r: 0, g: 0, b: 0, a: 0 }), (Srgba { r: 0, g: 255, b: 0, a: 255 })),
        ),
        (
            (Srgba { r: 255, g: 255, b: 255, a: 255 }),
            ((Srgba { r: 0, g: 0, b: 0, a: 0 }), (Srgba { r: 0, g: 255, b: 0, a: 255 })),
        ),
        (
            (Srgba { r: 255, g: 255, b: 255, a: 255 }),
            ((Srgba { r: 0, g: 0, b: 0, a: 0 }), (Srgba { r: 0, g: 0, b: 0, a: 255 })),
        ),
        (
            (Srgba { r: 0, g: 0, b: 0, a: 255 }),
            ((Srgba { r: 0, g: 0, b: 0, a: 0 }), (Srgba { r: 255, g: 255, b: 255, a: 255 })),
        ),
        (
            (Srgba { r: 255, g: 0, b: 0, a: 255 }),
            ((Srgba { r: 0, g: 0, b: 0, a: 0 }), (Srgba { r: 0, g: 0, b: 255, a: 0 })),
        ),
    ]
}

pub fn panel_scenarios() -> (list: Vec<(Srgba, (Srgba, Srgba))>)
    ensures
        list@ == catalogue_spec(),
{
    let white = Srgba::new(255, 255, 255, 255);
    let red = Srgba::new(255, 0, 0, 255);
    let green = Srgba::new(0, 255, 0, 255);
    let black = Srgba::new(0, 0, 0, 255);
    let transparent = Srgba::new(0, 0, 0, 0);
    let additive_blue = Srgba::new(0, 0, 255, 0);
    let mut list: Vec<(Srgba, (Srgba, Srgba))> = Vec::new();
    list.push((white, (red, green)));
    list.push((red, (transparent, green)));
    list.push((white, (transparent, green)));
    list.push((white, (transparent, black)));
    list.push((black, (transparent, white)));
    list.push((red, (transparent, additive_blue)));
    proof {
        assert(list@ =~= catalogue_spec());
    }
    list
}

/// Texture coordinates for sampling a gradient of `len` texels across a
/// quad: the U range is inset by half a texel on each end, so the first
/// and last samples land exactly on texel centers instead of blending
/// with a nonexistent neighbor.  Returned as the numerators and common
/// denominator of the fractions `1 / (2 len)` and `(2 len - 1) / (2 len)`.
pub fn texel_inset_uv(len: usize) -> (uv: (usize, usize, usize))
    requires
        1 <= len <= 0x1000_0000,
    ensures
        uv.0 == 1,
        uv.1 == 2 * len - 1,
        uv.2 == 2 * len,
{
    (1, 2 * len - 1, 2 * len)
}

/// The vertex-path mesh of a gradient: a horizontally subdivided strip of
/// quads with one pair of vertices per sample (top and bottom, both
/// carrying that sample's color), triangulated between neighboring pairs.
/// A gradient of fewer than two samples defines no interpolation, so it is
/// rejected by contract.
pub struct StripMesh {
    pub colors: Vec<Srgba>,
    pub indices: Vec<u32>,
}

/// The two triangles of quad `j` of a strip: they span the vertex pairs of
/// samples `j` and `j + 1`.
pub open spec fn quad_indices_at(s: Seq<u32>, j: int) -> bool {
    &&& s[6 * j] == 2 * j
    &&& s[6 * j + 1] == 2 * j + 1
    &&& s[6 * j + 2] == 2 * j + 2
    &&& s[6 * j + 3] == 2 * j + 1
    &&& s[6 * j + 4] == 2 * j + 2
    &&& s[6 * j + 5] == 2 * j + 3
}

pub fn vertex_gradient_mesh(gradient: &Gradient) -> (m: StripMesh)
    requires
        2 <= gradient@.len() <= 0x1000_0000,
    ensures
        m.colors@.len() == 2 * gradient@.len(),
        forall|j: int| 0 <= j < gradient@.len() ==> #[trigger] m.colors@[2 * j] == gradient@[j]
            && m.colors@[2 * j + 1] == gradient@[j],
        m.indices@.len() == 6 * (gradient@.len() - 1),
        forall|k: int| 0 <= k < gradient@.len() - 1 ==> #[trigger] quad_indices_at(m.indices@, k),
{
    let n = gradient.len();
    let mut colors: Vec<Srgba> = Vec::new();
    let mut i: usize = 0;
    while i < n
        invariant
            i <= n,
            n == gradient@.len(),
            colors@.len() == 2 * i,
            forall|j: int| 0 <= j < i ==> #[trigger] colors@[2 * j] == gradient@[j] && colors@[2 * j
                + 1] == gradient@[j],
        decreases n - i,
    {
        let ghost base = colors@;
        colors.push(gradient.0[i]);
        colors.push(gradient.0[i]);
        proof {
            assert forall|j: int| 0 <= j < i + 1 implies #[trigger] colors@[2 * j] == gradient@[j]
                && colors@[2 * j + 1] == gradient@[j] by {
                if j < i {
                    assert(colors@[2 * j] == base[2 * j]);
                    assert(colors@[2 * j + 1] == base[2 * j + 1]);
                } else {
                    assert(colors@[2 * j] == gradient@[i as int]);
                    assert(colors@[2 * j + 1] == gradient@[i as int]);
                }
            }
        }
        i = i + 1;
    }
    let mut indices: Vec<u32> = Vec::new();
    let mut k: usize = 0;
    while k < n - 1
        invariant
            k <= n - 1,
            n == gradient@.len(),
            2 <= n <= 0x1000_0000,
            indices@.len() == 6 * k,
            forall|j: int| 0 <= j < k ==> #[trigger] quad_indices_at(indices@, j),
        decreases n - 1 - k,
    {
        let ghost base = indices@;
        let v = (2 * k) as u32;
        indices.push(v);
        indices.push(v + 1);
        indices.push(v + 2);
        indices.push(v + 1);
        indices.push(v + 2);
        indices.push(v + 3);
        proof {
            assert(indices@.len() == 6 * k + 6);
            assert forall|j: int| 0 <= j < k + 1 implies #[trigger] quad_indices_at(indices@, j) by {
                if j < k {
                    assert(quad_indices_at(base, j));
                    assert(indices@[6 * j] == base[6 * j]);
                    assert(indices@[6 * j + 1] == base[6 * j + 1]);
                    assert(indices@[6 * j + 2] == base[6 * j + 2]);
                    assert(indices@[6 * j + 3] == base[6 * j + 3]);
                    assert(indices@[6 * j + 4] == base[6 * j + 4]);
                    assert(indices@[6 * j + 5] == base[6 * j + 5]);
                } else {
                    assert(indices@[6 * j] == v);
                    assert(indices@[6 * j + 1] == v + 1);
                    assert(indices@[6 * j + 2] == v + 2);
                    assert(indices@[6 * j + 3] == v + 1);
                    assert(indices@[6 * j + 4] == v + 2);
                    assert(indices@[6 * j + 5] == v + 3);
                }
            }
        }
        k = k + 1;
    }
    StripMesh { colors, indices }
}

} // verus!
