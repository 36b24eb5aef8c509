use vstd::prelude::*;

use crate::color::{
    blend_sample, blend_sample_spec, lemma_blend_sample_endpoints, lemma_over_sample_opaque,
    lemma_over_sample_transparent, naive_sample, naive_sample_spec, over_sample, over_sample_spec,
    Srgba,
};

verus! {

/// An ordered, non-empty sequence of display-space samples along a 1-D
/// interpolation from a left endpoint to a right endpoint.  Equality of
/// gradients is structural, so a gradient can key a cache.
#[derive(Clone, PartialEq, Eq, Hash, Debug)]
pub struct Gradient(pub Vec<Srgba>);

impl View for Gradient {
    type V = Seq<Srgba>;

    open spec fn view(&self) -> Seq<Srgba> {
        self.0@
    }
}

/// The 256 samples of the correct gradient: each is the linear-space blend
/// of the endpoints at parameter `i / 255`.
pub open spec fn ground_truth_seq(left: Srgba, right: Srgba) -> Seq<Srgba> {
    Seq::new(256, |i: int| blend_sample_spec(left, right, i as u8))
}

/// The 256 samples of the intentionally wrong gradient: each interpolates
/// the raw gamma-encoded channels directly.
pub open spec fn naive_seq(left: Srgba, right: Srgba) -> Seq<Srgba> {
    Seq::new(256, |i: int| naive_sample_spec(left, right, i as u8))
}

/// A sample sequence composited sample-by-sample over a background fill.
pub open spec fn over_seq(s: Seq<Srgba>, bg: Srgba) -> Seq<Srgba> {
    Seq::new(s.len(), |i: int| over_sample_spec(s[i], bg))
}

impl Gradient {
    /// A degenerate two-sample gradient of one color, so a solid swatch can
    /// run through the same pipeline as a real gradient.
    pub fn one_color(srgba: Srgba) -> (g: Gradient)
        ensures
            g@ == seq![srgba, srgba],
    {
        let v = vec![srgba, srgba];
        proof {
            assert(v@ =~= seq![srgba, srgba]);
        }
        Gradient(v)
    }

    /// The raw two-sample endpoint pair, unmodified, for exercising a
    /// renderer's own interpolation between two texels or two vertices.
    pub fn texture_gradient(left: Srgba, right: Srgba) -> (g: Gradient)
        ensures
            g@ == seq![left, right],
    {
        let v = vec![left, right];
        proof {
            assert(v@ =~= seq![left, right]);
        }
        Gradient(v)
    }

    /// The reference gradient: 256 samples blended in linear premultiplied
    /// space, the mathematically correct output.
    pub fn ground_truth_linear_gradient(left: Srgba, right: Srgba) -> (g: Gradient)
        ensures
            g@ == ground_truth_seq(left, right),
    {
        let mut v: Vec<Srgba> = Vec::new();
        let mut i: usize = 0;
        while i < 256
            invariant
                i <= 256,
                v@.len() == i,
                forall|j: int| 0 <= j < i ==> v@[j] == blend_sample_spec(left, right, j as u8),
            decreases 256 - i,
        {
            v.push(blend_sample(left, right, i as u8));
            i = i + 1;
        }
        proof {
            assert(v@ =~= ground_truth_seq(left, right));
        }
        Gradient(v)
    }

    /// The defective gradient: 256 samples interpolated directly on the
    /// gamma-encoded channels.  Its darkened middle is the point of the
    /// comparison, so it must not be corrected.
    pub fn ground_truth_bad_srgba_gradient(left: Srgba, right: Srgba) -> (g: Gradient)
        ensures
            g@ == naive_seq(left, right),
    {
        let mut v: Vec<Srgba> = Vec::new();
        let mut i: usize = 0;
        while i < 256
            invariant
                i <= 256,
                v@.len() == i,
                forall|j: int| 0 <= j < i ==> v@[j] == naive_sample_spec(left, right, j as u8),
            decreases 256 - i,
        {
            v.push(naive_sample(left, right, i as u8));
            i = i + 1;
        }
        proof {
            assert(v@ =~= naive_seq(left, right));
        }
        Gradient(v)
    }

    /// Premultiplied-alpha-aware blending of every sample on top of a
    /// background fill color, in linear space.
    pub fn with_bg_fill(self, bg: Srgba) -> (g: Gradient)
        ensures
            g@ == over_seq(self@, bg),
    {
        let mut v: Vec<Srgba> = Vec::new();
        let mut i: usize = 0;
        while i < self.0.len()
            invariant
                i <= self.0.len(),
                v@.len() == i,
                forall|j: int| 0 <= j < i ==> v@[j] == over_sample_spec(self.0@[j], bg),
            decreases self.0.len() - i,
        {
            v.push(over_sample(self.0[i], bg));
            i = i + 1;
        }
        proof {
            assert(v@ =~= over_seq(self@, bg));
        }
        Gradient(v)
    }

    /// The gradient serialized as one row of pixels, width equal to the
    /// sample count, for upload as a texture.
    pub fn to_pixel_row(&self) -> (v: Vec<Srgba>)
        ensures
            v@ == self@,
    {
        let mut v: Vec<Srgba> = Vec::new();
        let mut i: usize = 0;
        while i < self.0.len()
            invariant
                i <= self.0.len(),
                v@.len() == i,
                forall|j: int| 0 <= j < i ==> v@[j] == self.0@[j],
            decreases self.0.len() - i,
        {
            v.push(self.0[i]);
            i = i + 1;
        }
        proof {
            assert(v@ =~= self@);
        }
        v
    }

    pub fn len(&self) -> (n: usize)
        ensures
            n == self@.len(),
    {
        self.0.len()
    }

    /// Every sample of the gradient is opaque.
    pub open spec fn all_opaque(self) -> bool {
        forall|i: int| 0 <= i < self@.len() ==> (#[trigger] self@[i]).is_opaque_spec()
    }
}

/// The correct gradient hits its endpoints exactly: sample 0 is the left
/// endpoint and sample 255 the right one, with no rounding drift, for every
/// endpoint pair, opaque or not.
pub proof fn lemma_ground_truth_endpoints(left: Srgba, right: Srgba)
    ensures
        ground_truth_seq(left, right)[0] == left,
        ground_truth_seq(left, right)[255] == right,
{
    lemma_blend_sample_endpoints(left, right);
}

/// Compositing a fully opaque sample sequence over any background fill
/// returns the sequence unchanged.
pub proof fn lemma_bg_fill_opaque_identity(s: Seq<Srgba>, bg: Srgba)
    requires
        forall|i: int| 0 <= i < s.len() ==> (#[trigger] s[i]).is_opaque_spec(),
    ensures
        over_seq(s, bg) == s,
{
    assert forall|i: int| 0 <= i < s.len() implies #[trigger] over_seq(s, bg)[i] == s[i] by {
        lemma_over_sample_opaque(s[i], bg);
    }
    assert(over_seq(s, bg) =~= s);
}

/// Compositing a fully transparent constant sequence over a background
/// fill returns a constant sequence of that background color.
pub proof fn lemma_bg_fill_transparent_constant(s: Seq<Srgba>, bg: Srgba)
    requires
        forall|i: int| 0 <= i < s.len() ==> #[trigger] s[i] == (Srgba { r: 0, g: 0, b: 0, a: 0 }),
    ensures
        forall|i: int| 0 <= i < s.len() ==> #[trigger] over_seq(s, bg)[i] == bg,
{
    lemma_over_sample_transparent(bg);
}

} // verus!
