use vstd::prelude::*;

use crate::color::Srgba;
use crate::gradient::Gradient;

verus! {

/// An opaque handle to a texture the render backend has allocated.  The
/// backend owns the handle's lifetime; this crate only stores and returns
/// it.
#[derive(Clone, Copy, PartialEq, Eq, Structural, Hash, Debug)]
pub struct TextureId(pub u64);

/// The injected upload capability: given a width, a height and a row-major
/// pixel sequence, the render backend returns a handle to a texture holding
/// those pixels.  The backend decides the handle values; nothing is assumed
/// about them.
pub trait TextureAllocator {
    fn upload(&mut self, size: (usize, usize), pixels: &Vec<Srgba>) -> TextureId;
}

/// Compares two gradients structurally, sample by sample.
pub fn gradients_equal(a: &Gradient, b: &Gradient) -> (r: bool)
    ensures
        r == (a@ == b@),
{
    if a.0.len() != b.0.len() {
        proof {
            assert(a@.len() != b@.len());
        }
        return false;
    }
    let mut i: usize = 0;
    while i < a.0.len()
        invariant
            i <= a.0.len(),
            a.0.len() == b.0.len(),
            forall|j: int| 0 <= j < i ==> a.0@[j] == b.0@[j],
        decreases a.0.len() - i,
    {
        if a.0[i] != b.0[i] {
            return false;
        }
        i = i + 1;
    }
    proof {
        assert(a@ =~= b@);
    }
    true
}

/// Memoizes one uploaded texture per distinct gradient content.  Entries
/// live as long as the cache; nothing is evicted, and no two entries share
/// a key.
pub struct TextureManager {
    pub entries: Vec<(Gradient, TextureId)>,
}

/// The handle stored for `key`, searching entries from the front.
pub open spec fn find_from(entries: Seq<(Gradient, TextureId)>, key: Seq<Srgba>, i: int) -> Option<
    TextureId,
>
    decreases entries.len() - i,
{
    if i < 0 || i >= entries.len() {
        None
    } else if entries[i].0@ == key {
        Some(entries[i].1)
    } else {
        find_from(entries, key, i + 1)
    }
}

proof fn lemma_find_skip_prefix(entries: Seq<(Gradient, TextureId)>, key: Seq<Srgba>, i: int)
    requires
        0 <= i < entries.len(),
        entries[i].0@ != key,
    ensures
        find_from(entries, key, i) == find_from(entries, key, i + 1),
{
}

proof fn lemma_find_in_pushed(entries: Seq<(Gradient, TextureId)>, key: Seq<Srgba>, i: int, e: (
    Gradient,
    TextureId,
))
    requires
        0 <= i <= entries.len(),
        forall|j: int| i <= j < entries.len() ==> (#[trigger] entries[j]).0@ != key,
        e.0@ == key,
    ensures
        find_from(entries.push(e), key, i) == Some(e.1),
    decreases entries.len() - i,
{
    if i < entries.len() {
        lemma_find_in_pushed(entries, key, i + 1, e);
    }
}

proof fn lemma_find_other_key_pushed(
    entries: Seq<(Gradient, TextureId)>,
    key: Seq<Srgba>,
    i: int,
    e: (Gradient, TextureId),
)
    requires
        0 <= i <= entries.len(),
        e.0@ != key,
    ensures
        find_from(entries.push(e), key, i) == find_from(entries, key, i),
    decreases entries.len() - i,
{
    if i < entries.len() {
        lemma_find_other_key_pushed(entries, key, i + 1, e);
    } else {
        assert(find_from(entries, key, i) is None);
        assert(entries.push(e)[i] == e);
        assert(find_from(entries.push(e), key, i + 1) is None);
    }
}

impl TextureManager {
    /// The handle the cache holds for a pixel-row key, if any.
    pub open spec fn find_spec(self, key: Seq<Srgba>) -> Option<TextureId> {
        find_from(self.entries@, key, 0)
    }

    /// How many distinct gradients have been uploaded so far.
    pub open spec fn entry_count(self) -> int {
        self.entries@.len() as int
    }

    pub fn entry_len(&self) -> (n: usize)
        ensures
            n == self.entry_count(),
    {
        self.entries.len()
    }

    /// The texture handle for a gradient.  On the first request for a
    /// gradient content the pixel row is uploaded through the allocator and
    /// the handle stored; every later request with structurally equal
    /// content returns the stored handle and leaves both the cache and the
    /// allocator untouched.
    pub fn get<A: TextureAllocator>(
        &mut self,
        allocator: &mut A,
        gradient: &Gradient,
    ) -> (id: TextureId)
        ensures
            old(self).find_spec(gradient@) matches Some(t) ==> id == t && *final(self) == *old(
                self,
            ) && *final(allocator) == *old(allocator),
            old(self).find_spec(gradient@) is None ==> final(self).find_spec(gradient@) == Some(id)
                && final(self).entry_count() == old(self).entry_count() + 1 && (forall|
                key: Seq<Srgba>,
            |
                key != gradient@ ==> #[trigger] final(self).find_spec(key) == old(self).find_spec(
                    key,
                )),
    {
        let ghost entries0 = self.entries@;
        let mut i: usize = 0;
        while i < self.entries.len()
            invariant
                i <= self.entries@.len(),
                self.entries@ == entries0,
                forall|j: int| 0 <= j < i ==> (#[trigger] entries0[j]).0@ != gradient@,
                find_from(entries0, gradient@, 0) == find_from(entries0, gradient@, i as int),
            decreases self.entries@.len() - i,
        {
            let hit = gradients_equal(&self.entries[i].0, gradient);
            if hit {
                return self.entries[i].1;
            }
            proof {
                lemma_find_skip_prefix(entries0, gradient@, i as int);
            }
            i = i + 1;
        }
        let pixels = gradient.to_pixel_row();
        let width = pixels.len();
        let id = allocator.upload((width, 1), &pixels);
        let entry = (Gradient(gradient.to_pixel_row()), id);
        proof {
            assert(entry.0@ == gradient@);
            lemma_find_in_pushed(entries0, gradient@, 0, (entry.0, entry.1));
            assert forall|key: Seq<Srgba>| key != gradient@ implies #[trigger] find_from(
                entries0.push((entry.0, entry.1)),
                key,
                0,
            ) == find_from(entries0, key, 0) by {
                lemma_find_other_key_pushed(entries0, key, 0, (entry.0, entry.1));
            }
        }
        self.entries.push(entry);
        id
    }
}

impl Default for TextureManager {
    /// An empty cache: no gradient has a handle yet.
    fn default() -> (m: TextureManager)
        ensures
            m.entry_count() == 0,
            forall|key: Seq<Srgba>| #[trigger] m.find_spec(key) is None,
    {
        TextureManager { entries: Vec::new() }
    }
}

} // verus!
