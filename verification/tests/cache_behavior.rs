use srgb_gradients::cache::{TextureAllocator, TextureId, TextureManager};
use srgb_gradients::color::Srgba;
use srgb_gradients::gradient::Gradient;

/// A stand-in render backend: hands out sequential handles and counts how
/// often it is asked to upload.
struct CountingAllocator {
    next: u64,
    uploads: u64,
    last_size: Option<(usize, usize)>,
}

impl TextureAllocator for CountingAllocator {
    fn upload(&mut self, size: (usize, usize), pixels: &Vec<Srgba>) -> TextureId {
        assert_eq!(size.1, 1);
        assert_eq!(size.0, pixels.len());
        self.uploads += 1;
        self.last_size = Some(size);
        let id = TextureId(self.next);
        self.next += 1;
        id
    }
}

fn fresh() -> CountingAllocator {
    CountingAllocator { next: 100, uploads: 0, last_size: None }
}

#[test]
fn equal_gradients_upload_once() {
    let mut mngr = TextureManager::default();
    let mut alloc = fresh();
    let a = Gradient::one_color(Srgba::new(10, 20, 30, 255));
    let b = Gradient::one_color(Srgba::new(10, 20, 30, 255));
    let id_a = mngr.get(&mut alloc, &a);
    let id_b = mngr.get(&mut alloc, &b);
    assert_eq!(alloc.uploads, 1);
    assert_eq!(id_a, id_b);
    assert_eq!(mngr.entry_len(), 1);
}

#[test]
fn distinct_gradients_upload_twice_with_distinct_handles() {
    let mut mngr = TextureManager::default();
    let mut alloc = fresh();
    let a = Gradient::one_color(Srgba::new(10, 20, 30, 255));
    let b = Gradient::one_color(Srgba::new(10, 20, 31, 255));
    let id_a = mngr.get(&mut alloc, &a);
    let id_b = mngr.get(&mut alloc, &b);
    assert_eq!(alloc.uploads, 2);
    assert_ne!(id_a, id_b);
    assert_eq!(mngr.entry_len(), 2);
}

#[test]
fn cache_survives_many_lookups() {
    let mut mngr = TextureManager::default();
    let mut alloc = fresh();
    let left = Srgba::new(255, 0, 0, 255);
    let right = Srgba::new(0, 255, 0, 255);
    for _ in 0..5 {
        let g = Gradient::ground_truth_linear_gradient(left, right);
        mngr.get(&mut alloc, &g);
        let two = Gradient::texture_gradient(left, right);
        mngr.get(&mut alloc, &two);
    }
    assert_eq!(alloc.uploads, 2);
    assert_eq!(mngr.entry_len(), 2);
    assert_eq!(alloc.last_size, Some((2, 1)));
}

#[test]
fn upload_receives_the_pixel_row() {
    let mut mngr = TextureManager::default();
    let mut alloc = fresh();
    let g = Gradient::ground_truth_linear_gradient(
        Srgba::new(255, 0, 0, 255),
        Srgba::new(0, 255, 0, 255),
    );
    mngr.get(&mut alloc, &g);
    assert_eq!(alloc.last_size, Some((256, 1)));
}
