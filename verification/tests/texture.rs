use epi::egui::Color32;
use epi::backend::TexAllocationData;
use web0::pixels::PixelBuffer;
use web0::texture::{TextureHandle, TextureManager};

fn image(seed: u8) -> PixelBuffer {
    PixelBuffer::new(2, 1, vec![seed, 0, 0, 255, 0, seed, 0, 255]).expect("two pixels")
}

#[test]
fn a_new_manager_holds_nothing() {
    let manager = TextureManager::new();
    assert!(manager.handle().is_none());
    assert!(!manager.holds(""));
    assert!(!manager.holds("http://x/a.png"));
    assert!(TextureManager::default().handle().is_none());
}

#[test]
fn same_url_twice_allocates_once_and_releases_nothing() {
    let mut ledger = TexAllocationData::default();
    let mut manager = TextureManager::new();
    let picture = image(10);
    let first = manager.ensure_texture(&mut ledger, "http://x/a.png", &picture);
    let second = manager.ensure_texture(&mut ledger, "http://x/a.png", &picture);
    assert_eq!(first, second);
    assert_eq!(ledger.creations.len(), 1);
    assert!(ledger.creations.contains_key(&first.id));
    assert!(ledger.destructions.is_empty());
    assert_eq!(manager.handle(), Some(first));
    assert!(manager.holds("http://x/a.png"));
}

#[test]
fn a_new_url_releases_the_old_texture_and_allocates_one() {
    let mut ledger = TexAllocationData::default();
    let mut manager = TextureManager::new();
    let a = manager.ensure_texture(&mut ledger, "http://x/a.png", &image(10));
    assert_eq!(ledger.creations.len(), 1);
    assert!(ledger.destructions.is_empty());
    let b = manager.ensure_texture(&mut ledger, "http://x/b.png", &image(20));
    assert_ne!(a, b);
    assert_eq!(ledger.destructions, vec![a.id]);
    assert_eq!(ledger.creations.len(), 2);
    assert!(ledger.creations.contains_key(&b.id));
    assert_eq!(manager.handle(), Some(b));
    assert!(manager.holds("http://x/b.png"));
    assert!(!manager.holds("http://x/a.png"));
}

#[test]
fn at_most_one_texture_is_alive_over_many_urls() {
    let mut ledger = TexAllocationData::default();
    let mut manager = TextureManager::new();
    let urls = ["http://x/1", "http://x/2", "http://x/2", "http://x/3", "http://x/1"];
    for url in urls {
        manager.ensure_texture(&mut ledger, url, &image(1));
        let alive = ledger
            .creations
            .keys()
            .filter(|id| !ledger.destructions.contains(id))
            .count();
        assert_eq!(alive, 1);
    }
    assert_eq!(ledger.creations.len(), 4);
    assert_eq!(ledger.destructions.len(), 3);
}

#[test]
fn the_first_call_allocates_even_for_the_empty_url() {
    let mut ledger = TexAllocationData::default();
    let mut manager = TextureManager::new();
    let handle = manager.ensure_texture(&mut ledger, "", &image(3));
    assert_eq!(ledger.creations.len(), 1);
    assert!(ledger.destructions.is_empty());
    assert_eq!(manager.handle(), Some(handle));
    assert!(manager.holds(""));
}

#[test]
fn same_url_with_other_pixels_keeps_the_texture() {
    let mut ledger = TexAllocationData::default();
    let mut manager = TextureManager::new();
    let first = manager.ensure_texture(&mut ledger, "http://x/random", &image(10));
    let second = manager.ensure_texture(&mut ledger, "http://x/random", &image(99));
    assert_eq!(first, second);
    assert_eq!(ledger.creations.len(), 1);
    assert!(ledger.destructions.is_empty());
}

#[test]
fn urls_are_compared_exactly() {
    let mut ledger = TexAllocationData::default();
    let mut manager = TextureManager::new();
    let lower = manager.ensure_texture(&mut ledger, "http://x/a.png", &image(1));
    let upper = manager.ensure_texture(&mut ledger, "http://x/A.png", &image(1));
    assert_ne!(lower, upper);
    assert_eq!(ledger.destructions, vec![lower.id]);
}

#[test]
fn the_platform_gets_the_pixels_of_the_buffer() {
    let mut ledger = TexAllocationData::default();
    let mut manager = TextureManager::new();
    let handle = manager.ensure_texture(&mut ledger, "http://x/a.png", &image(10));
    let stored = ledger.creations.get(&handle.id).expect("the image that was handed over");
    assert_eq!(stored.size, [2, 1]);
    assert_eq!(
        stored.pixels,
        vec![
            Color32::from_rgba_unmultiplied(10, 0, 0, 255),
            Color32::from_rgba_unmultiplied(0, 10, 0, 255),
        ]
    );
}

#[test]
fn handles_follow_the_ledger_numbers() {
    let mut ledger = TexAllocationData::default();
    let mut manager = TextureManager::new();
    let first = manager.ensure_texture(&mut ledger, "a", &image(1));
    let second = manager.ensure_texture(&mut ledger, "b", &image(1));
    assert_eq!(first, TextureHandle { id: 0 });
    assert_eq!(second, TextureHandle { id: 1 });
}

#[test]
fn a_handle_survives_the_ledger_being_taken() {
    let mut ledger = TexAllocationData::default();
    let mut manager = TextureManager::new();
    let first = manager.ensure_texture(&mut ledger, "a", &image(1));
    let taken = ledger.take();
    assert_eq!(taken.creations.len(), 1);
    let again = manager.ensure_texture(&mut ledger, "a", &image(1));
    assert_eq!(first, again);
    assert!(ledger.creations.is_empty());
    let next = manager.ensure_texture(&mut ledger, "b", &image(1));
    assert_eq!(ledger.destructions, vec![first.id]);
    assert_eq!(next, TextureHandle { id: 1 });
}

#[test]
fn an_empty_image_can_be_made_resident() {
    let mut ledger = TexAllocationData::default();
    let mut manager = TextureManager::new();
    let empty = PixelBuffer::new(0, 0, Vec::new()).expect("no pixels, no bytes");
    let handle = manager.ensure_texture(&mut ledger, "http://x/empty", &empty);
    assert_eq!(ledger.creations.get(&handle.id).map(|image| image.size), Some([0, 0]));
}
