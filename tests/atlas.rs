use gfx_font_cache::atlas::{AtlasCycle, CyclePhase};
use gfx_font_cache::upload::{coverage_to_rgba, prepare_upload, AtlasRect, CacheError, TextureRegion};

#[test]
fn overflowing_queue_reports_cache_overflow() {
    let mut cycle = AtlasCycle::new();
    for _ in 0..1000 {
        cycle.queue();
    }
    assert_eq!(cycle.finish_flush(false, true), Err(CacheError::CacheOverflow));
    assert_eq!(cycle.phase, CyclePhase::Overflowed);
    assert!(!cycle.can_resolve());
}

#[test]
fn placed_queue_may_be_resolved() {
    let mut cycle = AtlasCycle::new();
    assert!(!cycle.can_resolve());
    cycle.queue();
    assert_eq!(cycle.queued, 1);
    assert_eq!(cycle.finish_flush(true, true), Ok(()));
    assert!(cycle.can_resolve());
    cycle.next_frame();
    assert_eq!((cycle.phase, cycle.queued), (CyclePhase::Queueing, 0));
    assert!(!cycle.can_resolve());
}

#[test]
fn failed_upload_is_fatal_first() {
    let mut cycle = AtlasCycle::new();
    assert_eq!(cycle.finish_flush(false, false), Err(CacheError::TextureUploadError));
    assert_eq!(cycle.phase, CyclePhase::UploadFailed);
}

#[test]
fn coverage_becomes_black_with_alpha() {
    assert_eq!(coverage_to_rgba(&[0, 128, 255]), vec![[0, 0, 0, 0], [0, 0, 0, 128], [0, 0, 0, 255]]);
    assert!(coverage_to_rgba(&[]).is_empty());
}

#[test]
fn upload_keeps_region_and_pixel_order() {
    let rect = AtlasRect { min_x: 3, min_y: 5, max_x: 5, max_y: 8 };
    let data = [1u8, 2, 3, 4, 5, 6];
    let up = prepare_upload(rect, &data).expect("six bytes cover two by three");
    assert_eq!(up.region, TextureRegion { x_offset: 3, y_offset: 5, width: 2, height: 3 });
    assert_eq!(up.pixels.len(), 6);
    assert_eq!(up.pixels[4], [0, 0, 0, 5]);
}

#[test]
fn malformed_upload_is_refused() {
    let rect = AtlasRect { min_x: 0, min_y: 0, max_x: 2, max_y: 2 };
    assert_eq!(prepare_upload(rect, &[0; 3]).err(), Some(CacheError::TextureUploadError));
    let inverted = AtlasRect { min_x: 4, min_y: 0, max_x: 2, max_y: 2 };
    assert_eq!(prepare_upload(inverted, &[]).err(), Some(CacheError::TextureUploadError));
    let outside = AtlasRect { min_x: 0, min_y: 0, max_x: 70000, max_y: 1 };
    assert_eq!(prepare_upload(outside, &[0; 70000]).err(), Some(CacheError::TextureUploadError));
}
