//! Framebuffer cache behavior.

use frame_compare::cache::FramebufferCache;

#[test]
fn distinct_targets_distinct_entries() {
    // Three distinct output-target identities produce exactly three entries.
    let mut cache = FramebufferCache::new();
    assert_eq!(cache.len(), 0);
    assert_eq!(cache.get_or_create(10, 100), (100, true));
    assert_eq!(cache.get_or_create(20, 200), (200, true));
    assert_eq!(cache.get_or_create(30, 300), (300, true));
    assert_eq!(cache.len(), 3);
}

#[test]
fn existing_entry_is_reused() {
    let mut cache = FramebufferCache::new();
    assert_eq!(cache.get_or_create(10, 100), (100, true));
    // The fresh handle is not consumed when the target is already cached.
    assert_eq!(cache.get_or_create(10, 999), (100, false));
    assert_eq!(cache.len(), 1);
    assert_eq!(cache.get(10), Some(100));
}

#[test]
fn invalidate_removes_exactly_one() {
    let mut cache = FramebufferCache::new();
    cache.get_or_create(10, 100);
    cache.get_or_create(20, 200);
    cache.get_or_create(30, 300);
    // Invalidation removes exactly the named entry and leaves the others.
    assert_eq!(cache.invalidate(20), Some(200));
    assert_eq!(cache.len(), 2);
    assert_eq!(cache.get(10), Some(100));
    assert_eq!(cache.get(20), None);
    assert_eq!(cache.get(30), Some(300));
    // Invalidating an absent identity is a no-op.
    assert_eq!(cache.invalidate(20), None);
    assert_eq!(cache.len(), 2);
}

#[test]
fn recreate_after_invalidate() {
    let mut cache = FramebufferCache::new();
    cache.get_or_create(10, 100);
    cache.invalidate(10);
    // A fresh entry is created for an invalidated identity.
    assert_eq!(cache.get_or_create(10, 101), (101, true));
    assert_eq!(cache.get(10), Some(101));
}

#[test]
fn drain_returns_handles_in_insertion_order() {
    let mut cache = FramebufferCache::new();
    cache.get_or_create(10, 100);
    cache.get_or_create(20, 200);
    cache.get_or_create(30, 300);
    assert_eq!(cache.drain_handles(), vec![100, 200, 300]);
    assert_eq!(cache.len(), 0);
}
