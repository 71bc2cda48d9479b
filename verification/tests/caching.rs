use std::cell::Cell;
use singularity_toolkit::caching::Cache;

#[test]
fn cache_refreshes_only_after_a_change() {
    let mut c = Cache::new("first".to_string());
    // a new cache is stale and a change is already pending: nothing to report
    assert!(!c.damage());
    assert!(c.take_pending());
    c.refresh("second".to_string());
    assert!(!c.take_pending());
    assert_eq!(c.value(), "second");
    // the first change after a read is reported, later ones are not
    assert!(c.damage());
    assert!(!c.damage());
    assert!(c.take_pending());
    c.mark_pending();
    assert!(c.take_pending());
    assert_eq!(c.value(), "second");
}

#[test]
fn reading_draws_only_when_stale() {
    let draws = Cell::new(0);
    let mut c = Cache::new(0u32);
    // stale at first: drawn, and the applet has no more changes
    let v = *c.read(|| { draws.set(draws.get() + 1); 7 }, || false);
    assert_eq!((v, draws.get()), (7, 1));
    // fresh: not drawn again
    let v = *c.read(|| { draws.set(draws.get() + 1); 8 }, || false);
    assert_eq!((v, draws.get()), (7, 1));
    // the applet reports a change: drawn, but it is still changing
    assert!(c.damage());
    let v = *c.read(|| { draws.set(draws.get() + 1); 9 }, || true);
    assert_eq!((v, draws.get()), (9, 2));
    // still stale, so the next read draws again
    let v = *c.read(|| { draws.set(draws.get() + 1); 10 }, || false);
    assert_eq!((v, draws.get()), (10, 3));
}
