use upd8r::watermark::WatermarkStore;
use upd8r::Media;

#[test]
fn strictly_increasing_ids_all_accepted() {
    let mut store = WatermarkStore::new();
    store.load(&Media::Homestuck2, None);
    assert!(store.advance(&Media::Homestuck2, 1));
    assert!(store.advance(&Media::Homestuck2, 2));
    assert!(store.advance(&Media::Homestuck2, 3));
    assert_eq!(store.watermark(&Media::Homestuck2), 3);
}

#[test]
fn non_increasing_ids_rejected_after_first() {
    let mut store = WatermarkStore::new();
    store.load(&Media::PQSteam, None);
    assert!(store.advance(&Media::PQSteam, 5));
    assert!(!store.advance(&Media::PQSteam, 5));
    assert!(!store.advance(&Media::PQSteam, 4));
    assert!(!store.advance(&Media::PQSteam, 3));
    assert_eq!(store.watermark(&Media::PQSteam), 5);
}

#[test]
fn same_id_accepted_exactly_once() {
    let mut store = WatermarkStore::new();
    store.load(&Media::HiveswapAct2News, None);
    assert!(store.advance(&Media::HiveswapAct2News, 42));
    assert!(!store.advance(&Media::HiveswapAct2News, 42));
    assert!(!store.advance(&Media::HiveswapAct2News, 42));
}

#[test]
fn media_do_not_affect_each_other() {
    let mut store = WatermarkStore::new();
    store.load(&Media::Homestuck2, None);
    store.load(&Media::Homestuck2Bonus, None);
    assert!(store.advance(&Media::Homestuck2, 1000));
    // A huge id for one media leaves every other media on a cold watermark.
    assert!(store.advance(&Media::Homestuck2Bonus, 1));
    assert_eq!(store.watermark(&Media::Homestuck2), 1000);
    assert_eq!(store.watermark(&Media::Homestuck2Bonus), 1);
}

#[test]
fn load_happens_once_per_media() {
    let mut store = WatermarkStore::new();
    assert!(!store.is_loaded(&Media::HiveswapAct2Steam));
    store.load(&Media::HiveswapAct2Steam, Some(7));
    assert!(store.is_loaded(&Media::HiveswapAct2Steam));
    // A later load carries a different persisted value and must not win.
    store.load(&Media::HiveswapAct2Steam, Some(99));
    assert_eq!(store.watermark(&Media::HiveswapAct2Steam), 7);
}

#[test]
fn absent_persisted_record_means_zero() {
    let mut store = WatermarkStore::new();
    store.load(&Media::Homestuck2, None);
    assert_eq!(store.watermark(&Media::Homestuck2), 0);
    assert!(store.advance(&Media::Homestuck2, 1));
}

#[test]
fn stale_persistence_duplicates_once_never_loses() {
    // First process: the watermark moves to 10 in memory, but the persist
    // fails, so durable storage still holds 4.
    let mut first = WatermarkStore::new();
    first.load(&Media::Homestuck2, Some(4));
    assert!(first.advance(&Media::Homestuck2, 10));

    // Restart from the stale record: the already-seen id 10 is re-reported
    // once, then never again — and the truly new id 11 is never lost.
    let mut restarted = WatermarkStore::new();
    restarted.load(&Media::Homestuck2, Some(4));
    assert!(restarted.advance(&Media::Homestuck2, 10));
    assert!(!restarted.advance(&Media::Homestuck2, 10));
    assert!(restarted.advance(&Media::Homestuck2, 11));
}
