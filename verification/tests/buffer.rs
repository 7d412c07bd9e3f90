use serde_v8_magic::zero_copy_buf::{
    window_of, BackingStore, BufferView, DataError, ZeroCopyBuf,
};

#[test]
fn read_view_matches_source_region() {
    let source: Vec<u8> = (0..16).collect();
    let store = BackingStore::new(source.clone(), false);
    let view = BufferView::new(store, 4, 8).unwrap();
    let buf = ZeroCopyBuf::try_new(&view).unwrap();
    assert_eq!(buf.len(), 8);
    assert_eq!(buf.read_bytes(), source[4..12].to_vec());
}

#[test]
fn view_refused_when_window_overflows() {
    let store = BackingStore::new(vec![0; 4], false);
    assert!(BufferView::new(store, 3, 2).is_none());
    let store = BackingStore::new(vec![0; 4], false);
    assert!(BufferView::new(store, 0, 5).is_none());
    let store = BackingStore::new(vec![0; 4], false);
    assert!(BufferView::new(store, 4, 0).is_some());
}

#[test]
fn shared_store_is_refused_without_retaining_a_handle() {
    let store = BackingStore::new(vec![0; 8], true);
    let probe = store.clone();
    let view = BufferView::new(store, 0, 8).unwrap();
    let before = probe.ref_count();
    match ZeroCopyBuf::try_new(&view) {
        Err(DataError::BadType { actual, expected }) => {
            assert_eq!(actual, "shared ArrayBufferView");
            assert_eq!(expected, "non-shared ArrayBufferView");
        }
        Ok(_) => panic!("a shared store must be refused"),
    }
    assert_eq!(probe.ref_count(), before);
}

#[test]
fn new_returns_a_buffer_over_the_window() {
    let store = BackingStore::new(vec![5, 6, 7, 8], false);
    let view = BufferView::new(store, 1, 2).unwrap();
    let buf = ZeroCopyBuf::new(&view);
    assert_eq!(buf.len(), 2);
    assert_eq!(buf.read_bytes(), vec![6, 7]);
}

#[test]
fn byte_at_reads_relative_to_the_window() {
    let store = BackingStore::new(vec![5, 6, 7, 8], false);
    let view = BufferView::new(store, 2, 2).unwrap();
    let buf = ZeroCopyBuf::new(&view);
    assert_eq!(buf.byte_at(0), 7);
    assert_eq!(buf.byte_at(1), 8);
}

#[test]
fn write_is_visible_through_a_clone() {
    let store = BackingStore::new(vec![0; 8], false);
    let view = BufferView::new(store, 0, 8).unwrap();
    let mut buf = ZeroCopyBuf::new(&view);
    let twin = buf.clone();
    buf.write_byte(3, 0xAB);
    assert_eq!(twin.byte_at(3), 0xAB);
    assert_eq!(twin.read_bytes()[3], 0xAB);
}

#[test]
fn clone_outlives_the_original_unchanged() {
    let source: Vec<u8> = (10..18).collect();
    let store = BackingStore::new(source.clone(), false);
    let view = BufferView::new(store, 0, 8).unwrap();
    let buf = ZeroCopyBuf::new(&view);
    let twin = buf.clone();
    drop(view);
    drop(buf);
    assert_eq!(twin.len(), 8);
    assert_eq!(twin.read_bytes(), source);
}

#[test]
fn last_handle_releases_the_store() {
    let store = BackingStore::new(vec![0; 8], false);
    assert_eq!(store.ref_count(), 1);
    let view = BufferView::new(store.clone(), 0, 8).unwrap();
    assert_eq!(store.ref_count(), 2);
    let buf = ZeroCopyBuf::new(&view);
    assert_eq!(store.ref_count(), 3);
    let twin = buf.clone();
    assert_eq!(store.ref_count(), 4);
    drop(buf);
    assert_eq!(store.ref_count(), 3);
    drop(twin);
    assert_eq!(store.ref_count(), 2);
    drop(view);
    assert_eq!(store.ref_count(), 1);
}

#[test]
fn disjoint_and_overlapping_windows() {
    let store = BackingStore::new(vec![0; 16], false);
    let probe = store.clone();

    let view_a = BufferView::new(store.clone(), 0, 8).unwrap();
    let view_b = BufferView::new(store, 8, 8).unwrap();
    let mut buf_a = ZeroCopyBuf::new(&view_a);
    let buf_b = ZeroCopyBuf::new(&view_b);
    buf_a.fill(0xFF);
    assert_eq!(buf_a.read_bytes(), vec![0xFF; 8]);
    assert_eq!(buf_b.read_bytes(), vec![0; 8]);

    let view_c = BufferView::new(probe.clone(), 0, 8).unwrap();
    let view_d = BufferView::new(probe, 4, 8).unwrap();
    let mut buf_c = ZeroCopyBuf::new(&view_c);
    let mut buf_d = ZeroCopyBuf::new(&view_d);
    buf_c.fill(1);
    buf_d.fill(2);
    let after_c = buf_c.read_bytes();
    assert_eq!(after_c[0..4].to_vec(), vec![1; 4]);
    assert_eq!(after_c[4..8].to_vec(), vec![2; 4]);
    assert_eq!(buf_d.read_bytes(), vec![2; 8]);
}

#[test]
fn window_of_copies_the_exact_range() {
    let bytes = vec![10, 20, 30, 40, 50];
    assert_eq!(window_of(&bytes, 1, 3), vec![20, 30, 40]);
    assert_eq!(window_of(&bytes, 0, 5), bytes);
    assert_eq!(window_of(&bytes, 5, 0), Vec::<u8>::new());
}

#[test]
fn store_reports_length_and_sharing() {
    let store = BackingStore::new(vec![9; 12], false);
    assert_eq!(store.len(), 12);
    assert!(!store.is_shared());
    let shared = BackingStore::new(Vec::new(), true);
    assert_eq!(shared.len(), 0);
    assert!(shared.is_shared());
}
