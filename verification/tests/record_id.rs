use simpledb::common::page_id::{HeapPageId, PageId};
use simpledb::table::record_id::RecordId;

#[test]
fn record_id_gives_back_its_parts() {
    let rid = RecordId::new(HeapPageId::new(7, 2), 11);
    assert_eq!(rid.get_tuple_number(), 11);
    assert_eq!(rid.get_page_id().get_table_id(), 7);
    assert_eq!(rid.get_page_id().get_page_number(), 2);
    assert_eq!(*rid.get_page_id(), HeapPageId::new(7, 2));
}

#[test]
fn record_ids_are_equal_by_page_and_slot() {
    let rid = RecordId::new(HeapPageId::new(7, 2), 11);
    assert!(rid.equals(&RecordId::new(HeapPageId::new(7, 2), 11)));
    assert!(rid.equals(&rid));
    assert!(!rid.equals(&RecordId::new(HeapPageId::new(7, 2), 12)));
    assert!(!rid.equals(&RecordId::new(HeapPageId::new(7, 3), 11)));
    assert!(!rid.equals(&RecordId::new(HeapPageId::new(8, 2), 11)));
    assert!(!rid.equals(&RecordId::new(HeapPageId::new(7, 3), 10)));
}

#[test]
fn page_id_is_made_again_from_its_integers() {
    let ids = [
        HeapPageId::new(0, 0),
        HeapPageId::new(7, 2),
        HeapPageId::new(u64::MAX, -1),
        HeapPageId::new(0x8000_0000, i32::MIN),
        HeapPageId::new(0x1234_5678_9abc_def0, i32::MAX),
        HeapPageId::new(0xffff_ffff, 5),
        HeapPageId::new(1 << 32, 5),
    ];
    for id in ids {
        let ints = id.serialize();
        assert_eq!(ints.len(), 3);
        assert_eq!(HeapPageId::from_ints(&ints), Some(id));
    }
    assert_eq!(HeapPageId::new(7, 2).serialize(), vec![0, 7, 2]);
    assert_eq!(
        HeapPageId::new(0x1234_5678_9abc_def0, 1).serialize(),
        vec![0x1234_5678, 0x9abc_def0u32 as i32, 1]
    );
    assert_eq!(HeapPageId::new(u64::MAX, -1).serialize(), vec![-1, -1, -1]);
    assert_eq!(HeapPageId::from_ints(&[]), None);
    assert_eq!(HeapPageId::from_ints(&[1, 2]), None);
    assert_eq!(HeapPageId::from_ints(&[1, 2, 3, 4]), None);
    assert_eq!(
        HeapPageId::from_ints(&[1, -2, 3]),
        Some(HeapPageId::new((1 << 32) + 0xffff_fffe, 3))
    );
}

#[test]
fn page_ids_are_equal_by_table_and_number() {
    let id = HeapPageId::new(7, 2);
    assert!(id.equals(&HeapPageId::new(7, 2)));
    assert!(!id.equals(&HeapPageId::new(7, 3)));
    assert!(!id.equals(&HeapPageId::new(6, 2)));
    assert_eq!(id.hash_code(), HeapPageId::new(7, 2).hash_code());
    assert_ne!(id.hash_code(), HeapPageId::new(2, 7).hash_code());
}
