use mirrorshard::slot::PendingFileSlot;

#[test]
fn take_once_semantics() {
    let mut slot = PendingFileSlot::new();
    assert!(slot.take().is_none());
    slot.set("a.txt".to_string());
    assert_eq!(slot.take(), Some("a.txt".to_string()));
    // the same path is never delivered twice
    assert!(slot.take().is_none());
}

#[test]
fn last_writer_wins() {
    let mut slot = PendingFileSlot::new();
    slot.set("first.txt".to_string());
    slot.set("second.txt".to_string());
    assert_eq!(slot.take(), Some("second.txt".to_string()));
    assert!(slot.take().is_none());
}
