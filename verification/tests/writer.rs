use mirrorshard::codec::decode;
use mirrorshard::fs_model::FsModel;
use mirrorshard::text::{LineEnding, TextEncoding};
use mirrorshard::writer::{temp_path, write_document, WriteError, WriteFault};

#[test]
fn fs_model_write_read_remove() {
    let mut fs = FsModel::new();
    assert!(fs.read("a.txt").is_none());
    fs.write("a.txt", vec![1, 2, 3]);
    assert_eq!(fs.read("a.txt"), Some(vec![1, 2, 3]));
    fs.write("a.txt", vec![9]);
    assert_eq!(fs.read("a.txt"), Some(vec![9]));
    fs.remove("a.txt");
    assert!(fs.read("a.txt").is_none());
}

#[test]
fn fs_model_rename() {
    let mut fs = FsModel::new();
    fs.write("src.txt", vec![4, 5]);
    fs.write("dst.txt", vec![6]);
    assert!(fs.rename("src.txt", "dst.txt"));
    assert!(fs.read("src.txt").is_none());
    assert_eq!(fs.read("dst.txt"), Some(vec![4, 5]));
    assert!(!fs.rename("missing.txt", "dst.txt"));
    assert_eq!(fs.read("dst.txt"), Some(vec![4, 5]));
}

#[test]
fn temp_path_is_sibling_with_suffix() {
    assert_eq!(temp_path("dir/doc.txt"), "dir/doc.txt.tmp");
}

#[test]
fn successful_save_commits_and_cleans_up() {
    let mut fs = FsModel::new();
    fs.write("doc.txt", b"old".to_vec());
    let r = write_document(&mut fs, "doc.txt", "line1\r\nline2", TextEncoding::Utf8, None);
    assert!(matches!(r, Some(Ok(()))));
    assert_eq!(fs.read("doc.txt"), Some(b"line1\r\nline2".to_vec()));
    assert!(fs.read("doc.txt.tmp").is_none());
    let d = decode(&fs.read("doc.txt").unwrap()).unwrap();
    assert_eq!(d.content, "line1\r\nline2");
    assert_eq!(d.encoding, TextEncoding::Utf8);
    assert_eq!(d.line_ending, LineEnding::Crlf);
}

#[test]
fn save_to_new_path_creates_file() {
    let mut fs = FsModel::new();
    let r = write_document(&mut fs, "new.txt", "hi", TextEncoding::Utf8, None);
    assert!(matches!(r, Some(Ok(()))));
    assert_eq!(fs.read("new.txt"), Some(b"hi".to_vec()));
}

#[test]
fn crash_between_temp_write_and_rename_preserves_target() {
    let mut fs = FsModel::new();
    fs.write("doc.txt", b"precious old content".to_vec());
    let r = write_document(
        &mut fs,
        "doc.txt",
        "new content",
        TextEncoding::Utf8,
        Some(WriteFault::CrashBeforeRename),
    );
    assert!(r.is_none());
    assert_eq!(fs.read("doc.txt"), Some(b"precious old content".to_vec()));
    // the crash leaves the temporary file behind; the target is what counts
    assert_eq!(fs.read("doc.txt.tmp"), Some(b"new content".to_vec()));
}

#[test]
fn failed_temp_write_reports_and_touches_nothing() {
    let mut fs = FsModel::new();
    fs.write("doc.txt", b"old".to_vec());
    let r = write_document(
        &mut fs,
        "doc.txt",
        "new",
        TextEncoding::Utf8,
        Some(WriteFault::TempWriteFails),
    );
    match r {
        Some(Err(WriteError::WriteFailure(_))) => {}
        other => panic!("expected a write failure, got {:?}", other),
    }
    assert_eq!(fs.read("doc.txt"), Some(b"old".to_vec()));
    assert!(fs.read("doc.txt.tmp").is_none());
}

#[test]
fn failed_rename_reports_cleans_temp_and_preserves_target() {
    let mut fs = FsModel::new();
    fs.write("doc.txt", b"old".to_vec());
    let r = write_document(
        &mut fs,
        "doc.txt",
        "new",
        TextEncoding::Utf8,
        Some(WriteFault::RenameFails),
    );
    match r {
        Some(Err(WriteError::RenameFailure(m))) => {
            assert_eq!(m, "rename onto target failed");
        }
        other => panic!("expected a rename failure, got {:?}", other),
    }
    assert_eq!(fs.read("doc.txt"), Some(b"old".to_vec()));
    assert!(fs.read("doc.txt.tmp").is_none());
}

#[test]
fn shift_jis_save_round_trips() {
    let mut fs = FsModel::new();
    let r = write_document(&mut fs, "jp.txt", "こんにちは", TextEncoding::ShiftJis, None);
    assert!(matches!(r, Some(Ok(()))));
    let d = decode(&fs.read("jp.txt").unwrap()).unwrap();
    assert_eq!(d.encoding, TextEncoding::ShiftJis);
    assert_eq!(d.content, "こんにちは");
}

#[test]
fn write_error_message() {
    let e = WriteError::WriteFailure(String::from("disk full"));
    assert_eq!(e.message().as_str(), "disk full");
    let e = WriteError::RenameFailure(String::from("permission denied"));
    assert_eq!(e.message().as_str(), "permission denied");
}
