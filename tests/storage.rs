use dataforge_compute::context::{ActiveExecutions, CancellationToken, ProgressState};
use dataforge_compute::output::OutputWriter;
use std::sync::Arc;

#[test]
fn blob_location_is_content_addressed() {
    let w = OutputWriter::new("/data/blobs".to_string());
    let loc = w.locate(&Vec::new());
    assert_eq!(loc.hash, "e3b0c44298fc1c149afbf4c8996fb92427ae41e4649b934ca495991b7852b855");
    assert_eq!(
        loc.path,
        "/data/blobs/e3/b0/e3b0c44298fc1c149afbf4c8996fb92427ae41e4649b934ca495991b7852b855.parquet"
    );
    assert_eq!(loc.temp_path, format!("{}.tmp", loc.path));
}

#[test]
fn identical_bytes_land_in_one_place() {
    let w = OutputWriter::new("b".to_string());
    let bytes = b"depth,value\n100,10\n".to_vec();
    let a = w.locate(&bytes);
    let b = w.locate(&bytes.clone());
    assert_eq!(a.hash, b.hash);
    assert_eq!(a.path, b.path);
    let other = w.locate(&b"depth,value\n100,11\n".to_vec());
    assert_ne!(a.hash, other.hash);
    assert_eq!(w.blob_path("abcdef"), "b/ab/cd/abcdef.parquet");
}

#[test]
fn cancellation_token() {
    let t = CancellationToken::new();
    assert!(!t.is_cancelled());
    assert!(t.check_cancelled().is_ok());
    t.cancel();
    assert!(t.is_cancelled());
    assert!(t.check_cancelled().is_err());
}

#[test]
fn progress_is_held_to_one_hundred() {
    let p = ProgressState::new();
    assert_eq!(p.get_progress(), 0);
    assert!(p.get_message().is_none());
    p.set_percent(42);
    assert_eq!(p.get_progress(), 42);
    p.set_percent_with_message(250, "almost".to_string());
    assert_eq!(p.get_progress(), 100);
    assert_eq!(p.get_message().as_deref(), Some("almost"));
}

#[test]
fn active_executions_table() {
    let mut table = ActiveExecutions::new();
    let token = Arc::new(CancellationToken::new());
    let progress = Arc::new(ProgressState::new());
    table.insert("e1".to_string(), token.clone(), progress.clone());
    progress.set_percent(30);
    let p = table.progress_of("e1").unwrap();
    assert_eq!(p.progress, 30);
    assert!(!p.is_cancelled);
    assert!(table.cancel("e1"));
    assert!(token.is_cancelled());
    assert!(!table.cancel("e2"));
    assert!(table.progress_of("e2").is_none());
    assert_eq!(table.list().len(), 1);
    assert!(table.remove("e1"));
    assert!(!table.remove("e1"));
    assert!(table.list().is_empty());
}
