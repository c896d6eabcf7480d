use agentbox_core::vfs::{VfsError, VirtualFS};

#[test]
fn test_vfs_ops() {
    let mut fs = VirtualFS::new();
    fs.write_file("test.txt", b"hello").unwrap();
    assert_eq!(fs.read_file("test.txt").unwrap(), b"hello");
    assert!(fs.contains_file("test.txt"));
    fs.remove_file("test.txt").unwrap();
    assert!(!fs.contains_file("test.txt"));
}

#[test]
fn staging_store_round_trip() {
    let mut fs = VirtualFS::new();
    fs.write_file("a.txt", b"x").unwrap();
    assert_eq!(fs.read_file("a.txt").unwrap(), b"x");
    fs.remove_file("a.txt").unwrap();
    assert!(matches!(fs.read_file("a.txt"), Err(VfsError::NotFound)));
}

#[test]
fn staging_store_last_writer_wins() {
    let mut fs = VirtualFS::new();
    fs.write_file("a.txt", b"first").unwrap();
    fs.write_file("a.txt", b"second").unwrap();
    assert_eq!(fs.read_file("a.txt").unwrap(), b"second");
}

#[test]
fn staging_store_missing_paths() {
    let mut fs = VirtualFS::new();
    assert!(!fs.contains_file("absent"));
    assert!(matches!(fs.read_file("absent"), Err(VfsError::NotFound)));
    assert!(matches!(fs.remove_file("absent"), Err(VfsError::NotFound)));
}

#[test]
fn staging_store_keeps_other_entries() {
    let mut fs = VirtualFS::new();
    fs.write_file("a.txt", b"alpha").unwrap();
    fs.write_file("b.txt", b"beta").unwrap();
    fs.remove_file("a.txt").unwrap();
    assert!(!fs.contains_file("a.txt"));
    assert_eq!(fs.read_file("b.txt").unwrap(), b"beta");
}
