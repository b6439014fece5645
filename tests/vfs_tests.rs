use rock::vfs::{BinVFS, GenericFile, VirtualFileSystem};

#[test]
fn unknown_file_holds_its_data() {
    let f = GenericFile::unknown(vec![1, 2, 3]);
    assert_eq!(f.name, "Unknown");
    assert_eq!(f.extension, "Unknown");
    assert_eq!(f.data, vec![1, 2, 3]);
}

#[test]
fn bin_vfs_holds_nothing() {
    let vfs = BinVFS;
    let mut bytes = Vec::new();
    assert!(vfs.read_bytes("a.glb", &mut bytes).is_err());
    assert!(bytes.is_empty());
    assert!(vfs.read_file("a.glb").is_err());
    assert!(vfs.write_bytes("a.glb", &[1]).is_err());
    assert!(vfs.write_file("a.glb", GenericFile::unknown(vec![])).is_err());
}
