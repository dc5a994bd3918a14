use xtask::plan::Failure;
use xtask::steps::a9nloader::{copy_dir_contents, CopyOp, EntryKind, TreeEntry};

fn entry(rel: &str, kind: EntryKind) -> TreeEntry {
    TreeEntry { rel: String::from(rel), kind }
}

#[test]
fn mirrors_nested_tree() {
    let src = String::from("/r/a9nloader-rs/target/x86_64-unknown-uefi/debug");
    let dst = String::from("/r/out/x86_64-qemu-debug/a9nloader");
    let tree = Some(vec![
        entry("a9nloader-rs.efi", EntryKind::File),
        entry("deps", EntryKind::Dir),
        entry("deps/a.rlib", EntryKind::File),
        entry("deps/inner", EntryKind::Dir),
        entry("deps/inner/b.d", EntryKind::File),
    ]);
    let ops = copy_dir_contents(&src, &dst, &tree).unwrap();
    assert_eq!(ops.len(), 5);
    assert!(matches!(&ops[0], CopyOp::Copy { from, to }
        if from == "/r/a9nloader-rs/target/x86_64-unknown-uefi/debug/a9nloader-rs.efi"
            && to == "/r/out/x86_64-qemu-debug/a9nloader/a9nloader-rs.efi"));
    assert!(matches!(&ops[1], CopyOp::CreateDir(p) if p == "/r/out/x86_64-qemu-debug/a9nloader/deps"));
    assert!(matches!(&ops[2], CopyOp::Copy { to, .. } if to == "/r/out/x86_64-qemu-debug/a9nloader/deps/a.rlib"));
    assert!(matches!(&ops[3], CopyOp::CreateDir(p) if p == "/r/out/x86_64-qemu-debug/a9nloader/deps/inner"));
    assert!(matches!(&ops[4], CopyOp::Copy { from, to }
        if from == "/r/a9nloader-rs/target/x86_64-unknown-uefi/debug/deps/inner/b.d"
            && to == "/r/out/x86_64-qemu-debug/a9nloader/deps/inner/b.d"));
}

#[test]
fn empty_tree_copies_nothing() {
    let ops = copy_dir_contents(&String::from("s"), &String::from("d"), &Some(Vec::new())).unwrap();
    assert!(ops.is_empty());
}

#[test]
fn missing_source_fails() {
    let r = copy_dir_contents(&String::from("/nowhere"), &String::from("d"), &None);
    assert!(matches!(r, Err(Failure::Missing(p)) if p == "/nowhere"));
}

#[test]
fn first_unsupported_entry_fails() {
    let tree = Some(vec![
        entry("a", EntryKind::File),
        entry("link", EntryKind::Other),
        entry("dev", EntryKind::Other),
    ]);
    let r = copy_dir_contents(&String::from("s"), &String::from("d"), &tree);
    assert!(matches!(r, Err(Failure::Unsupported(p)) if p == "s/link"));
}
