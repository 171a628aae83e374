use file_futures::AsyncFile;
use file_futures::ErrorKind;
use file_futures::Permissions;
use file_futures::SeekFrom;
use file_futures::SimFile;

#[test]
fn run_drives_a_delayed_chain_to_completion() {
    // Three scripted suspensions; the drivers poll through them and the
    // chain ends exactly where an always-ready file would have ended.
    let file = SimFile::with_delay(0, 3);
    let file = file.set_len(30).run().expect("set_len completes");
    let file = file.sync_all().run().expect("sync_all completes");
    let file = file.sync_data().run().expect("sync_data completes");
    let (file, duplicate) = file.try_clone().run().expect("try_clone completes");
    let (file, md) = file.metadata().run().expect("metadata completes");
    assert_eq!(md.len(), 30);
    assert!(!md.permissions().readonly());
    let (_dup, dup_md) = duplicate.metadata().run().expect("metadata completes");
    assert_eq!(dup_md, md);
    let mut permissions = md.permissions();
    permissions.set_readonly(true);
    let file = file.set_permissions(permissions).run().expect("set_permissions completes");
    let (_file, md) = file.metadata().run().expect("metadata completes");
    assert!(md.permissions().readonly());
}

#[test]
fn run_reaches_the_always_ready_outcome() {
    let delayed = SimFile::with_delay(100, 5);
    let (_f1, delayed_offset) =
        delayed.seek(SeekFrom::End(-25)).run().expect("seek completes");
    let ready = SimFile::new(100);
    let (_f2, ready_offset) = ready.seek(SeekFrom::End(-25)).run().expect("seek completes");
    assert_eq!(delayed_offset, ready_offset);
    assert_eq!(ready_offset, 75);
}

#[test]
fn run_surfaces_a_failure() {
    let file = SimFile::new(10);
    let file = file
        .set_permissions(Permissions { readonly: true })
        .run()
        .expect("set_permissions completes");
    let error = file.set_len(1).run().expect_err("a read-only file rejects set_len");
    assert_eq!(error.kind, ErrorKind::PermissionDenied);
}

#[test]
fn run_surfaces_an_out_of_range_seek() {
    let file = SimFile::with_delay(10, 2);
    let error = file
        .seek(SeekFrom::Current(-11))
        .run()
        .expect_err("a seek below zero fails");
    assert_eq!(error.kind, ErrorKind::InvalidInput);
}
