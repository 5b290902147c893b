use zipfile::EntryRecord;
use zipfile::EntrySource;
use zipfile::OpenError;
use zipfile::OperationError;
use zipfile::ZipFile;

fn fresh(path: &str) -> ZipFile {
    ZipFile::open(path, true, None).expect("create should succeed")
}

#[test]
fn open_missing_without_create_is_not_found() {
    let r = ZipFile::open("missing.zip", false, None);
    assert_eq!(r.unwrap_err(), OpenError::NotFound);
}

#[test]
fn open_with_create_yields_empty_archive() {
    let z = fresh("fresh.zip");
    assert_eq!(z.filename().as_str(), "fresh.zip");
    let entries = z.entries().expect("entries on an open archive");
    assert_eq!(entries.len(), 0);
}

#[test]
fn open_empty_path_is_invalid_argument() {
    let r = ZipFile::open("", true, None);
    assert_eq!(r.unwrap_err(), OpenError::InvalidArgument);
}

#[test]
fn open_rejects_duplicate_names() {
    let image = vec![
        EntryRecord {
            name: "a".to_string(),
            source: EntrySource::Bytes(vec![1]),
            committed: true,
        },
        EntryRecord {
            name: "a".to_string(),
            source: EntrySource::Bytes(vec![2]),
            committed: true,
        },
    ];
    let r = ZipFile::open("dup.zip", false, Some(image));
    assert_eq!(r.unwrap_err(), OpenError::InconsistentContainer);
}

#[test]
fn open_rejects_empty_member_name() {
    let image = vec![EntryRecord {
        name: String::new(),
        source: EntrySource::Bytes(vec![1]),
        committed: true,
    }];
    let r = ZipFile::open("empty-name.zip", false, Some(image));
    assert_eq!(r.unwrap_err(), OpenError::InconsistentContainer);
}

#[test]
fn round_trip_scenario() {
    // Open non-existent without create: NotFound. With create: empty archive.
    assert_eq!(
        ZipFile::open("trip.zip", false, None).unwrap_err(),
        OpenError::NotFound
    );
    let mut z = fresh("trip.zip");
    assert_eq!(z.entries().unwrap().len(), 0);

    z.add_buffer(&[0x41, 0x42, 0x43], "a.txt").unwrap();
    let image = z.close().unwrap().expect("an open archive yields an image");

    let z = ZipFile::open("trip.zip", false, Some(image)).unwrap();
    let mut entry = z
        .get_entry("a.txt", true)
        .expect("lookup succeeds")
        .expect("the member is listed");
    assert_eq!(entry.read(16).unwrap(), vec![0x41, 0x42, 0x43]);
    assert_eq!(entry.read(16).unwrap(), Vec::<u8>::new());
}

#[test]
fn close_is_idempotent() {
    let mut z = fresh("idem.zip");
    z.add_buffer(&[1], "a").unwrap();
    let first = z.close().unwrap();
    assert!(first.is_some());
    let second = z.close().unwrap();
    assert!(second.is_none());
    let third = z.close().unwrap();
    assert!(third.is_none());
}

#[test]
fn not_open_guards_every_operation() {
    let mut z = fresh("guard.zip");
    z.close().unwrap();
    assert_eq!(
        z.add_buffer(&[1], "a").unwrap_err(),
        OperationError::NotOpen
    );
    assert_eq!(
        z.add_file("src.bin", "a").unwrap_err(),
        OperationError::NotOpen
    );
    assert_eq!(z.delete_file("a").unwrap_err(), OperationError::NotOpen);
    assert_eq!(z.entries().unwrap_err(), OperationError::NotOpen);
    assert!(matches!(
        z.get_entry("a", false),
        Err(OperationError::NotOpen)
    ));
    assert_eq!(z.file_stat("a").unwrap_err(), OperationError::NotOpen);
    assert_eq!(z.get_error(-1).unwrap_err(), OperationError::NotOpen);
    // A zero status code is success even on a closed archive's taxonomy side.
    assert!(z.get_error(0).is_ok());
}

#[test]
fn enumeration_reflects_mutation() {
    let mut z = fresh("mutate.zip");
    z.add_buffer(&[1, 2], "a").unwrap();
    z.add_buffer(&[3], "keep").unwrap();
    z.delete_file("a").unwrap();
    let names: Vec<String> = z
        .entries()
        .unwrap()
        .iter()
        .map(|e| e.name())
        .collect();
    assert!(!names.contains(&"a".to_string()));
    assert!(names.contains(&"keep".to_string()));
    assert_eq!(names.len(), 1);
}

#[test]
fn add_overwrites_by_name() {
    let mut z = fresh("overwrite.zip");
    z.add_buffer(&[1, 1, 1], "a").unwrap();
    z.add_buffer(&[9, 9], "a").unwrap();
    assert_eq!(z.entries().unwrap().len(), 1);
    let image = z.close().unwrap().unwrap();
    let z = ZipFile::open("overwrite.zip", false, Some(image)).unwrap();
    let mut entry = z.get_entry("a", true).unwrap().unwrap();
    assert_eq!(entry.read(8).unwrap(), vec![9, 9]);
}

#[test]
fn delete_missing_surfaces_engine_diagnostic() {
    let mut z = fresh("delmiss.zip");
    match z.delete_file("nope").unwrap_err() {
        OperationError::NativeFailure(m) => {
            assert!(!m.is_empty());
            assert_eq!(m, "No such file");
        }
        other => panic!("expected a native failure, got {:?}", other),
    }
    // The diagnostic is recorded on the handle and a later status probe
    // surfaces the same text.
    match z.get_error(-1).unwrap_err() {
        OperationError::NativeFailure(m) => assert_eq!(m, "No such file"),
        other => panic!("expected a native failure, got {:?}", other),
    }
}

#[test]
fn get_error_translates_status_codes() {
    let z = fresh("geterr.zip");
    assert!(z.get_error(0).is_ok());
    match z.get_error(7).unwrap_err() {
        OperationError::NativeFailure(m) => {
            assert!(!m.is_empty());
            assert_eq!(m, "No error");
        }
        other => panic!("expected a native failure, got {:?}", other),
    }
}

#[test]
fn rejected_add_sets_engine_diagnostic() {
    let mut z = fresh("badadd.zip");
    assert_eq!(
        z.add_buffer(&[1], "").unwrap_err(),
        OperationError::AddFailed
    );
    match z.get_error(-1).unwrap_err() {
        OperationError::NativeFailure(m) => assert_eq!(m, "Invalid argument"),
        other => panic!("expected a native failure, got {:?}", other),
    }
    assert_eq!(
        z.add_file("", "name").unwrap_err(),
        OperationError::AddFailed
    );
}

#[test]
fn file_stat_reports_index_and_size() {
    let mut z = fresh("stat.zip");
    z.add_buffer(&[1, 2, 3], "a").unwrap();
    z.add_file("lazy.bin", "b").unwrap();
    let st = z.file_stat("a").unwrap();
    assert_eq!(st.name, "a");
    assert_eq!(st.index, 0);
    assert_eq!(st.size, 3);
    assert_eq!(st.comp_size, 3);
    assert_eq!(st.mtime, 0);
    assert_eq!(st.crc, 0);
    let st = z.file_stat("b").unwrap();
    assert_eq!(st.index, 1);
    // A lazy filesystem source has not been read yet, so no size is known.
    assert_eq!(st.size, 0);
}

#[test]
fn file_stat_missing_name_fails() {
    let mut z = fresh("statmiss.zip");
    match z.file_stat("ghost").unwrap_err() {
        OperationError::NativeFailure(m) => assert_eq!(m, "No such file"),
        other => panic!("expected a native failure, got {:?}", other),
    }
}

#[test]
fn get_entry_absent_is_none_not_error() {
    let z = fresh("absent.zip");
    assert!(z.get_entry("ghost", false).unwrap().is_none());
    assert!(z.get_entry("ghost", true).unwrap().is_none());
}

#[test]
fn pending_member_cannot_be_streamed() {
    let mut z = fresh("pending.zip");
    z.add_buffer(&[5], "a").unwrap();
    // Unopened lookup works on a pending member.
    let entry = z.get_entry("a", false).unwrap().unwrap();
    assert_eq!(entry.name(), "a");
    // Streaming it before finalize surfaces the changed-entry diagnostic.
    match z.get_entry("a", true).unwrap_err() {
        OperationError::NativeFailure(m) => {
            assert!(!m.is_empty());
            assert_eq!(m, "Entry has been changed");
        }
        other => panic!("expected a native failure, got {:?}", other),
    }
}

#[test]
fn add_file_registers_lazy_source() {
    let mut z = fresh("lazy.zip");
    z.add_file("payload.bin", "member").unwrap();
    let names: Vec<String> = z.entries().unwrap().iter().map(|e| e.name()).collect();
    assert_eq!(names, vec!["member".to_string()]);
    let image = z.close().unwrap().unwrap();
    assert_eq!(image.len(), 1);
    assert_eq!(image[0].name, "member");
    assert_eq!(
        image[0].source,
        EntrySource::FilePath("payload.bin".to_string())
    );
}

#[test]
fn pack_file_returns_single_member_image() {
    let image = ZipFile::pack_file(
        "batch.zip".to_string(),
        "input.bin",
        "member.bin".to_string(),
    )
    .unwrap();
    assert_eq!(image.len(), 1);
    assert_eq!(image[0].name, "member.bin");
    assert_eq!(
        image[0].source,
        EntrySource::FilePath("input.bin".to_string())
    );
    assert!(!image[0].committed);
}

#[test]
fn pack_file_failures_are_returned_not_fatal() {
    match ZipFile::pack_file(String::new(), "input.bin", "m".to_string()).unwrap_err() {
        OperationError::NativeFailure(m) => {
            assert_eq!(m, OpenError::InvalidArgument.message());
        }
        other => panic!("expected a native failure, got {:?}", other),
    }
    assert_eq!(
        ZipFile::pack_file("b.zip".to_string(), "", "m".to_string()).unwrap_err(),
        OperationError::AddFailed
    );
    assert_eq!(
        ZipFile::pack_file("b.zip".to_string(), "input.bin", String::new()).unwrap_err(),
        OperationError::AddFailed
    );
}

#[test]
fn default_archive_is_closed() {
    let mut z = ZipFile::default();
    assert_eq!(z.filename().as_str(), "");
    assert_eq!(z.entries().unwrap_err(), OperationError::NotOpen);
    assert!(z.close().unwrap().is_none());
}

#[test]
fn open_error_code_mapping() {
    assert_eq!(OpenError::from_code(4), OpenError::SeekUnsupported);
    assert_eq!(OpenError::from_code(5), OpenError::ReadFailure);
    assert_eq!(OpenError::from_code(9), OpenError::NotFound);
    assert_eq!(OpenError::from_code(10), OpenError::AlreadyExists);
    assert_eq!(OpenError::from_code(11), OpenError::CannotOpen);
    assert_eq!(OpenError::from_code(14), OpenError::OutOfMemory);
    assert_eq!(OpenError::from_code(18), OpenError::InvalidArgument);
    assert_eq!(OpenError::from_code(19), OpenError::NotAZipContainer);
    assert_eq!(OpenError::from_code(21), OpenError::InconsistentContainer);
    assert_eq!(OpenError::from_code(0), OpenError::Unknown);
    assert_eq!(OpenError::from_code(-3), OpenError::Unknown);
    assert_eq!(OpenError::from_code(99), OpenError::Unknown);
}

#[test]
fn error_messages_are_exact_and_nonempty() {
    assert_eq!(
        OpenError::NotFound.message(),
        "The file specified by path does not exist and create is not set"
    );
    assert_eq!(
        OpenError::NotAZipContainer.message(),
        "The file specified by path is not a zip archive"
    );
    assert_eq!(OperationError::NotOpen.message(), "Zip file is not open");
    assert_eq!(
        OperationError::NativeFailure("disk full".to_string()).message(),
        "disk full"
    );
    assert_eq!(
        OperationError::CloseFailed("cannot write".to_string()).message(),
        "cannot write"
    );
    let kinds = [
        OpenError::AlreadyExists,
        OpenError::InconsistentContainer,
        OpenError::InvalidArgument,
        OpenError::OutOfMemory,
        OpenError::NotFound,
        OpenError::NotAZipContainer,
        OpenError::CannotOpen,
        OpenError::ReadFailure,
        OpenError::SeekUnsupported,
        OpenError::Unknown,
    ];
    for k in kinds {
        assert!(!k.message().is_empty());
    }
}

#[test]
fn reopen_keeps_lazy_sources_unstreamable() {
    let mut z = fresh("lazy2.zip");
    z.add_file("payload.bin", "member").unwrap();
    let image = z.close().unwrap().unwrap();
    let z = ZipFile::open("lazy2.zip", false, Some(image)).unwrap();
    // The image was persisted without resolving the path, so the member still
    // has no bytes to stream.
    match z.get_entry("member", true).unwrap_err() {
        OperationError::NativeFailure(m) => assert_eq!(m, "Entry has been changed"),
        other => panic!("expected a native failure, got {:?}", other),
    }
}
