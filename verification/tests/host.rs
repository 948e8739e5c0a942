//! The pieces between the engine and the host, one by one.

use turso_sql_provider::entropy::{random_number, EntropyFill, MAX_ENTROPY_PER_CALL};
use turso_sql_provider::file::{DekoponFile, FileSyncType, LockLevel, LockStep};
use turso_sql_provider::io::{
    identify, monotonic_time_ns, wall_time_ms, DekoponIo, FileId, OpenFlags, WallClockInstant,
};
use turso_sql_provider::storage::{
    completion_error, map_err, CompletionError, Durability, ErrorKind, FileStat, LimboError,
    OpenOptions, StorageError,
};
use turso_sql_provider::trace::{bump, trace_reset, trace_snapshot, HostCall, Trace};

fn io() -> DekoponIo {
    DekoponIo::new(Ok(1_000), &mut Trace::default())
}

fn flags(create: bool, read_only: bool, no_lock: bool) -> OpenFlags {
    OpenFlags { create, read_only, no_lock }
}

#[test]
fn every_refusal_of_the_host_has_its_kind() {
    let table = [
        (StorageError::NotFound, ErrorKind::NotFound),
        (StorageError::AlreadyExists, ErrorKind::AlreadyExists),
        (StorageError::InvalidName, ErrorKind::InvalidInput),
        (StorageError::InvalidArgument, ErrorKind::InvalidInput),
        (StorageError::PermissionDenied, ErrorKind::PermissionDenied),
        (StorageError::QuotaExceeded, ErrorKind::StorageFull),
        (StorageError::Busy, ErrorKind::WouldBlock),
        (StorageError::Timeout, ErrorKind::TimedOut),
        (StorageError::Unsupported, ErrorKind::Unsupported),
        (StorageError::Corrupt, ErrorKind::InvalidData),
        (StorageError::Io, ErrorKind::Other),
    ];
    for (error, kind) in table {
        assert_eq!(
            completion_error(error, "here"),
            CompletionError::IOError(kind, "here")
        );
        assert_eq!(
            map_err(error),
            LimboError::CompletionError(CompletionError::IOError(kind, "durable-files"))
        );
    }
}

#[test]
fn a_trace_counts_and_is_forgotten() {
    let mut trace = Trace::default();
    for call in [
        HostCall::Sync,
        HostCall::Truncate,
        HostCall::Size,
        HostCall::Lock,
        HostCall::Unlock,
        HostCall::Remove,
        HostCall::Stat,
        HostCall::Random,
        HostCall::Monotonic,
        HostCall::Wall,
        HostCall::Wall,
    ] {
        bump(&mut trace, call);
    }
    let copy = trace_snapshot(&trace);
    trace_reset(&mut trace);
    let counts = |trace: &Trace| {
        [
            trace.sync,
            trace.truncate,
            trace.size,
            trace.lock,
            trace.unlock,
            trace.remove,
            trace.stat,
            trace.random,
            trace.monotonic,
            trace.wall,
        ]
    };
    assert_eq!(counts(&copy), [1, 1, 1, 1, 1, 1, 1, 1, 1, 2]);
    assert_eq!(counts(&trace), [0; 10]);
    assert_eq!(trace.open_calls, 0);
}

#[test]
fn a_promotion_takes_every_rung() {
    let mut trace = Trace::default();
    let mut file = DekoponFile::new(false);
    let target = file.lock_file(true).expect("the file takes locks");
    let mut taken = Vec::new();
    loop {
        let step = file.promote_to(target);
        if step == LockStep::Done {
            break;
        }
        taken.push(step);
        file.promoted(step, Ok(()), &mut trace).expect("the host agrees");
    }
    assert_eq!(
        taken,
        vec![
            LockStep::Lock(LockLevel::Shared),
            LockStep::Lock(LockLevel::Reserved),
            LockStep::Lock(LockLevel::Pending),
            LockStep::Lock(LockLevel::Exclusive),
        ]
    );
    assert_eq!(file.level(), LockLevel::Exclusive);
    assert_eq!((trace.lock, trace.unlock), (4, 0));

    let step = file.promote_to(LockLevel::Shared);
    assert_eq!(step, LockStep::Unlock(LockLevel::Shared));
    file.promoted(step, Ok(()), &mut trace).expect("the host agrees");
    assert_eq!(file.level(), LockLevel::Shared);
    let down = file.unlock_file().expect("there is a lock to give up");
    let step = file.promote_to(down);
    file.promoted(step, Ok(()), &mut trace).expect("the host agrees");
    assert_eq!(file.level(), LockLevel::Unlocked);
    assert_eq!(file.unlock_file(), None);
    assert_eq!((trace.lock, trace.unlock), (4, 2));
}

#[test]
fn a_refused_promotion_leaves_the_last_rung() {
    let mut trace = Trace::default();
    let mut file = DekoponFile::new(false);
    let step = file.promote_to(LockLevel::Exclusive);
    file.promoted(step, Ok(()), &mut trace).expect("the first rung is given");
    let step = file.promote_to(LockLevel::Exclusive);
    let error = file.promoted(step, Err(StorageError::Busy), &mut trace).unwrap_err();
    assert_eq!(
        error,
        LimboError::CompletionError(CompletionError::IOError(ErrorKind::WouldBlock, "durable-files"))
    );
    assert_eq!(file.level(), LockLevel::Shared);
    assert_eq!(trace.lock, 2);
}

#[test]
fn a_file_without_locks_asks_for_none() {
    let file = DekoponFile::new(true);
    assert_eq!(file.lock_file(true), None);
    assert_eq!(file.lock_file(false), None);
    assert_eq!(file.unlock_file(), None);
    assert_eq!(DekoponFile::new(false).lock_file(false), Some(LockLevel::Shared));
}

#[test]
fn a_short_read_is_filled_with_zeros() {
    let mut trace = Trace::default();
    let file = DekoponFile::new(false);
    let mut buffer = [9_u8; 5];
    assert_eq!(file.read_size(5), Some(5));
    assert_eq!(file.pread(Ok(vec![1, 2]), &mut buffer, &mut trace), Ok(2));
    assert_eq!(buffer, [1, 2, 0, 0, 0]);
    assert_eq!(
        (trace.read_at, trace.read_bytes, trace.short_reads, trace.zero_filled_bytes),
        (1, 2, 1, 3)
    );
    assert_eq!(file.pread(Ok(vec![7; 8]), &mut buffer, &mut trace), Ok(5));
    assert_eq!(buffer, [7; 5]);
    assert_eq!(
        (trace.read_at, trace.read_bytes, trace.short_reads, trace.zero_filled_bytes),
        (2, 7, 1, 3)
    );
    assert_eq!(file.pread(Ok(Vec::new()), &mut buffer, &mut trace), Ok(0));
    assert_eq!(buffer, [0; 5]);
}

#[test]
fn a_refused_read_leaves_the_buffer() {
    let mut trace = Trace::default();
    let file = DekoponFile::new(false);
    let mut buffer = [9_u8; 3];
    assert_eq!(
        file.pread(Err(StorageError::Corrupt), &mut buffer, &mut trace),
        Err(CompletionError::IOError(ErrorKind::InvalidData, "durable-files read-at"))
    );
    assert_eq!(buffer, [9; 3]);
    assert_eq!((trace.read_at, trace.read_bytes, trace.short_reads), (1, 0, 0));
}

#[test]
fn an_empty_buffer_is_read_without_the_host() {
    let file = DekoponFile::new(false);
    assert_eq!(file.read_size(0), None);
    for reply in [Ok(Vec::new()), Ok(vec![1, 2]), Err(StorageError::Io)] {
        let mut trace = Trace::default();
        assert_eq!(file.pread(reply, &mut [], &mut trace), Ok(0));
        assert_eq!(
            (trace.read_at, trace.read_bytes, trace.short_reads, trace.zero_filled_bytes),
            (0, 0, 0, 0)
        );
    }
}

#[test]
fn writes_syncs_truncations_and_sizes_are_counted() {
    let mut trace = Trace::default();
    let file = DekoponFile::new(false);
    assert_eq!(file.pwrite(4096, Ok(()), &mut trace), Ok(4096));
    assert_eq!(
        file.pwrite(10, Err(StorageError::QuotaExceeded), &mut trace),
        Err(CompletionError::IOError(ErrorKind::StorageFull, "durable-files write-at"))
    );
    assert_eq!((trace.write_at, trace.write_bytes), (2, 4106));
    assert_eq!(file.sync_mode(FileSyncType::Fsync), Durability::DataAndMetadata);
    assert_eq!(file.sync_mode(FileSyncType::FullFsync), Durability::Full);
    assert_eq!(file.sync(Ok(()), &mut trace), Ok(0));
    assert_eq!(
        file.sync(Err(StorageError::Io), &mut trace),
        Err(CompletionError::IOError(ErrorKind::Other, "durable-files sync"))
    );
    assert_eq!(file.truncate(Ok(()), &mut trace), Ok(0));
    assert_eq!(
        file.truncate(Err(StorageError::Timeout), &mut trace),
        Err(CompletionError::IOError(ErrorKind::TimedOut, "durable-files truncate"))
    );
    assert_eq!(file.size(Ok(12), &mut trace), Ok(12));
    assert_eq!(
        file.size(Err(StorageError::NotFound), &mut trace),
        Err(map_err(StorageError::NotFound))
    );
    assert_eq!((trace.sync, trace.truncate, trace.size), (2, 2, 2));
}

#[test]
fn entropy_is_chunked() {
    let mut trace = Trace::default();
    let mut buffer = vec![0_u8; 600];
    let mut fill = EntropyFill::start(buffer.len());
    let mut asked = Vec::new();
    let mut next = 0_u8;
    while let Some(want) = fill.request(&mut trace) {
        asked.push(want);
        next += 1;
        fill = fill.accept(Ok(vec![next; want as usize]), &mut buffer);
    }
    assert_eq!(asked, vec![256, 256, 88]);
    assert!(asked.iter().all(|want| *want as usize <= MAX_ENTROPY_PER_CALL));
    assert!(fill.complete());
    assert_eq!(fill.filled(), 600);
    assert_eq!(trace.random, 3);
    assert_eq!(buffer[..256], [1; 256]);
    assert_eq!(buffer[256..512], [2; 256]);
    assert_eq!(buffer[512..], [3; 88]);
}

#[test]
fn entropy_that_runs_out_leaves_the_rest() {
    let mut trace = Trace::default();
    let mut buffer = vec![9_u8; 10];
    let mut fill = EntropyFill::start(buffer.len());
    assert_eq!(fill.request(&mut trace), Some(10));
    fill = fill.accept(Ok(vec![1, 2, 3]), &mut buffer);
    assert_eq!(fill.request(&mut trace), Some(7));
    fill = fill.accept(Err(StorageError::QuotaExceeded), &mut buffer);
    assert_eq!(fill.request(&mut trace), None);
    assert!(!fill.complete());
    assert_eq!(fill.filled(), 3);
    assert_eq!(buffer, [1, 2, 3, 9, 9, 9, 9, 9, 9, 9]);
    assert_eq!(trace.random, 2);

    let fill = EntropyFill::start(2).accept(Ok(Vec::new()), &mut [0, 0]);
    assert_eq!(fill.request(&mut trace), None);
    let mut one = [0_u8; 1];
    let fill = EntropyFill::start(1).accept(Ok(vec![5, 6]), &mut one);
    assert!(fill.complete());
    assert_eq!(one, [5]);
    assert!(EntropyFill::start(0).complete());
}

#[test]
fn a_random_number_is_its_bytes() {
    for bytes in [
        [0_u8; 8],
        [255; 8],
        [1, 2, 3, 4, 5, 6, 7, 8],
        [0, 0, 0, 0, 0, 0, 0, 128],
        [255, 255, 255, 255, 255, 255, 255, 127],
    ] {
        assert_eq!(random_number(bytes), i64::from_le_bytes(bytes));
        assert_eq!(io().generate_random_number(bytes), i64::from_le_bytes(bytes));
    }
}

#[test]
fn time_is_counted_from_the_start() {
    let mut trace = Trace::default();
    let io = DekoponIo::new(Ok(5_000), &mut trace);
    assert_eq!(io.current_time_monotonic(Ok(7_500), &mut trace), 2_500);
    assert_eq!(io.current_time_monotonic(Ok(4_000), &mut trace), 0);
    assert_eq!(io.current_time_monotonic(Err(StorageError::Io), &mut trace), 0);
    assert_eq!(trace.monotonic, 4);
    let io = DekoponIo::new(Err(StorageError::Io), &mut trace);
    assert_eq!(io.current_time_monotonic(Ok(7_500), &mut trace), 7_500);
    assert_eq!(
        io.current_time_wall_clock(Ok(1_700_000_000_123), &mut trace),
        WallClockInstant { secs: 1_700_000_000, micros: 123_000 }
    );
    assert_eq!(
        io.current_time_wall_clock(Err(StorageError::Io), &mut trace),
        WallClockInstant { secs: 0, micros: 0 }
    );
    assert_eq!(trace.wall, 2);
    assert_eq!(monotonic_time_ns(Ok(3), &mut trace), 3);
    assert_eq!(monotonic_time_ns(Err(StorageError::Busy), &mut trace), 0);
    assert_eq!(wall_time_ms(Ok(4), &mut trace), 4);
    assert_eq!(wall_time_ms(Err(StorageError::Busy), &mut trace), 0);
    assert_eq!((trace.monotonic, trace.wall), (8, 4));
}

#[test]
fn shared_memory_sidecars_are_refused() {
    let mut trace = Trace::default();
    for path in ["main.db-shm", "main.db-tshm", "-shm"] {
        let error = io().open_file(path, flags(true, false, false), &mut trace).unwrap_err();
        assert_eq!(
            error,
            LimboError::InvalidArgument(format!(
                "shared-memory WAL is not available on this target: {path}"
            ))
        );
    }
    assert_eq!(trace.open_calls, 0);
    for path in ["main.db", "main.db-wal", "shm", "main.db-shm2", ""] {
        assert!(io().open_file(path, flags(true, false, false), &mut trace).is_ok(), "{path}");
    }
    assert_eq!(trace.opens, vec!["main.db", "main.db-wal", "shm", "main.db-shm2", ""]);
    assert_eq!(trace.open_calls, 5);
    assert!(!io().supports_shared_wal_coordination());
    assert_eq!(io().step(), Ok(()));
}

#[test]
fn a_file_is_opened_as_its_flags_say() {
    let mut trace = Trace::default();
    let options = |write: bool, create: bool| OpenOptions {
        read: true,
        write,
        create,
        create_new: false,
        delete_on_close: false,
    };
    let cases = [
        (flags(true, false, false), options(true, true), false),
        (flags(false, false, false), options(true, false), false),
        (flags(true, false, true), options(true, true), true),
        (flags(true, true, false), options(false, false), true),
        (flags(false, true, true), options(false, false), true),
    ];
    for (flags, options, no_lock) in cases {
        let request = io().open_file("main.db", flags, &mut trace).expect("a plain file");
        assert_eq!(request.options, options, "{flags:?}");
        assert_eq!(request.no_lock, no_lock, "{flags:?}");
        let file = io().opened(request, Ok(())).expect("the host agrees");
        assert_eq!(file.level(), LockLevel::Unlocked);
        assert_eq!(file.lock_file(true).is_none(), no_lock);
        let error = io().opened(request, Err(StorageError::NotFound)).unwrap_err();
        assert_eq!(error, map_err(StorageError::NotFound));
    }
}

#[test]
fn a_removal_is_durable_and_counted() {
    let mut trace = Trace::default();
    assert_eq!(io().remove_mode(), Durability::DataAndMetadata);
    assert_eq!(io().remove_file(Ok(()), &mut trace), Ok(()));
    assert_eq!(
        io().remove_file(Err(StorageError::PermissionDenied), &mut trace),
        Err(map_err(StorageError::PermissionDenied))
    );
    assert_eq!(trace.remove, 2);
}

#[test]
fn a_file_is_told_apart_by_the_host_or_by_its_path() {
    let mut trace = Trace::default();
    let stat = FileStat { size: 1, identity: 42 };
    assert_eq!(
        io().file_id("main.db", Ok(Some(stat)), &mut trace),
        FileId { dev: 0, ino: 42 }
    );
    let hashed = turso_core::io::FileId::from_path_hash("main.db");
    for reply in [Ok(None), Err(StorageError::NotFound)] {
        let id = io().file_id("main.db", reply, &mut trace);
        assert_eq!((id.dev, id.ino), (hashed.dev, hashed.ino));
    }
    assert_ne!(
        io().file_id("main.db", Ok(None), &mut trace),
        io().file_id("main.db-wal", Ok(None), &mut trace)
    );
    assert_eq!(trace.stat, 5);
    let hashed = FileId { dev: 0, ino: 7 };
    assert_eq!(identify(Ok(Some(stat)), hashed), FileId { dev: 0, ino: 42 });
    assert_eq!(identify(Ok(None), hashed), hashed);
}
