//! The library between the real engine and a host that is kept in memory.
//!
//! The host has the limits of a deployment: 256 KiB for one read, 256 bytes of
//! entropy for one call, 16 MiB of writes for one invocation.

use serde_json::Value;
use std::collections::BTreeMap;
use std::sync::{Arc, Mutex};
use turso_core::{
    Buffer, Clock, Completion, Connection, Database, File, MonotonicInstant, SqliteDialect,
    Statement, StepResult, WallClockInstant, IO,
};
use turso_sql_provider::cell::SqlValue;
use turso_sql_provider::entropy::EntropyFill;
use turso_sql_provider::exec::{Exec, StepEvent};
use turso_sql_provider::file::{DekoponFile, FileSyncType, LockLevel, LockStep};
use turso_sql_provider::io::{DekoponIo, OpenFlags};
use turso_sql_provider::provider::{CommandRun, TursoSqlProvider};
use turso_sql_provider::storage::{
    CompletionError, ErrorKind, FileStat, LimboError, OpenOptions, StorageError,
};
use turso_sql_provider::trace::Trace;

const MAX_READ: u32 = 256 * 1024;
const MAX_ENTROPY: u32 = 256;
const MAX_WRITTEN: usize = 16 * 1024 * 1024;

/// A host whose durable files live in memory.
#[derive(Default)]
struct Host {
    files: Mutex<BTreeMap<String, Vec<u8>>>,
    time: Mutex<u64>,
    seed: Mutex<u64>,
    written: Mutex<usize>,
    trace: Mutex<Trace>,
}

impl Host {
    fn now(&self) -> u64 {
        let mut time = self.time.lock().unwrap();
        *time += 1_000;
        *time
    }

    fn random_bytes(&self, len: u32) -> Result<Vec<u8>, StorageError> {
        if len > MAX_ENTROPY {
            return Err(StorageError::QuotaExceeded);
        }
        let mut seed = self.seed.lock().unwrap();
        Ok((0..len)
            .map(|_| {
                *seed = seed.wrapping_mul(6364136223846793005).wrapping_add(1442695040888963407);
                (*seed >> 56) as u8
            })
            .collect())
    }

    fn open(&self, path: &str, options: OpenOptions) -> Result<(), StorageError> {
        let mut files = self.files.lock().unwrap();
        if !files.contains_key(path) {
            if !options.create {
                return Err(StorageError::NotFound);
            }
            files.insert(path.to_owned(), Vec::new());
        }
        Ok(())
    }

    fn read_at(&self, path: &str, pos: u64, max: u32) -> Result<Vec<u8>, StorageError> {
        if max > MAX_READ {
            return Err(StorageError::QuotaExceeded);
        }
        let files = self.files.lock().unwrap();
        let bytes = files.get(path).ok_or(StorageError::NotFound)?;
        let start = (pos as usize).min(bytes.len());
        let end = (start + max as usize).min(bytes.len());
        Ok(bytes[start..end].to_vec())
    }

    fn write_at(&self, path: &str, pos: u64, data: &[u8]) -> Result<(), StorageError> {
        let mut written = self.written.lock().unwrap();
        if *written + data.len() > MAX_WRITTEN {
            return Err(StorageError::QuotaExceeded);
        }
        *written += data.len();
        let mut files = self.files.lock().unwrap();
        let bytes = files.get_mut(path).ok_or(StorageError::NotFound)?;
        let end = pos as usize + data.len();
        if bytes.len() < end {
            bytes.resize(end, 0);
        }
        bytes[pos as usize..end].copy_from_slice(data);
        Ok(())
    }

    fn len(&self, path: &str) -> Result<u64, StorageError> {
        let files = self.files.lock().unwrap();
        files
            .get(path)
            .map(|bytes| bytes.len() as u64)
            .ok_or(StorageError::NotFound)
    }
}

fn kind(kind: ErrorKind) -> std::io::ErrorKind {
    match kind {
        ErrorKind::NotFound => std::io::ErrorKind::NotFound,
        ErrorKind::AlreadyExists => std::io::ErrorKind::AlreadyExists,
        ErrorKind::InvalidInput => std::io::ErrorKind::InvalidInput,
        ErrorKind::PermissionDenied => std::io::ErrorKind::PermissionDenied,
        ErrorKind::StorageFull => std::io::ErrorKind::StorageFull,
        ErrorKind::WouldBlock => std::io::ErrorKind::WouldBlock,
        ErrorKind::TimedOut => std::io::ErrorKind::TimedOut,
        ErrorKind::Unsupported => std::io::ErrorKind::Unsupported,
        ErrorKind::InvalidData => std::io::ErrorKind::InvalidData,
        ErrorKind::Other => std::io::ErrorKind::Other,
    }
}

fn completion_error(error: CompletionError) -> turso_core::CompletionError {
    let CompletionError::IOError(error, scope) = error;
    turso_core::CompletionError::IOError(kind(error), scope)
}

fn limbo_error(error: LimboError) -> turso_core::LimboError {
    match error {
        LimboError::CompletionError(error) => completion_error(error).into(),
        LimboError::InvalidArgument(message) => turso_core::LimboError::InvalidArgument(message),
    }
}

fn settle(completion: &Completion, result: Result<i32, CompletionError>) {
    match result {
        Ok(done) => completion.complete(done),
        Err(error) => completion.error(completion_error(error)),
    }
}

struct HostIo {
    host: Arc<Host>,
    io: DekoponIo,
}

struct HostFile {
    host: Arc<Host>,
    path: String,
    file: Mutex<DekoponFile>,
}

impl HostIo {
    fn new(host: &Arc<Host>) -> HostIo {
        let io = DekoponIo::new(Ok(host.now()), &mut host.trace.lock().unwrap());
        HostIo { host: Arc::clone(host), io }
    }

    fn fill(&self, dest: &mut [u8]) -> usize {
        let mut fill = EntropyFill::start(dest.len());
        loop {
            let request = fill.request(&mut self.host.trace.lock().unwrap());
            let Some(want) = request else {
                return fill.filled();
            };
            fill = fill.accept(self.host.random_bytes(want), dest);
        }
    }
}

impl Clock for HostIo {
    fn current_time_monotonic(&self) -> MonotonicInstant {
        let now = Ok(self.host.now());
        let mut trace = self.host.trace.lock().unwrap();
        MonotonicInstant::from_nanos(self.io.current_time_monotonic(now, &mut trace))
    }

    fn current_time_wall_clock(&self) -> WallClockInstant {
        let now = Ok(self.host.now());
        let mut trace = self.host.trace.lock().unwrap();
        let instant = self.io.current_time_wall_clock(now, &mut trace);
        WallClockInstant { secs: instant.secs, micros: instant.micros }
    }
}

impl IO for HostIo {
    fn open_file(
        &self,
        path: &str,
        flags: turso_core::OpenFlags,
        _direct: bool,
    ) -> turso_core::Result<Arc<dyn File>> {
        let flags = OpenFlags {
            create: flags.contains(turso_core::OpenFlags::Create),
            read_only: flags.contains(turso_core::OpenFlags::ReadOnly),
            no_lock: flags.contains(turso_core::OpenFlags::NoLock),
        };
        let request = self
            .io
            .open_file(path, flags, &mut self.host.trace.lock().unwrap())
            .map_err(limbo_error)?;
        let reply = self.host.open(path, request.options);
        let file = self.io.opened(request, reply).map_err(limbo_error)?;
        Ok(Arc::new(HostFile {
            host: Arc::clone(&self.host),
            path: path.to_owned(),
            file: Mutex::new(file),
        }))
    }

    fn remove_file(&self, path: &str) -> turso_core::Result<()> {
        let reply = match self.host.files.lock().unwrap().remove(path) {
            Some(_) => Ok(()),
            None => Err(StorageError::NotFound),
        };
        self.io
            .remove_file(reply, &mut self.host.trace.lock().unwrap())
            .map_err(limbo_error)
    }

    fn supports_shared_wal_coordination(&self) -> bool {
        self.io.supports_shared_wal_coordination()
    }

    fn step(&self) -> turso_core::Result<()> {
        self.io.step().map_err(limbo_error)
    }

    fn generate_random_number(&self) -> i64 {
        let mut bytes = [0_u8; 8];
        self.fill(&mut bytes);
        self.io.generate_random_number(bytes)
    }

    fn fill_bytes(&self, dest: &mut [u8]) {
        self.fill(dest);
    }

    fn file_id(&self, path: &str) -> turso_core::Result<turso_core::io::FileId> {
        let reply = match self.host.len(path) {
            Ok(size) => Ok(Some(FileStat { size, identity: path.len() as u64 })),
            Err(_) => Ok(None),
        };
        let id = self.io.file_id(path, reply, &mut self.host.trace.lock().unwrap());
        Ok(turso_core::io::FileId { dev: id.dev, ino: id.ino })
    }
}

impl HostFile {
    fn walk(&self, target: Option<LockLevel>) -> turso_core::Result<()> {
        let Some(target) = target else {
            return Ok(());
        };
        let mut file = self.file.lock().unwrap();
        loop {
            let step = file.promote_to(target);
            if step == LockStep::Done {
                return Ok(());
            }
            file.promoted(step, Ok(()), &mut self.host.trace.lock().unwrap())
                .map_err(limbo_error)?;
        }
    }
}

impl File for HostFile {
    fn lock_file(&self, exclusive: bool) -> turso_core::Result<()> {
        let target = self.file.lock().unwrap().lock_file(exclusive);
        self.walk(target)
    }

    fn unlock_file(&self) -> turso_core::Result<()> {
        let target = self.file.lock().unwrap().unlock_file();
        self.walk(target)
    }

    fn pread(&self, pos: u64, completion: Completion) -> turso_core::Result<Completion> {
        let file = self.file.lock().unwrap();
        let buffer = completion.as_read().buf().as_mut_slice();
        let reply = match file.read_size(buffer.len()) {
            None => Ok(Vec::new()),
            Some(size) => self.host.read_at(&self.path, pos, size),
        };
        let result = file.pread(reply, buffer, &mut self.host.trace.lock().unwrap());
        settle(&completion, result);
        Ok(completion)
    }

    fn pwrite(
        &self,
        pos: u64,
        buffer: Arc<Buffer>,
        completion: Completion,
    ) -> turso_core::Result<Completion> {
        let reply = self.host.write_at(&self.path, pos, buffer.as_slice());
        let result = self.file.lock().unwrap().pwrite(
            buffer.len(),
            reply,
            &mut self.host.trace.lock().unwrap(),
        );
        settle(&completion, result);
        Ok(completion)
    }

    fn sync(
        &self,
        completion: Completion,
        sync_type: turso_core::io::FileSyncType,
    ) -> turso_core::Result<Completion> {
        let file = self.file.lock().unwrap();
        file.sync_mode(match sync_type {
            turso_core::io::FileSyncType::Fsync => FileSyncType::Fsync,
            turso_core::io::FileSyncType::FullFsync => FileSyncType::FullFsync,
        });
        let result = file.sync(Ok(()), &mut self.host.trace.lock().unwrap());
        settle(&completion, result);
        Ok(completion)
    }

    fn truncate(&self, len: u64, completion: Completion) -> turso_core::Result<Completion> {
        if let Some(bytes) = self.host.files.lock().unwrap().get_mut(&self.path) {
            bytes.resize(len as usize, 0);
        }
        let result = self
            .file
            .lock()
            .unwrap()
            .truncate(Ok(()), &mut self.host.trace.lock().unwrap());
        settle(&completion, result);
        Ok(completion)
    }

    fn size(&self) -> turso_core::Result<u64> {
        let reply = self.host.len(&self.path);
        self.file
            .lock()
            .unwrap()
            .size(reply, &mut self.host.trace.lock().unwrap())
            .map_err(limbo_error)
    }
}

fn cell(value: &turso_core::Value) -> SqlValue {
    match value {
        turso_core::Value::Null => SqlValue::Null,
        turso_core::Value::Numeric(turso_core::Numeric::Integer(integer)) => {
            SqlValue::Integer(*integer)
        }
        turso_core::Value::Numeric(turso_core::Numeric::Float(float)) => {
            SqlValue::Float(Value::from(f64::from(*float)))
        }
        turso_core::Value::Text(text) => SqlValue::Text(text.as_str().to_owned()),
        turso_core::Value::Blob(blob) => SqlValue::Blob(blob.as_slice().to_vec()),
    }
}

fn step(statement: &mut Statement) -> StepEvent {
    match statement.step() {
        Ok(StepResult::Row) => {
            StepEvent::Row(statement.row().map(|row| row.get_values().map(cell).collect()))
        }
        Ok(StepResult::IO) => StepEvent::Io,
        Ok(StepResult::Done) => StepEvent::Done,
        Ok(StepResult::Interrupt) => StepEvent::Interrupt,
        Ok(StepResult::Busy) => StepEvent::Busy,
        Ok(_) => StepEvent::Other,
        Err(error) => StepEvent::Failed(error.to_string()),
    }
}

/// Runs one invocation on the host: its answer, or its failure's code and message.
fn invoke(host: &Arc<Host>, statements: &[&str]) -> Result<Value, (String, String)> {
    let mut map = serde_json::Map::new();
    map.insert(
        "statements".to_owned(),
        Value::Array(statements.iter().map(|sql| Value::from(*sql)).collect()),
    );
    invoke_with(host, "turso.exec", Value::Object(map))
}

fn invoke_with(
    host: &Arc<Host>,
    capability: &str,
    input: Value,
) -> Result<Value, (String, String)> {
    *host.written.lock().unwrap() = 0;
    let mut next = TursoSqlProvider::invoke(capability, input, &mut host.trace.lock().unwrap());
    let engine: Arc<dyn IO> = Arc::new(HostIo::new(host));
    let mut database: Option<Arc<Database>> = None;
    let mut connection: Option<Arc<Connection>> = None;
    let mut statement: Option<Statement> = None;
    loop {
        next = match next {
            Exec::Open(state) => {
                let opened = Database::open_file(
                    Arc::clone(&engine),
                    state.database(),
                    Arc::new(SqliteDialect),
                );
                let reply = opened.map(|opened| database = Some(opened));
                state.opened(reply.map_err(|error| error.to_string()))
            }
            Exec::Connect(state) => {
                let connected = database.as_ref().expect("opened").connect();
                let reply = connected.map(|connected| connection = Some(connected));
                state.connected(reply.map_err(|error| error.to_string()))
            }
            Exec::Prepare(state) => {
                let prepared = connection.as_ref().expect("connected").prepare(state.sql());
                let reply = prepared.map(|prepared| statement = Some(prepared));
                state.prepared(reply.map_err(|error| error.to_string()))
            }
            Exec::Step(state) => {
                let event = step(statement.as_mut().expect("prepared"));
                if !matches!(event, StepEvent::Row(Some(_)) | StepEvent::Io | StepEvent::Other) {
                    statement = None;
                }
                state.stepped(event, &host.trace.lock().unwrap())
            }
            Exec::PumpIo(state) => state.pumped(engine.step().map_err(|error| error.to_string())),
            Exec::Finished(result) => {
                return result
                    .map_err(|error| (error.code().to_owned(), error.message().to_owned()))
            }
        }
    }
}

fn rows(output: &Value, index: usize) -> &Vec<Value> {
    output["results"][index]["rows"]
        .as_array()
        .unwrap_or_else(|| panic!("statement {index} has no rows array in {output}"))
}

fn row(cells: Vec<Value>) -> Value {
    Value::Array(cells)
}

fn host_calls(output: &Value) -> u64 {
    output["storage"]["hostCalls"]
        .as_object()
        .expect("hostCalls object")
        .values()
        .map(|value| value.as_u64().unwrap_or_default())
        .sum()
}

#[test]
fn creates_a_table_writes_a_row_and_reads_it_back() {
    let host = Arc::new(Host::default());
    let output = invoke(
        &host,
        &[
            "CREATE TABLE note(id INTEGER PRIMARY KEY, body TEXT)",
            "INSERT INTO note(body) VALUES('first')",
            "SELECT id, body FROM note",
        ],
    )
    .expect("the statement batch runs");
    assert_eq!(rows(&output, 2).len(), 1, "{output}");
    assert_eq!(rows(&output, 2)[0], row(vec![Value::from(1), Value::from("first")]));
    assert_eq!(output["results"][2]["sql"], Value::from("SELECT id, body FROM note"));
    assert_eq!(output["results"].as_array().expect("results").len(), 3);
}

#[test]
fn separate_invocations_share_one_database() {
    let host = Arc::new(Host::default());
    invoke(&host, &["CREATE TABLE note(id INTEGER PRIMARY KEY, body TEXT)"])
        .expect("schema commits");
    invoke(&host, &["INSERT INTO note(body) VALUES('first')"]).expect("first row commits");
    invoke(&host, &["INSERT INTO note(body) VALUES('second')"]).expect("second row commits");
    let output = invoke(&host, &["SELECT body FROM note ORDER BY id"])
        .expect("a fourth invocation reads the first three");
    assert_eq!(rows(&output, 0).len(), 2, "{output}");
    assert_eq!(rows(&output, 0)[0], row(vec![Value::from("first")]));
    assert_eq!(rows(&output, 0)[1], row(vec![Value::from("second")]));
}

#[test]
fn deleting_every_row_leaves_an_empty_table_for_the_next_invocation() {
    let host = Arc::new(Host::default());
    invoke(
        &host,
        &[
            "CREATE TABLE note(id INTEGER PRIMARY KEY, body TEXT)",
            "INSERT INTO note(body) VALUES('first')",
            "INSERT INTO note(body) VALUES('second')",
        ],
    )
    .expect("two rows commit");
    let counted = invoke(&host, &["SELECT count(*) FROM note"]).expect("count before delete");
    assert_eq!(rows(&counted, 0)[0], row(vec![Value::from(2)]), "{counted}");
    invoke(&host, &["DELETE FROM note"]).expect("delete commits");
    let emptied = invoke(&host, &["SELECT count(*) FROM note"])
        .expect("count after delete, in a later invocation");
    assert_eq!(rows(&emptied, 0)[0], row(vec![Value::from(0)]), "{emptied}");
}

#[test]
fn the_write_ahead_log_is_truncated_before_each_invocation_ends() {
    let host = Arc::new(Host::default());
    invoke(&host, &["CREATE TABLE note(id INTEGER PRIMARY KEY, body TEXT)"])
        .expect("schema commits");
    for index in 0..20 {
        invoke(&host, &[&format!("INSERT INTO note(body) VALUES('row-{index}')")])
            .unwrap_or_else(|error| panic!("write {index} must not brick the namespace: {error:?}"));
        assert_eq!(host.len("main.db-wal"), Ok(0), "after write {index}");
    }
    let output = invoke(&host, &["SELECT count(*) FROM note"])
        .expect("a plain read still works after twenty write invocations");
    assert_eq!(rows(&output, 0)[0], row(vec![Value::from(20)]), "{output}");
    let bytes: usize = host.files.lock().unwrap().values().map(Vec::len).sum();
    assert!(
        bytes < 20 * 64 * 1024,
        "durable bytes grew to {bytes}, which is WAL accumulation"
    );
}

#[test]
fn vacuum_is_refused_with_the_provider_s_own_code() {
    let host = Arc::new(Host::default());
    for sql in ["VACUUM", "VACUUM INTO 'copy.db'"] {
        let error = invoke(&host, &[sql]).unwrap_err();
        assert_eq!(error.0, "refused", "{sql}: {error:?}");
    }
    assert!(host.files.lock().unwrap().is_empty());
}

#[test]
fn malformed_sql_surfaces_the_engine_s_own_message() {
    let host = Arc::new(Host::default());
    let (code, message) =
        invoke(&host, &["SELECT FROM WHERE"]).expect_err("a parse error is a failure");
    assert_eq!(code, "prepare", "{message}");
    assert!(!message.is_empty(), "{message}");
}

#[test]
fn the_lock_ladder_is_never_walked() {
    let host = Arc::new(Host::default());
    let output = invoke(
        &host,
        &[
            "CREATE TABLE note(id INTEGER PRIMARY KEY, body TEXT)",
            "INSERT INTO note(body) VALUES('first')",
            "SELECT * FROM note",
        ],
    )
    .expect("a read-write batch runs");
    let calls = &output["storage"]["hostCalls"];
    assert_eq!(calls["lock"], Value::from(0), "{output}");
    assert_eq!(calls["unlock"], Value::from(0), "{output}");
    assert_ne!(calls["open"], Value::from(0), "{output}");
    assert_ne!(calls["readAt"], Value::from(0), "{output}");
    assert_ne!(calls["writeAt"], Value::from(0), "{output}");
}

#[test]
fn the_engine_opens_the_database_and_its_log() {
    let host = Arc::new(Host::default());
    let output = invoke(&host, &["CREATE TABLE t(a)"]).expect("schema commits");
    for opened in output["storage"]["opened"].as_array().expect("opened") {
        let opened = opened.as_str().expect("a path");
        assert!(opened == "main.db" || opened == "main.db-wal", "{opened}");
    }
    assert_eq!(
        output["storage"]["hostCalls"]["open"],
        Value::from(output["storage"]["opened"].as_array().expect("opened").len())
    );
    let names: Vec<String> = host.files.lock().unwrap().keys().cloned().collect();
    assert_eq!(names, vec!["main.db".to_owned(), "main.db-wal".to_owned()]);
}

#[test]
fn host_calls_stay_near_two_per_inserted_row() {
    let host = Arc::new(Host::default());
    invoke(&host, &["CREATE TABLE note(id INTEGER PRIMARY KEY, body TEXT)"])
        .expect("schema commits");
    let insert_rows = |count: usize| {
        let statements: Vec<String> = (0..count)
            .map(|index| format!("INSERT INTO note(body) VALUES('row-{index}')"))
            .collect();
        let borrowed: Vec<&str> = statements.iter().map(String::as_str).collect();
        invoke(&host, &borrowed).unwrap_or_else(|error| panic!("{count} inserts: {error:?}"))
    };
    let one = host_calls(&insert_rows(1));
    let many = host_calls(&insert_rows(200));
    let per_row = (many.saturating_sub(one)) as f64 / 199.0;
    println!("host calls: floor+1 row = {one}, 200 rows = {many}, marginal = {per_row:.2}/row");
    assert!(one < 64, "the fixed floor grew to {one} host calls");
    assert!(
        per_row < 4.0,
        "{per_row:.2} host calls per row; a flush per row would look like this"
    );
    assert!(
        many < 4096,
        "{many} host calls is within reach of the host's 4096 per-invocation ceiling"
    );
}

#[test]
fn one_explicit_transaction_fits_a_bulk_load_that_implicit_commits_cannot() {
    let host = Arc::new(Host::default());
    let mut statements = vec![
        "CREATE TABLE note(id INTEGER PRIMARY KEY, body TEXT)".to_owned(),
        "BEGIN".to_owned(),
    ];
    statements
        .extend((0..1000).map(|index| format!("INSERT INTO note(body) VALUES('row-{index}')")));
    statements.push("COMMIT".to_owned());
    let borrowed: Vec<&str> = statements.iter().map(String::as_str).collect();
    invoke(&host, &borrowed).expect("a thousand rows in one transaction fit the write budget");
    let output = invoke(&host, &["SELECT count(*) FROM note"]).expect("the bulk load committed");
    assert_eq!(rows(&output, 0)[0], row(vec![Value::from(1000)]), "{output}");
}

#[test]
fn a_batch_that_dies_before_its_checkpoint_leaves_the_log() {
    let host = Arc::new(Host::default());
    invoke(
        &host,
        &[
            "CREATE TABLE note(id INTEGER PRIMARY KEY, body TEXT)",
            "INSERT INTO note(body) VALUES('survivor')",
        ],
    )
    .expect("schema and one row commit");
    let statements: Vec<String> = (0..1000)
        .map(|index| format!("INSERT INTO note(body) VALUES('row-{index}')"))
        .collect();
    let borrowed: Vec<&str> = statements.iter().map(String::as_str).collect();
    let error = invoke(&host, &borrowed)
        .expect_err("a thousand inserts exceed the invocation write budget");
    assert_ne!(error.0, "checkpoint", "{error:?}");
    let bytes: usize = host.files.lock().unwrap().values().map(Vec::len).sum();
    assert!(bytes > 8 * 1024 * 1024, "only {bytes} durable bytes remain");
    assert!(host.len("main.db-wal").unwrap() > u64::from(MAX_READ));
    invoke(&host, &["SELECT body FROM note"])
        .expect_err("an un-checkpointed log this size cannot be read back");
}

#[test]
fn every_kind_of_cell_comes_back() {
    let host = Arc::new(Host::default());
    let output = invoke(&host, &["SELECT NULL, -7, 1.5, 'text', x'010203'"]).expect("it runs");
    let mut blob = serde_json::Map::new();
    blob.insert("blob".to_owned(), Value::from(3));
    assert_eq!(
        rows(&output, 0)[0],
        row(vec![
            Value::Null,
            Value::from(-7),
            Value::from(1.5),
            Value::from("text"),
            Value::Object(blob),
        ])
    );
}

#[test]
fn the_pragmas_precede_the_schema() {
    let host = Arc::new(Host::default());
    let output = invoke(
        &host,
        &["CREATE TABLE t(a)", "PRAGMA page_size", "PRAGMA cache_size"],
    )
    .expect("it runs");
    assert_eq!(rows(&output, 1)[0], row(vec![Value::from(65536)]), "{output}");
    assert_eq!(rows(&output, 2)[0], row(vec![Value::from(256)]), "{output}");
}

#[test]
fn the_command_word_renders_help_proposes_and_reads_a_pipe() {
    let help = TursoSqlProvider::run_command(&["--help".to_owned()], None);
    let CommandRun::Rendered { stdout, stderr, status } = help else {
        panic!("--help renders rather than proposing: {help:?}");
    };
    assert_eq!(status, 0, "{stdout}");
    assert!(stderr.is_empty(), "{stderr}");
    assert!(stdout.starts_with("Usage: turso"), "{stdout}");

    let empty = TursoSqlProvider::run_command(&[], None);
    let CommandRun::Rendered { stdout, stderr, status } = empty else {
        panic!("empty argv is a usage error: {empty:?}");
    };
    assert_eq!(status, 2);
    assert!(stdout.is_empty(), "{stdout}");
    assert_eq!(stderr, "expected at least one statement");

    let piped = TursoSqlProvider::run_command(&["-".to_owned()], Some("SELECT 1"));
    let CommandRun::Proposal(invocation) = piped else {
        panic!("a piped statement becomes a proposal: {piped:?}");
    };
    assert_eq!(invocation.capability.as_str(), "turso.exec");
    let mut input = serde_json::Map::new();
    input.insert("statements".to_owned(), row(vec![Value::from("SELECT 1")]));
    assert_eq!(invocation.input, Value::Object(input));

    let host = Arc::new(Host::default());
    let output = invoke_with(&host, &invocation.capability, invocation.input)
        .expect("the word's own proposal invokes");
    assert_eq!(rows(&output, 0)[0], row(vec![Value::from(1)]), "{output}");
}
