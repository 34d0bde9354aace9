//! Opening, writing and reading, with an ordered map in memory in the
//! engine's place.

use leveldb_wrapper::handle::{GetReply, OpenReply, PutReply};
use leveldb_wrapper::{
    LevelDBError, LevelDBHandle, LevelDBOptions, LevelDBReadOptions, LevelDBValue,
    LevelDBWriteOptions,
};
use std::collections::BTreeMap;

struct Engine {
    store: BTreeMap<Vec<u8>, Vec<u8>>,
    opened: Vec<Vec<u8>>,
}

impl Engine {
    fn new() -> Self {
        Engine { store: BTreeMap::new(), opened: Vec::new() }
    }
}

fn open(engine: &mut Engine, name: &[u8]) -> Result<LevelDBHandle, LevelDBError> {
    let call = LevelDBHandle::open(name)?;
    assert!(call.options().create_if_missing);
    engine.opened.push(call.path().to_vec());
    call.complete(OpenReply { db: 0x1000, err: None })
}

fn put(handle: &LevelDBHandle, engine: &mut Engine, key: &[u8], data: &[u8]) -> Result<(), LevelDBError> {
    let call = handle.put(key, data);
    assert_eq!(call.handle.as_native(), handle.as_native());
    engine.store.insert(call.key.to_vec(), call.value.to_vec());
    call.complete(PutReply { err: None })
}

fn get(handle: &LevelDBHandle, engine: &Engine, key: &[u8]) -> Result<Option<LevelDBValue>, LevelDBError> {
    let call = handle.get(key);
    let value = engine.store.get(call.key).cloned();
    call.complete(GetReply { value, err: None })
}

#[test]
fn db_handle_basic_open() -> Result<(), LevelDBError> {
    let mut engine = Engine::new();
    open(&mut engine, "/tmp".as_bytes())?;
    Ok(())
}

#[test]
fn handle_basic_open() -> Result<(), LevelDBError> {
    let mut engine = Engine::new();
    open(&mut engine, "/tmp/basic_open".as_bytes())?;
    Ok(())
}

#[test]
fn basic_put_get() -> Result<(), LevelDBError> {
    let mut engine = Engine::new();
    let handle = open(&mut engine, "/tmp/basic_put_get".as_bytes())?;
    put(&handle, &mut engine, "foo".as_bytes(), "bar".as_bytes())?;
    let data = get(&handle, &engine, "foo".as_bytes())?.expect("We should have the data");
    assert_eq!(
        std::str::from_utf8(data.as_slice()).expect("data should be in utf8"),
        "bar"
    );
    Ok(())
}

#[test]
fn open_hands_over_a_terminated_path() {
    let call = LevelDBHandle::open("db/main".as_bytes()).expect("the path is representable");
    assert_eq!(call.path(), b"db/main\0");
    assert_eq!(call.options(), LevelDBOptions { create_if_missing: true });
}

#[test]
fn open_accepts_the_empty_path() {
    let call = LevelDBHandle::open(&[]).expect("the empty path is representable");
    assert_eq!(call.path(), &[0u8]);
}

#[test]
fn open_accepts_text_beyond_ascii() {
    let name = "données/größe".as_bytes();
    let call = LevelDBHandle::open(name).expect("the path is representable");
    assert_eq!(call.path().len(), name.len() + 1);
    assert_eq!(&call.path()[..name.len()], name);
    assert_eq!(call.path()[name.len()], 0);
}

#[test]
fn open_rejects_a_path_with_a_nul_byte() {
    let mut engine = Engine::new();
    let r = open(&mut engine, b"db\0main");
    assert!(matches!(r, Err(LevelDBError::InvalidPath)));
    assert!(engine.opened.is_empty());
}

#[test]
fn open_rejects_a_path_that_is_not_utf8() {
    let mut engine = Engine::new();
    let r = open(&mut engine, &[b'd', b'b', 0xff, 0xfe]);
    assert!(matches!(r, Err(LevelDBError::InvalidPath)));
    let r = open(&mut engine, &[0xc3]);
    assert!(matches!(r, Err(LevelDBError::InvalidPath)));
    assert!(engine.opened.is_empty());
}

#[test]
fn open_twice_keeps_the_data() -> Result<(), LevelDBError> {
    let mut engine = Engine::new();
    let first = open(&mut engine, b"/tmp/twice")?;
    put(&first, &mut engine, b"k", b"v")?;
    let second = open(&mut engine, b"/tmp/twice")?;
    let data = get(&second, &engine, b"k")?.expect("the value is still there");
    assert_eq!(data.as_slice(), b"v");
    assert_eq!(engine.opened, vec![b"/tmp/twice\0".to_vec(), b"/tmp/twice\0".to_vec()]);
    Ok(())
}

#[test]
fn open_reports_the_engine_diagnostic() {
    let call = LevelDBHandle::open(b"/nowhere").expect("the path is representable");
    let r = call.complete(OpenReply { db: 0, err: Some("IO error: /nowhere/LOCK".to_string()) });
    match r {
        Err(LevelDBError::FailedToOpen(msg)) => assert_eq!(msg, "IO error: /nowhere/LOCK"),
        other => panic!("unexpected result: {:?}", other),
    }
}

#[test]
fn open_keeps_the_native_identifier() {
    let call = LevelDBHandle::open(b"/tmp/id").expect("the path is representable");
    let handle = call.complete(OpenReply { db: 0xbeef, err: None }).expect("the engine opened it");
    assert_eq!(handle.as_native(), 0xbeef);
}

#[test]
fn put_asks_for_default_settings() {
    let handle = LevelDBHandle::open(b"/tmp/p")
        .and_then(|c| c.complete(OpenReply { db: 7, err: None }))
        .expect("opened");
    let call = handle.put(b"key", b"value");
    assert_eq!(call.options, LevelDBWriteOptions { sync: false });
    assert_eq!(call.key, b"key");
    assert_eq!(call.value, b"value");
    assert_eq!(call.handle.as_native(), 7);
}

#[test]
fn put_reports_the_engine_diagnostic() {
    let handle = LevelDBHandle::open(b"/tmp/p")
        .and_then(|c| c.complete(OpenReply { db: 7, err: None }))
        .expect("opened");
    let r = handle.put(b"k", b"v").complete(PutReply { err: Some("Corruption: bad block".to_string()) });
    match r {
        Err(LevelDBError::WriteFailed(msg)) => assert_eq!(msg, "Corruption: bad block"),
        other => panic!("unexpected result: {:?}", other),
    }
}

#[test]
fn get_asks_for_default_settings() {
    let handle = LevelDBHandle::open(b"/tmp/g")
        .and_then(|c| c.complete(OpenReply { db: 9, err: None }))
        .expect("opened");
    let call = handle.get(b"key");
    assert_eq!(call.options, LevelDBReadOptions { verify_checksums: false, fill_cache: true });
    assert_eq!(call.key, b"key");
    assert_eq!(call.handle.as_native(), 9);
}

#[test]
fn get_reports_the_engine_diagnostic() {
    let handle = LevelDBHandle::open(b"/tmp/g")
        .and_then(|c| c.complete(OpenReply { db: 9, err: None }))
        .expect("opened");
    let r = handle
        .get(b"k")
        .complete(GetReply { value: Some(b"ignored".to_vec()), err: Some("IO error: read".to_string()) });
    match r {
        Err(LevelDBError::ReadFailed(msg)) => assert_eq!(msg, "IO error: read"),
        other => panic!("unexpected result: {:?}", other),
    }
}

#[test]
fn get_of_a_missing_key_is_none() -> Result<(), LevelDBError> {
    let mut engine = Engine::new();
    let handle = open(&mut engine, b"/tmp/missing")?;
    put(&handle, &mut engine, b"foo", b"bar")?;
    assert!(get(&handle, &engine, b"other")?.is_none());
    assert!(get(&handle, &engine, b"fo")?.is_none());
    Ok(())
}

#[test]
fn put_get_round_trip_with_empty_key_and_value() -> Result<(), LevelDBError> {
    let mut engine = Engine::new();
    let handle = open(&mut engine, b"/tmp/empty")?;
    put(&handle, &mut engine, b"", b"")?;
    let data = get(&handle, &engine, b"")?.expect("the empty key was written");
    assert_eq!(data.len(), 0);
    assert!(data.is_empty());
    assert_eq!(data.as_slice(), b"");
    put(&handle, &mut engine, b"k", b"")?;
    assert!(get(&handle, &engine, b"k")?.expect("written").is_empty());
    Ok(())
}

#[test]
fn put_get_round_trip_with_raw_bytes() -> Result<(), LevelDBError> {
    let mut engine = Engine::new();
    let handle = open(&mut engine, b"/tmp/raw")?;
    let key = [0u8, 255, 1, 0];
    let value = [255u8, 0, 254, 0, 0];
    put(&handle, &mut engine, &key, &value)?;
    let data = get(&handle, &engine, &key)?.expect("written");
    assert_eq!(data.len(), 5);
    assert_eq!(data.as_slice(), &value);
    assert!(std::str::from_utf8(data.as_slice()).is_err());
    assert_eq!(data.into_bytes(), value.to_vec());
    Ok(())
}

#[test]
fn the_last_put_wins() -> Result<(), LevelDBError> {
    let mut engine = Engine::new();
    let handle = open(&mut engine, b"/tmp/overwrite")?;
    put(&handle, &mut engine, b"k", b"first")?;
    put(&handle, &mut engine, b"k", b"second")?;
    let data = get(&handle, &engine, b"k")?.expect("written");
    assert_eq!(data.as_slice(), b"second");
    Ok(())
}

#[test]
fn value_keeps_length_and_bytes() {
    let value = LevelDBValue::new(vec![1, 2, 3]);
    assert_eq!(value.len(), 3);
    assert!(!value.is_empty());
    assert_eq!(value.as_slice(), &[1, 2, 3]);
}

#[test]
fn options_are_built_with_the_defaults() {
    assert!(LevelDBOptions::new().create_if_missing);
    assert!(!LevelDBReadOptions::new().verify_checksums);
    assert!(LevelDBReadOptions::new().fill_cache);
    assert!(!LevelDBWriteOptions::new().sync);
}

#[test]
fn errors_render_their_kind() {
    assert_eq!(LevelDBError::FailedToOpen("x".to_string()).message(), "Failed to open LevelDB");
    assert_eq!(LevelDBError::InvalidPath.message(), "Invalid DB name");
    assert_eq!(LevelDBError::WriteFailed("x".to_string()).message(), "Failed to write to LevelDB");
    assert_eq!(LevelDBError::ReadFailed("x".to_string()).message(), "Failed to read from LevelDB");
    assert_eq!(
        LevelDBError::ReadFailed("detail".to_string()).engine_message(),
        Some(&"detail".to_string())
    );
    assert_eq!(LevelDBError::InvalidPath.engine_message(), None);
}
