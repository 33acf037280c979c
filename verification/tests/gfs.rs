use gfs_lite::GfsError;
use gfs_lite::chunk::ChunkServer;
use gfs_lite::master::GfsMaster;
use gfs_lite::registry::LocationRegistry;
use gfs_lite::store::ChunkStore;

#[test]
fn register_ids_strictly_increasing_from_one() {
    let mut m = GfsMaster::new();
    let a = m.register("[::1]:50010".to_string());
    let b = m.register("[::1]:50011".to_string());
    let c = m.register("[::1]:50012".to_string());
    assert_eq!(a, 1);
    assert_eq!(b, 2);
    assert_eq!(c, 3);
    assert_eq!(m.server_count(), 3);
}

#[test]
fn register_same_address_twice_yields_distinct_ids() {
    let mut m = GfsMaster::new();
    let a = m.register("[::1]:50010".to_string());
    let b = m.register("[::1]:50010".to_string());
    assert_ne!(a, b);
    assert_eq!(a, 1);
    assert_eq!(b, 2);
}

#[test]
fn lookup_never_reported_fails_not_found() {
    let mut m = GfsMaster::new();
    assert_eq!(m.lookup(&"foo".to_string()), Err(GfsError::NotFound));
    m.register("[::1]:50010".to_string());
    let ok = m.insert(1, "foo".to_string());
    assert_eq!(ok, Ok(()));
    assert_eq!(m.lookup(&"bar".to_string()), Err(GfsError::NotFound));
}

#[test]
fn report_then_lookup_returns_registered_address() {
    let mut m = GfsMaster::new();
    let id = m.register("[::1]:50010".to_string());
    assert_eq!(m.insert(id, "foo".to_string()), Ok(()));
    assert_eq!(m.lookup(&"foo".to_string()), Ok("[::1]:50010".to_string()));

    // The mapping persists across unrelated operations.
    let other = m.register("[::1]:50011".to_string());
    assert_eq!(m.insert(other, "bar".to_string()), Ok(()));
    m.remove(&"bar".to_string());
    assert_eq!(m.lookup(&"foo".to_string()), Ok("[::1]:50010".to_string()));

    // ... until a different report for the same object changes it,
    assert_eq!(m.insert(other, "foo".to_string()), Ok(()));
    assert_eq!(m.lookup(&"foo".to_string()), Ok("[::1]:50011".to_string()));

    // ... or a remove forgets it.
    m.remove(&"foo".to_string());
    assert_eq!(m.lookup(&"foo".to_string()), Err(GfsError::NotFound));
}

#[test]
fn report_unknown_server_fails_and_leaves_registry_unchanged() {
    let mut m = GfsMaster::new();
    let id = m.register("[::1]:50010".to_string());
    assert_eq!(m.insert(id, "foo".to_string()), Ok(()));

    assert_eq!(m.insert(0, "foo".to_string()), Err(GfsError::UnknownServer));
    assert_eq!(m.insert(2, "bar".to_string()), Err(GfsError::UnknownServer));

    // The failed reports changed nothing.
    assert_eq!(m.lookup(&"foo".to_string()), Ok("[::1]:50010".to_string()));
    assert_eq!(m.lookup(&"bar".to_string()), Err(GfsError::NotFound));
    assert_eq!(m.server_count(), 1);
}

#[test]
fn registry_lookup_returns_full_record() {
    let mut r = LocationRegistry::new();
    let id = r.register("[::1]:50010".to_string());
    assert_eq!(r.report(id, "foo".to_string()), Ok(()));
    let rec = r.lookup(&"foo".to_string()).unwrap();
    assert_eq!(rec.id, 1);
    assert_eq!(rec.address, "[::1]:50010".to_string());
    r.forget(&"foo".to_string());
    assert_eq!(r.lookup(&"foo".to_string()).unwrap_err(), GfsError::NotFound);
    // Forgetting an absent object is a no-op, never a failure.
    r.forget(&"foo".to_string());
}

#[test]
fn store_get_set_delete() {
    let mut s = ChunkStore::new();
    assert_eq!(s.get(&"k".to_string()), None);
    assert_eq!(s.set("k".to_string(), b"v1".to_vec()), None);
    assert_eq!(s.get(&"k".to_string()), Some(&b"v1".to_vec()));
    assert_eq!(s.set("k".to_string(), b"v2".to_vec()), Some(b"v1".to_vec()));
    assert_eq!(s.delete(&"k".to_string()), Some(b"v2".to_vec()));
    assert_eq!(s.get(&"k".to_string()), None);
    assert_eq!(s.delete(&"k".to_string()), None);
}

#[test]
fn set_then_get_observes_the_write() {
    let mut c = ChunkServer::new(1);
    assert_eq!(c.set("foo".to_string(), Some(b"bar".to_vec())), None);
    assert_eq!(c.get(&"foo".to_string()), Ok(&b"bar".to_vec()));

    let prev = c.set("foo".to_string(), None);
    assert_eq!(prev, Some(b"bar".to_vec()));
    assert_eq!(c.get(&"foo".to_string()), Err(GfsError::NotFound));
}

#[test]
fn set_round_trip_returns_previous_payload() {
    let mut c = ChunkServer::new(1);
    assert_eq!(c.set("x".to_string(), Some(b"one".to_vec())), None);
    let prev = c.set("x".to_string(), Some(b"two".to_vec()));
    assert_eq!(prev, Some(b"one".to_vec()));
    assert_eq!(c.get(&"x".to_string()), Ok(&b"two".to_vec()));
}

#[test]
fn empty_payload_is_stored_and_returned() {
    let mut c = ChunkServer::new(1);
    assert_eq!(c.set("empty".to_string(), Some(Vec::new())), None);
    assert_eq!(c.get(&"empty".to_string()), Ok(&Vec::new()));
}

#[test]
fn inventory_lists_each_stored_object_once() {
    let mut c = ChunkServer::new(1);
    assert_eq!(c.inventory().len(), 0);
    c.set("a".to_string(), Some(b"1".to_vec()));
    c.set("b".to_string(), Some(b"2".to_vec()));
    c.set("a".to_string(), Some(b"3".to_vec()));
    let mut inv = c.inventory();
    inv.sort();
    assert_eq!(inv, vec!["a".to_string(), "b".to_string()]);
    c.set("a".to_string(), None);
    assert_eq!(c.inventory(), vec!["b".to_string()]);
}

#[test]
fn sync_scenario_stale_until_forget() {
    // ChunkServer A registers and receives identifier 1.
    let mut m = GfsMaster::new();
    let id = m.register("[::1]:50010".to_string());
    assert_eq!(id, 1);
    let mut a = ChunkServer::new(id);

    // A stores "foo" -> b"bar"; after the next sync tick the master knows.
    a.set("foo".to_string(), Some(b"bar".to_vec()));
    for url in a.inventory() {
        assert_eq!(m.insert(a.server_id(), url), Ok(()));
    }
    assert_eq!(m.lookup(&"foo".to_string()), Ok("[::1]:50010".to_string()));

    // A deletes "foo" locally; sync only reports present objects, so the
    // master still serves the stale location until an explicit remove.
    a.set("foo".to_string(), None);
    for url in a.inventory() {
        assert_eq!(m.insert(a.server_id(), url), Ok(()));
    }
    assert_eq!(m.lookup(&"foo".to_string()), Ok("[::1]:50010".to_string()));

    // Only the explicit remove forgets the mapping.
    m.remove(&"foo".to_string());
    assert_eq!(m.lookup(&"foo".to_string()), Err(GfsError::NotFound));
}

#[test]
fn last_report_wins_for_the_same_object() {
    let mut m = GfsMaster::new();
    let a = m.register("[::1]:50010".to_string());
    let b = m.register("[::1]:50011".to_string());

    assert_eq!(m.insert(a, "x".to_string()), Ok(()));
    assert_eq!(m.insert(b, "x".to_string()), Ok(()));
    assert_eq!(m.lookup(&"x".to_string()), Ok("[::1]:50011".to_string()));

    assert_eq!(m.insert(a, "x".to_string()), Ok(()));
    assert_eq!(m.lookup(&"x".to_string()), Ok("[::1]:50010".to_string()));
}

#[test]
fn default_master_is_empty() {
    let m = GfsMaster::default();
    assert_eq!(m.server_count(), 0);
    assert_eq!(m.lookup(&"foo".to_string()), Err(GfsError::NotFound));
}
