use ticketbot::store::{StorageError, TicketStore};

#[test]
fn create_then_list_includes_exactly_one_match() {
    let mut s = TicketStore::new();
    s.setup_schema().unwrap();
    let t = s
        .create(
            "alice".to_string(),
            "printer on fire".to_string(),
            "New".to_string(),
        )
        .unwrap();
    assert_eq!(t.owner, "alice");
    assert_eq!(t.description, "printer on fire");
    assert_eq!(t.status, "New");

    let all = s.list_all().unwrap();
    let matching: Vec<_> = all.iter().filter(|x| x.id == t.id).collect();
    assert_eq!(matching.len(), 1);
    assert_eq!(matching[0].owner, "alice");
    assert_eq!(matching[0].description, "printer on fire");
    assert_eq!(matching[0].status, "New");

    let t2 = s
        .create(
            "bob".to_string(),
            "keyboard missing".to_string(),
            "New".to_string(),
        )
        .unwrap();
    assert_ne!(t2.id, t.id);
    let all2 = s.list_all().unwrap();
    assert_eq!(all2.len(), 2);
    assert_eq!(all2.iter().filter(|x| x.id == t2.id).count(), 1);
}

#[test]
fn list_all_on_empty_store_returns_empty() {
    let mut s = TicketStore::new();
    s.setup_schema().unwrap();
    let all = s.list_all().unwrap();
    assert!(all.is_empty());
}

#[test]
fn setup_twice_is_noop_and_keeps_data() {
    let mut s = TicketStore::new();
    assert_eq!(s.setup_schema(), Ok(()));
    let t = s
        .create("carol".to_string(), "vpn down".to_string(), "New".to_string())
        .unwrap();
    assert_eq!(s.setup_schema(), Ok(()));
    let all = s.list_all().unwrap();
    assert_eq!(all.len(), 1);
    assert_eq!(all[0].id, t.id);
    assert_eq!(all[0].owner, "carol");
    assert_eq!(all[0].description, "vpn down");
    let t2 = s
        .create("dave".to_string(), "mouse squeaks".to_string(), "New".to_string())
        .unwrap();
    assert_ne!(t2.id, t.id);
}

#[test]
fn count_equals_list_len_for_interleaved_creates() {
    let mut s = TicketStore::new();
    s.setup_schema().unwrap();
    assert_eq!(s.count().unwrap(), s.list_all().unwrap().len());
    for k in 0..7 {
        s.create(
            format!("owner{}", k),
            format!("issue {}", k),
            "New".to_string(),
        )
        .unwrap();
        assert_eq!(s.count().unwrap(), s.list_all().unwrap().len());
        assert_eq!(s.count().unwrap(), k + 1);
    }
}

#[test]
fn fifty_creates_all_succeed_with_distinct_ids() {
    let mut s = TicketStore::new();
    s.setup_schema().unwrap();
    let mut ids: Vec<u64> = Vec::new();
    for k in 0..50 {
        let t = s
            .create(
                format!("user{}", k),
                "simultaneous request".to_string(),
                "New".to_string(),
            )
            .unwrap();
        ids.push(t.id);
    }
    assert_eq!(ids.len(), 50);
    for i in 0..ids.len() {
        for j in (i + 1)..ids.len() {
            assert_ne!(ids[i], ids[j]);
        }
    }
}

#[test]
fn unreachable_engine_reports_unavailable() {
    let mut s = TicketStore::new();
    s.setup_schema().unwrap();
    s.create("erin".to_string(), "screen flickers".to_string(), "New".to_string())
        .unwrap();
    s.take_offline();
    assert_eq!(
        s.create("frank".to_string(), "no audio".to_string(), "New".to_string()),
        Err(StorageError::Unavailable)
    );
    assert_eq!(s.list_all(), Err(StorageError::Unavailable));
    assert_eq!(s.count(), Err(StorageError::Unavailable));
    assert_eq!(s.setup_schema(), Err(StorageError::Unavailable));
}

#[test]
fn missing_schema_reports_schema_missing() {
    let mut s = TicketStore::new();
    assert_eq!(
        s.create("grace".to_string(), "lost badge".to_string(), "New".to_string()),
        Err(StorageError::SchemaMissing)
    );
    assert_eq!(s.list_all(), Err(StorageError::SchemaMissing));
    assert_eq!(s.count(), Err(StorageError::SchemaMissing));
}

#[test]
fn ids_start_at_one_and_increase() {
    let mut s = TicketStore::new();
    s.setup_schema().unwrap();
    let a = s
        .create("heidi".to_string(), "first".to_string(), "New".to_string())
        .unwrap();
    let b = s
        .create("ivan".to_string(), "second".to_string(), "Open".to_string())
        .unwrap();
    assert_eq!(a.id, 1);
    assert_eq!(b.id, 2);
    assert_eq!(b.status, "Open");
}
