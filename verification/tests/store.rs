use notary::models::{
    DatabaseErrorKind, DieselErr, ModelErr, NewSignedData, SignedData, SignedDataTable,
};

fn record(hash: &str, at: &str) -> NewSignedData {
    NewSignedData { data_hash_b64: hash.to_string(), created_at: Some(at.to_string()) }
}

#[test]
fn first_insert_stores_and_second_conflicts() {
    let mut table = SignedDataTable::new();
    let stored = record("aGFzaA==", "2021-01-01T00:00:00").insert(&mut table);
    assert_eq!(
        stored,
        Ok(SignedData {
            id: 1,
            created_at: "2021-01-01T00:00:00".to_string(),
            data_hash_b64: "aGFzaA==".to_string(),
        })
    );
    assert_eq!(table.len(), 1);
    let again = record("aGFzaA==", "2021-01-02T00:00:00").insert(&mut table);
    assert!(matches!(again, Err(ModelErr::AlreadyExists(_))));
    assert_eq!(table.len(), 1);
}

#[test]
fn ids_grow_by_one() {
    let mut table = SignedDataTable::new();
    for (i, hash) in ["a", "b", "c", "d"].iter().enumerate() {
        let stored = record(hash, "t").insert(&mut table).unwrap();
        assert_eq!(stored.id, i as i64 + 1);
    }
    assert_eq!(table.len(), 4);
    assert!(table.contains(&"c".to_string()));
    assert!(!table.contains(&"e".to_string()));
}

#[test]
fn record_without_time_is_stored() {
    let mut table = SignedDataTable::new();
    let stored = NewSignedData { data_hash_b64: "h".to_string(), created_at: None }
        .insert(&mut table)
        .unwrap();
    assert_eq!(stored.created_at, "");
    assert_eq!(stored.data_hash_b64, "h");
}

#[test]
fn empty_table_holds_nothing() {
    let table = SignedDataTable::new();
    assert_eq!(table.len(), 0);
    assert!(!table.contains(&"".to_string()));
}

#[test]
fn unique_violation_is_a_duplicate() {
    assert_eq!(
        ModelErr::from(DieselErr::DatabaseError(
            DatabaseErrorKind::UniqueViolation,
            "duplicate key".to_string()
        )),
        ModelErr::AlreadyExists("duplicate key".to_string())
    );
}

#[test]
fn other_faults_are_the_stores_own() {
    for kind in [
        DatabaseErrorKind::ForeignKeyViolation,
        DatabaseErrorKind::UnableToSendCommand,
        DatabaseErrorKind::SerializationFailure,
        DatabaseErrorKind::Unknown,
    ] {
        assert_eq!(
            ModelErr::from(DieselErr::DatabaseError(kind, "x".to_string())),
            ModelErr::OtherDieselErr("x".to_string())
        );
    }
    assert_eq!(
        ModelErr::from(DieselErr::Other("connection lost".to_string())),
        ModelErr::OtherDieselErr("connection lost".to_string())
    );
}
