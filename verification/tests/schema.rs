use risk::schema::limit_table_schema;
use risk::{current_schema, SchemaRecordKind, SchemaVersion};

#[test]
fn readers_accept_older_minor_versions() {
    let reader = SchemaVersion::new(1, 2, 0);
    let writer = SchemaVersion::new(1, 1, 0);

    assert!(reader.can_read(writer));
}

#[test]
fn readers_reject_newer_major_versions() {
    let reader = SchemaVersion::new(1, 2, 0);
    let writer = SchemaVersion::new(2, 0, 0);

    assert!(!reader.can_read(writer));
}

#[test]
fn current_limit_schema_is_v1() {
    let schema = current_schema(SchemaRecordKind::LimitTable);

    assert_eq!(schema.version, SchemaVersion::new(1, 0, 0));
}

#[test]
fn readers_reject_newer_minor_and_ignore_patch() {
    let reader = SchemaVersion::new(1, 1, 0);
    assert!(!reader.can_read(SchemaVersion::new(1, 2, 0)));
    assert!(reader.can_read(SchemaVersion::new(1, 1, 9)));
    assert!(reader.can_read(reader));
    assert_eq!(limit_table_schema(), SchemaVersion::new(1, 0, 0));
    assert_eq!(
        current_schema(SchemaRecordKind::AuditRecord).kind,
        SchemaRecordKind::AuditRecord
    );
}
