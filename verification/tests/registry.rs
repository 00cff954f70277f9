use liveo::error::Error;
use liveo::error::ErrorKind;
use liveo::tracktable::Col;
use liveo::tracktable::On;
use liveo::tracktable::TrackTable;
use liveo::workspace::CatalogRow;
use liveo::workspace::Workspace;

fn col(name: &str, data_type: &str) -> Col {
    Col { name: name.to_string(), data_type: data_type.to_string() }
}

fn table(name: &str, source: &str, on: On) -> TrackTable {
    TrackTable::new(
        7,
        name.to_string(),
        on,
        None,
        source.to_string(),
        vec![col("status", "text")],
        true,
        true,
        100,
        100,
    )
}

#[test]
fn adding_the_same_derived_name_twice_is_a_duplicate() {
    let mut ws = Workspace::new();
    assert!(ws.add_track_table(table("orders_audit", "orders", On::Update)).is_ok());
    let e = ws.add_track_table(table("orders_audit", "other", On::Insert)).unwrap_err();
    assert_eq!(e.kind, ErrorKind::DuplicateTrackTable);
    assert_eq!(ws.track_table_count(), 1);
    assert_eq!(ws.pending_operations(), 1);
}

#[test]
fn update_and_remove_of_unregistered_names_are_not_found() {
    let mut ws = Workspace::new();
    let e = ws.update_track_table(table("missing", "orders", On::Update)).unwrap_err();
    assert_eq!(e.kind, ErrorKind::NotFound);
    let e = ws.remove_track_table(&table("missing", "orders", On::Update)).unwrap_err();
    assert_eq!(e.kind, ErrorKind::NotFound);
    assert_eq!(ws.pending_operations(), 0);
}

#[test]
fn invalid_names_are_rejected_before_registration() {
    let mut ws = Workspace::new();
    let e = ws.add_track_table(table("bad name", "orders", On::Update)).unwrap_err();
    assert_eq!(e.kind, ErrorKind::InvalidIdentifier);
    let e = ws.add_track_table(table("ok_name", "orders; --", On::Update)).unwrap_err();
    assert_eq!(e.kind, ErrorKind::InvalidIdentifier);
    let mut bad_col = table("ok_name", "orders", On::Update);
    bad_col = TrackTable::new(
        bad_col.id,
        bad_col.name,
        bad_col.on,
        None,
        bad_col.table,
        vec![col("status'; --", "text")],
        true,
        true,
        0,
        0,
    );
    let e = ws.add_track_table(bad_col).unwrap_err();
    assert_eq!(e.kind, ErrorKind::InvalidIdentifier);
    // a tracking name longer than 46 characters would push the derived
    // tracking-table name past the 63-character identifier limit
    let e = ws.add_track_table(table(&"a".repeat(47), "orders", On::Update)).unwrap_err();
    assert_eq!(e.kind, ErrorKind::InvalidIdentifier);
    assert!(ws.add_track_table(table(&"a".repeat(46), "orders", On::Update)).is_ok());
    assert_eq!(ws.track_table_count(), 1);
}

#[test]
fn updating_replaces_in_place_and_enqueues() {
    let mut ws = Workspace::new();
    assert!(ws.add_track_table(table("orders_audit", "orders", On::Update)).is_ok());
    let mut replacement = table("orders_audit", "orders", On::Update);
    replacement = TrackTable::new(
        replacement.id,
        replacement.name,
        replacement.on,
        None,
        replacement.table,
        vec![col("status", "text"), col("total", "numeric")],
        true,
        true,
        0,
        0,
    );
    assert!(ws.update_track_table(replacement).is_ok());
    assert_eq!(ws.track_table_count(), 1);
    assert_eq!(ws.pending_operations(), 2);
    let stored = ws.track_table_at(0).unwrap();
    assert_eq!(stored.track.len(), 2);
    assert!(ws.track_table_at(1).is_none());
}

#[test]
fn flush_steps_drain_operations_in_fifo_order() {
    let mut ws = Workspace::new();
    let a = table("orders_audit", "orders", On::Update);
    assert!(ws.add_track_table(table("orders_audit", "orders", On::Update)).is_ok());
    assert!(ws.update_track_table(table("orders_audit", "orders", On::Update)).is_ok());
    assert!(ws.remove_track_table(&table("orders_audit", "orders", On::Update)).is_ok());
    assert_eq!(ws.pending_operations(), 3);
    assert_eq!(ws.track_table_count(), 0);

    // first the Create transaction: teardown, then the three creations
    let create_stmts = ws.next_statements().unwrap();
    assert_eq!(create_stmts.len(), 4);
    assert_eq!(create_stmts[0], liveo::queries::drop_tracking_table_sql(&a));
    assert_eq!(create_stmts[1], liveo::queries::create_tracking_table_sql(&a));
    assert_eq!(create_stmts[2], liveo::queries::create_trigger_function_sql(&a));
    assert_eq!(create_stmts[3], liveo::queries::create_trigger_sql(&a));
    ws.operation_applied();

    // then the Update transaction: same drop-and-recreate family
    let update_stmts = ws.next_statements().unwrap();
    assert_eq!(update_stmts.len(), 4);
    assert_eq!(update_stmts[0], liveo::queries::drop_tracking_table_sql(&a));
    ws.operation_applied();

    // finally the Delete transaction: teardown only
    let delete_stmts = ws.next_statements().unwrap();
    assert_eq!(delete_stmts.len(), 1);
    assert_eq!(delete_stmts[0], liveo::queries::drop_tracking_table_sql(&a));
    ws.operation_applied();

    assert_eq!(ws.pending_operations(), 0);
    assert!(ws.next_statements().is_none());
}

#[test]
fn failed_transaction_keeps_its_operation_and_everything_behind_it() {
    let mut ws = Workspace::new();
    assert!(ws.add_track_table(table("first_audit", "orders", On::Update)).is_ok());
    assert!(ws.add_track_table(table("second_audit", "users", On::Insert)).is_ok());
    assert!(ws.add_track_table(table("third_audit", "items", On::Delete)).is_ok());
    assert_eq!(ws.pending_operations(), 3);

    // the first operation's transaction commits
    assert!(ws.next_statements().is_some());
    ws.operation_applied();

    // the second operation's transaction fails: it is never acknowledged, so
    // it and the third operation stay queued, in order
    assert_eq!(ws.pending_operations(), 2);
    let retry = ws.next_statements().unwrap();
    assert!(retry[1].contains("liveo_tracktable_second_audit"));
}

#[test]
fn load_reconstructs_definitions_from_catalog_rows() {
    let rows = vec![
        CatalogRow {
            id: "00000000-0000-0000-0000-0000000000ff".to_string(),
            name: "orders_audit".to_string(),
            on: "update".to_string(),
            table: "orders".to_string(),
            track: vec![col("status", "text")],
            old: true,
            new: true,
            p_id: None,
            created_at: 11,
            updated_at: 12,
        },
        CatalogRow {
            id: "650e8400-e29b-41d4-a716-446655440000".to_string(),
            name: "users_audit".to_string(),
            on: "delete".to_string(),
            table: "users".to_string(),
            track: vec![col("email", "text")],
            old: true,
            new: false,
            p_id: Some(col("org_id", "uuid")),
            created_at: 21,
            updated_at: 22,
        },
    ];
    let ws = Workspace::from_rows(rows).unwrap();
    assert_eq!(ws.track_table_count(), 2);
    assert_eq!(ws.pending_operations(), 0);
    let first = ws.track_table_at(0).unwrap();
    // the id comes from the uuid parser, not from the raw text
    assert_eq!(first.id, 0xff);
    assert_eq!(first.name, "orders_audit");
    assert_eq!(first.on, On::Update);
    assert_eq!(first.table, "orders");
    assert_eq!(first.created_at, 11);
    assert_eq!(first.updated_at, 12);
    let second = ws.track_table_at(1).unwrap();
    assert_eq!(second.on, On::Delete);
    assert_eq!(second.p_id.as_ref().unwrap().name, "org_id");
}

fn good_row(name: &str) -> CatalogRow {
    CatalogRow {
        id: "00000000-0000-0000-0000-000000000001".to_string(),
        name: name.to_string(),
        on: "insert".to_string(),
        table: "orders".to_string(),
        track: vec![col("status", "text")],
        old: false,
        new: true,
        p_id: None,
        created_at: 0,
        updated_at: 0,
    }
}

#[test]
fn load_rejects_unrecognized_statement_kind() {
    let mut row = good_row("orders_audit");
    row.on = "truncate".to_string();
    let e = Workspace::from_rows(vec![row]).unwrap_err();
    assert_eq!(e.kind, ErrorKind::CatalogCorrupt);
}

#[test]
fn load_rejects_unparsable_id() {
    let mut row = good_row("orders_audit");
    row.id = "not-a-uuid".to_string();
    let e = Workspace::from_rows(vec![row]).unwrap_err();
    assert_eq!(e.kind, ErrorKind::CatalogCorrupt);
}

#[test]
fn load_rejects_duplicate_tracking_names_and_bad_identifiers() {
    let e = Workspace::from_rows(vec![good_row("orders_audit"), good_row("orders_audit")])
        .unwrap_err();
    assert_eq!(e.kind, ErrorKind::CatalogCorrupt);
    let e = Workspace::from_rows(vec![good_row("bad name")]).unwrap_err();
    assert_eq!(e.kind, ErrorKind::CatalogCorrupt);
}

#[test]
fn errors_carry_their_context() {
    let e = Error::new("Connecting to the database", ErrorKind::DatabaseError);
    assert_eq!(e.kind, ErrorKind::DatabaseError);
    assert_eq!(e.message(), "Connecting to the database");
}
