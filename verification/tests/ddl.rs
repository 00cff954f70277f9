use liveo::queries::create_col_type;
use liveo::queries::create_tracking_table_sql;
use liveo::queries::create_trigger_function_sql;
use liveo::queries::create_trigger_sql;
use liveo::queries::create_workspace_table_sql;
use liveo::queries::drop_tracking_table_sql;
use liveo::queries::fetch_track_tables_sql;
use liveo::tracktable::Col;
use liveo::tracktable::On;
use liveo::tracktable::TrackTable;

fn col(name: &str, data_type: &str) -> Col {
    Col { name: name.to_string(), data_type: data_type.to_string() }
}

fn orders_audit() -> TrackTable {
    TrackTable::new(
        1,
        "orders_audit".to_string(),
        On::Update,
        None,
        "orders".to_string(),
        vec![col("status", "text")],
        true,
        true,
        0,
        0,
    )
}

#[test]
fn derived_names_follow_the_tracking_name() {
    let t = orders_audit();
    assert_eq!(t.table_name(), "liveo_tracktable_orders_audit");
    assert_eq!(t.func_name(), "liveo_func_orders_audit");
    assert_eq!(t.trigger_name(), "liveo_trigger_orders_audit");
}

#[test]
fn tracking_table_ddl_for_update_capture() {
    let t = orders_audit();
    assert_eq!(
        create_tracking_table_sql(&t),
        "CREATE TABLE IF NOT EXISTS \"liveo_tracktable_orders_audit\" (id UUID PRIMARY KEY DEFAULT gen_random_uuid(), timestamp TIMESTAMP DEFAULT NOW(), old_status text, new_status text)"
    );
}

#[test]
fn trigger_function_ddl_for_update_capture() {
    let t = orders_audit();
    assert_eq!(
        create_trigger_function_sql(&t),
        "CREATE OR REPLACE FUNCTION \"liveo_func_orders_audit\"()\nRETURNS TRIGGER AS $$\nBEGIN\n    INSERT INTO \"liveo_tracktable_orders_audit\" (timestamp, old_status, new_status)\n    VALUES (NOW(), OLD.status, NEW.status);\n    RETURN NEW;\nEND;\n$$ LANGUAGE plpgsql;"
    );
}

#[test]
fn trigger_ddl_fires_after_update_on_source_table() {
    let t = orders_audit();
    assert_eq!(
        create_trigger_sql(&t),
        "DROP TRIGGER IF EXISTS \"liveo_trigger_orders_audit\" ON \"orders\";\nCREATE TRIGGER \"liveo_trigger_orders_audit\"\n    AFTER UPDATE ON \"orders\"\n    FOR EACH ROW\n    EXECUTE FUNCTION \"liveo_func_orders_audit\"();"
    );
}

#[test]
fn teardown_ddl_drops_every_generated_object_with_if_exists() {
    let t = orders_audit();
    assert_eq!(
        drop_tracking_table_sql(&t),
        "DROP TABLE IF EXISTS \"liveo_tracktable_orders_audit\";\nDROP FUNCTION IF EXISTS \"liveo_func_orders_audit\";\nDROP TRIGGER IF EXISTS \"liveo_trigger_orders_audit\" ON \"orders\";"
    );
}

#[test]
fn delete_capture_keeps_old_row_and_returns_old() {
    let t = TrackTable::new(
        2,
        "users_gone".to_string(),
        On::Delete,
        None,
        "users".to_string(),
        vec![col("email", "text"), col("age", "integer")],
        true,
        false,
        0,
        0,
    );
    assert_eq!(
        create_tracking_table_sql(&t),
        "CREATE TABLE IF NOT EXISTS \"liveo_tracktable_users_gone\" (id UUID PRIMARY KEY DEFAULT gen_random_uuid(), timestamp TIMESTAMP DEFAULT NOW(), old_email text, old_age integer)"
    );
    assert_eq!(
        create_trigger_function_sql(&t),
        "CREATE OR REPLACE FUNCTION \"liveo_func_users_gone\"()\nRETURNS TRIGGER AS $$\nBEGIN\n    INSERT INTO \"liveo_tracktable_users_gone\" (timestamp, old_email, old_age)\n    VALUES (NOW(), OLD.email, OLD.age);\n    RETURN OLD;\nEND;\n$$ LANGUAGE plpgsql;"
    );
    assert!(create_trigger_sql(&t).contains("AFTER DELETE ON \"users\""));
}

#[test]
fn parent_id_column_is_emitted_before_snapshot_columns() {
    let t = TrackTable::new(
        3,
        "items_new".to_string(),
        On::Insert,
        Some(col("order_id", "uuid")),
        "items".to_string(),
        vec![col("label", "text")],
        false,
        true,
        0,
        0,
    );
    assert_eq!(
        create_tracking_table_sql(&t),
        "CREATE TABLE IF NOT EXISTS \"liveo_tracktable_items_new\" (id UUID PRIMARY KEY DEFAULT gen_random_uuid(), timestamp TIMESTAMP DEFAULT NOW(), p_id uuid DEFAULT NULL, new_label text)"
    );
    assert_eq!(
        create_trigger_function_sql(&t),
        "CREATE OR REPLACE FUNCTION \"liveo_func_items_new\"()\nRETURNS TRIGGER AS $$\nBEGIN\n    INSERT INTO \"liveo_tracktable_items_new\" (timestamp, p_id, new_label)\n    VALUES (NOW(), NEW.order_id, NEW.label);\n    RETURN NEW;\nEND;\n$$ LANGUAGE plpgsql;"
    );
}

#[test]
fn fixed_catalog_statements() {
    assert_eq!(
        create_workspace_table_sql(),
        "CREATE TABLE IF NOT EXISTS liveo_workspace (id UUID PRIMARY KEY DEFAULT gen_random_uuid(), name TEXT NOT NULL, p_id liveo_col, table_name TEXT NOT NULL, track_op TEXT NOT NULL, track_col TEXT[] NOT NULL, old_values BOOLEAN NOT NULL, new_values BOOLEAN NOT NULL, created_at TIMESTAMP DEFAULT NOW(), updated_at TIMESTAMP DEFAULT NOW());"
    );
    assert_eq!(fetch_track_tables_sql(), "SELECT * FROM liveo_workspace;");
    assert_eq!(create_col_type(), "CREATE TYPE liveo_col AS (name TEXT, data_type TEXT);");
}

#[test]
fn statement_kind_labels_round_trip() {
    assert_eq!(On::Insert.label(), "insert");
    assert_eq!(On::Update.label(), "update");
    assert_eq!(On::Delete.label(), "delete");
    assert_eq!(On::Insert.keyword(), "INSERT");
    assert_eq!(On::Update.keyword(), "UPDATE");
    assert_eq!(On::Delete.keyword(), "DELETE");
    assert_eq!(On::from_str("insert"), Some(On::Insert));
    assert_eq!(On::from_str("update"), Some(On::Update));
    assert_eq!(On::from_str("delete"), Some(On::Delete));
    assert_eq!(On::from_str("INSERT"), None);
    assert_eq!(On::from_str("truncate"), None);
    assert_eq!(On::from_str(""), None);
}
