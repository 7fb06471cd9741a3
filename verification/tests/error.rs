use tauri_app_lib::db::SCHEMA;
use tauri_app_lib::error::AppError;
use tauri_app_lib::text::decimal_string;

#[test]
fn not_found_has_stable_code_and_readable_message() {
    let e = AppError::NotFound {
        entity: "demo_item",
        id: 42,
    };
    assert_eq!(e.code(), "E_NOT_FOUND");
    assert!(e.to_string().contains("42"));
}

#[test]
fn every_kind_has_its_code_and_message() {
    let cases = [
        (AppError::DbOpen("disk full".to_owned()), "E_DB_OPEN", "打开数据库失败：disk full"),
        (AppError::Db("no such table".to_owned()), "E_DB_QUERY", "数据库操作失败：no such table"),
        (
            AppError::NotFound { entity: "demo_item", id: -3 },
            "E_NOT_FOUND",
            "记录不存在：demo_item #-3",
        ),
        (
            AppError::Validation("name 不能为空".to_owned()),
            "E_VALIDATION",
            "输入不合法：name 不能为空",
        ),
        (AppError::Internal("lock".to_owned()), "E_INTERNAL", "内部错误：lock"),
    ];
    for (err, code, message) in cases {
        assert_eq!(err.code(), code);
        assert_eq!(err.to_string(), message);
    }
}

#[test]
fn decimal_matches_display() {
    for n in [0i64, 7, 10, 42, -1, -10, 99999, 1_000_000, i64::MAX, i64::MIN] {
        assert_eq!(decimal_string(n), n.to_string());
    }
}

#[test]
fn schema_creates_table_and_index_idempotently() {
    assert!(SCHEMA.contains("CREATE TABLE IF NOT EXISTS demo_item"));
    assert!(SCHEMA.contains("CREATE INDEX IF NOT EXISTS idx_demo_item_name ON demo_item(name)"));
}
