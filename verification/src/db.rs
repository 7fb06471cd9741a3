//! The table layout: the single statement that both the application and its
//! tests run, so the two can never drift apart.

use vstd::prelude::*;

verus! {

/// Creates the `demo_item` table and its name index when they are missing;
/// running it again is harmless (`IF NOT EXISTS`).
pub const SCHEMA: &'static str = "
CREATE TABLE IF NOT EXISTS demo_item (
    id         INTEGER PRIMARY KEY AUTOINCREMENT,
    name       TEXT    NOT NULL,
    quantity   INTEGER NOT NULL DEFAULT 0,
    note       TEXT    NOT NULL DEFAULT '',
    created_at TEXT    NOT NULL DEFAULT (datetime('now')),
    updated_at TEXT    NOT NULL DEFAULT (datetime('now'))
);

-- 按名字查（将来做搜索时用得上）。显式建索引而不是指望 SQLite 自动建。
CREATE INDEX IF NOT EXISTS idx_demo_item_name ON demo_item(name);
";

} // verus!
