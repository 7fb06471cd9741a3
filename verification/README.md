# tauri_app_lib

The rules behind a small desktop tool that manages `demo_item` records
(create, paged list, get by id, partial update, delete), stated as contracts
and proved with Verus.

- `src/demo_item.rs`: record shapes, the validation and normalization of new
  records and patches, page clamping, and how a database outcome (rows
  touched, row found) becomes a result.
- `src/error.rs`: the error kinds, their stable codes and their messages.
- `src/logging.rs`: masking of secret values and detection of sensitive
  field names for log lines.
- `src/text.rs`: trimming, decimal rendering, character-level string building.
- `src/db.rs`: the table schema.
- `app/`: the Tauri shell: SQLite access, IPC commands with serde shapes,
  logging setup.
