use tauri_app_lib::demo_item::{
    clamp_page, found_or_not_found, normalize_new, normalize_patch, require_affected, DemoItem,
    DemoItemPatch, NewDemoItem, ENTITY, NAME_MAX, NOTE_MAX, PAGE_DEFAULT, PAGE_MAX, QUANTITY_MAX,
};
use tauri_app_lib::error::AppError;

fn new_item(name: &str, quantity: i64, note: &str) -> NewDemoItem {
    NewDemoItem {
        name: name.to_owned(),
        quantity,
        note: note.to_owned(),
    }
}

fn validation_detail(err: &AppError) -> String {
    match err {
        AppError::Validation(detail) => detail.clone(),
        other => panic!("expected a validation error, got {other:?}"),
    }
}

// ---- normalize_new ----

#[test]
fn normalize_new_trims_whitespace() {
    let out = normalize_new(new_item("  写周报  ", 1, "  备注  ")).expect("合法输入");
    assert_eq!(out.name, "写周报");
    assert_eq!(out.note, "备注");
}

#[test]
fn normalize_new_rejects_blank_name() {
    for raw in ["", "   ", "\t\n"] {
        let err = normalize_new(new_item(raw, 0, "")).expect_err("空名字应被拒");
        assert_eq!(err.code(), "E_VALIDATION");
    }
}

#[test]
fn normalize_new_counts_characters_not_bytes() {
    let ok = "中".repeat(NAME_MAX);
    assert!(normalize_new(new_item(&ok, 0, "")).is_ok());

    let too_long = "中".repeat(NAME_MAX + 1);
    let err = normalize_new(new_item(&too_long, 0, "")).expect_err("超长应被拒");
    assert_eq!(err.code(), "E_VALIDATION");
}

#[test]
fn normalize_new_rejects_out_of_range_quantity() {
    for bad in [-1, QUANTITY_MAX + 1] {
        let err = normalize_new(new_item("x", bad, "")).expect_err("越界数量应被拒");
        assert_eq!(err.code(), "E_VALIDATION");
    }
    assert!(normalize_new(new_item("x", 0, "")).is_ok());
    assert!(normalize_new(new_item("x", QUANTITY_MAX, "")).is_ok());
}

#[test]
fn normalize_new_reports_each_rule_in_order() {
    let err = normalize_new(new_item("  ", -1, "")).unwrap_err();
    assert_eq!(validation_detail(&err), "name 不能为空");

    let err = normalize_new(new_item(&"a".repeat(65), 0, "")).unwrap_err();
    assert_eq!(validation_detail(&err), "name 超过 64 个字符");

    let err = normalize_new(new_item("x", -1, &"b".repeat(NOTE_MAX + 1))).unwrap_err();
    assert_eq!(validation_detail(&err), "note 超过 512 个字符");

    let err = normalize_new(new_item("x", -1, "")).unwrap_err();
    assert_eq!(validation_detail(&err), "quantity 必须在 0..=1000000 之间");
}

#[test]
fn normalize_new_note_limit_counts_trimmed_characters() {
    let note = format!("  {}  ", "注".repeat(NOTE_MAX));
    let out = normalize_new(new_item("x", 5, &note)).expect("trimmed note fits");
    assert_eq!(out.note.chars().count(), NOTE_MAX);
    assert_eq!(out.quantity, 5);
}

#[test]
fn normalize_new_is_idempotent() {
    let once = normalize_new(new_item("\u{3000} 写周报\t", 9, "\n备注 ")).unwrap();
    let twice = normalize_new(once.clone()).unwrap();
    assert_eq!(once.name, "写周报");
    assert_eq!(twice.name, once.name);
    assert_eq!(twice.note, once.note);
    assert_eq!(twice.quantity, once.quantity);
}

// ---- normalize_patch ----

#[test]
fn normalize_patch_rejects_empty_patch() {
    let err = normalize_patch(DemoItemPatch::default()).expect_err("空 patch 应被拒");
    assert_eq!(err.code(), "E_VALIDATION");
}

#[test]
fn normalize_patch_keeps_untouched_fields_as_none() {
    let patch = normalize_patch(DemoItemPatch {
        name: Some("  新名字 ".to_owned()),
        quantity: None,
        note: None,
    })
    .expect("合法 patch");
    assert_eq!(patch.name.as_deref(), Some("新名字"));
    assert!(patch.quantity.is_none());
    assert!(patch.note.is_none());
    assert_eq!(patch.changed_fields(), vec!["name"]);
}

#[test]
fn normalize_patch_rejects_blank_name_even_when_other_fields_present() {
    let err = normalize_patch(DemoItemPatch {
        name: Some("   ".to_owned()),
        quantity: Some(1),
        note: None,
    })
    .expect_err("把名字改成空白串应被拒");
    assert_eq!(err.code(), "E_VALIDATION");
}

#[test]
fn normalize_patch_empty_patch_message() {
    let err = normalize_patch(DemoItemPatch::default()).unwrap_err();
    assert_eq!(validation_detail(&err), "patch 里没有任何要修改的字段");
}

#[test]
fn normalize_patch_trims_note_and_checks_quantity() {
    let out = normalize_patch(DemoItemPatch {
        name: None,
        quantity: Some(7),
        note: Some("  每周五  ".to_owned()),
    })
    .unwrap();
    assert_eq!(out.note.as_deref(), Some("每周五"));
    assert_eq!(out.quantity, Some(7));
    assert!(out.name.is_none());
    assert_eq!(out.changed_fields(), vec!["quantity", "note"]);

    let err = normalize_patch(DemoItemPatch {
        name: None,
        quantity: Some(QUANTITY_MAX + 1),
        note: None,
    })
    .unwrap_err();
    assert_eq!(validation_detail(&err), "quantity 必须在 0..=1000000 之间");
}

#[test]
fn changed_fields_lists_present_fields_in_order() {
    let patch = DemoItemPatch {
        name: Some(String::new()),
        quantity: Some(0),
        note: Some(String::new()),
    };
    assert_eq!(patch.changed_fields(), vec!["name", "quantity", "note"]);
    assert!(DemoItemPatch::default().changed_fields().is_empty());
}

// ---- clamp_page ----

#[test]
fn clamp_page_applies_defaults() {
    assert_eq!(clamp_page(None, None), (PAGE_DEFAULT, 0));
}

#[test]
fn clamp_page_clamps_into_range() {
    assert_eq!(clamp_page(Some(i64::MAX), None), (PAGE_MAX, 0));
    assert_eq!(clamp_page(Some(0), None), (1, 0));
    assert_eq!(clamp_page(Some(-5), None), (1, 0));
    assert_eq!(clamp_page(None, Some(-100)), (PAGE_DEFAULT, 0));
    assert_eq!(clamp_page(Some(20), Some(40)), (20, 40));
}

#[test]
fn clamp_page_is_idempotent() {
    for (l, o) in [(Some(i64::MIN), Some(i64::MIN)), (Some(500), Some(3)), (None, None)] {
        let (limit, offset) = clamp_page(l, o);
        assert_eq!(clamp_page(Some(limit), Some(offset)), (limit, offset));
    }
    assert_eq!(clamp_page(Some(PAGE_MAX), Some(i64::MAX)), (PAGE_MAX, i64::MAX));
}

// ---- database outcomes ----

#[test]
fn untouched_row_means_not_found() {
    let err = require_affected(99999, 0).unwrap_err();
    assert_eq!(err.code(), "E_NOT_FOUND");
    assert!(err.to_string().contains("99999"));
    match err {
        AppError::NotFound { entity, id } => {
            assert_eq!(entity, ENTITY);
            assert_eq!(id, 99999);
        }
        other => panic!("unexpected {other:?}"),
    }
    assert!(require_affected(3, 1).is_ok());
}

#[test]
fn missing_row_means_not_found() {
    let err = found_or_not_found(7, None).unwrap_err();
    assert_eq!(err.code(), "E_NOT_FOUND");
    assert_eq!(err.to_string(), "记录不存在：demo_item #7");

    let item = DemoItem {
        id: 7,
        name: "写周报".to_owned(),
        quantity: 3,
        note: "每周五".to_owned(),
        created_at: "2026-01-01 00:00:00".to_owned(),
        updated_at: "2026-01-01 00:00:00".to_owned(),
    };
    assert_eq!(found_or_not_found(7, Some(item.clone())).unwrap(), item);
}
