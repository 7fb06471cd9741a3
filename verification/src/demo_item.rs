//! The `demo_item` records: their shapes, the rules that new records and
//! partial updates must meet, paging bounds, and how a database outcome
//! becomes a result for the caller.

use vstd::prelude::*;

use crate::error::{is_validation_error, AppError};
use crate::text::{
    decimal, decimal_string, lemma_trimmed_idempotent, trim_to_owned, trimmed,
};

verus! {

// ---------- limits: the single source for validation and paging ----------

/// Most characters a `name` may have.
pub const NAME_MAX: usize = 64;

/// Most characters a `note` may have.
pub const NOTE_MAX: usize = 512;

/// Largest accepted `quantity` (a stock count; negative counts are refused).
pub const QUANTITY_MAX: i64 = 1_000_000;

/// Page size used when the caller names none.
pub const PAGE_DEFAULT: i64 = 50;

/// Largest page size; a caller cannot pull the whole table in one request.
pub const PAGE_MAX: i64 = 200;

/// Entity name reported by `NotFound`.
pub const ENTITY: &'static str = "demo_item";

// ---------- shapes ----------

/// A stored record.
#[derive(Debug, Clone, PartialEq, Eq)]
pub struct DemoItem {
    pub id: i64,
    pub name: String,
    pub quantity: i64,
    pub note: String,
    pub created_at: String,
    pub updated_at: String,
}

/// Input of a creation (the database assigns id and timestamps).
#[derive(Debug, Clone)]
pub struct NewDemoItem {
    pub name: String,
    pub quantity: i64,
    pub note: String,
}

/// Input of a partial update: `None` means "leave this field as it is".
#[derive(Debug, Clone, Default)]
pub struct DemoItemPatch {
    pub name: Option<String>,
    pub quantity: Option<i64>,
    pub note: Option<String>,
}

/// One page of a listing.
#[derive(Debug, Clone)]
pub struct Page<T> {
    pub items: Vec<T>,
    pub total: i64,
    pub limit: i64,
    pub offset: i64,
}

/// What a creation input holds, with texts as character sequences.
pub struct NewItemView {
    pub name: Seq<char>,
    pub quantity: i64,
    pub note: Seq<char>,
}

impl View for NewDemoItem {
    type V = NewItemView;

    open spec fn view(&self) -> NewItemView {
        NewItemView { name: self.name@, quantity: self.quantity, note: self.note@ }
    }
}

/// What a patch holds, with texts as character sequences.
pub struct PatchView {
    pub name: Option<Seq<char>>,
    pub quantity: Option<i64>,
    pub note: Option<Seq<char>>,
}

/// The characters of an optional text.
pub open spec fn opt_chars(s: Option<String>) -> Option<Seq<char>> {
    match s {
        Some(t) => Some(t@),
        None => None,
    }
}

impl View for DemoItemPatch {
    type V = PatchView;

    open spec fn view(&self) -> PatchView {
        PatchView {
            name: opt_chars(self.name),
            quantity: self.quantity,
            note: opt_chars(self.note),
        }
    }
}

// ---------- rules ----------

/// Detail of the error for a text longer than its limit, such as
/// `name 超过 64 个字符`.
pub open spec fn too_long_message(field: Seq<char>, max: int) -> Seq<char> {
    field + " 超过 "@ + decimal(max) + " 个字符"@
}

/// Why a (trimmed) name is refused, if it is.
pub open spec fn name_problem(name: Seq<char>) -> Option<Seq<char>> {
    if name.len() == 0 {
        Some("name 不能为空"@)
    } else if name.len() > NAME_MAX {
        Some(too_long_message("name"@, NAME_MAX as int))
    } else {
        None
    }
}

/// Why a (trimmed) note is refused, if it is.
pub open spec fn note_problem(note: Seq<char>) -> Option<Seq<char>> {
    if note.len() > NOTE_MAX {
        Some(too_long_message("note"@, NOTE_MAX as int))
    } else {
        None
    }
}

/// Why a quantity is refused, if it is: it must lie in `0..=QUANTITY_MAX`.
pub open spec fn quantity_problem(quantity: i64) -> Option<Seq<char>> {
    if !(0 <= quantity <= QUANTITY_MAX) {
        Some("quantity 必须在 0..="@ + decimal(QUANTITY_MAX as int) + " 之间"@)
    } else {
        None
    }
}

/// A creation input with its texts trimmed.
pub open spec fn normalized_new(v: NewItemView) -> NewItemView {
    NewItemView { name: trimmed(v.name), quantity: v.quantity, note: trimmed(v.note) }
}

/// The first rule, in the order name, note, quantity, that a normalized
/// creation input breaks.
pub open spec fn new_item_problem(v: NewItemView) -> Option<Seq<char>> {
    if name_problem(v.name) is Some {
        name_problem(v.name)
    } else if note_problem(v.note) is Some {
        note_problem(v.note)
    } else {
        quantity_problem(v.quantity)
    }
}

/// An optional text, trimmed when present.
pub open spec fn opt_trimmed(s: Option<Seq<char>>) -> Option<Seq<char>> {
    match s {
        Some(t) => Some(trimmed(t)),
        None => None,
    }
}

/// A patch with its present texts trimmed; absent fields stay absent.
pub open spec fn normalized_patch(p: PatchView) -> PatchView {
    PatchView { name: opt_trimmed(p.name), quantity: p.quantity, note: opt_trimmed(p.note) }
}

/// Names of the fields a patch changes, in the order name, quantity, note.
pub open spec fn changed_field_names(p: PatchView) -> Seq<Seq<char>> {
    (if p.name is Some { seq!["name"@] } else { Seq::empty() })
    + (if p.quantity is Some { seq!["quantity"@] } else { Seq::empty() })
    + (if p.note is Some { seq!["note"@] } else { Seq::empty() })
}

/// Detail of the error for a patch that changes nothing.
pub open spec fn empty_patch_message() -> Seq<char> {
    "patch 里没有任何要修改的字段"@
}

/// The first rule, in the order name, note, quantity, emptiness, that a
/// normalized patch breaks.
pub open spec fn patch_problem(p: PatchView) -> Option<Seq<char>> {
    if p.name is Some && name_problem(p.name->0) is Some {
        name_problem(p.name->0)
    } else if p.note is Some && note_problem(p.note->0) is Some {
        note_problem(p.note->0)
    } else if p.quantity is Some && quantity_problem(p.quantity->0) is Some {
        quantity_problem(p.quantity->0)
    } else if changed_field_names(p).len() == 0 {
        Some(empty_patch_message())
    } else {
        None
    }
}

fn too_long_error(field: &str, max: usize) -> (e: AppError)
    requires
        max <= i64::MAX,
    ensures
        is_validation_error(e, too_long_message(field@, max as int)),
{
    let digits = decimal_string(max as i64);
    AppError::Validation(String::from_str(field).concat(" 超过 ").concat(digits.as_str()).concat(" 个字符"))
}

fn validate_name(name: &str) -> (r: Result<(), AppError>)
    ensures
        match name_problem(name@) {
            Some(m) => r matches Err(e) && is_validation_error(e, m),
            None => r is Ok,
        },
{
    let n = name.unicode_len();
    if n == 0 {
        return Err(AppError::Validation(String::from_str("name 不能为空")));
    }
    if n > NAME_MAX {
        return Err(too_long_error("name", NAME_MAX));
    }
    Ok(())
}

fn validate_note(note: &str) -> (r: Result<(), AppError>)
    ensures
        match note_problem(note@) {
            Some(m) => r matches Err(e) && is_validation_error(e, m),
            None => r is Ok,
        },
{
    if note.unicode_len() > NOTE_MAX {
        return Err(too_long_error("note", NOTE_MAX));
    }
    Ok(())
}

fn validate_quantity(quantity: i64) -> (r: Result<(), AppError>)
    ensures
        match quantity_problem(quantity) {
            Some(m) => r matches Err(e) && is_validation_error(e, m),
            None => r is Ok,
        },
{
    if !(0 <= quantity && quantity <= QUANTITY_MAX) {
        let digits = decimal_string(QUANTITY_MAX);
        return Err(AppError::Validation(
            String::from_str("quantity 必须在 0..=").concat(digits.as_str()).concat(" 之间"),
        ));
    }
    Ok(())
}

/// Trims a creation input and checks it: the name must be non-empty and at
/// most `NAME_MAX` characters, the note at most `NOTE_MAX` characters, the
/// quantity within `0..=QUANTITY_MAX`. The first broken rule is reported.
pub fn normalize_new(input: NewDemoItem) -> (r: Result<NewDemoItem, AppError>)
    ensures
        match new_item_problem(normalized_new(input@)) {
            Some(m) => r matches Err(e) && is_validation_error(e, m),
            None => r matches Ok(out) && out@ == normalized_new(input@),
        },
{
    let name = trim_to_owned(input.name.as_str());
    validate_name(name.as_str())?;

    let note = trim_to_owned(input.note.as_str());
    validate_note(note.as_str())?;
    validate_quantity(input.quantity)?;

    Ok(NewDemoItem { name, quantity: input.quantity, note })
}

impl DemoItemPatch {
    /// Names of the fields this patch changes, in the order name, quantity,
    /// note. Used for logging and for refusing an empty patch.
    pub fn changed_fields(&self) -> (out: Vec<&'static str>)
        ensures
            out@.map_values(|f: &'static str| f@) == changed_field_names(self@),
    {
        let mut out: Vec<&'static str> = Vec::new();
        if self.name.is_some() {
            out.push("name");
        }
        if self.quantity.is_some() {
            out.push("quantity");
        }
        if self.note.is_some() {
            out.push("note");
        }
        proof {
            assert(out@.map_values(|f: &'static str| f@) =~= changed_field_names(self@));
        }
        out
    }
}

/// Trims and checks the fields a patch carries, with the rules of
/// `normalize_new`; absent fields stay absent. A patch that changes nothing
/// is refused. The first broken rule, in the order name, note, quantity,
/// emptiness, is reported.
pub fn normalize_patch(patch: DemoItemPatch) -> (r: Result<DemoItemPatch, AppError>)
    ensures
        match patch_problem(normalized_patch(patch@)) {
            Some(m) => r matches Err(e) && is_validation_error(e, m),
            None => r matches Ok(out) && out@ == normalized_patch(patch@),
        },
{
    let name = match patch.name {
        Some(raw) => {
            let trimmed_name = trim_to_owned(raw.as_str());
            validate_name(trimmed_name.as_str())?;
            Some(trimmed_name)
        },
        None => None,
    };
    let note = match patch.note {
        Some(raw) => {
            let trimmed_note = trim_to_owned(raw.as_str());
            validate_note(trimmed_note.as_str())?;
            Some(trimmed_note)
        },
        None => None,
    };
    if let Some(q) = patch.quantity {
        validate_quantity(q)?;
    }

    let out = DemoItemPatch { name, quantity: patch.quantity, note };
    // A patch that changes nothing is usually a front-end slip; saying so
    // beats pretending the update happened.
    if out.changed_fields().len() == 0 {
        return Err(AppError::Validation(String::from_str("patch 里没有任何要修改的字段")));
    }
    Ok(out)
}

/// The page size used for `limit`: the default when absent, then held
/// within `1..=PAGE_MAX`.
pub open spec fn clamped_limit(limit: Option<i64>) -> i64 {
    let l = match limit {
        Some(l) => l,
        None => PAGE_DEFAULT,
    };
    if l < 1 {
        1
    } else if l > PAGE_MAX {
        PAGE_MAX
    } else {
        l
    }
}

/// The offset used for `offset`: zero when absent or negative.
pub open spec fn clamped_offset(offset: Option<i64>) -> i64 {
    let o = match offset {
        Some(o) => o,
        None => 0,
    };
    if o < 0 {
        0
    } else {
        o
    }
}

/// `v` held within `lo..=hi`, as `Ord::clamp` computes it.
fn clamp_i64(v: i64, lo: i64, hi: i64) -> (r: i64)
    requires
        lo <= hi,
    ensures
        r == (if v < lo { lo } else if v > hi { hi } else { v }),
{
    if v < lo {
        lo
    } else if v > hi {
        hi
    } else {
        v
    }
}

/// The larger of `a` and `b`, as `Ord::max` computes it.
fn max_i64(a: i64, b: i64) -> (r: i64)
    ensures
        r == (if a < b { b } else { a }),
{
    if a < b {
        b
    } else {
        a
    }
}

/// Brings paging arguments into range, silently: returns `(limit, offset)`.
pub fn clamp_page(limit: Option<i64>, offset: Option<i64>) -> (r: (i64, i64))
    ensures
        r == (clamped_limit(limit), clamped_offset(offset)),
{
    let limit = clamp_i64(limit.unwrap_or(PAGE_DEFAULT), 1, PAGE_MAX);
    let offset = max_i64(offset.unwrap_or(0), 0);
    (limit, offset)
}

// ---------- laws ----------

/// An accepted creation input meets every rule: its name is trimmed,
/// non-empty and at most `NAME_MAX` characters, its note is trimmed and at
/// most `NOTE_MAX` characters, and its quantity lies in `0..=QUANTITY_MAX`.
pub proof fn law_accepted_new_item_meets_rules(v: NewItemView)
    requires
        new_item_problem(normalized_new(v)) is None,
    ensures
        ({
            let out = normalized_new(v);
            &&& trimmed(out.name) == out.name
            &&& trimmed(out.note) == out.note
            &&& 0 < out.name.len() <= NAME_MAX
            &&& out.note.len() <= NOTE_MAX
            &&& 0 <= out.quantity <= QUANTITY_MAX
            &&& out.quantity == v.quantity
        }),
{
    lemma_trimmed_idempotent(v.name);
    lemma_trimmed_idempotent(v.note);
}

/// Normalizing is idempotent: feeding an accepted creation input back
/// through `normalize_new` accepts it again, unchanged.
pub proof fn law_normalize_new_idempotent(v: NewItemView)
    requires
        new_item_problem(normalized_new(v)) is None,
    ensures
        new_item_problem(normalized_new(normalized_new(v))) is None,
        normalized_new(normalized_new(v)) == normalized_new(v),
{
    lemma_trimmed_idempotent(v.name);
    lemma_trimmed_idempotent(v.note);
}

/// A blank name (empty or only whitespace) is always refused, whatever the
/// other fields hold, with the detail "name 不能为空".
pub proof fn law_blank_name_refused(v: NewItemView)
    requires
        trimmed(v.name).len() == 0,
    ensures
        new_item_problem(normalized_new(v)) == Some("name 不能为空"@),
{
}

/// A patch keeps the meaning of `None`: a field absent from the input stays
/// absent after normalizing (it is never turned into an empty value), and a
/// present field stays present.
pub proof fn law_patch_keeps_absent_fields(p: PatchView)
    ensures
        (normalized_patch(p).name is None) == (p.name is None),
        normalized_patch(p).quantity == p.quantity,
        (normalized_patch(p).note is None) == (p.note is None),
{
}

/// An accepted patch changes at least one field, and feeding it back
/// through `normalize_patch` accepts it again, unchanged.
pub proof fn law_accepted_patch(p: PatchView)
    requires
        patch_problem(normalized_patch(p)) is None,
    ensures
        changed_field_names(normalized_patch(p)).len() > 0,
        patch_problem(normalized_patch(normalized_patch(p))) is None,
        normalized_patch(normalized_patch(p)) == normalized_patch(p),
{
    if p.name is Some {
        lemma_trimmed_idempotent(p.name->0);
    }
    if p.note is Some {
        lemma_trimmed_idempotent(p.note->0);
    }
    assert(normalized_patch(normalized_patch(p)) == normalized_patch(p));
}

/// The patch that changes nothing is refused.
pub proof fn law_empty_patch_refused()
    ensures
        patch_problem(normalized_patch(PatchView { name: None, quantity: None, note: None }))
            == Some(empty_patch_message()),
{
    assert(changed_field_names(PatchView { name: None, quantity: None, note: None }).len() == 0);
}

/// `changed_fields` is empty exactly when every field of the patch is absent.
pub proof fn law_changed_fields_empty_iff_no_field(p: PatchView)
    ensures
        (changed_field_names(p).len() == 0) == (p.name is None && p.quantity is None && p.note is None),
{
}

/// Paging always yields a page size in `1..=PAGE_MAX` and an offset of at
/// least zero; values already in range pass through unchanged, so clamping
/// a clamped pair changes nothing.
pub proof fn law_clamp_page_in_range(limit: Option<i64>, offset: Option<i64>)
    ensures
        1 <= clamped_limit(limit) <= PAGE_MAX,
        0 <= clamped_offset(offset),
        limit matches Some(l) ==> (1 <= l <= PAGE_MAX ==> clamped_limit(limit) == l),
        offset matches Some(o) ==> (0 <= o ==> clamped_offset(offset) == o),
        clamped_limit(Some(clamped_limit(limit))) == clamped_limit(limit),
        clamped_offset(Some(clamped_offset(offset))) == clamped_offset(offset),
{
}

/// A creation input is accepted exactly when its trimmed name has between 1
/// and `NAME_MAX` characters, its trimmed note at most `NOTE_MAX`
/// characters, and its quantity lies in `0..=QUANTITY_MAX`; no other rule
/// refuses it. The accepted record is the input with name and note trimmed
/// and the quantity unchanged.
pub proof fn law_new_item_accepted_iff_rules_hold(v: NewItemView)
    ensures
        (new_item_problem(normalized_new(v)) is None) == (1 <= trimmed(v.name).len() <= NAME_MAX
            && trimmed(v.note).len() <= NOTE_MAX && 0 <= v.quantity <= QUANTITY_MAX),
        normalized_new(v).name == trimmed(v.name),
        normalized_new(v).note == trimmed(v.note),
        normalized_new(v).quantity == v.quantity,
{
}

/// A patch is accepted exactly when it carries at least one field and every
/// field it carries meets its rule (trimmed name of 1 to `NAME_MAX`
/// characters, trimmed note of at most `NOTE_MAX` characters, quantity in
/// `0..=QUANTITY_MAX`); it is refused as empty exactly when all three
/// fields are absent. The accepted patch trims the present texts, keeps the
/// quantity, and leaves absent fields absent.
pub proof fn law_patch_accepted_iff_rules_hold(p: PatchView)
    ensures
        (patch_problem(normalized_patch(p)) is None) == ((p.name is Some || p.quantity is Some
            || p.note is Some) && (p.name matches Some(n) ==> 1 <= trimmed(n).len() <= NAME_MAX)
            && (p.note matches Some(t) ==> trimmed(t).len() <= NOTE_MAX) && (p.quantity matches Some(
            q,
        ) ==> 0 <= q <= QUANTITY_MAX)),
        (p.name is None && p.quantity is None && p.note is None) ==> patch_problem(
            normalized_patch(p),
        ) == Some("patch 里没有任何要修改的字段"@),
        p.name matches Some(n) ==> normalized_patch(p).name == Some(trimmed(n)),
        p.note matches Some(t) ==> normalized_patch(p).note == Some(trimmed(t)),
        p.name is None ==> normalized_patch(p).name is None,
        p.note is None ==> normalized_patch(p).note is None,
        normalized_patch(p).quantity == p.quantity,
{
}

/// `changed_fields` names exactly the fields a patch carries, each once:
/// "name" when the name is present, "quantity" when the quantity is, "note"
/// when the note is, in that order.
pub proof fn law_changed_fields_names_present_fields(p: PatchView)
    ensures
        changed_field_names(p).len() == (if p.name is Some { 1int } else { 0 }) + (if p.quantity is Some {
            1int
        } else {
            0
        }) + (if p.note is Some { 1int } else { 0 }),
        changed_field_names(p).contains("name"@) == (p.name is Some),
        changed_field_names(p).contains("quantity"@) == (p.quantity is Some),
        changed_field_names(p).contains("note"@) == (p.note is Some),
        p.name is Some ==> changed_field_names(p)[0] == "name"@,
        p.note is Some ==> changed_field_names(p).last() == "note"@,
{
    reveal_strlit("name");
    reveal_strlit("quantity");
    reveal_strlit("note");
    assert("name"@.len() == 4);
    assert("note"@.len() == 4);
    assert("quantity"@.len() == 8);
    assert("name"@[1] != "note"@[1]);
    let c = changed_field_names(p);
    let a: Seq<Seq<char>> = if p.name is Some { seq!["name"@] } else { Seq::empty() };
    let b: Seq<Seq<char>> = if p.quantity is Some { seq!["quantity"@] } else { Seq::empty() };
    let d: Seq<Seq<char>> = if p.note is Some { seq!["note"@] } else { Seq::empty() };
    assert(c =~= a + b + d);
    if p.name is Some {
        assert(c[0] == "name"@);
    }
    if p.quantity is Some {
        assert(c[a.len() as int] == "quantity"@);
    }
    if p.note is Some {
        assert(c[(a.len() + b.len()) as int] == "note"@);
    }
    assert(c.contains("name"@) ==> p.name is Some);
    assert(c.contains("quantity"@) ==> p.quantity is Some);
    assert(c.contains("note"@) ==> p.note is Some);
}

/// Paging outside its range is brought to the nearest bound: an absent
/// limit is `PAGE_DEFAULT`, a limit above `PAGE_MAX` becomes `PAGE_MAX`, one
/// below 1 becomes 1; an absent or negative offset becomes 0.
pub proof fn law_clamp_page_to_nearest_bound(limit: Option<i64>, offset: Option<i64>)
    ensures
        limit is None ==> clamped_limit(limit) == PAGE_DEFAULT,
        limit matches Some(l) ==> (l > PAGE_MAX ==> clamped_limit(limit) == PAGE_MAX),
        limit matches Some(l) ==> (l < 1 ==> clamped_limit(limit) == 1),
        offset is None ==> clamped_offset(offset) == 0,
        offset matches Some(o) ==> (o < 0 ==> clamped_offset(offset) == 0),
{
}

/// Clamping never reverses an order: a larger requested limit (or offset)
/// never yields a smaller one.
pub proof fn law_clamp_page_monotone(a: i64, b: i64)
    requires
        a <= b,
    ensures
        clamped_limit(Some(a)) <= clamped_limit(Some(b)),
        clamped_offset(Some(a)) <= clamped_offset(Some(b)),
{
}

// ---------- database outcomes ----------

/// The error for a `demo_item` record that does not exist.
pub open spec fn not_found(id: i64) -> AppError {
    AppError::NotFound { entity: ENTITY, id }
}

/// A missing record is reported with its own id, under the entity name
/// `demo_item`, with the code `E_NOT_FOUND`.
pub proof fn law_not_found_names_the_record(id: i64)
    ensures
        not_found(id) matches AppError::NotFound { entity, id: reported } && reported == id
            && entity@ == "demo_item"@,
        crate::error::error_code(not_found(id)) == "E_NOT_FOUND"@,
{
}

/// The outcome of an update or delete of record `id` that touched
/// `affected` rows. Touching no row means the record does not exist; that is
/// reported, never taken for success (the caller would otherwise believe a
/// change happened).
pub fn require_affected(id: i64, affected: usize) -> (r: Result<(), AppError>)
    ensures
        affected == 0 ==> r == Err::<(), AppError>(not_found(id)),
        affected > 0 ==> r is Ok,
{
    if affected == 0 {
        return Err(AppError::NotFound { entity: ENTITY, id });
    }
    Ok(())
}

/// The outcome of reading record `id`: the row when there is one,
/// otherwise `NotFound` for that id.
pub fn found_or_not_found(id: i64, row: Option<DemoItem>) -> (r: Result<DemoItem, AppError>)
    ensures
        row matches Some(item) ==> r == Ok::<DemoItem, AppError>(item),
        row is None ==> r == Err::<DemoItem, AppError>(not_found(id)),
{
    match row {
        Some(item) => Ok(item),
        None => Err(AppError::NotFound { entity: ENTITY, id }),
    }
}

} // verus!
