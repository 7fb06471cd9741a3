use vstd::prelude::*;

use crate::text::{contains_chars, decimal, decimal_string};

verus! {

/// An error that a command can return. Each variant carries a stable code.
#[derive(Debug)]
pub enum AppError {
    /// Opening the database failed; holds the engine's description of the failure.
    DbOpen(String),
    /// A database read or write failed; holds the engine's description of the failure.
    Db(String),
    /// The record does not exist.
    NotFound { entity: &'static str, id: i64 },
    /// The input was rejected by validation.
    Validation(String),
    /// An internal invariant was broken.
    Internal(String),
}

/// The stable code of each kind of error.
pub open spec fn error_code(e: AppError) -> Seq<char> {
    match e {
        AppError::DbOpen(_) => "E_DB_OPEN"@,
        AppError::Db(_) => "E_DB_QUERY"@,
        AppError::NotFound { .. } => "E_NOT_FOUND"@,
        AppError::Validation(_) => "E_VALIDATION"@,
        AppError::Internal(_) => "E_INTERNAL"@,
    }
}

/// The human-readable message of each kind of error: a fixed prefix and the detail.
pub open spec fn error_message(e: AppError) -> Seq<char> {
    match e {
        AppError::DbOpen(detail) => "打开数据库失败："@ + detail@,
        AppError::Db(detail) => "数据库操作失败："@ + detail@,
        AppError::NotFound { entity, id } => "记录不存在："@ + entity@ + " #"@ + decimal(id as int),
        AppError::Validation(detail) => "输入不合法："@ + detail@,
        AppError::Internal(detail) => "内部错误："@ + detail@,
    }
}

/// `e` is a validation error whose detail is `detail`.
pub open spec fn is_validation_error(e: AppError, detail: Seq<char>) -> bool {
    e matches AppError::Validation(msg) && msg@ == detail
}

impl AppError {
    /// The stable error code; the front end branches on it.
    pub fn code(&self) -> (c: &'static str)
        ensures
            c@ == error_code(*self),
    {
        match self {
            AppError::DbOpen(_) => "E_DB_OPEN",
            AppError::Db(_) => "E_DB_QUERY",
            AppError::NotFound { .. } => "E_NOT_FOUND",
            AppError::Validation(_) => "E_VALIDATION",
            AppError::Internal(_) => "E_INTERNAL",
        }
    }

    /// The message shown to people: a prefix naming the kind of failure,
    /// then its detail (for a missing record, the entity and its id).
    pub fn to_string(&self) -> (m: String)
        ensures
            m@ == error_message(*self),
    {
        match self {
            AppError::DbOpen(detail) => String::from_str("打开数据库失败：").concat(detail.as_str()),
            AppError::Db(detail) => String::from_str("数据库操作失败：").concat(detail.as_str()),
            AppError::NotFound { entity, id } => {
                let digits = decimal_string(*id);
                String::from_str("记录不存在：").concat(entity).concat(" #").concat(digits.as_str())
            },
            AppError::Validation(detail) => String::from_str("输入不合法：").concat(detail.as_str()),
            AppError::Internal(detail) => String::from_str("内部错误：").concat(detail.as_str()),
        }
    }
}

/// Codes tell the kinds of error apart: two errors with the same code are
/// of the same kind, so the front end can branch on the code alone.
pub proof fn law_codes_tell_kinds_apart(a: AppError, b: AppError)
    requires
        error_code(a) == error_code(b),
    ensures
        (a is DbOpen) == (b is DbOpen),
        (a is Db) == (b is Db),
        (a is NotFound) == (b is NotFound),
        (a is Validation) == (b is Validation),
        (a is Internal) == (b is Internal),
{
    reveal_strlit("E_DB_OPEN");
    reveal_strlit("E_DB_QUERY");
    reveal_strlit("E_NOT_FOUND");
    reveal_strlit("E_VALIDATION");
    reveal_strlit("E_INTERNAL");
    assert("E_DB_OPEN"@.len() == 9);
    assert("E_DB_QUERY"@.len() == 10);
    assert("E_NOT_FOUND"@.len() == 11);
    assert("E_VALIDATION"@.len() == 12);
    assert("E_INTERNAL"@.len() == 10);
    assert("E_DB_QUERY"@[2] != "E_INTERNAL"@[2]);
}

/// The message of a missing record names its id, so a report can be traced
/// to the record; its code is `E_NOT_FOUND`.
pub proof fn law_not_found_message_names_id(entity: &'static str, id: i64)
    ensures
        contains_chars(error_message(AppError::NotFound { entity, id }), decimal(id as int)),
        error_code(AppError::NotFound { entity, id }) == "E_NOT_FOUND"@,
{
    let m = error_message(AppError::NotFound { entity, id });
    let d = decimal(id as int);
    let k = m.len() - d.len();
    assert(m.subrange(k, k + d.len()) =~= d);
}

} // verus!
