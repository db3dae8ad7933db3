//! The storage capability the registry runs on: a thin trusted boundary
//! around the embedded relational store, plus the one verified scan loop
//! that every query goes through.
//!
//! The boundary is deliberately narrow: one call per item, statements are
//! always prepared, and user-supplied values reach the query text only
//! through positional parameter binding, never by interpolation. Nothing is
//! promised of what a query yields — what comes back depends on the store —
//! so every caller states its own guarantees over the rows it is handed.

use vstd::prelude::*;

verus! {

#[verifier::external_type_specification]
#[verifier::external_body]
pub struct ExConnection(sqlite::Connection);

#[verifier::external_type_specification]
#[verifier::external_body]
pub struct ExSqliteError(sqlite::Error);

#[verifier::external_type_specification]
#[verifier::external_body]
pub struct ExStatement<'l>(sqlite::Statement<'l>);

/// A failed storage call, with the store's own description.
#[derive(Debug, PartialEq, Eq, Clone)]
pub struct StoreError {
    pub message: String,
}

/// Relies on sqlite's `Connection::execute` (`sqlite3_exec`): runs the given
/// SQL statements without reading any resulting rows; whether it succeeds
/// depends on the store alone.
#[verifier::external_body]
pub(crate) fn exec_sql(conn: &sqlite::Connection, sql: &str) -> Result<(), sqlite::Error> {
    conn.execute(sql)
}

/// Relies on sqlite's `Connection::prepare` (`sqlite3_prepare_v2`): compiles
/// one SQL statement into a prepared statement borrowed from the connection.
#[verifier::external_body]
pub(crate) fn prepare_sql<'l>(conn: &'l sqlite::Connection, sql: &str) -> Result<
    sqlite::Statement<'l>,
    sqlite::Error,
> {
    conn.prepare(sql)
}

/// Relies on sqlite's `Statement::bind` for `&str` (`sqlite3_bind_text`):
/// binds the text to the positional parameter (the first parameter has
/// index 1); an index out of range yields an error, never a panic.
#[verifier::external_body]
pub(crate) fn bind_text<'l>(
    stmt: &mut sqlite::Statement<'l>,
    index: usize,
    value: &str,
) -> Result<(), sqlite::Error> {
    stmt.bind((index, value))
}

/// Relies on sqlite's `Statement::next` (`sqlite3_step`): `true` means a row
/// is available for reading, `false` that the statement is done.
#[verifier::external_body]
pub(crate) fn step_row<'l>(stmt: &mut sqlite::Statement<'l>) -> Result<bool, sqlite::Error> {
    match stmt.next() {
        Ok(sqlite::State::Row) => Ok(true),
        Ok(sqlite::State::Done) => Ok(false),
        Err(e) => Err(e),
    }
}

/// Relies on sqlite's `Statement::column_count`: the number of columns the
/// prepared statement yields.
#[verifier::external_body]
pub(crate) fn column_count<'l>(stmt: &sqlite::Statement<'l>) -> usize {
    stmt.column_count()
}

/// Relies on sqlite's `Statement::column_name` (index form): the name of the
/// column at the index (the first column has index 0); an index out of range
/// yields an error, never a panic.
#[verifier::external_body]
pub(crate) fn column_name_at<'l>(
    stmt: &sqlite::Statement<'l>,
    index: usize,
) -> Result<String, sqlite::Error> {
    stmt.column_name(index).map(|name| name.to_string())
}

/// Relies on sqlite's `Statement::read` for `Option<String>`
/// (`sqlite3_column_text`): the textual value of the column at the index
/// (the first column has index 0), `None` for SQL NULL; an index out of
/// range or an unreadable column yields an error, never a panic.
#[verifier::external_body]
pub(crate) fn read_text_at<'l>(
    stmt: &sqlite::Statement<'l>,
    index: usize,
) -> Result<Option<String>, sqlite::Error> {
    stmt.read::<Option<String>, _>(index)
}

/// Relies on sqlite's `Display` impl for `Error`: a human-readable
/// description of the storage error.
#[verifier::external_body]
pub(crate) fn storage_error_text(e: &sqlite::Error) -> String {
    format!("{}", e)
}

/// Every row the query yields, in order, each row as its
/// `(column name, textual value)` pairs with `None` for SQL NULL.
///
/// `param`, when given, is bound to the statement's first positional
/// parameter, so a caller-supplied value can never alter the query text.
pub fn fetch_rows(conn: &sqlite::Connection, sql: &str, param: Option<&str>) -> Result<
    Vec<Vec<(String, Option<String>)>>,
    StoreError,
> {
    let mut stmt = match prepare_sql(conn, sql) {
        Ok(s) => s,
        Err(e) => return Err(StoreError { message: storage_error_text(&e) }),
    };
    match param {
        Some(p) => match bind_text(&mut stmt, 1, p) {
            Ok(()) => (),
            Err(e) => return Err(StoreError { message: storage_error_text(&e) }),
        },
        None => (),
    }
    let mut rows: Vec<Vec<(String, Option<String>)>> = Vec::new();
    let mut more = match step_row(&mut stmt) {
        Ok(b) => b,
        Err(e) => return Err(StoreError { message: storage_error_text(&e) }),
    };
    // Bounds the scan so the loop provably terminates; a store cannot hold
    // this many rows, so the guard never trips in practice.
    let mut budget: usize = usize::MAX;
    while more
        decreases budget,
    {
        if budget == 0 {
            return Err(StoreError { message: "row scan did not finish".to_owned() });
        }
        budget = budget - 1;
        let n = column_count(&stmt);
        let mut row: Vec<(String, Option<String>)> = Vec::new();
        let mut i: usize = 0;
        while i < n
            decreases n - i,
        {
            let name = match column_name_at(&stmt, i) {
                Ok(s) => s,
                Err(e) => return Err(StoreError { message: storage_error_text(&e) }),
            };
            let value = match read_text_at(&stmt, i) {
                Ok(v) => v,
                Err(e) => return Err(StoreError { message: storage_error_text(&e) }),
            };
            row.push((name, value));
            i = i + 1;
        }
        rows.push(row);
        more = match step_row(&mut stmt) {
            Ok(b) => b,
            Err(e) => return Err(StoreError { message: storage_error_text(&e) }),
        };
    }
    Ok(rows)
}

} // verus!
