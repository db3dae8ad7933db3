//! Schema bootstrap and bind-configuration resolution.
//!
//! At process start the three relations (`devices`, `services`, `config`)
//! are probed and created when absent; `config` is seeded with the default
//! bind host and port on first creation only. The bind configuration is
//! then read back from `config`, and startup fails loudly when a key is
//! missing or the stored port is not a 16-bit integer.

use vstd::prelude::*;

use crate::model::WebserverConfig;
use crate::store::{exec_sql, fetch_rows, storage_error_text};

verus! {

/// Why bootstrap failed; every case is fatal to startup.
#[derive(Debug, PartialEq, Eq, Clone)]
pub enum SchemaError {
    /// A DDL/DML or query execution failed, with the store's description.
    Storage(String),
    /// The named config key has no row.
    MissingKey(String),
    /// The stored `web_port` value does not read as a 16-bit integer.
    InvalidPort(String),
}

pub open spec fn is_digit(c: char) -> bool {
    '0' as int <= c as int && c as int <= '9' as int
}

pub open spec fn digit_val(c: char) -> int {
    c as int - '0' as int
}

pub open spec fn all_digits(s: Seq<char>) -> bool {
    forall|i: int| 0 <= i < s.len() ==> is_digit(s[i])
}

/// The number a digit string denotes, most significant digit first.
pub open spec fn digits_val(s: Seq<char>) -> int
    decreases s.len(),
{
    if s.len() == 0 {
        0
    } else {
        digits_val(s.drop_last()) * 10 + digit_val(s.last())
    }
}

/// What `parse_port` accepts: one or more decimal digits denoting a value
/// that fits in 16 bits.
pub open spec fn is_port_text(s: Seq<char>) -> bool {
    s.len() > 0 && all_digits(s) && digits_val(s) <= 65535
}

proof fn lemma_digits_val_step(s: Seq<char>, i: int)
    requires
        0 <= i < s.len(),
    ensures
        digits_val(s.subrange(0, i + 1)) == digits_val(s.subrange(0, i)) * 10 + digit_val(s[i]),
{
    let pre = s.subrange(0, i + 1);
    assert(pre.drop_last() =~= s.subrange(0, i));
    assert(pre.last() == s[i]);
}

proof fn lemma_digits_val_nonneg(s: Seq<char>)
    requires
        all_digits(s),
    ensures
        digits_val(s) >= 0,
    decreases s.len(),
{
    if s.len() > 0 {
        assert(all_digits(s.drop_last()));
        lemma_digits_val_nonneg(s.drop_last());
    }
}

/// A digit string denotes at least what any of its prefixes denotes.
proof fn lemma_digits_val_grows(s: Seq<char>, i: int)
    requires
        0 <= i <= s.len(),
        all_digits(s),
    ensures
        digits_val(s) >= digits_val(s.subrange(0, i)),
    decreases s.len() - i,
{
    if i == s.len() {
        assert(s.subrange(0, i) =~= s);
    } else {
        lemma_digits_val_grows(s, i + 1);
        lemma_digits_val_step(s, i);
        assert(all_digits(s.subrange(0, i)));
        lemma_digits_val_nonneg(s.subrange(0, i));
    }
}

/// Reads a decimal port number: `Some` exactly on digit strings whose value
/// fits in 16 bits, and then the denoted value.
pub fn parse_port(s: &str) -> (r: Option<u16>)
    ensures
        r matches Some(p) ==> is_port_text(s@) && p as int == digits_val(s@),
        r is None ==> !is_port_text(s@),
{
    let n = s.unicode_len();
    if n == 0 {
        return None;
    }
    let mut acc: u32 = 0;
    let mut i: usize = 0;
    assert(s@.subrange(0, 0) =~= Seq::<char>::empty());
    while i < n
        invariant
            n == s@.len(),
            i <= n,
            all_digits(s@.subrange(0, i as int)),
            acc as int == digits_val(s@.subrange(0, i as int)),
            acc <= 65535,
        decreases n - i,
    {
        let c = s.get_char(i);
        let x = c as u32;
        if x < 48 || x > 57 {
            assert(!is_digit(s@[i as int]));
            return None;
        }
        let d = x - 48;
        proof {
            lemma_digits_val_step(s@, i as int);
        }
        let next = acc * 10 + d;
        if next > 65535 {
            proof {
                if all_digits(s@) {
                    lemma_digits_val_grows(s@, i as int + 1);
                }
            }
            return None;
        }
        acc = next;
        i = i + 1;
    }
    assert(s@.subrange(0, n as int) =~= s@);
    Some(acc as u16)
}

/// The cell a config read takes: the value of the first column of the
/// first row, when the query yielded one that is not NULL.
pub open spec fn first_cell(rows: Seq<Vec<(String, Option<String>)>>) -> Option<Seq<char>> {
    if rows.len() > 0 && rows[0]@.len() > 0 {
        match rows[0]@[0].1 {
            Some(v) => Some(v@),
            None => None,
        }
    } else {
        None
    }
}

fn first_cell_value(rows: &Vec<Vec<(String, Option<String>)>>) -> (r: Option<String>)
    ensures
        r matches Some(v) ==> first_cell(rows@) == Some(v@),
        r is None ==> first_cell(rows@) is None,
{
    if rows.len() > 0 {
        let row = &rows[0];
        if row.len() > 0 {
            match &row[0].1 {
                Some(v) => Some(v.clone()),
                None => None,
            }
        } else {
            None
        }
    } else {
        None
    }
}

/// Resolves the bind configuration from the rows the two config reads
/// yielded. A missing `web_host` wins over a missing `web_port`; a present
/// but non-numeric port is its own error, carrying the offending text.
pub fn resolve_config(
    host_rows: &Vec<Vec<(String, Option<String>)>>,
    port_rows: &Vec<Vec<(String, Option<String>)>>,
) -> (r: Result<WebserverConfig, SchemaError>)
    ensures
        match r {
            Ok(c) => {
                &&& first_cell(host_rows@) == Some(c.host@)
                &&& first_cell(port_rows@) matches Some(p) && is_port_text(p) && c.port as int
                    == digits_val(p)
            },
            Err(SchemaError::MissingKey(k)) => {
                ||| first_cell(host_rows@) is None && k@ == "web_host"@
                ||| first_cell(host_rows@) is Some && first_cell(port_rows@) is None && k@
                    == "web_port"@
            },
            Err(SchemaError::InvalidPort(v)) => {
                &&& first_cell(host_rows@) is Some
                &&& first_cell(port_rows@) matches Some(p) && v@ == p && !is_port_text(p)
            },
            Err(SchemaError::Storage(_)) => false,
        },
{
    let host = match first_cell_value(host_rows) {
        Some(h) => h,
        None => return Err(SchemaError::MissingKey("web_host".to_owned())),
    };
    let port_text = match first_cell_value(port_rows) {
        Some(p) => p,
        None => return Err(SchemaError::MissingKey("web_port".to_owned())),
    };
    match parse_port(port_text.as_str()) {
        Some(port) => Ok(WebserverConfig { host, port }),
        None => Err(SchemaError::InvalidPort(port_text)),
    }
}

/// Probes one relation with a trivial read and issues the creation
/// statement when the probe fails. `Ok(true)` means it pre-existed.
fn ensure_relation(conn: &sqlite::Connection, probe_sql: &str, create_sql: &str) -> (r: Result<
    bool,
    SchemaError,
>)
    ensures
        r matches Err(e) ==> e is Storage,
{
    match exec_sql(conn, probe_sql) {
        Ok(()) => Ok(true),
        Err(_) => match exec_sql(conn, create_sql) {
            Ok(()) => Ok(false),
            Err(e) => Err(SchemaError::Storage(storage_error_text(&e))),
        },
    }
}

/// An abstract picture of the store as bootstrap sees it: whether each
/// relation exists, and the `config` rows.
#[verifier::ext_equal]
pub struct StoreModel {
    pub has_devices: bool,
    pub has_services: bool,
    pub has_config: bool,
    pub config: Seq<(Seq<char>, Seq<char>)>,
}

/// The two rows `config` is seeded with on first creation.
pub open spec fn seeded_config() -> Seq<(Seq<char>, Seq<char>)> {
    seq![("web_port"@, "12526"@), ("web_host"@, "0.0.0.0"@)]
}

/// What `ensure_schema` leaves behind: every relation exists, and `config`
/// keeps its rows when it pre-existed, else it holds exactly the seed.
pub open spec fn after_bootstrap(s: StoreModel) -> StoreModel {
    StoreModel {
        has_devices: true,
        has_services: true,
        has_config: true,
        config: if s.has_config {
            s.config
        } else {
            seeded_config()
        },
    }
}

/// Bootstrap is idempotent: a second run against the store the first one
/// left behind changes nothing — the three relations exist either way, and
/// the seeded config rows are not duplicated.
pub proof fn lemma_bootstrap_idempotent(s: StoreModel)
    ensures
        after_bootstrap(after_bootstrap(s)) == after_bootstrap(s),
{
}

/// Ensures the three relations exist (creating the missing ones, seeding
/// `config` on first creation only) and resolves the bind configuration;
/// its intended effect on the store is `after_bootstrap` of the store's
/// prior state. Which way each probe goes is the store's to decide; the
/// resolution of whatever the config reads yielded is exact (see
/// `resolve_config`). Every failure is fatal to startup.
pub fn ensure_schema(conn: &sqlite::Connection) -> (r: Result<WebserverConfig, SchemaError>)
    ensures
        r matches Err(SchemaError::MissingKey(k)) ==> k@ == "web_host"@ || k@ == "web_port"@,
        r matches Err(SchemaError::InvalidPort(v)) ==> !is_port_text(v@),
{
    match ensure_relation(
        conn,
        "SELECT * FROM devices",
        "CREATE TABLE devices (name TEXT, error BOOL, uuid TEXT PRIMARY KEY);",
    ) {
        Ok(_) => (),
        Err(e) => return Err(e),
    }
    match ensure_relation(
        conn,
        "SELECT * FROM services",
        "CREATE TABLE services (device TEXT, name TEXT, error BOOL, uuid TEXT PRIMARY KEY);",
    ) {
        Ok(_) => (),
        Err(e) => return Err(e),
    }
    match ensure_relation(
        conn,
        "SELECT * FROM config",
        "CREATE TABLE config (key TEXT, value TEXT);\
         INSERT INTO config (key, value) VALUES ('web_port','12526');\
         INSERT INTO config (key, value) VALUES ('web_host','0.0.0.0');",
    ) {
        Ok(_) => (),
        Err(e) => return Err(e),
    }
    let host_rows = match fetch_rows(conn, "SELECT value FROM config WHERE key = 'web_host'", None) {
        Ok(rows) => rows,
        Err(e) => return Err(SchemaError::Storage(e.message)),
    };
    let port_rows = match fetch_rows(conn, "SELECT value FROM config WHERE key = 'web_port'", None) {
        Ok(rows) => rows,
        Err(e) => return Err(SchemaError::Storage(e.message)),
    };
    resolve_config(&host_rows, &port_rows)
}

} // verus!
