//! Domain records and their mathematical models.
//!
//! The store hands every row out as a list of `(column name, textual value)`
//! pairs, with `None` standing for SQL NULL. `record_of_columns` is the one
//! place where that textual convention is read: it folds the columns of a row
//! into a `RecordModel`, mapping `name` to the display name, `uuid` to the
//! identifier, and `error` to a boolean that is `false` exactly when the
//! stored text is the literal `"0"`. Columns with unknown names or NULL
//! values leave the record at its defaults, so a degraded row is still
//! emitted rather than failing the scan.

use vstd::prelude::*;

verus! {

/// The mathematical model of a device or service record: what the two
/// JSON endpoints speak of.
#[verifier::ext_equal]
pub struct RecordModel {
    pub name: Seq<char>,
    pub error: bool,
    pub id: Seq<char>,
}

/// A managed device as surfaced by the registry.
#[derive(Debug, PartialEq, Eq, Clone)]
pub struct Device {
    pub name: String,
    pub error: bool,
    pub id: String,
}

/// A sub-component attached to one device.
#[derive(Debug, PartialEq, Eq, Clone)]
pub struct Service {
    pub name: String,
    pub error: bool,
    pub id: String,
}

/// A device together with its (possibly empty) attached services.
#[derive(Debug, PartialEq, Eq, Clone)]
pub struct DeviceDetail {
    pub device: Device,
    pub services: Vec<Service>,
}

/// The resolved bind configuration read from the `config` relation.
#[derive(Debug, PartialEq, Eq, Clone)]
pub struct WebserverConfig {
    pub host: String,
    pub port: u16,
}

impl View for Device {
    type V = RecordModel;

    open spec fn view(&self) -> RecordModel {
        RecordModel { name: self.name@, error: self.error, id: self.id@ }
    }
}

impl View for Service {
    type V = RecordModel;

    open spec fn view(&self) -> RecordModel {
        RecordModel { name: self.name@, error: self.error, id: self.id@ }
    }
}

/// The record a row maps to before any of its columns is read.
pub open spec fn default_record() -> RecordModel {
    RecordModel {
        name: "DB Error"@,
        error: true,
        id: "00000000-0000-0000-0000-000000000000"@,
    }
}

/// How one column updates a record: recognized names overwrite their field,
/// an `error` value other than `"0"` and any unknown or NULL column leave
/// the record as it stands.
pub open spec fn apply_column(r: RecordModel, col: (Seq<char>, Option<Seq<char>>)) -> RecordModel {
    if col.0 == "name"@ {
        match col.1 {
            Some(v) => RecordModel { name: v, ..r },
            None => r,
        }
    } else if col.0 == "error"@ {
        match col.1 {
            Some(v) => if v == "0"@ {
                RecordModel { error: false, ..r }
            } else {
                r
            },
            None => r,
        }
    } else if col.0 == "uuid"@ {
        match col.1 {
            Some(v) => RecordModel { id: v, ..r },
            None => r,
        }
    } else {
        r
    }
}

/// The record a whole row maps to: the columns folded over the defaults,
/// in order.
pub open spec fn record_of_columns(cols: Seq<(Seq<char>, Option<Seq<char>>)>) -> RecordModel
    decreases cols.len(),
{
    if cols.len() == 0 {
        default_record()
    } else {
        apply_column(record_of_columns(cols.drop_last()), cols.last())
    }
}

/// A row of the standard three-column shape maps exactly: `name` to the
/// display name, `uuid` to the identifier, and the stored `error` text to
/// `false` when it is the literal `"0"` and to `true` on any other value.
pub proof fn lemma_standard_row_mapping(n: Seq<char>, e: Seq<char>, u: Seq<char>)
    ensures
        record_of_columns(seq![("name"@, Some(n)), ("error"@, Some(e)), ("uuid"@, Some(u))])
            == (RecordModel { name: n, error: e != "0"@, id: u }),
{
    reveal_strlit("name");
    reveal_strlit("error");
    reveal_strlit("uuid");
    let c0 = Seq::<(Seq<char>, Option<Seq<char>>)>::empty();
    let c1 = seq![("name"@, Some(n))];
    let c2 = seq![("name"@, Some(n)), ("error"@, Some(e))];
    let c3 = seq![("name"@, Some(n)), ("error"@, Some(e)), ("uuid"@, Some(u))];
    assert("name"@ != "error"@ && "uuid"@ != "name"@ && "uuid"@ != "error"@) by {
        assert("name"@[0] == 'n' && "error"@[0] == 'e' && "uuid"@[0] == 'u');
    }
    assert(record_of_columns(c0) == default_record());
    assert(c1.drop_last() =~= c0 && c1.last() == ("name"@, Some(n)));
    assert(record_of_columns(c1) == apply_column(default_record(), ("name"@, Some(n))));
    let r1 = apply_column(default_record(), ("name"@, Some(n)));
    assert(r1 =~= (RecordModel { name: n, error: true, id: default_record().id }));
    assert(c2.drop_last() =~= c1 && c2.last() == ("error"@, Some(e)));
    assert(record_of_columns(c2) == apply_column(r1, ("error"@, Some(e))));
    let r2 = apply_column(r1, ("error"@, Some(e)));
    assert(r2 =~= (RecordModel { name: n, error: e != "0"@, id: default_record().id }));
    assert(c3.drop_last() =~= c2 && c3.last() == ("uuid"@, Some(u)));
    assert(record_of_columns(c3) == apply_column(r2, ("uuid"@, Some(u))));
    assert(apply_column(r2, ("uuid"@, Some(u))) =~= (RecordModel {
        name: n,
        error: e != "0"@,
        id: u,
    }));
}

} // verus!
