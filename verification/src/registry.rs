//! The read-only query layer: scans of the `devices` and `services`
//! relations, and the verified mapping from stored rows to domain records.
//!
//! Every mapping function is exact: the record it returns is
//! `record_of_columns` of the row it was handed, so the `"0"`-means-false
//! convention and the graceful handling of unknown or NULL columns are
//! pinned down once, in the model.

use vstd::prelude::*;

use crate::model::{
    apply_column, record_of_columns, Device, DeviceDetail, RecordModel, Service,
};
use crate::store::{fetch_rows, StoreError};

verus! {

/// Content equality on string slices.
fn str_is(a: &str, b: &str) -> (r: bool)
    ensures
        r == (a@ == b@),
{
    let sa: String = a.to_owned();
    let sb: String = b.to_owned();
    sa == sb
}

/// Folding one more column into a record keeps the fold of the prefix.
proof fn lemma_record_fold_step(cols: Seq<(Seq<char>, Option<Seq<char>>)>, i: int)
    requires
        0 <= i < cols.len(),
    ensures
        record_of_columns(cols.subrange(0, i + 1)) == apply_column(
            record_of_columns(cols.subrange(0, i)),
            cols[i],
        ),
{
    let pre = cols.subrange(0, i + 1);
    assert(pre.drop_last() =~= cols.subrange(0, i));
    assert(pre.last() == cols[i]);
}

/// The three fields a row maps to: display name, error flag, identifier.
fn record_fields(row: &Vec<(String, Option<String>)>) -> (r: (String, bool, String))
    ensures
        (RecordModel { name: r.0@, error: r.1, id: r.2@ }) == record_of_columns(row.deep_view()),
{
    let mut name: String = "DB Error".to_owned();
    let mut error: bool = true;
    let mut id: String = "00000000-0000-0000-0000-000000000000".to_owned();
    assert(row.deep_view().subrange(0, 0) =~= Seq::<(Seq<char>, Option<Seq<char>>)>::empty());
    let n = row.len();
    let mut i: usize = 0;
    while i < n
        invariant
            n == row.len(),
            i <= n,
            row.deep_view().len() == row@.len(),
            (RecordModel { name: name@, error, id: id@ }) == record_of_columns(
                row.deep_view().subrange(0, i as int),
            ),
        decreases n - i,
    {
        let col = &row[i];
        assert(row.deep_view()[i as int] == row@[i as int].deep_view());
        if str_is(col.0.as_str(), "name") {
            match &col.1 {
                Some(v) => {
                    name = v.clone();
                },
                None => (),
            }
        } else if str_is(col.0.as_str(), "error") {
            match &col.1 {
                Some(v) => {
                    if str_is(v.as_str(), "0") {
                        error = false;
                    }
                },
                None => (),
            }
        } else if str_is(col.0.as_str(), "uuid") {
            match &col.1 {
                Some(v) => {
                    id = v.clone();
                },
                None => (),
            }
        }
        proof {
            lemma_record_fold_step(row.deep_view(), i as int);
        }
        i = i + 1;
    }
    assert(row.deep_view().subrange(0, n as int) =~= row.deep_view());
    (name, error, id)
}

/// Maps one `devices` row to a `Device`.
pub fn device_from_row(row: &Vec<(String, Option<String>)>) -> (d: Device)
    ensures
        d@ == record_of_columns(row.deep_view()),
{
    let f = record_fields(row);
    Device { name: f.0, error: f.1, id: f.2 }
}

/// Maps one `services` row to a `Service`.
pub fn service_from_row(row: &Vec<(String, Option<String>)>) -> (s: Service)
    ensures
        s@ == record_of_columns(row.deep_view()),
{
    let f = record_fields(row);
    Service { name: f.0, error: f.1, id: f.2 }
}

/// Maps a whole `devices` scan, row by row, in order. An empty scan yields
/// an empty sequence.
pub fn devices_from_rows(rows: &Vec<Vec<(String, Option<String>)>>) -> (ds: Vec<Device>)
    ensures
        ds@.len() == rows@.len(),
        forall|j: int|
            0 <= j < rows@.len() ==> ds@[j]@ == record_of_columns(rows@[j].deep_view()),
{
    let mut ds: Vec<Device> = Vec::new();
    let n = rows.len();
    let mut i: usize = 0;
    while i < n
        invariant
            n == rows.len(),
            i <= n,
            ds@.len() == i,
            forall|j: int|
                0 <= j < i ==> ds@[j]@ == record_of_columns(rows@[j].deep_view()),
        decreases n - i,
    {
        ds.push(device_from_row(&rows[i]));
        i = i + 1;
    }
    ds
}

/// Maps a whole `services` scan, row by row, in order.
pub fn services_from_rows(rows: &Vec<Vec<(String, Option<String>)>>) -> (ss: Vec<Service>)
    ensures
        ss@.len() == rows@.len(),
        forall|j: int|
            0 <= j < rows@.len() ==> ss@[j]@ == record_of_columns(rows@[j].deep_view()),
{
    let mut ss: Vec<Service> = Vec::new();
    let n = rows.len();
    let mut i: usize = 0;
    while i < n
        invariant
            n == rows.len(),
            i <= n,
            ss@.len() == i,
            forall|j: int|
                0 <= j < i ==> ss@[j]@ == record_of_columns(rows@[j].deep_view()),
        decreases n - i,
    {
        ss.push(service_from_row(&rows[i]));
        i = i + 1;
    }
    ss
}

/// Combines the two lookups of the device-detail view: nothing when no
/// device row matched, otherwise the device of the first row together with
/// every service row mapped, whether or not any services exist.
pub fn detail_from_rows(
    device_rows: &Vec<Vec<(String, Option<String>)>>,
    service_rows: &Vec<Vec<(String, Option<String>)>>,
) -> (r: Option<DeviceDetail>)
    ensures
        (r is Some) <==> device_rows@.len() > 0,
        r matches Some(d) ==> {
            &&& d.device@ == record_of_columns(device_rows@[0].deep_view())
            &&& d.services@.len() == service_rows@.len()
            &&& forall|j: int|
                0 <= j < service_rows@.len() ==> d.services@[j]@ == record_of_columns(
                    service_rows@[j].deep_view(),
                )
        },
{
    if device_rows.len() == 0 {
        None
    } else {
        let device = device_from_row(&device_rows[0]);
        let services = services_from_rows(service_rows);
        Some(DeviceDetail { device, services })
    }
}

/// An unfiltered scan of `devices`, each row mapped to a `Device`. Which
/// rows come back is the store's to decide; the mapping of whatever came
/// back is exact (see `devices_from_rows`). Never fails on an empty table:
/// that is an empty list.
pub fn list_devices(conn: &sqlite::Connection) -> (r: Result<Vec<Device>, StoreError>) {
    let rows = match fetch_rows(conn, "SELECT * FROM devices", None) {
        Ok(rows) => rows,
        Err(e) => return Err(e),
    };
    Ok(devices_from_rows(&rows))
}

/// Looks up at most one device by its exact identifier, plus every service
/// row attached to it. The identifier reaches both queries only as a bound
/// parameter. `Ok(None)` exactly when no device row matched (see
/// `detail_from_rows` for the shape of a hit).
pub fn get_device(conn: &sqlite::Connection, id: &str) -> (r: Result<
    Option<DeviceDetail>,
    StoreError,
>) {
    let device_rows = match fetch_rows(conn, "SELECT * FROM devices WHERE uuid = ? LIMIT 1", Some(id)) {
        Ok(rows) => rows,
        Err(e) => return Err(e),
    };
    let service_rows = match fetch_rows(conn, "SELECT * FROM services WHERE device = ?", Some(id)) {
        Ok(rows) => rows,
        Err(e) => return Err(e),
    };
    Ok(detail_from_rows(&device_rows, &service_rows))
}

} // verus!
