//! The two read endpoints' bodies and status codes.
//!
//! JSON is built here, and only here: `record_json` fixes the shape of one
//! record (`{"name":...,"error":...,"id":...}`, with booleans as JSON
//! `true`/`false` — the storage layer's textual convention never reaches a
//! response), `devices_json` and `device_detail_json` the two success
//! bodies, and `not_found_json` the 404 body naming the missing id. String
//! values are escaped as JSON asks: quote, backslash and control characters
//! only.

use vstd::prelude::*;

use crate::model::{Device, DeviceDetail, RecordModel, Service};
use crate::registry::{get_device, list_devices};
use crate::store::StoreError;

verus! {

/// The lower-case hex digit for a value below 16.
pub open spec fn hex_digit(n: int) -> char {
    if n == 0 {
        '0'
    } else if n == 1 {
        '1'
    } else if n == 2 {
        '2'
    } else if n == 3 {
        '3'
    } else if n == 4 {
        '4'
    } else if n == 5 {
        '5'
    } else if n == 6 {
        '6'
    } else if n == 7 {
        '7'
    } else if n == 8 {
        '8'
    } else if n == 9 {
        '9'
    } else if n == 10 {
        'a'
    } else if n == 11 {
        'b'
    } else if n == 12 {
        'c'
    } else if n == 13 {
        'd'
    } else if n == 14 {
        'e'
    } else {
        'f'
    }
}

/// How one character appears inside a JSON string: quote and backslash are
/// escaped, control characters take their short escape or the `\u00..`
/// form, everything else stands as it is.
pub open spec fn escape_char(c: char) -> Seq<char> {
    if c == '"' {
        "\\\""@
    } else if c == '\\' {
        "\\\\"@
    } else if c == '\u{0008}' {
        "\\b"@
    } else if c == '\t' {
        "\\t"@
    } else if c == '\n' {
        "\\n"@
    } else if c == '\u{000C}' {
        "\\f"@
    } else if c == '\r' {
        "\\r"@
    } else if (c as int) < 32 {
        "\\u00"@ + seq![hex_digit((c as int) / 16), hex_digit((c as int) % 16)]
    } else {
        seq![c]
    }
}

/// A whole text escaped, character by character.
pub open spec fn escape_text(s: Seq<char>) -> Seq<char>
    decreases s.len(),
{
    if s.len() == 0 {
        Seq::empty()
    } else {
        escape_text(s.drop_last()) + escape_char(s.last())
    }
}

/// A JSON string literal: the escaped text between quotes.
pub open spec fn json_string(s: Seq<char>) -> Seq<char> {
    "\""@ + escape_text(s) + "\""@
}

pub open spec fn json_bool(b: bool) -> Seq<char> {
    if b {
        "true"@
    } else {
        "false"@
    }
}

/// One record as a JSON object, fields in the order name, error, id.
pub open spec fn record_json(r: RecordModel) -> Seq<char> {
    "{\"name\":"@ + json_string(r.name) + ",\"error\":"@ + json_bool(r.error) + ",\"id\":"@
        + json_string(r.id) + "}"@
}

/// The records joined with commas, in order.
pub open spec fn records_joined(rs: Seq<RecordModel>) -> Seq<char>
    decreases rs.len(),
{
    if rs.len() == 0 {
        Seq::empty()
    } else if rs.len() == 1 {
        record_json(rs[0])
    } else {
        records_joined(rs.drop_last()) + ","@ + record_json(rs.last())
    }
}

/// A JSON array of records.
pub open spec fn records_array(rs: Seq<RecordModel>) -> Seq<char> {
    "["@ + records_joined(rs) + "]"@
}

/// The body of `GET /devices`.
pub open spec fn devices_json(ds: Seq<RecordModel>) -> Seq<char> {
    "{\"devices\":"@ + records_array(ds) + "}"@
}

/// The body of a successful `GET /device/{id}`.
pub open spec fn device_detail_json(d: RecordModel, ss: Seq<RecordModel>) -> Seq<char> {
    "{\"device\":"@ + record_json(d) + ",\"services\":"@ + records_array(ss) + "}"@
}

/// The body of a failed `GET /device/{id}`, naming the missing id.
pub open spec fn not_found_json(id: Seq<char>) -> Seq<char> {
    "{ \"error\": \"Non existent device id: "@ + id + "\" }"@
}

/// The body of `GET /version` for a given version text.
pub open spec fn version_json(v: Seq<char>) -> Seq<char> {
    "{ \"version\": \""@ + v + "\" }"@
}

/// With no devices at all, the `GET /devices` body is exactly
/// `{"devices":[]}`.
pub proof fn lemma_empty_devices_page()
    ensures
        devices_json(Seq::<RecordModel>::empty()) == "{\"devices\":[]}"@,
{
    reveal_strlit("{\"devices\":");
    reveal_strlit("[");
    reveal_strlit("]");
    reveal_strlit("}");
    reveal_strlit("{\"devices\":[]}");
    assert(devices_json(Seq::<RecordModel>::empty()) =~= "{\"devices\":[]}"@);
}

/// Relies on `String::push`: appends exactly the one character.
#[verifier::external_body]
fn push_char(out: &mut String, c: char)
    ensures
        final(out)@ == old(out)@.push(c),
{
    out.push(c);
}

fn hex_digit_char(n: u32) -> (c: char)
    requires
        n < 16,
    ensures
        c == hex_digit(n as int),
{
    if n == 0 {
        '0'
    } else if n == 1 {
        '1'
    } else if n == 2 {
        '2'
    } else if n == 3 {
        '3'
    } else if n == 4 {
        '4'
    } else if n == 5 {
        '5'
    } else if n == 6 {
        '6'
    } else if n == 7 {
        '7'
    } else if n == 8 {
        '8'
    } else if n == 9 {
        '9'
    } else if n == 10 {
        'a'
    } else if n == 11 {
        'b'
    } else if n == 12 {
        'c'
    } else if n == 13 {
        'd'
    } else if n == 14 {
        'e'
    } else {
        'f'
    }
}

fn push_escaped_char(out: &mut String, c: char)
    ensures
        final(out)@ == old(out)@ + escape_char(c),
{
    if c == '"' {
        out.append("\\\"");
    } else if c == '\\' {
        out.append("\\\\");
    } else if c == '\u{0008}' {
        out.append("\\b");
    } else if c == '\t' {
        out.append("\\t");
    } else if c == '\n' {
        out.append("\\n");
    } else if c == '\u{000C}' {
        out.append("\\f");
    } else if c == '\r' {
        out.append("\\r");
    } else {
        let x = c as u32;
        if x < 32 {
            out.append("\\u00");
            push_char(out, hex_digit_char(x / 16));
            push_char(out, hex_digit_char(x % 16));
            assert(out@ =~= old(out)@ + escape_char(c));
        } else {
            push_char(out, c);
            assert(out@ =~= old(out)@ + escape_char(c));
        }
    }
}

fn append_escaped(out: &mut String, s: &str)
    ensures
        final(out)@ == old(out)@ + escape_text(s@),
{
    let n = s.unicode_len();
    let mut i: usize = 0;
    assert(s@.subrange(0, 0) =~= Seq::<char>::empty());
    while i < n
        invariant
            n == s@.len(),
            i <= n,
            out@ == old(out)@ + escape_text(s@.subrange(0, i as int)),
        decreases n - i,
    {
        let c = s.get_char(i);
        push_escaped_char(out, c);
        proof {
            let pre = s@.subrange(0, i + 1);
            assert(pre.drop_last() =~= s@.subrange(0, i as int));
            assert(pre.last() == s@[i as int]);
            assert(out@ =~= old(out)@ + escape_text(s@.subrange(0, i + 1)));
        }
        i = i + 1;
    }
    assert(s@.subrange(0, n as int) =~= s@);
}

fn append_json_string(out: &mut String, s: &str)
    ensures
        final(out)@ == old(out)@ + json_string(s@),
{
    out.append("\"");
    append_escaped(out, s);
    out.append("\"");
    assert(out@ =~= old(out)@ + json_string(s@));
}

fn append_record_json(out: &mut String, name: &str, error: bool, id: &str)
    ensures
        final(out)@ == old(out)@ + record_json(
            RecordModel { name: name@, error, id: id@ },
        ),
{
    out.append("{\"name\":");
    append_json_string(out, name);
    out.append(",\"error\":");
    if error {
        out.append("true");
    } else {
        out.append("false");
    }
    out.append(",\"id\":");
    append_json_string(out, id);
    out.append("}");
    assert(out@ =~= old(out)@ + record_json(
        RecordModel { name: name@, error, id: id@ },
    ));
}

proof fn lemma_records_joined_step(rs: Seq<RecordModel>, i: int)
    requires
        0 <= i < rs.len(),
    ensures
        i == 0 ==> records_joined(rs.subrange(0, 1)) == record_json(rs[0]),
        i > 0 ==> records_joined(rs.subrange(0, i + 1)) == records_joined(rs.subrange(0, i))
            + ","@ + record_json(rs[i]),
{
    let pre = rs.subrange(0, i + 1);
    if i == 0 {
        assert(pre.len() == 1);
        assert(pre[0] == rs[0]);
    } else {
        assert(pre.drop_last() =~= rs.subrange(0, i));
        assert(pre.last() == rs[i]);
    }
}

fn append_devices_array(out: &mut String, ds: &Vec<Device>)
    ensures
        final(out)@ == old(out)@ + records_array(ds@.map_values(|d: Device| d@)),
{
    let ghost rs = ds@.map_values(|d: Device| d@);
    out.append("[");
    let n = ds.len();
    let mut i: usize = 0;
    assert(rs.subrange(0, 0) =~= Seq::<RecordModel>::empty());
    while i < n
        invariant
            n == ds.len(),
            rs == ds@.map_values(|d: Device| d@),
            rs.len() == n,
            i <= n,
            out@ == old(out)@ + "["@ + records_joined(rs.subrange(0, i as int)),
        decreases n - i,
    {
        if i > 0 {
            out.append(",");
        }
        let d = &ds[i];
        append_record_json(out, d.name.as_str(), d.error, d.id.as_str());
        proof {
            assert(rs[i as int] == ds@[i as int]@);
            lemma_records_joined_step(rs, i as int);
            assert(out@ =~= old(out)@ + "["@ + records_joined(rs.subrange(0, i + 1)));
        }
        i = i + 1;
    }
    assert(rs.subrange(0, n as int) =~= rs);
    out.append("]");
    assert(out@ =~= old(out)@ + records_array(rs));
}

fn append_services_array(out: &mut String, ss: &Vec<Service>)
    ensures
        final(out)@ == old(out)@ + records_array(ss@.map_values(|s: Service| s@)),
{
    let ghost rs = ss@.map_values(|s: Service| s@);
    out.append("[");
    let n = ss.len();
    let mut i: usize = 0;
    assert(rs.subrange(0, 0) =~= Seq::<RecordModel>::empty());
    while i < n
        invariant
            n == ss.len(),
            rs == ss@.map_values(|s: Service| s@),
            rs.len() == n,
            i <= n,
            out@ == old(out)@ + "["@ + records_joined(rs.subrange(0, i as int)),
        decreases n - i,
    {
        if i > 0 {
            out.append(",");
        }
        let s = &ss[i];
        append_record_json(out, s.name.as_str(), s.error, s.id.as_str());
        proof {
            assert(rs[i as int] == ss@[i as int]@);
            lemma_records_joined_step(rs, i as int);
            assert(out@ =~= old(out)@ + "["@ + records_joined(rs.subrange(0, i + 1)));
        }
        i = i + 1;
    }
    assert(rs.subrange(0, n as int) =~= rs);
    out.append("]");
    assert(out@ =~= old(out)@ + records_array(rs));
}

/// The `GET /devices` body for the given devices: always well-formed, an
/// empty array when none exist.
pub fn devices_body(devices: &Vec<Device>) -> (r: String)
    ensures
        r@ == devices_json(devices@.map_values(|d: Device| d@)),
{
    let mut out = String::new();
    out.append("{\"devices\":");
    append_devices_array(&mut out, devices);
    out.append("}");
    proof {
        assert(out@ =~= devices_json(devices@.map_values(|d: Device| d@)));
    }
    out
}

/// The successful `GET /device/{id}` body: the device with its services.
pub fn device_detail_body(detail: &DeviceDetail) -> (r: String)
    ensures
        r@ == device_detail_json(
            detail.device@,
            detail.services@.map_values(|s: Service| s@),
        ),
{
    let mut out = String::new();
    out.append("{\"device\":");
    append_record_json(
        &mut out,
        detail.device.name.as_str(),
        detail.device.error,
        detail.device.id.as_str(),
    );
    out.append(",\"services\":");
    append_services_array(&mut out, &detail.services);
    out.append("}");
    proof {
        assert(out@ =~= device_detail_json(
            detail.device@,
            detail.services@.map_values(|s: Service| s@),
        ));
    }
    out
}

/// The 404 body of `GET /device/{id}`, naming the missing id.
pub fn not_found_body(id: &str) -> (r: String)
    ensures
        r@ == not_found_json(id@),
{
    let mut out = String::new();
    out.append("{ \"error\": \"Non existent device id: ");
    out.append(id);
    out.append("\" }");
    proof {
        assert(out@ =~= not_found_json(id@));
    }
    out
}

/// The static `GET /` body.
pub fn index_body() -> (r: String)
    ensures
        r@ == "ndmsd is running"@,
{
    "ndmsd is running".to_owned()
}

/// The `GET /version` body for the given version text.
pub fn version_body(version: &str) -> (r: String)
    ensures
        r@ == version_json(version@),
{
    let mut out = String::new();
    out.append("{ \"version\": \"");
    out.append(version);
    out.append("\" }");
    proof {
        assert(out@ =~= version_json(version@));
    }
    out
}

/// One HTTP response as the transport needs it: a status code and a body.
#[derive(Debug, PartialEq, Eq, Clone)]
pub struct ApiResponse {
    pub status: u16,
    pub body: String,
}

/// The response of `GET /devices`: always 200, the devices as JSON.
pub fn devices_response(devices: &Vec<Device>) -> (r: ApiResponse)
    ensures
        r.status == 200,
        r.body@ == devices_json(devices@.map_values(|d: Device| d@)),
{
    ApiResponse { status: 200, body: devices_body(devices) }
}

/// The response of `GET /device/{id}` once the lookup is done: 200 with the
/// detail body on a hit, 404 naming the id on a miss. A miss is an expected
/// client outcome, not a failure.
pub fn device_response(id: &str, found: &Option<DeviceDetail>) -> (r: ApiResponse)
    ensures
        found matches Some(d) ==> r.status == 200 && r.body@ == device_detail_json(
            d.device@,
            d.services@.map_values(|s: Service| s@),
        ),
        found is None ==> r.status == 404 && r.body@ == not_found_json(id@),
{
    match found {
        Some(detail) => ApiResponse { status: 200, body: device_detail_body(detail) },
        None => ApiResponse { status: 404, body: not_found_body(id) },
    }
}

/// Serves `GET /devices` against the store: on any rows the store yields
/// this is a 200 (see `list_devices` and `devices_response` for the body's
/// shape); only a failed storage call is an error.
pub fn handle_devices(conn: &sqlite::Connection) -> (r: Result<ApiResponse, StoreError>)
    ensures
        r matches Ok(resp) ==> resp.status == 200 && (exists|ds: Seq<RecordModel>|
            resp.body@ == devices_json(ds)),
{
    let devices = match list_devices(conn) {
        Ok(ds) => ds,
        Err(e) => return Err(e),
    };
    let resp = devices_response(&devices);
    proof {
        assert(resp.body@ == devices_json(devices@.map_values(|d: Device| d@)));
    }
    Ok(resp)
}

/// Serves `GET /device/{id}` against the store: 200 on a hit, else 404 with
/// the body naming the id; only a failed storage call is an error.
pub fn handle_device(conn: &sqlite::Connection, id: &str) -> (r: Result<ApiResponse, StoreError>)
    ensures
        r matches Ok(resp) ==> {
            ||| resp.status == 200 && (exists|d: RecordModel, ss: Seq<RecordModel>|
                resp.body@ == device_detail_json(d, ss))
            ||| resp.status == 404 && resp.body@ == not_found_json(id@)
        },
{
    let found = match get_device(conn, id) {
        Ok(f) => f,
        Err(e) => return Err(e),
    };
    let resp = device_response(id, &found);
    proof {
        match found {
            Some(detail) => {
                assert(resp.body@ == device_detail_json(
                    detail.device@,
                    detail.services@.map_values(|s: Service| s@),
                ));
            },
            None => {},
        }
    }
    Ok(resp)
}

} // verus!
