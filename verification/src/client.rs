//! Client configuration and response decoding.
//!
//! A [`Client`] owns the immutable configuration of one collection: the base
//! endpoint and the box id.  The HTTP exchange itself happens outside this
//! crate; the functions here decode the `(status, body)` pairs that come
//! back, splitting each response object into the caller's raw payload and
//! the reserved metadata fields.

use vstd::prelude::*;

use crate::error::Error;
use crate::json::{array_items_of, json_array_items, json_string_field, string_field_of};
use crate::query_builder::QueryBuilder;

verus! {

/// Metadata the remote service attaches to every stored record.
#[derive(Debug)]
pub struct Meta {
    /// Identifier assigned by the service, unique within a collection.
    pub id: String,
    /// Creation timestamp, an ISO-8601 string.
    pub created_on: String,
    /// Update timestamp; equals `created_on` until the record is updated.
    pub updated_on: String,
}

/// The error shape the remote service returns on failure: `{"message": ...}`.
#[derive(Debug)]
pub struct ErrorMessage {
    pub message: String,
}

/// Configuration of one collection on the remote service.
pub struct Client {
    pub base_url: String,
    pub box_id: String,
}

impl Client {
    /// A client for `box_id` on the default endpoint.
    pub fn new(box_id: &str) -> (c: Client)
        ensures
            c.base_url@ == "https://jsonbox.io"@,
            c.box_id@ == box_id@,
    {
        Client { base_url: crate::url::base_url().to_owned(), box_id: box_id.to_owned() }
    }

    /// A client for `box_id` on a caller-chosen endpoint.
    pub fn with_base_url(box_id: &str, base_url: &str) -> (c: Client)
        ensures
            c.base_url@ == base_url@,
            c.box_id@ == box_id@,
    {
        Client { base_url: base_url.to_owned(), box_id: box_id.to_owned() }
    }

    /// A copy of this configuration.
    pub fn duplicate(&self) -> (c: Client)
        ensures
            c.base_url@ == self.base_url@,
            c.box_id@ == self.box_id@,
    {
        Client { base_url: self.base_url.clone(), box_id: self.box_id.clone() }
    }

    /// Starts a read: a query builder in its default state.
    pub fn read(&self) -> (qb: QueryBuilder)
        ensures
            qb@ == crate::query_builder::default_query(),
            qb.client.base_url@ == self.base_url@,
            qb.client.box_id@ == self.box_id@,
    {
        QueryBuilder::new(self)
    }
}

/// A response is successful iff its status code is in the 2xx range.
pub open spec fn is_success(status: u16) -> bool {
    200 <= status < 300
}

/// Whether `body` carries the required reserved metadata fields: `_id` and
/// `_createdOn`, both strings.
pub open spec fn meta_present(body: Seq<char>) -> bool {
    &&& string_field_of(body, "_id"@) is Some
    &&& string_field_of(body, "_createdOn"@) is Some
}

/// Whether `m` is the metadata `body` carries: its `_id` and `_createdOn`
/// strings, with `_updatedOn` defaulting to `_createdOn` when absent.
pub open spec fn meta_matches(m: Meta, body: Seq<char>) -> bool
    recommends
        meta_present(body),
{
    &&& string_field_of(body, "_id"@) matches Some(v) && m.id@ == v
    &&& string_field_of(body, "_createdOn"@) matches Some(c) && m.created_on@ == c
    &&& match string_field_of(body, "_updatedOn"@) {
        Some(u) => m.updated_on@ == u,
        None => m.updated_on@ == m.created_on@,
    }
}

/// The message stands in for a service message when the error body itself
/// could not be decoded.
pub open spec fn fallback_message() -> Seq<char> {
    "(error body could not be decoded)"@
}

/// Whether `e` is the failure a non-2xx response with this status and body
/// surfaces: the status code together with the service-provided message, or
/// with a placeholder when the error body does not decode.
pub open spec fn remote_error_matches(e: Error, status: u16, body: Seq<char>) -> bool {
    &&& e matches Error::General { code, message }
    &&& code == status
    &&& match string_field_of(body, "message"@) {
        Some(v) => message@ == v,
        None => message@ == fallback_message(),
    }
}

/// Whether every element of a decoded array carries its metadata fields.
pub open spec fn list_metas_present(items: Seq<Seq<char>>) -> bool {
    forall|i: int| 0 <= i < items.len() ==> meta_present(items[i])
}

/// Decodes the error shape `{"message": ...}` of a failed response.
pub fn decode_error_message(body: &str) -> (r: Option<ErrorMessage>)
    ensures
        match string_field_of(body@, "message"@) {
            Some(v) => r matches Some(em) && em.message@ == v,
            None => r is None,
        },
{
    match json_string_field(body, "message") {
        Some(message) => Some(ErrorMessage { message }),
        None => None,
    }
}

/// The failure surfaced for a non-2xx response.
pub fn remote_error(status: u16, body: &str) -> (e: Error)
    ensures
        remote_error_matches(e, status, body@),
{
    let message = match decode_error_message(body) {
        Some(em) => em.message,
        None => "(error body could not be decoded)".to_owned(),
    };
    Error::General { code: status, message }
}

/// Decodes the reserved metadata fields of one response object.
pub fn decode_meta(body: &str) -> (r: Result<Meta, Error>)
    ensures
        meta_present(body@) ==> (r matches Ok(m) && meta_matches(m, body@)),
        !meta_present(body@) ==> (r matches Err(e) && (e matches Error::Json { reason }
            && reason@ == "meta"@)),
{
    let id = match json_string_field(body, "_id") {
        Some(s) => s,
        None => {
            return Err(Error::Json { reason: "meta".to_owned() });
        },
    };
    let created_on = match json_string_field(body, "_createdOn") {
        Some(s) => s,
        None => {
            return Err(Error::Json { reason: "meta".to_owned() });
        },
    };
    let updated_on = match json_string_field(body, "_updatedOn") {
        Some(s) => s,
        None => created_on.clone(),
    };
    Ok(Meta { id, created_on, updated_on })
}

/// Decodes the response of an operation returning one record: on success the
/// raw body (from which the caller decodes the payload) paired with its
/// metadata, otherwise the surfaced failure.
pub fn decode_record_response(status: u16, body: &str) -> (r: Result<(String, Meta), Error>)
    ensures
        is_success(status) && meta_present(body@) ==> (r matches Ok(p) && p.0@ == body@
            && meta_matches(p.1, body@)),
        is_success(status) && !meta_present(body@) ==> (r matches Err(e)
            && (e matches Error::Json { reason } && reason@ == "meta"@)),
        !is_success(status) ==> (r matches Err(e) && remote_error_matches(e, status, body@)),
{
    if !(200 <= status && status < 300) {
        return Err(remote_error(status, body));
    }
    match decode_meta(body) {
        Ok(m) => Ok((body.to_owned(), m)),
        Err(e) => Err(e),
    }
}

/// Decodes the response of an operation returning no data: success is
/// exactly a 2xx status.
pub fn decode_unit_response(status: u16, body: &str) -> (r: Result<(), Error>)
    ensures
        r is Ok <==> is_success(status),
        !is_success(status) ==> (r matches Err(e) && remote_error_matches(e, status, body@)),
{
    if 200 <= status && status < 300 {
        Ok(())
    } else {
        Err(remote_error(status, body))
    }
}

/// Decodes the response of an operation returning a list of records: the
/// body's array elements, each paired positionally with its own metadata, in
/// encounter order.
pub fn decode_list_response(status: u16, body: &str) -> (r: Result<Vec<(String, Meta)>, Error>)
    ensures
        !is_success(status) ==> (r matches Err(e) && remote_error_matches(e, status, body@)),
        is_success(status) && array_items_of(body@) is None ==> (r matches Err(e)
            && (e matches Error::Json { reason } && reason@ == "data"@)),
        is_success(status) ==> match array_items_of(body@) {
            Some(items) => {
                if list_metas_present(items) {
                    r matches Ok(v) && v@.len() == items.len() && (forall|i: int|
                        0 <= i < items.len() ==> (#[trigger] v@[i]).0@ == items[i]
                            && meta_matches(v@[i].1, items[i]))
                } else {
                    r matches Err(e) && e matches Error::Json { reason } && reason@ == "meta"@
                }
            },
            None => true,
        },
{
    if !(200 <= status && status < 300) {
        return Err(remote_error(status, body));
    }
    let items = match json_array_items(body) {
        Some(v) => v,
        None => {
            return Err(Error::Json { reason: "data".to_owned() });
        },
    };
    let ghost sitems = array_items_of(body@)->Some_0;
    let mut out: Vec<(String, Meta)> = Vec::new();
    let n = items.len();
    for idx in 0..n
        invariant
            200 <= status < 300,
            array_items_of(body@) == Some(sitems),
            n == items.len(),
            items.deep_view() == sitems,
            out.len() == idx,
            forall|j: int| 0 <= j < idx ==> meta_present(sitems[j]),
            forall|j: int| 0 <= j < idx ==> (#[trigger] out@[j]).0@ == sitems[j]
                && meta_matches(out@[j].1, sitems[j]),
    {
        match decode_meta(items[idx].as_str()) {
            Ok(m) => {
                out.push((items[idx].clone(), m));
            },
            Err(e) => {
                proof {
                    assert(items.deep_view()[idx as int] == items@[idx as int]@);
                    assert(!meta_present(sitems[idx as int]));
                }
                return Err(e);
            },
        }
    }
    Ok(out)
}

} // verus!
