//! Request URLs for the remote document store.
//!
//! Pure string composition: a collection URL is `{base}/{box_id}`, a record
//! URL is `{base}/{box_id}/{record_id}`, and a query URL is
//! `{base}/{box_id}?{query_string}`.  No validation is performed here;
//! malformed ids are rejected by the remote service, not locally.

use vstd::prelude::*;

verus! {

/// Default endpoint of the remote service.
pub fn base_url() -> (r: &'static str)
    ensures
        r@ == "https://jsonbox.io"@,
{
    "https://jsonbox.io"
}

/// URL of a whole collection: `{base}/{box_id}`.
pub fn of_box(base_url: &str, box_id: &str) -> (r: String)
    ensures
        r@ == base_url@ + "/"@ + box_id@,
{
    let mut r = base_url.to_owned();
    r.append("/");
    r.append(box_id);
    r
}

/// URL of a single record: `{base}/{box_id}/{record_id}`.
pub fn of_record(base_url: &str, box_id: &str, record_id: &str) -> (r: String)
    ensures
        r@ == base_url@ + "/"@ + box_id@ + "/"@ + record_id@,
{
    let mut r = base_url.to_owned();
    r.append("/");
    r.append(box_id);
    r.append("/");
    r.append(record_id);
    r
}

/// URL of a filtered listing: `{base}/{box_id}?{query}`.
pub fn of_query(base_url: &str, box_id: &str, query: &str) -> (r: String)
    ensures
        r@ == base_url@ + "/"@ + box_id@ + "?"@ + query@,
{
    let mut r = base_url.to_owned();
    r.append("/");
    r.append(box_id);
    r.append("?");
    r.append(query);
    r
}

} // verus!
