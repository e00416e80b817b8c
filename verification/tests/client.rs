//! Client configuration and URL composition.

use jsonbox::url::{of_box, of_query, of_record};
use jsonbox::Client;

#[test]
fn test_new() {
    let client = Client::new("01234012340123401234");
    assert_eq!(client.base_url, "https://jsonbox.io");
    assert_eq!(client.box_id, "01234012340123401234");
}

#[test]
fn test_with_base_url() {
    let client = Client::with_base_url("01234012340123401234", "https://blog.endflow.net");
    assert_eq!(client.base_url, "https://blog.endflow.net");
    assert_eq!(client.box_id, "01234012340123401234");
}

#[test]
fn test_of_box() {
    assert_eq!(
        of_box("https://jsonbox.io", "01234567890123456789"),
        "https://jsonbox.io/01234567890123456789"
    );
}

#[test]
fn test_of_record() {
    assert_eq!(
        of_record(
            "https://jsonbox.io",
            "01234567890123456789",
            "5d876d852a780700177c0557"
        ),
        "https://jsonbox.io/01234567890123456789/5d876d852a780700177c0557"
    );
}

#[test]
fn test_of_query() {
    assert_eq!(
        of_query(
            "https://jsonbox.io",
            "01234567890123456789",
            "sort=-createdOn&limit=20&skip=0"
        ),
        "https://jsonbox.io/01234567890123456789?sort=-createdOn&limit=20&skip=0"
    );
}
