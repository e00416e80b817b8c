//! Query-builder rendering: sort, pagination and filter clauses.

use jsonbox::{Client, QueryBuilder};

#[test]
fn test_to_string() {
    let c = Client::new("xxx");
    assert_eq!(
        QueryBuilder::new(&c)
            .order_by("count")
            .desc()
            .limit(42)
            .skip(8)
            .filter_by("count:>{}", 20)
            .and("count:<{}", 40)
            .to_string(),
        "sort=-count&skip=8&limit=42&q=count:>20,count:<40"
    );
}

#[test]
fn query_builder_test_to_string() {
    let c = Client::new("xxx");
    assert_eq!(
        QueryBuilder::new(&c)
            .order_by("count")
            .desc()
            .limit(42)
            .skip(8)
            .filter_by("count:>{}", 20)
            .and("count:<{}", 40)
            .to_string(),
        "sort=-count&skip=8&limit=42&q=count:>20,count:<40"
    );
}

#[test]
fn test_sort_string() {
    let c = Client::new("xxx");
    let q = QueryBuilder::new(&c);
    assert_eq!(q.sort_string(), "-_createdOn");

    let q = q.order_by("name");
    assert_eq!(q.sort_string(), "name");

    let q = q.desc();
    assert_eq!(q.sort_string(), "-name");
}

#[test]
fn query_builder_test_sort_string() {
    let c = Client::new("xxx");
    let q = QueryBuilder::new(&c);
    assert_eq!(q.sort_string(), "-_createdOn");

    let q = q.order_by("name");
    assert_eq!(q.sort_string(), "name");

    let q = q.desc();
    assert_eq!(q.sort_string(), "-name");
}

#[test]
fn test_filter_string() {
    let c = Client::new("xxx");
    let q = QueryBuilder::new(&c);
    assert_eq!(q.filter_string(), "");

    let q = q.filter_by("name:{}", "foo bar");
    assert_eq!(q.filter_string(), "name:foo%20bar");

    let q = q.filter_by("city:{}*", "Los ");
    assert_eq!(q.filter_string(), "name:foo%20bar,city:Los%20*");

    let q = q.filter_by("count:<{}", 42);
    assert_eq!(q.filter_string(), "name:foo%20bar,city:Los%20*,count:<42");

    let q = q.filter_by("login:{}", true);
    assert_eq!(
        q.filter_string(),
        "name:foo%20bar,city:Los%20*,count:<42,login:true"
    );
}

#[test]
fn query_builder_test_filter_string() {
    let c = Client::new("xxx");
    let q = QueryBuilder::new(&c);
    assert_eq!(q.filter_string(), "");

    let q = q.filter_by("name:{}", "foo bar");
    assert_eq!(q.filter_string(), "name:foo%20bar");

    let q = q.filter_by("city:{}*", "Los ");
    assert_eq!(q.filter_string(), "name:foo%20bar,city:Los%20*");

    let q = q.filter_by("count:<{}", 42);
    assert_eq!(q.filter_string(), "name:foo%20bar,city:Los%20*,count:<42");

    let q = q.filter_by("login:{}", true);
    assert_eq!(
        q.filter_string(),
        "name:foo%20bar,city:Los%20*,count:<42,login:true"
    );
}

#[test]
fn default_query_string() {
    let c = Client::new("xxx");
    assert_eq!(
        QueryBuilder::new(&c).to_string(),
        "sort=-_createdOn&skip=0&limit=20"
    );
    assert_eq!(c.read().to_string(), "sort=-_createdOn&skip=0&limit=20");
}

#[test]
fn rendering_is_deterministic() {
    let c = Client::new("xxx");
    let build = || {
        QueryBuilder::new(&c)
            .order_by("count")
            .desc()
            .skip(3)
            .limit(7)
            .filter_by("name:{}", "a b")
    };
    assert_eq!(build().to_string(), build().to_string());
}

#[test]
fn branching_does_not_interfere() {
    let c = Client::new("xxx");
    let base = QueryBuilder::new(&c).order_by("name");
    let first = base.limit(5);
    let second = base.skip(9);
    assert_eq!(base.to_string(), "sort=name&skip=0&limit=20");
    assert_eq!(first.to_string(), "sort=name&skip=0&limit=5");
    assert_eq!(second.to_string(), "sort=name&skip=9&limit=20");
}

#[test]
fn filter_values_render() {
    let c = Client::new("xxx");
    let q = QueryBuilder::new(&c).filter_by("count:<{}", -5);
    assert_eq!(q.filter_string(), "count:<%2D5");

    let q = QueryBuilder::new(&c).filter_by("count:{}", 1234567890123_u64);
    assert_eq!(q.filter_string(), "count:1234567890123");

    let q = QueryBuilder::new(&c).filter_by("count:{}", 0_u32);
    assert_eq!(q.filter_string(), "count:0");

    let q = QueryBuilder::new(&c).filter_by("name:{}", String::from("A/B"));
    assert_eq!(q.filter_string(), "name:A%2FB");

    let q = QueryBuilder::new(&c).filter_by("login:{}", false);
    assert_eq!(q.filter_string(), "login:false");

    let q = QueryBuilder::new(&c).filter_by("name:{}", "caf\u{e9}");
    assert_eq!(q.filter_string(), "name:caf%C3%A9");
}

#[test]
fn marker_substitution_keeps_pattern_text() {
    let c = Client::new("xxx");
    let q = QueryBuilder::new(&c).filter_by("name:{}", "foo bar");
    assert_eq!(q.to_string(), "sort=-_createdOn&skip=0&limit=20&q=name:foo%20bar");
}
