//! The query builder: sort, pagination and filters for a list request, and
//! their canonical rendering as a query string.
//!
//! The builder is an immutable value: every transformation returns a new
//! builder, so a base query can be branched into several divergent queries
//! without interference.

use vstd::prelude::*;

use crate::client::Client;
use crate::encode::{percent_encode, percent_encoded};
use crate::render::{dec_rep, subst, substitute, u64_to_string};
use crate::value::FilterValue;

verus! {

/// Sort direction and field.
pub enum Order {
    Asc(String),
    Desc(String),
}

/// The mathematical state of a query: everything its rendering depends on.
#[verifier::ext_equal]
pub struct QueryState {
    pub field: Seq<char>,
    pub descending: bool,
    pub skip: nat,
    pub limit: nat,
    pub filters: Seq<Seq<char>>,
}

/// A fluent specification of one list request.
pub struct QueryBuilder {
    pub client: Client,
    pub sort: Order,
    pub skip: u32,
    pub limit: u32,
    pub q: Vec<String>,
}

/// The sort field, independent of direction.
pub open spec fn sort_field(o: Order) -> Seq<char> {
    match o {
        Order::Asc(f) => f@,
        Order::Desc(f) => f@,
    }
}

/// Whether the order is descending.
pub open spec fn sort_is_desc(o: Order) -> bool {
    match o {
        Order::Asc(_) => false,
        Order::Desc(_) => true,
    }
}

/// The views of the filter clauses, in insertion order.
pub open spec fn filter_views(q: Seq<String>) -> Seq<Seq<char>> {
    q.map_values(|s: String| s@)
}

impl View for QueryBuilder {
    type V = QueryState;

    open spec fn view(&self) -> QueryState {
        QueryState {
            field: sort_field(self.sort),
            descending: sort_is_desc(self.sort),
            skip: self.skip as nat,
            limit: self.limit as nat,
            filters: filter_views(self.q@),
        }
    }
}

/// The default query: sort descending by creation timestamp, skip 0,
/// limit 20, no filters.
pub open spec fn default_query() -> QueryState {
    QueryState {
        field: "_createdOn"@,
        descending: true,
        skip: 0,
        limit: 20,
        filters: Seq::empty(),
    }
}

/// The `sort` parameter: the field, with a leading `-` when descending.
pub open spec fn sort_rep(v: QueryState) -> Seq<char> {
    if v.descending {
        "-"@ + v.field
    } else {
        v.field
    }
}

/// Filter clauses joined by literal commas, in insertion order.
pub open spec fn joined_filters(fs: Seq<Seq<char>>) -> Seq<char>
    decreases fs.len(),
{
    if fs.len() == 0 {
        Seq::empty()
    } else if fs.len() == 1 {
        fs[0]
    } else {
        fs[0] + ","@ + joined_filters(fs.drop_first())
    }
}

/// The canonical, order-sensitive wire format of a query:
/// `sort={dir}{field}&skip={skip}&limit={limit}` and, only when filters
/// exist, `&q={clauses}`.
pub open spec fn query_rep(v: QueryState) -> Seq<char> {
    "sort="@ + sort_rep(v) + "&skip="@ + dec_rep(v.skip) + "&limit="@ + dec_rep(v.limit) + (
    if v.filters.len() == 0 {
        Seq::<char>::empty()
    } else {
        "&q="@ + joined_filters(v.filters)
    })
}

/// Rendering is a pure function of the builder state: two builders in equal
/// states render byte-identical query strings.
pub proof fn lemma_rendering_deterministic(a: &QueryBuilder, b: &QueryBuilder)
    requires
        a@ == b@,
    ensures
        query_rep(a@) == query_rep(b@),
{
}

/// Joining filters appends `,{clause}` for each clause after the first.
proof fn lemma_joined_push(fs: Seq<Seq<char>>, x: Seq<char>)
    requires
        fs.len() >= 1,
    ensures
        joined_filters(fs.push(x)) == joined_filters(fs) + ","@ + x,
    decreases fs.len(),
{
    if fs.len() == 1 {
        assert(fs.push(x).drop_first() =~= seq![x]);
        assert(joined_filters(seq![x]) == x);
    } else {
        lemma_joined_push(fs.drop_first(), x);
        assert(fs.push(x).drop_first() =~= fs.drop_first().push(x));
    }
}

fn clone_sort(o: &Order) -> (r: Order)
    ensures
        sort_field(r) == sort_field(*o),
        sort_is_desc(r) == sort_is_desc(*o),
{
    match o {
        Order::Asc(f) => Order::Asc(f.clone()),
        Order::Desc(f) => Order::Desc(f.clone()),
    }
}

fn clone_filters(q: &Vec<String>) -> (r: Vec<String>)
    ensures
        filter_views(r@) == filter_views(q@),
{
    let mut r: Vec<String> = Vec::new();
    let n = q.len();
    for i in 0..n
        invariant
            n == q.len(),
            r.len() == i,
            forall|j: int| 0 <= j < i ==> r@[j]@ == q@[j]@,
    {
        r.push(q[i].clone());
    }
    proof {
        assert(filter_views(r@) =~= filter_views(q@));
    }
    r
}

impl QueryBuilder {
    /// A builder in the default state, reading through `client`.
    pub fn new(client: &Client) -> (qb: QueryBuilder)
        ensures
            qb@ == default_query(),
            qb.client.base_url@ == client.base_url@,
            qb.client.box_id@ == client.box_id@,
    {
        let qb = QueryBuilder {
            client: client.duplicate(),
            sort: Order::Desc("_createdOn".to_owned()),
            skip: 0,
            limit: 20,
            q: Vec::new(),
        };
        proof {
            assert(qb@ =~= default_query());
        }
        qb
    }

    /// Sets the sort field; the direction becomes ascending until
    /// [`desc`](Self::desc) is called.
    pub fn order_by(&self, field: &str) -> (qb: QueryBuilder)
        ensures
            qb@ == (QueryState { field: field@, descending: false, ..self@ }),
            qb.client.base_url@ == self.client.base_url@,
            qb.client.box_id@ == self.client.box_id@,
    {
        let qb = QueryBuilder {
            client: self.client.duplicate(),
            sort: Order::Asc(field.to_owned()),
            skip: self.skip,
            limit: self.limit,
            q: clone_filters(&self.q),
        };
        proof {
            assert(qb@ =~= (QueryState { field: field@, descending: false, ..self@ }));
        }
        qb
    }

    /// Flips the direction to descending; the field is unchanged.
    pub fn desc(&self) -> (qb: QueryBuilder)
        ensures
            qb@ == (QueryState { descending: true, ..self@ }),
            qb.client.base_url@ == self.client.base_url@,
            qb.client.box_id@ == self.client.box_id@,
    {
        let field = match &self.sort {
            Order::Asc(f) => f.clone(),
            Order::Desc(f) => f.clone(),
        };
        let qb = QueryBuilder {
            client: self.client.duplicate(),
            sort: Order::Desc(field),
            skip: self.skip,
            limit: self.limit,
            q: clone_filters(&self.q),
        };
        proof {
            assert(qb@ =~= (QueryState { descending: true, ..self@ }));
        }
        qb
    }

    /// Sets the number of records the result is limited to.
    pub fn limit(&self, limit: u32) -> (qb: QueryBuilder)
        ensures
            qb@ == (QueryState { limit: limit as nat, ..self@ }),
            qb.client.base_url@ == self.client.base_url@,
            qb.client.box_id@ == self.client.box_id@,
    {
        let qb = QueryBuilder {
            client: self.client.duplicate(),
            sort: clone_sort(&self.sort),
            skip: self.skip,
            limit,
            q: clone_filters(&self.q),
        };
        proof {
            assert(qb@ =~= (QueryState { limit: limit as nat, ..self@ }));
        }
        qb
    }

    /// Sets the number of records to skip.
    pub fn skip(&self, skip: u32) -> (qb: QueryBuilder)
        ensures
            qb@ == (QueryState { skip: skip as nat, ..self@ }),
            qb.client.base_url@ == self.client.base_url@,
            qb.client.box_id@ == self.client.box_id@,
    {
        let qb = QueryBuilder {
            client: self.client.duplicate(),
            sort: clone_sort(&self.sort),
            skip,
            limit: self.limit,
            q: clone_filters(&self.q),
        };
        proof {
            assert(qb@ =~= (QueryState { skip: skip as nat, ..self@ }));
        }
        qb
    }

    /// Appends a filter clause: `value` is rendered, percent-encoded, and
    /// substituted for the `{}` marker in `pattern`.  Clauses conjoin with
    /// implicit AND, in insertion order.
    pub fn filter_by<T: FilterValue>(&self, pattern: &str, value: T) -> (qb: QueryBuilder)
        ensures
            qb@ == (QueryState {
                filters: self@.filters.push(subst(pattern@, percent_encoded(value.rendered()))),
                ..self@
            }),
            qb.client.base_url@ == self.client.base_url@,
            qb.client.box_id@ == self.client.box_id@,
    {
        let rendered = value.render();
        let encoded = percent_encode(rendered.as_str());
        let clause = substitute(pattern, encoded.as_str());
        let mut q = clone_filters(&self.q);
        q.push(clause);
        let qb = QueryBuilder {
            client: self.client.duplicate(),
            sort: clone_sort(&self.sort),
            skip: self.skip,
            limit: self.limit,
            q,
        };
        proof {
            assert(filter_views(q@) =~= self@.filters.push(
                subst(pattern@, percent_encoded(value.rendered())),
            ));
            assert(qb@ =~= (QueryState {
                filters: self@.filters.push(subst(pattern@, percent_encoded(value.rendered()))),
                ..self@
            }));
        }
        qb
    }

    /// Alias of [`filter_by`](Self::filter_by).
    pub fn and<T: FilterValue>(&self, pattern: &str, value: T) -> (qb: QueryBuilder)
        ensures
            qb@ == (QueryState {
                filters: self@.filters.push(subst(pattern@, percent_encoded(value.rendered()))),
                ..self@
            }),
            qb.client.base_url@ == self.client.base_url@,
            qb.client.box_id@ == self.client.box_id@,
    {
        self.filter_by(pattern, value)
    }

    /// Renders the canonical query string for this builder's state.
    pub fn to_string(&self) -> (r: String)
        ensures
            r@ == query_rep(self@),
    {
        let mut r = "sort=".to_owned();
        r.append(self.sort_string().as_str());
        r.append("&skip=");
        r.append(u64_to_string(self.skip as u64).as_str());
        r.append("&limit=");
        r.append(u64_to_string(self.limit as u64).as_str());
        if self.q.len() > 0 {
            r.append("&q=");
            r.append(self.filter_string().as_str());
        }
        r
    }

    /// The `sort` parameter value: the field, prefixed by `-` when
    /// descending.
    pub fn sort_string(&self) -> (r: String)
        ensures
            r@ == sort_rep(self@),
    {
        match &self.sort {
            Order::Asc(field) => field.clone(),
            Order::Desc(field) => {
                let mut r = "-".to_owned();
                r.append(field.as_str());
                r
            },
        }
    }

    /// The filter clauses joined by commas, in insertion order.
    pub fn filter_string(&self) -> (r: String)
        ensures
            r@ == joined_filters(self@.filters),
    {
        let mut r = String::new();
        let n = self.q.len();
        for i in 0..n
            invariant
                n == self.q.len(),
            r@ == joined_filters(filter_views(self.q@).take(i as int)),
        {
            proof {
                let fs = filter_views(self.q@);
                if i == 0 {
                    assert(fs.take(1) =~= seq![fs[0]]);
                } else {
                    lemma_joined_push(fs.take(i as int), fs[i as int]);
                    assert(fs.take(i as int).push(fs[i as int]) =~= fs.take(i + 1));
                }
            }
            if i > 0 {
                r.append(",");
            }
            r.append(self.q[i].as_str());
        }
        proof {
            assert(filter_views(self.q@).take(n as int) =~= filter_views(self.q@));
        }
        r
    }
}

} // verus!

