//! Values usable in filter clauses.
//!
//! A filter clause substitutes a rendered value into a pattern.  The types
//! below render to the same text the remote service's query language expects:
//! integers in decimal, booleans as `true`/`false`, strings as themselves.

use vstd::prelude::*;

use crate::render::{dec_rep, i64_to_string, int_rep, u64_to_string};

verus! {

/// A value that can stand in a filter clause.
pub trait FilterValue {
    /// The text this value renders to, before percent-encoding.
    spec fn rendered(&self) -> Seq<char>;

    /// Renders the value.
    fn render(&self) -> (s: String)
        ensures
            s@ == self.rendered(),
    ;
}

impl FilterValue for i32 {
    open spec fn rendered(&self) -> Seq<char> {
        int_rep(*self as int)
    }

    fn render(&self) -> (s: String)
        ensures
            s@ == self.rendered(),
    {
        i64_to_string(*self as i64)
    }
}

impl FilterValue for i64 {
    open spec fn rendered(&self) -> Seq<char> {
        int_rep(*self as int)
    }

    fn render(&self) -> (s: String)
        ensures
            s@ == self.rendered(),
    {
        i64_to_string(*self)
    }
}

impl FilterValue for u32 {
    open spec fn rendered(&self) -> Seq<char> {
        dec_rep(*self as nat)
    }

    fn render(&self) -> (s: String)
        ensures
            s@ == self.rendered(),
    {
        u64_to_string(*self as u64)
    }
}

impl FilterValue for u64 {
    open spec fn rendered(&self) -> Seq<char> {
        dec_rep(*self as nat)
    }

    fn render(&self) -> (s: String)
        ensures
            s@ == self.rendered(),
    {
        u64_to_string(*self)
    }
}

impl FilterValue for bool {
    open spec fn rendered(&self) -> Seq<char> {
        if *self {
            "true"@
        } else {
            "false"@
        }
    }

    fn render(&self) -> (s: String)
        ensures
            s@ == self.rendered(),
    {
        if *self {
            "true".to_owned()
        } else {
            "false".to_owned()
        }
    }
}

impl<'a> FilterValue for &'a str {
    open spec fn rendered(&self) -> Seq<char> {
        self@
    }

    fn render(&self) -> (s: String)
        ensures
            s@ == self.rendered(),
    {
        (*self).to_owned()
    }
}

impl FilterValue for String {
    open spec fn rendered(&self) -> Seq<char> {
        self@
    }

    fn render(&self) -> (s: String)
        ensures
            s@ == self.rendered(),
    {
        self.as_str().to_owned()
    }
}

} // verus!
