//! Errors of the query pipeline.

use vstd::prelude::*;

verus! {

/// Why a query was refused.
pub enum QueryError {
    /// The SQL text could not be parsed.
    Parse(String),
    /// The query uses something the caller may not use.
    Forbidden(String),
    /// The query or its parameters are malformed.
    Invalid(String),
}

/// A [`QueryError`] with its message as characters.
pub enum QueryErrorView {
    Parse(Seq<char>),
    Forbidden(Seq<char>),
    Invalid(Seq<char>),
}

impl View for QueryError {
    type V = QueryErrorView;

    open spec fn view(&self) -> QueryErrorView {
        match self {
            QueryError::Parse(m) => QueryErrorView::Parse(m@),
            QueryError::Forbidden(m) => QueryErrorView::Forbidden(m@),
            QueryError::Invalid(m) => QueryErrorView::Invalid(m@),
        }
    }
}

impl QueryErrorView {
    /// The message shown to the caller: `parse error: ` before a parse failure's text,
    /// the bare text otherwise.
    pub open spec fn message(self) -> Seq<char> {
        match self {
            QueryErrorView::Parse(m) => "parse error: "@ + m,
            QueryErrorView::Forbidden(m) => m,
            QueryErrorView::Invalid(m) => m,
        }
    }
}

impl QueryError {
    /// The message shown to the caller (the error's display text).
    pub fn message(&self) -> (r: String)
        ensures
            r@ == self@.message(),
    {
        match self {
            QueryError::Parse(m) => {
                let mut r = String::new();
                crate::text::push_str(&mut r, "parse error: ");
                crate::text::push_str(&mut r, m.as_str());
                r
            },
            QueryError::Forbidden(m) => m.clone(),
            QueryError::Invalid(m) => m.clone(),
        }
    }
}

} // verus!
