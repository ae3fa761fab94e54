//! Parsing the query text with `sqlparser`'s PostgreSQL dialect.

use vstd::prelude::*;
use sqlparser::ast::{Query, Statement};
use sqlparser::dialect::PostgreSqlDialect;
use sqlparser::parser::Parser;
use crate::query::error::{QueryError, QueryErrorView};
use crate::query::lower::{query_view, QueryView};

verus! {

/// What `sqlparser` makes of a text in the PostgreSQL dialect: for each statement, in
/// order, what the query holds when the statement is a query (`None` for any other kind
/// of statement); or the text of its error.
pub uninterp spec fn sql_parse(sql: Seq<char>) -> Result<Seq<Option<QueryView>>, Seq<char>>;

/// `Parser::parse_sql` with the PostgreSQL dialect: the statements of `sql`, each as the
/// query it holds (`Statement::Query`) or `None` for any other kind of statement; or the
/// parser's error as text. The statements, what each query holds, and the error text
/// are those `sql_parse` names.
#[verifier::external_body]
fn parse_statements(sql: &str) -> (r: Result<Vec<Option<Box<Query>>>, String>)
    ensures
        match sql_parse(sql@) {
            Ok(stmts) => r matches Ok(v) && v@.len() == stmts.len() && forall|i: int|
                #![trigger v@[i]]
                0 <= i < stmts.len() ==> match stmts[i] {
                    Some(qv) => v@[i] matches Some(q) && query_view(*q) == qv,
                    None => v@[i] is None,
                },
            Err(m) => r matches Err(x) && x@ == m,
        },
{
    match Parser::parse_sql(&PostgreSqlDialect {}, sql) {
        Ok(stmts) => Ok(stmts.into_iter().map(|st| match st {
            Statement::Query(q) => Some(q),
            _ => None,
        }).collect()),
        Err(e) => Err(e.to_string()),
    }
}

/// Parses a query: exactly one statement, which must be a query.
///
/// A text the parser refuses gives its error; more or fewer than one statement gives
/// `exactly one statement is required`; one statement gives the query it is, or
/// `only SELECT queries are allowed` when it is not a query.
pub fn parse(sql: &str) -> (r: Result<Box<Query>, QueryError>)
    ensures
        match sql_parse(sql@) {
            Err(m) => r matches Err(x) && x@ == QueryErrorView::Parse(m),
            Ok(stmts) => if stmts.len() != 1 {
                r matches Err(x) && x@ == QueryErrorView::Invalid("exactly one statement is required"@)
            } else {
                match stmts[0] {
                    Some(qv) => r matches Ok(q) && query_view(*q) == qv,
                    None => r matches Err(x) && x@ == QueryErrorView::Forbidden("only SELECT queries are allowed"@),
                }
            },
        },
{
    let mut stmts = match parse_statements(sql) {
        Ok(s) => s,
        Err(m) => return Err(QueryError::Parse(m)),
    };
    if stmts.len() != 1 {
        return Err(QueryError::Invalid("exactly one statement is required".to_string()));
    }
    proof {
        assert(stmts@[0] == stmts@[0]);
    }
    match stmts.remove(0) {
        Some(q) => Ok(q),
        None => Err(QueryError::Forbidden("only SELECT queries are allowed".to_string())),
    }
}

} // verus!
