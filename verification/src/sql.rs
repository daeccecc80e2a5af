//! Parsing of a query entry's SQL text into statements.
//!
//! The statements themselves are opaque values of the SQL parser library,
//! carried through to the planner; this module only fixes which dialect is
//! used, names whether a text parses, and tags a parse failure.

use vstd::prelude::*;

use crate::bench_runner::BenchRunError;

verus! {

#[verifier::external_type_specification]
#[verifier::external_body]
pub struct ExStatement(sqlparser::ast::Statement);

/// Whether the SQL parser accepts a text under the generic dialect.
pub uninterp spec fn sql_parses(text: Seq<char>) -> bool;

/// Relies on sqlparser's Parser::parse_sql with the generic dialect: whether
/// a text parses is a function of the text alone; the result is the
/// statements, or the parser's error message.
#[verifier::external_body]
fn parse_sql_generic(sql: &str) -> (r: Result<Vec<sqlparser::ast::Statement>, String>)
    ensures
        r is Ok <==> sql_parses(sql@),
{
    sqlparser::parser::Parser::parse_sql(&sqlparser::dialect::GenericDialect {}, sql).map_err(
        |err| err.to_string(),
    )
}

/// Parse one query's SQL text. Exactly the texts the parser accepts come
/// back as statement lists; a malformed text is tagged as a SQL parse
/// failure, carrying the parser's message.
pub fn parse_query_sql(sql: &str) -> (r: Result<Vec<sqlparser::ast::Statement>, BenchRunError>)
    ensures
        r is Ok <==> sql_parses(sql@),
        r matches Err(e) ==> e is SqlParse,
{
    match parse_sql_generic(sql) {
        Ok(statements) => Ok(statements),
        Err(message) => Err(BenchRunError::SqlParse(message)),
    }
}

} // verus!
