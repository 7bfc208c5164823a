//! Queries: a raw statement handed through as it is, or a search phrase that
//! is wrapped into a call of the full-text search function.

use vstd::prelude::*;
use vstd::string::StringExecFns;

verus! {

/// What stands before the phrase in the statement of a full-text search.
pub open spec fn fts_prefix() -> Seq<char> {
    "SELECT uuid FROM document_title_authors_text_view_fts("@
}

/// What stands after the phrase in the statement of a full-text search.
pub open spec fn fts_suffix() -> Seq<char> {
    ")"@
}

/// A query against the store.
#[derive(Debug, PartialEq)]
pub enum QueryType {
    /// A phrase for the full-text search over titles, authors and text.
    Fts(String),
    /// A statement handed through unchanged.
    Sql(String),
}

impl QueryType {
    /// The text the query was made from: the phrase, or the raw statement.
    pub open spec fn text(&self) -> Seq<char> {
        match self {
            QueryType::Fts(inner) => inner@,
            QueryType::Sql(inner) => inner@,
        }
    }

    /// The statement that the query stands for.
    pub open spec fn sql(&self) -> Seq<char> {
        match self {
            QueryType::Fts(inner) => fts_prefix() + inner@ + fts_suffix(),
            QueryType::Sql(inner) => inner@,
        }
    }

    /// The phrase or raw statement, for display and comparison.
    pub fn as_ref(&self) -> (text: &str)
        ensures
            text@ == self.text(),
    {
        match self {
            QueryType::Fts(inner) => inner.as_str(),
            QueryType::Sql(inner) => inner.as_str(),
        }
    }

    /// Renders the query as a statement: a search phrase is put between the
    /// brackets of the search function, a raw statement is returned as it is.
    pub fn as_sql(&self) -> (statement: String)
        ensures
            statement@ == self.sql(),
    {
        match self {
            QueryType::Fts(inner) => {
                let mut statement = String::from_str(
                    "SELECT uuid FROM document_title_authors_text_view_fts(",
                );
                statement.append(inner.as_str());
                statement.append(")");
                statement
            },
            QueryType::Sql(inner) => inner.clone(),
        }
    }

    /// Whether the query is a full-text search phrase.
    pub fn is_fts(&self) -> (fts: bool)
        ensures
            fts == (self is Fts),
    {
        match self {
            QueryType::Fts(_) => true,
            QueryType::Sql(_) => false,
        }
    }
}

} // verus!
