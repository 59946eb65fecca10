//! Plain-value mirrors of the store's wire structures: the scan descriptor,
//! cell mutations and row results.  The connection layer translates these
//! one-for-one into the client library's own types.

use vstd::prelude::*;

verus! {

/// One cell write while it is being assembled: the column still split into
/// family and qualifier.
#[derive(Debug, Clone, PartialEq)]
pub struct MutationBuilder {
    pub column: Option<(String, String)>,
    pub value: Option<Vec<u8>>,
}

/// One cell write as sent to the store: the column joined as
/// `family:qualifier` bytes.
#[derive(Debug, Clone, PartialEq)]
pub struct Mutation {
    pub column: Option<Vec<u8>>,
    pub value: Option<Vec<u8>>,
}

/// All cell writes of one row.
#[derive(Debug, Clone, PartialEq)]
pub struct BatchMutation {
    pub row: Option<Vec<u8>>,
    pub mutations: Option<Vec<Mutation>>,
}

/// One stored cell value, as fetched.
#[derive(Debug, Clone, PartialEq)]
pub struct TCell {
    pub value: Option<Vec<u8>>,
    pub timestamp: Option<i64>,
}

/// One fetched row: a key and its `column name -> cell` entries.
#[derive(Debug, Clone, PartialEq)]
pub struct TRowResult {
    pub row: Option<Vec<u8>>,
    pub columns: Option<Vec<(Vec<u8>, TCell)>>,
    pub sorted_columns: Option<Vec<(Vec<u8>, TCell)>>,
}

/// The creation parameters every column family of the order table is made
/// with.  The connection layer copies them into the client library's own
/// descriptor when it creates the table.
#[derive(Debug, Clone, PartialEq)]
pub struct FamilyCreationParams {
    pub max_versions: i32,
    pub time_to_live: i32,
    pub compression: String,
    pub bloom_filter_type: String,
}

/// A full-table scan request: the columns to fetch and a server-side filter
/// expression, with batching, sorting and caching hints all disabled.
#[derive(Debug, Clone, PartialEq)]
pub struct TScan {
    pub start_row: Option<Vec<u8>>,
    pub stop_row: Option<Vec<u8>>,
    pub timestamp: Option<i64>,
    pub columns: Option<Vec<Vec<u8>>>,
    pub caching: Option<i32>,
    pub filter_string: Option<Vec<u8>>,
    pub batch_size: Option<i32>,
    pub sort_columns: Option<bool>,
    pub reversed: Option<bool>,
    pub cache_blocks: Option<bool>,
}

} // verus!
