//! The error kinds the mapping layer surfaces.  A lower-level cause travels
//! as opaque text for logging; callers match on the kind alone.

use vstd::prelude::*;
use vstd::string::StringExecFns;

verus! {

#[derive(Debug, Clone)]
pub enum OrderServiceError {
    /// Any failure the store client reports: connection, RPC, server-side.
    DBError(String),
    /// A get for this row id returned zero rows.
    RowNotFound(String),
    /// A decoded row was too incomplete to rebuild an order.
    OrderBuildFailed(),
    /// The event publisher failed after the store write succeeded.
    EventBrokerError(String),
}

/// The text `message` returns for each error kind.
pub open spec fn error_message(e: OrderServiceError) -> Seq<char> {
    match e {
        OrderServiceError::DBError(cause) => "DBError: "@ + cause@,
        OrderServiceError::RowNotFound(row) => "Error: Row with id: '"@ + row@
            + "' was not found."@,
        OrderServiceError::OrderBuildFailed() => "Error building order from row content."@,
        OrderServiceError::EventBrokerError(cause) => "KafkaError: "@ + cause@,
    }
}

impl OrderServiceError {
    /// A short description of the error, for the API boundary to report.
    pub fn message(&self) -> (r: String)
        ensures
            r@ == error_message(*self),
    {
        match self {
            OrderServiceError::DBError(cause) => {
                let mut s = "DBError: ".to_owned();
                s.append(cause.as_str());
                s
            },
            OrderServiceError::RowNotFound(row) => {
                let mut s = "Error: Row with id: '".to_owned();
                s.append(row.as_str());
                s.append("' was not found.");
                s
            },
            OrderServiceError::OrderBuildFailed() => {
                "Error building order from row content.".to_owned()
            },
            OrderServiceError::EventBrokerError(cause) => {
                let mut s = "KafkaError: ".to_owned();
                s.append(cause.as_str());
                s
            },
        }
    }
}

} // verus!
