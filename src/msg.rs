use vstd::prelude::*;

verus! {

/// The write operations of the registry.
#[derive(Clone, Debug, PartialEq, Eq)]
pub enum ExecuteMsg {
    /// Set the score of `address` to `score`.
    UpdateScore { address: String, score: i32 },
}

/// The read operations of the registry.
#[derive(Clone, Debug, PartialEq, Eq)]
pub enum QueryMsg {
    /// Read the score of `address`.
    GetScore { address: String },
}

/// The answer to a score query.
#[derive(Clone, Copy, Debug, PartialEq, Eq, Structural)]
pub struct ScoreResponse {
    pub score: i32,
}

} // verus!
