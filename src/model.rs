use vstd::prelude::*;

use crate::error::ContractError;

verus! {

/// The abstract state of a registry: the owner, once recorded, and the
/// score stored for each identifier that has one.
pub struct RegistryModel {
    pub owner: Option<Seq<char>>,
    pub scores: Map<Seq<char>, i32>,
}

/// A registry that was never initialized nor written.
pub open spec fn fresh_model() -> RegistryModel {
    RegistryModel { owner: None, scores: Map::empty() }
}

/// Initialization records the caller as owner and leaves the scores alone.
pub open spec fn instantiate_model(m: RegistryModel, caller: Seq<char>) -> RegistryModel {
    RegistryModel { owner: Some(caller), scores: m.scores }
}

/// A score update: refused before initialization and for any caller but the
/// owner; otherwise the target's score is set to `score`, whether or not it
/// had one before.
pub open spec fn update_model(
    m: RegistryModel,
    caller: Seq<char>,
    target: Seq<char>,
    score: i32,
) -> Result<RegistryModel, ContractError> {
    match m.owner {
        None => Err(ContractError::Uninitialized),
        Some(owner) => if caller != owner {
            Err(ContractError::Unauthorized)
        } else {
            Ok(RegistryModel { owner: m.owner, scores: m.scores.insert(target, score) })
        },
    }
}

/// The state after an update: the new state on success, the old one on failure.
pub open spec fn after_update(
    m: RegistryModel,
    caller: Seq<char>,
    target: Seq<char>,
    score: i32,
) -> RegistryModel {
    match update_model(m, caller, target, score) {
        Ok(n) => n,
        Err(_) => m,
    }
}

/// A query: the stored score, or `AddressNotFound` when there is none.
pub open spec fn query_model(m: RegistryModel, target: Seq<char>) -> Result<i32, ContractError> {
    if m.scores.contains_key(target) {
        Ok(m.scores[target])
    } else {
        Err(ContractError::AddressNotFound)
    }
}

/// One state-changing call on a registry.
pub enum Operation {
    Instantiate { caller: Seq<char> },
    Update { caller: Seq<char>, target: Seq<char>, score: i32 },
}

/// The state after one operation; a failed update leaves it unchanged.
pub open spec fn apply(m: RegistryModel, op: Operation) -> RegistryModel {
    match op {
        Operation::Instantiate { caller } => instantiate_model(m, caller),
        Operation::Update { caller, target, score } => after_update(m, caller, target, score),
    }
}

/// The state after a sequence of operations, applied in order from `m`.
pub open spec fn run(m: RegistryModel, ops: Seq<Operation>) -> RegistryModel
    decreases ops.len(),
{
    if ops.len() == 0 {
        m
    } else {
        apply(run(m, ops.drop_last()), ops.last())
    }
}

/// Whether the `i`-th operation of `ops`, run from `m`, is a successful
/// update of `target`.
pub open spec fn writes_at(m: RegistryModel, ops: Seq<Operation>, i: int, target: Seq<char>) -> bool {
    match ops[i] {
        Operation::Update { caller, target: t, score } => t == target && update_model(
            run(m, ops.take(i)),
            caller,
            t,
            score,
        ) is Ok,
        Operation::Instantiate { .. } => false,
    }
}

} // verus!
