use vstd::prelude::*;

use crate::error::ContractError;
use crate::model::{after_update, instantiate_model, query_model, update_model};
use crate::msg::{ExecuteMsg, QueryMsg, ScoreResponse};
use crate::state::Registry;

verus! {

/// The contract's name, as recorded for upgrade checks.
pub const CONTRACT_NAME: &'static str = "scoria";

/// The contract's version, as recorded for upgrade checks.
pub const CONTRACT_VERSION: &'static str = "1";

/// Records `sender` as the owner, after writing the contract's name and
/// version beside the registry. It always succeeds and leaves the scores as
/// they were.
pub fn instantiate(registry: &mut Registry, sender: &str, _msg: u32) -> (r: Result<(), ContractError>)
    requires
        old(registry).wf(),
    ensures
        final(registry).wf(),
        r is Ok,
        final(registry)@ == instantiate_model(old(registry)@, sender@),
{
    registry.record_version(CONTRACT_NAME, CONTRACT_VERSION);
    registry.set_owner(sender);
    Ok(())
}

/// Carries out a write operation on behalf of `sender`.
pub fn execute(registry: &mut Registry, sender: &str, msg: ExecuteMsg) -> (r: Result<(), ContractError>)
    requires
        old(registry).wf(),
    ensures
        final(registry).wf(),
        match msg {
            ExecuteMsg::UpdateScore { address, score } => {
                &&& final(registry)@ == after_update(old(registry)@, sender@, address@, score)
                &&& match update_model(old(registry)@, sender@, address@, score) {
                    Ok(_) => r is Ok,
                    Err(e) => r == Err::<(), ContractError>(e),
                }
            },
        },
{
    match msg {
        ExecuteMsg::UpdateScore { address, score } => try_update_score(
            registry,
            sender,
            address.as_str(),
            score,
        ),
    }
}

/// Sets the score of `address` to `score` when `sender` is the owner: the
/// same upsert whether or not `address` had a score. Before initialization it
/// fails with `Uninitialized`, for any other caller with `Unauthorized`, and a
/// failure changes nothing.
pub fn try_update_score(registry: &mut Registry, sender: &str, address: &str, score: i32) -> (r:
    Result<(), ContractError>)
    requires
        old(registry).wf(),
    ensures
        final(registry).wf(),
        final(registry)@ == after_update(old(registry)@, sender@, address@, score),
        match update_model(old(registry)@, sender@, address@, score) {
            Ok(_) => r is Ok,
            Err(e) => r == Err::<(), ContractError>(e),
        },
        old(registry)@.owner is None ==> r == Err::<(), ContractError>(
            ContractError::Uninitialized,
        ),
        old(registry)@.owner is Some ==> (r is Ok <==> old(registry)@.owner == Some(sender@)),
        r is Ok ==> final(registry)@.scores == old(registry)@.scores.insert(address@, score),
{
    match registry.is_owner(sender) {
        Err(e) => Err(e),
        Ok(false) => Err(ContractError::Unauthorized),
        Ok(true) => {
            registry.set_score(address, score);
            Ok(())
        },
    }
}

/// Answers a read operation; it never consults the owner and never changes
/// the registry.
pub fn query(registry: &Registry, msg: QueryMsg) -> (r: Result<ScoreResponse, ContractError>)
    requires
        registry.wf(),
    ensures
        match msg {
            QueryMsg::GetScore { address } => match query_model(registry@, address@) {
                Ok(v) => r == Ok::<ScoreResponse, ContractError>(ScoreResponse { score: v }),
                Err(e) => r == Err::<ScoreResponse, ContractError>(e),
            },
        },
{
    match msg {
        QueryMsg::GetScore { address } => match registry.score_of(address.as_str()) {
            Ok(v) => Ok(ScoreResponse { score: v }),
            Err(e) => Err(e),
        },
    }
}

} // verus!
