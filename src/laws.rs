use vstd::prelude::*;

use crate::error::ContractError;
use crate::model::{
    after_update, fresh_model, instantiate_model, query_model, run, update_model, writes_at,
    Operation, RegistryModel,
};

verus! {

/// Only the owner can write: once an owner is recorded, an update succeeds
/// exactly when the caller is the owner, and any other caller gets
/// `Unauthorized` with the target's score left as it was.
pub proof fn lemma_only_owner_writes(
    m: RegistryModel,
    caller: Seq<char>,
    target: Seq<char>,
    score: i32,
)
    requires
        m.owner is Some,
    ensures
        update_model(m, caller, target, score) is Ok <==> m.owner == Some(caller),
        m.owner != Some(caller) ==> update_model(m, caller, target, score) == Err::<
            RegistryModel,
            ContractError,
        >(ContractError::Unauthorized),
        m.owner != Some(caller) ==> query_model(after_update(m, caller, target, score), target)
            == query_model(m, target),
{
}

/// The last write wins: two updates by the owner of the same identifier
/// leave the second value, whether or not the identifier had a score before.
pub proof fn lemma_last_write_wins(
    m: RegistryModel,
    owner: Seq<char>,
    target: Seq<char>,
    first: i32,
    second: i32,
)
    requires
        m.owner == Some(owner),
    ensures
        query_model(
            after_update(after_update(m, owner, target, first), owner, target, second),
            target,
        ) == Ok::<i32, ContractError>(second),
{
}

/// A fresh registry holds no score: every query fails with `AddressNotFound`.
pub proof fn lemma_fresh_registry_has_no_scores(target: Seq<char>)
    ensures
        query_model(fresh_model(), target) == Err::<i32, ContractError>(
            ContractError::AddressNotFound,
        ),
{
}

/// Scores come only from successful updates of that identifier:
/// initialization changes no query's answer, and after any update a query
/// that succeeds either succeeded before or asks for the target of that
/// update, which succeeded.
pub proof fn lemma_scores_come_from_updates(
    m: RegistryModel,
    caller: Seq<char>,
    target: Seq<char>,
    score: i32,
    asked: Seq<char>,
)
    ensures
        query_model(instantiate_model(m, caller), asked) == query_model(m, asked),
        query_model(after_update(m, caller, target, score), asked) is Ok ==> query_model(
            m,
            asked,
        ) is Ok || (update_model(m, caller, target, score) is Ok && asked == target),
{
}

/// Before initialization every update fails with `Uninitialized` and changes
/// nothing.
pub proof fn lemma_no_update_before_init(
    m: RegistryModel,
    caller: Seq<char>,
    target: Seq<char>,
    score: i32,
)
    requires
        m.owner is None,
    ensures
        update_model(m, caller, target, score) == Err::<RegistryModel, ContractError>(
            ContractError::Uninitialized,
        ),
        after_update(m, caller, target, score) == m,
{
}

/// An update by the owner is read back exactly: the query of its target
/// returns the value written, with no coercion of any kind.
pub proof fn lemma_round_trip(m: RegistryModel, caller: Seq<char>, target: Seq<char>, score: i32)
    requires
        update_model(m, caller, target, score) is Ok,
    ensures
        query_model(after_update(m, caller, target, score), target) == Ok::<i32, ContractError>(
            score,
        ),
{
}

/// A query on a registry that started fresh succeeds only for an identifier
/// that some earlier operation updated successfully.
pub proof fn lemma_query_needs_prior_update(ops: Seq<Operation>, target: Seq<char>)
    ensures
        query_model(run(fresh_model(), ops), target) is Ok ==> exists|i: int|
            0 <= i < ops.len() && #[trigger] writes_at(fresh_model(), ops, i, target),
    decreases ops.len(),
{
    if ops.len() > 0 {
        let prefix = ops.drop_last();
        let i = ops.len() - 1;
        assert(ops.take(i) =~= prefix);
        lemma_query_needs_prior_update(prefix, target);
        if query_model(run(fresh_model(), prefix), target) is Ok {
            let j = choose|j: int| 0 <= j < prefix.len() && #[trigger] writes_at(
                fresh_model(),
                prefix,
                j,
                target,
            );
            assert(prefix.take(j) =~= ops.take(j));
            assert(writes_at(fresh_model(), ops, j, target));
        } else if query_model(run(fresh_model(), ops), target) is Ok {
            match ops.last() {
                Operation::Instantiate { caller } => {
                    lemma_scores_come_from_updates(
                        run(fresh_model(), prefix),
                        caller,
                        target,
                        0,
                        target,
                    );
                },
                Operation::Update { caller, target: t, score } => {
                    lemma_scores_come_from_updates(
                        run(fresh_model(), prefix),
                        caller,
                        t,
                        score,
                        target,
                    );
                    assert(writes_at(fresh_model(), ops, i, target));
                },
            }
        }
    }
}

/// Until some operation initializes the registry there is no owner, so every
/// update in such a sequence fails with `Uninitialized`.
pub proof fn lemma_no_owner_before_init(ops: Seq<Operation>)
    requires
        forall|i: int| 0 <= i < ops.len() ==> !(#[trigger] ops[i] is Instantiate),
    ensures
        run(fresh_model(), ops) == fresh_model(),
        forall|caller: Seq<char>, target: Seq<char>, score: i32|
            #[trigger] update_model(run(fresh_model(), ops), caller, target, score) == Err::<
                RegistryModel,
                ContractError,
            >(ContractError::Uninitialized),
    decreases ops.len(),
{
    if ops.len() > 0 {
        let prefix = ops.drop_last();
        assert forall|i: int| 0 <= i < prefix.len() implies !(#[trigger] prefix[i] is Instantiate) by {
            assert(prefix[i] == ops[i]);
        }
        lemma_no_owner_before_init(prefix);
        assert(ops.last() == ops[ops.len() - 1]);
    }
}

} // verus!
