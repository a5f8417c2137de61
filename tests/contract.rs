use scoria::contract::{execute, instantiate, query, try_update_score, CONTRACT_NAME, CONTRACT_VERSION};
use scoria::error::ContractError;
use scoria::msg::{ExecuteMsg, QueryMsg, ScoreResponse};
use scoria::state::Registry;

fn get_score(registry: &Registry, address: &str) -> Result<ScoreResponse, ContractError> {
    query(
        registry,
        QueryMsg::GetScore {
            address: address.to_string(),
        },
    )
}

fn initialized(owner: &str) -> Registry {
    let mut registry = Registry::new();
    instantiate(&mut registry, owner, 0).unwrap();
    registry
}

#[test]
fn proper_initialization() {
    let mut registry = Registry::new();
    let res = instantiate(&mut registry, "creator", 0);
    assert_eq!(Ok(()), res);
    assert_eq!(Ok("creator".to_string()), registry.get_owner());
}

#[test]
fn update_and_query() {
    let mut registry = initialized("creator");
    let msg = ExecuteMsg::UpdateScore {
        address: "creator".to_string(),
        score: 3,
    };
    execute(&mut registry, "creator", msg).unwrap();
    match get_score(&registry, "creator") {
        Ok(score) => assert_eq!(3, score.score),
        _ => panic!("Must verify score"),
    }
}

#[test]
fn fail_to_update() {
    let mut registry = initialized("creator");
    let msg = ExecuteMsg::UpdateScore {
        address: "crook".to_string(),
        score: 9999999,
    };
    match execute(&mut registry, "crook", msg) {
        Err(ContractError::Unauthorized) => {}
        _ => panic!("Must return unauthorized error"),
    }
}

#[test]
fn fail_to_find() {
    let registry = initialized("creator");
    match get_score(&registry, "creator") {
        Err(ContractError::AddressNotFound) => {}
        _ => panic!("Must return address not found error"),
    }
}

#[test]
fn initialize_sets_owner_and_no_score() {
    let registry = initialized("creator");
    assert_eq!(Ok("creator".to_string()), registry.get_owner());
    assert_eq!(Err(ContractError::AddressNotFound), get_score(&registry, "creator"));
}

#[test]
fn owner_update_then_query() {
    let mut registry = initialized("creator");
    assert_eq!(Ok(()), try_update_score(&mut registry, "creator", "creator", 3));
    assert_eq!(Ok(ScoreResponse { score: 3 }), get_score(&registry, "creator"));
}

#[test]
fn crook_cannot_write() {
    let mut registry = initialized("creator");
    assert_eq!(
        Err(ContractError::Unauthorized),
        try_update_score(&mut registry, "crook", "crook", 9999999)
    );
    assert_eq!(Err(ContractError::AddressNotFound), get_score(&registry, "crook"));
}

#[test]
fn unauthorized_write_keeps_existing_score() {
    let mut registry = initialized("creator");
    try_update_score(&mut registry, "creator", "alice", 7).unwrap();
    assert_eq!(
        Err(ContractError::Unauthorized),
        try_update_score(&mut registry, "alice", "alice", 8)
    );
    assert_eq!(Ok(ScoreResponse { score: 7 }), get_score(&registry, "alice"));
}

#[test]
fn second_write_overwrites_first() {
    let mut registry = initialized("creator");
    try_update_score(&mut registry, "creator", "alice", -5).unwrap();
    try_update_score(&mut registry, "creator", "alice", 0).unwrap();
    assert_eq!(Ok(ScoreResponse { score: 0 }), get_score(&registry, "alice"));
}

#[test]
fn fresh_registry_finds_nobody() {
    let registry = initialized("creator");
    assert_eq!(Err(ContractError::AddressNotFound), get_score(&registry, "nobody"));
}

#[test]
fn update_before_instantiate_is_uninitialized() {
    let mut registry = Registry::new();
    assert_eq!(
        Err(ContractError::Uninitialized),
        try_update_score(&mut registry, "creator", "creator", 1)
    );
    assert_eq!(Err(ContractError::Uninitialized), registry.get_owner());
    assert_eq!(Err(ContractError::Uninitialized), registry.is_owner("creator"));
    assert_eq!(Err(ContractError::AddressNotFound), get_score(&registry, "creator"));
    instantiate(&mut registry, "creator", 0).unwrap();
    assert_eq!(Ok(()), try_update_score(&mut registry, "creator", "creator", 1));
}

#[test]
fn extreme_values_round_trip() {
    let mut registry = initialized("creator");
    for v in [i32::MIN, -1, 0, 1, 9999999, i32::MAX] {
        try_update_score(&mut registry, "creator", "bob", v).unwrap();
        assert_eq!(Ok(ScoreResponse { score: v }), get_score(&registry, "bob"));
    }
}

#[test]
fn identifiers_are_compared_exactly() {
    let mut registry = initialized("creator");
    assert_eq!(Ok(true), registry.is_owner("creator"));
    assert_eq!(Ok(false), registry.is_owner("Creator"));
    assert_eq!(Ok(false), registry.is_owner("creator "));
    assert_eq!(Ok(false), registry.is_owner("creato"));
    try_update_score(&mut registry, "creator", "e", 1).unwrap();
    try_update_score(&mut registry, "creator", "é", 2).unwrap();
    try_update_score(&mut registry, "creator", "", 3).unwrap();
    assert_eq!(Ok(ScoreResponse { score: 1 }), get_score(&registry, "e"));
    assert_eq!(Ok(ScoreResponse { score: 2 }), get_score(&registry, "é"));
    assert_eq!(Ok(ScoreResponse { score: 3 }), get_score(&registry, ""));
    assert_eq!(Err(ContractError::AddressNotFound), get_score(&registry, "ee"));
}

#[test]
fn score_of_matches_query() {
    let mut registry = initialized("creator");
    try_update_score(&mut registry, "creator", "carol", -42).unwrap();
    assert_eq!(Ok(-42), registry.score_of("carol"));
    assert_eq!(Err(ContractError::AddressNotFound), registry.score_of("dave"));
}

#[test]
fn empty_and_unicode_owner() {
    let mut registry = initialized("");
    assert_eq!(Ok(String::new()), registry.get_owner());
    assert_eq!(Ok(()), try_update_score(&mut registry, "", "x", 5));
    assert_eq!(Err(ContractError::Unauthorized), try_update_score(&mut registry, "x", "x", 6));

    let registry = initialized("ownér✓");
    assert_eq!(Ok("ownér✓".to_string()), registry.get_owner());
}

#[test]
fn contract_identity() {
    assert_eq!("scoria", CONTRACT_NAME);
    assert_eq!("1", CONTRACT_VERSION);
}
