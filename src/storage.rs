use vstd::prelude::*;

use cosmwasm_std::{MemoryStorage, StdError, Storage};

verus! {

#[verifier::external_type_specification]
#[verifier::external_body]
pub struct ExMemoryStorage(MemoryStorage);

#[verifier::external_type_specification]
#[verifier::external_body]
pub struct ExStdError(StdError);

/// The records that a `MemoryStorage` holds, key to value.
pub uninterp spec fn storage_contents(s: MemoryStorage) -> Map<Seq<u8>, Seq<u8>>;

/// The bytes that cw2 writes for a contract name and version.
pub uninterp spec fn contract_info_record(name: Seq<char>, version: Seq<char>) -> Seq<u8>;

/// The fixed key under which cw2 keeps the contract's name and version.
pub open spec fn contract_info_key() -> Seq<u8> {
    seq![99u8, 111, 110, 116, 114, 97, 99, 116, 95, 105, 110, 102, 111]
}

/// Relies on `MemoryStorage::new`: a store that holds no record.
#[verifier::external_body]
pub(crate) fn storage_new() -> (r: MemoryStorage)
    ensures
        forall|k: Seq<u8>| !#[trigger] storage_contents(r).contains_key(k),
{
    MemoryStorage::new()
}

/// Relies on `Storage::get` of `MemoryStorage`: a copy of the value under `key`, if any.
#[verifier::external_body]
pub(crate) fn storage_get(s: &MemoryStorage, key: &[u8]) -> (r: Option<Vec<u8>>)
    ensures
        r is Some <==> storage_contents(*s).contains_key(key@),
        r is Some ==> r->0@ == storage_contents(*s)[key@],
{
    s.get(key)
}

/// Relies on `Storage::set` of `MemoryStorage`: the value is stored under `key`,
/// replacing any earlier one. It panics on an empty value.
#[verifier::external_body]
pub(crate) fn storage_set(s: &mut MemoryStorage, key: &[u8], value: &[u8])
    requires
        value@.len() > 0,
    ensures
        storage_contents(*final(s)) == storage_contents(*old(s)).insert(key@, value@),
{
    s.set(key, value)
}

/// Relies on `cw2::set_contract_version`: it saves one record under the
/// contract-info key. The record is two strings encoded by serde-json-wasm,
/// which has no error path for them, so the save always succeeds.
#[verifier::external_body]
pub(crate) fn store_contract_version(s: &mut MemoryStorage, name: &str, version: &str) -> (r:
    Result<(), StdError>)
    ensures
        r is Ok,
        storage_contents(*final(s)) == storage_contents(*old(s)).insert(
            contract_info_key(),
            contract_info_record(name@, version@),
        ),
{
    cw2::set_contract_version(s, name, version)
}

} // verus!
