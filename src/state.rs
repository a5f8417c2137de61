use vstd::prelude::*;

use cosmwasm_std::MemoryStorage;
use vstd::bytes::{
    lemma_auto_spec_u32_to_from_le_bytes, spec_u32_from_le_bytes, spec_u32_to_le_bytes,
    u32_from_le_bytes, u32_to_le_bytes,
};
use vstd::utf8::{decode_utf8, encode_utf8, encode_utf8_decode_utf8, encode_utf8_valid_utf8, valid_utf8};

use crate::error::ContractError;
use crate::model::{fresh_model, instantiate_model, query_model, RegistryModel};
use crate::storage::{
    contract_info_key, contract_info_record, storage_contents, storage_get, storage_new, storage_set,
    store_contract_version,
};

verus! {

broadcast use {encode_utf8_decode_utf8, encode_utf8_valid_utf8};

/// The singleton slot that holds the owner record (`"state"`).
pub open spec fn owner_key() -> Seq<u8> {
    seq![115u8, 116, 97, 116, 101]
}

/// The prefix of the score keyspace: the length of the namespace on two
/// bytes, then the namespace `"scores"`.
pub open spec fn score_prefix() -> Seq<u8> {
    seq![0u8, 6, 115, 99, 111, 114, 101, 115]
}

/// The key of an identifier's score: the prefix, then the identifier's bytes.
pub open spec fn score_key(id: Seq<char>) -> Seq<u8> {
    score_prefix() + encode_utf8(id)
}

/// The stored owner record: a tag byte, then the owner's bytes. The tag keeps
/// the record non-empty for an empty identifier.
pub open spec fn owner_record(id: Seq<char>) -> Seq<u8> {
    seq![1u8] + encode_utf8(id)
}

/// The stored form of a score: its 32 bits, little-endian.
pub open spec fn score_record(v: i32) -> Seq<u8> {
    spec_u32_to_le_bytes(#[verifier::truncate] (v as u32))
}

proof fn lemma_score_key_injective(a: Seq<char>, b: Seq<char>)
    requires
        score_key(a) == score_key(b),
    ensures
        a == b,
{
    let n = score_prefix().len() as int;
    assert(encode_utf8(a) =~= score_key(a).subrange(n, score_key(a).len() as int));
    assert(encode_utf8(b) =~= score_key(b).subrange(n, score_key(b).len() as int));
    assert(decode_utf8(encode_utf8(a)) == a);
    assert(decode_utf8(encode_utf8(b)) == b);
}

/// The score keyspace of `c` holds the record of each score in `scores` and
/// nothing else.
pub open spec fn scores_stored(c: Map<Seq<u8>, Seq<u8>>, scores: Map<Seq<char>, i32>) -> bool {
    &&& forall|id: Seq<char>| #[trigger] c.contains_key(score_key(id)) == scores.contains_key(id)
    &&& forall|id: Seq<char>| #[trigger]
        scores.contains_key(id) ==> c[score_key(id)] == score_record(scores[id])
}

/// A write under a key outside the score keyspace leaves the scores as stored.
proof fn lemma_write_outside_scores(
    c: Map<Seq<u8>, Seq<u8>>,
    scores: Map<Seq<char>, i32>,
    key: Seq<u8>,
    value: Seq<u8>,
)
    requires
        scores_stored(c, scores),
        key.len() > 0,
        key[0] != 0u8,
    ensures
        scores_stored(c.insert(key, value), scores),
{
    assert forall|id: Seq<char>| #[trigger] score_key(id) != key by {
        assert(score_key(id)[0] == 0u8);
    }
}

proof fn lemma_score_record_round_trip(v: i32)
    ensures
        score_record(v).len() == 4,
        #[verifier::truncate] (spec_u32_from_le_bytes(score_record(v)) as i32) == v,
{
    lemma_auto_spec_u32_to_from_le_bytes();
    let x = #[verifier::truncate] (v as u32);
    assert(spec_u32_to_le_bytes(x).len() == 4);
    assert(spec_u32_from_le_bytes(spec_u32_to_le_bytes(x)) == x);
    assert(x as i32 == v) by (bit_vector)
        requires
            x == v as u32,
    ;
}

/// A score registry kept in a key-value store: the owner in a singleton slot
/// and each score under a key made from its identifier.
pub struct Registry {
    storage: MemoryStorage,
    owner: Ghost<Option<Seq<char>>>,
    scores: Ghost<Map<Seq<char>, i32>>,
}

impl View for Registry {
    type V = RegistryModel;

    closed spec fn view(&self) -> RegistryModel {
        RegistryModel { owner: self.owner@, scores: self.scores@ }
    }
}

/// Relies on `String::from_utf8`: it succeeds exactly on valid UTF-8 and then
/// holds the characters that the bytes encode.
#[verifier::external_body]
fn string_from_utf8(b: Vec<u8>) -> (r: Option<String>)
    ensures
        r is Some <==> valid_utf8(b@),
        r is Some ==> r->0@ == decode_utf8(b@),
{
    match String::from_utf8(b) {
        Ok(s) => Some(s),
        Err(_) => None,
    }
}

fn owner_key_bytes() -> (r: Vec<u8>)
    ensures
        r@ == owner_key(),
{
    let r: Vec<u8> = vec![115u8, 116, 97, 116, 101];
    assert(r@ =~= owner_key());
    r
}

fn score_key_bytes(id: &str) -> (r: Vec<u8>)
    ensures
        r@ == score_key(id@),
{
    let mut r: Vec<u8> = vec![0u8, 6, 115, 99, 111, 114, 101, 115];
    r.extend_from_slice(id.as_bytes());
    assert(r@ =~= score_key(id@));
    r
}

fn owner_record_bytes(id: &str) -> (r: Vec<u8>)
    ensures
        r@ == owner_record(id@),
{
    let mut r: Vec<u8> = vec![1u8];
    r.extend_from_slice(id.as_bytes());
    assert(r@ =~= owner_record(id@));
    r
}

fn bytes_equal(a: &[u8], b: &[u8]) -> (r: bool)
    ensures
        r == (a@ == b@),
{
    if a.len() != b.len() {
        return false;
    }
    let mut i: usize = 0;
    while i < a.len()
        invariant
            a@.len() == b@.len(),
            0 <= i <= a@.len(),
            forall|j: int| 0 <= j < i ==> a@[j] == b@[j],
        decreases a@.len() - i,
    {
        if a[i] != b[i] {
            return false;
        }
        i = i + 1;
    }
    assert(a@ =~= b@);
    true
}

impl Registry {
    /// The store and its model agree: the owner slot holds the owner's record
    /// exactly when there is an owner, and the score keyspace holds the record
    /// of each stored score and nothing else.
    pub closed spec fn wf(&self) -> bool {
        let c = storage_contents(self.storage);
        &&& match self.owner@ {
            Some(o) => c.contains_key(owner_key()) && c[owner_key()] == owner_record(o),
            None => !c.contains_key(owner_key()),
        }
        &&& scores_stored(c, self.scores@)
    }

    /// An empty registry: no owner and no score.
    pub fn new() -> (r: Registry)
        ensures
            r.wf(),
            r@ == fresh_model(),
    {
        let r = Registry { storage: storage_new(), owner: Ghost(None), scores: Ghost(Map::empty()) };
        assert forall|id: Seq<char>| #[trigger]
            storage_contents(r.storage).contains_key(score_key(id)) == r.scores@.contains_key(
                id,
            ) by {}
        assert(r@ =~= fresh_model());
        r
    }

    /// The recorded owner; `Uninitialized` before any owner was recorded.
    pub fn get_owner(&self) -> (r: Result<String, ContractError>)
        requires
            self.wf(),
        ensures
            match self@.owner {
                None => r == Err::<String, ContractError>(ContractError::Uninitialized),
                Some(o) => r is Ok && r->Ok_0@ == o,
            },
    {
        let key = owner_key_bytes();
        match storage_get(&self.storage, key.as_slice()) {
            None => Err(ContractError::Uninitialized),
            Some(mut record) => {
                if record.len() == 0 {
                    return Err(ContractError::StorageFailure);
                }
                let ghost o = self.owner@->0;
                record.remove(0);
                assert(record@ =~= encode_utf8(o));
                match string_from_utf8(record) {
                    Some(s) => Ok(s),
                    None => Err(ContractError::StorageFailure),
                }
            },
        }
    }

    /// Whether `caller` is the recorded owner; `Uninitialized` before any
    /// owner was recorded.
    pub fn is_owner(&self, caller: &str) -> (r: Result<bool, ContractError>)
        requires
            self.wf(),
        ensures
            match self@.owner {
                None => r == Err::<bool, ContractError>(ContractError::Uninitialized),
                Some(o) => r == Ok::<bool, ContractError>(caller@ == o),
            },
    {
        let key = owner_key_bytes();
        match storage_get(&self.storage, key.as_slice()) {
            None => Err(ContractError::Uninitialized),
            Some(record) => {
                let expected = owner_record_bytes(caller);
                let same = bytes_equal(record.as_slice(), expected.as_slice());
                proof {
                    let o = self.owner@->0;
                    if caller@ != o {
                        assert(encode_utf8(caller@) =~= owner_record(caller@).drop_first());
                        assert(encode_utf8(o) =~= owner_record(o).drop_first());
                        assert(decode_utf8(encode_utf8(caller@)) == caller@);
                        assert(decode_utf8(encode_utf8(o)) == o);
                    }
                }
                Ok(same)
            },
        }
    }

    /// The score stored for `id`; `AddressNotFound` when there is none.
    pub fn score_of(&self, id: &str) -> (r: Result<i32, ContractError>)
        requires
            self.wf(),
        ensures
            r == query_model(self@, id@),
    {
        let key = score_key_bytes(id);
        match storage_get(&self.storage, key.as_slice()) {
            None => Err(ContractError::AddressNotFound),
            Some(record) => {
                proof {
                    lemma_score_record_round_trip(self.scores@[id@]);
                }
                if record.len() != 4 {
                    return Err(ContractError::StorageFailure);
                }
                let bits = u32_from_le_bytes(record.as_slice());
                Ok(bits as i32)
            },
        }
    }

    /// Records `owner` as the owner, replacing any earlier record.
    pub(crate) fn set_owner(&mut self, owner: &str)
        requires
            old(self).wf(),
        ensures
            final(self).wf(),
            final(self)@ == instantiate_model(old(self)@, owner@),
    {
        let key = owner_key_bytes();
        let record = owner_record_bytes(owner);
        proof {
            lemma_write_outside_scores(
                storage_contents(self.storage),
                self.scores@,
                key@,
                record@,
            );
        }
        storage_set(&mut self.storage, key.as_slice(), record.as_slice());
        self.owner = Ghost(Some(owner@));
        assert(self@ =~= instantiate_model(old(self)@, owner@));
    }

    /// Stores `score` for `id`, whether or not `id` had a score before.
    pub(crate) fn set_score(&mut self, id: &str, score: i32)
        requires
            old(self).wf(),
        ensures
            final(self).wf(),
            final(self)@ == (RegistryModel {
                owner: old(self)@.owner,
                scores: old(self)@.scores.insert(id@, score),
            }),
    {
        let key = score_key_bytes(id);
        let record = u32_to_le_bytes(score as u32);
        storage_set(&mut self.storage, key.as_slice(), record.as_slice());
        self.scores = Ghost(self.scores@.insert(id@, score));
        assert(score_key(id@) != owner_key()) by {
            assert(score_key(id@)[0] != owner_key()[0]);
        }
        assert forall|other: Seq<char>| #[trigger]
            storage_contents(self.storage).contains_key(score_key(other))
                == self.scores@.contains_key(other) by {
            if other != id@ {
                if score_key(other) == score_key(id@) {
                    lemma_score_key_injective(other, id@);
                }
            }
        }
        assert forall|other: Seq<char>| #[trigger]
            self.scores@.contains_key(other) implies storage_contents(self.storage)[score_key(
            other,
        )] == score_record(self.scores@[other]) by {
            if other != id@ {
                if score_key(other) == score_key(id@) {
                    lemma_score_key_injective(other, id@);
                }
            }
        }
        assert(self@ =~= RegistryModel {
            owner: old(self)@.owner,
            scores: old(self)@.scores.insert(id@, score),
        });
    }

    /// Writes the contract's name and version beside the registry's records;
    /// the registry itself is not changed.
    pub(crate) fn record_version(&mut self, name: &str, version: &str)
        requires
            old(self).wf(),
        ensures
            final(self).wf(),
            final(self)@ == old(self)@,
    {
        proof {
            lemma_write_outside_scores(
                storage_contents(self.storage),
                self.scores@,
                contract_info_key(),
                contract_info_record(name@, version@),
            );
            assert(owner_key()[0] != contract_info_key()[0]);
        }
        let _ = store_contract_version(&mut self.storage, name, version);
    }
}

} // verus!
