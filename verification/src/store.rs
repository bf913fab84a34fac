//! The rows the pipeline persists, and insert-if-absent on their natural keys.

use vstd::prelude::*;
use vstd::string::*;

verus! {

/// A natural key: three text columns.
pub type Key = (Seq<char>, Seq<char>, Seq<char>);

/// A token's metadata row.
pub struct NftMetadata {
    pub contract_address: String,
    pub token_id: String,
    pub chain: String,
    pub name: Option<String>,
    pub description: Option<String>,
    pub attributes: Option<serde_json::Value>,
    pub raw_metadata: serde_json::Value,
}

/// A mirrored media object of a token.
pub struct NftMedia {
    pub contract_address: String,
    pub token_id: String,
    pub media_type: String,
    pub original_url: String,
    pub cached_url: String,
    pub storage_backend: String,
}

impl NftMetadata {
    /// The natural key: contract, token and chain.
    pub open spec fn key(self) -> Key {
        (self.contract_address@, self.token_id@, self.chain@)
    }

    /// A copy of the row.
    pub fn duplicate(&self) -> (out: NftMetadata)
        ensures
            out == *self,
    {
        NftMetadata {
            contract_address: self.contract_address.clone(),
            token_id: self.token_id.clone(),
            chain: self.chain.clone(),
            name: match &self.name {
                Some(s) => Some(s.clone()),
                None => None,
            },
            description: match &self.description {
                Some(s) => Some(s.clone()),
                None => None,
            },
            attributes: match &self.attributes {
                Some(v) => Some(v.clone()),
                None => None,
            },
            raw_metadata: self.raw_metadata.clone(),
        }
    }
}

impl NftMedia {
    /// The natural key: contract, token and media type.
    pub open spec fn key(self) -> Key {
        (self.contract_address@, self.token_id@, self.media_type@)
    }

    /// A copy of the row.
    pub fn duplicate(&self) -> (out: NftMedia)
        ensures
            out == *self,
    {
        NftMedia {
            contract_address: self.contract_address.clone(),
            token_id: self.token_id.clone(),
            media_type: self.media_type.clone(),
            original_url: self.original_url.clone(),
            cached_url: self.cached_url.clone(),
            storage_backend: self.storage_backend.clone(),
        }
    }
}

/// No key occurs twice.
pub open spec fn unique_keys(keys: Seq<Key>) -> bool {
    forall|i: int, j: int| 0 <= i < j < keys.len() ==> keys[i] != keys[j]
}

/// How often `key` occurs in `keys`.
pub open spec fn occurrences(keys: Seq<Key>, key: Key) -> nat
    decreases keys.len(),
{
    if keys.len() == 0 {
        0
    } else {
        occurrences(keys.drop_last(), key) + if keys.last() == key {
            1nat
        } else {
            0nat
        }
    }
}

/// Insert-if-absent on a sequence of keys.
pub open spec fn insert_key(keys: Seq<Key>, key: Key) -> Seq<Key> {
    if keys.contains(key) {
        keys
    } else {
        keys.push(key)
    }
}

/// The keys after `key` was delivered `times` times in a row.
pub open spec fn redeliver(keys: Seq<Key>, key: Key, times: nat) -> Seq<Key>
    decreases times,
{
    if times == 0 {
        keys
    } else {
        insert_key(redeliver(keys, key, (times - 1) as nat), key)
    }
}

/// A key that occurs nowhere is counted zero times, and one that occurs is
/// counted at least once.
pub proof fn lemma_occurrences_contains(keys: Seq<Key>, key: Key)
    ensures
        keys.contains(key) <==> occurrences(keys, key) > 0,
    decreases keys.len(),
{
    if keys.len() > 0 {
        let front = keys.drop_last();
        lemma_occurrences_contains(front, key);
        if front.contains(key) {
            let i = choose|i: int| 0 <= i < front.len() && front[i] == key;
            assert(keys[i] == key);
        }
        if keys.last() == key {
            assert(keys[keys.len() - 1] == key);
        }
        if keys.contains(key) {
            let i = choose|i: int| 0 <= i < keys.len() && keys[i] == key;
            if i < keys.len() - 1 {
                assert(front[i] == key);
            }
        }
    }
}

/// Where no key occurs twice, a key that occurs is counted exactly once.
pub proof fn lemma_unique_occurs_once(keys: Seq<Key>, key: Key)
    requires
        unique_keys(keys),
        keys.contains(key),
    ensures
        occurrences(keys, key) == 1,
    decreases keys.len(),
{
    if keys.len() > 0 {
        let front = keys.drop_last();
        assert(unique_keys(front)) by {
            assert forall|i: int, j: int| 0 <= i < j < front.len() implies front[i] != front[j] by {
                assert(front[i] == keys[i] && front[j] == keys[j]);
            }
        }
        lemma_occurrences_contains(front, key);
        if front.contains(key) {
            let i = choose|i: int| 0 <= i < front.len() && front[i] == key;
            assert(keys[i] == key);
            assert(keys.last() == keys[keys.len() - 1]);
            lemma_unique_occurs_once(front, key);
        } else {
            let i = choose|i: int| 0 <= i < keys.len() && keys[i] == key;
            if i < keys.len() - 1 {
                assert(front[i] == key);
            }
        }
    }
}

/// Insert-if-absent keeps keys unique and leaves the key present.
pub proof fn lemma_insert_key_unique(keys: Seq<Key>, key: Key)
    requires
        unique_keys(keys),
    ensures
        unique_keys(insert_key(keys, key)),
        insert_key(keys, key).contains(key),
{
    let after = insert_key(keys, key);
    if !keys.contains(key) {
        assert(after[keys.len() as int] == key);
        assert forall|i: int, j: int| 0 <= i < j < after.len() implies after[i] != after[j] by {
            if j == keys.len() {
                assert(after[i] == keys[i]);
            } else {
                assert(after[i] == keys[i] && after[j] == keys[j]);
            }
        }
    }
}

/// Inserting a key a second time changes nothing.
pub proof fn lemma_insert_key_idempotent(keys: Seq<Key>, key: Key)
    ensures
        insert_key(insert_key(keys, key), key) == insert_key(keys, key),
{
    if !keys.contains(key) {
        assert(keys.push(key)[keys.len() as int] == key);
    }
}

/// However often a key is delivered, once or more, the table afterwards is
/// the table after the first delivery, and holds the key exactly once.
pub proof fn lemma_redelivery_one_row(keys: Seq<Key>, key: Key, times: nat)
    requires
        unique_keys(keys),
        times >= 1,
    ensures
        redeliver(keys, key, times) == insert_key(keys, key),
        unique_keys(redeliver(keys, key, times)),
        occurrences(redeliver(keys, key, times), key) == 1,
    decreases times,
{
    lemma_insert_key_unique(keys, key);
    lemma_unique_occurs_once(insert_key(keys, key), key);
    if times > 1 {
        lemma_redelivery_one_row(keys, key, (times - 1) as nat);
        lemma_insert_key_idempotent(keys, key);
    } else {
        assert(redeliver(keys, key, 0) == keys);
    }
}

/// The metadata table: at most one row per contract, token and chain.
pub struct MetadataTable {
    pub rows: Vec<NftMetadata>,
}

/// The media table: at most one row per contract, token and media type.
pub struct MediaTable {
    pub rows: Vec<NftMedia>,
}

impl MetadataTable {
    /// The keys of the rows, in insertion order.
    pub open spec fn keys(self) -> Seq<Key> {
        self.rows@.map_values(|r: NftMetadata| r.key())
    }

    /// No two rows share a key.
    pub open spec fn wf(self) -> bool {
        unique_keys(self.keys())
    }

    /// An empty table.
    pub fn new() -> (out: MetadataTable)
        ensures
            out.rows@.len() == 0,
            out.wf(),
    {
        MetadataTable { rows: Vec::new() }
    }

    /// Whether a row with this key is stored.
    pub fn contains(&self, contract_address: &String, token_id: &String, chain: &String) -> (found:
        bool)
        ensures
            found == self.keys().contains((contract_address@, token_id@, chain@)),
    {
        let ghost key: Key = (contract_address@, token_id@, chain@);
        let mut i: usize = 0;
        while i < self.rows.len()
            invariant
                i <= self.rows@.len(),
                key == (contract_address@, token_id@, chain@),
                forall|j: int| 0 <= j < i ==> self.keys()[j] != key,
            decreases self.rows@.len() - i,
        {
            let row = &self.rows[i];
            if row.contract_address == *contract_address && row.token_id == *token_id && row.chain
                == *chain {
                assert(self.keys()[i as int] == key);
                return true;
            }
            i += 1;
        }
        false
    }
}

impl MediaTable {
    /// The keys of the rows, in insertion order.
    pub open spec fn keys(self) -> Seq<Key> {
        self.rows@.map_values(|r: NftMedia| r.key())
    }

    /// No two rows share a key.
    pub open spec fn wf(self) -> bool {
        unique_keys(self.keys())
    }

    /// An empty table.
    pub fn new() -> (out: MediaTable)
        ensures
            out.rows@.len() == 0,
            out.wf(),
    {
        MediaTable { rows: Vec::new() }
    }

    /// Whether a row with this key is stored.
    pub fn contains(&self, contract_address: &String, token_id: &String, media_type: &String) -> (found:
        bool)
        ensures
            found == self.keys().contains((contract_address@, token_id@, media_type@)),
    {
        let ghost key: Key = (contract_address@, token_id@, media_type@);
        let mut i: usize = 0;
        while i < self.rows.len()
            invariant
                i <= self.rows@.len(),
                key == (contract_address@, token_id@, media_type@),
                forall|j: int| 0 <= j < i ==> self.keys()[j] != key,
            decreases self.rows@.len() - i,
        {
            let row = &self.rows[i];
            if row.contract_address == *contract_address && row.token_id == *token_id
                && row.media_type == *media_type {
                assert(self.keys()[i as int] == key);
                return true;
            }
            i += 1;
        }
        false
    }
}

/// Stores a metadata row unless one with its key is stored already, in which
/// case the table is left as it is. Returns whether the row was stored.
pub fn insert_nft_metadata(table: &mut MetadataTable, meta: &NftMetadata) -> (inserted: bool)
    requires
        old(table).wf(),
    ensures
        final(table).wf(),
        inserted == !old(table).keys().contains(meta.key()),
        inserted ==> final(table).rows@ == old(table).rows@.push(*meta),
        !inserted ==> final(table).rows@ == old(table).rows@,
        final(table).keys() == insert_key(old(table).keys(), meta.key()),
        occurrences(final(table).keys(), meta.key()) == 1,
{
    proof {
        lemma_insert_key_unique(table.keys(), meta.key());
        lemma_unique_occurs_once(insert_key(table.keys(), meta.key()), meta.key());
    }
    if table.contains(&meta.contract_address, &meta.token_id, &meta.chain) {
        false
    } else {
        let ghost before = table.keys();
        table.rows.push(meta.duplicate());
        assert(table.keys() =~= before.push(meta.key()));
        true
    }
}

/// Stores a media row unless one with its key is stored already, in which
/// case the table is left as it is. Returns whether the row was stored.
pub fn insert_nft_media(table: &mut MediaTable, media: &NftMedia) -> (inserted: bool)
    requires
        old(table).wf(),
    ensures
        final(table).wf(),
        inserted == !old(table).keys().contains(media.key()),
        inserted ==> final(table).rows@ == old(table).rows@.push(*media),
        !inserted ==> final(table).rows@ == old(table).rows@,
        final(table).keys() == insert_key(old(table).keys(), media.key()),
        occurrences(final(table).keys(), media.key()) == 1,
{
    proof {
        lemma_insert_key_unique(table.keys(), media.key());
        lemma_unique_occurs_once(insert_key(table.keys(), media.key()), media.key());
    }
    if table.contains(&media.contract_address, &media.token_id, &media.media_type) {
        false
    } else {
        let ghost before = table.keys();
        table.rows.push(media.duplicate());
        assert(table.keys() =~= before.push(media.key()));
        true
    }
}

} // verus!
