//! Decoding of chain logs into minted tokens.

use vstd::prelude::*;
use vstd::string::*;
use crate::chain::{
    abi_decode_uint_array, abi_uint_array, be_value, decimal_spec, keccak256, keccak256_hash,
    u256_decimal, words_view,
};
use crate::digest::{hex_lower, hex_spec};
use crate::job::NftMintJob;

verus! {

/// A log entry as the chain node delivers it.
pub struct ChainLog {
    /// The emitting contract.
    pub address: [u8; 20],
    /// The indexed topics; the first is the event's signature hash.
    pub topics: Vec<[u8; 32]>,
    /// The unindexed data.
    pub data: Vec<u8>,
}

/// The transfer events that can announce a mint.
#[derive(Clone, Copy, Debug, PartialEq, Eq, Structural)]
pub enum EventKind {
    /// `Transfer` of the single-token standard.
    Transfer,
    /// `TransferSingle` of the multi-token standard.
    TransferSingle,
    /// `TransferBatch` of the multi-token standard.
    TransferBatch,
}

/// The token standard of a contract, which decides the view method that
/// gives a token's metadata URI.
#[derive(Clone, Copy, Debug, PartialEq, Eq, Structural)]
pub enum Standard {
    /// One owner per id; the URI method is `tokenURI(uint256)`.
    SingleToken,
    /// Many ids with fungible supply; the URI method is `uri(uint256)`.
    MultiToken,
}

/// Why a log of a known event could not be decoded.
#[derive(Clone, Copy, Debug, PartialEq, Eq, Structural)]
pub enum DecodeError {
    /// A topic that the event's layout has is not there.
    MissingTopic,
    /// The data does not hold an array of ids.
    BadData,
}

/// A token whose mint was observed.
pub struct MintedToken {
    /// The contract in the job's form: `0x` and lowercase hexadecimal.
    pub contract_address: String,
    /// The token id in decimal.
    pub token_id: String,
    /// The standard of the event that announced the mint.
    pub standard: Standard,
}

/// The canonical signature of an event.
pub open spec fn signature_text(kind: EventKind) -> &'static str {
    match kind {
        EventKind::Transfer => "Transfer(address,address,uint256)",
        EventKind::TransferSingle => "TransferSingle(address,address,address,uint256,uint256)",
        EventKind::TransferBatch => "TransferBatch(address,address,address,uint256[],uint256[])",
    }
}

/// The identity of an event: the Keccak-256 hash of its signature.
pub open spec fn signature_hash(kind: EventKind) -> Seq<u8> {
    keccak256(signature_text(kind).spec_bytes())
}

/// The event that a first topic names; the three are tried in this order.
pub open spec fn event_kind_spec(topic: Seq<u8>) -> Option<EventKind> {
    if topic == signature_hash(EventKind::Transfer) {
        Some(EventKind::Transfer)
    } else if topic == signature_hash(EventKind::TransferSingle) {
        Some(EventKind::TransferSingle)
    } else if topic == signature_hash(EventKind::TransferBatch) {
        Some(EventKind::TransferBatch)
    } else {
        None
    }
}

/// The topic that holds the sender.
pub open spec fn from_index(kind: EventKind) -> int {
    match kind {
        EventKind::Transfer => 1,
        _ => 2,
    }
}

/// The topic that holds the token id of an event that moves one id.
pub open spec fn id_index(kind: EventKind) -> int {
    match kind {
        EventKind::Transfer => 3,
        _ => 4,
    }
}

/// The standard that an event belongs to.
pub open spec fn standard_of(kind: EventKind) -> Standard {
    match kind {
        EventKind::Transfer => Standard::SingleToken,
        _ => Standard::MultiToken,
    }
}

/// The signature of the view method that gives a token's metadata URI.
pub open spec fn uri_method_spec(standard: Standard) -> Seq<char> {
    match standard {
        Standard::SingleToken => "tokenURI(uint256)"@,
        Standard::MultiToken => "uri(uint256)"@,
    }
}

/// Every byte is zero.
pub open spec fn is_zero(bytes: Seq<u8>) -> bool {
    forall|i: int| 0 <= i < bytes.len() ==> bytes[i] == 0
}

/// What a log announces: the event and the ids it mints, as big-endian
/// words. `None` for a log that is no mint: no topics, an unknown event, or
/// a sender other than the zero address.
pub open spec fn minted_ids(topics: Seq<[u8; 32]>, data: Seq<u8>) -> Result<
    Option<(EventKind, Seq<Seq<u8>>)>,
    DecodeError,
> {
    if topics.len() == 0 {
        Ok(None)
    } else {
        match event_kind_spec(topics[0]@) {
            None => Ok(None),
            Some(kind) => if topics.len() <= from_index(kind) {
                Err(DecodeError::MissingTopic)
            } else if !is_zero(topics[from_index(kind)]@) {
                Ok(None)
            } else if kind == EventKind::TransferBatch {
                match abi_uint_array(data) {
                    Some(ids) => Ok(Some((kind, ids))),
                    None => Err(DecodeError::BadData),
                }
            } else if topics.len() <= id_index(kind) {
                Err(DecodeError::MissingTopic)
            } else {
                Ok(Some((kind, seq![topics[id_index(kind)]@])))
            },
        }
    }
}

/// The text of a contract address: `0x` and two lowercase hexadecimal digits
/// per byte.
pub open spec fn address_text(address: Seq<u8>) -> Seq<char> {
    "0x"@ + hex_spec(address)
}

/// `tokens` are the mints of `ids` by `address`, one per id and in the
/// order of the ids.
pub open spec fn tokens_match(
    tokens: Seq<MintedToken>,
    address: Seq<u8>,
    standard: Standard,
    ids: Seq<Seq<u8>>,
) -> bool {
    &&& tokens.len() == ids.len()
    &&& forall|i: int|
        0 <= i < ids.len() ==> {
            &&& (#[trigger] tokens[i]).contract_address@ == address_text(address)
            &&& tokens[i].token_id@ == decimal_spec(be_value(ids[i]))
            &&& tokens[i].standard == standard
        }
}

/// Whether two words hold the same bytes.
pub fn same_word(a: &[u8; 32], b: &[u8; 32]) -> (same: bool)
    ensures
        same == (a@ == b@),
{
    let mut i: usize = 0;
    while i < 32
        invariant
            i <= 32,
            forall|j: int| 0 <= j < i ==> a@[j] == b@[j],
        decreases 32 - i,
    {
        if a[i] != b[i] {
            return false;
        }
        i += 1;
    }
    assert(a@ =~= b@);
    true
}

/// Whether a word is all zero, as the zero address is when it stands in a
/// topic.
pub fn is_zero_word(word: &[u8; 32]) -> (zero: bool)
    ensures
        zero == is_zero(word@),
{
    let mut i: usize = 0;
    while i < 32
        invariant
            i <= 32,
            forall|j: int| 0 <= j < i ==> word@[j] == 0,
        decreases 32 - i,
    {
        if word[i] != 0 {
            return false;
        }
        i += 1;
    }
    true
}

/// The signature hash that identifies an event in a log's first topic.
pub fn event_signature(kind: EventKind) -> (out: [u8; 32])
    ensures
        out@ == signature_hash(kind),
{
    match kind {
        EventKind::Transfer => keccak256_hash("Transfer(address,address,uint256)".as_bytes()),
        EventKind::TransferSingle => keccak256_hash(
            "TransferSingle(address,address,address,uint256,uint256)".as_bytes(),
        ),
        EventKind::TransferBatch => keccak256_hash(
            "TransferBatch(address,address,address,uint256[],uint256[])".as_bytes(),
        ),
    }
}

/// The event that a log's first topic names, if it is one of the three.
pub fn event_kind(topic: &[u8; 32]) -> (out: Option<EventKind>)
    ensures
        out == event_kind_spec(topic@),
{
    if same_word(topic, &event_signature(EventKind::Transfer)) {
        Some(EventKind::Transfer)
    } else if same_word(topic, &event_signature(EventKind::TransferSingle)) {
        Some(EventKind::TransferSingle)
    } else if same_word(topic, &event_signature(EventKind::TransferBatch)) {
        Some(EventKind::TransferBatch)
    } else {
        None
    }
}

/// The text of a contract address as jobs carry it.
pub fn address_hex(address: &[u8; 20]) -> (out: String)
    ensures
        out@ == address_text(address@),
{
    "0x".to_owned().concat(hex_lower(address.as_slice()).as_str())
}

/// One minted token per id, in the order of the ids.
pub fn tokens_for_ids(address: &[u8; 20], standard: Standard, ids: &Vec<[u8; 32]>) -> (out: Vec<
    MintedToken,
>)
    ensures
        tokens_match(out@, address@, standard, words_view(ids@)),
{
    let mut out: Vec<MintedToken> = Vec::new();
    let mut i: usize = 0;
    while i < ids.len()
        invariant
            i <= ids@.len(),
            tokens_match(out@, address@, standard, words_view(ids@).take(i as int)),
        decreases ids@.len() - i,
    {
        let token = MintedToken {
            contract_address: address_hex(address),
            token_id: u256_decimal(&ids[i]),
            standard,
        };
        out.push(token);
        i += 1;
    }
    assert(words_view(ids@).take(ids@.len() as int) =~= words_view(ids@));
    out
}

/// Reads a log: the tokens it mints, none where it is no mint, and an error
/// where it is one of the three events but cannot be decoded.
pub fn decode_log(log: &ChainLog) -> (out: Result<Vec<MintedToken>, DecodeError>)
    ensures
        match minted_ids(log.topics@, log.data@) {
            Ok(Some((kind, ids))) => out matches Ok(tokens) && tokens_match(
                tokens@,
                log.address@,
                standard_of(kind),
                ids,
            ),
            Ok(None) => out matches Ok(tokens) && tokens@.len() == 0,
            Err(e) => out == Err::<Vec<MintedToken>, DecodeError>(e),
        },
{
    if log.topics.len() == 0 {
        return Ok(Vec::new());
    }
    let kind = match event_kind(&log.topics[0]) {
        Some(kind) => kind,
        None => {
            return Ok(Vec::new());
        },
    };
    let from_at: usize = match kind {
        EventKind::Transfer => 1,
        _ => 2,
    };
    if log.topics.len() <= from_at {
        return Err(DecodeError::MissingTopic);
    }
    if !is_zero_word(&log.topics[from_at]) {
        return Ok(Vec::new());
    }
    let standard = match kind {
        EventKind::Transfer => Standard::SingleToken,
        _ => Standard::MultiToken,
    };
    match kind {
        EventKind::TransferBatch => match abi_decode_uint_array(log.data.as_slice()) {
            Some(ids) => Ok(tokens_for_ids(&log.address, standard, &ids)),
            None => Err(DecodeError::BadData),
        },
        _ => {
            let id_at: usize = match kind {
                EventKind::Transfer => 3,
                _ => 4,
            };
            if log.topics.len() <= id_at {
                return Err(DecodeError::MissingTopic);
            }
            let mut ids: Vec<[u8; 32]> = Vec::new();
            ids.push(log.topics[id_at]);
            assert(words_view(ids@) =~= seq![log.topics@[id_at as int]@]);
            Ok(tokens_for_ids(&log.address, standard, &ids))
        },
    }
}

/// The view method to call on a contract of this standard for a token's
/// metadata URI.
pub fn uri_method(standard: Standard) -> (out: &'static str)
    ensures
        out@ == uri_method_spec(standard),
{
    match standard {
        Standard::SingleToken => "tokenURI(uint256)",
        Standard::MultiToken => "uri(uint256)",
    }
}

/// The job for a minted token, with the URI that the contract gave, if it
/// gave one.
pub fn mint_job(token: &MintedToken, metadata_uri: Option<String>) -> (job: NftMintJob)
    ensures
        job.contract_address@ == token.contract_address@,
        job.token_id@ == token.token_id@,
        job.chain@ == "ethereum"@,
        job.metadata_uri == metadata_uri,
{
    NftMintJob {
        contract_address: token.contract_address.clone(),
        token_id: token.token_id.clone(),
        chain: "ethereum".to_owned(),
        metadata_uri,
    }
}

/// A mint emits exactly one token per id: as many tokens as ids, the token at
/// each place carrying the id at that place. A batch without ids emits none.
pub proof fn lemma_one_token_per_id(
    tokens: Seq<MintedToken>,
    address: Seq<u8>,
    standard: Standard,
    ids: Seq<Seq<u8>>,
)
    requires
        tokens_match(tokens, address, standard, ids),
    ensures
        tokens.len() == ids.len(),
        ids.len() == 0 ==> tokens.len() == 0,
        forall|i: int|
            0 <= i < ids.len() ==> (#[trigger] tokens[i]).token_id@ == decimal_spec(
                be_value(ids[i]),
            ),
{
}

} // verus!
