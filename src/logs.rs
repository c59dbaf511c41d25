//! Event logs: the stored row, and recognition and decoding of ERC-20
//! `Transfer` events into token-transfer rows.
use crate::abi::abi_contract_type;
use crate::hex::{hex_prefixed, to_hex_prefixed};
use crate::types::{Addr, ContractType, Hash32, Word};
use vstd::prelude::*;

verus! {

/// Keccak-256 of the UTF-8 bytes of a text.
pub uninterp spec fn keccak256_of_text(s: Seq<char>) -> Seq<u8>;

/// Relies on `ethers::utils::keccak256`: the 32-byte Keccak-256 digest of the
/// text's bytes.
#[verifier::external_body]
fn keccak256_text(s: &str) -> (r: Hash32)
    ensures
        r@ == keccak256_of_text(s@),
{
    ethers::utils::keccak256(s.as_bytes())
}

/// Relies on `ethers::abi::decode_whole` with a single `uint256` parameter: it
/// reads one 32-byte word, big-endian, and fails unless the data is exactly
/// that word.
#[verifier::external_body]
fn decode_uint256(data: &[u8]) -> (r: Option<Word>)
    ensures
        r is Some <==> data@.len() == 32,
        r matches Some(w) ==> w@ == data@,
{
    match ethers::abi::decode_whole(&[ethers::abi::ParamType::Uint(256)], data) {
        Ok(tokens) => match tokens.into_iter().next() {
            Some(ethers::abi::Token::Uint(v)) => Some(v.into()),
            _ => None,
        },
        Err(_) => None,
    }
}

/// A log entry as received from the node.
pub struct LogData {
    pub address: Addr,
    pub topics: Vec<Hash32>,
    pub data: Vec<u8>,
    pub block_hash: Hash32,
    pub block_number: u64,
    pub transaction_hash: Hash32,
    pub log_index: u64,
    pub log_type: Option<String>,
}

/// The row of the `logs` table; its key is
/// (`transaction_hash`, `block_hash`, `index`).
pub struct LogRow {
    pub data: Vec<u8>,
    pub index: u64,
    pub log_type: Option<String>,
    pub first_topic: String,
    pub second_topic: String,
    pub third_topic: String,
    pub fourth_topic: String,
    pub address: String,
    pub transaction_hash: String,
    pub block_hash: String,
    pub block_number: u64,
}

/// A decoded ERC-20 `Transfer(address,address,uint256)` event.
#[derive(Clone, Copy)]
pub struct Transfert {
    pub from: Addr,
    pub to: Addr,
    pub value: Word,
}

/// The row of the `token_transfers` table; its key is
/// (`transaction_hash`, `block_hash`, `log_index`).
pub struct TokenTransferRow {
    pub contract_address: String,
    pub from_address: String,
    pub to_address: String,
    pub transaction_hash: String,
    pub block_number: u64,
    pub block_hash: String,
    pub log_index: u64,
    pub amount: Word,
}

#[derive(PartialEq, Eq, Structural, Clone, Copy, Debug)]
pub enum DecodeError {
    /// The log has fewer than the three topics of a `Transfer` event.
    MissingTopics,
    /// The log's data is not exactly one 32-byte word.
    DataNotOneWord,
}

/// What follows the insertion of a log once its contract's ABI is known.
pub enum LogFollowUp {
    /// Nothing more to store.
    Nothing,
    /// Store this token transfer.
    InsertTransfer(TokenTransferRow),
    /// The contract is of a standard whose events are not decoded.
    Unsupported(ContractType),
}

/// The stored text of topic `i`: its `0x` form, or empty when missing.
pub open spec fn topic_text(topics: Seq<Hash32>, i: int) -> Seq<char> {
    if 0 <= i < topics.len() {
        hex_prefixed(topics[i]@)
    } else {
        Seq::empty()
    }
}

/// The address held in the low 20 bytes of a 32-byte topic.
pub open spec fn low_address(t: Seq<u8>) -> Seq<u8> {
    t.subrange(12, 32)
}

/// The topic that identifies a `Transfer(address,address,uint256)` event.
pub open spec fn transfer_topic() -> Seq<u8> {
    keccak256_of_text("Transfer(address,address,uint256)"@)
}

pub open spec fn is_transfer_log(topics: Seq<Hash32>) -> bool {
    topics.len() > 0 && topics[0]@ == transfer_topic()
}

impl LogRow {
    /// This row is the one stored for `log`.
    pub open spec fn shaped_from(&self, log: &LogData) -> bool {
        &&& self.data@ == log.data@
        &&& self.index == log.log_index
        &&& self.log_type == log.log_type
        &&& self.first_topic@ == topic_text(log.topics@, 0)
        &&& self.second_topic@ == topic_text(log.topics@, 1)
        &&& self.third_topic@ == topic_text(log.topics@, 2)
        &&& self.fourth_topic@ == topic_text(log.topics@, 3)
        &&& self.address@ == hex_prefixed(log.address@)
        &&& self.transaction_hash@ == hex_prefixed(log.transaction_hash@)
        &&& self.block_hash@ == hex_prefixed(log.block_hash@)
        &&& self.block_number == log.block_number
    }
}

impl TokenTransferRow {
    /// This row records `t` as decoded from `log`.
    pub open spec fn records(&self, log: &LogData, t: Transfert) -> bool {
        &&& self.contract_address@ == hex_prefixed(log.address@)
        &&& self.from_address@ == hex_prefixed(t.from@)
        &&& self.to_address@ == hex_prefixed(t.to@)
        &&& self.transaction_hash@ == hex_prefixed(log.transaction_hash@)
        &&& self.block_number == log.block_number
        &&& self.block_hash@ == hex_prefixed(log.block_hash@)
        &&& self.log_index == log.log_index
        &&& self.amount == t.value
    }
}

fn topic_string(topics: &Vec<Hash32>, i: usize) -> (r: String)
    ensures
        r@ == topic_text(topics@, i as int),
{
    if i < topics.len() {
        to_hex_prefixed(topics[i].as_slice())
    } else {
        String::new()
    }
}

fn clone_bytes(v: &Vec<u8>) -> (r: Vec<u8>)
    ensures
        r@ == v@,
{
    let mut r: Vec<u8> = Vec::new();
    let mut i: usize = 0;
    while i < v.len()
        invariant
            i <= v@.len(),
            r@ == v@.subrange(0, i as int),
        decreases v@.len() - i,
    {
        r.push(v[i]);
        i = i + 1;
    }
    assert(r@ =~= v@);
    r
}

/// The `logs` row for a log.
pub fn log_row(log: &LogData) -> (r: LogRow)
    ensures
        r.shaped_from(log),
{
    let log_type = match &log.log_type {
        Some(t) => Some(t.clone()),
        None => None,
    };
    LogRow {
        data: clone_bytes(&log.data),
        index: log.log_index,
        log_type,
        first_topic: topic_string(&log.topics, 0),
        second_topic: topic_string(&log.topics, 1),
        third_topic: topic_string(&log.topics, 2),
        fourth_topic: topic_string(&log.topics, 3),
        address: to_hex_prefixed(log.address.as_slice()),
        transaction_hash: to_hex_prefixed(log.transaction_hash.as_slice()),
        block_hash: to_hex_prefixed(log.block_hash.as_slice()),
        block_number: log.block_number,
    }
}

fn same_hash(a: &Hash32, b: &Hash32) -> (r: bool)
    ensures
        r == (a@ == b@),
{
    let mut i: usize = 0;
    while i < 32
        invariant
            i <= 32,
            forall|j: int| 0 <= j < i ==> a@[j] == b@[j],
        decreases 32 - i,
    {
        if a[i] != b[i] {
            return false;
        }
        i = i + 1;
    }
    assert(a@ =~= b@);
    true
}

/// Whether a log's first topic is the `Transfer` event's signature hash.
pub fn is_transfer(topics: &Vec<Hash32>) -> (r: bool)
    ensures
        r == is_transfer_log(topics@),
{
    if topics.len() == 0 {
        return false;
    }
    let signature = keccak256_text("Transfer(address,address,uint256)");
    same_hash(&topics[0], &signature)
}

fn address_of_topic(t: &Hash32) -> (r: Addr)
    ensures
        r@ == low_address(t@),
{
    let mut a: Addr = [0u8; 20];
    let mut i: usize = 0;
    while i < 20
        invariant
            i <= 20,
            forall|j: int| 0 <= j < i ==> a@[j] == t@[12 + j],
        decreases 20 - i,
    {
        a[i] = t[12 + i];
        i = i + 1;
    }
    assert(a@ =~= low_address(t@));
    a
}

/// Decodes a `Transfer` event: `from` and `to` are the low 20 bytes of the
/// second and third topics, `value` the data, which must be one 32-byte word.
pub fn decode_transfer(topics: &Vec<Hash32>, data: &Vec<u8>) -> (r: Result<Transfert, DecodeError>)
    ensures
        match r {
            Ok(t) => {
                &&& topics@.len() >= 3
                &&& data@.len() == 32
                &&& t.from@ == low_address(topics@[1]@)
                &&& t.to@ == low_address(topics@[2]@)
                &&& t.value@ == data@
            },
            Err(e) => {
                &&& topics@.len() < 3 ==> e == DecodeError::MissingTopics
                &&& topics@.len() >= 3 ==> e == DecodeError::DataNotOneWord && data@.len() != 32
            },
        },
{
    if topics.len() < 3 {
        return Err(DecodeError::MissingTopics);
    }
    match decode_uint256(data.as_slice()) {
        Some(value) => Ok(Transfert { from: address_of_topic(&topics[1]), to: address_of_topic(&topics[2]), value }),
        None => Err(DecodeError::DataNotOneWord),
    }
}

/// The `token_transfers` row for a transfer decoded from a log.
pub fn token_transfer_row(log: &LogData, t: &Transfert) -> (r: TokenTransferRow)
    ensures
        r.records(log, *t),
{
    TokenTransferRow {
        contract_address: to_hex_prefixed(log.address.as_slice()),
        from_address: to_hex_prefixed(t.from.as_slice()),
        to_address: to_hex_prefixed(t.to.as_slice()),
        transaction_hash: to_hex_prefixed(log.transaction_hash.as_slice()),
        block_number: log.block_number,
        block_hash: to_hex_prefixed(log.block_hash.as_slice()),
        log_index: log.log_index,
        amount: t.value,
    }
}

/// What follows a stored log whose contract is classified as `t`: an ERC-20
/// `Transfer` log gives its token-transfer row (or the decoding error), other
/// standards are reported as unsupported, and anything else needs nothing.
pub fn follow_up_for_type(log: &LogData, t: ContractType) -> (r: Result<LogFollowUp, DecodeError>)
    ensures
        t == ContractType::ERC20 && is_transfer_log(log.topics@) ==> match r {
            Ok(LogFollowUp::InsertTransfer(row)) => {
                &&& log.topics@.len() >= 3
                &&& log.data@.len() == 32
                &&& row.contract_address@ == hex_prefixed(log.address@)
                &&& row.from_address@ == hex_prefixed(low_address(log.topics@[1]@))
                &&& row.to_address@ == hex_prefixed(low_address(log.topics@[2]@))
                &&& row.amount@ == log.data@
                &&& row.transaction_hash@ == hex_prefixed(log.transaction_hash@)
                &&& row.block_hash@ == hex_prefixed(log.block_hash@)
                &&& row.block_number == log.block_number
                &&& row.log_index == log.log_index
            },
            Err(e) => {
                &&& log.topics@.len() < 3 ==> e == DecodeError::MissingTopics
                &&& log.topics@.len() >= 3 ==> e == DecodeError::DataNotOneWord && log.data@.len() != 32
            },
            _ => false,
        },
        t == ContractType::ERC20 && !is_transfer_log(log.topics@) ==> (r matches Ok(LogFollowUp::Nothing)),
        t == ContractType::Unknown ==> (r matches Ok(LogFollowUp::Nothing)),
        t != ContractType::ERC20 && t != ContractType::Unknown ==> (r matches Ok(LogFollowUp::Unsupported(u)) && u == t),
{
    match t {
        ContractType::ERC20 => {
            if is_transfer(&log.topics) {
                match decode_transfer(&log.topics, &log.data) {
                    Ok(transfer) => Ok(LogFollowUp::InsertTransfer(token_transfer_row(log, &transfer))),
                    Err(e) => Err(e),
                }
            } else {
                Ok(LogFollowUp::Nothing)
            }
        },
        ContractType::Unknown => Ok(LogFollowUp::Nothing),
        _ => Ok(LogFollowUp::Unsupported(t)),
    }
}

/// What follows a stored log, given the ABI found for its contract's address
/// (none when the store holds no ABI for it).
pub fn follow_up(log: &LogData, abi: Option<&str>) -> (r: Result<LogFollowUp, DecodeError>)
    ensures
        abi is None ==> (r matches Ok(LogFollowUp::Nothing)),
        abi matches Some(text) ==> {
            let t = abi_contract_type(text@);
            &&& t == ContractType::ERC20 && !is_transfer_log(log.topics@) ==> (r matches Ok(LogFollowUp::Nothing))
            &&& t == ContractType::Unknown ==> (r matches Ok(LogFollowUp::Nothing))
            &&& t != ContractType::ERC20 && t != ContractType::Unknown ==> (r matches Ok(LogFollowUp::Unsupported(u)) && u == t)
            &&& t == ContractType::ERC20 && is_transfer_log(log.topics@) ==> match r {
                Ok(LogFollowUp::InsertTransfer(row)) => {
                    &&& row.from_address@ == hex_prefixed(low_address(log.topics@[1]@))
                    &&& row.to_address@ == hex_prefixed(low_address(log.topics@[2]@))
                    &&& row.amount@ == log.data@
                    &&& row.contract_address@ == hex_prefixed(log.address@)
                    &&& row.transaction_hash@ == hex_prefixed(log.transaction_hash@)
                    &&& row.block_hash@ == hex_prefixed(log.block_hash@)
                    &&& row.block_number == log.block_number
                    &&& row.log_index == log.log_index
                },
                Err(e) => {
                    &&& log.topics@.len() < 3 ==> e == DecodeError::MissingTopics
                    &&& log.topics@.len() >= 3 ==> e == DecodeError::DataNotOneWord && log.data@.len() != 32
                },
                _ => false,
            }
        },
{
    match abi {
        None => Ok(LogFollowUp::Nothing),
        Some(text) => follow_up_for_type(log, ContractType::detect_contract_type(text)),
    }
}

} // verus!
