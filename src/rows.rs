//! Chain data as captured from the node, and the rows it is stored as.
use crate::hex::{hex_number, hex_prefixed, to_hex_prefixed, u64_hex_prefixed};
use crate::types::{contract_type_name, decimal_text, u64_decimal, Addr, ContractInfo, ContractType, Hash32, TokenInfo, Word};
use crate::logs::LogData;
use vstd::prelude::*;

verus! {

/// `n` zero bytes.
pub open spec fn zero_bytes(n: nat) -> Seq<u8> {
    Seq::new(n, |i: int| 0u8)
}

/// The bytes of an optional word, zero when absent.
pub open spec fn word_or_zero(w: Option<Word>) -> Seq<u8> {
    match w {
        Some(v) => v@,
        None => zero_bytes(32),
    }
}

pub open spec fn address_or_zero(a: Option<Addr>) -> Seq<u8> {
    match a {
        Some(v) => v@,
        None => zero_bytes(20),
    }
}

/// The `0x` forms of a list of hashes, in order.
pub open spec fn hex_list(hs: Seq<Hash32>, texts: Seq<String>) -> bool {
    &&& texts.len() == hs.len()
    &&& forall|i: int| 0 <= i < hs.len() ==> #[trigger] texts[i]@ == hex_prefixed(hs[i]@)
}

/// A block as received from the node, with the hashes of its transactions.
pub struct BlockData {
    pub number: u64,
    pub hash: Hash32,
    pub parent_hash: Hash32,
    pub nonce: [u8; 8],
    pub uncles_hash: Hash32,
    pub logs_bloom: Vec<u8>,
    pub transactions_root: Hash32,
    pub state_root: Hash32,
    pub miner: Addr,
    pub difficulty: Word,
    pub total_difficulty: Option<Word>,
    pub size: u64,
    pub extra_data: Vec<u8>,
    pub gas_limit: Word,
    pub gas_used: Word,
    pub timestamp: u64,
    pub transactions: Vec<Hash32>,
    pub uncles: Vec<Hash32>,
}

/// The row of the `blocks` table, keyed by `number`.
pub struct BlockRow {
    pub number: u64,
    pub hash: String,
    pub parent_hash: String,
    pub nonce: String,
    pub uncles_hash: String,
    pub logs_bloom: String,
    pub transactions_root: String,
    pub state_root: String,
    pub miner: String,
    pub difficulty: Word,
    pub total_difficulty: Word,
    pub size: u64,
    pub extra_data: String,
    pub gas_limit: Word,
    pub gas_used: Word,
    pub timestamp: u64,
    pub transactions_count: u64,
    pub transaction_ids: Vec<String>,
    pub uncles: Vec<String>,
}

impl BlockRow {
    pub open spec fn shaped_from(&self, b: &BlockData) -> bool {
        &&& self.number == b.number
        &&& self.hash@ == hex_prefixed(b.hash@)
        &&& self.parent_hash@ == hex_prefixed(b.parent_hash@)
        &&& self.nonce@ == hex_prefixed(b.nonce@)
        &&& self.uncles_hash@ == hex_prefixed(b.uncles_hash@)
        &&& self.logs_bloom@ == hex_prefixed(b.logs_bloom@)
        &&& self.transactions_root@ == hex_prefixed(b.transactions_root@)
        &&& self.state_root@ == hex_prefixed(b.state_root@)
        &&& self.miner@ == hex_prefixed(b.miner@)
        &&& self.difficulty == b.difficulty
        &&& self.total_difficulty@ == word_or_zero(b.total_difficulty)
        &&& self.size == b.size
        &&& self.extra_data@ == hex_prefixed(b.extra_data@)
        &&& self.gas_limit == b.gas_limit
        &&& self.gas_used == b.gas_used
        &&& self.timestamp == b.timestamp
        &&& self.transactions_count == b.transactions@.len()
        &&& hex_list(b.transactions@, self.transaction_ids@)
        &&& hex_list(b.uncles@, self.uncles@)
    }
}

fn hex_strings(hs: &Vec<Hash32>) -> (r: Vec<String>)
    ensures
        hex_list(hs@, r@),
{
    let mut r: Vec<String> = Vec::new();
    let mut i: usize = 0;
    while i < hs.len()
        invariant
            i <= hs@.len(),
            hex_list(hs@.subrange(0, i as int), r@),
        decreases hs@.len() - i,
    {
        r.push(to_hex_prefixed(hs[i].as_slice()));
        i = i + 1;
    }
    assert(hs@.subrange(0, hs@.len() as int) =~= hs@);
    r
}

pub(crate) fn word_or_zero_exec(w: Option<Word>) -> (r: Word)
    ensures
        r@ == word_or_zero(w),
{
    match w {
        Some(v) => v,
        None => {
            let z: Word = [0u8; 32];
            assert(z@ =~= zero_bytes(32));
            z
        },
    }
}

/// The `blocks` row for a block.
pub fn block_row(b: &BlockData) -> (r: BlockRow)
    ensures
        r.shaped_from(b),
{
    let total_difficulty = word_or_zero_exec(b.total_difficulty);
    BlockRow {
        number: b.number,
        hash: to_hex_prefixed(b.hash.as_slice()),
        parent_hash: to_hex_prefixed(b.parent_hash.as_slice()),
        nonce: to_hex_prefixed(b.nonce.as_slice()),
        uncles_hash: to_hex_prefixed(b.uncles_hash.as_slice()),
        logs_bloom: to_hex_prefixed(b.logs_bloom.as_slice()),
        transactions_root: to_hex_prefixed(b.transactions_root.as_slice()),
        state_root: to_hex_prefixed(b.state_root.as_slice()),
        miner: to_hex_prefixed(b.miner.as_slice()),
        difficulty: b.difficulty,
        total_difficulty,
        size: b.size,
        extra_data: to_hex_prefixed(b.extra_data.as_slice()),
        gas_limit: b.gas_limit,
        gas_used: b.gas_used,
        timestamp: b.timestamp,
        transactions_count: b.transactions.len() as u64,
        transaction_ids: hex_strings(&b.transactions),
        uncles: hex_strings(&b.uncles),
    }
}

/// A transaction as received from the node.
pub struct TransactionData {
    pub hash: Hash32,
    pub r: Word,
    pub s: Word,
    pub v: u64,
    pub to: Option<Addr>,
    pub from: Addr,
    pub gas: Word,
    pub transaction_type: u64,
    pub input: Vec<u8>,
    pub nonce: Word,
    pub value: Word,
    pub chain_id: u64,
    pub gas_price: Word,
    pub block_hash: Hash32,
    /// The access list as JSON text.
    pub access_list: String,
    pub block_number: u64,
    pub max_fee_per_gas: Option<Word>,
    pub transaction_index: Option<u64>,
    pub max_priority_fee_per_gas: Option<Word>,
}

/// The row of the `transactions` table, keyed by `hash`.
pub struct TransactionRow {
    pub r: String,
    pub s: String,
    pub v: String,
    pub to: String,
    pub gas: Word,
    pub from: String,
    pub hash: String,
    pub transaction_type: u64,
    pub input: String,
    pub nonce: Word,
    pub value: Word,
    pub chain_id: String,
    pub gas_price: Word,
    pub block_hash: String,
    pub access_list: String,
    pub block_number: u64,
    pub max_fee_per_gas: Word,
    pub transaction_index: u64,
    pub max_priority_fee_per_gas: Word,
}

pub open spec fn u64_or_zero(n: Option<u64>) -> u64 {
    match n {
        Some(v) => v,
        None => 0,
    }
}

impl TransactionRow {
    pub open spec fn shaped_from(&self, t: &TransactionData) -> bool {
        &&& self.r@ == hex_prefixed(t.r@)
        &&& self.s@ == hex_prefixed(t.s@)
        &&& self.v@ == seq!['0', 'x'] + hex_number(t.v as nat)
        &&& self.to@ == hex_prefixed(address_or_zero(t.to))
        &&& self.gas == t.gas
        &&& self.from@ == hex_prefixed(t.from@)
        &&& self.hash@ == hex_prefixed(t.hash@)
        &&& self.transaction_type == t.transaction_type
        &&& self.input@ == hex_prefixed(t.input@)
        &&& self.nonce == t.nonce
        &&& self.value == t.value
        &&& self.chain_id@ == decimal_text(t.chain_id as nat)
        &&& self.gas_price == t.gas_price
        &&& self.block_hash@ == hex_prefixed(t.block_hash@)
        &&& self.access_list@ == t.access_list@
        &&& self.block_number == t.block_number
        &&& self.max_fee_per_gas@ == word_or_zero(t.max_fee_per_gas)
        &&& self.transaction_index == u64_or_zero(t.transaction_index)
        &&& self.max_priority_fee_per_gas@ == word_or_zero(t.max_priority_fee_per_gas)
    }
}

fn address_or_zero_text(a: Option<Addr>) -> (r: String)
    ensures
        r@ == hex_prefixed(address_or_zero(a)),
{
    match a {
        Some(v) => to_hex_prefixed(v.as_slice()),
        None => {
            let z: Addr = [0u8; 20];
            assert(z@ =~= zero_bytes(20));
            to_hex_prefixed(z.as_slice())
        },
    }
}

/// The `transactions` row for a transaction; a missing recipient is stored as
/// the zero address, missing fee caps and index as zero.
pub fn transaction_row(t: &TransactionData) -> (r: TransactionRow)
    ensures
        r.shaped_from(t),
{
    TransactionRow {
        r: to_hex_prefixed(t.r.as_slice()),
        s: to_hex_prefixed(t.s.as_slice()),
        v: u64_hex_prefixed(t.v),
        to: address_or_zero_text(t.to),
        gas: t.gas,
        from: to_hex_prefixed(t.from.as_slice()),
        hash: to_hex_prefixed(t.hash.as_slice()),
        transaction_type: t.transaction_type,
        input: to_hex_prefixed(t.input.as_slice()),
        nonce: t.nonce,
        value: t.value,
        chain_id: u64_decimal(t.chain_id),
        gas_price: t.gas_price,
        block_hash: to_hex_prefixed(t.block_hash.as_slice()),
        access_list: t.access_list.clone(),
        block_number: t.block_number,
        max_fee_per_gas: word_or_zero_exec(t.max_fee_per_gas),
        transaction_index: match t.transaction_index {
            Some(i) => i,
            None => 0,
        },
        max_priority_fee_per_gas: word_or_zero_exec(t.max_priority_fee_per_gas),
    }
}

/// A transaction receipt as received from the node.
pub struct ReceiptData {
    pub transaction_hash: Hash32,
    pub transaction_index: u64,
    pub block_hash: Hash32,
    pub from: Addr,
    pub to: Option<Addr>,
    pub block_number: u64,
    pub cumulative_gas_used: Word,
    pub gas_used: Option<Word>,
    pub contract_address: Option<Addr>,
    pub logs: Vec<LogData>,
    /// The logs as JSON text, as received.
    pub logs_json: String,
    pub logs_bloom: Vec<u8>,
    pub status: Option<u64>,
    pub effective_gas_price: Option<Word>,
    pub transaction_type: Option<u64>,
}

/// The row of the `transactions_receipts` table, keyed by `transaction_hash`.
pub struct ReceiptRow {
    pub transaction_hash: String,
    pub transaction_index: u64,
    pub block_hash: String,
    pub from: String,
    pub to: String,
    pub block_number: u64,
    pub cumulative_gas_used: Word,
    pub gas_used: Word,
    pub contract_address: Option<String>,
    pub logs: String,
    pub logs_bloom: String,
    pub status: bool,
    pub effective_gas_price: Word,
    pub transaction_type: Option<String>,
}

impl ReceiptRow {
    pub open spec fn shaped_from(&self, t: &ReceiptData) -> bool {
        &&& self.transaction_hash@ == hex_prefixed(t.transaction_hash@)
        &&& self.transaction_index == t.transaction_index
        &&& self.block_hash@ == hex_prefixed(t.block_hash@)
        &&& self.from@ == hex_prefixed(t.from@)
        &&& self.to@ == hex_prefixed(address_or_zero(t.to))
        &&& self.block_number == t.block_number
        &&& self.cumulative_gas_used == t.cumulative_gas_used
        &&& self.gas_used@ == word_or_zero(t.gas_used)
        &&& (match t.contract_address {
            Some(a) => self.contract_address matches Some(c) && c@ == hex_prefixed(a@),
            None => self.contract_address is None,
        })
        &&& self.logs@ == t.logs_json@
        &&& self.logs_bloom@ == hex_prefixed(t.logs_bloom@)
        &&& self.status == (t.status == Some(1u64))
        &&& self.effective_gas_price@ == word_or_zero(t.effective_gas_price)
        &&& (match t.transaction_type {
            Some(k) => self.transaction_type matches Some(text) && text@ == decimal_text(k as nat),
            None => self.transaction_type is None,
        })
    }
}

/// The `transactions_receipts` row for a receipt; `status` is true exactly
/// when the node reported status 1.
pub fn receipt_row(t: &ReceiptData) -> (r: ReceiptRow)
    ensures
        r.shaped_from(t),
{
    ReceiptRow {
        transaction_hash: to_hex_prefixed(t.transaction_hash.as_slice()),
        transaction_index: t.transaction_index,
        block_hash: to_hex_prefixed(t.block_hash.as_slice()),
        from: to_hex_prefixed(t.from.as_slice()),
        to: address_or_zero_text(t.to),
        block_number: t.block_number,
        cumulative_gas_used: t.cumulative_gas_used,
        gas_used: word_or_zero_exec(t.gas_used),
        contract_address: match t.contract_address {
            Some(a) => Some(to_hex_prefixed(a.as_slice())),
            None => None,
        },
        logs: t.logs_json.clone(),
        logs_bloom: to_hex_prefixed(t.logs_bloom.as_slice()),
        status: match t.status {
            Some(s) => s == 1,
            None => false,
        },
        effective_gas_price: word_or_zero_exec(t.effective_gas_price),
        transaction_type: match t.transaction_type {
            Some(k) => Some(u64_decimal(k)),
            None => None,
        },
    }
}

/// The row of the `addresses` table, keyed by `address`: the state of the
/// account as sampled at `block_number`.
pub struct AddressRow {
    pub address: String,
    pub balance: Word,
    pub nonce: Word,
    pub transaction_count: Word,
    pub block_number: u64,
    pub contract_code: String,
    pub storage: String,
}

/// The `addresses` row for an account sampled at `block_number`. A failed
/// balance or transaction-count lookup is the error (the balance's first); a
/// failed code or storage lookup stands for a plain account: empty code and
/// the zero word. The transaction count serves as the nonce too.
pub fn address_row(
    address: &Addr,
    block_number: u64,
    balance: Result<Word, String>,
    code: Option<Vec<u8>>,
    storage: Option<Hash32>,
    transaction_count: Result<Word, String>,
) -> (r: Result<AddressRow, String>)
    ensures
        match r {
            Ok(row) => {
                &&& balance matches Ok(b) && row.balance == b
                &&& transaction_count matches Ok(c) && row.nonce == c && row.transaction_count == c
                &&& row.address@ == hex_prefixed(address@)
                &&& row.block_number == block_number
                &&& row.contract_code@ == hex_prefixed(
                    match code {
                        Some(c) => c@,
                        None => Seq::empty(),
                    },
                )
                &&& row.storage@ == hex_prefixed(word_or_zero(storage))
            },
            Err(e) => match balance {
                Err(be) => e == be,
                Ok(_) => transaction_count matches Err(ce) && e == ce,
            },
        },
{
    let balance = match balance {
        Ok(b) => b,
        Err(e) => return Err(e),
    };
    let count = match transaction_count {
        Ok(c) => c,
        Err(e) => return Err(e),
    };
    let code = match code {
        Some(c) => c,
        None => Vec::new(),
    };
    Ok(AddressRow {
        address: to_hex_prefixed(address.as_slice()),
        balance,
        nonce: count,
        transaction_count: count,
        block_number,
        contract_code: to_hex_prefixed(code.as_slice()),
        storage: to_hex_prefixed(word_or_zero_exec(storage).as_slice()),
    })
}

/// The row of the `contracts` table, keyed by `address`.
pub struct ContractRow {
    pub address: String,
    pub bytecode: String,
    pub block_number: u64,
    pub transaction_hash: String,
    pub creator_address: String,
    pub contract_type: String,
    /// The ABI as JSON text; the empty array `[]` when the metadata has none.
    pub abi: String,
    pub source_code: String,
    pub additional_sources: String,
    pub compiler_settings: String,
    pub constructor_arguments: String,
    pub evm_version: String,
    pub file_name: String,
    pub is_proxy: bool,
    pub contract_name: String,
    pub compiler_version: String,
    pub optimization_used: bool,
}

/// The ABI text to store: the empty JSON array when there is none.
pub open spec fn abi_or_empty_array(abi: Seq<char>) -> Seq<char> {
    if abi.len() == 0 {
        "[]"@
    } else {
        abi
    }
}

impl ContractRow {
    /// The metadata columns of this row are those of `info`.
    pub open spec fn metadata_from(&self, info: &ContractInfo) -> bool {
        &&& self.contract_type@ == contract_type_name(info.contract_type)
        &&& self.abi@ == abi_or_empty_array(info.abi@)
        &&& self.source_code@ == info.source_code@
        &&& self.additional_sources@ == info.additional_sources@
        &&& self.compiler_settings@ == info.compiler_settings@
        &&& self.constructor_arguments@ == info.constructor_arguments@
        &&& self.evm_version@ == info.evm_version@
        &&& self.file_name@ == info.file_name@
        &&& self.is_proxy == info.is_proxy
        &&& self.contract_name@ == info.contract_name@
        &&& self.compiler_version@ == info.compiler_version@
        &&& self.optimization_used == info.optimization_used
    }
}

/// The `contracts` row for a contract created at `address` by the transaction
/// `transaction_hash` of `creator` in block `block_number`, with its observed
/// code and whatever metadata the explorer published (possibly none).
pub fn contract_row(
    address: &Addr,
    block_number: u64,
    transaction_hash: &Hash32,
    creator: &Addr,
    code: &Vec<u8>,
    info: &ContractInfo,
) -> (r: ContractRow)
    ensures
        r.address@ == hex_prefixed(address@),
        r.bytecode@ == hex_prefixed(code@),
        r.block_number == block_number,
        r.transaction_hash@ == hex_prefixed(transaction_hash@),
        r.creator_address@ == hex_prefixed(creator@),
        r.metadata_from(info),
{
    ContractRow {
        address: to_hex_prefixed(address.as_slice()),
        bytecode: to_hex_prefixed(code.as_slice()),
        block_number,
        transaction_hash: to_hex_prefixed(transaction_hash.as_slice()),
        creator_address: to_hex_prefixed(creator.as_slice()),
        contract_type: info.contract_type.to_string(),
        abi: if info.abi.as_str().is_empty() {
            String::from_str("[]")
        } else {
            info.abi.clone()
        },
        source_code: info.source_code.clone(),
        additional_sources: info.additional_sources.clone(),
        compiler_settings: info.compiler_settings.clone(),
        constructor_arguments: info.constructor_arguments.clone(),
        evm_version: info.evm_version.clone(),
        file_name: info.file_name.clone(),
        is_proxy: info.is_proxy,
        contract_name: info.contract_name.clone(),
        compiler_version: info.compiler_version.clone(),
        optimization_used: info.optimization_used,
    }
}

/// The row of the `tokens` table, keyed by `address`.
pub struct TokenRow {
    pub address: String,
    pub token_type: String,
    pub name: String,
    pub symbol: String,
    pub total_supply: Word,
    pub decimals: Word,
    pub holder_count: Option<u64>,
    pub total_supply_updated_at_block: u64,
}

/// Token metadata from the results of the `totalSupply`, `name`, `symbol` and
/// `decimals` calls made at the contract's creation block; a failed call
/// gives zero or the empty text. The holder count is left unset.
pub fn token_info(
    total_supply: Option<Word>,
    name: Option<String>,
    symbol: Option<String>,
    decimals: Option<Word>,
    creation_block: u64,
) -> (r: TokenInfo)
    ensures
        r.total_supply@ == word_or_zero(total_supply),
        r.decimals@ == word_or_zero(decimals),
        r.name@ == match name {
            Some(n) => n@,
            None => Seq::empty(),
        },
        r.symbol@ == match symbol {
            Some(s) => s@,
            None => Seq::empty(),
        },
        r.holder_count is None,
        r.total_supply_updated_at_block == creation_block,
{
    TokenInfo {
        name: match name {
            Some(n) => n,
            None => String::new(),
        },
        symbol: match symbol {
            Some(s) => s,
            None => String::new(),
        },
        total_supply: word_or_zero_exec(total_supply),
        decimals: word_or_zero_exec(decimals),
        holder_count: None,
        total_supply_updated_at_block: creation_block,
    }
}

/// The `tokens` row for a token of standard `t` at `address`.
pub fn token_row(address: &Addr, t: ContractType, info: &TokenInfo) -> (r: TokenRow)
    ensures
        r.address@ == hex_prefixed(address@),
        r.token_type@ == contract_type_name(t),
        r.name@ == info.name@,
        r.symbol@ == info.symbol@,
        r.total_supply == info.total_supply,
        r.decimals == info.decimals,
        r.holder_count == info.holder_count,
        r.total_supply_updated_at_block == info.total_supply_updated_at_block,
{
    TokenRow {
        address: to_hex_prefixed(address.as_slice()),
        token_type: t.to_string(),
        name: info.name.clone(),
        symbol: info.symbol.clone(),
        total_supply: info.total_supply,
        decimals: info.decimals,
        holder_count: info.holder_count,
        total_supply_updated_at_block: info.total_supply_updated_at_block,
    }
}

} // verus!
