//! Values that flow between the gateways and the workflow.
use crate::hex::push_char;
use vstd::prelude::*;

verus! {

/// A 32-byte hash (block, transaction, topic, storage word).
pub type Hash32 = [u8; 32];

/// A 20-byte account or contract address.
pub type Addr = [u8; 20];

/// A 256-bit unsigned integer, big-endian.
pub type Word = [u8; 32];

/// The token standard a contract is recognised as.
#[derive(PartialEq, Eq, Structural, Clone, Copy, Debug)]
pub enum ContractType {
    Unknown,
    ERC20,
    ERC721,
    ERC777,
    ERC1155,
}

/// The text stored in the `contract_type` and token `type` columns.
pub open spec fn contract_type_name(t: ContractType) -> Seq<char> {
    match t {
        ContractType::Unknown => Seq::empty(),
        ContractType::ERC20 => "ERC20"@,
        ContractType::ERC721 => "ERC721"@,
        ContractType::ERC777 => "ERC777"@,
        ContractType::ERC1155 => "ERC1155"@,
    }
}

impl ContractType {
    pub fn to_string(&self) -> (r: String)
        ensures
            r@ == contract_type_name(*self),
    {
        match self {
            ContractType::Unknown => String::new(),
            ContractType::ERC20 => String::from_str("ERC20"),
            ContractType::ERC721 => String::from_str("ERC721"),
            ContractType::ERC777 => String::from_str("ERC777"),
            ContractType::ERC1155 => String::from_str("ERC1155"),
        }
    }
}

/// Verified metadata of a contract as published by the explorer. The value
/// made by `new` stands for "nothing published".
pub struct ContractInfo {
    pub contract_type: ContractType,
    pub abi: String,
    pub additional_sources: String,
    pub compiler_settings: String,
    pub compiler_version: String,
    pub constructor_arguments: String,
    pub contract_name: String,
    pub evm_version: String,
    pub file_name: String,
    pub is_proxy: bool,
    pub optimization_used: bool,
    pub source_code: String,
}

impl ContractInfo {
    /// Every field empty, `Unknown` and false.
    pub open spec fn is_empty_info(&self) -> bool {
        &&& self.contract_type == ContractType::Unknown
        &&& self.abi@.len() == 0
        &&& self.additional_sources@.len() == 0
        &&& self.compiler_settings@.len() == 0
        &&& self.compiler_version@.len() == 0
        &&& self.constructor_arguments@.len() == 0
        &&& self.contract_name@.len() == 0
        &&& self.evm_version@.len() == 0
        &&& self.file_name@.len() == 0
        &&& !self.is_proxy
        &&& !self.optimization_used
        &&& self.source_code@.len() == 0
    }

    /// The empty metadata.
    pub fn new() -> (r: ContractInfo)
        ensures
            r.is_empty_info(),
    {
        ContractInfo {
            contract_type: ContractType::Unknown,
            abi: String::new(),
            additional_sources: String::new(),
            compiler_settings: String::new(),
            compiler_version: String::new(),
            constructor_arguments: String::new(),
            contract_name: String::new(),
            evm_version: String::new(),
            file_name: String::new(),
            is_proxy: false,
            optimization_used: false,
            source_code: String::new(),
        }
    }

    /// Whether this is the empty metadata.
    pub fn is_null(&self) -> (r: bool)
        ensures
            r == self.is_empty_info(),
    {
        self.contract_type == ContractType::Unknown && self.abi.as_str().is_empty()
            && self.additional_sources.as_str().is_empty() && self.compiler_settings.as_str().is_empty()
            && self.compiler_version.as_str().is_empty() && self.constructor_arguments.as_str().is_empty()
            && self.contract_name.as_str().is_empty() && self.evm_version.as_str().is_empty()
            && self.file_name.as_str().is_empty() && !self.is_proxy && !self.optimization_used
            && self.source_code.as_str().is_empty()
    }
}

/// On-chain metadata of an ERC-20 token.
pub struct TokenInfo {
    pub name: String,
    pub symbol: String,
    pub total_supply: Word,
    pub decimals: Word,
    pub holder_count: Option<u64>,
    pub total_supply_updated_at_block: u64,
}

pub open spec fn is_zero_word(w: Word) -> bool {
    forall|i: int| 0 <= i < 32 ==> #[trigger] w@[i] == 0
}

impl TokenInfo {
    pub open spec fn is_empty_info(&self) -> bool {
        &&& self.name@.len() == 0
        &&& self.symbol@.len() == 0
        &&& is_zero_word(self.total_supply)
        &&& is_zero_word(self.decimals)
        &&& self.holder_count is None
        &&& self.total_supply_updated_at_block == 0
    }

    /// Empty names, zero amounts, no holder count.
    pub fn new() -> (r: TokenInfo)
        ensures
            r.is_empty_info(),
    {
        TokenInfo {
            name: String::new(),
            symbol: String::new(),
            total_supply: [0u8; 32],
            decimals: [0u8; 32],
            holder_count: None,
            total_supply_updated_at_block: 0,
        }
    }

    /// A description for logs: each field on its own tabbed line, amounts in
    /// decimal, an unset holder count as empty text.
    pub fn to_string(&self) -> (r: String)
        ensures
            r@ == "\n\tName: "@ + self.name@ + "\n\tSymbol: "@ + self.symbol@ + "\n\tTotal Supply: "@
                + decimal_text(be_value(self.total_supply@)) + "\n\tDecimals: "@ + decimal_text(be_value(self.decimals@))
                + "\n\tHolder Count: "@ + match self.holder_count {
                    Some(n) => decimal_text(n as nat),
                    None => Seq::empty(),
                } + "\n\tTotal Supply Updated At Block: "@ + decimal_text(self.total_supply_updated_at_block as nat),
    {
        let mut s = String::new();
        append(&mut s, "\n\tName: ");
        append(&mut s, self.name.as_str());
        append(&mut s, "\n\tSymbol: ");
        append(&mut s, self.symbol.as_str());
        append(&mut s, "\n\tTotal Supply: ");
        append(&mut s, word_decimal(&self.total_supply).as_str());
        append(&mut s, "\n\tDecimals: ");
        append(&mut s, word_decimal(&self.decimals).as_str());
        append(&mut s, "\n\tHolder Count: ");
        match self.holder_count {
            Some(n) => append(&mut s, u64_decimal(n).as_str()),
            None => {},
        }
        append(&mut s, "\n\tTotal Supply Updated At Block: ");
        append(&mut s, u64_decimal(self.total_supply_updated_at_block).as_str());
        assert(s@ =~= "\n\tName: "@ + self.name@ + "\n\tSymbol: "@ + self.symbol@ + "\n\tTotal Supply: "@
                + decimal_text(be_value(self.total_supply@)) + "\n\tDecimals: "@ + decimal_text(be_value(self.decimals@))
                + "\n\tHolder Count: "@ + match self.holder_count {
                    Some(n) => decimal_text(n as nat),
                    None => Seq::empty(),
                } + "\n\tTotal Supply Updated At Block: "@ + decimal_text(self.total_supply_updated_at_block as nat));
        s
    }

    /// Whether this is the empty token metadata.
    pub fn is_null(&self) -> (r: bool)
        ensures
            r == self.is_empty_info(),
    {
        self.name.as_str().is_empty() && self.symbol.as_str().is_empty() && word_is_zero(&self.total_supply)
            && word_is_zero(&self.decimals) && self.holder_count.is_none()
            && self.total_supply_updated_at_block == 0
    }
}

/// The value of big-endian bytes.
pub open spec fn be_value(s: Seq<u8>) -> nat
    decreases s.len(),
{
    if s.len() == 0 {
        0
    } else {
        (be_value(s.drop_last()) * 256 + s.last()) as nat
    }
}

pub open spec fn decimal_digit(d: nat) -> char {
    ((('0' as u32) + d) as u8) as char
}

/// The decimal text of a number, without leading zeros.
pub open spec fn decimal_text(n: nat) -> Seq<char>
    decreases n,
{
    if n < 10 {
        seq![decimal_digit(n)]
    } else {
        decimal_text(n / 10).push(decimal_digit(n % 10))
    }
}

/// Relies on the `Display` of ethers' `U256` (built by `from_big_endian` from
/// the 32 bytes): the decimal text of the number, without leading zeros.
#[verifier::external_body]
fn word_decimal(w: &Word) -> (r: String)
    ensures
        r@ == decimal_text(be_value(w@)),
{
    ethers::types::U256::from_big_endian(w).to_string()
}

pub fn u64_decimal(n: u64) -> (r: String)
    ensures
        r@ == decimal_text(n as nat),
    decreases n,
{
    let d = (48 + n % 10) as u8 as char;
    if n < 10 {
        let mut s = String::new();
        push_char(&mut s, d);
        assert(s@ =~= seq![decimal_digit(n as nat)]);
        s
    } else {
        let mut s = u64_decimal(n / 10);
        push_char(&mut s, d);
        s
    }
}

pub(crate) fn append(s: &mut String, t: &str)
    ensures
        final(s)@ == old(s)@ + t@,
{
    s.append(t);
}

pub fn word_is_zero(w: &Word) -> (r: bool)
    ensures
        r == is_zero_word(*w),
{
    let mut i: usize = 0;
    while i < 32
        invariant
            i <= 32,
            forall|j: int| 0 <= j < i ==> w@[j] == 0,
        decreases 32 - i,
    {
        if w[i] != 0 {
            return false;
        }
        i = i + 1;
    }
    true
}

} // verus!
