//! The contract workflow (run for a contract a transaction created) and the
//! log workflow (run for each log), as state machines like the block and
//! transaction workflows.
use crate::hex::hex_prefixed;
use crate::logs::{follow_up, is_transfer_log, log_row, low_address, DecodeError, LogData, LogFollowUp, LogRow, TokenTransferRow};
use crate::abi::abi_contract_type;
use crate::rows::{contract_row, token_info, token_row, word_or_zero, ContractRow, TokenRow};
use crate::types::{contract_type_name, Addr, ContractInfo, ContractType, Hash32, Word};
use vstd::prelude::*;

verus! {

/// The next step of a contract task.
pub enum ContractStep {
    /// Fetch the contract's code as of the latest block (none on failure).
    FetchCode(Addr),
    /// Ask the explorer for the contract's verified metadata.
    FetchMetadata(Addr),
    InsertContract(ContractRow),
    /// Call `totalSupply`, `name`, `symbol` and `decimals` through this ABI.
    CallTokenMethods { address: Addr, abi: String },
    InsertToken(TokenRow),
    /// Fetch the logs from this block on (constructor events some nodes leave
    /// out of receipts).
    FetchLogsFrom(u64),
    /// Run the log workflow for this log.
    ProcessLog(LogData),
    Finish(Result<(), String>),
}

#[derive(PartialEq, Eq, Structural, Clone, Copy, Debug)]
pub enum ContractStage {
    FetchingCode,
    FetchingMetadata,
    InsertingContract,
    CallingToken,
    InsertingToken,
    FetchingLogs,
    Logs,
    Finished,
}

/// The workflow of a created contract: record its code and metadata, and for
/// an ERC-20 token its on-chain metadata and the logs from its creation block.
pub struct ContractTask {
    address: Addr,
    block: u64,
    transaction_hash: Hash32,
    creator: Addr,
    stage: ContractStage,
    code: Vec<u8>,
    is_token: bool,
    abi: String,
    logs: Vec<LogData>,
}

impl ContractTask {
    pub closed spec fn address(&self) -> Addr {
        self.address
    }

    pub closed spec fn block(&self) -> u64 {
        self.block
    }

    pub closed spec fn stage(&self) -> ContractStage {
        self.stage
    }

    pub closed spec fn transaction_hash(&self) -> Hash32 {
        self.transaction_hash
    }

    pub closed spec fn creator(&self) -> Addr {
        self.creator
    }

    /// The code recorded for the contract.
    pub closed spec fn code(&self) -> Seq<u8> {
        self.code@
    }

    /// The ABI text of the contract's metadata.
    pub closed spec fn abi_text(&self) -> Seq<char> {
        self.abi@
    }

    /// Whether the metadata classified the contract as ERC-20.
    pub closed spec fn is_token(&self) -> bool {
        self.is_token
    }

    pub closed spec fn pending_logs(&self) -> Seq<LogData> {
        self.logs@
    }

    /// A task for the contract at `address`, created in `block` by the
    /// transaction `transaction_hash` of `creator`, and its first step.
    pub fn new(address: Addr, block: u64, transaction_hash: Hash32, creator: Addr) -> (r: (ContractTask, ContractStep))
        ensures
            r.0.address() == address,
            r.0.block() == block,
            r.0.transaction_hash() == transaction_hash,
            r.0.creator() == creator,
            r.0.stage() == ContractStage::FetchingCode,
            r.1 == ContractStep::FetchCode(address),
    {
        (
            ContractTask {
                address,
                block,
                transaction_hash,
                creator,
                stage: ContractStage::FetchingCode,
                code: Vec::new(),
                is_token: false,
                abi: String::new(),
                logs: Vec::new(),
            },
            ContractStep::FetchCode(address),
        )
    }

    /// The contract's code, or none when the node failed to give it (stored
    /// as empty code).
    pub fn on_code(&mut self, code: Option<Vec<u8>>) -> (r: ContractStep)
        requires
            old(self).stage() == ContractStage::FetchingCode,
        ensures
            final(self).address() == old(self).address(),
            final(self).block() == old(self).block(),
            final(self).transaction_hash() == old(self).transaction_hash(),
            final(self).creator() == old(self).creator(),
            final(self).code() == match code {
                Some(c) => c@,
                None => Seq::<u8>::empty(),
            },
            final(self).stage() == ContractStage::FetchingMetadata,
            r == ContractStep::FetchMetadata(old(self).address()),
    {
        self.code = match code {
            Some(c) => c,
            None => Vec::new(),
        };
        self.stage = ContractStage::FetchingMetadata;
        ContractStep::FetchMetadata(self.address)
    }

    /// The explorer's metadata (empty when it had none): the contract row is
    /// stored whatever it holds.
    pub fn on_metadata(&mut self, info: ContractInfo) -> (r: ContractStep)
        requires
            old(self).stage() == ContractStage::FetchingMetadata,
        ensures
            final(self).address() == old(self).address(),
            final(self).block() == old(self).block(),
            final(self).stage() == ContractStage::InsertingContract,
            final(self).is_token() == (info.contract_type == ContractType::ERC20),
            final(self).abi_text() == info.abi@,
            r matches ContractStep::InsertContract(row) && {
                &&& row.address@ == hex_prefixed(old(self).address()@)
                &&& row.block_number == old(self).block()
                &&& row.bytecode@ == hex_prefixed(old(self).code())
                &&& row.transaction_hash@ == hex_prefixed(old(self).transaction_hash()@)
                &&& row.creator_address@ == hex_prefixed(old(self).creator()@)
                &&& row.metadata_from(&info)
            },
    {
        let row = contract_row(&self.address, self.block, &self.transaction_hash, &self.creator, &self.code, &info);
        self.is_token = info.contract_type == ContractType::ERC20;
        self.abi = info.abi;
        self.stage = ContractStage::InsertingContract;
        ContractStep::InsertContract(row)
    }

    /// The outcome of storing the contract row.
    pub fn on_contract_stored(&mut self, result: Result<(), String>) -> (r: ContractStep)
        requires
            old(self).stage() == ContractStage::InsertingContract,
        ensures
            final(self).address() == old(self).address(),
            final(self).block() == old(self).block(),
            final(self).is_token() == old(self).is_token(),
            match result {
                Err(e) => r == ContractStep::Finish(Err(e)) && final(self).stage() == ContractStage::Finished,
                Ok(_) => if old(self).is_token() {
                    &&& r matches ContractStep::CallTokenMethods { address, abi } && address == old(self).address()
                        && abi@ == old(self).abi_text()
                    &&& final(self).stage() == ContractStage::CallingToken
                } else {
                    &&& r == ContractStep::Finish(Ok(()))
                    &&& final(self).stage() == ContractStage::Finished
                },
            },
    {
        match result {
            Err(e) => {
                self.stage = ContractStage::Finished;
                ContractStep::Finish(Err(e))
            },
            Ok(_) => if self.is_token {
                self.stage = ContractStage::CallingToken;
                ContractStep::CallTokenMethods { address: self.address, abi: self.abi.clone() }
            } else {
                self.stage = ContractStage::Finished;
                ContractStep::Finish(Ok(()))
            },
        }
    }

    /// The results of the token calls, none for each call that failed.
    pub fn on_token_calls(
        &mut self,
        total_supply: Option<Word>,
        name: Option<String>,
        symbol: Option<String>,
        decimals: Option<Word>,
    ) -> (r: ContractStep)
        requires
            old(self).stage() == ContractStage::CallingToken,
        ensures
            final(self).address() == old(self).address(),
            final(self).block() == old(self).block(),
            final(self).stage() == ContractStage::InsertingToken,
            r matches ContractStep::InsertToken(row) && {
                &&& row.address@ == hex_prefixed(old(self).address()@)
                &&& row.token_type@ == contract_type_name(ContractType::ERC20)
                &&& row.name@ == match name {
                    Some(n) => n@,
                    None => Seq::empty(),
                }
                &&& row.symbol@ == match symbol {
                    Some(s) => s@,
                    None => Seq::empty(),
                }
                &&& row.total_supply@ == word_or_zero(total_supply)
                &&& row.decimals@ == word_or_zero(decimals)
                &&& row.holder_count is None
                &&& row.total_supply_updated_at_block == old(self).block()
            },
    {
        let info = token_info(total_supply, name, symbol, decimals, self.block);
        self.stage = ContractStage::InsertingToken;
        ContractStep::InsertToken(token_row(&self.address, ContractType::ERC20, &info))
    }

    /// The outcome of storing the token row.
    pub fn on_token_stored(&mut self, result: Result<(), String>) -> (r: ContractStep)
        requires
            old(self).stage() == ContractStage::InsertingToken,
        ensures
            final(self).address() == old(self).address(),
            final(self).block() == old(self).block(),
            match result {
                Err(e) => r == ContractStep::Finish(Err(e)) && final(self).stage() == ContractStage::Finished,
                Ok(_) => r == ContractStep::FetchLogsFrom(old(self).block()) && final(self).stage() == ContractStage::FetchingLogs,
            },
    {
        match result {
            Err(e) => {
                self.stage = ContractStage::Finished;
                ContractStep::Finish(Err(e))
            },
            Ok(_) => {
                self.stage = ContractStage::FetchingLogs;
                ContractStep::FetchLogsFrom(self.block)
            },
        }
    }

    fn next_log(&mut self) -> (r: ContractStep)
        ensures
            final(self).address() == old(self).address(),
            final(self).block() == old(self).block(),
            old(self).pending_logs().len() == 0 ==> r == ContractStep::Finish(Ok(())) && final(self).stage() == ContractStage::Finished,
            old(self).pending_logs().len() > 0 ==> r == ContractStep::ProcessLog(old(self).pending_logs()[0])
                && final(self).pending_logs() == old(self).pending_logs().drop_first()
                && final(self).stage() == ContractStage::Logs,
    {
        if self.logs.len() > 0 {
            let log = self.logs.remove(0);
            self.stage = ContractStage::Logs;
            assert(self.logs@ =~= old(self).logs@.drop_first());
            ContractStep::ProcessLog(log)
        } else {
            self.stage = ContractStage::Finished;
            ContractStep::Finish(Ok(()))
        }
    }

    /// The logs from the creation block on, or none when the node failed to
    /// give them (then there is nothing more to do).
    pub fn on_logs(&mut self, logs: Option<Vec<LogData>>) -> (r: ContractStep)
        requires
            old(self).stage() == ContractStage::FetchingLogs,
        ensures
            final(self).address() == old(self).address(),
            final(self).block() == old(self).block(),
            match logs {
                None => r == ContractStep::Finish(Ok(())) && final(self).stage() == ContractStage::Finished,
                Some(ls) => {
                    &&& ls@.len() == 0 ==> r == ContractStep::Finish(Ok(())) && final(self).stage() == ContractStage::Finished
                    &&& ls@.len() > 0 ==> r == ContractStep::ProcessLog(ls@[0])
                        && final(self).pending_logs() == ls@.drop_first()
                        && final(self).stage() == ContractStage::Logs
                },
            },
    {
        match logs {
            None => {
                self.stage = ContractStage::Finished;
                ContractStep::Finish(Ok(()))
            },
            Some(ls) => {
                self.logs = ls;
                self.next_log()
            },
        }
    }

    /// The outcome of one log's workflow; a failure is reported by the driver
    /// and the next log is processed all the same.
    pub fn on_log_done(&mut self, result: Result<(), String>) -> (r: ContractStep)
        requires
            old(self).stage() == ContractStage::Logs,
        ensures
            final(self).address() == old(self).address(),
            final(self).block() == old(self).block(),
            old(self).pending_logs().len() == 0 ==> r == ContractStep::Finish(Ok(())) && final(self).stage() == ContractStage::Finished,
            old(self).pending_logs().len() > 0 ==> r == ContractStep::ProcessLog(old(self).pending_logs()[0])
                && final(self).pending_logs() == old(self).pending_logs().drop_first()
                && final(self).stage() == ContractStage::Logs,
    {
        self.next_log()
    }
}

/// Why a log's workflow failed.
pub enum LogFailure {
    /// The store refused a row.
    Store(String),
    /// The log looked like a `Transfer` but could not be decoded.
    Decode(DecodeError),
}

/// The next step of a log task.
pub enum LogStep {
    InsertLog(LogRow),
    /// Look up the ABI stored for the contract at this address.
    LookupAbi(Addr),
    InsertTransfer(TokenTransferRow),
    /// The contract is of a standard whose events are not decoded; the task
    /// is over.
    Unsupported(ContractType),
    Finish(Result<(), LogFailure>),
}

#[derive(PartialEq, Eq, Structural, Clone, Copy, Debug)]
pub enum LogStage {
    InsertingLog,
    LookingUpAbi,
    InsertingTransfer,
    Finished,
}

/// The workflow of one log: store it, then, if its contract's ABI is known and
/// is ERC-20 and the log is a `Transfer`, store the token transfer.
pub struct LogTask {
    log: LogData,
    stage: LogStage,
}

impl LogTask {
    pub closed spec fn log(&self) -> LogData {
        self.log
    }

    pub closed spec fn stage(&self) -> LogStage {
        self.stage
    }

    /// A task for `log`, and its first step.
    pub fn new(log: LogData) -> (r: (LogTask, LogStep))
        ensures
            r.0.log() == log,
            r.0.stage() == LogStage::InsertingLog,
            r.1 matches LogStep::InsertLog(row) && row.shaped_from(&log),
    {
        let row = log_row(&log);
        (LogTask { log, stage: LogStage::InsertingLog }, LogStep::InsertLog(row))
    }

    /// The outcome of storing the log row.
    pub fn on_log_stored(&mut self, result: Result<(), String>) -> (r: LogStep)
        requires
            old(self).stage() == LogStage::InsertingLog,
        ensures
            final(self).log() == old(self).log(),
            match result {
                Err(e) => r matches LogStep::Finish(Err(LogFailure::Store(m))) && m == e
                    && final(self).stage() == LogStage::Finished,
                Ok(_) => r == LogStep::LookupAbi(old(self).log().address) && final(self).stage() == LogStage::LookingUpAbi,
            },
    {
        match result {
            Err(e) => {
                self.stage = LogStage::Finished;
                LogStep::Finish(Err(LogFailure::Store(e)))
            },
            Ok(_) => {
                self.stage = LogStage::LookingUpAbi;
                LogStep::LookupAbi(self.log.address)
            },
        }
    }

    /// The ABI stored for the log's contract, as JSON text; none when the
    /// store has no row for it or its ABI is null.
    pub fn on_abi(&mut self, abi: Option<String>) -> (r: LogStep)
        requires
            old(self).stage() == LogStage::LookingUpAbi,
        ensures
            final(self).log() == old(self).log(),
            ({
                let log = old(self).log();
                match abi {
                    None => r matches LogStep::Finish(Ok(())),
                    Some(text) => {
                        let t = abi_contract_type(text@);
                        &&& t == ContractType::Unknown ==> (r matches LogStep::Finish(Ok(())))
                        &&& t == ContractType::ERC20 && !is_transfer_log(log.topics@) ==> (r matches LogStep::Finish(Ok(())))
                        &&& t != ContractType::ERC20 && t != ContractType::Unknown ==> (r matches LogStep::Unsupported(u) && u == t)
                        &&& t == ContractType::ERC20 && is_transfer_log(log.topics@) ==> match r {
                            LogStep::InsertTransfer(row) => {
                                &&& row.from_address@ == hex_prefixed(low_address(log.topics@[1]@))
                                &&& row.to_address@ == hex_prefixed(low_address(log.topics@[2]@))
                                &&& row.amount@ == log.data@
                                &&& row.contract_address@ == hex_prefixed(log.address@)
                                &&& row.transaction_hash@ == hex_prefixed(log.transaction_hash@)
                                &&& row.block_hash@ == hex_prefixed(log.block_hash@)
                                &&& row.block_number == log.block_number
                                &&& row.log_index == log.log_index
                                &&& final(self).stage() == LogStage::InsertingTransfer
                            },
                            LogStep::Finish(Err(LogFailure::Decode(e))) => {
                                &&& log.topics@.len() < 3 ==> e == DecodeError::MissingTopics
                                &&& log.topics@.len() >= 3 ==> e == DecodeError::DataNotOneWord && log.data@.len() != 32
                            },
                            _ => false,
                        }
                    },
                }
            }),
    {
        let outcome = match &abi {
            None => follow_up(&self.log, None),
            Some(text) => follow_up(&self.log, Some(text.as_str())),
        };
        match outcome {
            Ok(LogFollowUp::InsertTransfer(row)) => {
                self.stage = LogStage::InsertingTransfer;
                LogStep::InsertTransfer(row)
            },
            Ok(LogFollowUp::Unsupported(t)) => {
                self.stage = LogStage::Finished;
                LogStep::Unsupported(t)
            },
            Ok(LogFollowUp::Nothing) => {
                self.stage = LogStage::Finished;
                LogStep::Finish(Ok(()))
            },
            Err(e) => {
                self.stage = LogStage::Finished;
                LogStep::Finish(Err(LogFailure::Decode(e)))
            },
        }
    }

    /// The outcome of storing the token transfer.
    pub fn on_transfer_stored(&mut self, result: Result<(), String>) -> (r: LogStep)
        requires
            old(self).stage() == LogStage::InsertingTransfer,
        ensures
            final(self).stage() == LogStage::Finished,
            match result {
                Err(e) => r matches LogStep::Finish(Err(LogFailure::Store(m))) && m == e,
                Ok(_) => r matches LogStep::Finish(Ok(())),
            },
    {
        self.stage = LogStage::Finished;
        match result {
            Err(e) => LogStep::Finish(Err(LogFailure::Store(e))),
            Ok(_) => LogStep::Finish(Ok(())),
        }
    }
}

/// When the explorer has nothing for a contract (a 404 among others), the
/// contract row is still stored, with empty metadata, the empty ABI array and
/// an empty type.
pub proof fn missing_metadata_still_stores_contract(info: ContractInfo, row: ContractRow)
    requires
        info.is_empty_info(),
        row.metadata_from(&info),
    ensures
        row.contract_type@ == Seq::<char>::empty(),
        row.abi@ == "[]"@,
        row.source_code@ == Seq::<char>::empty(),
        row.contract_name@ == Seq::<char>::empty(),
        row.compiler_version@ == Seq::<char>::empty(),
        !row.is_proxy,
        !row.optimization_used,
{
}

} // verus!
