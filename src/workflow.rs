//! The per-block and per-transaction workflows as state machines: each call
//! takes the outcome of the previous step and names the next one, which the
//! driver performs against the node and the store.
use crate::logs::LogData;
use crate::rows::{block_row, receipt_row, transaction_row, zero_bytes, BlockData, BlockRow, ReceiptData, ReceiptRow, TransactionData, TransactionRow};
use crate::types::{append, decimal_text, u64_decimal, Addr, Hash32};
use vstd::prelude::*;

verus! {

/// The next step of a block task.
pub enum BlockStep {
    /// Fetch the block with its transaction hashes.
    FetchBlock(u64),
    /// Store the block's row.
    InsertBlock(BlockRow),
    /// Run the transaction workflow for this hash.
    RunTransaction(Hash32),
    /// The task is over.
    Finish(Result<(), String>),
}

#[derive(PartialEq, Eq, Structural, Clone, Copy, Debug)]
pub enum BlockStage {
    Fetching,
    Inserting,
    Transactions,
    Finished,
}

/// The error of a block task whose row the store refused: it names the block.
pub open spec fn store_failure_message(number: u64, e: Seq<char>) -> Seq<char> {
    "Error inserting block #"@ + decimal_text(number as nat) + " into database: "@ + e
}

/// The error of a block task given another block than the one asked for.
pub open spec fn mismatch_message(asked: u64, got: u64) -> Seq<char> {
    "Node returned block #"@ + decimal_text(got as nat) + " for block #"@ + decimal_text(asked as nat)
}

/// The workflow of one block: fetch it, store it, then run each of its
/// transactions in order. A missing block ends the task successfully; a store
/// failure ends it with that error, prefixed with the block's number, as does
/// a block of another number; a failed transaction does not stop the others.
pub struct BlockTask {
    number: u64,
    stage: BlockStage,
    transactions: Vec<Hash32>,
    next: usize,
}

impl BlockTask {
    pub closed spec fn number(&self) -> u64 {
        self.number
    }

    pub closed spec fn stage(&self) -> BlockStage {
        self.stage
    }

    /// The block's transactions, in order.
    pub closed spec fn listed(&self) -> Seq<Hash32> {
        self.transactions@
    }

    /// The transactions run so far, in order.
    pub closed spec fn started(&self) -> Seq<Hash32> {
        self.transactions@.take(self.next as int)
    }

    /// The transactions not yet run, in the block's order.
    pub closed spec fn pending(&self) -> Seq<Hash32> {
        self.transactions@.subrange(self.next as int, self.transactions@.len() as int)
    }

    pub closed spec fn wf(&self) -> bool {
        self.next <= self.transactions@.len()
    }

    /// A task for block `number`, and its first step.
    pub fn new(number: u64) -> (r: (BlockTask, BlockStep))
        ensures
            r.0.wf(),
            r.0.number() == number,
            r.0.stage() == BlockStage::Fetching,
            r.1 == BlockStep::FetchBlock(number),
    {
        (BlockTask { number, stage: BlockStage::Fetching, transactions: Vec::new(), next: 0 }, BlockStep::FetchBlock(number))
    }

    fn next_transaction(&mut self) -> (r: BlockStep)
        requires
            old(self).wf(),
        ensures
            final(self).wf(),
            final(self).number() == old(self).number(),
            final(self).listed() == old(self).listed(),
            old(self).pending().len() == 0 ==> r == BlockStep::Finish(Ok(())) && final(self).stage() == BlockStage::Finished
                && final(self).started() == final(self).listed(),
            old(self).pending().len() > 0 ==> r == BlockStep::RunTransaction(old(self).pending()[0])
                && final(self).pending() == old(self).pending().drop_first()
                && final(self).started() == old(self).started().push(old(self).pending()[0])
                && final(self).stage() == BlockStage::Transactions,
    {
        if self.next < self.transactions.len() {
            let h = self.transactions[self.next];
            self.next = self.next + 1;
            self.stage = BlockStage::Transactions;
            assert(self.pending() =~= old(self).pending().drop_first());
            assert(self.started() =~= old(self).started().push(h));
            BlockStep::RunTransaction(h)
        } else {
            self.stage = BlockStage::Finished;
            assert(self.started() =~= self.listed());
            BlockStep::Finish(Ok(()))
        }
    }

    /// The block fetched from the node, if it exists.
    pub fn on_block(&mut self, block: Option<BlockData>) -> (r: BlockStep)
        requires
            old(self).wf(),
            old(self).stage() == BlockStage::Fetching,
        ensures
            final(self).wf(),
            final(self).number() == old(self).number(),
            match block {
                None => r == BlockStep::Finish(Ok(())) && final(self).stage() == BlockStage::Finished,
                Some(b) => if b.number != old(self).number() {
                    &&& r matches BlockStep::Finish(Err(m)) && m@ == mismatch_message(old(self).number(), b.number)
                    &&& final(self).stage() == BlockStage::Finished
                } else {
                    &&& r matches BlockStep::InsertBlock(row) && row.shaped_from(&b)
                    &&& final(self).stage() == BlockStage::Inserting
                    &&& final(self).pending() == b.transactions@
                    &&& final(self).listed() == b.transactions@
                    &&& final(self).started() == Seq::<Hash32>::empty()
                },
            },
    {
        match block {
            None => {
                self.stage = BlockStage::Finished;
                BlockStep::Finish(Ok(()))
            },
            Some(b) => {
                if b.number != self.number {
                    self.stage = BlockStage::Finished;
                    let mut m = String::new();
                    append(&mut m, "Node returned block #");
                    append(&mut m, u64_decimal(b.number).as_str());
                    append(&mut m, " for block #");
                    append(&mut m, u64_decimal(self.number).as_str());
                    assert(m@ =~= mismatch_message(self.number, b.number));
                    return BlockStep::Finish(Err(m));
                }
                let row = block_row(&b);
                self.transactions = b.transactions;
                self.next = 0;
                self.stage = BlockStage::Inserting;
                assert(self.pending() =~= self.transactions@);
                assert(self.started() =~= Seq::<Hash32>::empty());
                BlockStep::InsertBlock(row)
            },
        }
    }

    /// The outcome of storing the block's row.
    pub fn on_block_stored(&mut self, result: Result<(), String>) -> (r: BlockStep)
        requires
            old(self).wf(),
            old(self).stage() == BlockStage::Inserting,
        ensures
            final(self).wf(),
            final(self).number() == old(self).number(),
            match result {
                Err(e) => {
                    &&& r matches BlockStep::Finish(Err(m)) && m@ == store_failure_message(old(self).number(), e@)
                    &&& final(self).stage() == BlockStage::Finished
                },
                Ok(_) => {
                    &&& final(self).listed() == old(self).listed()
                    &&& old(self).pending().len() == 0 ==> r == BlockStep::Finish(Ok(())) && final(self).stage() == BlockStage::Finished
                        && final(self).started() == final(self).listed()
                    &&& old(self).pending().len() > 0 ==> r == BlockStep::RunTransaction(old(self).pending()[0])
                        && final(self).pending() == old(self).pending().drop_first()
                        && final(self).started() == old(self).started().push(old(self).pending()[0])
                        && final(self).stage() == BlockStage::Transactions
                },
            },
    {
        match result {
            Err(e) => {
                self.stage = BlockStage::Finished;
                let mut m = String::new();
                append(&mut m, "Error inserting block #");
                append(&mut m, u64_decimal(self.number).as_str());
                append(&mut m, " into database: ");
                append(&mut m, e.as_str());
                assert(m@ =~= store_failure_message(self.number, e@));
                BlockStep::Finish(Err(m))
            },
            Ok(_) => self.next_transaction(),
        }
    }

    /// The outcome of a transaction's workflow; a failure is reported by the
    /// driver and the next transaction runs all the same. When the task
    /// finishes, it has run every transaction of the block once, in order.
    pub fn on_transaction_done(&mut self, result: Result<(), String>) -> (r: BlockStep)
        requires
            old(self).wf(),
            old(self).stage() == BlockStage::Transactions,
        ensures
            final(self).wf(),
            final(self).number() == old(self).number(),
            final(self).listed() == old(self).listed(),
            old(self).pending().len() == 0 ==> r == BlockStep::Finish(Ok(())) && final(self).stage() == BlockStage::Finished
                && final(self).started() == final(self).listed(),
            old(self).pending().len() > 0 ==> r == BlockStep::RunTransaction(old(self).pending()[0])
                && final(self).pending() == old(self).pending().drop_first()
                && final(self).started() == old(self).started().push(old(self).pending()[0])
                && final(self).stage() == BlockStage::Transactions,
    {
        self.next_transaction()
    }
}

/// The next step of a transaction task.
pub enum TxStep {
    FetchTransaction(Hash32),
    InsertTransaction(TransactionRow),
    /// Sample the account's state at `block` and store it.
    IndexAddress { address: Addr, block: u64 },
    FetchReceipt(Hash32),
    InsertReceipt(ReceiptRow),
    /// Run the contract workflow for a contract created by this transaction.
    IndexContract { address: Addr, block: u64, transaction_hash: Hash32, creator: Addr },
    /// Run the log workflow for one log of the receipt.
    ProcessLog(LogData),
    Finish(Result<(), String>),
}

#[derive(PartialEq, Eq, Structural, Clone, Copy, Debug)]
pub enum TxStage {
    FetchingTransaction,
    InsertingTransaction,
    IndexingSender,
    IndexingRecipient,
    FetchingReceipt,
    InsertingReceipt,
    IndexingContractAddress,
    IndexingContract,
    Logs,
    Finished,
}

/// Whether the recipient is present and is not the zero address.
pub open spec fn has_recipient(to: Option<Addr>) -> bool {
    to matches Some(a) && a@ != zero_bytes(20)
}

/// The stages whose failure ends the transaction task with that failure.
pub open spec fn failure_is_fatal(s: TxStage) -> bool {
    s == TxStage::InsertingTransaction || s == TxStage::IndexingSender || s == TxStage::IndexingRecipient
        || s == TxStage::InsertingReceipt || s == TxStage::IndexingContractAddress
}

/// The stages that wait for the outcome of a store or indexing step.
pub open spec fn awaits_outcome(s: TxStage) -> bool {
    failure_is_fatal(s) || s == TxStage::IndexingContract || s == TxStage::Logs
}

/// The workflow of one transaction: fetch and store it, index its sender and
/// (non-zero) recipient, fetch and store its receipt, index and describe the
/// contract it created if any, then process each log of the receipt.
pub struct TxTask {
    hash: Hash32,
    stage: TxStage,
    from: Addr,
    to: Option<Addr>,
    block_number: u64,
    contract: Option<Addr>,
    logs: Vec<LogData>,
}

fn is_zero_address(a: &Addr) -> (r: bool)
    ensures
        r == (a@ == zero_bytes(20)),
{
    let mut i: usize = 0;
    while i < 20
        invariant
            i <= 20,
            forall|j: int| 0 <= j < i ==> a@[j] == 0,
        decreases 20 - i,
    {
        if a[i] != 0 {
            return false;
        }
        i = i + 1;
    }
    assert(a@ =~= zero_bytes(20));
    true
}

impl TxTask {
    pub closed spec fn hash(&self) -> Hash32 {
        self.hash
    }

    pub closed spec fn stage(&self) -> TxStage {
        self.stage
    }

    pub closed spec fn sender(&self) -> Addr {
        self.from
    }

    pub closed spec fn recipient(&self) -> Option<Addr> {
        self.to
    }

    pub closed spec fn block_number(&self) -> u64 {
        self.block_number
    }

    pub closed spec fn created_contract(&self) -> Option<Addr> {
        self.contract
    }

    /// The receipt's logs not yet processed, in order.
    pub closed spec fn pending_logs(&self) -> Seq<LogData> {
        self.logs@
    }

    pub closed spec fn wf(&self) -> bool {
        self.stage == TxStage::IndexingContractAddress ==> self.contract is Some
    }

    /// A task for the transaction `hash`, and its first step.
    pub fn new(hash: Hash32) -> (r: (TxTask, TxStep))
        ensures
            r.0.wf(),
            r.0.hash() == hash,
            r.0.stage() == TxStage::FetchingTransaction,
            r.1 == TxStep::FetchTransaction(hash),
    {
        (
            TxTask {
                hash,
                stage: TxStage::FetchingTransaction,
                from: [0u8; 20],
                to: None,
                block_number: 0,
                contract: None,
                logs: Vec::new(),
            },
            TxStep::FetchTransaction(hash),
        )
    }

    /// The transaction fetched from the node, if it exists.
    pub fn on_transaction(&mut self, tx: Option<TransactionData>) -> (r: TxStep)
        requires
            old(self).wf(),
            old(self).stage() == TxStage::FetchingTransaction,
        ensures
            final(self).wf(),
            final(self).hash() == old(self).hash(),
            match tx {
                None => r == TxStep::Finish(Ok(())) && final(self).stage() == TxStage::Finished,
                Some(t) => {
                    &&& r matches TxStep::InsertTransaction(row) && row.shaped_from(&t)
                    &&& final(self).stage() == TxStage::InsertingTransaction
                    &&& final(self).sender() == t.from
                    &&& final(self).recipient() == t.to
                    &&& final(self).block_number() == t.block_number
                },
            },
    {
        match tx {
            None => {
                self.stage = TxStage::Finished;
                TxStep::Finish(Ok(()))
            },
            Some(t) => {
                let row = transaction_row(&t);
                self.from = t.from;
                self.to = t.to;
                self.block_number = t.block_number;
                self.stage = TxStage::InsertingTransaction;
                TxStep::InsertTransaction(row)
            },
        }
    }

    fn next_log(&mut self) -> (r: TxStep)
        ensures
            final(self).wf(),
            final(self).hash() == old(self).hash(),
            final(self).sender() == old(self).sender(),
            final(self).recipient() == old(self).recipient(),
            final(self).block_number() == old(self).block_number(),
            final(self).created_contract() == old(self).created_contract(),
            old(self).pending_logs().len() == 0 ==> r == TxStep::Finish(Ok(())) && final(self).stage() == TxStage::Finished,
            old(self).pending_logs().len() > 0 ==> r == TxStep::ProcessLog(old(self).pending_logs()[0])
                && final(self).pending_logs() == old(self).pending_logs().drop_first()
                && final(self).stage() == TxStage::Logs,
    {
        if self.logs.len() > 0 {
            let log = self.logs.remove(0);
            self.stage = TxStage::Logs;
            assert(self.logs@ =~= old(self).logs@.drop_first());
            TxStep::ProcessLog(log)
        } else {
            self.stage = TxStage::Finished;
            TxStep::Finish(Ok(()))
        }
    }

    /// The outcome of the step just performed (a store, an address indexing,
    /// the contract workflow or a log). A failure of the contract workflow or
    /// of a log is reported by the driver and the task goes on.
    pub fn on_outcome(&mut self, result: Result<(), String>) -> (r: TxStep)
        requires
            old(self).wf(),
            awaits_outcome(old(self).stage()),
        ensures
            final(self).wf(),
            final(self).hash() == old(self).hash(),
            final(self).sender() == old(self).sender(),
            final(self).recipient() == old(self).recipient(),
            final(self).block_number() == old(self).block_number(),
            final(self).created_contract() == old(self).created_contract(),
            (result is Err && failure_is_fatal(old(self).stage())) ==> r == TxStep::Finish(result)
                && final(self).stage() == TxStage::Finished,
            (result is Ok || !failure_is_fatal(old(self).stage())) ==> match old(self).stage() {
                TxStage::InsertingTransaction => {
                    &&& r == TxStep::IndexAddress { address: old(self).sender(), block: old(self).block_number() }
                    &&& final(self).stage() == TxStage::IndexingSender
                },
                TxStage::IndexingSender => if has_recipient(old(self).recipient()) {
                    &&& r == TxStep::IndexAddress { address: old(self).recipient()->0, block: old(self).block_number() }
                    &&& final(self).stage() == TxStage::IndexingRecipient
                } else {
                    &&& r == TxStep::FetchReceipt(old(self).hash())
                    &&& final(self).stage() == TxStage::FetchingReceipt
                },
                TxStage::IndexingRecipient => {
                    &&& r == TxStep::FetchReceipt(old(self).hash())
                    &&& final(self).stage() == TxStage::FetchingReceipt
                },
                TxStage::InsertingReceipt if old(self).created_contract() is Some => {
                    &&& r == TxStep::IndexAddress {
                        address: old(self).created_contract()->0,
                        block: old(self).block_number(),
                    }
                    &&& final(self).stage() == TxStage::IndexingContractAddress
                    &&& final(self).pending_logs() == old(self).pending_logs()
                },
                TxStage::IndexingContractAddress => {
                    &&& r == TxStep::IndexContract {
                        address: old(self).created_contract()->0,
                        block: old(self).block_number(),
                        transaction_hash: old(self).hash(),
                        creator: old(self).sender(),
                    }
                    &&& final(self).stage() == TxStage::IndexingContract
                    &&& final(self).pending_logs() == old(self).pending_logs()
                },
                _ => {
                    &&& old(self).pending_logs().len() == 0 ==> r == TxStep::Finish(Ok(())) && final(self).stage() == TxStage::Finished
                    &&& old(self).pending_logs().len() > 0 ==> r == TxStep::ProcessLog(old(self).pending_logs()[0])
                        && final(self).pending_logs() == old(self).pending_logs().drop_first()
                        && final(self).stage() == TxStage::Logs
                },
            },
    {
        let fatal = match self.stage {
            TxStage::InsertingTransaction | TxStage::IndexingSender | TxStage::IndexingRecipient
            | TxStage::InsertingReceipt | TxStage::IndexingContractAddress => true,
            _ => false,
        };
        if fatal && result.is_err() {
            self.stage = TxStage::Finished;
            return TxStep::Finish(result);
        }
        match self.stage {
            TxStage::InsertingTransaction => {
                self.stage = TxStage::IndexingSender;
                TxStep::IndexAddress { address: self.from, block: self.block_number }
            },
            TxStage::IndexingSender => {
                match self.to {
                    Some(a) => if !is_zero_address(&a) {
                        self.stage = TxStage::IndexingRecipient;
                        return TxStep::IndexAddress { address: a, block: self.block_number };
                    },
                    None => {},
                }
                self.stage = TxStage::FetchingReceipt;
                TxStep::FetchReceipt(self.hash)
            },
            TxStage::IndexingRecipient => {
                self.stage = TxStage::FetchingReceipt;
                TxStep::FetchReceipt(self.hash)
            },
            TxStage::InsertingReceipt => match self.contract {
                Some(c) => {
                    self.stage = TxStage::IndexingContractAddress;
                    TxStep::IndexAddress { address: c, block: self.block_number }
                },
                None => self.next_log(),
            },
            TxStage::IndexingContractAddress => {
                self.stage = TxStage::IndexingContract;
                match self.contract {
                    Some(c) => TxStep::IndexContract {
                        address: c,
                        block: self.block_number,
                        transaction_hash: self.hash,
                        creator: self.from,
                    },
                    None => TxStep::Finish(Ok(())),
                }
            },
            _ => self.next_log(),
        }
    }

    /// The receipt fetched from the node, if it exists.
    pub fn on_receipt(&mut self, receipt: Option<ReceiptData>) -> (r: TxStep)
        requires
            old(self).wf(),
            old(self).stage() == TxStage::FetchingReceipt,
        ensures
            final(self).wf(),
            final(self).hash() == old(self).hash(),
            final(self).sender() == old(self).sender(),
            final(self).recipient() == old(self).recipient(),
            final(self).block_number() == old(self).block_number(),
            match receipt {
                None => r == TxStep::Finish(Ok(())) && final(self).stage() == TxStage::Finished,
                Some(rc) => {
                    &&& r matches TxStep::InsertReceipt(row) && row.shaped_from(&rc)
                    &&& final(self).stage() == TxStage::InsertingReceipt
                    &&& final(self).created_contract() == rc.contract_address
                    &&& final(self).pending_logs() == rc.logs@
                },
            },
    {
        match receipt {
            None => {
                self.stage = TxStage::Finished;
                TxStep::Finish(Ok(()))
            },
            Some(rc) => {
                let row = receipt_row(&rc);
                self.contract = rc.contract_address;
                self.logs = rc.logs;
                self.stage = TxStage::InsertingReceipt;
                TxStep::InsertReceipt(row)
            },
        }
    }
}

} // verus!
