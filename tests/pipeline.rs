use eth_indexer::config::{last_blocks_range, needs_schema_init, parse_command, positive_setting_or, setting_or, Command};
use eth_indexer::explorer::{contract_info_from_response, ExplorerFields};
use eth_indexer::logs::LogData;
use eth_indexer::rows::{BlockData, BlockRow, ReceiptData, TransactionData, TransactionRow};
use eth_indexer::scheduler::{range_size, Progress, RangeScheduler, SchedulerAction};
use eth_indexer::subflows::{ContractStep, ContractTask, LogStep, LogTask};
use eth_indexer::types::ContractType;
use eth_indexer::workflow::{BlockStep, BlockTask, TxStep, TxTask};

fn block(number: u64, transactions: Vec<[u8; 32]>) -> BlockData {
    BlockData {
        number,
        hash: [0x42; 32],
        parent_hash: [0x41; 32],
        nonce: [0; 8],
        uncles_hash: [0; 32],
        logs_bloom: vec![0; 4],
        transactions_root: [1; 32],
        state_root: [2; 32],
        miner: [3; 20],
        difficulty: [0; 32],
        total_difficulty: None,
        size: 1000,
        extra_data: vec![],
        gas_limit: [0; 32],
        gas_used: [0; 32],
        timestamp: 1_700_000_000,
        transactions,
        uncles: vec![],
    }
}

fn transaction(hash: [u8; 32], block_number: u64, to: Option<[u8; 20]>) -> TransactionData {
    TransactionData {
        hash,
        r: [0; 32],
        s: [0; 32],
        v: 27,
        to,
        from: [0x05; 20],
        gas: [0; 32],
        transaction_type: 2,
        input: vec![],
        nonce: [0; 32],
        value: [0; 32],
        chain_id: 1,
        gas_price: [0; 32],
        block_hash: [0x42; 32],
        access_list: "[]".to_string(),
        block_number,
        max_fee_per_gas: None,
        transaction_index: Some(0),
        max_priority_fee_per_gas: None,
    }
}

fn receipt(hash: [u8; 32], block_number: u64, contract: Option<[u8; 20]>, logs: Vec<LogData>) -> ReceiptData {
    ReceiptData {
        transaction_hash: hash,
        transaction_index: 0,
        block_hash: [0x42; 32],
        from: [0x05; 20],
        to: None,
        block_number,
        cumulative_gas_used: [0; 32],
        gas_used: None,
        contract_address: contract,
        logs,
        logs_json: "[]".to_string(),
        logs_bloom: vec![0; 4],
        status: Some(1),
        effective_gas_price: None,
        transaction_type: Some(2),
    }
}

/// Runs one transaction through its workflow, with every store and indexing
/// step succeeding, and collects the transaction rows it stores.
fn run_transaction(hash: [u8; 32], block_number: u64, stored: &mut Vec<TransactionRow>) {
    let (mut task, mut step) = TxTask::new(hash);
    loop {
        step = match step {
            TxStep::FetchTransaction(h) => task.on_transaction(Some(transaction(h, block_number, Some([0x06; 20])))),
            TxStep::InsertTransaction(row) => {
                stored.push(row);
                task.on_outcome(Ok(()))
            }
            TxStep::IndexAddress { .. } => task.on_outcome(Ok(())),
            TxStep::FetchReceipt(h) => task.on_receipt(Some(receipt(h, block_number, None, vec![]))),
            TxStep::InsertReceipt(_) => task.on_outcome(Ok(())),
            TxStep::IndexContract { .. } => task.on_outcome(Ok(())),
            TxStep::ProcessLog(_) => task.on_outcome(Ok(())),
            TxStep::Finish(r) => {
                assert!(r.is_ok());
                return;
            }
        }
    }
}

#[test]
fn block_with_two_transactions_is_indexed() {
    let aa = [0xaa; 32];
    let bb = [0xbb; 32];
    let mut blocks: Vec<BlockRow> = vec![];
    let mut transactions: Vec<TransactionRow> = vec![];
    let (mut task, mut step) = BlockTask::new(42);
    loop {
        step = match step {
            BlockStep::FetchBlock(n) => {
                assert_eq!(n, 42);
                task.on_block(Some(block(42, vec![aa, bb])))
            }
            BlockStep::InsertBlock(row) => {
                blocks.push(row);
                task.on_block_stored(Ok(()))
            }
            BlockStep::RunTransaction(h) => {
                run_transaction(h, 42, &mut transactions);
                task.on_transaction_done(Ok(()))
            }
            BlockStep::Finish(r) => {
                assert!(r.is_ok());
                break;
            }
        }
    }
    assert_eq!(blocks.len(), 1);
    assert_eq!(blocks[0].number, 42);
    assert_eq!(blocks[0].transactions_count, 2);
    assert_eq!(transactions.len(), 2);
    assert_eq!(transactions[0].hash, format!("0x{}", "aa".repeat(32)));
    assert_eq!(transactions[1].hash, format!("0x{}", "bb".repeat(32)));
    assert!(transactions.iter().all(|t| t.block_number == 42));
}

#[test]
fn missing_block_finishes_successfully() {
    let (mut task, _) = BlockTask::new(7);
    assert!(matches!(task.on_block(None), BlockStep::Finish(Ok(()))));
}

#[test]
fn block_store_failure_ends_the_block() {
    let (mut task, _) = BlockTask::new(7);
    let _ = task.on_block(Some(block(7, vec![[1; 32]])));
    match task.on_block_stored(Err("db down".to_string())) {
        BlockStep::Finish(Err(e)) => assert_eq!(e, "Error inserting block #7 into database: db down"),
        _ => panic!("expected the block to fail"),
    }
}

#[test]
fn block_of_another_number_is_an_error() {
    let (mut task, _) = BlockTask::new(7);
    match task.on_block(Some(block(8, vec![]))) {
        BlockStep::Finish(Err(e)) => assert_eq!(e, "Node returned block #8 for block #7"),
        _ => panic!("expected the block to fail"),
    }
}

#[test]
fn failed_transaction_does_not_stop_the_block() {
    let (mut task, _) = BlockTask::new(7);
    let _ = task.on_block(Some(block(7, vec![[1; 32], [2; 32]])));
    assert!(matches!(task.on_block_stored(Ok(())), BlockStep::RunTransaction(h) if h == [1; 32]));
    assert!(matches!(task.on_transaction_done(Err("x".to_string())), BlockStep::RunTransaction(h) if h == [2; 32]));
    assert!(matches!(task.on_transaction_done(Ok(())), BlockStep::Finish(Ok(()))));
}

#[test]
fn transaction_steps_in_order() {
    let hash = [0x0c; 32];
    let (mut task, step) = TxTask::new(hash);
    assert!(matches!(step, TxStep::FetchTransaction(h) if h == hash));
    assert!(matches!(task.on_transaction(Some(transaction(hash, 9, Some([0x06; 20])))), TxStep::InsertTransaction(_)));
    assert!(matches!(task.on_outcome(Ok(())), TxStep::IndexAddress { address, block: 9 } if address == [0x05; 20]));
    assert!(matches!(task.on_outcome(Ok(())), TxStep::IndexAddress { address, block: 9 } if address == [0x06; 20]));
    assert!(matches!(task.on_outcome(Ok(())), TxStep::FetchReceipt(h) if h == hash));
    let log = LogData {
        address: [0x0c; 20],
        topics: vec![],
        data: vec![],
        block_hash: [0; 32],
        block_number: 9,
        transaction_hash: hash,
        log_index: 0,
        log_type: None,
    };
    assert!(matches!(task.on_receipt(Some(receipt(hash, 9, Some([0x0c; 20]), vec![log]))), TxStep::InsertReceipt(_)));
    assert!(matches!(task.on_outcome(Ok(())), TxStep::IndexAddress { address, block: 9 } if address == [0x0c; 20]));
    assert!(matches!(
        task.on_outcome(Ok(())),
        TxStep::IndexContract { address, block: 9, transaction_hash, creator } if address == [0x0c; 20] && transaction_hash == hash && creator == [0x05; 20]
    ));
    assert!(matches!(task.on_outcome(Err("explorer".to_string())), TxStep::ProcessLog(_)));
    assert!(matches!(task.on_outcome(Err("log".to_string())), TxStep::Finish(Ok(()))));
}

#[test]
fn zero_recipient_is_not_indexed() {
    let (mut task, _) = TxTask::new([1; 32]);
    let _ = task.on_transaction(Some(transaction([1; 32], 9, Some([0; 20]))));
    let _ = task.on_outcome(Ok(()));
    assert!(matches!(task.on_outcome(Ok(())), TxStep::FetchReceipt(_)));
}

#[test]
fn address_failure_ends_the_transaction() {
    let (mut task, _) = TxTask::new([1; 32]);
    let _ = task.on_transaction(Some(transaction([1; 32], 9, None)));
    let _ = task.on_outcome(Ok(()));
    assert!(matches!(task.on_outcome(Err("balance".to_string())), TxStep::Finish(Err(e)) if e == "balance"));
}

#[test]
fn missing_receipt_finishes_successfully() {
    let (mut task, _) = TxTask::new([1; 32]);
    let _ = task.on_transaction(Some(transaction([1; 32], 9, None)));
    let _ = task.on_outcome(Ok(()));
    let _ = task.on_outcome(Ok(()));
    assert!(matches!(task.on_receipt(None), TxStep::Finish(Ok(()))));
}

#[test]
fn scheduler_runs_each_block_once_within_bound() {
    let mut s = RangeScheduler::new(1000, 1099, 10, 3, 2);
    let mut running: Vec<u64> = vec![];
    let mut launched: Vec<u64> = vec![];
    let mut progress = Progress::new(100, 0);
    let mut reports = 0;
    let mut now: u64 = 0;
    loop {
        match s.next_action() {
            SchedulerAction::Launch { block, rpc, db } => {
                assert_eq!(rpc, block % 3);
                assert_eq!(db, block % 2);
                running.push(block);
                launched.push(block);
                assert!(running.len() <= 10);
                assert_eq!(s.running(), running.len() as u64);
            }
            SchedulerAction::WaitForTask => {
                running.remove(0);
                s.task_finished();
                now += 10;
                if progress.record(1, now).is_some() {
                    reports += 1;
                }
            }
            SchedulerAction::Done => break,
        }
    }
    assert_eq!(launched.len(), 100);
    assert_eq!(launched, (1000..=1099).collect::<Vec<u64>>());
    assert!(reports >= 1);
}

#[test]
fn range_sizes() {
    assert_eq!(range_size(1000, 1099), 100);
    assert_eq!(range_size(5, 5), 1);
    assert_eq!(range_size(5, 4), 0);
    assert_eq!(range_size(0, u64::MAX), u64::MAX);
}

#[test]
fn empty_range_is_done_at_once() {
    let mut s = RangeScheduler::new(5, 4, 10, 1, 1);
    assert_eq!(s.next_action(), SchedulerAction::Done);
}

#[test]
fn progress_report_values() {
    let mut p = Progress::new(100, 1000);
    assert!(p.record(10, 2000).is_none());
    let r = p.record(40, 6000).unwrap();
    assert_eq!(r.percent, 50);
    assert_eq!(r.blocks_per_second, 10);
    assert_eq!(r.eta_seconds, 5);
    let last = p.record(50, 7000).unwrap();
    assert_eq!(last.percent, 100);
    assert_eq!(last.eta_seconds, 0);
}

#[test]
fn explorer_not_found_still_stores_contract() {
    let info = contract_info_from_response(404, None);
    assert!(info.is_null());
    let (mut task, step) = ContractTask::new([0xcc; 20], 5, [0x0d; 32], [0x05; 20]);
    assert!(matches!(step, ContractStep::FetchCode(_)));
    assert!(matches!(task.on_code(None), ContractStep::FetchMetadata(_)));
    match task.on_metadata(info) {
        ContractStep::InsertContract(row) => {
            assert_eq!(row.address, format!("0x{}", "cc".repeat(20)));
            assert_eq!(row.contract_type, "");
            assert_eq!(row.abi, "[]");
            assert_eq!(row.source_code, "");
            assert_eq!(row.bytecode, "0x");
        }
        _ => panic!("expected the contract row"),
    }
    assert!(matches!(task.on_contract_stored(Ok(())), ContractStep::Finish(Ok(()))));
}

#[test]
fn explorer_errors_give_empty_metadata() {
    for status in [400u16, 500, 503, 302] {
        assert!(contract_info_from_response(status, None).is_null());
    }
    assert!(contract_info_from_response(200, None).is_null());
}

fn fields(abi: &str) -> ExplorerFields {
    ExplorerFields {
        abi: Some(abi.to_string()),
        additional_sources: None,
        compiler_settings: Some("{}".to_string()),
        compiler_version: Some("v0.8.19".to_string()),
        constructor_args: None,
        name: Some("Token".to_string()),
        evm_version: Some("paris".to_string()),
        file_path: None,
        optimization_enabled: Some("true".to_string()),
        source_code: Some("contract Token {}".to_string()),
    }
}

const ERC20_ABI: &str = "[{\"type\":\"function\",\"name\":\"totalSupply\",\"inputs\":[],\"outputs\":[]},\
    {\"type\":\"function\",\"name\":\"balanceOf\",\"inputs\":[],\"outputs\":[]},\
    {\"type\":\"function\",\"name\":\"transfer\",\"inputs\":[],\"outputs\":[]}]";

#[test]
fn verified_contract_without_abi_stores_empty_array() {
    let mut f = fields("[]");
    f.abi = None;
    let info = contract_info_from_response(200, Some(f));
    assert!(!info.is_null());
    let (mut task, _) = ContractTask::new([0xcc; 20], 5, [0x0d; 32], [0x05; 20]);
    let _ = task.on_code(None);
    match task.on_metadata(info) {
        ContractStep::InsertContract(row) => {
            assert_eq!(row.abi, "[]");
            assert_eq!(row.contract_type, "");
            assert_eq!(row.contract_name, "Token");
        }
        _ => panic!("expected the contract row"),
    }
}

#[test]
fn verified_erc20_contract_runs_token_steps() {
    let info = contract_info_from_response(200, Some(fields(ERC20_ABI)));
    assert_eq!(info.contract_type, ContractType::ERC20);
    assert!(info.optimization_used);
    assert_eq!(info.contract_name, "Token");
    assert_eq!(info.additional_sources, "");
    let (mut task, _) = ContractTask::new([0xcc; 20], 5, [0x0d; 32], [0x05; 20]);
    let _ = task.on_code(Some(vec![0x60]));
    match task.on_metadata(info) {
        ContractStep::InsertContract(row) => {
            assert_eq!(row.contract_type, "ERC20");
            assert_eq!(row.abi, ERC20_ABI);
            assert_eq!(row.bytecode, "0x60");
        }
        _ => panic!("expected the contract row"),
    }
    assert!(matches!(task.on_contract_stored(Ok(())), ContractStep::CallTokenMethods { .. }));
    match task.on_token_calls(None, Some("Token".to_string()), None, None) {
        ContractStep::InsertToken(row) => {
            assert_eq!(row.token_type, "ERC20");
            assert_eq!(row.name, "Token");
            assert_eq!(row.symbol, "");
            assert_eq!(row.total_supply, [0; 32]);
            assert_eq!(row.total_supply_updated_at_block, 5);
            assert_eq!(row.holder_count, None);
        }
        _ => panic!("expected the token row"),
    }
    assert!(matches!(task.on_token_stored(Ok(())), ContractStep::FetchLogsFrom(5)));
    assert!(matches!(task.on_logs(None), ContractStep::Finish(Ok(()))));
}

#[test]
fn log_task_without_abi_stores_only_the_log() {
    let log = LogData {
        address: [0x0c; 20],
        topics: vec![],
        data: vec![],
        block_hash: [0; 32],
        block_number: 9,
        transaction_hash: [1; 32],
        log_index: 0,
        log_type: None,
    };
    let (mut task, step) = LogTask::new(log);
    assert!(matches!(step, LogStep::InsertLog(_)));
    assert!(matches!(task.on_log_stored(Ok(())), LogStep::LookupAbi(a) if a == [0x0c; 20]));
    assert!(matches!(task.on_abi(None), LogStep::Finish(Ok(()))));
}

fn args(a: &[&str]) -> Vec<String> {
    a.iter().map(|s| s.to_string()).collect()
}

#[test]
fn command_line_modes() {
    assert_eq!(parse_command(&args(&[])), Command::Help);
    assert_eq!(parse_command(&args(&["index_all"])), Command::IndexAll);
    assert_eq!(parse_command(&args(&["index_live"])), Command::IndexLive);
    assert_eq!(parse_command(&args(&["--version"])), Command::Help);
    assert_eq!(parse_command(&args(&["bogus"])), Command::Unknown);
    assert_eq!(parse_command(&args(&["index_last", "50"])), Command::IndexLast(50));
    assert_eq!(parse_command(&args(&["index_last_hours", "2"])), Command::IndexLast(1200));
    assert_eq!(parse_command(&args(&["index_last_days", "1"])), Command::IndexLast(14400));
    assert_eq!(parse_command(&args(&["index_last", "x"])), Command::Unknown);
    assert_eq!(parse_command(&args(&["index_last_days", "18446744073709551615"])), Command::Unknown);
    assert_eq!(parse_command(&args(&["a", "b", "c"])), Command::TooManyArguments);
}

#[test]
fn settings_and_ranges() {
    assert_eq!(setting_or(Some("25".to_string()), 100), 25);
    assert_eq!(setting_or(Some("-1".to_string()), 100), 100);
    assert_eq!(setting_or(None, 100), 100);
    assert_eq!(setting_or(Some("0".to_string()), 100), 0);
    assert_eq!(positive_setting_or(Some("0".to_string()), 100), 100);
    assert_eq!(positive_setting_or(Some("+8".to_string()), 100), 8);
    assert_eq!(positive_setting_or(Some(" 8".to_string()), 100), 100);
    assert_eq!(last_blocks_range(1000, 10), Some((991, 1000)));
    assert_eq!(last_blocks_range(5, 10), Some((0, 5)));
    assert_eq!(last_blocks_range(5, 0), None);
    assert!(needs_schema_init(None, &"1.0".to_string()));
    assert!(needs_schema_init(Some("0.9".to_string()), &"1.0".to_string()));
    assert!(!needs_schema_init(Some("1.0".to_string()), &"1.0".to_string()));
}

#[test]
fn transaction_row_text_columns() {
    let (mut task, _) = TxTask::new([1; 32]);
    match task.on_transaction(Some(transaction([1; 32], 9, None))) {
        TxStep::InsertTransaction(row) => {
            assert_eq!(row.v, "0x1b");
            assert_eq!(row.chain_id, "1");
            assert_eq!(row.to, format!("0x{}", "00".repeat(20)));
            assert_eq!(row.from, format!("0x{}", "05".repeat(20)));
            assert_eq!(row.input, "0x");
            assert_eq!(row.block_number, 9);
        }
        _ => panic!("expected the transaction row"),
    }
}
