use eth_indexer::logs::{LogRow, TokenTransferRow};
use eth_indexer::rows::{address_row, AddressRow, TokenRow};
use eth_indexer::store::{upsert_address, upsert_log, upsert_token, upsert_token_transfer};

fn balance(n: u8) -> [u8; 32] {
    let mut w = [0u8; 32];
    w[31] = n;
    w
}

fn sample(block: u64, bal: u8) -> AddressRow {
    address_row(&[0x01; 20], block, Ok(balance(bal)), None, None, Ok(balance(1))).ok().unwrap()
}

#[test]
fn older_address_sample_does_not_overwrite() {
    let stored = upsert_address(None, sample(100, 5));
    let stored = upsert_address(Some(stored), sample(90, 99));
    assert_eq!(stored.balance, balance(5));
    assert_eq!(stored.block_number, 100);
}

#[test]
fn newer_address_sample_overwrites() {
    let stored = upsert_address(Some(sample(90, 99)), sample(100, 5));
    assert_eq!(stored.balance, balance(5));
    assert_eq!(stored.block_number, 100);
}

#[test]
fn same_block_address_sample_keeps_first() {
    let stored = upsert_address(Some(sample(100, 5)), sample(100, 6));
    assert_eq!(stored.balance, balance(5));
}

#[test]
fn any_order_of_address_samples_keeps_highest() {
    let orders: [[u64; 3]; 3] = [[10, 30, 20], [30, 20, 10], [20, 10, 30]];
    for order in orders.iter() {
        let mut stored: Option<AddressRow> = None;
        for b in order.iter() {
            stored = Some(upsert_address(stored, sample(*b, *b as u8)));
        }
        let s = stored.unwrap();
        assert_eq!(s.block_number, 30);
        assert_eq!(s.balance, balance(30));
    }
}

#[test]
fn address_row_fallbacks_and_errors() {
    let row = address_row(&[0xab; 20], 3, Ok(balance(2)), None, None, Ok(balance(4))).ok().unwrap();
    assert_eq!(row.address, format!("0x{}", "ab".repeat(20)));
    assert_eq!(row.contract_code, "0x");
    assert_eq!(row.storage, format!("0x{}", "00".repeat(32)));
    assert_eq!(row.nonce, balance(4));
    assert_eq!(row.transaction_count, balance(4));
    let with_code = address_row(&[0xab; 20], 3, Ok(balance(2)), Some(vec![0x60, 0x80]), Some([0x01; 32]), Ok(balance(4)))
        .ok()
        .unwrap();
    assert_eq!(with_code.contract_code, "0x6080");
    assert_eq!(with_code.storage, format!("0x{}", "01".repeat(32)));
    let failed = address_row(&[0xab; 20], 3, Err("balance".to_string()), None, None, Err("count".to_string()));
    assert_eq!(failed.err().unwrap(), "balance");
    let failed = address_row(&[0xab; 20], 3, Ok(balance(2)), None, None, Err("count".to_string()));
    assert_eq!(failed.err().unwrap(), "count");
}

fn log_row(data: Vec<u8>, topic: &str, block: u64) -> LogRow {
    LogRow {
        data,
        index: 2,
        log_type: None,
        first_topic: topic.to_string(),
        second_topic: String::new(),
        third_topic: String::new(),
        fourth_topic: String::new(),
        address: "0xaa".to_string(),
        transaction_hash: "0xt".to_string(),
        block_hash: "0xb".to_string(),
        block_number: block,
    }
}

#[test]
fn reinserted_log_keeps_key_and_takes_payload() {
    let merged = upsert_log(log_row(vec![1], "0x01", 5), log_row(vec![2], "0x02", 6));
    assert_eq!(merged.transaction_hash, "0xt");
    assert_eq!(merged.block_hash, "0xb");
    assert_eq!(merged.index, 2);
    assert_eq!(merged.data, vec![2]);
    assert_eq!(merged.first_topic, "0x02");
    assert_eq!(merged.block_number, 6);
    let again = upsert_log(merged, log_row(vec![2], "0x02", 6));
    assert_eq!(again.data, vec![2]);
    assert_eq!(again.first_topic, "0x02");
}

#[test]
fn token_conflict_keeps_type_and_takes_metadata() {
    let stored = TokenRow {
        address: "0xc".to_string(),
        token_type: "ERC20".to_string(),
        name: "Old".to_string(),
        symbol: "O".to_string(),
        total_supply: balance(1),
        decimals: balance(18),
        holder_count: None,
        total_supply_updated_at_block: 1,
    };
    let incoming = TokenRow {
        address: "0xc".to_string(),
        token_type: "".to_string(),
        name: "New".to_string(),
        symbol: "N".to_string(),
        total_supply: balance(2),
        decimals: balance(6),
        holder_count: Some(3),
        total_supply_updated_at_block: 9,
    };
    let merged = upsert_token(stored, incoming);
    assert_eq!(merged.token_type, "ERC20");
    assert_eq!(merged.name, "New");
    assert_eq!(merged.total_supply, balance(2));
    assert_eq!(merged.holder_count, Some(3));
    assert_eq!(merged.total_supply_updated_at_block, 9);
}

#[test]
fn token_transfer_conflict_takes_parties_and_amount() {
    let row = |from: &str, amount: u8, block: u64| TokenTransferRow {
        contract_address: "0xc".to_string(),
        from_address: from.to_string(),
        to_address: "0xto".to_string(),
        transaction_hash: "0xt".to_string(),
        block_number: block,
        block_hash: "0xb".to_string(),
        log_index: 1,
        amount: balance(amount),
    };
    let merged = upsert_token_transfer(row("0xa", 1, 10), row("0xb", 2, 11));
    assert_eq!(merged.from_address, "0xb");
    assert_eq!(merged.amount, balance(2));
    assert_eq!(merged.block_number, 10);
}
