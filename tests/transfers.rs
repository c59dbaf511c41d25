use eth_indexer::hex::{to_hex, to_hex_prefixed};
use eth_indexer::logs::{decode_transfer, follow_up, follow_up_for_type, is_transfer, log_row, DecodeError, LogData, LogFollowUp};
use eth_indexer::types::ContractType;

const TRANSFER_TOPIC: &str = "ddf252ad1be2c89b69c2b068fc378daa952ba7f163c4a11628f55a4df523b3ef";

fn bytes32_of_hex(h: &str) -> [u8; 32] {
    let mut out = [0u8; 32];
    for i in 0..32 {
        out[i] = u8::from_str_radix(&h[2 * i..2 * i + 2], 16).unwrap();
    }
    out
}

fn word_ending(last: u8) -> [u8; 32] {
    let mut w = [0u8; 32];
    w[31] = last;
    w
}

fn transfer_log(topics: Vec<[u8; 32]>, data: Vec<u8>) -> LogData {
    LogData {
        address: [0x11; 20],
        topics,
        data,
        block_hash: [0x22; 32],
        block_number: 7,
        transaction_hash: [0x33; 32],
        log_index: 4,
        log_type: None,
    }
}

#[test]
fn hex_text_of_bytes() {
    assert_eq!(to_hex(&[0xab, 0x01, 0x00, 0xff]), "ab0100ff");
    assert_eq!(to_hex_prefixed(&[0x0a]), "0x0a");
    assert_eq!(to_hex_prefixed(&[]), "0x");
}

#[test]
fn transfer_signature_is_recognised() {
    let topics = vec![bytes32_of_hex(TRANSFER_TOPIC)];
    assert!(is_transfer(&topics));
    let other = vec![word_ending(1)];
    assert!(!is_transfer(&other));
    assert!(!is_transfer(&vec![]));
}

#[test]
fn transfer_log_gives_token_transfer_row() {
    let log = transfer_log(
        vec![bytes32_of_hex(TRANSFER_TOPIC), word_ending(0x0a), word_ending(0x0b)],
        word_ending(0x64).to_vec(),
    );
    match follow_up_for_type(&log, ContractType::ERC20) {
        Ok(LogFollowUp::InsertTransfer(row)) => {
            assert_eq!(row.from_address, format!("0x{}0a", "00".repeat(19)));
            assert_eq!(row.to_address, format!("0x{}0b", "00".repeat(19)));
            assert_eq!(row.amount, word_ending(100));
            assert_eq!(row.contract_address, format!("0x{}", "11".repeat(20)));
            assert_eq!(row.transaction_hash, format!("0x{}", "33".repeat(32)));
            assert_eq!(row.block_hash, format!("0x{}", "22".repeat(32)));
            assert_eq!(row.block_number, 7);
            assert_eq!(row.log_index, 4);
        }
        _ => panic!("expected a token transfer"),
    }
}

#[test]
fn decoded_addresses_are_low_twenty_bytes() {
    let mut from = [0xee; 32];
    from[12..].copy_from_slice(&[0x01; 20]);
    let mut to = [0xdd; 32];
    to[12..].copy_from_slice(&[0x02; 20]);
    let data = word_ending(5).to_vec();
    let t = decode_transfer(&vec![bytes32_of_hex(TRANSFER_TOPIC), from, to], &data).ok().unwrap();
    assert_eq!(t.from, [0x01; 20]);
    assert_eq!(t.to, [0x02; 20]);
    assert_eq!(t.value, word_ending(5));
}

#[test]
fn transfer_with_trailing_data_is_a_decode_error() {
    let mut data = word_ending(5).to_vec();
    data.extend_from_slice(&[0xff; 8]);
    let log = transfer_log(vec![bytes32_of_hex(TRANSFER_TOPIC), word_ending(1), word_ending(2)], data);
    assert!(matches!(follow_up_for_type(&log, ContractType::ERC20), Err(DecodeError::DataNotOneWord)));
}

#[test]
fn transfer_with_too_few_topics_is_a_decode_error() {
    let log = transfer_log(vec![bytes32_of_hex(TRANSFER_TOPIC), word_ending(1)], word_ending(1).to_vec());
    assert!(matches!(follow_up_for_type(&log, ContractType::ERC20), Err(DecodeError::MissingTopics)));
}

#[test]
fn transfer_with_short_data_is_a_decode_error() {
    let log = transfer_log(
        vec![bytes32_of_hex(TRANSFER_TOPIC), word_ending(1), word_ending(2)],
        vec![0u8; 31],
    );
    assert!(matches!(follow_up_for_type(&log, ContractType::ERC20), Err(DecodeError::DataNotOneWord)));
}

#[test]
fn other_events_and_types_need_nothing() {
    let log = transfer_log(vec![word_ending(9), word_ending(1), word_ending(2)], word_ending(1).to_vec());
    assert!(matches!(follow_up_for_type(&log, ContractType::ERC20), Ok(LogFollowUp::Nothing)));
    assert!(matches!(follow_up_for_type(&log, ContractType::Unknown), Ok(LogFollowUp::Nothing)));
    assert!(matches!(
        follow_up_for_type(&log, ContractType::ERC721),
        Ok(LogFollowUp::Unsupported(ContractType::ERC721))
    ));
    assert!(matches!(follow_up(&log, None), Ok(LogFollowUp::Nothing)));
}

#[test]
fn abi_text_decides_the_follow_up() {
    let abi = "[{\"type\":\"function\",\"name\":\"totalSupply\",\"inputs\":[],\"outputs\":[]},\
               {\"type\":\"function\",\"name\":\"balanceOf\",\"inputs\":[],\"outputs\":[]},\
               {\"type\":\"function\",\"name\":\"transfer\",\"inputs\":[],\"outputs\":[]}]";
    let log = transfer_log(
        vec![bytes32_of_hex(TRANSFER_TOPIC), word_ending(0x0a), word_ending(0x0b)],
        word_ending(0x64).to_vec(),
    );
    assert!(matches!(follow_up(&log, Some(abi)), Ok(LogFollowUp::InsertTransfer(_))));
    assert!(matches!(follow_up(&log, Some("[]")), Ok(LogFollowUp::Nothing)));
}

#[test]
fn log_row_fills_missing_topics_with_empty_text() {
    let log = transfer_log(vec![word_ending(1), word_ending(2)], vec![1, 2, 3]);
    let row = log_row(&log);
    assert_eq!(row.first_topic, format!("0x{}01", "00".repeat(31)));
    assert_eq!(row.second_topic, format!("0x{}02", "00".repeat(31)));
    assert_eq!(row.third_topic, "");
    assert_eq!(row.fourth_topic, "");
    assert_eq!(row.data, vec![1, 2, 3]);
    assert_eq!(row.index, 4);
    assert_eq!(row.address, format!("0x{}", "11".repeat(20)));
}
