use eth_indexer::abi::{classify_function_names, function_names_of, AbiEntry};
use eth_indexer::types::{ContractInfo, ContractType, TokenInfo};

fn function_entry(name: &str) -> String {
    format!("{{\"type\":\"function\",\"name\":\"{}\",\"inputs\":[],\"outputs\":[]}}", name)
}

fn abi_of(names: &[&str]) -> String {
    let entries: Vec<String> = names.iter().map(|n| function_entry(n)).collect();
    format!("[{}]", entries.join(","))
}

fn strings(names: &[&str]) -> Vec<String> {
    names.iter().map(|s| s.to_string()).collect()
}

#[test]
fn erc20_abi_with_extra_function_is_erc20() {
    let abi = abi_of(&["totalSupply", "balanceOf", "transfer", "approve"]);
    assert_eq!(ContractType::detect_contract_type(&abi), ContractType::ERC20);
}

#[test]
fn function_entries_with_only_type_and_name_classify() {
    let abi = "[{\"type\":\"function\",\"name\":\"totalSupply\"},\
               {\"type\":\"function\",\"name\":\"balanceOf\"},\
               {\"type\":\"function\",\"name\":\"transfer\"},\
               {\"type\":\"function\",\"name\":\"approve\"}]";
    assert_eq!(ContractType::detect_contract_type(abi), ContractType::ERC20);
}

#[test]
fn odd_entries_are_skipped() {
    let abi = "[{\"type\":\"function\"},{\"name\":\"totalSupply\"},7,\
               {\"type\":\"function\",\"name\":\"ownerOf\"},\
               {\"type\":\"function\",\"name\":\"safeTransferFrom\",\"inputs\":[]},\
               {\"type\":\"function\",\"name\":\"transferFrom\",\"weird\":true}]";
    assert_eq!(ContractType::detect_contract_type(abi), ContractType::ERC721);
    assert_eq!(ContractType::detect_contract_type("{\"abi\":[]}"), ContractType::Unknown);
}

#[test]
fn function_names_keep_order_and_skip_other_entries() {
    let entries = vec![
        AbiEntry { kind: Some("function".to_string()), name: Some("b".to_string()) },
        AbiEntry { kind: Some("event".to_string()), name: Some("E".to_string()) },
        AbiEntry { kind: Some("function".to_string()), name: None },
        AbiEntry { kind: None, name: Some("c".to_string()) },
        AbiEntry { kind: Some("function".to_string()), name: Some("a".to_string()) },
    ];
    assert_eq!(function_names_of(&entries), vec!["b".to_string(), "a".to_string()]);
}

#[test]
fn erc20_names_in_any_order_are_erc20() {
    let names = strings(&["approve", "transfer", "name", "balanceOf", "totalSupply"]);
    assert_eq!(classify_function_names(&names), ContractType::ERC20);
}

#[test]
fn erc721_abi_is_erc721() {
    let abi = abi_of(&["ownerOf", "safeTransferFrom", "transferFrom", "approve"]);
    assert_eq!(ContractType::detect_contract_type(&abi), ContractType::ERC721);
}

#[test]
fn erc777_names_are_erc777() {
    let names = strings(&["granularity", "defaultOperators", "send"]);
    assert_eq!(classify_function_names(&names), ContractType::ERC777);
}

#[test]
fn erc1155_names_are_erc1155() {
    let names = strings(&["safeTransferFrom", "safeBatchTransferFrom", "balanceOf", "balanceOfBatch"]);
    assert_eq!(classify_function_names(&names), ContractType::ERC1155);
}

#[test]
fn erc20_rule_wins_over_later_rules() {
    let names = strings(&[
        "totalSupply", "balanceOf", "transfer", "ownerOf", "safeTransferFrom", "transferFrom",
    ]);
    assert_eq!(classify_function_names(&names), ContractType::ERC20);
}

#[test]
fn events_do_not_count_as_functions() {
    let abi = "[{\"type\":\"event\",\"name\":\"totalSupply\",\"inputs\":[],\"anonymous\":false},\
               {\"type\":\"function\",\"name\":\"balanceOf\",\"inputs\":[],\"outputs\":[]},\
               {\"type\":\"function\",\"name\":\"transfer\",\"inputs\":[],\"outputs\":[]}]";
    assert_eq!(ContractType::detect_contract_type(abi), ContractType::Unknown);
}

#[test]
fn partial_erc20_is_unknown() {
    let abi = abi_of(&["totalSupply", "balanceOf"]);
    assert_eq!(ContractType::detect_contract_type(&abi), ContractType::Unknown);
}

#[test]
fn null_empty_and_malformed_abis_are_unknown() {
    assert_eq!(ContractType::detect_contract_type("null"), ContractType::Unknown);
    assert_eq!(ContractType::detect_contract_type("[]"), ContractType::Unknown);
    assert_eq!(ContractType::detect_contract_type("not json"), ContractType::Unknown);
    assert_eq!(ContractType::detect_contract_type(""), ContractType::Unknown);
}

#[test]
fn contract_type_names() {
    assert_eq!(ContractType::Unknown.to_string(), "");
    assert_eq!(ContractType::ERC20.to_string(), "ERC20");
    assert_eq!(ContractType::ERC721.to_string(), "ERC721");
    assert_eq!(ContractType::ERC777.to_string(), "ERC777");
    assert_eq!(ContractType::ERC1155.to_string(), "ERC1155");
}

#[test]
fn empty_contract_info_is_null() {
    let info = ContractInfo::new();
    assert!(info.is_null());
    let mut named = ContractInfo::new();
    named.contract_name = "Token".to_string();
    assert!(!named.is_null());
}

#[test]
fn empty_token_info_is_null() {
    let info = TokenInfo::new();
    assert!(info.is_null());
    let mut supplied = TokenInfo::new();
    supplied.total_supply[31] = 1;
    assert!(!supplied.is_null());
}

#[test]
fn token_info_description() {
    let mut info = TokenInfo::new();
    info.name = "Tether".to_string();
    info.symbol = "USDT".to_string();
    info.total_supply[30] = 0x03;
    info.total_supply[31] = 0xe8;
    info.decimals[31] = 6;
    info.total_supply_updated_at_block = 42;
    assert_eq!(
        info.to_string(),
        "\n\tName: Tether\n\tSymbol: USDT\n\tTotal Supply: 1000\n\tDecimals: 6\n\tHolder Count: \n\tTotal Supply Updated At Block: 42"
    );
    info.holder_count = Some(12);
    assert!(info.to_string().contains("Holder Count: 12\n"));
}

#[test]
fn large_supply_is_written_in_full() {
    let mut info = TokenInfo::new();
    info.total_supply = [0xff; 32];
    let text = info.to_string();
    assert!(text.contains(
        "Total Supply: 115792089237316195423570985008687907853269984665640564039457584007913129639935\n"
    ));
}
