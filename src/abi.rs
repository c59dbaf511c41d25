//! Classification of a contract from the function entries of its ABI.
use crate::types::ContractType;
use vstd::prelude::*;

verus! {

/// The `type` and `name` fields of the entries of an ABI's top-level JSON
/// array, in order, each when it is a string; none when the text is not JSON
/// or not an array.
pub uninterp spec fn abi_entries(abi: Seq<char>) -> Option<Seq<(Option<Seq<char>>, Option<Seq<char>>)>>;

/// One entry of an ABI: its `type` and `name` fields, when they are strings.
pub struct AbiEntry {
    pub kind: Option<String>,
    pub name: Option<String>,
}

pub open spec fn opt_text(o: Option<String>) -> Option<Seq<char>> {
    match o {
        Some(s) => Some(s@),
        None => None,
    }
}

pub open spec fn entry_view(e: AbiEntry) -> (Option<Seq<char>>, Option<Seq<char>>) {
    (opt_text(e.kind), opt_text(e.name))
}

pub open spec fn entries_view(v: Seq<AbiEntry>) -> Seq<(Option<Seq<char>>, Option<Seq<char>>)> {
    v.map_values(|e: AbiEntry| entry_view(e))
}

/// The names of the entries of type `function`, in order.
pub open spec fn function_names(entries: Seq<(Option<Seq<char>>, Option<Seq<char>>)>) -> Seq<Seq<char>>
    decreases entries.len(),
{
    if entries.len() == 0 {
        Seq::empty()
    } else {
        let rest = function_names(entries.drop_last());
        let e = entries.last();
        if e.0 == Some("function"@) && e.1 is Some {
            rest.push(e.1->0)
        } else {
            rest
        }
    }
}

/// The views of a sequence of strings.
pub open spec fn names_view(v: Seq<String>) -> Seq<Seq<char>> {
    v.map_values(|s: String| s@)
}

pub open spec fn has_all(names: Seq<Seq<char>>, wanted: Seq<Seq<char>>) -> bool {
    forall|i: int| 0 <= i < wanted.len() ==> #[trigger] names.contains(wanted[i])
}

pub open spec fn erc20_functions() -> Seq<Seq<char>> {
    seq!["totalSupply"@, "balanceOf"@, "transfer"@]
}

pub open spec fn erc721_functions() -> Seq<Seq<char>> {
    seq!["ownerOf"@, "safeTransferFrom"@, "transferFrom"@]
}

pub open spec fn erc777_functions() -> Seq<Seq<char>> {
    seq!["granularity"@, "defaultOperators"@, "send"@]
}

pub open spec fn erc1155_functions() -> Seq<Seq<char>> {
    seq!["safeTransferFrom"@, "safeBatchTransferFrom"@, "balanceOf"@, "balanceOfBatch"@]
}

/// The first standard, in the order ERC-20, ERC-721, ERC-777, ERC-1155, all of
/// whose functions the ABI declares.
pub open spec fn classify(names: Seq<Seq<char>>) -> ContractType {
    if has_all(names, erc20_functions()) {
        ContractType::ERC20
    } else if has_all(names, erc721_functions()) {
        ContractType::ERC721
    } else if has_all(names, erc777_functions()) {
        ContractType::ERC777
    } else if has_all(names, erc1155_functions()) {
        ContractType::ERC1155
    } else {
        ContractType::Unknown
    }
}

/// The classification of an ABI given as JSON text.
pub open spec fn abi_contract_type(abi: Seq<char>) -> ContractType {
    match abi_entries(abi) {
        Some(entries) => classify(function_names(entries)),
        None => ContractType::Unknown,
    }
}

/// Relies on `serde_json::from_str` into a `serde_json::Value`: for a
/// top-level array, the `type` and `name` string fields of each entry (read
/// with `Value::get` and `Value::as_str`); none for text that is not JSON or
/// not an array.
#[verifier::external_body]
fn parse_abi_entries(abi: &str) -> (r: Option<Vec<AbiEntry>>)
    ensures
        match r {
            Some(v) => abi_entries(abi@) == Some(entries_view(v@)),
            None => abi_entries(abi@) is None,
        },
{
    match serde_json::from_str::<serde_json::Value>(abi) {
        Ok(serde_json::Value::Array(items)) => Some(items.iter().map(|e| AbiEntry {
            kind: e.get("type").and_then(|t| t.as_str()).map(|t| t.to_string()),
            name: e.get("name").and_then(|n| n.as_str()).map(|n| n.to_string()),
        }).collect()),
        _ => None,
    }
}

/// The names of the entries of type `function`, in order.
pub fn function_names_of(entries: &Vec<AbiEntry>) -> (r: Vec<String>)
    ensures
        names_view(r@) == function_names(entries_view(entries@)),
{
    let function = String::from_str("function");
    let mut r: Vec<String> = Vec::new();
    let mut i: usize = 0;
    while i < entries.len()
        invariant
            i <= entries@.len(),
            function@ == "function"@,
            names_view(r@) == function_names(entries_view(entries@).take(i as int)),
        decreases entries@.len() - i,
    {
        let e = &entries[i];
        let ghost prefix = entries_view(entries@).take(i + 1);
        proof {
            assert(prefix.drop_last() =~= entries_view(entries@).take(i as int));
            assert(prefix.last() == entry_view(*e));
        }
        let is_function = match &e.kind {
            Some(k) => *k == function,
            None => false,
        };
        if is_function {
            match &e.name {
                Some(n) => {
                    let ghost before = r@;
                    r.push(n.clone());
                    assert(names_view(r@) =~= names_view(before).push(n@));
                },
                None => {},
            }
        }
        i = i + 1;
    }
    assert(entries_view(entries@).take(entries@.len() as int) =~= entries_view(entries@));
    r
}

fn contains_name(names: &Vec<String>, name: &str) -> (r: bool)
    ensures
        r == names_view(names@).contains(name@),
{
    let target = String::from_str(name);
    let mut i: usize = 0;
    while i < names.len()
        invariant
            i <= names@.len(),
            target@ == name@,
            forall|j: int| 0 <= j < i ==> names@[j]@ != name@,
        decreases names@.len() - i,
    {
        if names[i] == target {
            assert(names_view(names@)[i as int] == name@);
            return true;
        }
        i = i + 1;
    }
    proof {
        if names_view(names@).contains(name@) {
            let k = choose|k: int| 0 <= k < names_view(names@).len() && names_view(names@)[k] == name@;
            assert(names@[k]@ == name@);
        }
    }
    false
}

fn contains_all3(names: &Vec<String>, a: &str, b: &str, c: &str) -> (r: bool)
    ensures
        r == has_all(names_view(names@), seq![a@, b@, c@]),
{
    let r = contains_name(names, a) && contains_name(names, b) && contains_name(names, c);
    proof {
        let w = seq![a@, b@, c@];
        if !r {
            if !names_view(names@).contains(a@) {
                assert(w[0] == a@);
            } else if !names_view(names@).contains(b@) {
                assert(w[1] == b@);
            } else {
                assert(w[2] == c@);
            }
        }
    }
    r
}

/// The classification of a list of function names.
pub fn classify_function_names(names: &Vec<String>) -> (r: ContractType)
    ensures
        r == classify(names_view(names@)),
{
    if contains_all3(names, "totalSupply", "balanceOf", "transfer") {
        ContractType::ERC20
    } else if contains_all3(names, "ownerOf", "safeTransferFrom", "transferFrom") {
        ContractType::ERC721
    } else if contains_all3(names, "granularity", "defaultOperators", "send") {
        ContractType::ERC777
    } else {
        let r = contains_name(names, "safeTransferFrom") && contains_name(names, "safeBatchTransferFrom")
            && contains_name(names, "balanceOf") && contains_name(names, "balanceOfBatch");
        proof {
            let n = names_view(names@);
            let w = erc1155_functions();
            if !r {
                if !n.contains("safeTransferFrom"@) {
                    assert(w[0] == "safeTransferFrom"@);
                } else if !n.contains("safeBatchTransferFrom"@) {
                    assert(w[1] == "safeBatchTransferFrom"@);
                } else if !n.contains("balanceOf"@) {
                    assert(w[2] == "balanceOf"@);
                } else {
                    assert(w[3] == "balanceOfBatch"@);
                }
            }
        }
        if r {
            ContractType::ERC1155
        } else {
            ContractType::Unknown
        }
    }
}

impl ContractType {
    /// Classifies a contract from the entries of type `function` of its ABI
    /// given as JSON text; text that is not a JSON array (`null`, malformed
    /// JSON) classifies as `Unknown`, as does an empty array.
    pub fn detect_contract_type(abi: &str) -> (r: ContractType)
        ensures
            r == abi_contract_type(abi@),
    {
        match parse_abi_entries(abi) {
            Some(entries) => classify_function_names(&function_names_of(&entries)),
            None => ContractType::Unknown,
        }
    }
}

/// Classification depends only on which names occur, not on their order or
/// on repetitions.
pub proof fn classify_depends_on_names_only(a: Seq<Seq<char>>, b: Seq<Seq<char>>)
    requires
        a.to_set() == b.to_set(),
    ensures
        classify(a) == classify(b),
{
    assert forall|x: Seq<char>| a.contains(x) <==> b.contains(x) by {
        assert(a.to_set().contains(x) == a.contains(x));
        assert(b.to_set().contains(x) == b.contains(x));
    }
}

/// An ABI that declares `totalSupply`, `balanceOf` and `transfer` functions is
/// ERC-20, whatever else it declares and in whatever order.
pub proof fn erc20_functions_classify_as_erc20(names: Seq<Seq<char>>)
    requires
        names.contains("totalSupply"@),
        names.contains("balanceOf"@),
        names.contains("transfer"@),
    ensures
        classify(names) == ContractType::ERC20,
{
}

} // verus!
