//! What the explorer's answer for a contract address means.
use crate::abi::abi_contract_type;
use crate::types::{ContractInfo, ContractType};
use vstd::prelude::*;

verus! {

/// The fields of the explorer's JSON answer, each as text when present (a
/// string field as its contents, any other value as its JSON text).
pub struct ExplorerFields {
    pub abi: Option<String>,
    pub additional_sources: Option<String>,
    pub compiler_settings: Option<String>,
    pub compiler_version: Option<String>,
    pub constructor_args: Option<String>,
    pub name: Option<String>,
    pub evm_version: Option<String>,
    pub file_path: Option<String>,
    pub optimization_enabled: Option<String>,
    pub source_code: Option<String>,
}

pub open spec fn text_or_empty(t: Option<String>) -> Seq<char> {
    match t {
        Some(s) => s@,
        None => Seq::empty(),
    }
}

pub open spec fn is_success(status: u16) -> bool {
    200 <= status <= 299
}

fn take_text(t: Option<String>) -> (r: String)
    ensures
        r@ == text_or_empty(t),
{
    match t {
        Some(s) => s,
        None => String::new(),
    }
}

/// The contract metadata given by an answer with HTTP status `status` and,
/// when its body was a JSON object, its fields. Anything but a successful
/// answer with a body (not found, another client or server error, a body that
/// is not JSON) gives the empty metadata. Missing fields are empty, the
/// contract type is that of the ABI, and optimisation is on exactly when the
/// field reads `true`.
pub fn contract_info_from_response(status: u16, body: Option<ExplorerFields>) -> (r: ContractInfo)
    ensures
        !is_success(status) || body is None ==> r.is_empty_info(),
        is_success(status) ==> (body matches Some(f) ==> {
            &&& r.contract_type == abi_contract_type(text_or_empty(f.abi))
            &&& r.abi@ == text_or_empty(f.abi)
            &&& r.additional_sources@ == text_or_empty(f.additional_sources)
            &&& r.compiler_settings@ == text_or_empty(f.compiler_settings)
            &&& r.compiler_version@ == text_or_empty(f.compiler_version)
            &&& r.constructor_arguments@ == text_or_empty(f.constructor_args)
            &&& r.contract_name@ == text_or_empty(f.name)
            &&& r.evm_version@ == text_or_empty(f.evm_version)
            &&& r.file_name@ == text_or_empty(f.file_path)
            &&& !r.is_proxy
            &&& r.optimization_used == (text_or_empty(f.optimization_enabled) == "true"@)
            &&& r.source_code@ == text_or_empty(f.source_code)
        }),
{
    if status < 200 || status > 299 {
        return ContractInfo::new();
    }
    match body {
        None => ContractInfo::new(),
        Some(f) => {
            let abi = take_text(f.abi);
            let optimization = take_text(f.optimization_enabled);
            let truth = String::from_str("true");
            ContractInfo {
                contract_type: ContractType::detect_contract_type(abi.as_str()),
                abi,
                additional_sources: take_text(f.additional_sources),
                compiler_settings: take_text(f.compiler_settings),
                compiler_version: take_text(f.compiler_version),
                constructor_arguments: take_text(f.constructor_args),
                contract_name: take_text(f.name),
                evm_version: take_text(f.evm_version),
                file_name: take_text(f.file_path),
                is_proxy: false,
                optimization_used: optimization == truth,
                source_code: take_text(f.source_code),
            }
        },
    }
}

} // verus!
