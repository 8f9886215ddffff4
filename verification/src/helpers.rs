use crate::msg::ExecuteMsg;
use crate::types::Coin;
use vstd::prelude::*;

verus! {

/// An execution of this contract: `msg` sent to `contract_addr` with `funds`.
#[derive(Clone, Debug, PartialEq, Eq)]
pub struct ContractCall {
    pub contract_addr: String,
    pub msg: ExecuteMsg,
    pub funds: Vec<Coin>,
}

/// A deployed instance of this contract: its address and its code id.
#[derive(Clone, Debug, PartialEq, Eq)]
pub struct CwTemplateContract(pub String, pub u64);

impl CwTemplateContract {
    /// The address of the instance.
    pub fn addr(&self) -> (a: String)
        ensures
            a@ == self.0@,
    {
        self.0.clone()
    }

    /// The code id of the instance.
    pub fn code_id(&self) -> (c: u64)
        ensures
            c == self.1,
    {
        self.1
    }

    /// An execution of the instance with `msg` and no funds.
    pub fn call(&self, msg: ExecuteMsg) -> (c: ContractCall)
        ensures
            c.contract_addr@ == self.0@,
            c.msg == msg,
            c.funds@.len() == 0,
    {
        ContractCall { contract_addr: self.addr(), msg, funds: Vec::new() }
    }
}

} // verus!
