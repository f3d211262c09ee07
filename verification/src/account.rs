//! Account snapshots: the type and balance of an on-chain account as one
//! read query reports them.

use vstd::prelude::*;

use crate::abi::dec_value;
use crate::abi::is_dec_numeral_within;
use crate::abi::u64_from_dec_str;
use crate::errors::ContractError;

verus! {

/// The lifecycle stage of an on-chain account.
#[derive(Clone, Copy, Debug, PartialEq, Eq, Structural)]
pub enum AccountType {
    /// No account record exists at the address.
    Nonexistent,
    /// The account holds a balance but no deployed code.
    Uninitialized,
    /// The account holds deployed code.
    Active,
    /// The account's code is frozen.
    Frozen,
}

/// The numeric code under which a read query reports each account type.
pub open spec fn account_type_code(t: AccountType) -> u8 {
    match t {
        AccountType::Uninitialized => 0,
        AccountType::Active => 1,
        AccountType::Frozen => 2,
        AccountType::Nonexistent => 3,
    }
}

impl AccountType {
    /// Decodes the numeric account-type code of a read query; codes other
    /// than the four known ones are rejected.
    pub fn from_code(code: u8) -> (r: Option<AccountType>)
        ensures
            r matches Some(t) ==> account_type_code(t) == code,
            r is None <==> code > 3,
    {
        if code == 0 {
            Some(AccountType::Uninitialized)
        } else if code == 1 {
            Some(AccountType::Active)
        } else if code == 2 {
            Some(AccountType::Frozen)
        } else if code == 3 {
            Some(AccountType::Nonexistent)
        } else {
            None
        }
    }

    /// The numeric code under which a read query reports this account type.
    pub fn code(&self) -> (r: u8)
        ensures
            r == account_type_code(*self),
    {
        match self {
            AccountType::Uninitialized => 0,
            AccountType::Active => 1,
            AccountType::Frozen => 2,
            AccountType::Nonexistent => 3,
        }
    }
}

/// One snapshot of an account: its type and its balance in nanotokens.
/// Fetched fresh per poll and discarded once a decision is made.
#[derive(Clone, Copy, Debug, PartialEq, Eq, Structural)]
pub struct AccountData {
    pub acc_type: AccountType,
    pub balance: u64,
}

/// Deployment may proceed only from an account observed in this state:
/// uninitialized, with a positive balance.
pub open spec fn snapshot_ready(d: AccountData) -> bool {
    d.acc_type == AccountType::Uninitialized && d.balance > 0
}

impl AccountData {
    /// Builds a snapshot from the two fields a read query reports: the
    /// numeric account-type code, and the balance as a decimal string.
    /// Rejects an unknown code and a balance that is not a decimal numeral
    /// within the 64-bit range.
    pub fn from_parts(acc_type_code: u8, balance_text: &str) -> (r: Result<
        AccountData,
        ContractError,
    >)
        ensures
            r matches Ok(d) ==> account_type_code(d.acc_type) == acc_type_code && d.balance
                == dec_value(balance_text@),
            r is Ok <==> acc_type_code <= 3 && is_dec_numeral_within(
                balance_text@,
                u64::MAX as int,
            ),
            r matches Err(e) ==> e is Decode,
    {
        let acc_type = match AccountType::from_code(acc_type_code) {
            Some(t) => t,
            None => {
                return Err(ContractError::Decode { detail: balance_text.to_owned() });
            },
        };
        match u64_from_dec_str(balance_text) {
            Ok(balance) => Ok(AccountData { acc_type, balance }),
            Err(e) => Err(e),
        }
    }

    /// Whether this snapshot allows deployment to proceed.
    pub fn is_ready_for_deploy(&self) -> (r: bool)
        ensures
            r == snapshot_ready(*self),
    {
        self.acc_type == AccountType::Uninitialized && self.balance > 0
    }
}

} // verus!
