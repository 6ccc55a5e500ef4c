//! Request and response records of the ledger's JSON-RPC interface, and the
//! projection of raw records into display-ready values.
//!
//! The records mirror the wire format field for field; the calling
//! application owns serialization and transport. Balances and amounts are
//! decimal subunit strings and normalize to integer subunit counts; the
//! display-unit rendering of a count is a fixed-point string, so no value
//! here is ever a floating-point number.

use vstd::prelude::*;
use vstd::string::StringExecFns;

use crate::calendar::{epoch_display_spec, epoch_to_display};
use crate::numeral::{parse_subunits, parse_subunits_spec};
use crate::text::str_eq;

verus! {

pub struct AccountInfoRequest {
    pub method: String,
    pub params: Vec<AccountInfoParams>,
}

pub struct AccountInfoParams {
    pub account: String,
    pub strict: bool,
}

impl AccountInfoRequest {
    /// A strict `account_info` request for one account.
    pub fn new(account: String) -> (r: AccountInfoRequest)
        ensures
            r.method@ == "account_info"@,
            r.params@.len() == 1,
            r.params@[0].account@ == account@,
            r.params@[0].strict == true,
    {
        AccountInfoRequest {
            method: String::from_str("account_info"),
            params: vec![AccountInfoParams { account, strict: true }],
        }
    }
}

pub struct AccountTxRequest {
    pub method: String,
    pub params: Vec<AccountTxParams>,
}

pub struct AccountTxParams {
    pub account: String,
    pub limit: u32,
    pub descending: bool,
}

impl AccountTxRequest {
    /// An `account_tx` request for the single newest transaction.
    pub fn new(account: String) -> (r: AccountTxRequest)
        ensures
            r.method@ == "account_tx"@,
            r.params@.len() == 1,
            r.params@[0].account@ == account@,
            r.params@[0].limit == 1u32,
            r.params@[0].descending == true,
    {
        AccountTxRequest {
            method: String::from_str("account_tx"),
            params: vec![AccountTxParams { account, limit: 1, descending: true }],
        }
    }
}

#[derive(Debug, Clone)]
pub struct AccountInfoResponse {
    pub result: AccountInfoResult,
}

#[derive(Debug, Clone)]
pub struct AccountInfoResult {
    pub account_data: AccountData,
    pub status: String,
}

#[derive(Debug, Clone)]
pub struct AccountData {
    pub balance: String,
}

impl AccountData {
    /// The reported balance as an integer subunit count, zero when the
    /// balance string is not a numeral (the best-effort policy).
    pub fn balance_subunits(&self) -> (r: u64)
        ensures
            r == parse_subunits_spec(self.balance@),
    {
        parse_subunits(self.balance.as_str())
    }
}

#[derive(Debug, Clone)]
pub struct AccountTxResponse {
    pub result: AccountTxResult,
}

#[derive(Debug, Clone)]
pub struct AccountTxResult {
    pub transactions: Vec<TransactionWrapper>,
    pub status: String,
}

#[derive(Debug, Clone)]
pub struct TransactionWrapper {
    pub tx: Transaction,
}

#[derive(Debug, Clone)]
pub struct Transaction {
    pub hash: String,
    pub amount: Option<String>,
    pub date: Option<u64>,
    pub account: String,
    pub destination: Option<String>,
    pub transaction_type: String,
}

impl Transaction {
    /// The transferred amount as an integer subunit count; an absent or
    /// malformed amount degrades to zero.
    pub fn amount_subunits(&self) -> (r: u64)
        ensures
            r == match self.amount {
                Some(a) => parse_subunits_spec(a@),
                None => 0u64,
            },
    {
        match &self.amount {
            Some(s) => parse_subunits(s.as_str()),
            None => 0,
        }
    }

    /// The transaction's timestamp rendered for display.
    pub fn formatted_date(&self) -> (r: String)
        ensures
            r@ == epoch_display_spec(self.date),
    {
        epoch_to_display(self.date)
    }
}

/// Whether a raw transaction is of the one recognized, displayable type.
pub open spec fn is_payment(tx: Transaction) -> bool {
    tx.transaction_type@ == "Payment"@
}

/// How a display record relates to the raw transaction it was built from.
pub open spec fn projects(tx: Transaction, d: DisplayTransaction) -> bool {
    &&& d.hash@ == tx.hash@
    &&& d.amount_subunits == (match tx.amount {
        Some(a) => parse_subunits_spec(a@),
        None => 0u64,
    })
    &&& d.timestamp@ == epoch_display_spec(tx.date)
    &&& d.from@ == tx.account@
    &&& d.to@ == (match tx.destination {
        Some(dst) => dst@,
        None => "Неизвестно"@,
    })
}

#[derive(Debug, Clone)]
pub struct DisplayAccountInfo {
    pub address: String,
    pub balance_subunits: u64,
}

impl DisplayAccountInfo {
    /// Pairs an address with its normalized balance.
    pub fn from_account_data(address: String, account_data: &AccountData) -> (r:
        DisplayAccountInfo)
        ensures
            r.address@ == address@,
            r.balance_subunits == parse_subunits_spec(account_data.balance@),
    {
        let balance_subunits = account_data.balance_subunits();
        DisplayAccountInfo { address, balance_subunits }
    }
}

#[derive(Debug, Clone)]
pub struct DisplayTransaction {
    pub hash: String,
    pub amount_subunits: u64,
    pub timestamp: String,
    pub from: String,
    pub to: String,
}

impl DisplayTransaction {
    /// Projects a raw transaction for display. Only payments are kept: any
    /// other transaction type yields no record. An absent destination is
    /// rendered with the unknown-party sentinel.
    pub fn from_transaction(tx: &Transaction) -> (r: Option<DisplayTransaction>)
        ensures
            match r {
                Some(d) => is_payment(*tx) && projects(*tx, d),
                None => !is_payment(*tx),
            },
    {
        if str_eq(tx.transaction_type.as_str(), "Payment") {
            Some(
                DisplayTransaction {
                    hash: tx.hash.clone(),
                    amount_subunits: tx.amount_subunits(),
                    timestamp: tx.formatted_date(),
                    from: tx.account.clone(),
                    to: match &tx.destination {
                        Some(d) => d.clone(),
                        None => String::from_str("Неизвестно"),
                    },
                },
            )
        } else {
            None
        }
    }
}

/// The display projection of the newest reported transaction: none when the
/// account has no transactions, and none when the newest one is not a
/// payment.
pub fn latest_transaction(result: &AccountTxResult) -> (r: Option<DisplayTransaction>)
    ensures
        match r {
            Some(d) => {
                &&& result.transactions@.len() > 0
                &&& is_payment(result.transactions@[0].tx)
                &&& projects(result.transactions@[0].tx, d)
            },
            None => result.transactions@.len() == 0 || !is_payment(result.transactions@[0].tx),
        },
{
    if result.transactions.len() == 0 {
        return None;
    }
    DisplayTransaction::from_transaction(&result.transactions[0].tx)
}

/// Whether a response status string reports success.
pub fn is_success_status(status: &str) -> (r: bool)
    ensures
        r == (status@ == "success"@),
{
    str_eq(status, "success")
}

} // verus!
