use xrp_viewer::models::{
    is_success_status, latest_transaction, AccountData, AccountInfoRequest, AccountTxRequest,
    AccountTxResult, DisplayAccountInfo, Transaction, TransactionWrapper,
};

fn sample_tx(transaction_type: &str) -> Transaction {
    Transaction {
        hash: String::from("A3F1B2C4D5E6A3F1B2C4D5E6A3F1B2C4"),
        amount: Some(String::from("2500000")),
        date: Some(0),
        account: String::from("rSenderAccount"),
        destination: Some(String::from("rReceiverAccount")),
        transaction_type: String::from(transaction_type),
    }
}

#[test]
fn payment_transactions_are_projected() {
    let tx = sample_tx("Payment");
    let projected = xrp_viewer::models::DisplayTransaction::from_transaction(&tx)
        .expect("payments must be kept");
    assert_eq!(projected.hash, tx.hash);
    assert_eq!(projected.amount_subunits, 2_500_000);
    assert_eq!(projected.timestamp, "2000-01-01 00:00 UTC");
    assert_eq!(projected.from, "rSenderAccount");
    assert_eq!(projected.to, "rReceiverAccount");
}

#[test]
fn non_payment_transactions_are_dropped() {
    for other in ["OfferCreate", "TrustSet", "payment", ""] {
        let tx = sample_tx(other);
        assert!(xrp_viewer::models::DisplayTransaction::from_transaction(&tx).is_none());
    }
}

#[test]
fn absent_fields_use_the_lenient_defaults() {
    let mut tx = sample_tx("Payment");
    tx.amount = None;
    tx.date = None;
    tx.destination = None;
    let projected =
        xrp_viewer::models::DisplayTransaction::from_transaction(&tx).expect("still a payment");
    assert_eq!(projected.amount_subunits, 0);
    assert_eq!(projected.timestamp, "Нет данных");
    assert_eq!(projected.to, "Неизвестно");
}

#[test]
fn latest_transaction_of_empty_result_is_none() {
    let empty = AccountTxResult {
        transactions: Vec::new(),
        status: String::from("success"),
    };
    assert!(latest_transaction(&empty).is_none());
}

#[test]
fn latest_transaction_projects_the_first_record() {
    let result = AccountTxResult {
        transactions: vec![
            TransactionWrapper {
                tx: sample_tx("Payment"),
            },
            TransactionWrapper {
                tx: sample_tx("OfferCreate"),
            },
        ],
        status: String::from("success"),
    };
    let projected = latest_transaction(&result).expect("first record is a payment");
    assert_eq!(projected.amount_subunits, 2_500_000);

    let result = AccountTxResult {
        transactions: vec![TransactionWrapper {
            tx: sample_tx("OfferCreate"),
        }],
        status: String::from("success"),
    };
    assert!(latest_transaction(&result).is_none());
}

#[test]
fn balance_normalization() {
    let data = AccountData {
        balance: String::from("7500000"),
    };
    assert_eq!(data.balance_subunits(), 7_500_000);
    let info = DisplayAccountInfo::from_account_data(String::from("rSomeAccount"), &data);
    assert_eq!(info.address, "rSomeAccount");
    assert_eq!(info.balance_subunits, 7_500_000);
    let bad = AccountData {
        balance: String::from("n/a"),
    };
    assert_eq!(bad.balance_subunits(), 0);
}

#[test]
fn request_constructors_fill_the_fixed_fields() {
    let info = AccountInfoRequest::new(String::from("rQueriedAccount"));
    assert_eq!(info.method, "account_info");
    assert_eq!(info.params.len(), 1);
    assert_eq!(info.params[0].account, "rQueriedAccount");
    assert!(info.params[0].strict);

    let tx = AccountTxRequest::new(String::from("rQueriedAccount"));
    assert_eq!(tx.method, "account_tx");
    assert_eq!(tx.params.len(), 1);
    assert_eq!(tx.params[0].account, "rQueriedAccount");
    assert_eq!(tx.params[0].limit, 1);
    assert!(tx.params[0].descending);
}

#[test]
fn status_strings() {
    assert!(is_success_status("success"));
    assert!(!is_success_status("error"));
    assert!(!is_success_status(""));
    assert!(!is_success_status("Success"));
}
