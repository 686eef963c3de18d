use bank_of_dad::appstate::AppState;
use bank_of_dad::db::{Db, MAX_TRANSACTIONS};
use bank_of_dad::handlers::child::{get_child, ChildAccountResponse};
use bank_of_dad::handlers::path_not_found::handler_404;
use bank_of_dad::handlers::record_transaction::{
    give, record_transaction, spend, validate_request_body, GiveMoney, Recorded, TransactionType,
};
use bank_of_dad::model::amount::Amount;
use bank_of_dad::model::error::{ApiError, ErrorResponse};
use bank_of_dad::model::transaction::Transaction;
use serde_json::Value;

const OK: u16 = 200;
const BAD_REQUEST: u16 = 400;
const NOT_FOUND: u16 = 404;
const INTERNAL_SERVER_ERROR: u16 = 500;

/// What a request came to: the status, and the body on success or the
/// reason on failure.
#[derive(Debug, PartialEq)]
enum Body<T> {
    Json(T),
    Reason(String),
}

fn answer<T>(result: Result<T, ApiError>) -> (u16, Body<T>) {
    match result {
        Ok(body) => (OK, Body::Json(body)),
        Err(error) => {
            let ErrorResponse { status, reason } = error.into_response();
            (status, Body::Reason(reason))
        }
    }
}

fn get(app: &mut AppState, uri: &str) -> (u16, Body<ChildAccountResponse>) {
    let parts: Vec<&str> = uri.split('/').collect();
    match parts.as_slice() {
        ["", "child", child_name] => answer(get_child(app, child_name.to_string())),
        _ => answer(Err(handler_404(uri.to_string()))),
    }
}

fn post(app: &mut AppState, uri: &str, request_body: String) -> (u16, Body<Transaction>) {
    let body: Value = serde_json::from_str(&request_body).unwrap();
    let amount = match &body["amount"] {
        Value::Number(n) => Amount::parse(n.as_str()).unwrap(),
        other => panic!("amount is no number: {other:?}"),
    };
    let give_money = GiveMoney {
        amount,
        purpose: body["purpose"].as_str().unwrap().to_string(),
    };
    let parts: Vec<&str> = uri.split('/').collect();
    match parts.as_slice() {
        ["", "child", child_name, "give"] => answer(
            give(app, child_name.to_string(), give_money).map(|recorded| recorded.transaction),
        ),
        ["", "child", child_name, "spend"] => {
            answer(
                spend(app, child_name.to_string(), give_money)
                    .map(|recorded| recorded.transaction),
            )
        }
        _ => answer(Err(handler_404(uri.to_string()))),
    }
}

fn normalize_transaction(transaction: Transaction) -> Transaction {
    Transaction {
        timestamp: 0,
        ..transaction
    }
}

fn to_normalized_transaction(body: Body<Transaction>) -> Transaction {
    match body {
        Body::Json(transaction) => normalize_transaction(transaction),
        Body::Reason(reason) => panic!("no transaction but {reason}"),
    }
}

fn to_normalised_child_account_response(body: Body<ChildAccountResponse>) -> ChildAccountResponse {
    match body {
        Body::Json(response) => ChildAccountResponse {
            transactions: response
                .transactions
                .iter()
                .map(|t| normalize_transaction(t.clone()))
                .collect::<Vec<Transaction>>(),
            ..response
        },
        Body::Reason(reason) => panic!("no account but {reason}"),
    }
}

fn transaction(id: u8, child_name: &str, amount: i64, purpose: &str) -> Transaction {
    Transaction {
        id: id,
        timestamp: 0,
        child_name: child_name.to_string(),
        amount: Amount::from_pence(amount),
        purpose: purpose.to_string(),
    }
}

fn child_account_response(
    child_name: &str,
    balance: i64,
    transactions: Vec<Transaction>,
) -> ChildAccountResponse {
    ChildAccountResponse {
        child_name: child_name.to_string(),
        balance: Amount::from_pence(balance),
        transactions: transactions,
    }
}

fn reason(text: &str) -> Body<Transaction> {
    Body::Reason(text.to_string())
}

fn request(amount: i64, purpose: &str) -> GiveMoney {
    GiveMoney {
        amount: Amount::from_pence(amount),
        purpose: purpose.to_string(),
    }
}

#[test]
fn e2e_test() {
    let db = Db::new();
    let mut app = AppState::new(db);

    //
    // Assert Child a and Child b have no transactions
    //
    let (status_code, body) = get(&mut app, "/child/a");
    assert_eq!(status_code, OK);
    assert_eq!(
        to_normalised_child_account_response(body),
        child_account_response("a", 0, vec![])
    );

    let (status_code, body) = get(&mut app, "/child/b");
    assert_eq!(status_code, OK);
    assert_eq!(
        to_normalised_child_account_response(body),
        child_account_response("b", 0, vec![])
    );

    //
    // Try and spend some money, expect rejection
    //
    let (status_code, body) = post(
        &mut app,
        "/child/a/spend",
        String::from(r#"{"amount":5.99,"purpose":"negative test"}"#),
    );
    assert_eq!(status_code, BAD_REQUEST);
    assert_eq!(body, reason("Transaction will take account a negative"));

    //
    // Give money to child A, then validate this transaction exists
    //
    let (status_code, body) = post(
        &mut app,
        "/child/a/give",
        String::from(r#"{"amount":5.99,"purpose":"pocket money 1"}"#),
    );
    assert_eq!(status_code, OK);
    assert_eq!(
        to_normalized_transaction(body),
        transaction(1, "a", 599, "pocket money 1")
    );

    let (status_code, body) = get(&mut app, "/child/a");
    assert_eq!(status_code, OK);
    assert_eq!(
        to_normalised_child_account_response(body),
        child_account_response("a", 599, vec![transaction(1, "a", 599, "pocket money 1")])
    );

    //
    // Check rejection if too try to spend too much
    //
    let (status_code, body) = post(
        &mut app,
        "/child/a/spend",
        String::from(r#"{"amount":10.00,"purpose":"negative test 2"}"#),
    );
    assert_eq!(status_code, BAD_REQUEST);
    assert_eq!(body, reason("Transaction will take account a negative"));

    //
    // Child A can spend within account balance, then validate this transaction exists
    //
    let (status_code, body) = post(
        &mut app,
        "/child/a/spend",
        String::from(r#"{"amount":3.00,"purpose":"permitted spend"}"#),
    );
    assert_eq!(status_code, OK);
    assert_eq!(
        to_normalized_transaction(body),
        transaction(2, "a", -300, "permitted spend")
    );

    let (status_code, body) = get(&mut app, "/child/a");
    assert_eq!(status_code, OK);
    assert_eq!(
        to_normalised_child_account_response(body),
        child_account_response(
            "a",
            299,
            vec![
                transaction(1, "a", 599, "pocket money 1"),
                transaction(2, "a", -300, "permitted spend")
            ]
        )
    );

    //
    // Check no change for child B
    //
    let (status_code, body) = get(&mut app, "/child/b");
    assert_eq!(status_code, OK);
    assert_eq!(
        to_normalised_child_account_response(body),
        child_account_response("b", 0, vec![])
    );
}

#[test]
fn unmatched_path_is_not_found() {
    let mut app = AppState::new(Db::new());
    let (status_code, body) = get(&mut app, "/nowhere/at/all");
    assert_eq!(status_code, NOT_FOUND);
    assert_eq!(
        body,
        Body::Reason("Requested path '/nowhere/at/all' not found".to_string())
    );
    assert_eq!(
        handler_404("/x".to_string()),
        ApiError::PathNotFound("/x".to_string())
    );
}

#[test]
fn errors_map_to_status_and_reason() {
    assert_eq!(
        ApiError::InternalError("Internal Error".to_string()).into_response(),
        ErrorResponse {
            status: INTERNAL_SERVER_ERROR,
            reason: "Internal Error".to_string()
        }
    );
    assert_eq!(
        ApiError::InputFailedValidation("Must provide a purpose".to_string()).into_response(),
        ErrorResponse {
            status: BAD_REQUEST,
            reason: "Must provide a purpose".to_string()
        }
    );
    assert_eq!(
        ApiError::PathNotFound("/child".to_string()).into_response(),
        ErrorResponse {
            status: NOT_FOUND,
            reason: "Requested path '/child' not found".to_string()
        }
    );
    assert_eq!(
        ApiError::internal(),
        ApiError::InternalError("Internal Error".to_string())
    );
}

#[test]
fn requests_are_validated_before_the_sign_is_applied() {
    assert_eq!(validate_request_body(&request(1, "sweets")), Ok(()));
    assert_eq!(
        validate_request_body(&request(0, "sweets")),
        Err(ApiError::InputFailedValidation(
            "Amount must be at least 0.01".to_string()
        ))
    );
    assert_eq!(
        validate_request_body(&request(-1, "sweets")),
        Err(ApiError::InputFailedValidation(
            "Amount must be at least 0.01".to_string()
        ))
    );
    assert_eq!(
        validate_request_body(&request(1, "")),
        Err(ApiError::InputFailedValidation(
            "Must provide a purpose".to_string()
        ))
    );
    assert_eq!(
        validate_request_body(&request(0, "")),
        Err(ApiError::InputFailedValidation(
            "Amount must be at least 0.01".to_string()
        ))
    );

    let mut app = AppState::new(Db::new());
    assert_eq!(
        give(&mut app, "a".to_string(), request(1000, "pocket money"))
            .map(|recorded| normalize_transaction(recorded.transaction)),
        Ok(transaction(1, "a", 1000, "pocket money"))
    );
    // A negative amount is refused for spending too, though turning its
    // sign would make it a credit.
    assert_eq!(
        spend(&mut app, "a".to_string(), request(-5, "sweets")),
        Err(ApiError::InputFailedValidation(
            "Amount must be at least 0.01".to_string()
        ))
    );
    assert_eq!(
        spend(&mut app, "a".to_string(), request(5, "")),
        Err(ApiError::InputFailedValidation(
            "Must provide a purpose".to_string()
        ))
    );
    assert_eq!(
        give(&mut app, "a".to_string(), request(0, "nothing")),
        Err(ApiError::InputFailedValidation(
            "Amount must be at least 0.01".to_string()
        ))
    );
    assert_eq!(app.get_db().get_transactions_for_child("a".to_string()).unwrap().len(), 1);
}

#[test]
fn record_transaction_keeps_the_timestamp_it_is_given() {
    let mut app = AppState::new(Db::new());
    assert_eq!(
        record_transaction(
            &mut app,
            "a".to_string(),
            request(250, "gift"),
            TransactionType::Give,
            1_700_000_000_123
        ),
        Ok(Recorded {
            transaction: Transaction::new(
                1,
                1_700_000_000_123,
                "a".to_string(),
                Amount::from_pence(250),
                "gift".to_string()
            ),
            deliveries: vec![]
        })
    );
    assert_eq!(
        record_transaction(
            &mut app,
            "a".to_string(),
            request(250, "all of it"),
            TransactionType::Spend,
            -5
        ),
        Ok(Recorded {
            transaction: Transaction::new(
                2,
                -5,
                "a".to_string(),
                Amount::from_pence(-250),
                "all of it".to_string()
            ),
            deliveries: vec![]
        })
    );
    assert_eq!(
        app.get_db().get_account_balance_for_child("a".to_string()),
        Ok(Amount::from_pence(0))
    );
}

#[test]
fn give_stamps_the_current_time() {
    let mut app = AppState::new(Db::new());
    let given = give(&mut app, "a".to_string(), request(1, "penny"))
        .unwrap()
        .transaction;
    // Some time after the first of January 2020, in milliseconds.
    assert!(given.timestamp > 1_577_836_800_000);
}

#[test]
fn identities_count_up_from_one_across_accounts() {
    let mut db = Db::new();
    let names = ["a", "b", "a", "c", "b"];
    let mut expected: u8 = 1;
    for name in names {
        let stored = db
            .record_transaction_for_child(transaction(77, name, 10, "credit"))
            .unwrap();
        assert_eq!(stored, transaction(expected, name, 10, "credit"));
        expected += 1;
    }
    // A refused debit takes no identity.
    assert!(db
        .record_transaction_for_child(transaction(0, "c", -11, "too much"))
        .is_err());
    assert_eq!(
        db.record_transaction_for_child(transaction(0, "c", -10, "all"))
            .unwrap()
            .id,
        6
    );
    assert_eq!(
        db.get_transactions_for_child("b".to_string()).unwrap(),
        vec![
            transaction(2, "b", 10, "credit"),
            transaction(5, "b", 10, "credit")
        ]
    );
    assert_eq!(
        db.get_transactions_for_child("nobody".to_string()).unwrap(),
        vec![]
    );
}

#[test]
fn balance_never_goes_below_zero() {
    let mut db = Db::new();
    let steps: [(&str, i64); 12] = [
        ("a", -1),
        ("a", 100),
        ("b", -50),
        ("a", -60),
        ("a", -41),
        ("a", -40),
        ("b", 5),
        ("a", -1),
        ("b", -5),
        ("b", -1),
        ("a", 0),
        ("b", 0),
    ];
    let mut a: i64 = 0;
    let mut b: i64 = 0;
    for (name, pence) in steps {
        let balance = if name == "a" { &mut a } else { &mut b };
        let result = db.record_transaction_for_child(transaction(0, name, pence, "step"));
        if *balance + pence < 0 {
            assert_eq!(
                result,
                Err(ApiError::InputFailedValidation(format!(
                    "Transaction will take account {name} negative"
                )))
            );
        } else {
            assert!(result.is_ok());
            *balance += pence;
        }
        assert_eq!(
            db.get_account_balance_for_child("a".to_string()),
            Ok(Amount::from_pence(a))
        );
        assert_eq!(
            db.get_account_balance_for_child("b".to_string()),
            Ok(Amount::from_pence(b))
        );
        assert!(a >= 0 && b >= 0);
    }
    assert_eq!(a, 0);
    assert_eq!(b, 0);
}

#[test]
fn a_ledger_holds_as_many_entries_as_there_are_identities() {
    let mut db = Db::new();
    for i in 0..MAX_TRANSACTIONS {
        let stored = db
            .record_transaction_for_child(transaction(0, "a", 1, "penny"))
            .unwrap();
        assert_eq!(stored.id as usize, i + 1);
    }
    assert_eq!(
        db.record_transaction_for_child(transaction(0, "a", 1, "one too many")),
        Err(ApiError::InternalError("Internal Error".to_string()))
    );
    assert_eq!(
        db.record_transaction_for_child(transaction(0, "a", -1, "one too many")),
        Err(ApiError::InternalError("Internal Error".to_string()))
    );
    // What would overdraw is told so first.
    assert_eq!(
        db.record_transaction_for_child(transaction(0, "a", -256, "too much")),
        Err(ApiError::InputFailedValidation(
            "Transaction will take account a negative".to_string()
        ))
    );
    assert_eq!(
        db.get_transactions_for_child("a".to_string()).unwrap().len(),
        255
    );
    assert_eq!(
        db.get_account_balance_for_child("a".to_string()),
        Ok(Amount::from_pence(255))
    );
}

#[test]
fn a_balance_too_large_to_hold_is_an_internal_error() {
    let mut app = AppState::new(Db::new());
    for _ in 0..2 {
        app.record(transaction(0, "rich", i64::MAX, "windfall"))
            .unwrap();
    }
    app.record(transaction(0, "poor", 1, "penny")).unwrap();
    assert_eq!(
        app.get_db().get_account_balance_for_child("rich".to_string()),
        Err(ApiError::InternalError("Internal Error".to_string()))
    );
    assert_eq!(
        get_child(&app, "rich".to_string()),
        Err(ApiError::InternalError("Internal Error".to_string()))
    );
    assert_eq!(
        spend(&mut app, "rich".to_string(), request(1, "sweets")),
        Err(ApiError::InternalError("Internal Error".to_string()))
    );
    // Credits need no balance and still go through; other accounts are
    // not touched.
    assert_eq!(
        give(&mut app, "rich".to_string(), request(1, "more"))
            .unwrap()
            .transaction
            .id,
        4
    );
    assert_eq!(
        get_child(&app, "poor".to_string()),
        Ok(child_account_response(
            "poor",
            1,
            vec![transaction(3, "poor", 1, "penny")]
        ))
    );
}
