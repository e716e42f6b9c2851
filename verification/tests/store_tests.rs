use retest_gate::error::StoreError;
use retest_gate::store::ConnectRetry;
use retest_gate::store::build_panel_query;
use retest_gate::store::build_total_query;
use retest_gate::store::build_use_statement;
use retest_gate::store::interpret_panel_row;
use retest_gate::store::interpret_total_row;

#[test]
fn use_statement_text() {
    assert_eq!(build_use_statement("Production"), "USE [Production]");
}

#[test]
fn total_query_text() {
    assert_eq!(
        build_total_query("VLLDDD0001234"),
        "SELECT COUNT(*) FROM [dbo].[SMT_Test] WHERE [Serial_NMBR] = 'VLLDDD0001234'"
    );
}

#[test]
fn panel_query_text_single_board() {
    let ids = vec!["VLLDDD0001234".to_string()];
    assert_eq!(
        build_panel_query(&ids),
        "SELECT COUNT(*) AS Fails FROM [dbo].[SMT_Test] WHERE [Serial_NMBR] IN \
         ('VLLDDD0001234') AND [Result] = 'Failed' GROUP BY [Serial_NMBR] ORDER BY Fails DESC;"
    );
}

#[test]
fn panel_query_text_three_boards() {
    let ids = vec![
        "A".to_string(),
        "B".to_string(),
        "C".to_string(),
    ];
    assert_eq!(
        build_panel_query(&ids),
        "SELECT COUNT(*) AS Fails FROM [dbo].[SMT_Test] WHERE [Serial_NMBR] IN \
         ('A', 'B', 'C') AND [Result] = 'Failed' GROUP BY [Serial_NMBR] ORDER BY Fails DESC;"
    );
}

#[test]
fn total_row_with_count_is_read() {
    assert_eq!(interpret_total_row(Some(Some(7))), Ok(7));
}

#[test]
fn total_row_missing_is_a_fault() {
    assert_eq!(interpret_total_row(None), Err(StoreError::NoResult));
}

#[test]
fn total_row_without_integer_is_a_fault() {
    assert_eq!(interpret_total_row(Some(None)), Err(StoreError::UnexpectedShape));
}

#[test]
fn panel_row_with_count_is_read() {
    assert_eq!(interpret_panel_row(Some(Some(3))), Ok(3));
}

#[test]
fn panel_row_missing_means_zero_failures() {
    assert_eq!(interpret_panel_row(None), Ok(0));
}

#[test]
fn panel_row_without_integer_is_a_fault() {
    assert_eq!(interpret_panel_row(Some(None)), Err(StoreError::UnexpectedShape));
}

#[test]
fn always_failing_transport_gets_exactly_three_attempts() {
    let mut attempts: u32 = 0;
    let mut transport = || {
        attempts += 1;
        false // the connection attempt fails
    };
    let mut retry = ConnectRetry::new(3);
    let mut connected = false;
    while retry.may_attempt() {
        if transport() {
            connected = true;
            break;
        }
        retry.record_failure();
    }
    let outcome: Result<(), StoreError> = if connected {
        Ok(())
    } else {
        Err(StoreError::Connection)
    };
    assert_eq!(attempts, 3);
    assert_eq!(outcome, Err(StoreError::Connection));
}

#[test]
fn transport_failing_twice_succeeds_on_third_attempt() {
    let mut attempts: u32 = 0;
    let mut transport = || {
        attempts += 1;
        attempts >= 3 // the first two attempts fail, the third succeeds
    };
    let mut retry = ConnectRetry::new(3);
    let mut connected = false;
    while retry.may_attempt() {
        if transport() {
            connected = true;
            break;
        }
        retry.record_failure();
    }
    assert!(connected);
    assert_eq!(attempts, 3);
}

#[test]
fn first_success_stops_retrying() {
    let mut attempts: u32 = 0;
    let mut transport = || {
        attempts += 1;
        true
    };
    let mut retry = ConnectRetry::new(3);
    let mut connected = false;
    while retry.may_attempt() {
        if transport() {
            connected = true;
            break;
        }
        retry.record_failure();
    }
    assert!(connected);
    assert_eq!(attempts, 1);
}

#[test]
fn zero_budget_never_attempts() {
    let retry = ConnectRetry::new(0);
    assert!(!retry.may_attempt());
}
