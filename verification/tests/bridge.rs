//! The script bridge: FIFO ordering, response correlation, termination.

use way_cooler_commands::script::Pending;
use way_cooler_commands::script::ScriptBridge;
use way_cooler_commands::script::ScriptQuery;
use way_cooler_commands::script::ScriptResponse;
use way_cooler_commands::script::SendError;
use way_cooler_commands::script::Ticket;

#[test]
fn queries_are_consumed_in_send_order() {
    let mut b = ScriptBridge::new();
    let t1 = b.send(ScriptQuery::Execute("one".to_string())).unwrap().unwrap();
    let t2 = b.send(ScriptQuery::Execute("two".to_string())).unwrap().unwrap();
    assert!(t1.id < t2.id);
    let p1 = b.engine_take_next().unwrap();
    assert_eq!(p1, Pending { ticket: t1, query: ScriptQuery::Execute("one".to_string()) });
    let p2 = b.engine_take_next().unwrap();
    assert_eq!(p2, Pending { ticket: t2, query: ScriptQuery::Execute("two".to_string()) });
    assert_eq!(b.engine_take_next(), None);
}

#[test]
fn responses_stay_correlated_with_their_query() {
    let mut b = ScriptBridge::new();
    let t1 = b.send(ScriptQuery::Execute("1 + 1".to_string())).unwrap().unwrap();
    let t2 = b.send(ScriptQuery::ExecFile("print('x')".to_string())).unwrap().unwrap();
    // The engine answers out of the order the senders might poll in.
    b.engine_take_next().unwrap();
    b.engine_take_next().unwrap();
    b.engine_deliver(t2, ScriptResponse { text: "answer two".to_string() });
    b.engine_deliver(t1, ScriptResponse { text: "answer one".to_string() });
    assert_eq!(b.await_result(t1), Some(&ScriptResponse { text: "answer one".to_string() }));
    assert_eq!(b.await_result(t2), Some(&ScriptResponse { text: "answer two".to_string() }));
}

#[test]
fn await_before_delivery_finds_nothing() {
    let mut b = ScriptBridge::new();
    let t = b.send(ScriptQuery::Execute("pending".to_string())).unwrap().unwrap();
    assert_eq!(b.await_result(t), None);
    assert_eq!(b.await_result(Ticket { id: 99 }), None);
}

#[test]
fn restart_is_fire_and_forget() {
    let mut b = ScriptBridge::new();
    assert_eq!(b.send(ScriptQuery::Restart), Ok(None));
    let taken = b.engine_take_next().unwrap();
    assert_eq!(taken.query, ScriptQuery::Restart);
    assert!(!taken.query.synchronous());
}

#[test]
fn send_after_engine_terminated_errors_without_blocking() {
    let mut b = ScriptBridge::new();
    b.engine_terminated();
    let q = ScriptQuery::Execute("too late".to_string());
    assert_eq!(
        b.send(q),
        Err(SendError { query: ScriptQuery::Execute("too late".to_string()) })
    );
    assert_eq!(b.engine_take_next(), None);
}

#[test]
fn ticket_capacity_is_reported() {
    let b = ScriptBridge::new();
    assert!(b.has_ticket_capacity());
}
