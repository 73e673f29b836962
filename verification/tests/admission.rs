use order_tracker::handlers::events::{Party, StateKind};
use order_tracker::handlers::incoming_order_processor::{
    AdmissionOutcome, IncomingOrderProcessor, OrderInfo,
};

fn order(id: &str) -> OrderInfo {
    OrderInfo {
        order_id: id.to_string(),
        customer_id: format!("{}-customer", id),
        courier_id: format!("{}-courier", id),
    }
}

fn controller(capacity: usize) -> IncomingOrderProcessor {
    IncomingOrderProcessor::new("localhost".to_string(), "3000".to_string(), capacity)
}

#[test]
fn admission_publishes_links() {
    let mut p = controller(4);
    match p.process_msg(order("o1")) {
        AdmissionOutcome::Admitted(links) => {
            assert_eq!(links.order_id, "o1");
            assert_eq!(links.customer, "ws://localhost:3000/ws/o1/customer");
            assert_eq!(links.courier, "ws://localhost:3000/ws/o1/courier");
        }
        other => panic!("expected admission, got {:?}", other),
    }
    assert!(p.is_live("o1"));
    assert_eq!(p.available(), 3);
    assert_eq!(p.session_status("o1"), Some((StateKind::Created, false)));
}

#[test]
fn capacity_is_ceiling_minus_live_sessions() {
    let mut p = controller(2);
    assert_eq!(p.available(), 2);
    assert!(matches!(p.process_msg(order("a")), AdmissionOutcome::Admitted(_)));
    assert_eq!(p.available(), 1);
    assert!(matches!(p.process_msg(order("b")), AdmissionOutcome::Admitted(_)));
    assert_eq!(p.available(), 0);
    assert!(p.complete("a").is_some());
    assert_eq!(p.available(), 1);
    assert!(matches!(p.process_msg(order("c")), AdmissionOutcome::Admitted(_)));
    assert_eq!(p.available(), 0);
    assert!(p.complete("b").is_some());
    assert!(p.complete("c").is_some());
    assert_eq!(p.available(), 2);
}

#[test]
fn at_capacity_refuses_and_creates_nothing() {
    let mut p = controller(1);
    assert!(matches!(p.process_msg(order("first")), AdmissionOutcome::Admitted(_)));
    assert!(matches!(p.process_msg(order("second")), AdmissionOutcome::AtCapacity));
    assert!(!p.is_live("second"));
    assert_eq!(p.live_sessions(), 1);
    assert!(p.complete("first").is_some());
    assert!(matches!(p.process_msg(order("second")), AdmissionOutcome::Admitted(_)));
    assert!(p.is_live("second"));
}

#[test]
fn duplicate_order_refused() {
    let mut p = controller(4);
    assert!(matches!(p.process_msg(order("dup")), AdmissionOutcome::Admitted(_)));
    assert!(matches!(p.process_msg(order("dup")), AdmissionOutcome::AlreadyLive));
    assert_eq!(p.live_sessions(), 1);
}

#[test]
fn completion_removes_session_and_yields_record() {
    let mut p = controller(2);
    p.process_msg(order("done"));
    let rec = p.complete("done").expect("session was live");
    assert_eq!(rec.order_id, "done");
    assert_eq!(rec.status, "Delivered");
    assert!(!p.is_live("done"));
    assert_eq!(p.available(), 2);
    assert!(p.complete("done").is_none());
}

#[test]
fn unknown_order_yields_nothing() {
    let mut p = controller(2);
    assert!(p.complete("ghost").is_none());
    assert!(p.handle_message("ghost", Party::Courier, "\"TookOrder\"".to_string()).is_none());
    assert!(p.session_status("ghost").is_none());
    assert!(!p.is_live("ghost"));
}

#[test]
fn full_order_lifecycle_through_controller() {
    let mut p = controller(1);
    p.process_msg(order("life"));

    let w = p
        .handle_message("life", Party::Courier, "\"TookOrder\"".to_string())
        .expect("session is live");
    assert_eq!(w.len(), 2);
    assert_eq!(w[0].payload, "{\"transition\":\"InTransit\"}");
    assert_eq!(p.session_status("life"), Some((StateKind::InTransit, false)));

    let w = p
        .handle_message(
            "life",
            Party::Courier,
            "{\"InTransit\":{\"lat\":1.0,\"lon\":2.0}}".to_string(),
        )
        .unwrap();
    assert_eq!(
        w[0].payload,
        "{\"InTransit\":{\"lat\":1.0,\"lon\":2.0},\"order_state\":\"InTransit\"}"
    );

    let w = p.handle_message("life", Party::Courier, "\"Delivered\"".to_string()).unwrap();
    assert_eq!(w[0].payload, "{\"transition\":\"Delivered\"}");
    assert_eq!(p.session_status("life"), Some((StateKind::Delivered, false)));

    let w = p
        .handle_message("life", Party::Customer, "\"DeliveryConfirmed\"".to_string())
        .unwrap();
    assert_eq!(w.len(), 2);
    assert_eq!(w[0].payload, "\"ORDER_COMPLETE\"");
    assert_eq!(w[1].payload, "\"ORDER_COMPLETE\"");
    assert_eq!(p.session_status("life"), Some((StateKind::Delivered, true)));

    let rec = p.complete("life").unwrap();
    assert_eq!(rec.order_id, "life");
    assert_eq!(rec.status, "Delivered");
    assert!(!p.is_live("life"));
    assert_eq!(p.available(), 1);
}

#[test]
fn sessions_are_isolated() {
    let mut p = controller(3);
    p.process_msg(order("x"));
    p.process_msg(order("y"));
    p.handle_message("x", Party::Courier, "\"TookOrder\"".to_string()).unwrap();
    assert_eq!(p.session_status("x"), Some((StateKind::InTransit, false)));
    assert_eq!(p.session_status("y"), Some((StateKind::Created, false)));
}
