use order_tracker::handlers::events::{Party, StateKind};
use order_tracker::handlers::handler::{InboundCourierMessage, InboundCustomerMessage, WebSocketUpdateHandler};
use order_tracker::handlers::location_logger::LocationLogger;
use order_tracker::jwt_auth::bearer_token;
use order_tracker::models::updates::{order_created, order_in_transit, OrderCreated, OrderDelivered, OrderInTransit};
use order_tracker::wire::{check_json_number, str_eq};

#[test]
fn json_numbers_accepted() {
    for good in [
        "0", "7", "42", "-1", "-0", "1.5", "-12.25", "0.001", "1e9", "1E9", "2e+3", "2e-3",
        "1.0", "2.0", "-0.5", "1.0e2", "123.456E-7",
    ] {
        assert!(check_json_number(good), "expected {} to parse", good);
    }
}

#[test]
fn json_numbers_rejected() {
    for bad in [
        "", "-", "01", "1.", ".5", "+1", "--1", "1e", "1e+", "1.e5", "abc", "1a", "0x10",
        "1,0", " 1", "1 ", "1.2.3", "e5",
    ] {
        assert!(!check_json_number(bad), "expected {} to be rejected", bad);
    }
}

#[test]
fn took_order_parses_in_created() {
    let mut h = WebSocketUpdateHandler::new(StateKind::Created);
    let r = h.deserialize_courier_update("\"TookOrder\"");
    assert!(matches!(
        r,
        Some(InboundCourierMessage::Created(order_created::InboundCourierUpdate::TookOrder))
    ));
}

#[test]
fn took_order_rejected_outside_created() {
    let mut h = WebSocketUpdateHandler::new(StateKind::Delivered);
    assert!(h.deserialize_courier_update("\"TookOrder\"").is_none());
}

#[test]
fn position_parses_in_transit() {
    let mut h = WebSocketUpdateHandler::new(StateKind::InTransit);
    let r = h.deserialize_courier_update("{\"InTransit\":{\"lat\":1.0,\"lon\":2.0}}");
    match r {
        Some(InboundCourierMessage::InTransit(order_in_transit::InboundCourierUpdate::InTransit(
            p,
        ))) => {
            assert_eq!(p.lat, "1.0");
            assert_eq!(p.lon, "2.0");
        }
        _ => panic!("expected a position update"),
    }
}

#[test]
fn malformed_positions_rejected() {
    let mut h = WebSocketUpdateHandler::new(StateKind::InTransit);
    for bad in [
        "{\"InTransit\":{\"lat\":1.0,\"lon\":}}",
        "{\"InTransit\":{\"lat\":,\"lon\":2.0}}",
        "{\"InTransit\":{\"lat\":01,\"lon\":2.0}}",
        "{\"InTransit\":{\"lat\":1.0;\"lon\":2.0}}",
        "{\"InTransit\":{\"lat\":1.0,\"lon\":2.0}",
        "{\"InTransit\":{\"lat\":1.0,\"lon\":2.0}} ",
        "{\"intransit\":{\"lat\":1.0,\"lon\":2.0}}",
        "\"Position\"",
    ] {
        assert!(h.deserialize_courier_update(bad).is_none(), "accepted {}", bad);
    }
}

#[test]
fn wire_format_is_canonical() {
    let mut h = WebSocketUpdateHandler::new(StateKind::Created);
    assert!(h.deserialize_courier_update(" \"TookOrder\"").is_none());
    assert!(h.deserialize_courier_update("\"TookOrder\" ").is_none());
    assert!(h.deserialize_courier_update("\"tookorder\"").is_none());
    assert!(h.deserialize_courier_update("TookOrder").is_none());
}

#[test]
fn delivered_parses_in_transit() {
    let mut h = WebSocketUpdateHandler::new(StateKind::InTransit);
    let r = h.deserialize_courier_update("\"Delivered\"");
    assert!(matches!(
        r,
        Some(InboundCourierMessage::InTransit(order_in_transit::InboundCourierUpdate::Delivered))
    ));
}

#[test]
fn customer_confirm_parses_only_when_delivered() {
    let mut h = WebSocketUpdateHandler::new(StateKind::Delivered);
    let r = h.deserialize_customer_update("\"DeliveryConfirmed\"");
    assert!(matches!(
        r,
        Some(InboundCustomerMessage::Completed(
            order_tracker::models::updates::order_completed::InboundCustomerUpdate::DeliveryConfirmed
        ))
    ));
    let mut h2 = WebSocketUpdateHandler::new(StateKind::Created);
    assert!(h2.deserialize_customer_update("\"DeliveryConfirmed\"").is_none());
    let mut h3 = WebSocketUpdateHandler::new(StateKind::InTransit);
    assert!(h3.deserialize_customer_update("\"DeliveryConfirmed\"").is_none());
}

#[test]
fn state_names_on_the_wire() {
    assert_eq!(OrderCreated::state_name(), "Created");
    assert_eq!(OrderInTransit::state_name(), "InTransit");
    assert_eq!(OrderDelivered::state_name(), "Delivered");
    assert_eq!(StateKind::Created.name(), "Created");
    assert_eq!(StateKind::InTransit.name(), "InTransit");
    assert_eq!(StateKind::Delivered.name(), "Delivered");
}

#[test]
fn str_eq_by_contents() {
    assert!(str_eq("abc", "abc"));
    assert!(!str_eq("abc", "abd"));
    assert!(!str_eq("abc", "abcd"));
    assert!(str_eq("", ""));
}

#[test]
fn bearer_token_extraction() {
    assert_eq!(bearer_token("Bearer abc.def"), Some("abc.def".to_string()));
    assert_eq!(bearer_token("Bearer "), Some(String::new()));
    assert_eq!(bearer_token("Token abc"), None);
    assert_eq!(bearer_token("Bear"), None);
    assert_eq!(bearer_token(""), None);
}

#[test]
fn telemetry_only_for_transit_positions() {
    let msg = "{\"InTransit\":{\"lat\":1.0,\"lon\":2.0}}";
    let log = LocationLogger::position_telemetry(StateKind::InTransit, Party::Courier, msg)
        .expect("a transit position yields telemetry");
    assert_eq!(log.lat, "1.0");
    assert_eq!(log.lon, "2.0");
    assert!(LocationLogger::position_telemetry(StateKind::Created, Party::Courier, msg).is_none());
    assert!(
        LocationLogger::position_telemetry(StateKind::InTransit, Party::Customer, msg).is_none()
    );
    assert!(
        LocationLogger::position_telemetry(StateKind::InTransit, Party::Courier, "\"Delivered\"")
            .is_none()
    );
}

#[test]
fn error_message_carries_text() {
    let e = order_tracker::models::error::ErrorWithMessage::new("broken".to_string());
    assert_eq!(e.message(), "broken");
}
