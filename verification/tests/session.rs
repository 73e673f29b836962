use order_tracker::handlers::event_actor::EventActor;
use order_tracker::handlers::events::{Party, StateKind};

fn transit_actor() -> EventActor {
    let mut actor = EventActor::new();
    actor.handle_message(Party::Courier, "\"TookOrder\"".to_string());
    assert_eq!(actor.current_state(), StateKind::InTransit);
    actor
}

fn delivered_actor() -> EventActor {
    let mut actor = transit_actor();
    actor.handle_message(Party::Courier, "\"Delivered\"".to_string());
    assert_eq!(actor.current_state(), StateKind::Delivered);
    actor
}

#[test]
fn took_order_transitions_and_notifies_both() {
    let mut actor = EventActor::new();
    assert_eq!(actor.current_state(), StateKind::Created);
    let writes = actor.handle_message(Party::Courier, "\"TookOrder\"".to_string());
    assert_eq!(writes.len(), 2);
    assert_eq!(writes[0].party, Party::Customer);
    assert_eq!(writes[0].payload, "{\"transition\":\"InTransit\"}");
    assert_eq!(writes[1].party, Party::Courier);
    assert_eq!(writes[1].payload, "{\"transition\":\"InTransit\"}");
    assert_eq!(actor.current_state(), StateKind::InTransit);
    assert_eq!(actor.outbound_customer, "{\"transition\":\"InTransit\"}");
    assert_eq!(actor.outbound_courier, "{\"transition\":\"InTransit\"}");
    assert!(!actor.is_completed());
}

#[test]
fn position_relayed_with_state_tag_and_ack() {
    let mut actor = transit_actor();
    let writes = actor.handle_message(
        Party::Courier,
        "{\"InTransit\":{\"lat\":1.0,\"lon\":2.0}}".to_string(),
    );
    assert_eq!(writes.len(), 2);
    assert_eq!(writes[0].party, Party::Customer);
    assert_eq!(
        writes[0].payload,
        "{\"InTransit\":{\"lat\":1.0,\"lon\":2.0},\"order_state\":\"InTransit\"}"
    );
    assert_eq!(writes[1].party, Party::Courier);
    assert_eq!(writes[1].payload, "\"PROCESSED\"");
    assert_eq!(actor.current_state(), StateKind::InTransit);
    assert_eq!(
        actor.outbound_customer,
        "{\"InTransit\":{\"lat\":1.0,\"lon\":2.0},\"order_state\":\"InTransit\"}"
    );
    assert_eq!(actor.outbound_courier, "\"PROCESSED\"");
}

#[test]
fn position_literals_preserved_byte_for_byte() {
    let mut actor = transit_actor();
    let writes = actor.handle_message(
        Party::Courier,
        "{\"InTransit\":{\"lat\":-12.5e-3,\"lon\":0.0001}}".to_string(),
    );
    assert_eq!(
        writes[0].payload,
        "{\"InTransit\":{\"lat\":-12.5e-3,\"lon\":0.0001},\"order_state\":\"InTransit\"}"
    );
}

#[test]
fn delivered_transitions_then_rejects_courier() {
    let mut actor = transit_actor();
    let writes = actor.handle_message(Party::Courier, "\"Delivered\"".to_string());
    assert_eq!(writes.len(), 2);
    assert_eq!(writes[0].party, Party::Customer);
    assert_eq!(writes[0].payload, "{\"transition\":\"Delivered\"}");
    assert_eq!(writes[1].party, Party::Courier);
    assert_eq!(writes[1].payload, "{\"transition\":\"Delivered\"}");
    assert_eq!(actor.current_state(), StateKind::Delivered);

    let rejected = actor.handle_message(
        Party::Courier,
        "{\"InTransit\":{\"lat\":1.0,\"lon\":2.0}}".to_string(),
    );
    assert_eq!(rejected.len(), 1);
    assert_eq!(rejected[0].party, Party::Courier);
    assert_eq!(rejected[0].payload, "\"Error deserializing update\"");
    assert_eq!(actor.current_state(), StateKind::Delivered);
}

#[test]
fn delivery_confirmed_completes_both_cells() {
    let mut actor = delivered_actor();
    let writes = actor.handle_message(Party::Customer, "\"DeliveryConfirmed\"".to_string());
    assert_eq!(writes.len(), 2);
    assert_eq!(writes[0].party, Party::Customer);
    assert_eq!(writes[0].payload, "\"ORDER_COMPLETE\"");
    assert_eq!(writes[1].party, Party::Courier);
    assert_eq!(writes[1].payload, "\"ORDER_COMPLETE\"");
    assert!(actor.is_completed());
    assert_eq!(actor.outbound_customer, "\"ORDER_COMPLETE\"");
    assert_eq!(actor.outbound_courier, "\"ORDER_COMPLETE\"");
}

#[test]
fn completed_actor_ignores_everything() {
    let mut actor = delivered_actor();
    actor.handle_message(Party::Customer, "\"DeliveryConfirmed\"".to_string());
    let writes = actor.handle_message(Party::Courier, "\"TookOrder\"".to_string());
    assert!(writes.is_empty());
    assert_eq!(actor.outbound_courier, "\"ORDER_COMPLETE\"");
}

#[test]
fn schema_violation_reported_to_sender_only() {
    let mut actor = EventActor::new();
    let writes = actor.handle_message(Party::Customer, "\"DeliveryConfirmed\"".to_string());
    assert_eq!(writes.len(), 1);
    assert_eq!(writes[0].party, Party::Customer);
    assert_eq!(writes[0].payload, "\"Error deserializing update\"");
    assert_eq!(actor.current_state(), StateKind::Created);
    assert_eq!(actor.outbound_customer, "\"Error deserializing update\"");
    assert_eq!(actor.outbound_courier, "");
}

#[test]
fn courier_junk_does_not_touch_customer_cell() {
    let mut actor = transit_actor();
    let before = actor.outbound_customer.clone();
    let writes = actor.handle_message(Party::Courier, "not json".to_string());
    assert_eq!(writes.len(), 1);
    assert_eq!(writes[0].party, Party::Courier);
    assert_eq!(writes[0].payload, "\"Error deserializing update\"");
    assert_eq!(actor.outbound_customer, before);
    assert_eq!(actor.current_state(), StateKind::InTransit);
}

#[test]
fn outbound_cell_keeps_latest_value_only() {
    let mut actor = transit_actor();
    actor.handle_message(
        Party::Courier,
        "{\"InTransit\":{\"lat\":1.0,\"lon\":2.0}}".to_string(),
    );
    actor.handle_message(
        Party::Courier,
        "{\"InTransit\":{\"lat\":3.0,\"lon\":4.0}}".to_string(),
    );
    assert_eq!(
        actor.outbound_customer,
        "{\"InTransit\":{\"lat\":3.0,\"lon\":4.0},\"order_state\":\"InTransit\"}"
    );
}

#[test]
fn no_shortcut_from_created_to_delivered() {
    let mut actor = EventActor::new();
    let writes = actor.handle_message(Party::Courier, "\"Delivered\"".to_string());
    assert_eq!(writes.len(), 1);
    assert_eq!(writes[0].payload, "\"Error deserializing update\"");
    assert_eq!(actor.current_state(), StateKind::Created);
}
