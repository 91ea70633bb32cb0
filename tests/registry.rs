use sockethook::app_data::{AppData, Delivery};
use sockethook::messages::{PublishMessage, RegisterConnection, Shutdown};
use sockethook::redis::{BrokerError, RedisActor};
use sockethook::websocket::{WebsocketConnection, WebsocketState};

fn publish(reg: &AppData<u32>, endpoint: &str, message: &str) -> Vec<Delivery> {
    reg.publish(&PublishMessage { endpoint: endpoint.to_string(), message: message.to_string() })
}

fn recipients(deliveries: &[Delivery]) -> Vec<u128> {
    let mut ids: Vec<u128> = deliveries.iter().map(|d| d.to).collect();
    ids.sort();
    ids
}

fn sorted(mut ids: Vec<u128>) -> Vec<u128> {
    ids.sort();
    ids
}

fn close(reg: &mut AppData<u32>, endpoint: &str, id: u128) {
    reg.closed(WebsocketState::Closed { endpoint: endpoint.to_string(), id });
}

#[test]
fn scenario_register_publish_close() {
    let mut reg: AppData<u32> = AppData::new();
    let c1 = WebsocketConnection::new("A".to_string(), 0);
    let c2 = WebsocketConnection::new("A".to_string(), 0);
    let c3 = WebsocketConnection::new("B".to_string(), 0);
    reg.register(RegisterConnection { id: c1.id, endpoint: "A".to_string(), connection: 1 });
    reg.register(RegisterConnection { id: c2.id, endpoint: "A".to_string(), connection: 2 });
    reg.register(RegisterConnection { id: c3.id, endpoint: "B".to_string(), connection: 3 });

    let out = publish(&reg, "A", "x");
    assert_eq!(recipients(&out), sorted(vec![c1.id, c2.id]));
    assert!(out.iter().all(|d| d.event.message == "x"));

    close(&mut reg, "A", c1.id);
    assert!(!reg.contains(c1.id));
    assert_eq!(reg.connection(c2.id), Some(&2));
    assert_eq!(reg.connection(c3.id), Some(&3));
    assert_eq!(recipients(&publish(&reg, "A", "y")), vec![c2.id]);
    assert_eq!(recipients(&publish(&reg, "B", "y")), vec![c3.id]);

    close(&mut reg, "A", c2.id);
    assert!(!reg.has_endpoint(&"A".to_string()));
    assert!(reg.has_endpoint(&"B".to_string()));
}

#[test]
fn fan_out_reaches_only_the_endpoint() {
    let mut reg: AppData<u32> = AppData::new();
    reg.insert(&"E".to_string(), 11, 1);
    reg.insert(&"E".to_string(), 12, 2);
    reg.insert(&"F".to_string(), 13, 3);
    let out = publish(&reg, "E", "payload");
    assert_eq!(out.len(), 2);
    assert_eq!(recipients(&out), vec![11, 12]);
    assert!(out.iter().all(|d| d.event.message == "payload"));
}

#[test]
fn publish_without_subscribers_delivers_nothing() {
    let mut reg: AppData<u32> = AppData::new();
    assert!(publish(&reg, "unregistered-endpoint", "p").is_empty());
    reg.insert(&"E".to_string(), 1, 1);
    assert!(publish(&reg, "unregistered-endpoint", "p").is_empty());
    assert!(publish(&reg, "E/", "p").is_empty());
    assert!(publish(&reg, "e", "p").is_empty());
}

#[test]
fn distinct_ids_stand_under_one_endpoint_each() {
    let mut reg: AppData<u32> = AppData::new();
    reg.insert(&"A".to_string(), 1, 10);
    reg.insert(&"B".to_string(), 2, 20);
    reg.insert(&"A".to_string(), 3, 30);
    assert_eq!(recipients(&publish(&reg, "A", "m")), vec![1, 3]);
    assert_eq!(recipients(&publish(&reg, "B", "m")), vec![2]);
    assert_eq!(reg.connection(3), Some(&30));
}

#[test]
fn removal_after_registration_cleans_up_endpoint() {
    let mut reg: AppData<u32> = AppData::new();
    reg.insert(&"A".to_string(), 7, 1);
    assert!(reg.has_endpoint(&"A".to_string()));
    reg.remove(&"A".to_string(), 7);
    assert!(!reg.contains(7));
    assert!(!reg.has_endpoint(&"A".to_string()));
    assert_eq!(reg.connection(7), None);
}

#[test]
fn removal_keeps_endpoint_with_other_connections() {
    let mut reg: AppData<u32> = AppData::new();
    reg.insert(&"A".to_string(), 7, 1);
    reg.insert(&"A".to_string(), 8, 2);
    reg.remove(&"A".to_string(), 7);
    assert!(reg.has_endpoint(&"A".to_string()));
    assert_eq!(recipients(&publish(&reg, "A", "m")), vec![8]);
}

#[test]
fn removal_twice_equals_removal_once() {
    let mut reg: AppData<u32> = AppData::new();
    reg.insert(&"A".to_string(), 1, 1);
    reg.insert(&"A".to_string(), 2, 2);
    reg.insert(&"B".to_string(), 3, 3);
    reg.remove(&"A".to_string(), 1);
    reg.remove(&"A".to_string(), 1);
    assert!(!reg.contains(1));
    assert!(reg.contains(2));
    assert!(reg.contains(3));
    assert_eq!(recipients(&publish(&reg, "A", "m")), vec![2]);
}

#[test]
fn removal_under_wrong_endpoint_changes_nothing() {
    let mut reg: AppData<u32> = AppData::new();
    reg.insert(&"A".to_string(), 1, 1);
    reg.remove(&"B".to_string(), 1);
    reg.remove(&"A".to_string(), 99);
    assert!(reg.contains(1));
    assert!(reg.has_endpoint(&"A".to_string()));
}

#[test]
fn shutdown_stops_servicing() {
    let mut reg: AppData<u32> = AppData::new();
    reg.insert(&"A".to_string(), 1, 1);
    assert!(!reg.stopped());
    reg.shutdown(Shutdown);
    assert!(reg.stopped());
    assert!(publish(&reg, "A", "m").is_empty());
    reg.register(RegisterConnection { id: 2, endpoint: "A".to_string(), connection: 2 });
    assert!(!reg.contains(2));
    close(&mut reg, "A", 1);
    assert!(reg.contains(1));
}

#[test]
fn registry_with_valid_broker_url() {
    let reg = AppData::<u32>::new_with_redis("redis://127.0.0.1:6379".to_string());
    assert!(reg.is_ok());
}

#[test]
fn registry_with_invalid_broker_url() {
    let reg = AppData::<u32>::new_with_redis("not a url".to_string());
    assert!(matches!(reg, Err(BrokerError::InvalidUrl)));
}

#[test]
fn broker_port_keeps_url_and_channels() {
    let mut port = RedisActor::new("redis://localhost:6379".to_string()).ok().unwrap();
    assert_eq!(port.url(), "redis://localhost:6379");
    assert!(!port.is_subscribed(&"events".to_string()));
    port.subscribe("events".to_string());
    port.subscribe("events".to_string());
    assert!(port.is_subscribed(&"events".to_string()));
    assert!(!port.is_subscribed(&"other".to_string()));
}

#[test]
fn broker_port_refuses_relative_url() {
    assert!(matches!(RedisActor::new("localhost".to_string()), Err(BrokerError::InvalidUrl)));
    assert!(matches!(RedisActor::new(String::new()), Err(BrokerError::InvalidUrl)));
}
