use crust_chat::config::SessionConfig;

#[test]
fn defaults_fill_missing_values() {
    let c = SessionConfig::new(None, None);
    assert_eq!(c.bootstrap_servers, "localhost");
    assert_eq!(c.topic, "messages");
}

#[test]
fn given_values_are_kept() {
    let c = SessionConfig::new(Some("broker:9092".to_string()), Some("chat".to_string()));
    assert_eq!(c.bootstrap_servers, "broker:9092");
    assert_eq!(c.topic, "chat");
}

#[test]
fn each_value_defaults_on_its_own() {
    let c = SessionConfig::new(None, Some("news".to_string()));
    assert_eq!(c.bootstrap_servers, "localhost");
    assert_eq!(c.topic, "news");
}
