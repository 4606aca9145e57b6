use fileshare_webserver::config::{ServerConfig, DEFAULT_PORT};

#[test]
fn config_keeps_its_values() {
    let c = ServerConfig::new("./".to_string(), DEFAULT_PORT);
    assert_eq!(c.directory(), "./");
    assert_eq!(c.port(), 9000);
}

#[test]
fn destination_joins_root_and_name() {
    let c = ServerConfig::new("/srv/files".to_string(), 8080);
    assert_eq!(c.destination(&"a b.txt".to_string()), "/srv/files/a b.txt");
}
