use db::config::ConnectionConfig;
use tokio_postgres::config::Host;
use tokio_postgres::Config;

fn config(host: &str, user: &str, password: &str) -> ConnectionConfig {
    ConnectionConfig {
        host: String::from(host),
        user: String::from(user),
        password: String::from(password),
    }
}

#[test]
fn connection_string_names_host_user_and_password() {
    assert_eq!(
        config("127.0.0.1", "someUser", "somePassword").connection_string(),
        "host=127.0.0.1 user=someUser password=somePassword"
    );
}

#[test]
fn connection_string_of_empty_settings_keeps_the_keys() {
    assert_eq!(config("", "", "").connection_string(), "host= user= password=");
}

#[test]
fn connection_string_is_read_back_by_the_driver() {
    let text = config("db.internal", "reader", "s3cret").connection_string();
    let parsed: Config = text.parse().unwrap();
    assert_eq!(parsed.get_hosts(), &[Host::Tcp(String::from("db.internal"))]);
    assert_eq!(parsed.get_user(), Some("reader"));
    assert_eq!(parsed.get_password(), Some(&b"s3cret"[..]));
}
