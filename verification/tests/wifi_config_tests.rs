use esp_demos::wifi_config::Config;

#[test]
fn default_settings_are_empty() {
    let c = Config::default();
    assert_eq!(c.wifi_ssid, "");
    assert_eq!(c.wifi_password, "");
}

#[test]
fn new_keeps_the_given_network() {
    let c = Config::new("home", "pass1234");
    assert_eq!(c.wifi_ssid, "home");
    assert_eq!(c.wifi_password, "pass1234");
}
