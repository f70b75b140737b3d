use opnfi::config::Config;

const ADOPTION: &str = "capability=gw\ncfgversion=abc123\nauthkey=000102030405060708090a0b0c0d0e0f\nuse_aes_gcm=false\nmgmt_url=http://unifi:8080\nstun_url=stun:unifi:3478\nled_enabled=true\nselfrun_guest_mode=off\nreport_crash=false";

#[test]
fn new_config_is_empty() {
    let c = Config::new();
    assert!(c.capability.is_empty());
    assert_eq!(c.cfgversion, "");
    assert_eq!(c.selfrun_guest_mode, "");
    assert!(!c.led_enabled);
    assert_eq!(c.stun_url, "");
    assert_eq!(c.mgmt_url, "");
    assert_eq!(c.authkey, "");
    assert!(!c.use_aes_gcm);
    assert!(!c.report_crash);
}

#[test]
fn adoption_config_sets_every_field() {
    let c = Config::from_mgmt_cfg(String::from(ADOPTION));
    assert_eq!(c.capability, vec![String::from("gw")]);
    assert_eq!(c.cfgversion, "abc123");
    assert_eq!(c.authkey, "000102030405060708090a0b0c0d0e0f");
    assert!(!c.use_aes_gcm);
    assert_eq!(c.mgmt_url, "http://unifi:8080");
    assert_eq!(c.stun_url, "stun:unifi:3478");
    assert!(c.led_enabled);
    assert_eq!(c.selfrun_guest_mode, "off");
    assert!(!c.report_crash);
}

#[test]
fn update_changes_only_what_is_named() {
    let mut c = Config::from_mgmt_cfg(String::from(ADOPTION));
    let before = c.clone();
    c.update_from_mgmt_cfg(String::from("use_aes_gcm=true"));
    assert!(c.use_aes_gcm);
    c.use_aes_gcm = false;
    assert_eq!(c, before);
}

#[test]
fn capability_is_split_at_commas() {
    let c = Config::from_mgmt_cfg(String::from("capability=a,b,,c"));
    assert_eq!(c.capability, vec!["a", "b", "", "c"]);
    let c = Config::from_mgmt_cfg(String::from("capability="));
    assert_eq!(c.capability, vec![""]);
    let c = Config::from_mgmt_cfg(String::from("capability=x,"));
    assert_eq!(c.capability, vec!["x", ""]);
}

#[test]
fn value_is_what_follows_the_first_equals_sign() {
    let c = Config::from_mgmt_cfg(String::from("mgmt_url=http://h/?a=b=c"));
    assert_eq!(c.mgmt_url, "http://h/?a=b=c");
}

#[test]
fn switches_are_on_only_for_true() {
    let c = Config::from_mgmt_cfg(String::from(
        "led_enabled=True\nuse_aes_gcm=1\nreport_crash=true",
    ));
    assert!(!c.led_enabled);
    assert!(!c.use_aes_gcm);
    assert!(c.report_crash);
    let mut c = c;
    c.update_from_mgmt_cfg(String::from("report_crash=yes"));
    assert!(!c.report_crash);
}

#[test]
fn unknown_keys_and_lines_without_equals_change_nothing() {
    let mut c = Config::from_mgmt_cfg(String::from(ADOPTION));
    let before = c.clone();
    c.update_from_mgmt_cfg(String::from("mgmt.servers.1.url=x\n\nnonsense\ncfgversion\n=v\n"));
    assert_eq!(c, before);
    c.update_from_mgmt_cfg(String::new());
    assert_eq!(c, before);
}

#[test]
fn later_lines_win() {
    let c = Config::from_mgmt_cfg(String::from("cfgversion=1\ncfgversion=2"));
    assert_eq!(c.cfgversion, "2");
}

#[test]
fn line_endings() {
    let c = Config::from_mgmt_cfg(String::from("cfgversion=1\r\nstun_url=s\r\n"));
    assert_eq!(c.cfgversion, "1");
    assert_eq!(c.stun_url, "s");
    // a carriage return in the last line, which no line feed ends, belongs to the value
    let c = Config::from_mgmt_cfg(String::from("cfgversion=1\r"));
    assert_eq!(c.cfgversion, "1\r");
    let c = Config::from_mgmt_cfg(String::from("cfgversion=1\n"));
    assert_eq!(c.cfgversion, "1");
}

#[test]
fn text_beyond_ascii() {
    let c = Config::from_mgmt_cfg(String::from("selfrun_guest_mode=\u{e9}t\u{e9}\ncfgversion=\u{1F600}x"));
    assert_eq!(c.selfrun_guest_mode, "\u{e9}t\u{e9}");
    assert_eq!(c.cfgversion, "\u{1F600}x");
}
