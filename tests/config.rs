use gdcef::config::{GodotRenderBackend, GpuDeviceIds, OsrApp, OsrAppBuilder, SecurityConfig};
use gdcef::settings::{devtools_port, is_insecure_switch, non_negative_setting, parse_custom_switches};
use gdcef::switches::{parse_switch, Switch};
use gdcef::text::decimal_string;

fn names(switches: &[Switch]) -> Vec<(String, Option<String>)> {
    switches.iter().map(|s| (s.name.clone(), s.value.clone())).collect()
}

fn flag(n: &str) -> (String, Option<String>) {
    (n.to_string(), None)
}

fn valued(n: &str, v: &str) -> (String, Option<String>) {
    (n.to_string(), Some(v.to_string()))
}

const BASE: [&str; 10] = [
    "no-sandbox",
    "no-startup-window",
    "noerrdialogs",
    "hide-crash-restore-bubble",
    "use-mock-keychain",
    "enable-logging=stderr",
    "transparent-painting-enabled",
    "enable-zero-copy",
    "off-screen-rendering-enabled",
    "use-views",
];

#[test]
fn gpu_ids_render_in_decimal() {
    let ids = GpuDeviceIds::new(0x10de, 0x2684);
    assert_eq!(ids.vendor_id, 4318);
    assert_eq!(ids.to_vendor_arg(), "4318");
    assert_eq!(ids.to_device_arg(), "9860");
    assert_eq!(GpuDeviceIds::new(0, 7).to_vendor_arg(), "0");
    assert_eq!(decimal_string(u64::MAX), "18446744073709551615");
    assert_eq!(decimal_string(10), "10");
}

#[test]
fn defaults_are_secure() {
    let app = OsrApp::new();
    assert_eq!(app.godot_backend(), GodotRenderBackend::Unknown);
    assert!(!app.enable_remote_debugging());
    assert_eq!(app.remote_debugging_port(), 9229);
    assert_eq!(*app.security_config(), SecurityConfig::default());
    assert_eq!(app.gpu_device_ids(), None);
    assert_eq!(app.user_agent(), "");
    assert_eq!(app.proxy_server(), "");
    assert_eq!(app.proxy_bypass_list(), "");
    assert_eq!(app.cache_size_mb(), 0);
    assert!(app.custom_switches().is_empty());
    let d = OsrApp::default();
    assert_eq!(d.remote_debugging_port(), 9229);
    let b = OsrAppBuilder::default().build();
    assert_eq!(b.remote_debugging_port(), 9229);
}

#[test]
fn builder_sets_each_field() {
    let security = SecurityConfig {
        allow_insecure_content: true,
        ignore_certificate_errors: false,
        disable_web_security: true,
    };
    let app = OsrApp::builder()
        .godot_backend(GodotRenderBackend::Vulkan)
        .remote_debugging(true)
        .remote_debugging_port(9333)
        .security_config(security)
        .gpu_device_ids(0x1002, 0x73bf)
        .user_agent("agent/1.0".to_string())
        .proxy_server("socks5://127.0.0.1:1080".to_string())
        .proxy_bypass_list("localhost".to_string())
        .cache_size_mb(64)
        .custom_switches(vec!["--foo=bar".to_string()])
        .build();
    assert_eq!(app.godot_backend(), GodotRenderBackend::Vulkan);
    assert!(app.enable_remote_debugging());
    assert_eq!(app.remote_debugging_port(), 9333);
    assert_eq!(*app.security_config(), security);
    assert_eq!(app.gpu_device_ids(), Some(GpuDeviceIds::new(0x1002, 0x73bf)));
    assert_eq!(app.user_agent(), "agent/1.0");
    assert_eq!(app.proxy_server(), "socks5://127.0.0.1:1080");
    assert_eq!(app.proxy_bypass_list(), "localhost");
    assert_eq!(app.cache_size_mb(), 64);
    assert_eq!(app.custom_switches(), &["--foo=bar".to_string()][..]);
}

#[test]
fn default_app_has_only_base_switches() {
    let got = names(&OsrApp::new().command_line_switches());
    let want: Vec<_> = BASE.iter().map(|n| flag(n)).collect();
    assert_eq!(got, want);
}

#[test]
fn configured_app_switches_in_order() {
    let app = OsrApp::builder()
        .remote_debugging(true)
        .remote_debugging_port(9222)
        .user_agent("ua".to_string())
        .proxy_server("http://proxy:8080".to_string())
        .proxy_bypass_list("localhost,127.0.0.1".to_string())
        .cache_size_mb(100)
        .custom_switches(vec![
            "  --enable-gpu-rasterization ".to_string(),
            "".to_string(),
            "lang=fr".to_string(),
            "--a=b=c".to_string(),
        ])
        .build();
    let got = names(&app.command_line_switches());
    let mut want: Vec<_> = BASE.iter().map(|n| flag(n)).collect();
    want.push(valued("remote-debugging-port", "9222"));
    want.push(valued("user-agent", "ua"));
    want.push(valued("proxy-server", "http://proxy:8080"));
    want.push(valued("proxy-bypass-list", "localhost,127.0.0.1"));
    want.push(valued("disk-cache-size", "104857600"));
    want.push(flag("enable-gpu-rasterization"));
    want.push(valued("lang", "fr"));
    want.push(valued("a", "b=c"));
    assert_eq!(got, want);
}

#[test]
fn bypass_list_needs_a_proxy() {
    let app = OsrApp::builder()
        .proxy_bypass_list("localhost".to_string())
        .cache_size_mb(-5)
        .build();
    let got = names(&app.command_line_switches());
    assert_eq!(got.len(), BASE.len());
}

#[test]
fn parse_switch_forms() {
    let s = parse_switch("--name=value").unwrap();
    assert_eq!((s.name.as_str(), s.value.as_deref()), ("name", Some("value")));
    let s = parse_switch("\tflag\n").unwrap();
    assert_eq!((s.name.as_str(), s.value.as_deref()), ("flag", None));
    assert!(parse_switch("   ").is_none());
    let s = parse_switch("--").unwrap();
    assert_eq!(s.name, "");
}

#[test]
fn custom_switch_setting_lines() {
    let raw = "--one\n# comment\n\n  two=2  \r\n\u{3000}three\n";
    assert_eq!(parse_custom_switches(raw), vec!["--one", "two=2", "three"]);
    assert!(parse_custom_switches("").is_empty());
    assert_eq!(parse_custom_switches("last"), vec!["last"]);
}

#[test]
fn insecure_switches_are_recognised() {
    assert!(is_insecure_switch("--disable-web-security"));
    assert!(is_insecure_switch("  ignore-certificate-errors=1"));
    assert!(is_insecure_switch("-allow-running-insecure-content"));
    assert!(!is_insecure_switch("--enable-gpu"));
    assert!(!is_insecure_switch("disable-web"));
}

#[test]
fn numeric_settings_ranges() {
    assert_eq!(devtools_port(0), 1);
    assert_eq!(devtools_port(-7), 1);
    assert_eq!(devtools_port(9229), 9229);
    assert_eq!(devtools_port(70000), 65535);
    assert_eq!(non_negative_setting(-3), 0);
    assert_eq!(non_negative_setting(240), 240);
    assert_eq!(non_negative_setting(1 << 32), 0);
}
