use pianki_supervisor::launcher::{build_launch_plan, format_port, LaunchConfig};

#[test]
fn plan_names_the_backend_and_its_environment() {
    let cfg = LaunchConfig {
        spawn_enabled: true,
        data_dir: b"/home/user/.local/share/pianki".to_vec(),
        port: 9908,
    };
    let plan = build_launch_plan(&cfg).expect("spawning is enabled");
    assert_eq!(plan.executable.as_str(), "pianki-backend");
    assert_eq!(plan.env.len(), 2);
    assert_eq!(plan.env[0].name.as_str(), "PIANKI_DATA_DIR");
    assert_eq!(plan.env[0].value, b"/home/user/.local/share/pianki".to_vec());
    assert_eq!(plan.env[1].name.as_str(), "PORT");
    assert_eq!(plan.env[1].value, b"9908".to_vec());
}

#[test]
fn no_plan_in_embedded_development_mode() {
    let cfg = LaunchConfig { spawn_enabled: false, data_dir: b"/tmp/data".to_vec(), port: 9908 };
    assert!(build_launch_plan(&cfg).is_none());
}

#[test]
fn ports_format_as_canonical_decimals() {
    assert_eq!(format_port(0), b"0".to_vec());
    assert_eq!(format_port(7), b"7".to_vec());
    assert_eq!(format_port(10), b"10".to_vec());
    assert_eq!(format_port(9908), b"9908".to_vec());
    assert_eq!(format_port(65535), b"65535".to_vec());
}
