use macwinshare::config::{
    ClipboardConfig, Config, Direction, NetworkConfig, ScreenConfig, ScreenNeighbor,
    ScreenPosition, SecurityConfig, data_base_dir, machine_name_or_fallback, data_dir_from_env,
    data_dir_under, HostPlatform, bind_address,
};

#[test]
fn test_default_config() {
    let config = Config::default();

    assert!(!config.machine_id.is_empty());
    assert!(!config.machine_name.is_empty());
    assert_eq!(config.port, 24800);
    assert!(config.security.tls_enabled);
    assert!(config.clipboard.enabled);
}

#[test]
fn test_screen_config_defaults() {
    let screen = ScreenConfig::default();

    assert_eq!(screen.position.x, 0);
    assert_eq!(screen.position.y, 0);
    assert_eq!(screen.width, 1920);
    assert_eq!(screen.height, 1080);
    assert_eq!(screen.edge_threshold, 1);
    assert!(screen.neighbors.is_empty());
}

#[test]
fn test_security_config_defaults() {
    let security = SecurityConfig::default();

    assert!(security.tls_enabled);
    assert!(security.verify_clients);
    assert!(security.trusted_fingerprints.is_empty());
    assert!(security.password.is_none());
}

#[test]
fn test_network_config_defaults() {
    let network = NetworkConfig::default();

    assert!(network.mdns_enabled);
    assert!(network.udp_discovery_enabled);
    assert!(network.bind_interface.is_empty());
    assert_eq!(network.timeout_seconds, 30);
}

#[test]
fn test_clipboard_config_defaults() {
    let clipboard = ClipboardConfig::default();

    assert!(clipboard.enabled);
    assert!(clipboard.share_text);
    assert!(clipboard.share_images);
    assert!(clipboard.share_files);
    assert_eq!(clipboard.max_size_bytes, 10 * 1024 * 1024);
}

#[test]
fn test_screen_position_equality() {
    let pos1 = ScreenPosition { x: 100, y: 200 };
    let pos2 = ScreenPosition { x: 100, y: 200 };
    let pos3 = ScreenPosition { x: 100, y: 300 };

    assert_eq!(pos1, pos2);
    assert_ne!(pos1, pos3);
}

#[test]
fn default_config_has_uuid_machine_id_and_data_dir() {
    let config = Config::default();
    assert_eq!(config.machine_id.chars().count(), 36);
    assert_eq!(config.machine_id.matches('-').count(), 4);
    let chars: Vec<char> = config.machine_id.chars().collect();
    for (i, c) in chars.iter().enumerate() {
        if i == 8 || i == 13 || i == 18 || i == 23 {
            assert_eq!(*c, '-');
        } else {
            assert!(c.is_ascii_hexdigit() && !c.is_ascii_uppercase());
        }
    }
    assert_eq!(chars[14], '4');
    assert!(matches!(chars[19], '8' | '9' | 'a' | 'b'));
    assert!(config.data_dir.ends_with("MacWinShare"));
    let other = Config::default();
    assert_ne!(config.machine_id, other.machine_id);
}

#[test]
fn identity_fallbacks() {
    assert_eq!(machine_name_or_fallback(None), "MacWinShare");
    assert_eq!(machine_name_or_fallback(Some("desk".to_string())), "desk");
    assert_eq!(data_base_dir(None), ".");
    assert_eq!(data_base_dir(Some("/home/a/.local/share".to_string())), "/home/a/.local/share");
}

#[test]
fn config_with_identity_keeps_neighbors_editable() {
    let mut config = Config::with_identity("id".to_string(), "MacBook".to_string(), "/tmp/x".to_string());
    assert_eq!(config.machine_id, "id");
    assert_eq!(config.machine_name, "MacBook");
    assert_eq!(config.data_dir, "/tmp/x");
    assert_eq!(config.port, 24800);
    config.screen.neighbors.push(ScreenNeighbor { name: "Desktop".to_string(), direction: Direction::Right });
    let copy = config.clone();
    assert_eq!(copy.screen.neighbors.len(), 1);
    assert_eq!(copy.screen.neighbors[0].direction, Direction::Right);
}

#[test]
fn data_directory_from_environment() {
    assert_eq!(
        data_dir_from_env(HostPlatform::MacOs, Some("/Users/a".to_string()), None),
        Some("/Users/a/Library/Application Support".to_string())
    );
    assert_eq!(
        data_dir_from_env(HostPlatform::Other, Some("/home/a".to_string()), Some("x".to_string())),
        Some("/home/a/.local/share".to_string())
    );
    assert_eq!(
        data_dir_from_env(HostPlatform::Windows, Some("/home/a".to_string()), Some("C:\\Users\\a\\AppData\\Local".to_string())),
        Some("C:\\Users\\a\\AppData\\Local".to_string())
    );
    assert_eq!(data_dir_from_env(HostPlatform::MacOs, None, Some("x".to_string())), None);
    assert_eq!(data_dir_from_env(HostPlatform::Windows, Some("/h".to_string()), None), None);
    assert_eq!(data_dir_under(None), "./MacWinShare");
    assert_eq!(data_dir_under(Some("/home/a/.local/share".to_string())), "/home/a/.local/share/MacWinShare");
    assert_eq!(data_dir_under(Some("/data/".to_string())), "/data/MacWinShare");
}

#[test]
fn default_config_in_a_given_directory() {
    let c = Config::default_in("/tmp/mws".to_string());
    assert_eq!(c.data_dir, "/tmp/mws");
    assert_eq!(c.port, 24800);
    assert_eq!(c.machine_id.len(), 36);
    assert!(c.security.tls_enabled);
}

#[test]
fn bind_address_uses_the_configured_interface() {
    let mut net = NetworkConfig::default();
    assert_eq!(bind_address(&net, 24800), "0.0.0.0:24800");
    assert_eq!(bind_address(&net, 0), "0.0.0.0:0");
    assert_eq!(bind_address(&net, 65535), "0.0.0.0:65535");
    net.bind_interface = "192.168.1.20".to_string();
    assert_eq!(bind_address(&net, 9), "192.168.1.20:9");
}
