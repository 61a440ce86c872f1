use navrs::config::{default_config_path, Config};

#[test]
fn config_defaults() {
    let c = Config::default();
    assert_eq!(c.server.base, "http://localhost:8080/");
    assert_eq!(c.auth.username, "");
    assert_eq!(c.auth.password, "");
    assert_eq!(c.player.device, "navrs");
    assert_eq!(c.player.preload, 5);
    assert_eq!(c.cache.location, None);
}

#[test]
fn config_path_choice() {
    assert_eq!(default_config_path(Some("/etc/x.toml".to_string()), Some("/home/a".to_string())), "/etc/x.toml");
    assert_eq!(default_config_path(None, Some("/home/a".to_string())), "/home/a/.config/navrs/config.toml");
    assert_eq!(default_config_path(None, Some("/home/a/".to_string())), "/home/a/.config/navrs/config.toml");
    assert_eq!(default_config_path(None, None), "/root/.config/navrs/config.toml");
    assert_eq!(default_config_path(None, Some(String::new())), ".config/navrs/config.toml");
}
