use nekofetch::config::{
    config_value, load_config, toggle_is_on, Config, LOCAL_CONFIG_FILE, USER_CONFIG_FILE,
};

fn numbered() -> Config {
    Config {
        show_username: Some(false),
        show_hostname: Some(true),
        show_os: Some(false),
        show_kernel: None,
        show_uptime: Some(true),
        show_packages: Some(false),
        show_shell: None,
        show_resolution: Some(true),
        show_de: Some(false),
        show_wm: Some(true),
        show_wm_theme: None,
        show_terminal: Some(false),
        show_cpu: Some(true),
        show_gpu: Some(false),
        show_memory: None,
        show_storage: Some(false),
    }
}

#[test]
fn default_config_shows_all_sixteen_fields() {
    let config = Config::default();
    let toggles = [
        config.show_username,
        config.show_hostname,
        config.show_os,
        config.show_kernel,
        config.show_uptime,
        config.show_packages,
        config.show_shell,
        config.show_resolution,
        config.show_de,
        config.show_wm,
        config.show_wm_theme,
        config.show_terminal,
        config.show_cpu,
        config.show_gpu,
        config.show_memory,
        config.show_storage,
    ];
    for toggle in toggles {
        assert_eq!(toggle, Some(true));
    }
}

#[test]
fn config_value_reads_the_toggle_of_each_key() {
    let config = numbered();
    assert_eq!(config_value(&config, "os"), Some(false));
    assert_eq!(config_value(&config, "host"), Some(true));
    assert_eq!(config_value(&config, "kernel"), None);
    assert_eq!(config_value(&config, "uptime"), Some(true));
    assert_eq!(config_value(&config, "packages"), Some(false));
    assert_eq!(config_value(&config, "shell"), None);
    assert_eq!(config_value(&config, "resolution"), Some(true));
    assert_eq!(config_value(&config, "de"), Some(false));
    assert_eq!(config_value(&config, "wm"), Some(true));
    assert_eq!(config_value(&config, "wm_theme"), None);
    assert_eq!(config_value(&config, "terminal"), Some(false));
    assert_eq!(config_value(&config, "cpu"), Some(true));
    assert_eq!(config_value(&config, "gpu"), Some(false));
    assert_eq!(config_value(&config, "memory"), None);
    assert_eq!(config_value(&config, "storage"), Some(false));
}

#[test]
fn config_value_of_a_key_without_toggle_is_show() {
    let config = numbered();
    assert_eq!(config_value(&config, "username"), Some(true));
    assert_eq!(config_value(&config, "hostname"), Some(true));
    assert_eq!(config_value(&config, ""), Some(true));
    assert_eq!(config_value(&config, "OS"), Some(true));
}

#[test]
fn absent_toggle_counts_as_show() {
    assert!(toggle_is_on(None));
    assert!(toggle_is_on(Some(true)));
    assert!(!toggle_is_on(Some(false)));
}

#[test]
fn load_config_takes_the_first_that_was_loaded() {
    let first = numbered();
    let mut second = numbered();
    second.show_os = Some(true);
    assert_eq!(load_config(&vec![Some(first), Some(second)]), first);
    assert_eq!(load_config(&vec![None, Some(second)]), second);
    assert_eq!(load_config(&vec![Some(first), None]), first);
}

#[test]
fn load_config_falls_back_to_all_shown() {
    assert_eq!(load_config(&vec![None, None]), Config::default());
    assert_eq!(load_config(&vec![]), Config::default());
    assert_eq!(load_config(&vec![None, None]).show_memory, Some(true));
    assert_eq!(load_config(&vec![None, None]).show_storage, Some(true));
}

#[test]
fn config_file_names() {
    assert_eq!(USER_CONFIG_FILE, "nekofetch/nekofetch_config.yml");
    assert_eq!(LOCAL_CONFIG_FILE, "nekofetch_config.yml");
}
