//! The display configuration: one optional toggle for each field that can
//! be shown. A toggle that is left out counts as "show".

use crate::text::same_text;
use vstd::prelude::*;

verus! {

/// The toggles of the sixteen fields. `None` stands for a key that the
/// configuration file does not hold.
#[derive(Clone, Copy, Debug, PartialEq, Eq)]
pub struct Config {
    pub show_username: Option<bool>,
    pub show_hostname: Option<bool>,
    pub show_os: Option<bool>,
    pub show_kernel: Option<bool>,
    pub show_uptime: Option<bool>,
    pub show_packages: Option<bool>,
    pub show_shell: Option<bool>,
    pub show_resolution: Option<bool>,
    pub show_de: Option<bool>,
    pub show_wm: Option<bool>,
    pub show_wm_theme: Option<bool>,
    pub show_terminal: Option<bool>,
    pub show_cpu: Option<bool>,
    pub show_gpu: Option<bool>,
    pub show_memory: Option<bool>,
    pub show_storage: Option<bool>,
}

/// The file of the user's configuration, below the platform's
/// configuration directory.
pub const USER_CONFIG_FILE: &'static str = "nekofetch/nekofetch_config.yml";

/// The file that is read from the working directory where the user's
/// configuration cannot be had.
pub const LOCAL_CONFIG_FILE: &'static str = "nekofetch_config.yml";

/// The configuration in which every toggle is set to "show".
pub open spec fn all_shown() -> Config {
    Config {
        show_username: Some(true),
        show_hostname: Some(true),
        show_os: Some(true),
        show_kernel: Some(true),
        show_uptime: Some(true),
        show_packages: Some(true),
        show_shell: Some(true),
        show_resolution: Some(true),
        show_de: Some(true),
        show_wm: Some(true),
        show_wm_theme: Some(true),
        show_terminal: Some(true),
        show_cpu: Some(true),
        show_gpu: Some(true),
        show_memory: Some(true),
        show_storage: Some(true),
    }
}

impl Default for Config {
    /// The configuration that is used where no file can be loaded.
    fn default() -> (config: Config)
        ensures
            config == all_shown(),
    {
        Config {
            show_username: Some(true),
            show_hostname: Some(true),
            show_os: Some(true),
            show_kernel: Some(true),
            show_uptime: Some(true),
            show_packages: Some(true),
            show_shell: Some(true),
            show_resolution: Some(true),
            show_de: Some(true),
            show_wm: Some(true),
            show_wm_theme: Some(true),
            show_terminal: Some(true),
            show_cpu: Some(true),
            show_gpu: Some(true),
            show_memory: Some(true),
            show_storage: Some(true),
        }
    }
}

/// The toggle that governs the fact `key`. The key `host` goes by the
/// toggle of the host name; a key without a toggle is set to "show".
pub open spec fn toggle(config: Config, key: Seq<char>) -> Option<bool> {
    if key == "os"@ {
        config.show_os
    } else if key == "host"@ {
        config.show_hostname
    } else if key == "kernel"@ {
        config.show_kernel
    } else if key == "uptime"@ {
        config.show_uptime
    } else if key == "packages"@ {
        config.show_packages
    } else if key == "shell"@ {
        config.show_shell
    } else if key == "resolution"@ {
        config.show_resolution
    } else if key == "de"@ {
        config.show_de
    } else if key == "wm"@ {
        config.show_wm
    } else if key == "wm_theme"@ {
        config.show_wm_theme
    } else if key == "terminal"@ {
        config.show_terminal
    } else if key == "cpu"@ {
        config.show_cpu
    } else if key == "gpu"@ {
        config.show_gpu
    } else if key == "memory"@ {
        config.show_memory
    } else if key == "storage"@ {
        config.show_storage
    } else {
        Some(true)
    }
}

/// Whether a toggle lets its field be shown: it does unless it is set to
/// `false`.
pub open spec fn is_on(toggle: Option<bool>) -> bool {
    toggle != Some(false)
}

/// Whether `config` lets the fact `key` be shown.
pub open spec fn shows(config: Config, key: Seq<char>) -> bool {
    is_on(toggle(config, key))
}

/// The first configuration that was loaded, or the one with every toggle
/// set where none was.
pub open spec fn first_loaded(attempts: Seq<Option<Config>>) -> Config
    decreases attempts.len(),
{
    if attempts.len() == 0 {
        all_shown()
    } else if attempts[0] is Some {
        attempts[0]->0
    } else {
        first_loaded(attempts.drop_first())
    }
}

/// The toggle that governs the fact `key`.
pub fn config_value(config: &Config, key: &str) -> (value: Option<bool>)
    ensures
        value == toggle(*config, key@),
{
    if same_text(key, "os") {
        config.show_os
    } else if same_text(key, "host") {
        config.show_hostname
    } else if same_text(key, "kernel") {
        config.show_kernel
    } else if same_text(key, "uptime") {
        config.show_uptime
    } else if same_text(key, "packages") {
        config.show_packages
    } else if same_text(key, "shell") {
        config.show_shell
    } else if same_text(key, "resolution") {
        config.show_resolution
    } else if same_text(key, "de") {
        config.show_de
    } else if same_text(key, "wm") {
        config.show_wm
    } else if same_text(key, "wm_theme") {
        config.show_wm_theme
    } else if same_text(key, "terminal") {
        config.show_terminal
    } else if same_text(key, "cpu") {
        config.show_cpu
    } else if same_text(key, "gpu") {
        config.show_gpu
    } else if same_text(key, "memory") {
        config.show_memory
    } else if same_text(key, "storage") {
        config.show_storage
    } else {
        Some(true)
    }
}

/// Whether a toggle lets its field be shown.
pub fn toggle_is_on(toggle: Option<bool>) -> (on: bool)
    ensures
        on == is_on(toggle),
{
    match toggle {
        Some(false) => false,
        _ => true,
    }
}

/// Settles the configuration from the attempts to load one, given in the
/// order of the locations that were tried (`None` for a file that could not
/// be read or parsed): the first that was loaded, or every toggle set.
pub fn load_config(attempts: &Vec<Option<Config>>) -> (config: Config)
    ensures
        config == first_loaded(attempts@),
{
    let mut i: usize = 0;
    assert(attempts@.skip(0) == attempts@);
    while i < attempts.len()
        invariant
            i <= attempts.len(),
            first_loaded(attempts@) == first_loaded(attempts@.skip(i as int)),
        decreases attempts.len() - i,
    {
        assert(attempts@.skip(i as int).drop_first() == attempts@.skip(i + 1));
        match attempts[i] {
            Some(config) => {
                return config;
            },
            None => {},
        }
        i = i + 1;
    }
    Config::default()
}

/// The toggle that is in force: a toggle that is left out is set to
/// "show".
pub open spec fn in_force(toggle: Option<bool>) -> Option<bool> {
    match toggle {
        Some(on) => Some(on),
        None => Some(true),
    }
}

/// `config` with each toggle that is left out set to "show".
pub open spec fn with_defaults(config: Config) -> Config {
    Config {
        show_username: in_force(config.show_username),
        show_hostname: in_force(config.show_hostname),
        show_os: in_force(config.show_os),
        show_kernel: in_force(config.show_kernel),
        show_uptime: in_force(config.show_uptime),
        show_packages: in_force(config.show_packages),
        show_shell: in_force(config.show_shell),
        show_resolution: in_force(config.show_resolution),
        show_de: in_force(config.show_de),
        show_wm: in_force(config.show_wm),
        show_wm_theme: in_force(config.show_wm_theme),
        show_terminal: in_force(config.show_terminal),
        show_cpu: in_force(config.show_cpu),
        show_gpu: in_force(config.show_gpu),
        show_memory: in_force(config.show_memory),
        show_storage: in_force(config.show_storage),
    }
}

/// A field whose key the configuration leaves out is shown, and every
/// field is shown or hidden as if the keys that are left out were set to
/// "show".
pub proof fn absent_toggle_shows(config: Config, key: Seq<char>)
    ensures
        toggle(config, key) is None ==> shows(config, key),
        shows(config, key) == shows(with_defaults(config), key),
        is_on(config.show_username) == is_on(with_defaults(config).show_username),
        is_on(config.show_hostname) == is_on(with_defaults(config).show_hostname),
{
}

/// Where no configuration was loaded, every field is shown.
pub proof fn fallback_shows_all(attempts: Seq<Option<Config>>, key: Seq<char>)
    requires
        forall|i: int| 0 <= i < attempts.len() ==> attempts[i] is None,
    ensures
        first_loaded(attempts) == all_shown(),
        shows(first_loaded(attempts), key),
        is_on(first_loaded(attempts).show_username),
    decreases attempts.len(),
{
    if attempts.len() > 0 {
        fallback_shows_all(attempts.drop_first(), key);
    }
}

} // verus!
