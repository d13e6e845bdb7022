use nekofetch::system_info::{
    command_outcome, first_reading_or_unknown, gather_system_info, get_cpu_info, get_desktop_environment,
    get_disk_info, get_gpu_info, get_memory_info, get_os, get_package_count, get_resolution,
    get_storage_info, get_uptime, get_window_manager, get_wm_theme, next_probe,
    printed_nothing, probe_arguments, probe_program, probes_for, read_line, read_output,
    reading_or_unknown, Capacity, DiskUsage, HostReadings, LineRule, Platform, Probe, ProbedFact,
};

const DPKG_LIST: &str = "Desired=Unknown/Install/Remove/Purge/Hold\n||/ Name Version Architecture Description\n+++-====-====-====-====\nii  adduser 3.134 all add and remove users\nii  apt 2.6.1 amd64 package manager\n";

const PLATFORMS: [Platform; 4] = [Platform::Linux, Platform::MacOs, Platform::Windows, Platform::Other];

fn some(text: &str) -> Option<String> {
    Some(text.to_string())
}

fn chars(s: &str) -> Vec<char> {
    s.chars().collect()
}

fn text(found: Option<Vec<char>>) -> Option<String> {
    found.map(|v| v.iter().collect())
}

fn disk(name: &str, total: u64, available: u64) -> DiskUsage {
    DiskUsage::new(name.to_string(), total, available).unwrap()
}

fn linux_readings() -> HostReadings {
    HostReadings {
        platform: Platform::Linux,
        os_name: some("Debian GNU/Linux"),
        os_version: some("Linux 12 Debian GNU/Linux"),
        kernel_version: some("6.1.0-18-amd64"),
        uptime: 93784,
        shell: some("/bin/bash"),
        comspec: None,
        term_program: None,
        term: some("xterm-256color"),
        cpu_brand: some("Neko 9000"),
        cpu_cores: 8,
        memory: Capacity::new(8 * 1024 * 1024, 6 * 1024 * 1024).unwrap(),
        host_name: some("box"),
        username: "alice".to_string(),
        current_desktop: some("GNOME"),
        session_desktop: some("gnome"),
        gpu_outcomes: vec![some(
            "00:02.0 \"VGA compatible controller\" \"Intel Corporation\" \"UHD Graphics 620\" -r07\n",
        )],
        package_outcomes: vec![some(DPKG_LIST)],
        resolution_outcomes: vec![some(
            "screen #0:\n  dimensions:    1920x1080 pixels (508x285 millimeters)\n",
        )],
        disks: vec![disk("sda1", 500 * 1024 * 1024, 200 * 1024 * 1024), disk("sdb1", 64 * 1024 * 1024, 1024 * 1024)],
    }
}

#[test]
fn wm_theme_is_known_on_a_mac_only() {
    assert_eq!(get_wm_theme(Platform::MacOs), "Blue (Dark)");
    assert_eq!(get_wm_theme(Platform::Linux), "Unknown");
    assert_eq!(get_wm_theme(Platform::Windows), "Unknown");
    assert_eq!(get_wm_theme(Platform::Other), "Unknown");
}

#[test]
fn desktop_environment_by_platform() {
    assert_eq!(get_desktop_environment(Platform::Linux, &some("KDE")), "KDE");
    assert_eq!(get_desktop_environment(Platform::Linux, &None), "Unknown");
    assert_eq!(get_desktop_environment(Platform::MacOs, &some("KDE")), "Aqua");
    assert_eq!(get_desktop_environment(Platform::Windows, &some("KDE")), "Unknown");
    assert_eq!(get_desktop_environment(Platform::Other, &None), "Unknown");
}

#[test]
fn window_manager_by_platform() {
    assert_eq!(get_window_manager(Platform::Linux, &some("sway")), "sway");
    assert_eq!(get_window_manager(Platform::Linux, &None), "Unknown");
    assert_eq!(get_window_manager(Platform::MacOs, &None), "Quartz Compositor");
    assert_eq!(get_window_manager(Platform::Windows, &some("sway")), "Unknown");
    assert_eq!(get_window_manager(Platform::Other, &some("sway")), "Unknown");
}

#[test]
fn uptime_in_days_hours_and_minutes() {
    assert_eq!(get_uptime(93784), "1 days, 2 hours, 3 mins");
    assert_eq!(get_uptime(0), "0 days, 0 hours, 0 mins");
    assert_eq!(get_uptime(59), "0 days, 0 hours, 0 mins");
    assert_eq!(get_uptime(86399), "0 days, 23 hours, 59 mins");
    assert_eq!(get_uptime(86400), "1 days, 0 hours, 0 mins");
    assert_eq!(get_uptime(u64::MAX), "213503982334601 days, 7 hours, 0 mins");
}

#[test]
fn memory_in_use_and_whole() {
    let memory = Capacity::new(8 * 1024 * 1024, 6 * 1024 * 1024).unwrap();
    assert_eq!(get_memory_info(&memory), "2048MiB / 8192MiB");
    let odd = Capacity::new(4095, 1).unwrap();
    assert_eq!(get_memory_info(&odd), "3MiB / 3MiB");
    let none = Capacity::new(0, 0).unwrap();
    assert_eq!(get_memory_info(&none), "0MiB / 0MiB");
}

#[test]
fn capacity_needs_the_free_part_to_fit() {
    assert!(Capacity::new(10, 11).is_none());
    assert!(Capacity::new(0, 1).is_none());
    let c = Capacity::new(10, 10).unwrap();
    assert_eq!(c.whole(), 10);
    assert_eq!(c.free(), 10);
    let d = Capacity::new(u64::MAX, 0).unwrap();
    assert_eq!((d.whole(), d.free()), (u64::MAX, 0));
}

#[test]
fn disk_text_rounds_each_side_down_before_subtracting() {
    assert_eq!(get_disk_info(&disk("sda1", 500 * 1024 * 1024, 200 * 1024 * 1024)), "sda1: 300MiB / 500MiB");
    let mib = 1024 * 1024;
    assert_eq!(get_disk_info(&disk("x", 3 * mib + 5, 2 * mib - 1)), "x: 2MiB / 3MiB");
    assert_eq!(get_disk_info(&disk("", 0, 0)), ": 0MiB / 0MiB");
}

#[test]
fn storage_info_has_one_text_for_each_disk() {
    let disks = vec![disk("a", 2 * 1024 * 1024, 1024 * 1024), disk("b", 1024 * 1024, 0)];
    assert_eq!(get_storage_info(&disks), vec!["a: 1MiB / 2MiB", "b: 1MiB / 1MiB"]);
    assert_eq!(get_storage_info(&vec![]), Vec::<String>::new());
}

#[test]
fn os_and_cpu_texts() {
    assert_eq!(get_os(&some("Neko"), &some("1.0")), "Neko 1.0");
    assert_eq!(get_os(&None, &some("1.0")), "Unknown 1.0");
    assert_eq!(get_os(&some("Neko"), &None), "Neko Unknown");
    assert_eq!(get_os(&None, &None), "Unknown");
    assert_eq!(get_cpu_info(&some("Neko 9000"), 8), "Neko 9000 (8 cores)");
    assert_eq!(get_cpu_info(&some("Neko 9000"), 0), "Neko 9000 (0 cores)");
    assert_eq!(get_cpu_info(&None, 0), "Unknown");
    assert_eq!(get_cpu_info(&None, 8), "Unknown");
}

#[test]
fn first_reading_wins() {
    assert_eq!(first_reading_or_unknown(&some("/bin/zsh"), &some("cmd.exe")), "/bin/zsh");
    assert_eq!(first_reading_or_unknown(&None, &some("cmd.exe")), "cmd.exe");
    assert_eq!(first_reading_or_unknown(&None, &None), "Unknown");
    assert_eq!(reading_or_unknown(&None), "Unknown");
    assert_eq!(reading_or_unknown(&some("x")), "x");
}

#[test]
fn package_count_on_linux() {
    assert_eq!(get_package_count(Platform::Linux, &vec![some(DPKG_LIST)]), "5 (dpkg)");
    assert_eq!(get_package_count(Platform::Linux, &vec![some("a 1\n"), some("b 2\nc 3\n")]), "1 (dpkg)");
    assert_eq!(get_package_count(Platform::Linux, &vec![None, some("b 2\nc 3\n")]), "2 (pacman)");
    assert_eq!(get_package_count(Platform::Linux, &vec![None, some("linux 6.9-1")]), "1 (pacman)");
    assert_eq!(get_package_count(Platform::Linux, &vec![None, None]), "Unknown");
    assert_eq!(get_package_count(Platform::Linux, &vec![None]), "Unknown");
    assert_eq!(get_package_count(Platform::Linux, &vec![]), "Unknown");
}

#[test]
fn package_count_on_a_mac_counts_lines() {
    assert_eq!(get_package_count(Platform::MacOs, &vec![some("git\nripgrep\nzsh\n")]), "3 (brew)");
    assert_eq!(get_package_count(Platform::MacOs, &vec![some("git")]), "1 (brew)");
    assert_eq!(get_package_count(Platform::MacOs, &vec![None]), "Unknown");
}

#[test]
fn package_count_elsewhere_is_unknown() {
    assert_eq!(get_package_count(Platform::Windows, &vec![some("12\n")]), "Unknown");
    assert_eq!(get_package_count(Platform::Other, &vec![some("12\n")]), "Unknown");
}

#[test]
fn resolution_from_xdpyinfo() {
    let output = "name of display:    :0\nscreen #0:\n  dimensions:    1920x1080 pixels (508x285 millimeters)\n  resolution:    96x96 dots per inch\n";
    assert_eq!(get_resolution(Platform::Linux, &vec![some(output)]), "1920x1080");
    assert_eq!(get_resolution(Platform::Linux, &vec![some("dimensions:\n dimensions: 800x600\n")]), "800x600");
    assert_eq!(get_resolution(Platform::Linux, &vec![some("xdimensions:y z\n")]), "z");
    assert_eq!(get_resolution(Platform::Linux, &vec![some("no such line\n")]), "Unknown");
    assert_eq!(get_resolution(Platform::Linux, &vec![None]), "Unknown");
}

#[test]
fn resolution_from_system_profiler() {
    let output = "Graphics/Displays:\n\n    Apple M1:\n\n      Chipset Model: Apple M1\n          Resolution: 2560 x 1600 Retina\n          Resolution: 1 x 1\n";
    assert_eq!(get_resolution(Platform::MacOs, &vec![some(output)]), "2560 x 1600 Retina");
    assert_eq!(get_resolution(Platform::MacOs, &vec![some("UI Resolution: 1 x 1\n")]), "Unknown");
    assert_eq!(get_resolution(Platform::MacOs, &vec![None]), "Unknown");
    assert_eq!(get_resolution(Platform::Windows, &vec![some(output)]), "Unknown");
    assert_eq!(get_resolution(Platform::Other, &vec![some(output)]), "Unknown");
}

#[test]
fn gpu_from_lspci() {
    let output = "00:00.0 \"Host bridge\" \"Intel Corporation\" \"Device 1234\"\n00:02.0 \"VGA compatible controller\" \"Intel Corporation\" \"UHD Graphics 620\" -r07\n01:00.0 \"3D controller\" \"NVIDIA Corporation\" \"GP108M\"\n";
    assert_eq!(get_gpu_info(Platform::Linux, &vec![some(output)]), "Intel Corporation");
    let three_d = "01:00.0 \"3D controller\" \"NVIDIA Corporation\" \"GP108M\"\n";
    assert_eq!(get_gpu_info(Platform::Linux, &vec![some(three_d)]), "NVIDIA Corporation");
    assert_eq!(get_gpu_info(Platform::Linux, &vec![some("VGA compatible controller \"a\" b\nx \"3D controller\" \"c\"\n")]), "c");
    assert_eq!(get_gpu_info(Platform::Linux, &vec![some("00:00.0 \"Host bridge\" \"Intel\"\n")]), "Unknown");
    assert_eq!(get_gpu_info(Platform::Linux, &vec![None]), "Unknown");
}

#[test]
fn gpu_from_system_profiler_and_wmic() {
    let mac = "Graphics/Displays:\n\n    Apple M1:\n\n      Chipset Model: Apple M1\n      Type: GPU\n";
    assert_eq!(get_gpu_info(Platform::MacOs, &vec![some(mac)]), "Apple M1");
    assert_eq!(get_gpu_info(Platform::MacOs, &vec![None]), "Unknown");
    let windows = "Name                    \r\nNVIDIA GeForce RTX 3080  \r\n\r\n";
    assert_eq!(get_gpu_info(Platform::Windows, &vec![some(windows)]), "NVIDIA GeForce RTX 3080");
    assert_eq!(get_gpu_info(Platform::Windows, &vec![some("Name\n")]), "Unknown");
    assert_eq!(get_gpu_info(Platform::Windows, &vec![None]), "Unknown");
    assert_eq!(get_gpu_info(Platform::Other, &vec![some(windows)]), "Unknown");
}

#[test]
fn failed_commands_give_unknown_on_every_platform() {
    for platform in PLATFORMS {
        for outcomes in [vec![], vec![None], vec![None, None], vec![None, None, None]] {
            assert_eq!(get_package_count(platform, &outcomes), "Unknown");
            assert_eq!(get_resolution(platform, &outcomes), "Unknown");
            assert_eq!(get_gpu_info(platform, &outcomes), "Unknown");
        }
    }
}

#[test]
fn empty_output_gives_unknown_on_every_platform() {
    for platform in PLATFORMS {
        for blank in ["", "\n", "  \r\n\t"] {
            let outcomes = vec![some(blank), some(blank)];
            assert_eq!(get_package_count(platform, &outcomes), "Unknown");
            assert_eq!(get_resolution(platform, &outcomes), "Unknown");
            assert_eq!(get_gpu_info(platform, &outcomes), "Unknown");
        }
    }
}

#[test]
fn printed_nothing_means_white_space_only() {
    assert!(printed_nothing(&chars("")));
    assert!(printed_nothing(&chars(" \n\t\r")));
    assert!(!printed_nothing(&chars(" 0\n")));
}

#[test]
fn read_line_by_each_rule() {
    assert_eq!(text(read_line(LineRule::Dimensions, &chars("  dimensions:    1x2 pixels"))), some("1x2"));
    assert_eq!(text(read_line(LineRule::Dimensions, &chars("dimensions:"))), None);
    assert_eq!(text(read_line(LineRule::Resolution, &chars("   Resolution: 3 x 4  "))), some("3 x 4"));
    assert_eq!(text(read_line(LineRule::Resolution, &chars("Resolution:Resolution:"))), some(""));
    assert_eq!(text(read_line(LineRule::Resolution, &chars("Chipset Model: x"))), None);
    assert_eq!(text(read_line(LineRule::Chipset, &chars("\tChipset Model: Neko GPU"))), some("Neko GPU"));
    assert_eq!(text(read_line(LineRule::Controller, &chars("a \"3D controller\" \"v\" \"d\""))), some("v"));
    assert_eq!(text(read_line(LineRule::Controller, &chars("3D controller \"v\""))), None);
    assert_eq!(text(read_line(LineRule::Controller, &chars("a \"b\" \"v\" \"d\""))), None);
}

#[test]
fn read_output_takes_the_first_line_that_tells() {
    assert_eq!(read_output("Resolution: a\nResolution: b\n", LineRule::Resolution), "a");
    assert_eq!(read_output("x\nResolution: b", LineRule::Resolution), "b");
    assert_eq!(read_output("x\ny\n", LineRule::Resolution), "Unknown");
    assert_eq!(read_output("", LineRule::Chipset), "Unknown");
}

#[test]
fn probes_of_each_fact_and_platform() {
    assert_eq!(probes_for(ProbedFact::Packages, Platform::Linux), vec![Probe::DpkgList, Probe::PacmanList]);
    assert_eq!(probes_for(ProbedFact::Packages, Platform::MacOs), vec![Probe::BrewList]);
    assert_eq!(probes_for(ProbedFact::Packages, Platform::Windows), vec![]);
    assert_eq!(probes_for(ProbedFact::Packages, Platform::Other), vec![]);
    assert_eq!(probes_for(ProbedFact::Resolution, Platform::Linux), vec![Probe::Xdpyinfo]);
    assert_eq!(probes_for(ProbedFact::Resolution, Platform::MacOs), vec![Probe::SystemProfilerDisplays]);
    assert_eq!(probes_for(ProbedFact::Resolution, Platform::Windows), vec![]);
    assert_eq!(probes_for(ProbedFact::Gpu, Platform::Linux), vec![Probe::Lspci]);
    assert_eq!(probes_for(ProbedFact::Gpu, Platform::MacOs), vec![Probe::SystemProfilerDisplays]);
    assert_eq!(probes_for(ProbedFact::Gpu, Platform::Windows), vec![Probe::WmicVideoController]);
    assert_eq!(probes_for(ProbedFact::Gpu, Platform::Other), vec![]);
}

#[test]
fn probe_commands() {
    assert_eq!(probe_program(Probe::DpkgList), "dpkg");
    assert_eq!(probe_arguments(Probe::DpkgList), vec!["--list"]);
    assert_eq!(probe_program(Probe::PacmanList), "pacman");
    assert_eq!(probe_arguments(Probe::PacmanList), vec!["-Q"]);
    assert_eq!(probe_program(Probe::BrewList), "brew");
    assert_eq!(probe_arguments(Probe::BrewList), vec!["list"]);
    assert_eq!(probe_program(Probe::Xdpyinfo), "xdpyinfo");
    assert_eq!(probe_arguments(Probe::Xdpyinfo), Vec::<&str>::new());
    assert_eq!(probe_program(Probe::SystemProfilerDisplays), "system_profiler");
    assert_eq!(probe_arguments(Probe::SystemProfilerDisplays), vec!["SPDisplaysDataType"]);
    assert_eq!(probe_program(Probe::Lspci), "lspci");
    assert_eq!(probe_arguments(Probe::Lspci), vec!["-mm"]);
    assert_eq!(probe_program(Probe::WmicVideoController), "wmic");
    assert_eq!(probe_arguments(Probe::WmicVideoController), vec!["path", "win32_VideoController", "get", "name"]);
}

#[test]
fn next_probe_stops_at_the_first_command_that_ran() {
    let fact = ProbedFact::Packages;
    assert_eq!(next_probe(fact, Platform::Linux, &vec![]), Some(Probe::DpkgList));
    assert_eq!(next_probe(fact, Platform::Linux, &vec![None]), Some(Probe::PacmanList));
    assert_eq!(next_probe(fact, Platform::Linux, &vec![some("12")]), None);
    assert_eq!(next_probe(fact, Platform::Linux, &vec![some("")]), None);
    assert_eq!(next_probe(fact, Platform::Linux, &vec![None, None]), None);
    assert_eq!(next_probe(fact, Platform::MacOs, &vec![]), Some(Probe::BrewList));
    assert_eq!(next_probe(fact, Platform::MacOs, &vec![None]), None);
    assert_eq!(next_probe(fact, Platform::Windows, &vec![]), None);
    assert_eq!(next_probe(ProbedFact::Gpu, Platform::Windows, &vec![]), Some(Probe::WmicVideoController));
    assert_eq!(next_probe(ProbedFact::Resolution, Platform::Other, &vec![]), None);
}

#[test]
fn gather_fills_every_fact() {
    let facts = gather_system_info(&linux_readings());
    let expected = [
        ("username", "alice"),
        ("hostname", "box"),
        ("os", "Debian GNU/Linux Linux 12 Debian GNU/Linux"),
        ("kernel", "6.1.0-18-amd64"),
        ("uptime", "1 days, 2 hours, 3 mins"),
        ("shell", "/bin/bash"),
        ("terminal", "xterm-256color"),
        ("cpu", "Neko 9000 (8 cores)"),
        ("memory", "2048MiB / 8192MiB"),
        ("gpu", "Intel Corporation"),
        ("packages", "5 (dpkg)"),
        ("resolution", "1920x1080"),
        ("de", "GNOME"),
        ("wm", "gnome"),
        ("wm_theme", "Unknown"),
        ("storage", "sdb1: 63MiB / 64MiB"),
    ];
    for (key, text) in expected {
        assert_eq!(facts.get(key), Some(&text.to_string()), "{}", key);
    }
    assert_eq!(facts.get("host"), None);
}

#[test]
fn gather_without_disks_has_no_storage_fact() {
    let mut readings = linux_readings();
    readings.disks = vec![];
    let facts = gather_system_info(&readings);
    assert_eq!(facts.get("storage"), None);
    assert_eq!(facts.text_of("storage"), "Unknown");
}

#[test]
fn gather_with_nothing_known() {
    let readings = HostReadings {
        platform: Platform::Other,
        os_name: None,
        os_version: None,
        kernel_version: None,
        uptime: 0,
        shell: None,
        comspec: None,
        term_program: None,
        term: None,
        cpu_brand: None,
        cpu_cores: 0,
        memory: Capacity::new(0, 0).unwrap(),
        host_name: None,
        username: "nobody".to_string(),
        current_desktop: None,
        session_desktop: None,
        gpu_outcomes: vec![],
        package_outcomes: vec![],
        resolution_outcomes: vec![],
        disks: vec![],
    };
    let facts = gather_system_info(&readings);
    for key in ["hostname", "kernel", "shell", "terminal", "gpu", "packages", "resolution", "de", "wm", "wm_theme"] {
        assert_eq!(facts.get(key), Some(&"Unknown".to_string()), "{}", key);
    }
    assert_eq!(facts.text_of("os"), "Unknown");
    assert_eq!(facts.text_of("cpu"), "Unknown");
    assert_eq!(facts.text_of("memory"), "0MiB / 0MiB");
    assert_eq!(facts.text_of("uptime"), "0 days, 0 hours, 0 mins");
    assert_eq!(facts.text_of("username"), "nobody");
}

#[test]
fn gather_on_a_mac_and_on_windows() {
    let mut readings = linux_readings();
    readings.platform = Platform::MacOs;
    readings.shell = None;
    readings.comspec = some("cmd.exe");
    readings.term_program = some("iTerm.app");
    readings.package_outcomes = vec![some("git\nzsh\n")];
    readings.gpu_outcomes = vec![some("      Chipset Model: Apple M1\n")];
    readings.resolution_outcomes = vec![some("          Resolution: 2560 x 1600 Retina\n")];
    let facts = gather_system_info(&readings);
    assert_eq!(facts.text_of("shell"), "cmd.exe");
    assert_eq!(facts.text_of("terminal"), "iTerm.app");
    assert_eq!(facts.text_of("packages"), "2 (brew)");
    assert_eq!(facts.text_of("gpu"), "Apple M1");
    assert_eq!(facts.text_of("resolution"), "2560 x 1600 Retina");
    assert_eq!(facts.text_of("de"), "Aqua");
    assert_eq!(facts.text_of("wm"), "Quartz Compositor");
    assert_eq!(facts.text_of("wm_theme"), "Blue (Dark)");
    readings.platform = Platform::Windows;
    readings.gpu_outcomes = vec![some("Name\r\nNeko GPU\r\n")];
    let facts = gather_system_info(&readings);
    assert_eq!(facts.text_of("gpu"), "Neko GPU");
    assert_eq!(facts.text_of("packages"), "Unknown");
    assert_eq!(facts.text_of("resolution"), "Unknown");
    assert_eq!(facts.text_of("de"), "Unknown");
}

#[test]
fn package_manager_that_is_not_there_gives_unknown() {
    let dpkg = command_outcome(false, "".to_string());
    let pacman = command_outcome(false, "error: failed to initialize alpm library\n".to_string());
    assert_eq!(get_package_count(Platform::Linux, &vec![None, None]), "Unknown");
    assert_eq!(get_package_count(Platform::Linux, &vec![dpkg.clone(), pacman]), "Unknown");
    assert_eq!(next_probe(ProbedFact::Packages, Platform::Linux, &vec![dpkg]), Some(Probe::PacmanList));
    let mut readings = linux_readings();
    readings.package_outcomes = vec![None, None];
    readings.gpu_outcomes = vec![None];
    readings.resolution_outcomes = vec![None];
    let facts = gather_system_info(&readings);
    assert_eq!(facts.text_of("packages"), "Unknown");
    assert_eq!(facts.text_of("gpu"), "Unknown");
    assert_eq!(facts.text_of("resolution"), "Unknown");
    assert_eq!(facts.text_of("kernel"), "6.1.0-18-amd64");
    assert_eq!(facts.text_of("cpu"), "Neko 9000 (8 cores)");
}

#[test]
fn command_that_ended_with_an_error_tells_nothing() {
    assert_eq!(command_outcome(true, "x\n".to_string()), some("x\n"));
    assert_eq!(command_outcome(true, "".to_string()), some(""));
    assert_eq!(command_outcome(false, "x\n".to_string()), None);
    assert_eq!(command_outcome(false, "".to_string()), None);
}

#[test]
fn disk_needs_the_free_space_to_fit_in_whole_mib() {
    let mib = 1024 * 1024;
    assert!(DiskUsage::new("a".to_string(), mib, 2 * mib).is_none());
    assert!(DiskUsage::new("a".to_string(), 0, mib).is_none());
    let close = DiskUsage::new("a".to_string(), mib, 2 * mib - 1).unwrap();
    assert_eq!(get_disk_info(&close), "a: 0MiB / 1MiB");
    let small = DiskUsage::new("b".to_string(), 10, 20).unwrap();
    assert_eq!(get_disk_info(&small), "b: 0MiB / 0MiB");
}

#[test]
fn facts_that_cannot_be_determined_are_unknown() {
    let mut readings = linux_readings();
    readings.os_name = None;
    readings.os_version = None;
    readings.kernel_version = None;
    readings.cpu_brand = None;
    readings.cpu_cores = 0;
    readings.host_name = None;
    readings.shell = None;
    readings.term = None;
    readings.current_desktop = None;
    readings.session_desktop = None;
    let facts = gather_system_info(&readings);
    for key in ["os", "kernel", "cpu", "hostname", "shell", "terminal", "de", "wm", "wm_theme"] {
        assert_eq!(facts.get(key), Some(&"Unknown".to_string()), "{}", key);
    }
}
