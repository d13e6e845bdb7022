//! The facts about the host. What the operating system and the platform's
//! inspection commands report is handed in as plain values; this module
//! turns those readings into the texts of the facts.

use crate::facts::{FactMap, UNKNOWN};
use crate::text::{
    begins_with, contains, decimal, decimal_string, from_chars, has_within, lines, lines_of,
    remove_all, split, split_chars, starts_with, strip_chars, to_chars, trim, views, without_all,
    words, words_of, CharClass,
};
use vstd::prelude::*;
use vstd::string::*;

verus! {

/// The platform that the program runs on.
#[derive(Clone, Copy, Debug, PartialEq, Eq, Structural)]
pub enum Platform {
    Linux,
    MacOs,
    Windows,
    /// Any other platform.
    Other,
}

/// An inspection command of a platform.
#[derive(Clone, Copy, Debug, PartialEq, Eq, Structural)]
pub enum Probe {
    /// Lists the packages of `dpkg`.
    DpkgList,
    /// Lists the packages of `pacman`.
    PacmanList,
    /// Lists the packages of Homebrew.
    BrewList,
    /// Describes the X display.
    Xdpyinfo,
    /// Describes the displays of a Mac.
    SystemProfilerDisplays,
    /// Lists the PCI devices in machine-readable form.
    Lspci,
    /// Names the video controllers of a Windows machine.
    WmicVideoController,
}

/// The text of `reading`, or the text that stands for an unknown fact where
/// there is no reading.
pub open spec fn text_or_unknown(reading: Option<String>) -> Seq<char> {
    match reading {
        Some(text) => text@,
        None => UNKNOWN@,
    }
}

/// The text of `reading`, or the text that stands for an unknown fact.
pub fn reading_or_unknown(reading: &Option<String>) -> (text: String)
    ensures
        text@ == text_or_unknown(*reading),
{
    match reading {
        Some(text) => text.clone(),
        None => UNKNOWN.to_owned(),
    }
}

/// The theme of the window manager on `platform`.
pub open spec fn wm_theme(platform: Platform) -> Seq<char> {
    if platform == Platform::MacOs {
        "Blue (Dark)"@
    } else {
        UNKNOWN@
    }
}

/// The theme of the window manager on `platform`.
pub fn get_wm_theme(platform: Platform) -> (theme: String)
    ensures
        theme@ == wm_theme(platform),
{
    match platform {
        Platform::MacOs => "Blue (Dark)".to_owned(),
        _ => UNKNOWN.to_owned(),
    }
}

/// The desktop environment on `platform`: on Linux what the variable
/// `XDG_CURRENT_DESKTOP` holds, if it is set.
pub open spec fn desktop_environment(platform: Platform, current_desktop: Option<String>) -> Seq<
    char,
> {
    match platform {
        Platform::Linux => text_or_unknown(current_desktop),
        Platform::MacOs => "Aqua"@,
        _ => UNKNOWN@,
    }
}

/// The desktop environment on `platform`, where `current_desktop` is what
/// the variable `XDG_CURRENT_DESKTOP` holds, if it is set.
pub fn get_desktop_environment(platform: Platform, current_desktop: &Option<String>) -> (de: String)
    ensures
        de@ == desktop_environment(platform, *current_desktop),
{
    match platform {
        Platform::Linux => reading_or_unknown(current_desktop),
        Platform::MacOs => "Aqua".to_owned(),
        _ => UNKNOWN.to_owned(),
    }
}

/// The window manager on `platform`: on Linux what the variable
/// `XDG_SESSION_DESKTOP` holds, if it is set.
pub open spec fn window_manager(platform: Platform, session_desktop: Option<String>) -> Seq<char> {
    match platform {
        Platform::Linux => text_or_unknown(session_desktop),
        Platform::MacOs => "Quartz Compositor"@,
        _ => UNKNOWN@,
    }
}

/// The window manager on `platform`, where `session_desktop` is what the
/// variable `XDG_SESSION_DESKTOP` holds, if it is set.
pub fn get_window_manager(platform: Platform, session_desktop: &Option<String>) -> (wm: String)
    ensures
        wm@ == window_manager(platform, *session_desktop),
{
    match platform {
        Platform::Linux => reading_or_unknown(session_desktop),
        Platform::MacOs => "Quartz Compositor".to_owned(),
        _ => UNKNOWN.to_owned(),
    }
}

/// A way to read a fact off one line of what a command printed.
#[derive(Clone, Copy, Debug, PartialEq, Eq, Structural)]
pub enum LineRule {
    /// The size of the screen in a line of `xdpyinfo`.
    Dimensions,
    /// The resolution in a line of `system_profiler`.
    Resolution,
    /// The graphics chipset in a line of `system_profiler`.
    Chipset,
    /// The graphics device in a line of `lspci -mm`.
    Controller,
}

/// What follows `tag` in a line that begins with it, white space at the
/// ends of the line aside: the line without its occurrences of `tag`, and
/// without white space at either end.
pub open spec fn tagged(line: Seq<char>, tag: Seq<char>) -> Option<Seq<char>> {
    if starts_with(trim(line), tag) {
        Some(trim(remove_all(trim(line), tag)))
    } else {
        None
    }
}

/// The fact that `rule` reads off `line`, if the line holds one.
pub open spec fn line_reading(rule: LineRule, line: Seq<char>) -> Option<Seq<char>> {
    match rule {
        LineRule::Dimensions => if contains(line, "dimensions:"@) && words(line).len() >= 2 {
            Some(words(line)[1])
        } else {
            None
        },
        LineRule::Resolution => tagged(line, "Resolution:"@),
        LineRule::Chipset => tagged(line, "Chipset Model:"@),
        LineRule::Controller => if (contains(line, "VGA compatible controller"@) || contains(
            line,
            "3D controller"@,
        )) && split(line, CharClass::Is('"')).len() >= 4 {
            Some(split(line, CharClass::Is('"'))[3])
        } else {
            None
        },
    }
}

/// The fact that `rule` reads off the first of `lines` that holds one.
pub open spec fn first_reading(lines: Seq<Seq<char>>, rule: LineRule) -> Option<Seq<char>>
    decreases lines.len(),
{
    if lines.len() == 0 {
        None
    } else if line_reading(rule, lines[0]) is Some {
        line_reading(rule, lines[0])
    } else {
        first_reading(lines.drop_first(), rule)
    }
}

/// Whether a command printed nothing but white space.
pub open spec fn is_blank(output: Seq<char>) -> bool {
    trim(output).len() == 0
}

/// The fact that `rule` reads off the text `output` of a command, or the
/// text that stands for an unknown fact where the command printed nothing
/// or no line holds the fact.
pub open spec fn output_reading(output: Seq<char>, rule: LineRule) -> Seq<char> {
    if is_blank(output) {
        UNKNOWN@
    } else {
        match first_reading(lines(output), rule) {
            Some(text) => text,
            None => UNKNOWN@,
        }
    }
}

fn read_tagged(line: &[char], tag: &str) -> (found: Option<Vec<char>>)
    ensures
        match found {
            Some(text) => tagged(line@, tag@) == Some(text@),
            None => tagged(line@, tag@) is None,
        },
{
    let tag_chars = to_chars(tag);
    let trimmed = strip_chars(line, CharClass::Space);
    if begins_with(trimmed.as_slice(), tag_chars.as_slice()) {
        let rest = without_all(trimmed.as_slice(), tag_chars.as_slice());
        Some(strip_chars(rest.as_slice(), CharClass::Space))
    } else {
        None
    }
}

/// The fact that `rule` reads off `line`, if the line holds one.
pub fn read_line(rule: LineRule, line: &[char]) -> (found: Option<Vec<char>>)
    ensures
        match found {
            Some(text) => line_reading(rule, line@) == Some(text@),
            None => line_reading(rule, line@) is None,
        },
{
    match rule {
        LineRule::Dimensions => {
            let mark = to_chars("dimensions:");
            if has_within(line, mark.as_slice()) {
                let parts = words_of(line);
                if parts.len() >= 2 {
                    assert(views(parts@)[1] == parts@[1]@);
                    return Some(parts[1].clone());
                }
            }
            None
        },
        LineRule::Resolution => read_tagged(line, "Resolution:"),
        LineRule::Chipset => read_tagged(line, "Chipset Model:"),
        LineRule::Controller => {
            let vga = to_chars("VGA compatible controller");
            let three_d = to_chars("3D controller");
            if has_within(line, vga.as_slice()) || has_within(line, three_d.as_slice()) {
                let parts = split_chars(line, CharClass::Is('"'));
                if parts.len() >= 4 {
                    assert(views(parts@)[3] == parts@[3]@);
                    return Some(parts[3].clone());
                }
            }
            None
        },
    }
}

/// Whether a command printed nothing but white space.
pub fn printed_nothing(output: &[char]) -> (blank: bool)
    ensures
        blank == is_blank(output@),
{
    strip_chars(output, CharClass::Space).len() == 0
}

/// The fact that `rule` reads off the text `output` of a command, or the
/// text that stands for an unknown fact where the command printed nothing
/// or no line holds the fact.
pub fn read_output(output: &str, rule: LineRule) -> (text: String)
    ensures
        text@ == output_reading(output@, rule),
{
    let chars = to_chars(output);
    if printed_nothing(chars.as_slice()) {
        return UNKNOWN.to_owned();
    }
    let all = lines_of(chars.as_slice());
    let ghost spec_lines = lines(output@);
    let mut i: usize = 0;
    assert(spec_lines.skip(0) == spec_lines);
    while i < all.len()
        invariant
            i <= all.len(),
            views(all@) == spec_lines,
            spec_lines == lines(output@),
            !is_blank(output@),
            first_reading(spec_lines, rule) == first_reading(spec_lines.skip(i as int), rule),
        decreases all.len() - i,
    {
        assert(spec_lines.skip(i as int)[0] == all@[i as int]@) by {
            assert(views(all@)[i as int] == all@[i as int]@);
        }
        assert(spec_lines.skip(i as int).drop_first() == spec_lines.skip(i + 1));
        match read_line(rule, all[i].as_slice()) {
            Some(text) => {
                return from_chars(text.as_slice());
            },
            None => {},
        }
        i = i + 1;
    }
    UNKNOWN.to_owned()
}

/// A fact that is read off what inspection commands print.
#[derive(Clone, Copy, Debug, PartialEq, Eq, Structural)]
pub enum ProbedFact {
    /// The number of installed packages.
    Packages,
    /// The resolution of the screen.
    Resolution,
    /// The graphics device.
    Gpu,
}

/// The commands that can tell `fact` on `platform`, in the order in which
/// they are tried.
pub open spec fn probes(fact: ProbedFact, platform: Platform) -> Seq<Probe> {
    match (fact, platform) {
        (ProbedFact::Packages, Platform::Linux) => seq![Probe::DpkgList, Probe::PacmanList],
        (ProbedFact::Packages, Platform::MacOs) => seq![Probe::BrewList],
        (ProbedFact::Resolution, Platform::Linux) => seq![Probe::Xdpyinfo],
        (ProbedFact::Resolution, Platform::MacOs) => seq![Probe::SystemProfilerDisplays],
        (ProbedFact::Gpu, Platform::Linux) => seq![Probe::Lspci],
        (ProbedFact::Gpu, Platform::MacOs) => seq![Probe::SystemProfilerDisplays],
        (ProbedFact::Gpu, Platform::Windows) => seq![Probe::WmicVideoController],
        _ => Seq::<Probe>::empty(),
    }
}

/// The commands that can tell `fact` on `platform`, in the order in which
/// they are tried.
pub fn probes_for(fact: ProbedFact, platform: Platform) -> (list: Vec<Probe>)
    ensures
        list@ == probes(fact, platform),
{
    let mut list: Vec<Probe> = Vec::new();
    match (fact, platform) {
        (ProbedFact::Packages, Platform::Linux) => {
            list.push(Probe::DpkgList);
            list.push(Probe::PacmanList);
        },
        (ProbedFact::Packages, Platform::MacOs) => {
            list.push(Probe::BrewList);
        },
        (ProbedFact::Resolution, Platform::Linux) => {
            list.push(Probe::Xdpyinfo);
        },
        (ProbedFact::Resolution, Platform::MacOs) => {
            list.push(Probe::SystemProfilerDisplays);
        },
        (ProbedFact::Gpu, Platform::Linux) => {
            list.push(Probe::Lspci);
        },
        (ProbedFact::Gpu, Platform::MacOs) => {
            list.push(Probe::SystemProfilerDisplays);
        },
        (ProbedFact::Gpu, Platform::Windows) => {
            list.push(Probe::WmicVideoController);
        },
        _ => {},
    }
    assert(list@ =~= probes(fact, platform));
    list
}

/// The program that `probe` runs.
pub open spec fn program(probe: Probe) -> Seq<char> {
    match probe {
        Probe::DpkgList => "dpkg"@,
        Probe::PacmanList => "pacman"@,
        Probe::BrewList => "brew"@,
        Probe::Xdpyinfo => "xdpyinfo"@,
        Probe::SystemProfilerDisplays => "system_profiler"@,
        Probe::Lspci => "lspci"@,
        Probe::WmicVideoController => "wmic"@,
    }
}

/// The arguments that `probe` gives to its program.
pub open spec fn arguments(probe: Probe) -> Seq<Seq<char>> {
    match probe {
        Probe::DpkgList => seq!["--list"@],
        Probe::PacmanList => seq!["-Q"@],
        Probe::BrewList => seq!["list"@],
        Probe::Xdpyinfo => Seq::<Seq<char>>::empty(),
        Probe::SystemProfilerDisplays => seq!["SPDisplaysDataType"@],
        Probe::Lspci => seq!["-mm"@],
        Probe::WmicVideoController => seq!["path"@, "win32_VideoController"@, "get"@, "name"@],
    }
}

/// The program that `probe` runs.
pub fn probe_program(probe: Probe) -> (name: &'static str)
    ensures
        name@ == program(probe),
{
    match probe {
        Probe::DpkgList => "dpkg",
        Probe::PacmanList => "pacman",
        Probe::BrewList => "brew",
        Probe::Xdpyinfo => "xdpyinfo",
        Probe::SystemProfilerDisplays => "system_profiler",
        Probe::Lspci => "lspci",
        Probe::WmicVideoController => "wmic",
    }
}

/// The arguments that `probe` gives to its program.
pub fn probe_arguments(probe: Probe) -> (list: Vec<&'static str>)
    ensures
        list@.map_values(|a: &'static str| a@) == arguments(probe),
{
    let mut list: Vec<&'static str> = Vec::new();
    match probe {
        Probe::DpkgList => {
            list.push("--list");
        },
        Probe::PacmanList => {
            list.push("-Q");
        },
        Probe::BrewList => {
            list.push("list");
        },
        Probe::Xdpyinfo => {},
        Probe::SystemProfilerDisplays => {
            list.push("SPDisplaysDataType");
        },
        Probe::Lspci => {
            list.push("-mm");
        },
        Probe::WmicVideoController => {
            list.push("path");
            list.push("win32_VideoController");
            list.push("get");
            list.push("name");
        },
    }
    assert(list@.map_values(|a: &'static str| a@) =~= arguments(probe));
    list
}

/// What a command told: what it printed, if it ended without an error.
pub open spec fn told(ended_well: bool, printed: String) -> Option<String> {
    if ended_well {
        Some(printed)
    } else {
        None
    }
}

/// The outcome of a command that could be run: what it printed, or `None`
/// where it ended with an error. A command that failed tells as little as
/// one that could not be run.
pub fn command_outcome(ended_well: bool, printed: String) -> (outcome: Option<String>)
    ensures
        outcome == told(ended_well, printed),
{
    if ended_well {
        Some(printed)
    } else {
        None
    }
}

/// What the command `k` of a fact printed, if it was tried, could be run
/// and ended without an error.
pub open spec fn outcome(outcomes: Seq<Option<String>>, k: int) -> Option<Seq<char>> {
    if 0 <= k < outcomes.len() {
        match outcomes[k] {
            Some(text) => Some(text@),
            None => None,
        }
    } else {
        None
    }
}

/// Whether one of the commands that were tried could be run and ended
/// without an error.
pub open spec fn any_ran(outcomes: Seq<Option<String>>) -> bool {
    exists|k: int| 0 <= k < outcomes.len() && #[trigger] outcomes[k] is Some
}

/// The command to run next for a fact with the commands `list`, after the
/// `outcomes` of those tried so far: the next of the list, unless one of
/// them ran or none is left.
pub open spec fn next(list: Seq<Probe>, outcomes: Seq<Option<String>>) -> Option<Probe> {
    if any_ran(outcomes) || outcomes.len() >= list.len() {
        None
    } else {
        Some(list[outcomes.len() as int])
    }
}

fn outcome_at(outcomes: &Vec<Option<String>>, k: usize) -> (found: Option<&String>)
    ensures
        match found {
            Some(text) => outcome(outcomes@, k as int) == Some(text@),
            None => outcome(outcomes@, k as int) is None,
        },
{
    if k < outcomes.len() {
        outcomes[k].as_ref()
    } else {
        None
    }
}

/// The command to run next for `fact` on `platform`, after the `outcomes`
/// of those tried so far (`None` for one that could not be run or ended
/// with an error), or `None` where the fact is settled.
pub fn next_probe(fact: ProbedFact, platform: Platform, outcomes: &Vec<Option<String>>) -> (probe:
    Option<Probe>)
    ensures
        probe == next(probes(fact, platform), outcomes@),
{
    let mut k: usize = 0;
    while k < outcomes.len()
        invariant
            k <= outcomes.len(),
            forall|j: int| 0 <= j < k ==> outcomes@[j] is None,
        decreases outcomes.len() - k,
    {
        if outcomes[k].is_some() {
            return None;
        }
        k = k + 1;
    }
    let list = probes_for(fact, platform);
    if outcomes.len() >= list.len() {
        None
    } else {
        Some(list[outcomes.len()])
    }
}

/// The number of lines that a command printed, followed by `suffix`; the
/// text that stands for an unknown fact where the command printed nothing.
pub open spec fn line_count(output: Seq<char>, suffix: Seq<char>) -> Seq<char> {
    if is_blank(output) {
        UNKNOWN@
    } else {
        decimal(lines(output).len()) + suffix
    }
}

/// The number of installed packages: the number of lines that the package
/// manager printed, with its name. On Linux that is `dpkg`, or `pacman`
/// where `dpkg` could not be run or failed; on a Mac it is Homebrew.
pub open spec fn package_count(platform: Platform, outcomes: Seq<Option<String>>) -> Seq<char> {
    match platform {
        Platform::Linux => if outcome(outcomes, 0) is Some {
            line_count(outcome(outcomes, 0)->0, " (dpkg)"@)
        } else if outcome(outcomes, 1) is Some {
            line_count(outcome(outcomes, 1)->0, " (pacman)"@)
        } else {
            UNKNOWN@
        },
        Platform::MacOs => if outcome(outcomes, 0) is Some {
            line_count(outcome(outcomes, 0)->0, " (brew)"@)
        } else {
            UNKNOWN@
        },
        _ => UNKNOWN@,
    }
}

/// The resolution of the screen, read off what `xdpyinfo` printed on Linux
/// and off what `system_profiler` printed on a Mac.
pub open spec fn resolution(platform: Platform, outcomes: Seq<Option<String>>) -> Seq<char> {
    match platform {
        Platform::Linux => if outcome(outcomes, 0) is Some {
            output_reading(outcome(outcomes, 0)->0, LineRule::Dimensions)
        } else {
            UNKNOWN@
        },
        Platform::MacOs => if outcome(outcomes, 0) is Some {
            output_reading(outcome(outcomes, 0)->0, LineRule::Resolution)
        } else {
            UNKNOWN@
        },
        _ => UNKNOWN@,
    }
}

/// The second line of `output` without white space at its ends, or the
/// text that stands for an unknown fact where the command printed nothing
/// or there is no second line.
pub open spec fn second_line(output: Seq<char>) -> Seq<char> {
    if !is_blank(output) && lines(output).len() >= 2 {
        trim(lines(output)[1])
    } else {
        UNKNOWN@
    }
}

/// The graphics device, read off what `lspci` printed on Linux, off what
/// `system_profiler` printed on a Mac and off what `wmic` printed on
/// Windows.
pub open spec fn gpu_info(platform: Platform, outcomes: Seq<Option<String>>) -> Seq<char> {
    match platform {
        Platform::Linux => if outcome(outcomes, 0) is Some {
            output_reading(outcome(outcomes, 0)->0, LineRule::Controller)
        } else {
            UNKNOWN@
        },
        Platform::MacOs => if outcome(outcomes, 0) is Some {
            output_reading(outcome(outcomes, 0)->0, LineRule::Chipset)
        } else {
            UNKNOWN@
        },
        Platform::Windows => if outcome(outcomes, 0) is Some {
            second_line(outcome(outcomes, 0)->0)
        } else {
            UNKNOWN@
        },
        Platform::Other => UNKNOWN@,
    }
}

fn line_count_text(output: &str, suffix: &str) -> (text: String)
    ensures
        text@ == line_count(output@, suffix@),
{
    let chars = to_chars(output);
    if printed_nothing(chars.as_slice()) {
        return UNKNOWN.to_owned();
    }
    let all = lines_of(chars.as_slice());
    assert(views(all@).len() == all@.len());
    let mut text = decimal_string(all.len() as u64);
    text.append(suffix);
    text
}

fn second_line_text(output: &str) -> (text: String)
    ensures
        text@ == second_line(output@),
{
    let chars = to_chars(output);
    if printed_nothing(chars.as_slice()) {
        return UNKNOWN.to_owned();
    }
    let all = lines_of(chars.as_slice());
    assert(views(all@).len() == all@.len());
    if all.len() >= 2 {
        assert(views(all@)[1] == all@[1]@);
        let trimmed = strip_chars(all[1].as_slice(), CharClass::Space);
        return from_chars(trimmed.as_slice());
    }
    UNKNOWN.to_owned()
}

/// The number of installed packages on `platform`, from the `outcomes` of
/// the commands that were tried for it.
pub fn get_package_count(platform: Platform, outcomes: &Vec<Option<String>>) -> (count: String)
    ensures
        count@ == package_count(platform, outcomes@),
{
    match platform {
        Platform::Linux => {
            if let Some(output) = outcome_at(outcomes, 0) {
                return line_count_text(output.as_str(), " (dpkg)");
            }
            if let Some(output) = outcome_at(outcomes, 1) {
                return line_count_text(output.as_str(), " (pacman)");
            }
            UNKNOWN.to_owned()
        },
        Platform::MacOs => {
            if let Some(output) = outcome_at(outcomes, 0) {
                return line_count_text(output.as_str(), " (brew)");
            }
            UNKNOWN.to_owned()
        },
        _ => UNKNOWN.to_owned(),
    }
}

/// The resolution of the screen on `platform`, from the `outcomes` of the
/// commands that were tried for it.
pub fn get_resolution(platform: Platform, outcomes: &Vec<Option<String>>) -> (text: String)
    ensures
        text@ == resolution(platform, outcomes@),
{
    match platform {
        Platform::Linux => {
            if let Some(output) = outcome_at(outcomes, 0) {
                return read_output(output.as_str(), LineRule::Dimensions);
            }
            UNKNOWN.to_owned()
        },
        Platform::MacOs => {
            if let Some(output) = outcome_at(outcomes, 0) {
                return read_output(output.as_str(), LineRule::Resolution);
            }
            UNKNOWN.to_owned()
        },
        _ => UNKNOWN.to_owned(),
    }
}

/// The graphics device on `platform`, from the `outcomes` of the commands
/// that were tried for it.
pub fn get_gpu_info(platform: Platform, outcomes: &Vec<Option<String>>) -> (text: String)
    ensures
        text@ == gpu_info(platform, outcomes@),
{
    match platform {
        Platform::Linux => {
            if let Some(output) = outcome_at(outcomes, 0) {
                return read_output(output.as_str(), LineRule::Controller);
            }
            UNKNOWN.to_owned()
        },
        Platform::MacOs => {
            if let Some(output) = outcome_at(outcomes, 0) {
                return read_output(output.as_str(), LineRule::Chipset);
            }
            UNKNOWN.to_owned()
        },
        Platform::Windows => {
            if let Some(output) = outcome_at(outcomes, 0) {
                return second_line_text(output.as_str());
            }
            UNKNOWN.to_owned()
        },
        Platform::Other => UNKNOWN.to_owned(),
    }
}

/// The text of `fact` on `platform` after the `outcomes` of its commands.
pub open spec fn probed_text(
    fact: ProbedFact,
    platform: Platform,
    outcomes: Seq<Option<String>>,
) -> Seq<char> {
    match fact {
        ProbedFact::Packages => package_count(platform, outcomes),
        ProbedFact::Resolution => resolution(platform, outcomes),
        ProbedFact::Gpu => gpu_info(platform, outcomes),
    }
}

/// Once no command is left to run for a fact, the fact is settled: what
/// further commands would print changes nothing.
pub proof fn settled_fact_stays(
    fact: ProbedFact,
    platform: Platform,
    outcomes: Seq<Option<String>>,
    more: Seq<Option<String>>,
)
    requires
        next(probes(fact, platform), outcomes) is None,
    ensures
        probed_text(fact, platform, outcomes + more) == probed_text(fact, platform, outcomes),
{
    let all = outcomes + more;
    assert forall|k: int| 0 <= k < outcomes.len() implies outcome(all, k) == outcome(
        outcomes,
        k,
    ) by {
        assert(all[k] == outcomes[k]);
    }
    if any_ran(outcomes) {
        let j = choose|j: int| 0 <= j < outcomes.len() && #[trigger] outcomes[j] is Some;
        assert(outcome(outcomes, j) is Some);
        if j >= 1 {
            assert(outcome(all, 0) == outcome(outcomes, 0));
        }
        if j >= 2 {
            assert(outcome(all, 1) == outcome(outcomes, 1));
        }
    } else {
        assert(outcomes.len() >= probes(fact, platform).len());
    }
}

/// Whether a command told nothing: it could not be run, it ended with an
/// error, or it printed nothing but white space.
pub open spec fn told_nothing(outcome: Option<String>) -> bool {
    match outcome {
        Some(output) => is_blank(output@),
        None => true,
    }
}

/// Where each command of a fact could not be run, failed or printed
/// nothing, the fact is unknown, on every platform.
pub proof fn failed_probes_give_unknown(platform: Platform, outcomes: Seq<Option<String>>)
    requires
        forall|k: int| 0 <= k < outcomes.len() ==> told_nothing(#[trigger] outcomes[k]),
    ensures
        package_count(platform, outcomes) == UNKNOWN@,
        resolution(platform, outcomes) == UNKNOWN@,
        gpu_info(platform, outcomes) == UNKNOWN@,
{
    if 0 < outcomes.len() {
        assert(told_nothing(outcomes[0]));
    }
    if 1 < outcomes.len() {
        assert(told_nothing(outcomes[1]));
    }
}

/// An amount of memory and the part of it that is free: the free part is
/// never more than the whole.
#[derive(Clone, Copy, Debug)]
pub struct Capacity {
    total: u64,
    available: u64,
}

impl Capacity {
    #[verifier::type_invariant]
    spec fn free_part_fits(self) -> bool {
        self.available <= self.total
    }

    /// The whole amount.
    pub closed spec fn total(self) -> nat {
        self.total as nat
    }

    /// The free part.
    pub closed spec fn available(self) -> nat {
        self.available as nat
    }

    /// The capacity of `total` units of which `available` are free, or
    /// `None` where more would be free than there are.
    pub fn new(total: u64, available: u64) -> (capacity: Option<Capacity>)
        ensures
            match capacity {
                Some(c) => available <= total && c.total() == total && c.available() == available,
                None => available > total,
            },
    {
        if available <= total {
            Some(Capacity { total, available })
        } else {
            None
        }
    }

    /// The whole amount.
    pub fn whole(&self) -> (units: u64)
        ensures
            units == self.total(),
    {
        self.total
    }

    /// The free part.
    pub fn free(&self) -> (units: u64)
        ensures
            units == self.available(),
            units <= self.total(),
    {
        proof {
            use_type_invariant(self);
        }
        self.available
    }
}

/// A disk: its name, its space and its free space in bytes. In whole MiB
/// the free space is never more than the space.
#[derive(Debug)]
pub struct DiskUsage {
    name: String,
    total_space: u64,
    available_space: u64,
}

impl DiskUsage {
    #[verifier::type_invariant]
    spec fn free_space_fits(self) -> bool {
        self.available_space / 1024 / 1024 <= self.total_space / 1024 / 1024
    }

    /// The name of the disk.
    pub closed spec fn name(self) -> Seq<char> {
        self.name@
    }

    /// The space of the disk in bytes.
    pub closed spec fn total_space(self) -> nat {
        self.total_space as nat
    }

    /// The free space of the disk in bytes.
    pub closed spec fn available_space(self) -> nat {
        self.available_space as nat
    }

    /// The disk `name` with `total_space` bytes of which `available_space`
    /// are free, or `None` where more whole MiB would be free than the disk
    /// has.
    pub fn new(name: String, total_space: u64, available_space: u64) -> (disk: Option<DiskUsage>)
        ensures
            disk is Some <==> available_space / 1024 / 1024 <= total_space / 1024 / 1024,
            disk is Some ==> disk->0.name() == name@ && disk->0.total_space() == total_space
                && disk->0.available_space() == available_space,
    {
        if available_space / 1024 / 1024 <= total_space / 1024 / 1024 {
            Some(DiskUsage { name, total_space, available_space })
        } else {
            None
        }
    }
}

/// The time since the host started, `seconds` long, in days, hours and
/// minutes.
pub open spec fn uptime_text(seconds: nat) -> Seq<char> {
    decimal(seconds / 86400) + " days, "@ + decimal((seconds % 86400) / 3600) + " hours, "@
        + decimal((seconds % 3600) / 60) + " mins"@
}

/// The memory in use and the whole memory, each a 1024th of its number of
/// bytes.
pub open spec fn memory_text(memory: Capacity) -> Seq<char> {
    decimal(((memory.total() - memory.available()) / 1024) as nat) + "MiB / "@ + decimal(
        memory.total() / 1024,
    ) + "MiB"@
}

/// The name of a disk, its space in use and its whole space, in MiB. The
/// space in use is the whole space in MiB less the free space in MiB.
pub open spec fn storage_text(disk: DiskUsage) -> Seq<char> {
    disk.name() + ": "@ + decimal(
        (disk.total_space() / 1024 / 1024 - disk.available_space() / 1024 / 1024) as nat,
    ) + "MiB / "@ + decimal(disk.total_space() / 1024 / 1024) + "MiB"@
}

/// The operating system: its name and its version, where one of the two
/// is known; the text that stands for an unknown fact where neither is.
pub open spec fn os_text(name: Option<String>, version: Option<String>) -> Seq<char> {
    if name is None && version is None {
        UNKNOWN@
    } else {
        text_or_unknown(name) + " "@ + text_or_unknown(version)
    }
}

/// The processor: the brand of the first one and the number of cores; the
/// text that stands for an unknown fact where there is no brand to read.
pub open spec fn cpu_text(brand: Option<String>, cores: nat) -> Seq<char> {
    match brand {
        Some(text) => text@ + " ("@ + decimal(cores) + " cores)"@,
        None => UNKNOWN@,
    }
}

/// The first of two readings that is there, or the text that stands for an
/// unknown fact.
pub open spec fn first_or_unknown(first: Option<String>, second: Option<String>) -> Seq<char> {
    match first {
        Some(text) => text@,
        None => text_or_unknown(second),
    }
}

/// What was read from the host: from the operating system, from the
/// environment and from the inspection commands of the platform.
pub struct HostReadings {
    pub platform: Platform,
    /// The name of the operating system.
    pub os_name: Option<String>,
    /// The long version of the operating system.
    pub os_version: Option<String>,
    pub kernel_version: Option<String>,
    /// The seconds since the host started.
    pub uptime: u64,
    /// The variable `SHELL`.
    pub shell: Option<String>,
    /// The variable `ComSpec`.
    pub comspec: Option<String>,
    /// The variable `TERM_PROGRAM`.
    pub term_program: Option<String>,
    /// The variable `TERM`.
    pub term: Option<String>,
    /// The brand of the first processor.
    pub cpu_brand: Option<String>,
    pub cpu_cores: usize,
    /// The memory in bytes.
    pub memory: Capacity,
    pub host_name: Option<String>,
    pub username: String,
    /// The variable `XDG_CURRENT_DESKTOP`.
    pub current_desktop: Option<String>,
    /// The variable `XDG_SESSION_DESKTOP`.
    pub session_desktop: Option<String>,
    /// What the commands for the graphics device printed, in the order in
    /// which they were tried; `None` for one that could not be run or
    /// ended with an error.
    pub gpu_outcomes: Vec<Option<String>>,
    /// The same for the number of packages.
    pub package_outcomes: Vec<Option<String>>,
    /// The same for the resolution.
    pub resolution_outcomes: Vec<Option<String>>,
    pub disks: Vec<DiskUsage>,
}

/// The facts that follow from `readings`. The fact `storage` is that of
/// the last disk, and there is none where there is no disk.
pub open spec fn gathered(readings: HostReadings) -> Map<Seq<char>, Seq<char>> {
    let facts = map![
        "username"@ => readings.username@,
        "hostname"@ => text_or_unknown(readings.host_name),
        "os"@ => os_text(readings.os_name, readings.os_version),
        "kernel"@ => text_or_unknown(readings.kernel_version),
        "uptime"@ => uptime_text(readings.uptime as nat),
        "shell"@ => first_or_unknown(readings.shell, readings.comspec),
        "terminal"@ => first_or_unknown(readings.term_program, readings.term),
        "cpu"@ => cpu_text(readings.cpu_brand, readings.cpu_cores as nat),
        "memory"@ => memory_text(readings.memory),
        "gpu"@ => gpu_info(readings.platform, readings.gpu_outcomes@),
        "packages"@ => package_count(readings.platform, readings.package_outcomes@),
        "resolution"@ => resolution(readings.platform, readings.resolution_outcomes@),
        "de"@ => desktop_environment(readings.platform, readings.current_desktop),
        "wm"@ => window_manager(readings.platform, readings.session_desktop),
        "wm_theme"@ => wm_theme(readings.platform),
    ];
    if readings.disks@.len() > 0 {
        facts.insert("storage"@, storage_text(readings.disks@.last()))
    } else {
        facts
    }
}

/// The time since the host started, `seconds` long.
pub fn get_uptime(seconds: u64) -> (text: String)
    ensures
        text@ == uptime_text(seconds as nat),
{
    let mut text = decimal_string(seconds / 86400);
    text.append(" days, ");
    let hours = decimal_string((seconds % 86400) / 3600);
    text.append(hours.as_str());
    text.append(" hours, ");
    let minutes = decimal_string((seconds % 3600) / 60);
    text.append(minutes.as_str());
    text.append(" mins");
    text
}

/// The memory in use and the whole memory.
pub fn get_memory_info(memory: &Capacity) -> (text: String)
    ensures
        text@ == memory_text(*memory),
{
    let total = memory.whole();
    let available = memory.free();
    let mut text = decimal_string((total - available) / 1024);
    text.append("MiB / ");
    let whole = decimal_string(total / 1024);
    text.append(whole.as_str());
    text.append("MiB");
    text
}

/// The text of one disk.
pub fn get_disk_info(disk: &DiskUsage) -> (text: String)
    ensures
        text@ == storage_text(*disk),
{
    proof {
        use_type_invariant(disk);
    }
    let total_space = disk.total_space / 1024 / 1024;
    let available_space = disk.available_space / 1024 / 1024;
    let used_space = total_space - available_space;
    let mut text = disk.name.clone();
    text.append(": ");
    let used = decimal_string(used_space);
    text.append(used.as_str());
    text.append("MiB / ");
    let whole = decimal_string(total_space);
    text.append(whole.as_str());
    text.append("MiB");
    text
}

/// The texts of `disks`, in order.
pub fn get_storage_info(disks: &Vec<DiskUsage>) -> (storage_info: Vec<String>)
    ensures
        storage_info@.len() == disks@.len(),
        forall|i: int|
            0 <= i < disks@.len() ==> (#[trigger] storage_info@[i])@ == storage_text(disks@[i]),
{
    let mut storage_info: Vec<String> = Vec::new();
    let mut i: usize = 0;
    while i < disks.len()
        invariant
            i <= disks.len(),
            storage_info@.len() == i,
            forall|j: int| 0 <= j < i ==> (#[trigger] storage_info@[j])@ == storage_text(disks@[j]),
        decreases disks.len() - i,
    {
        let disk_info = get_disk_info(&disks[i]);
        storage_info.push(disk_info);
        i = i + 1;
    }
    storage_info
}

/// The operating system: its name and its version, or the text that
/// stands for an unknown fact where neither is known.
pub fn get_os(name: &Option<String>, version: &Option<String>) -> (text: String)
    ensures
        text@ == os_text(*name, *version),
{
    if name.is_none() && version.is_none() {
        return UNKNOWN.to_owned();
    }
    let mut text = reading_or_unknown(name);
    text.append(" ");
    let version_text = reading_or_unknown(version);
    text.append(version_text.as_str());
    text
}

/// The processor: the brand of the first one and the number of cores, or
/// the text that stands for an unknown fact where there is no brand.
pub fn get_cpu_info(brand: &Option<String>, cores: usize) -> (text: String)
    ensures
        text@ == cpu_text(*brand, cores as nat),
{
    match brand {
        Some(name) => {
            let mut text = name.clone();
            text.append(" (");
            let count = decimal_string(cores as u64);
            text.append(count.as_str());
            text.append(" cores)");
            text
        },
        None => UNKNOWN.to_owned(),
    }
}

/// The first of two readings that is there, or the text that stands for an
/// unknown fact.
pub fn first_reading_or_unknown(first: &Option<String>, second: &Option<String>) -> (text: String)
    ensures
        text@ == first_or_unknown(*first, *second),
{
    match first {
        Some(text) => text.clone(),
        None => reading_or_unknown(second),
    }
}

/// The facts about the host that follow from `readings`.
pub fn gather_system_info(readings: &HostReadings) -> (info_map: FactMap)
    ensures
        info_map@ == gathered(*readings),
{
    let mut info_map = FactMap::new();
    info_map.insert("username", readings.username.clone());
    info_map.insert("hostname", reading_or_unknown(&readings.host_name));
    info_map.insert("os", get_os(&readings.os_name, &readings.os_version));
    info_map.insert("kernel", reading_or_unknown(&readings.kernel_version));
    info_map.insert("uptime", get_uptime(readings.uptime));
    info_map.insert("shell", first_reading_or_unknown(&readings.shell, &readings.comspec));
    info_map.insert("terminal", first_reading_or_unknown(&readings.term_program, &readings.term));
    info_map.insert("cpu", get_cpu_info(&readings.cpu_brand, readings.cpu_cores));
    info_map.insert("memory", get_memory_info(&readings.memory));
    info_map.insert("gpu", get_gpu_info(readings.platform, &readings.gpu_outcomes));
    info_map.insert("packages", get_package_count(readings.platform, &readings.package_outcomes));
    info_map.insert(
        "resolution",
        get_resolution(readings.platform, &readings.resolution_outcomes),
    );
    info_map.insert(
        "de",
        get_desktop_environment(readings.platform, &readings.current_desktop),
    );
    info_map.insert("wm", get_window_manager(readings.platform, &readings.session_desktop));
    info_map.insert("wm_theme", get_wm_theme(readings.platform));
    let storage_info = get_storage_info(&readings.disks);
    let mut i: usize = 0;
    let ghost before = info_map@;
    while i < storage_info.len()
        invariant
            i <= storage_info.len(),
            storage_info@.len() == readings.disks@.len(),
            forall|j: int|
                0 <= j < readings.disks@.len() ==> (#[trigger] storage_info@[j])@ == storage_text(
                    readings.disks@[j],
                ),
            info_map@ == if i > 0 {
                before.insert("storage"@, storage_text(readings.disks@[i - 1]))
            } else {
                before
            },
        decreases storage_info.len() - i,
    {
        info_map.insert("storage", storage_info[i].clone());
        assert(before.insert("storage"@, storage_text(readings.disks@[i as int])) =~= (if i > 0 {
            before.insert("storage"@, storage_text(readings.disks@[i - 1]))
        } else {
            before
        }).insert("storage"@, storage_text(readings.disks@[i as int])));
        i = i + 1;
    }
    info_map
}

/// Whether nothing is there to read a fact from.
pub open spec fn both_missing(first: Option<String>, second: Option<String>) -> bool {
    first is None && second is None
}

/// A fact that cannot be determined is the text that stands for an unknown
/// fact, and nothing else: where the readings for it are missing, or where
/// each of its commands told nothing.
pub proof fn undetermined_facts_are_unknown(readings: HostReadings)
    ensures
        readings.host_name is None ==> gathered(readings)["hostname"@] == UNKNOWN@,
        readings.kernel_version is None ==> gathered(readings)["kernel"@] == UNKNOWN@,
        both_missing(readings.os_name, readings.os_version) ==> gathered(readings)["os"@]
            == UNKNOWN@,
        readings.cpu_brand is None ==> gathered(readings)["cpu"@] == UNKNOWN@,
        both_missing(readings.shell, readings.comspec) ==> gathered(readings)["shell"@]
            == UNKNOWN@,
        both_missing(readings.term_program, readings.term) ==> gathered(readings)["terminal"@]
            == UNKNOWN@,
        readings.current_desktop is None && readings.platform != Platform::MacOs ==> gathered(
            readings,
        )["de"@] == UNKNOWN@,
        readings.session_desktop is None && readings.platform != Platform::MacOs ==> gathered(
            readings,
        )["wm"@] == UNKNOWN@,
        readings.platform != Platform::MacOs ==> gathered(readings)["wm_theme"@] == UNKNOWN@,
        (forall|k: int|
            0 <= k < readings.gpu_outcomes@.len() ==> told_nothing(
                #[trigger] readings.gpu_outcomes@[k],
            )) ==> gathered(readings)["gpu"@] == UNKNOWN@,
        (forall|k: int|
            0 <= k < readings.package_outcomes@.len() ==> told_nothing(
                #[trigger] readings.package_outcomes@[k],
            )) ==> gathered(readings)["packages"@] == UNKNOWN@,
        (forall|k: int|
            0 <= k < readings.resolution_outcomes@.len() ==> told_nothing(
                #[trigger] readings.resolution_outcomes@[k],
            )) ==> gathered(readings)["resolution"@] == UNKNOWN@,
{
    reveal_strlit("username");
    reveal_strlit("hostname");
    reveal_strlit("os");
    reveal_strlit("kernel");
    reveal_strlit("uptime");
    reveal_strlit("shell");
    reveal_strlit("terminal");
    reveal_strlit("cpu");
    reveal_strlit("memory");
    reveal_strlit("gpu");
    reveal_strlit("packages");
    reveal_strlit("resolution");
    reveal_strlit("de");
    reveal_strlit("wm");
    reveal_strlit("wm_theme");
    reveal_strlit("storage");
    assert("username"@.len() == 8 && "username"@[0] == 'u');
    assert("hostname"@.len() == 8 && "hostname"@[0] == 'h');
    assert("os"@.len() == 2 && "os"@[0] == 'o');
    assert("kernel"@.len() == 6 && "kernel"@[0] == 'k');
    assert("uptime"@.len() == 6 && "uptime"@[0] == 'u');
    assert("shell"@.len() == 5 && "shell"@[0] == 's');
    assert("terminal"@.len() == 8 && "terminal"@[0] == 't');
    assert("cpu"@.len() == 3 && "cpu"@[0] == 'c');
    assert("memory"@.len() == 6 && "memory"@[0] == 'm');
    assert("gpu"@.len() == 3 && "gpu"@[0] == 'g');
    assert("packages"@.len() == 8 && "packages"@[0] == 'p');
    assert("resolution"@.len() == 10 && "resolution"@[0] == 'r');
    assert("de"@.len() == 2 && "de"@[0] == 'd');
    assert("wm"@.len() == 2 && "wm"@[0] == 'w');
    assert("wm_theme"@.len() == 8 && "wm_theme"@[0] == 'w');
    assert("storage"@.len() == 7 && "storage"@[0] == 's');
    if forall|k: int|
        0 <= k < readings.gpu_outcomes@.len() ==> told_nothing(
            #[trigger] readings.gpu_outcomes@[k],
        ) {
        failed_probes_give_unknown(readings.platform, readings.gpu_outcomes@);
    }
    if forall|k: int|
        0 <= k < readings.package_outcomes@.len() ==> told_nothing(
            #[trigger] readings.package_outcomes@[k],
        ) {
        failed_probes_give_unknown(readings.platform, readings.package_outcomes@);
    }
    if forall|k: int|
        0 <= k < readings.resolution_outcomes@.len() ==> told_nothing(
            #[trigger] readings.resolution_outcomes@[k],
        ) {
        failed_probes_give_unknown(readings.platform, readings.resolution_outcomes@);
    }
}

} // verus!
