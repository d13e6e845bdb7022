//! The information lines: which facts are shown, in which order and under
//! which labels, and the text of each line as the terminal gets it.

use crate::config::{
    absent_toggle_shows, config_value, is_on, shows, toggle_is_on, with_defaults, Config,
};
use crate::facts::{fact, FactMap};
use crate::paint::{is_label_paint, paint_label, LabelColor};
use crate::text::{lower_string, to_lower, to_upper, upper_string};
use vstd::prelude::*;
use vstd::string::*;

verus! {

/// One line of information.
#[derive(Debug)]
pub enum InfoLine {
    /// The user, alone or with the host: one text, coloured as a whole.
    Banner { text: String, color: LabelColor },
    /// A fact: a coloured label and the text of the fact.
    Field { label: String, value: String, color: LabelColor },
}

/// An information line as a mathematical value.
pub enum LineView {
    Banner { text: Seq<char>, color: LabelColor },
    Field { label: Seq<char>, value: Seq<char>, color: LabelColor },
}

impl View for InfoLine {
    type V = LineView;

    open spec fn view(&self) -> LineView {
        match self {
            InfoLine::Banner { text, color } => LineView::Banner { text: text@, color: *color },
            InfoLine::Field { label, value, color } => LineView::Field {
                label: label@,
                value: value@,
                color: *color,
            },
        }
    }
}

/// The views of `lines`, in order.
pub open spec fn line_views(lines: Seq<InfoLine>) -> Seq<LineView> {
    lines.map_values(|line: InfoLine| line@)
}

/// The facts of the full display, each with its label, in the order in
/// which they are shown.
pub open spec fn full_table() -> Seq<(Seq<char>, Seq<char>)> {
    seq![
        ("os"@, "OS"@),
        ("host"@, "Host"@),
        ("kernel"@, "Kernel"@),
        ("uptime"@, "Uptime"@),
        ("packages"@, "Packages"@),
        ("shell"@, "Shell"@),
        ("resolution"@, "Resolution"@),
        ("de"@, "DE"@),
        ("wm"@, "WM"@),
        ("wm_theme"@, "WM Theme"@),
        ("terminal"@, "Terminal"@),
        ("cpu"@, "CPU"@),
        ("gpu"@, "GPU"@),
        ("memory"@, "Memory"@),
        ("storage"@, "Storage"@),
    ]
}

/// The facts of the minimal display, each labelled by its key.
pub open spec fn mini_table() -> Seq<(Seq<char>, Seq<char>)> {
    seq![("os"@, "os"@), ("cpu"@, "cpu"@), ("memory"@, "memory"@)]
}

/// The colour of the label of the fact `key`: the same for every fact.
pub open spec fn label_color(config: Config, key: Seq<char>) -> LabelColor {
    LabelColor::BrightCyan
}

/// The label as it is shown: in capitals where they are asked for; else as
/// it stands in the minimal display, and in small letters in the full one.
pub open spec fn shown_label(label: Seq<char>, use_caps: bool, is_mini: bool) -> Seq<char> {
    if use_caps {
        to_upper(label)
    } else if is_mini {
        label
    } else {
        to_lower(label)
    }
}

/// The lines of the facts of `table` that `config` lets be shown, in the
/// order of the table. A fact that `facts` does not hold is shown as
/// unknown.
pub open spec fn field_lines(
    table: Seq<(Seq<char>, Seq<char>)>,
    facts: Map<Seq<char>, Seq<char>>,
    config: Config,
    use_caps: bool,
    is_mini: bool,
) -> Seq<LineView>
    decreases table.len(),
{
    if table.len() == 0 {
        Seq::<LineView>::empty()
    } else {
        let before = field_lines(table.drop_last(), facts, config, use_caps, is_mini);
        let (key, label) = table.last();
        if shows(config, key) {
            before.push(
                LineView::Field {
                    label: shown_label(label, use_caps, is_mini),
                    value: fact(facts, key),
                    color: label_color(config, key),
                },
            )
        } else {
            before
        }
    }
}

/// The banner: the user and the host as one text where both are shown, the
/// user alone where the host is not, and no line where the user is not.
pub open spec fn banner_lines(facts: Map<Seq<char>, Seq<char>>, config: Config) -> Seq<LineView> {
    if !is_on(config.show_username) {
        Seq::<LineView>::empty()
    } else if is_on(config.show_hostname) {
        seq![
            LineView::Banner {
                text: fact(facts, "username"@) + "@"@ + fact(facts, "hostname"@),
                color: LabelColor::BrightCyan,
            },
        ]
    } else {
        seq![LineView::Banner { text: fact(facts, "username"@), color: LabelColor::BrightCyan }]
    }
}

/// The information lines: the banner, then the facts of the minimal or of
/// the full display.
pub open spec fn info_lines(
    facts: Map<Seq<char>, Seq<char>>,
    config: Config,
    use_caps: bool,
    is_mini: bool,
) -> Seq<LineView> {
    banner_lines(facts, config) + field_lines(
        if is_mini {
            mini_table()
        } else {
            full_table()
        },
        facts,
        config,
        use_caps,
        is_mini,
    )
}

/// Whether `out` is a fact as the terminal gets it: the coloured label, a
/// space and the text of the fact.
pub open spec fn is_field_text(
    out: Seq<char>,
    label: Seq<char>,
    value: Seq<char>,
    color: LabelColor,
) -> bool {
    exists|painted: Seq<char>|
        #![trigger is_label_paint(painted, label, color)]
        is_label_paint(painted, label, color) && out == painted + " "@ + value
}

/// Whether `out` is the text of `line` as the terminal gets it.
pub open spec fn is_line_text(out: Seq<char>, line: LineView) -> bool {
    match line {
        LineView::Banner { text, color } => is_label_paint(out, text, color),
        LineView::Field { label, value, color } => is_field_text(out, label, value, color),
    }
}

/// The colour of the label of the fact `key`.
pub fn get_label_color(config: &Config, key: &str) -> (color: LabelColor)
    ensures
        color == label_color(*config, key@),
{
    LabelColor::BrightCyan
}

/// The views of the keys and labels of `table`, in order.
pub open spec fn table_views(table: Seq<(&'static str, &'static str)>) -> Seq<
    (Seq<char>, Seq<char>),
> {
    table.map_values(|e: (&'static str, &'static str)| (e.0@, e.1@))
}

/// The facts of the full display, each with its label.
pub fn full_entries() -> (table: Vec<(&'static str, &'static str)>)
    ensures
        table_views(table@) == full_table(),
{
    let mut table: Vec<(&'static str, &'static str)> = Vec::new();
    table.push(("os", "OS"));
    table.push(("host", "Host"));
    table.push(("kernel", "Kernel"));
    table.push(("uptime", "Uptime"));
    table.push(("packages", "Packages"));
    table.push(("shell", "Shell"));
    table.push(("resolution", "Resolution"));
    table.push(("de", "DE"));
    table.push(("wm", "WM"));
    table.push(("wm_theme", "WM Theme"));
    table.push(("terminal", "Terminal"));
    table.push(("cpu", "CPU"));
    table.push(("gpu", "GPU"));
    table.push(("memory", "Memory"));
    table.push(("storage", "Storage"));
    assert(table_views(table@) =~= full_table());
    table
}

/// The facts of the minimal display, each labelled by its key.
pub fn mini_entries() -> (table: Vec<(&'static str, &'static str)>)
    ensures
        table_views(table@) == mini_table(),
{
    let mut table: Vec<(&'static str, &'static str)> = Vec::new();
    table.push(("os", "os"));
    table.push(("cpu", "cpu"));
    table.push(("memory", "memory"));
    assert(table_views(table@) =~= mini_table());
    table
}

/// The information lines for `info_map` under `config`: which facts are
/// shown, under which labels and in which colour.
pub fn plan_info_lines(info_map: &FactMap, config: &Config, use_caps: bool, is_mini: bool) -> (lines:
    Vec<InfoLine>)
    ensures
        line_views(lines@) == info_lines(info_map@, *config, use_caps, is_mini),
{
    let mut lines: Vec<InfoLine> = Vec::new();
    if toggle_is_on(config.show_username) {
        let mut text = info_map.text_of("username");
        if toggle_is_on(config.show_hostname) {
            let hostname = info_map.text_of("hostname");
            text.append("@");
            text.append(hostname.as_str());
        }
        lines.push(InfoLine::Banner { text, color: LabelColor::BrightCyan });
    }
    assert(line_views(lines@) =~= banner_lines(info_map@, *config));
    let table = if is_mini {
        mini_entries()
    } else {
        full_entries()
    };
    let ghost banner = banner_lines(info_map@, *config);
    let ghost spec_table = if is_mini {
        mini_table()
    } else {
        full_table()
    };
    let mut i: usize = 0;
    assert(spec_table.take(0) == Seq::<(Seq<char>, Seq<char>)>::empty());
    assert(banner + Seq::<LineView>::empty() == banner);
    while i < table.len()
        invariant
            i <= table.len(),
            table_views(table@) == spec_table,
            banner == banner_lines(info_map@, *config),
            line_views(lines@) == banner + field_lines(
                spec_table.take(i as int),
                info_map@,
                *config,
                use_caps,
                is_mini,
            ),
        decreases table.len() - i,
    {
        let (key, label) = table[i];
        let ghost before = field_lines(
            spec_table.take(i as int),
            info_map@,
            *config,
            use_caps,
            is_mini,
        );
        assert(spec_table.take(i + 1).drop_last() == spec_table.take(i as int));
        assert(spec_table.take(i + 1).last() == (key@, label@)) by {
            assert(table_views(table@)[i as int] == (key@, label@));
        }
        if toggle_is_on(config_value(config, key)) {
            let value = info_map.text_of(key);
            let color = get_label_color(config, key);
            let shown = if use_caps {
                upper_string(label)
            } else if is_mini {
                label.to_owned()
            } else {
                lower_string(label)
            };
            let ghost old_lines = lines@;
            let line = InfoLine::Field { label: shown, value, color };
            lines.push(line);
            assert(line_views(lines@) == line_views(old_lines).push(line@));
            assert((banner + before).push(line@) == banner + before.push(line@));
        }
        i = i + 1;
    }
    assert(spec_table.take(table.len() as int) == spec_table);
    lines
}

/// The text of a fact from its label as it was painted: the label, a
/// space and the text of the fact.
pub fn field_text(painted_label: &str, value: &str) -> (out: String)
    ensures
        out@ == painted_label@ + " "@ + value@,
{
    let mut out = painted_label.to_owned();
    out.append(" ");
    out.append(value);
    out
}

/// The text of `line` as the terminal gets it.
pub fn line_text(line: &InfoLine) -> (out: String)
    ensures
        is_line_text(out@, line@),
{
    match line {
        InfoLine::Banner { text, color } => paint_label(text.as_str(), *color),
        InfoLine::Field { label, value, color } => {
            let painted = paint_label(label.as_str(), *color);
            assert(is_label_paint(painted@, label@, *color));
            field_text(painted.as_str(), value.as_str())
        },
    }
}

/// The texts of the information lines for `info_map` under `config`, as
/// the terminal gets them.
pub fn build_info_lines(info_map: &FactMap, config: &Config, use_caps: bool, is_mini: bool) -> (info:
    Vec<String>)
    ensures
        info@.len() == info_lines(info_map@, *config, use_caps, is_mini).len(),
        forall|i: int|
            0 <= i < info@.len() ==> is_line_text(
                #[trigger] info@[i]@,
                info_lines(info_map@, *config, use_caps, is_mini)[i],
            ),
{
    let lines = plan_info_lines(info_map, config, use_caps, is_mini);
    let ghost planned = info_lines(info_map@, *config, use_caps, is_mini);
    let mut info: Vec<String> = Vec::new();
    let mut i: usize = 0;
    while i < lines.len()
        invariant
            i <= lines.len(),
            line_views(lines@) == planned,
            info@.len() == i,
            forall|j: int| 0 <= j < i ==> is_line_text(#[trigger] info@[j]@, planned[j]),
        decreases lines.len() - i,
    {
        let text = line_text(&lines[i]);
        assert(line_views(lines@)[i as int] == lines@[i as int]@);
        info.push(text);
        i = i + 1;
    }
    info
}

/// Whether `line` is the line of a fact of `table` that `config` lets be
/// shown.
pub open spec fn is_line_of_table(
    line: LineView,
    table: Seq<(Seq<char>, Seq<char>)>,
    facts: Map<Seq<char>, Seq<char>>,
    config: Config,
    use_caps: bool,
    is_mini: bool,
) -> bool {
    exists|j: int|
        #![trigger table[j]]
        0 <= j < table.len() && shows(config, table[j].0) && line == (LineView::Field {
            label: shown_label(table[j].1, use_caps, is_mini),
            value: fact(facts, table[j].0),
            color: label_color(config, table[j].0),
        })
}

/// The lines of a table are no more than its facts, and each is the line
/// of one of them.
pub proof fn lemma_field_lines_come_from_table(
    table: Seq<(Seq<char>, Seq<char>)>,
    facts: Map<Seq<char>, Seq<char>>,
    config: Config,
    use_caps: bool,
    is_mini: bool,
)
    ensures
        field_lines(table, facts, config, use_caps, is_mini).len() <= table.len(),
        forall|i: int|
            0 <= i < field_lines(table, facts, config, use_caps, is_mini).len()
                ==> is_line_of_table(
                #[trigger] field_lines(table, facts, config, use_caps, is_mini)[i],
                table,
                facts,
                config,
                use_caps,
                is_mini,
            ),
    decreases table.len(),
{
    if table.len() > 0 {
        let shorter = table.drop_last();
        let before = field_lines(shorter, facts, config, use_caps, is_mini);
        let lines = field_lines(table, facts, config, use_caps, is_mini);
        lemma_field_lines_come_from_table(shorter, facts, config, use_caps, is_mini);
        assert forall|i: int| 0 <= i < lines.len() implies is_line_of_table(
            #[trigger] lines[i],
            table,
            facts,
            config,
            use_caps,
            is_mini,
        ) by {
            if i < before.len() {
                assert(lines[i] == before[i]);
                assert(is_line_of_table(before[i], shorter, facts, config, use_caps, is_mini));
                let j = choose|j: int|
                    #![trigger shorter[j]]
                    0 <= j < shorter.len() && shows(config, shorter[j].0) && before[i] == (
                    LineView::Field {
                        label: shown_label(shorter[j].1, use_caps, is_mini),
                        value: fact(facts, shorter[j].0),
                        color: label_color(config, shorter[j].0),
                    });
                assert(table[j] == shorter[j]);
            } else {
                let j = table.len() - 1;
                assert(table[j] == table.last());
            }
        }
    }
}

/// In the minimal display the lines are the banner, if the user is shown,
/// and then at most three facts, whatever the configuration holds: each of
/// them is the operating system, the processor or the memory.
pub proof fn mini_shows_at_most_three_facts(
    facts: Map<Seq<char>, Seq<char>>,
    config: Config,
    use_caps: bool,
)
    ensures
        info_lines(facts, config, use_caps, true) == banner_lines(facts, config) + field_lines(
            mini_table(),
            facts,
            config,
            use_caps,
            true,
        ),
        banner_lines(facts, config).len() <= 1,
        field_lines(mini_table(), facts, config, use_caps, true).len() <= 3,
        info_lines(facts, config, use_caps, true).len() <= 4,
        !is_on(config.show_username) ==> info_lines(facts, config, use_caps, true).len() <= 3,
        forall|i: int|
            0 <= i < field_lines(mini_table(), facts, config, use_caps, true).len()
                ==> is_line_of_table(
                #[trigger] field_lines(mini_table(), facts, config, use_caps, true)[i],
                mini_table(),
                facts,
                config,
                use_caps,
                true,
            ),
{
    lemma_field_lines_come_from_table(mini_table(), facts, config, use_caps, true);
}

/// Where the user and the host are both shown, the first line is the one
/// banner that joins them with an `@`; every line after it is a fact.
pub proof fn banner_joins_user_and_host(
    facts: Map<Seq<char>, Seq<char>>,
    config: Config,
    use_caps: bool,
    is_mini: bool,
)
    requires
        is_on(config.show_username),
        is_on(config.show_hostname),
    ensures
        info_lines(facts, config, use_caps, is_mini).len() >= 1,
        info_lines(facts, config, use_caps, is_mini)[0] == (LineView::Banner {
            text: fact(facts, "username"@) + "@"@ + fact(facts, "hostname"@),
            color: LabelColor::BrightCyan,
        }),
        forall|i: int|
            1 <= i < info_lines(facts, config, use_caps, is_mini).len() ==> #[trigger] info_lines(
                facts,
                config,
                use_caps,
                is_mini,
            )[i] is Field,
{
    let table = if is_mini {
        mini_table()
    } else {
        full_table()
    };
    let fields = field_lines(table, facts, config, use_caps, is_mini);
    let lines = info_lines(facts, config, use_caps, is_mini);
    lemma_field_lines_come_from_table(table, facts, config, use_caps, is_mini);
    assert forall|i: int| 1 <= i < lines.len() implies #[trigger] lines[i] is Field by {
        assert(lines[i] == fields[i - 1]);
        assert(is_line_of_table(fields[i - 1], table, facts, config, use_caps, is_mini));
    }
}

/// The same facts of a table are shown whether a key is left out of the
/// configuration or set to "show".
pub proof fn lemma_field_lines_with_defaults(
    table: Seq<(Seq<char>, Seq<char>)>,
    facts: Map<Seq<char>, Seq<char>>,
    config: Config,
    use_caps: bool,
    is_mini: bool,
)
    ensures
        field_lines(table, facts, config, use_caps, is_mini) == field_lines(
            table,
            facts,
            with_defaults(config),
            use_caps,
            is_mini,
        ),
    decreases table.len(),
{
    if table.len() > 0 {
        lemma_field_lines_with_defaults(table.drop_last(), facts, config, use_caps, is_mini);
        absent_toggle_shows(config, table.last().0);
    }
}

/// The keys that a configuration leaves out count as "show": the lines are
/// those of the configuration in which each of them is set to "show".
pub proof fn absent_keys_are_shown(
    facts: Map<Seq<char>, Seq<char>>,
    config: Config,
    use_caps: bool,
    is_mini: bool,
)
    ensures
        info_lines(facts, config, use_caps, is_mini) == info_lines(
            facts,
            with_defaults(config),
            use_caps,
            is_mini,
        ),
{
    let table = if is_mini {
        mini_table()
    } else {
        full_table()
    };
    lemma_field_lines_with_defaults(table, facts, config, use_caps, is_mini);
}

} // verus!
