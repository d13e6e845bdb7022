//! The command line: what the flags ask for.

use vstd::prelude::*;

verus! {

/// The flags of the command line.
#[derive(Clone, Copy, Debug, PartialEq, Eq, Structural)]
pub struct Flags {
    /// `--no-ascii`: show no art.
    pub no_ascii: bool,
    /// `--mini`: the minimal display.
    pub mini: bool,
    /// `--caps`: labels in capitals.
    pub caps: bool,
    /// `--blahaj` or `--haj`: print the shark and nothing else.
    pub blahaj: bool,
    /// `--colors`: show the palette.
    pub colors: bool,
}

/// The art that stands beside the information.
#[derive(Clone, Copy, Debug, PartialEq, Eq, Structural)]
pub enum ArtChoice {
    /// The small cat of the minimal display.
    Mini,
    /// One of the large pieces, picked at random.
    Random,
    /// No art.
    Nothing,
}

/// How the information is shown.
#[derive(Clone, Copy, Debug, PartialEq, Eq, Structural)]
pub struct FetchOptions {
    pub art: ArtChoice,
    pub is_mini: bool,
    pub use_caps: bool,
    pub show_colors: bool,
}

/// What one run of the program does.
#[derive(Clone, Copy, Debug, PartialEq, Eq, Structural)]
pub enum Mode {
    /// Print the shark; gather and show no information.
    Blahaj,
    /// Gather the facts and show them.
    Fetch(FetchOptions),
}

/// What the flags ask for. With `blahaj` the other flags count for
/// nothing. The minimal display has the small cat, whatever `no_ascii`
/// says, and never the palette.
pub open spec fn mode_of(flags: Flags) -> Mode {
    if flags.blahaj {
        Mode::Blahaj
    } else {
        Mode::Fetch(
            FetchOptions {
                art: if flags.mini {
                    ArtChoice::Mini
                } else if !flags.no_ascii {
                    ArtChoice::Random
                } else {
                    ArtChoice::Nothing
                },
                is_mini: flags.mini,
                use_caps: flags.caps,
                show_colors: flags.colors && !flags.mini,
            },
        )
    }
}

/// What the flags ask for.
pub fn mode(flags: &Flags) -> (mode: Mode)
    ensures
        mode == mode_of(*flags),
        flags.blahaj ==> mode == Mode::Blahaj,
{
    if flags.blahaj {
        return Mode::Blahaj;
    }
    let art = if flags.mini {
        ArtChoice::Mini
    } else if !flags.no_ascii {
        ArtChoice::Random
    } else {
        ArtChoice::Nothing
    };
    Mode::Fetch(
        FetchOptions {
            art,
            is_mini: flags.mini,
            use_caps: flags.caps,
            show_colors: flags.colors && !flags.mini,
        },
    )
}

/// With `blahaj` set, the run prints the shark and shows no information,
/// whatever the other flags are.
pub proof fn blahaj_ignores_other_flags(flags: Flags, others: Flags)
    requires
        flags.blahaj,
        others.blahaj,
    ensures
        mode_of(flags) == Mode::Blahaj,
        mode_of(flags) == mode_of(others),
{
}

} // verus!
