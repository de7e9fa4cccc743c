//! The colour themes of the client and the order in which the theme button
//! cycles through them.

use vstd::prelude::*;

verus! {

/// The themes the client offers, in cycling order.
#[derive(Debug, Clone, Copy, PartialEq, Eq, Structural)]
pub enum AppTheme {
    Dark,
    Light,
    Dracula,
    Nord,
    SolarizedLight,
    SolarizedDark,
    GruvboxLight,
    GruvboxDark,
    CatppuccinLatte,
    CatppuccinFrappe,
    CatppuccinMacchiato,
    CatppuccinMocha,
    TokyoNight,
    TokyoNightStorm,
    TokyoNightLight,
    KanagawaWave,
    KanagawaDragon,
    KanagawaLotus,
    Moonfly,
    Nightfly,
    Oxocarbon,
    Ferra,
    DefenderExplorer,
}

/// The number of themes.
pub open spec fn theme_count() -> nat {
    23
}

/// The position of a theme in the cycling order.
pub open spec fn theme_index(t: AppTheme) -> nat {
    match t {
        AppTheme::Dark => 0,
        AppTheme::Light => 1,
        AppTheme::Dracula => 2,
        AppTheme::Nord => 3,
        AppTheme::SolarizedLight => 4,
        AppTheme::SolarizedDark => 5,
        AppTheme::GruvboxLight => 6,
        AppTheme::GruvboxDark => 7,
        AppTheme::CatppuccinLatte => 8,
        AppTheme::CatppuccinFrappe => 9,
        AppTheme::CatppuccinMacchiato => 10,
        AppTheme::CatppuccinMocha => 11,
        AppTheme::TokyoNight => 12,
        AppTheme::TokyoNightStorm => 13,
        AppTheme::TokyoNightLight => 14,
        AppTheme::KanagawaWave => 15,
        AppTheme::KanagawaDragon => 16,
        AppTheme::KanagawaLotus => 17,
        AppTheme::Moonfly => 18,
        AppTheme::Nightfly => 19,
        AppTheme::Oxocarbon => 20,
        AppTheme::Ferra => 21,
        AppTheme::DefenderExplorer => 22,
    }
}

/// The theme at a position of the cycling order.
pub open spec fn theme_at(i: nat) -> AppTheme {
    if i == 0 {
        AppTheme::Dark
    } else if i == 1 {
        AppTheme::Light
    } else if i == 2 {
        AppTheme::Dracula
    } else if i == 3 {
        AppTheme::Nord
    } else if i == 4 {
        AppTheme::SolarizedLight
    } else if i == 5 {
        AppTheme::SolarizedDark
    } else if i == 6 {
        AppTheme::GruvboxLight
    } else if i == 7 {
        AppTheme::GruvboxDark
    } else if i == 8 {
        AppTheme::CatppuccinLatte
    } else if i == 9 {
        AppTheme::CatppuccinFrappe
    } else if i == 10 {
        AppTheme::CatppuccinMacchiato
    } else if i == 11 {
        AppTheme::CatppuccinMocha
    } else if i == 12 {
        AppTheme::TokyoNight
    } else if i == 13 {
        AppTheme::TokyoNightStorm
    } else if i == 14 {
        AppTheme::TokyoNightLight
    } else if i == 15 {
        AppTheme::KanagawaWave
    } else if i == 16 {
        AppTheme::KanagawaDragon
    } else if i == 17 {
        AppTheme::KanagawaLotus
    } else if i == 18 {
        AppTheme::Moonfly
    } else if i == 19 {
        AppTheme::Nightfly
    } else if i == 20 {
        AppTheme::Oxocarbon
    } else if i == 21 {
        AppTheme::Ferra
    } else {
        AppTheme::DefenderExplorer
    }
}

/// The display name of a theme.
pub open spec fn theme_name(t: AppTheme) -> Seq<char> {
    match t {
        AppTheme::Dark => "Dark"@,
        AppTheme::Light => "Light"@,
        AppTheme::Dracula => "Dracula"@,
        AppTheme::Nord => "Nord"@,
        AppTheme::SolarizedLight => "Solarized Light"@,
        AppTheme::SolarizedDark => "Solarized Dark"@,
        AppTheme::GruvboxLight => "Gruvbox Light"@,
        AppTheme::GruvboxDark => "Gruvbox Dark"@,
        AppTheme::CatppuccinLatte => "Catppuccin Latte"@,
        AppTheme::CatppuccinFrappe => "Catppuccin Frappe"@,
        AppTheme::CatppuccinMacchiato => "Catppuccin Macchiato"@,
        AppTheme::CatppuccinMocha => "Catppuccin Mocha"@,
        AppTheme::TokyoNight => "Tokyo Night"@,
        AppTheme::TokyoNightStorm => "Tokyo Night Storm"@,
        AppTheme::TokyoNightLight => "Tokyo Night Light"@,
        AppTheme::KanagawaWave => "Kanagawa Wave"@,
        AppTheme::KanagawaDragon => "Kanagawa Dragon"@,
        AppTheme::KanagawaLotus => "Kanagawa Lotus"@,
        AppTheme::Moonfly => "Moonfly"@,
        AppTheme::Nightfly => "Nightfly"@,
        AppTheme::Oxocarbon => "Oxocarbon"@,
        AppTheme::Ferra => "Ferra"@,
        AppTheme::DefenderExplorer => "Defender Explorer"@,
    }
}

/// Applies `next` to a theme `n` times.
pub open spec fn next_n(t: AppTheme, n: nat) -> AppTheme
    decreases n,
{
    if n == 0 {
        t
    } else {
        next_n(theme_at((theme_index(t) + 1) % theme_count()), (n - 1) as nat)
    }
}

impl AppTheme {
    /// The theme after this one; the last theme is followed by the first.
    pub fn next(&self) -> (r: AppTheme)
        ensures
            r == theme_at((theme_index(*self) + 1) % theme_count()),
    {
        match self {
            AppTheme::Dark => AppTheme::Light,
            AppTheme::Light => AppTheme::Dracula,
            AppTheme::Dracula => AppTheme::Nord,
            AppTheme::Nord => AppTheme::SolarizedLight,
            AppTheme::SolarizedLight => AppTheme::SolarizedDark,
            AppTheme::SolarizedDark => AppTheme::GruvboxLight,
            AppTheme::GruvboxLight => AppTheme::GruvboxDark,
            AppTheme::GruvboxDark => AppTheme::CatppuccinLatte,
            AppTheme::CatppuccinLatte => AppTheme::CatppuccinFrappe,
            AppTheme::CatppuccinFrappe => AppTheme::CatppuccinMacchiato,
            AppTheme::CatppuccinMacchiato => AppTheme::CatppuccinMocha,
            AppTheme::CatppuccinMocha => AppTheme::TokyoNight,
            AppTheme::TokyoNight => AppTheme::TokyoNightStorm,
            AppTheme::TokyoNightStorm => AppTheme::TokyoNightLight,
            AppTheme::TokyoNightLight => AppTheme::KanagawaWave,
            AppTheme::KanagawaWave => AppTheme::KanagawaDragon,
            AppTheme::KanagawaDragon => AppTheme::KanagawaLotus,
            AppTheme::KanagawaLotus => AppTheme::Moonfly,
            AppTheme::Moonfly => AppTheme::Nightfly,
            AppTheme::Nightfly => AppTheme::Oxocarbon,
            AppTheme::Oxocarbon => AppTheme::Ferra,
            AppTheme::Ferra => AppTheme::DefenderExplorer,
            AppTheme::DefenderExplorer => AppTheme::Dark,
        }
    }

    /// The name shown for this theme.
    pub fn name(&self) -> (r: &'static str)
        ensures
            r@ == theme_name(*self),
    {
        match self {
            AppTheme::Dark => "Dark",
            AppTheme::Light => "Light",
            AppTheme::Dracula => "Dracula",
            AppTheme::Nord => "Nord",
            AppTheme::SolarizedLight => "Solarized Light",
            AppTheme::SolarizedDark => "Solarized Dark",
            AppTheme::GruvboxLight => "Gruvbox Light",
            AppTheme::GruvboxDark => "Gruvbox Dark",
            AppTheme::CatppuccinLatte => "Catppuccin Latte",
            AppTheme::CatppuccinFrappe => "Catppuccin Frappe",
            AppTheme::CatppuccinMacchiato => "Catppuccin Macchiato",
            AppTheme::CatppuccinMocha => "Catppuccin Mocha",
            AppTheme::TokyoNight => "Tokyo Night",
            AppTheme::TokyoNightStorm => "Tokyo Night Storm",
            AppTheme::TokyoNightLight => "Tokyo Night Light",
            AppTheme::KanagawaWave => "Kanagawa Wave",
            AppTheme::KanagawaDragon => "Kanagawa Dragon",
            AppTheme::KanagawaLotus => "Kanagawa Lotus",
            AppTheme::Moonfly => "Moonfly",
            AppTheme::Nightfly => "Nightfly",
            AppTheme::Oxocarbon => "Oxocarbon",
            AppTheme::Ferra => "Ferra",
            AppTheme::DefenderExplorer => "Defender Explorer",
        }
    }
}

impl Default for AppTheme {
    /// The client starts with the Defender Explorer theme.
    fn default() -> (r: AppTheme)
        ensures
            r == AppTheme::DefenderExplorer,
    {
        AppTheme::DefenderExplorer
    }
}

/// Every theme has a position below the number of themes, and the theme at
/// its position is itself.
pub proof fn lemma_theme_index(t: AppTheme)
    ensures
        theme_index(t) < theme_count(),
        theme_at(theme_index(t)) == t,
{
}

/// A position below the number of themes holds a theme with that position.
pub proof fn lemma_theme_at(i: nat)
    requires
        i < theme_count(),
    ensures
        theme_index(theme_at(i)) == i,
{
}

/// Stepping `n` times moves `n` places along the cycle.
pub proof fn lemma_next_n_index(t: AppTheme, n: nat)
    ensures
        theme_index(next_n(t, n)) == (theme_index(t) + n) % theme_count(),
    decreases n,
{
    lemma_theme_index(t);
    if n > 0 {
        let u = theme_at((theme_index(t) + 1) % theme_count());
        lemma_theme_at((theme_index(t) + 1) % theme_count());
        lemma_next_n_index(u, (n - 1) as nat);
        let a = theme_index(t) as int;
        if a == 22 {
            vstd::arithmetic::div_mod::lemma_mod_add_multiples_vanish(n - 1, 23);
        }
    }
}

/// Pressing the theme button once per theme comes back to the starting
/// theme, and no fewer presses do: `next` cycles through every theme.
pub proof fn law_next_cycles_through_every_theme(t: AppTheme, n: nat)
    requires
        0 < n < theme_count(),
    ensures
        next_n(t, theme_count()) == t,
        next_n(t, n) != t,
{
    lemma_theme_index(t);
    lemma_next_n_index(t, theme_count());
    lemma_next_n_index(t, n);
    lemma_theme_index(next_n(t, theme_count()));
    lemma_theme_index(next_n(t, n));
}

/// The length, first and last character of a theme's name; no two themes
/// share them.
spec fn name_outline(t: AppTheme) -> (nat, char, char) {
    match t {
        AppTheme::Dark => (4, 'D', 'k'),
        AppTheme::Light => (5, 'L', 't'),
        AppTheme::Dracula => (7, 'D', 'a'),
        AppTheme::Nord => (4, 'N', 'd'),
        AppTheme::SolarizedLight => (15, 'S', 't'),
        AppTheme::SolarizedDark => (14, 'S', 'k'),
        AppTheme::GruvboxLight => (13, 'G', 't'),
        AppTheme::GruvboxDark => (12, 'G', 'k'),
        AppTheme::CatppuccinLatte => (16, 'C', 'e'),
        AppTheme::CatppuccinFrappe => (17, 'C', 'e'),
        AppTheme::CatppuccinMacchiato => (20, 'C', 'o'),
        AppTheme::CatppuccinMocha => (16, 'C', 'a'),
        AppTheme::TokyoNight => (11, 'T', 't'),
        AppTheme::TokyoNightStorm => (17, 'T', 'm'),
        AppTheme::TokyoNightLight => (17, 'T', 't'),
        AppTheme::KanagawaWave => (13, 'K', 'e'),
        AppTheme::KanagawaDragon => (15, 'K', 'n'),
        AppTheme::KanagawaLotus => (14, 'K', 's'),
        AppTheme::Moonfly => (7, 'M', 'y'),
        AppTheme::Nightfly => (8, 'N', 'y'),
        AppTheme::Oxocarbon => (9, 'O', 'n'),
        AppTheme::Ferra => (5, 'F', 'a'),
        AppTheme::DefenderExplorer => (17, 'D', 'r'),
    }
}

proof fn lemma_name_outline(t: AppTheme)
    ensures
        theme_name(t).len() == name_outline(t).0,
        theme_name(t).len() > 0,
        theme_name(t)[0] == name_outline(t).1,
        theme_name(t)[theme_name(t).len() - 1] == name_outline(t).2,
{
    match t {
        AppTheme::Dark => {
            reveal_strlit("Dark");
        },
        AppTheme::Light => {
            reveal_strlit("Light");
        },
        AppTheme::Dracula => {
            reveal_strlit("Dracula");
        },
        AppTheme::Nord => {
            reveal_strlit("Nord");
        },
        AppTheme::SolarizedLight => {
            reveal_strlit("Solarized Light");
        },
        AppTheme::SolarizedDark => {
            reveal_strlit("Solarized Dark");
        },
        AppTheme::GruvboxLight => {
            reveal_strlit("Gruvbox Light");
        },
        AppTheme::GruvboxDark => {
            reveal_strlit("Gruvbox Dark");
        },
        AppTheme::CatppuccinLatte => {
            reveal_strlit("Catppuccin Latte");
        },
        AppTheme::CatppuccinFrappe => {
            reveal_strlit("Catppuccin Frappe");
        },
        AppTheme::CatppuccinMacchiato => {
            reveal_strlit("Catppuccin Macchiato");
        },
        AppTheme::CatppuccinMocha => {
            reveal_strlit("Catppuccin Mocha");
        },
        AppTheme::TokyoNight => {
            reveal_strlit("Tokyo Night");
        },
        AppTheme::TokyoNightStorm => {
            reveal_strlit("Tokyo Night Storm");
        },
        AppTheme::TokyoNightLight => {
            reveal_strlit("Tokyo Night Light");
        },
        AppTheme::KanagawaWave => {
            reveal_strlit("Kanagawa Wave");
        },
        AppTheme::KanagawaDragon => {
            reveal_strlit("Kanagawa Dragon");
        },
        AppTheme::KanagawaLotus => {
            reveal_strlit("Kanagawa Lotus");
        },
        AppTheme::Moonfly => {
            reveal_strlit("Moonfly");
        },
        AppTheme::Nightfly => {
            reveal_strlit("Nightfly");
        },
        AppTheme::Oxocarbon => {
            reveal_strlit("Oxocarbon");
        },
        AppTheme::Ferra => {
            reveal_strlit("Ferra");
        },
        AppTheme::DefenderExplorer => {
            reveal_strlit("Defender Explorer");
        },
    }
}

/// Every theme has a display name of its own, and no name is empty.
pub proof fn law_theme_names_are_distinct(a: AppTheme, b: AppTheme)
    ensures
        theme_name(a).len() > 0,
        a != b ==> theme_name(a) != theme_name(b),
{
    lemma_name_outline(a);
    lemma_name_outline(b);
    if theme_name(a) == theme_name(b) {
        assert(name_outline(a) == name_outline(b));
    }
}

} // verus!
