use vstd::prelude::*;

verus! {

/// The pages the download manager window can show.
#[derive(Debug, Clone, PartialEq, Eq, Structural)]
pub enum Page {
    Downloading,
    Paused,
    AllDownloads,
    Settings,
}

/// The title shown for each page.
pub open spec fn page_title(page: Page) -> Seq<char> {
    match page {
        Page::Downloading => "Downloading"@,
        Page::Paused => "Paused"@,
        Page::AllDownloads => "All Downloads"@,
        Page::Settings => "Settings"@,
    }
}

impl Page {
    /// The title of the page, as shown in the side bar.
    pub fn as_str(&self) -> (s: &'static str)
        ensures
            s@ == page_title(*self),
    {
        match self {
            Page::Downloading => "Downloading",
            Page::Paused => "Paused",
            Page::AllDownloads => "All Downloads",
            Page::Settings => "Settings",
        }
    }
}

/// The colour themes the window can use.
#[derive(Debug, Clone, Copy, PartialEq, Eq, Structural)]
pub enum ThemeOptions {
    Light,
    Dark,
    Dracula,
    Nord,
    SolarizedLight,
    SolarizedDark,
    GruvboxLight,
    GruvboxDark,
    CatppuccinLatte,
    CatppuccinFrappe,
    CatppuccinMacchiato,
    CatppuccinMocha,
    TokyoNight,
    TokyoNightStorm,
    TokyoNightLight,
    KanagawaWave,
    KanagawaDragon,
    KanagawaLotus,
    Moonfly,
    Nightfly,
    Oxocarbon,
    Ferra,
}

/// The name shown for each theme in the theme picker.
pub open spec fn theme_label(theme: ThemeOptions) -> Seq<char> {
    match theme {
        ThemeOptions::Light => "Light Mode"@,
        ThemeOptions::Dark => "Dark Mode"@,
        ThemeOptions::Dracula => "Dracula"@,
        ThemeOptions::Nord => "Nord"@,
        ThemeOptions::SolarizedLight => "Solarized Light"@,
        ThemeOptions::SolarizedDark => "Solarized Dark"@,
        ThemeOptions::GruvboxLight => "Gruvbox Light"@,
        ThemeOptions::GruvboxDark => "Gruvbox Dark"@,
        ThemeOptions::CatppuccinLatte => "Catppuccin Latte"@,
        ThemeOptions::CatppuccinFrappe => "Catppuccin Frappe"@,
        ThemeOptions::CatppuccinMacchiato => "Catppuccin Macchiato"@,
        ThemeOptions::CatppuccinMocha => "Catppuccin Mocha"@,
        ThemeOptions::TokyoNight => "Tokyo Night"@,
        ThemeOptions::TokyoNightStorm => "Tokyo Night Storm"@,
        ThemeOptions::TokyoNightLight => "Tokyo Night Light"@,
        ThemeOptions::KanagawaWave => "Kanagawa Wave"@,
        ThemeOptions::KanagawaDragon => "Kanagawa Dragon"@,
        ThemeOptions::KanagawaLotus => "Kanagawa Lotus"@,
        ThemeOptions::Moonfly => "Moonfly"@,
        ThemeOptions::Nightfly => "Nightfly"@,
        ThemeOptions::Oxocarbon => "Oxocarbon"@,
        ThemeOptions::Ferra => "Ferra"@,
    }
}

impl ThemeOptions {
    /// Every theme, in the order the theme picker lists them.
    pub fn all() -> (r: Vec<ThemeOptions>)
        ensures
            r@ == seq![ThemeOptions::Light, ThemeOptions::Dark, ThemeOptions::Dracula, ThemeOptions::Nord, ThemeOptions::SolarizedDark, ThemeOptions::SolarizedLight, ThemeOptions::GruvboxDark, ThemeOptions::GruvboxLight, ThemeOptions::CatppuccinLatte, ThemeOptions::CatppuccinFrappe, ThemeOptions::CatppuccinMacchiato, ThemeOptions::CatppuccinMocha, ThemeOptions::TokyoNight, ThemeOptions::TokyoNightStorm, ThemeOptions::TokyoNightLight, ThemeOptions::KanagawaWave, ThemeOptions::KanagawaDragon, ThemeOptions::KanagawaLotus, ThemeOptions::Moonfly, ThemeOptions::Nightfly, ThemeOptions::Oxocarbon, ThemeOptions::Ferra],
    {
        vec![ThemeOptions::Light, ThemeOptions::Dark, ThemeOptions::Dracula, ThemeOptions::Nord, ThemeOptions::SolarizedDark, ThemeOptions::SolarizedLight, ThemeOptions::GruvboxDark, ThemeOptions::GruvboxLight, ThemeOptions::CatppuccinLatte, ThemeOptions::CatppuccinFrappe, ThemeOptions::CatppuccinMacchiato, ThemeOptions::CatppuccinMocha, ThemeOptions::TokyoNight, ThemeOptions::TokyoNightStorm, ThemeOptions::TokyoNightLight, ThemeOptions::KanagawaWave, ThemeOptions::KanagawaDragon, ThemeOptions::KanagawaLotus, ThemeOptions::Moonfly, ThemeOptions::Nightfly, ThemeOptions::Oxocarbon, ThemeOptions::Ferra]
    }

    /// The name shown for the theme.
    pub fn label(&self) -> (s: &'static str)
        ensures
            s@ == theme_label(*self),
    {
        match self {
            ThemeOptions::Light => "Light Mode",
            ThemeOptions::Dark => "Dark Mode",
            ThemeOptions::Dracula => "Dracula",
            ThemeOptions::Nord => "Nord",
            ThemeOptions::SolarizedLight => "Solarized Light",
            ThemeOptions::SolarizedDark => "Solarized Dark",
            ThemeOptions::GruvboxLight => "Gruvbox Light",
            ThemeOptions::GruvboxDark => "Gruvbox Dark",
            ThemeOptions::CatppuccinLatte => "Catppuccin Latte",
            ThemeOptions::CatppuccinFrappe => "Catppuccin Frappe",
            ThemeOptions::CatppuccinMacchiato => "Catppuccin Macchiato",
            ThemeOptions::CatppuccinMocha => "Catppuccin Mocha",
            ThemeOptions::TokyoNight => "Tokyo Night",
            ThemeOptions::TokyoNightStorm => "Tokyo Night Storm",
            ThemeOptions::TokyoNightLight => "Tokyo Night Light",
            ThemeOptions::KanagawaWave => "Kanagawa Wave",
            ThemeOptions::KanagawaDragon => "Kanagawa Dragon",
            ThemeOptions::KanagawaLotus => "Kanagawa Lotus",
            ThemeOptions::Moonfly => "Moonfly",
            ThemeOptions::Nightfly => "Nightfly",
            ThemeOptions::Oxocarbon => "Oxocarbon",
            ThemeOptions::Ferra => "Ferra",
        }
    }
}

} // verus!
