//! The built-in colour themes and the names under which a configuration file
//! or a command line refers to them.

use vstd::prelude::*;
use vstd::string::StringExecFns;

use crate::strings::texts;

verus! {

/// A built-in colour theme.
#[derive(Clone, Copy, Debug, PartialEq, Eq, Hash, Structural)]
pub enum Theme {
    Light,
    Dark,
    Dracula,
    Nord,
    SolarizedLight,
    SolarizedDark,
    GruvboxLight,
    GruvboxDark,
    CatppuccinLatte,
    CatppuccinFrappe,
    CatppuccinMacchiato,
    CatppuccinMocha,
    TokyoNight,
    TokyoNightStorm,
    TokyoNightLight,
    KanagawaWave,
    KanagawaDragon,
    KanagawaLotus,
    Moonfly,
    Nightfly,
    Oxocarbon,
    Ferra,
}

/// The kebab-case form of `text` as `heck` computes it: the words of `text`
/// in lower case, joined by hyphens.
pub uninterp spec fn kebab_case(text: Seq<char>) -> Seq<char>;

/// Calls `heck::ToKebabCase::to_kebab_case` on a string slice. The conversion
/// reads nothing but its argument, so its result is named by [`kebab_case`];
/// nothing more is claimed of it.
#[verifier::external_body]
fn to_kebab_case(text: &str) -> (kebab: String)
    ensures
        kebab@ == kebab_case(text@),
{
    heck::ToKebabCase::to_kebab_case(text)
}

impl Theme {
    /// The theme's identifier, written as the variant is.
    pub open spec fn ident_spec(self) -> Seq<char> {
        match self {
            Theme::Light => "Light"@,
            Theme::Dark => "Dark"@,
            Theme::Dracula => "Dracula"@,
            Theme::Nord => "Nord"@,
            Theme::SolarizedLight => "SolarizedLight"@,
            Theme::SolarizedDark => "SolarizedDark"@,
            Theme::GruvboxLight => "GruvboxLight"@,
            Theme::GruvboxDark => "GruvboxDark"@,
            Theme::CatppuccinLatte => "CatppuccinLatte"@,
            Theme::CatppuccinFrappe => "CatppuccinFrappe"@,
            Theme::CatppuccinMacchiato => "CatppuccinMacchiato"@,
            Theme::CatppuccinMocha => "CatppuccinMocha"@,
            Theme::TokyoNight => "TokyoNight"@,
            Theme::TokyoNightStorm => "TokyoNightStorm"@,
            Theme::TokyoNightLight => "TokyoNightLight"@,
            Theme::KanagawaWave => "KanagawaWave"@,
            Theme::KanagawaDragon => "KanagawaDragon"@,
            Theme::KanagawaLotus => "KanagawaLotus"@,
            Theme::Moonfly => "Moonfly"@,
            Theme::Nightfly => "Nightfly"@,
            Theme::Oxocarbon => "Oxocarbon"@,
            Theme::Ferra => "Ferra"@,
        }
    }

    /// The theme's identifier.
    pub fn ident(self) -> (text: &'static str)
        ensures
            text@ == self.ident_spec(),
    {
        match self {
            Theme::Light => "Light",
            Theme::Dark => "Dark",
            Theme::Dracula => "Dracula",
            Theme::Nord => "Nord",
            Theme::SolarizedLight => "SolarizedLight",
            Theme::SolarizedDark => "SolarizedDark",
            Theme::GruvboxLight => "GruvboxLight",
            Theme::GruvboxDark => "GruvboxDark",
            Theme::CatppuccinLatte => "CatppuccinLatte",
            Theme::CatppuccinFrappe => "CatppuccinFrappe",
            Theme::CatppuccinMacchiato => "CatppuccinMacchiato",
            Theme::CatppuccinMocha => "CatppuccinMocha",
            Theme::TokyoNight => "TokyoNight",
            Theme::TokyoNightStorm => "TokyoNightStorm",
            Theme::TokyoNightLight => "TokyoNightLight",
            Theme::KanagawaWave => "KanagawaWave",
            Theme::KanagawaDragon => "KanagawaDragon",
            Theme::KanagawaLotus => "KanagawaLotus",
            Theme::Moonfly => "Moonfly",
            Theme::Nightfly => "Nightfly",
            Theme::Oxocarbon => "Oxocarbon",
            Theme::Ferra => "Ferra",
        }
    }

    /// Every theme, in the order in which names are tried when one is parsed.
    pub open spec fn all_spec() -> Seq<Theme> {
        seq![
            Theme::Light, Theme::Dark, Theme::Dracula, Theme::Nord, Theme::SolarizedLight,
            Theme::SolarizedDark, Theme::GruvboxLight, Theme::GruvboxDark,
            Theme::CatppuccinLatte, Theme::CatppuccinFrappe, Theme::CatppuccinMacchiato,
            Theme::CatppuccinMocha, Theme::TokyoNight, Theme::TokyoNightStorm,
            Theme::TokyoNightLight, Theme::KanagawaWave, Theme::KanagawaDragon,
            Theme::KanagawaLotus, Theme::Moonfly, Theme::Nightfly, Theme::Oxocarbon,
            Theme::Ferra,
        ]
    }

    /// Every theme, in parsing order.
    pub fn all() -> (themes: Vec<Theme>)
        ensures
            themes@ == Theme::all_spec(),
    {
        vec![
            Theme::Light, Theme::Dark, Theme::Dracula, Theme::Nord, Theme::SolarizedLight,
            Theme::SolarizedDark, Theme::GruvboxLight, Theme::GruvboxDark,
            Theme::CatppuccinLatte, Theme::CatppuccinFrappe, Theme::CatppuccinMacchiato,
            Theme::CatppuccinMocha, Theme::TokyoNight, Theme::TokyoNightStorm,
            Theme::TokyoNightLight, Theme::KanagawaWave, Theme::KanagawaDragon,
            Theme::KanagawaLotus, Theme::Moonfly, Theme::Nightfly, Theme::Oxocarbon,
            Theme::Ferra,
        ]
    }

    /// The theme's place in [`Theme::all_spec`].
    pub open spec fn index_spec(self) -> int {
        match self {
            Theme::Light => 0,
            Theme::Dark => 1,
            Theme::Dracula => 2,
            Theme::Nord => 3,
            Theme::SolarizedLight => 4,
            Theme::SolarizedDark => 5,
            Theme::GruvboxLight => 6,
            Theme::GruvboxDark => 7,
            Theme::CatppuccinLatte => 8,
            Theme::CatppuccinFrappe => 9,
            Theme::CatppuccinMacchiato => 10,
            Theme::CatppuccinMocha => 11,
            Theme::TokyoNight => 12,
            Theme::TokyoNightStorm => 13,
            Theme::TokyoNightLight => 14,
            Theme::KanagawaWave => 15,
            Theme::KanagawaDragon => 16,
            Theme::KanagawaLotus => 17,
            Theme::Moonfly => 18,
            Theme::Nightfly => 19,
            Theme::Oxocarbon => 20,
            Theme::Ferra => 21,
        }
    }

    /// The name by which the theme is written and read: its identifier in
    /// kebab case.
    pub open spec fn name_spec(self) -> Seq<char> {
        kebab_case(self.ident_spec())
    }

    /// The theme's kebab-case name.
    pub fn name(self) -> (name: String)
        ensures
            name@ == self.name_spec(),
    {
        to_kebab_case(self.ident())
    }
}

/// The names of all themes, in the order of [`Theme::all_spec`].
pub open spec fn theme_names_spec() -> Seq<Seq<char>> {
    Theme::all_spec().map_values(|theme: Theme| theme.name_spec())
}

/// The names of all themes, in parsing order.
pub fn theme_names() -> (names: Vec<String>)
    ensures
        texts(names@) == theme_names_spec(),
{
    let themes = Theme::all();
    let mut names: Vec<String> = Vec::new();
    let mut i: usize = 0;
    while i < themes.len()
        invariant
            themes@ == Theme::all_spec(),
            i <= themes.len(),
            names.len() == i,
            forall|j: int| 0 <= j < i ==> names@[j]@ == themes@[j].name_spec(),
        decreases themes.len() - i,
    {
        names.push(themes[i].name());
        i += 1;
    }
    assert(texts(names@) =~= theme_names_spec());
    names
}

/// `index` is the first place in `names` that holds `wanted`.
pub open spec fn is_first_match(names: Seq<Seq<char>>, wanted: Seq<char>, index: int) -> bool {
    &&& 0 <= index < names.len()
    &&& names[index] == wanted
    &&& forall|j: int| 0 <= j < index ==> names[j] != wanted
}

/// No place in `names` holds `wanted`.
pub open spec fn no_match(names: Seq<Seq<char>>, wanted: Seq<char>) -> bool {
    forall|j: int| 0 <= j < names.len() ==> names[j] != wanted
}

/// The first index at which `names` holds `wanted`, if there is one.
pub fn position(names: &Vec<String>, wanted: &str) -> (found: Option<usize>)
    ensures
        match found {
            Some(index) => is_first_match(texts(names@), wanted@, index as int),
            None => no_match(texts(names@), wanted@),
        },
{
    let wanted_owned = String::from_str(wanted);
    let mut i: usize = 0;
    while i < names.len()
        invariant
            i <= names.len(),
            wanted_owned@ == wanted@,
            forall|j: int| 0 <= j < i ==> texts(names@)[j] != wanted@,
        decreases names.len() - i,
    {
        if names[i] == wanted_owned {
            return Some(i);
        }
        i += 1;
    }
    None
}

/// What [`parse_theme_str`] answers to a string that names no theme.
pub open spec fn unknown_theme_message(text: Seq<char>) -> Seq<char> {
    "Failed to parse theme name from string: "@ + text
}

/// `parsed` is the theme that `text` names: the first theme in
/// [`Theme::all_spec`] whose name is `text`, or the error message if no
/// theme has that name.
pub open spec fn parses_to(text: Seq<char>, parsed: Result<Theme, Seq<char>>) -> bool {
    match parsed {
        Ok(theme) => exists|index: int|
            #![auto]
            is_first_match(theme_names_spec(), text, index) && Theme::all_spec()[index] == theme,
        Err(message) => no_match(theme_names_spec(), text) && message == unknown_theme_message(
            text,
        ),
    }
}

/// Reads a theme from its kebab-case name.
pub fn parse_theme_str(text: &str) -> (parsed: Result<Theme, String>)
    ensures
        parses_to(
            text@,
            match parsed {
                Ok(theme) => Ok(theme),
                Err(message) => Err(message@),
            },
        ),
{
    let names = theme_names();
    match position(&names, text) {
        Some(index) => {
            let themes = Theme::all();
            Ok(themes[index])
        },
        None => Err(String::from_str("Failed to parse theme name from string: ").concat(text)),
    }
}

/// Wherever `names` holds `wanted`, it holds it at a first place, which is
/// not behind the given one.
pub proof fn lemma_first_match_exists(names: Seq<Seq<char>>, wanted: Seq<char>, index: int) -> (first:
    int)
    requires
        0 <= index < names.len(),
        names[index] == wanted,
    ensures
        is_first_match(names, wanted, first),
        first <= index,
    decreases index,
{
    if exists|j: int| 0 <= j < index && names[j] == wanted {
        let earlier = choose|j: int| 0 <= j < index && names[j] == wanted;
        lemma_first_match_exists(names, wanted, earlier)
    } else {
        index
    }
}

/// Every theme stands in [`Theme::all_spec`], at its own place.
pub proof fn lemma_all_themes_listed(theme: Theme)
    ensures
        0 <= theme.index_spec() < Theme::all_spec().len(),
        Theme::all_spec()[theme.index_spec()] == theme,
        theme_names_spec()[theme.index_spec()] == theme.name_spec(),
{
}

/// A name that the menu writes can be read back: the name of a theme parses,
/// and to a theme of that name.
pub proof fn lemma_theme_names_parse(theme: Theme) -> (parsed: Theme)
    ensures
        parses_to(theme.name_spec(), Ok(parsed)),
        parsed.name_spec() == theme.name_spec(),
{
    lemma_all_themes_listed(theme);
    let first = lemma_first_match_exists(theme_names_spec(), theme.name_spec(), theme.index_spec());
    Theme::all_spec()[first]
}

/// A string parses to one result only.
pub proof fn lemma_parse_is_unambiguous(
    text: Seq<char>,
    first: Result<Theme, Seq<char>>,
    second: Result<Theme, Seq<char>>,
)
    requires
        parses_to(text, first),
        parses_to(text, second),
    ensures
        first == second,
{
    if first is Ok && second is Ok {
        let i = choose|index: int|
            #![auto]
            is_first_match(theme_names_spec(), text, index) && Theme::all_spec()[index]
                == first->Ok_0;
        let j = choose|index: int|
            #![auto]
            is_first_match(theme_names_spec(), text, index) && Theme::all_spec()[index]
                == second->Ok_0;
        assert(i == j);
    } else if first is Ok {
        let i = choose|index: int|
            #![auto]
            is_first_match(theme_names_spec(), text, index) && Theme::all_spec()[index]
                == first->Ok_0;
        assert(theme_names_spec()[i] == text);
    } else if second is Ok {
        let j = choose|index: int|
            #![auto]
            is_first_match(theme_names_spec(), text, index) && Theme::all_spec()[index]
                == second->Ok_0;
        assert(theme_names_spec()[j] == text);
    }
}

} // verus!
