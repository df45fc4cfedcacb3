//! The resolved configuration: the tables a configuration file may carry,
//! already parsed into plain values, and the fallbacks applied when a table
//! or an entry is missing.

use vstd::prelude::*;

verus! {

pub struct ThemeTable {
    pub fg: Option<String>,
    pub missing: Option<String>,
    pub error: Option<String>,
    pub accent: Option<String>,
}

pub struct GraphTable {
    pub data: Option<String>,
    pub title: Option<String>,
    pub axis: Option<String>,
}

pub struct CursorTable {
    pub style: Option<String>,
}

pub struct ModesTable {
    pub default_mode: Option<String>,
    pub uppercase_chance: Option<String>,
    pub punctuation_chance: Option<String>,
}

pub struct LanguageTable {
    pub lang: Option<String>,
}

/// The whole configuration, each table optional.
pub struct ConfigToml {
    pub theme: Option<ThemeTable>,
    pub graph: Option<GraphTable>,
    pub cursor: Option<CursorTable>,
    pub modes: Option<ModesTable>,
    pub language: Option<LanguageTable>,
}

/// A copy of an optional string, equal to the original.
fn clone_opt_string(o: &Option<String>) -> (r: Option<String>)
    ensures
        r == *o,
{
    match o {
        Option::Some(s) => Option::Some(s.clone()),
        Option::None => Option::None,
    }
}

impl ConfigToml {
    pub fn get_theme(&self) -> (r: Option<ThemeTable>)
        ensures
            r == self.theme,
    {
        match &self.theme {
            Option::Some(t) => Option::Some(
                ThemeTable {
                    fg: clone_opt_string(&t.fg),
                    missing: clone_opt_string(&t.missing),
                    error: clone_opt_string(&t.error),
                    accent: clone_opt_string(&t.accent),
                },
            ),
            Option::None => Option::None,
        }
    }

    pub fn get_graph(&self) -> (r: Option<GraphTable>)
        ensures
            r == self.graph,
    {
        match &self.graph {
            Option::Some(t) => Option::Some(
                GraphTable {
                    data: clone_opt_string(&t.data),
                    title: clone_opt_string(&t.title),
                    axis: clone_opt_string(&t.axis),
                },
            ),
            Option::None => Option::None,
        }
    }

    pub fn get_cursor(&self) -> (r: Option<CursorTable>)
        ensures
            r == self.cursor,
    {
        match &self.cursor {
            Option::Some(t) => Option::Some(CursorTable { style: clone_opt_string(&t.style) }),
            Option::None => Option::None,
        }
    }

    pub fn get_modes(&self) -> (r: Option<ModesTable>)
        ensures
            r == self.modes,
    {
        match &self.modes {
            Option::Some(t) => Option::Some(
                ModesTable {
                    default_mode: clone_opt_string(&t.default_mode),
                    uppercase_chance: clone_opt_string(&t.uppercase_chance),
                    punctuation_chance: clone_opt_string(&t.punctuation_chance),
                },
            ),
            Option::None => Option::None,
        }
    }

    pub fn get_language(&self) -> (r: Option<LanguageTable>)
        ensures
            r == self.language,
    {
        match &self.language {
            Option::Some(t) => Option::Some(LanguageTable { lang: clone_opt_string(&t.lang) }),
            Option::None => Option::None,
        }
    }
}

impl Default for ConfigToml {
    /// An empty configuration: every table missing.
    fn default() -> (r: ConfigToml)
        ensures
            r.theme is None,
            r.graph is None,
            r.cursor is None,
            r.modes is None,
            r.language is None,
    {
        ConfigToml { theme: None, graph: None, cursor: None, modes: None, language: None }
    }
}

/// The language whose word list a session draws from.
pub struct Language {
    pub lang: String,
}

/// The language the configuration names, or the fallback.
pub open spec fn spec_language(c: ConfigToml) -> Seq<char> {
    match c.language {
        Option::Some(t) => match t.lang {
            Option::Some(s) => s@,
            Option::None => "english"@,
        },
        Option::None => "english"@,
    }
}

impl Language {
    pub fn new(config: &ConfigToml) -> (r: Language)
        ensures
            r.lang@ == spec_language(*config),
    {
        match &config.language {
            Option::Some(t) => match &t.lang {
                Option::Some(s) => Language { lang: s.clone() },
                Option::None => Language { lang: String::from_str("english") },
            },
            Option::None => Language::default(),
        }
    }
}

impl Default for Language {
    fn default() -> (r: Language)
        ensures
            r.lang@ == "english"@,
    {
        Language { lang: String::from_str("english") }
    }
}

} // verus!
