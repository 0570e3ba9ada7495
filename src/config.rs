use vstd::prelude::*;
use vstd::string::StringExecFns;
use convert_case::Casing;

verus! {

/// The letter case that environment key segments are converted to.
#[derive(Clone, Copy, Debug, PartialEq, Eq, Structural)]
pub enum KeyCase {
    Snake,
    ScreamingSnake,
    Camel,
    Pascal,
    Kebab,
    Flat,
    Lower,
    Upper,
    Title,
    Train,
    Cobol,
    UpperFlat,
}

/// What `convert_case` makes of text `s` in the given case.
pub uninterp spec fn case_converted(s: Seq<char>, case: KeyCase) -> Seq<char>;

/// Relies on `convert_case::Casing::to_case`, whose result depends on the
/// text and the case alone.
#[verifier::external_body]
pub(crate) fn convert_key_case(s: &str, case: KeyCase) -> (r: String)
    ensures
        r@ == case_converted(s@, case),
{
    let target = match case {
        KeyCase::Snake => convert_case::Case::Snake,
        KeyCase::ScreamingSnake => convert_case::Case::ScreamingSnake,
        KeyCase::Camel => convert_case::Case::Camel,
        KeyCase::Pascal => convert_case::Case::Pascal,
        KeyCase::Kebab => convert_case::Case::Kebab,
        KeyCase::Flat => convert_case::Case::Flat,
        KeyCase::Lower => convert_case::Case::Lower,
        KeyCase::Upper => convert_case::Case::Upper,
        KeyCase::Title => convert_case::Case::Title,
        KeyCase::Train => convert_case::Case::Train,
        KeyCase::Cobol => convert_case::Case::Cobol,
        KeyCase::UpperFlat => convert_case::Case::UpperFlat,
    };
    s.to_case(target)
}

/// Options of the environment source.
#[derive(Clone, Debug)]
pub struct EnvSourceOptions {
    /// Only keys that start with this prefix take part; `NORTH_` when unset.
    pub prefix: Option<String>,
    /// Separates the nesting levels of a key; `__` when unset.
    pub nested_separator: Option<String>,
    /// The case that key segments are converted to; snake case when unset.
    pub key_case: Option<KeyCase>,
    /// A dotenv file whose variables are loaded before the environment is read.
    pub env_file_path: Option<String>,
    /// Whether the application watches the source for changes.
    pub watch: bool,
    /// Whether values are read as JSON literals rather than kept as strings.
    pub parse_json_values: bool,
}

/// Options of a file source.
#[derive(Clone, Copy, Debug, PartialEq, Eq, Structural)]
pub struct FileSourceOptions {
    /// A missing file is skipped instead of failing the resolution.
    pub skip_on_error: bool,
    /// `{{env}}` in the path stands for the build profile.
    pub enabled_environment: bool,
    /// Whether the application watches the file for changes.
    pub watch: bool,
}

pub open spec fn default_prefix() -> Seq<char> {
    "NORTH_"@
}

pub open spec fn default_separator() -> Seq<char> {
    "__"@
}

/// The prefix in force.
pub open spec fn prefix_in_force(o: EnvSourceOptions) -> Seq<char> {
    match o.prefix {
        Some(p) => p@,
        None => default_prefix(),
    }
}

/// The separator in force.
pub open spec fn separator_in_force(o: EnvSourceOptions) -> Seq<char> {
    match o.nested_separator {
        Some(s) => s@,
        None => default_separator(),
    }
}

/// The key case in force.
pub open spec fn case_in_force(o: EnvSourceOptions) -> KeyCase {
    match o.key_case {
        Some(c) => c,
        None => KeyCase::Snake,
    }
}

impl Default for EnvSourceOptions {
    fn default() -> (r: Self)
        ensures
            r.prefix matches Some(p) && p@ == default_prefix(),
            r.nested_separator matches Some(s) && s@ == default_separator(),
            r.key_case == Some(KeyCase::Snake),
            r.env_file_path is None,
            !r.watch,
            !r.parse_json_values,
    {
        EnvSourceOptions {
            prefix: Some(String::from_str("NORTH_")),
            nested_separator: Some(String::from_str("__")),
            key_case: Some(KeyCase::Snake),
            env_file_path: None,
            watch: false,
            parse_json_values: false,
        }
    }
}

impl Default for FileSourceOptions {
    fn default() -> (r: Self)
        ensures
            !r.skip_on_error,
            r.enabled_environment,
            !r.watch,
    {
        FileSourceOptions { skip_on_error: false, enabled_environment: true, watch: false }
    }
}

} // verus!
