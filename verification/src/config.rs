//! Configuration model and package-manager registry.
//!
//! A configuration document names a package manager and lists packages:
//!
//! ```text
//! [package_manager]
//! name = "pacman"
//! args = ["--noconfirm"]      # optional
//!
//! [pkgs]
//! install = ["vim", "git"]
//! ```
//!
//! Parsing is two-phased: [`Config::build`] checks the document structure
//! (well-formed text, required fields present), while the accessors check
//! each field's shape on demand. Inside an otherwise valid array,
//! non-string elements are dropped silently; a field of a wholly wrong
//! kind is a hard error.
use crate::util::{no_strings, single_string, str_eq};
use vstd::prelude::*;

verus! {

/// One element of a configuration array: a string, or a value of some
/// other kind, which the accessors drop without an error.
#[derive(Clone, Debug)]
pub enum TomlItem {
    Str(String),
    Other,
}

/// The value of one configuration field, reduced to what the library
/// distinguishes: a string, an array of elements, or a value of some
/// other kind.
#[derive(Clone, Debug)]
pub enum TomlField {
    Str(String),
    Array(Vec<TomlItem>),
    Other,
}

/// Contains the expected structure of `[package_manager]`.
#[derive(Clone, Debug)]
pub struct PackageManager {
    pub name: TomlField,
    pub args: Option<TomlField>,
}

/// Contains the expected structure of `[pkgs]`.
#[derive(Clone, Debug)]
pub struct Packages {
    pub install: TomlField,
}

/// Contains the expected configuration in the toml file.
#[derive(Clone, Debug)]
pub struct Config {
    pub package_manager: PackageManager,
    pub pkgs: Packages,
}

/// Structural failure while parsing configuration text.
#[derive(Clone, Debug)]
pub enum ParseError {
    /// The text is not a well-formed document; holds the parser's message.
    Syntax(String),
    /// The document has no `name` field under `[package_manager]`.
    MissingName,
    /// The document has no `install` field under `[pkgs]`.
    MissingInstall,
}

pub open spec fn spec_parse_error_message(e: ParseError) -> Seq<char> {
    match e {
        ParseError::Syntax(m) => m@,
        ParseError::MissingName => "missing field `name` of [package_manager]."@,
        ParseError::MissingInstall => "missing field `install` of [pkgs]."@,
    }
}

impl ParseError {
    /// The human-readable message for this error.
    pub fn message(&self) -> (r: String)
        ensures
            r@ == spec_parse_error_message(*self),
    {
        match self {
            ParseError::Syntax(m) => m.clone(),
            ParseError::MissingName => "missing field `name` of [package_manager].".to_owned(),
            ParseError::MissingInstall => "missing field `install` of [pkgs].".to_owned(),
        }
    }
}

/// A field of a parsed document has the wrong shape, or the named package
/// manager is not in the registry.
#[derive(Clone, Copy, PartialEq, Eq, Structural, Debug)]
pub enum ConfigError {
    InstallNotArray,
    NameNotString,
    ArgsNotArray,
    UnsupportedManager,
}

pub open spec fn spec_config_error_message(e: ConfigError) -> Seq<char> {
    match e {
        ConfigError::InstallNotArray => "expected field `install` of [pkgs] to be an array."@,
        ConfigError::NameNotString => "expected field `name` of [package_manager] to be a string."@,
        ConfigError::ArgsNotArray => "expected field `args` of [package_manager] to be an array."@,
        ConfigError::UnsupportedManager => "package manager isn't yet supported. Maybe check configuration for spelling mistakes?"@,
    }
}

impl ConfigError {
    /// The human-readable message for this error.
    pub fn message(&self) -> (r: String)
        ensures
            r@ == spec_config_error_message(*self),
    {
        match self {
            ConfigError::InstallNotArray => "expected field `install` of [pkgs] to be an array.".to_owned(),
            ConfigError::NameNotString => "expected field `name` of [package_manager] to be a string.".to_owned(),
            ConfigError::ArgsNotArray => "expected field `args` of [package_manager] to be an array.".to_owned(),
            ConfigError::UnsupportedManager => "package manager isn't yet supported. Maybe check configuration for spelling mistakes?".to_owned(),
        }
    }
}

/// What parsing `text` and reading the field `key` of the table `table`
/// yields. The parser is a pure function of the text, so this is a
/// function of the three arguments alone; nothing here states its value
/// on given inputs.
pub uninterp spec fn document_field_of(text: Seq<char>, table: Seq<char>, key: Seq<char>) -> Result<
    Option<TomlField>,
    ParseError,
>;

/// Relies on toml::from_str::<toml::Value> and on toml::Value::get, as_str
/// and as_array: parses `text` as a TOML document and reads the field
/// `key` of the table `table`, reduced to the three kinds the library
/// distinguishes. `Err` holds the parser's own message and comes exactly
/// when the text is malformed; `Ok(None)` means the document parses but
/// holds no such field.
#[verifier::external_body]
fn document_field(text: &str, table: &str, key: &str) -> (r: Result<Option<TomlField>, ParseError>)
    ensures
        r == document_field_of(text@, table@, key@),
{
    let doc: toml::Value = match toml::from_str(text) {
        Ok(v) => v,
        Err(e) => return Err(ParseError::Syntax(e.message().to_owned())),
    };
    let field = match doc.get(table).and_then(|t| t.get(key)) {
        None => return Ok(None),
        Some(v) => v,
    };
    if let Some(s) = field.as_str() {
        return Ok(Some(TomlField::Str(s.to_owned())));
    }
    let conv = |x: &toml::Value| x.as_str().map_or(TomlItem::Other, |s| TomlItem::Str(s.to_owned()));
    Ok(Some(field.as_array().map_or(TomlField::Other, |a| TomlField::Array(a.iter().map(conv).collect()))))
}

/// What [`Config::build`] returns for the given document text: the first
/// structural failure in field order, or the document's three fields.
pub open spec fn spec_build(text: Seq<char>) -> Result<Config, ParseError> {
    match document_field_of(text, "package_manager"@, "name"@) {
        Result::Err(e) => Result::Err(e),
        Result::Ok(name_field) => match document_field_of(text, "package_manager"@, "args"@) {
            Result::Err(e) => Result::Err(e),
            Result::Ok(args_field) => match document_field_of(text, "pkgs"@, "install"@) {
                Result::Err(e) => Result::Err(e),
                Result::Ok(install_field) => match (name_field, install_field) {
                    (Option::Some(name), Option::Some(install)) => Result::Ok(
                        Config {
                            package_manager: PackageManager { name, args: args_field },
                            pkgs: Packages { install },
                        },
                    ),
                    (Option::None, _) => Result::Err(ParseError::MissingName),
                    (_, Option::None) => Result::Err(ParseError::MissingInstall),
                },
            },
        },
    }
}

/// The subsequence of string elements, in order; other elements are
/// dropped.
pub open spec fn string_items(items: Seq<TomlItem>) -> Seq<Seq<char>>
    decreases items.len(),
{
    if items.len() == 0 {
        Seq::empty()
    } else {
        string_items(items.drop_last()) + (match items.last() {
            TomlItem::Str(s) => seq![s@],
            TomlItem::Other => Seq::<Seq<char>>::empty(),
        })
    }
}

/// Law: when every element of `items` is a string, the string elements
/// are exactly `items`, in order — nothing is dropped or reordered.
pub proof fn lemma_string_items_exact(items: Seq<TomlItem>)
    requires
        forall|k: int| 0 <= k < items.len() ==> (#[trigger] items[k]) matches TomlItem::Str(_),
    ensures
        string_items(items).len() == items.len(),
        forall|k: int|
            0 <= k < items.len() ==> ((#[trigger] items[k]) matches TomlItem::Str(s)
                && string_items(items)[k] == s@),
    decreases items.len(),
{
    if items.len() > 0 {
        lemma_string_items_exact(items.drop_last());
        assert(items[items.len() - 1] matches TomlItem::Str(_));
        match items.last() {
            TomlItem::Str(sl) => {
                assert(string_items(items) == string_items(items.drop_last()) + seq![sl@]);
                assert forall|k: int|
                    0 <= k < items.len() implies ((#[trigger] items[k]) matches TomlItem::Str(s)
                    && string_items(items)[k] == s@) by {
                    if k < items.len() - 1 {
                        assert(items.drop_last()[k] == items[k]);
                        assert(string_items(items)[k] == string_items(items.drop_last())[k]);
                    } else {
                        assert(items[k] == items.last());
                        assert(string_items(items)[k] == sl@);
                    }
                }
            },
            TomlItem::Other => {
                assert(false);
            },
        }
    }
}

/// Clones the string elements of `items`, dropping the others.
fn collect_strings(items: &Vec<TomlItem>) -> (r: Vec<String>)
    ensures
        r.deep_view() == string_items(items@),
{
    let mut out: Vec<String> = Vec::new();
    let mut i: usize = 0;
    while i < items.len()
        invariant
            i <= items.len(),
            out.deep_view() =~= string_items(items@.take(i as int)),
        decreases items.len() - i,
    {
        match &items[i] {
            TomlItem::Str(s) => out.push(s.clone()),
            TomlItem::Other => {},
        }
        i = i + 1;
        proof {
            assert(items@.take(i as int).drop_last() =~= items@.take(i as int - 1));
            assert(out.deep_view() =~= string_items(items@.take(i as int)));
        }
    }
    proof {
        assert(items@.take(items@.len() as int) =~= items@);
    }
    out
}

impl Config {
    /// Builds a config from the contents of a toml file. Fails when the
    /// text is malformed or a required field is absent; the shape of each
    /// field is checked later, by the accessors.
    pub fn build(file_contents: String) -> (r: Result<Config, ParseError>)
        ensures
            r == spec_build(file_contents@),
    {
        let name_field = match document_field(file_contents.as_str(), "package_manager", "name") {
            Ok(f) => f,
            Err(e) => return Err(e),
        };
        let args_field = match document_field(file_contents.as_str(), "package_manager", "args") {
            Ok(f) => f,
            Err(e) => return Err(e),
        };
        let install_field = match document_field(file_contents.as_str(), "pkgs", "install") {
            Ok(f) => f,
            Err(e) => return Err(e),
        };
        let name = match name_field {
            Some(f) => f,
            None => return Err(ParseError::MissingName),
        };
        let install = match install_field {
            Some(f) => f,
            None => return Err(ParseError::MissingInstall),
        };
        Ok(Config { package_manager: PackageManager { name, args: args_field }, pkgs: Packages { install } })
    }

    /// Gets the packages to install from the `[pkgs]` section, filtering
    /// out any non-string elements; fails when `install` is not an array.
    pub fn pkgs_to_install(&self) -> (r: Result<Vec<String>, ConfigError>)
        ensures
            match self.pkgs.install {
                TomlField::Array(items) => r matches Ok(p) && p.deep_view() == string_items(
                    items@,
                ),
                _ => r == Err::<Vec<String>, ConfigError>(ConfigError::InstallNotArray),
            },
    {
        match &self.pkgs.install {
            TomlField::Array(items) => Ok(collect_strings(items)),
            _ => Err(ConfigError::InstallNotArray),
        }
    }

    /// Gets the manager's name from `[package_manager]`; fails when the
    /// field is not a string.
    pub fn manager_name(&self) -> (r: Result<String, ConfigError>)
        ensures
            match self.package_manager.name {
                TomlField::Str(n) => r matches Ok(s) && s@ == n@,
                _ => r == Err::<String, ConfigError>(ConfigError::NameNotString),
            },
    {
        match &self.package_manager.name {
            TomlField::Str(n) => Ok(n.clone()),
            _ => Err(ConfigError::NameNotString),
        }
    }

    /// Resolves the `name` field of `[package_manager]` against the
    /// registry; fails when the field is not a string or the manager is
    /// unknown.
    pub fn pkg_mgr(&self) -> (r: Result<PkgMgrs, ConfigError>)
        ensures
            match self.package_manager.name {
                TomlField::Str(n) => match spec_resolve(n@) {
                    Option::Some(m) => r == Ok::<PkgMgrs, ConfigError>(m),
                    Option::None => r == Err::<PkgMgrs, ConfigError>(
                        ConfigError::UnsupportedManager,
                    ),
                },
                _ => r == Err::<PkgMgrs, ConfigError>(ConfigError::NameNotString),
            },
    {
        match &self.package_manager.name {
            TomlField::Str(n) => resolve(n.as_str()),
            _ => Err(ConfigError::NameNotString),
        }
    }

    /// Gets the extra arguments to forward to the package manager; an
    /// absent `args` field means no arguments, a non-array one is an
    /// error, and non-string elements are dropped.
    pub fn args_to_pkg_mgr(&self) -> (r: Result<Vec<String>, ConfigError>)
        ensures
            match self.package_manager.args {
                Option::None => r matches Ok(v) && v.deep_view() == Seq::<Seq<char>>::empty(),
                Option::Some(TomlField::Array(items)) => r matches Ok(v) && v.deep_view()
                    == string_items(items@),
                Option::Some(_) => r == Err::<Vec<String>, ConfigError>(ConfigError::ArgsNotArray),
            },
    {
        match &self.package_manager.args {
            Option::None => Ok(no_strings()),
            Option::Some(TomlField::Array(items)) => Ok(collect_strings(items)),
            Option::Some(_) => Err(ConfigError::ArgsNotArray),
        }
    }
}

/// Contains the supported package managers.
#[derive(Clone, Copy, PartialEq, Eq, Structural, Debug)]
pub enum PkgMgrs {
    Apt,
    Brew,
    Pacman,
    Paru,
    Yay,
}

/// The canonical registry key of a manager.
pub open spec fn spec_key(m: PkgMgrs) -> Seq<char> {
    match m {
        PkgMgrs::Apt => "apt"@,
        PkgMgrs::Brew => "brew"@,
        PkgMgrs::Pacman => "pacman"@,
        PkgMgrs::Paru => "paru"@,
        PkgMgrs::Yay => "yay"@,
    }
}

/// The registry: which manager a name resolves to. Lookup is a
/// case-sensitive exact match.
pub open spec fn spec_resolve(name: Seq<char>) -> Option<PkgMgrs> {
    if name == "apt"@ {
        Option::Some(PkgMgrs::Apt)
    } else if name == "brew"@ {
        Option::Some(PkgMgrs::Brew)
    } else if name == "pacman"@ {
        Option::Some(PkgMgrs::Pacman)
    } else if name == "paru"@ {
        Option::Some(PkgMgrs::Paru)
    } else if name == "yay"@ {
        Option::Some(PkgMgrs::Yay)
    } else {
        Option::None
    }
}

/// Maps the string name of a package manager to its PkgMgrs equivalent;
/// unknown names fail with a hint that they may be misspelled.
pub fn resolve(name: &str) -> (r: Result<PkgMgrs, ConfigError>)
    ensures
        match spec_resolve(name@) {
            Option::Some(m) => r == Ok::<PkgMgrs, ConfigError>(m),
            Option::None => r == Err::<PkgMgrs, ConfigError>(ConfigError::UnsupportedManager),
        },
{
    if str_eq(name, "apt") {
        Ok(PkgMgrs::Apt)
    } else if str_eq(name, "brew") {
        Ok(PkgMgrs::Brew)
    } else if str_eq(name, "pacman") {
        Ok(PkgMgrs::Pacman)
    } else if str_eq(name, "paru") {
        Ok(PkgMgrs::Paru)
    } else if str_eq(name, "yay") {
        Ok(PkgMgrs::Yay)
    } else {
        Err(ConfigError::UnsupportedManager)
    }
}

/// Law: registry lookup and canonical keys agree — every registered
/// manager's own key resolves back to exactly that manager.
pub proof fn lemma_resolve_key(m: PkgMgrs)
    ensures
        spec_resolve(spec_key(m)) == Option::Some(m),
{
    reveal_strlit("apt");
    reveal_strlit("brew");
    reveal_strlit("pacman");
    reveal_strlit("paru");
    reveal_strlit("yay");
    match m {
        PkgMgrs::Apt => {
            assert(spec_resolve("apt"@) == Option::Some(PkgMgrs::Apt));
        },
        PkgMgrs::Brew => {
            assert(("brew"@).len() != ("apt"@).len());
            assert(spec_resolve("brew"@) == Option::Some(PkgMgrs::Brew));
        },
        PkgMgrs::Pacman => {
            assert(("pacman"@).len() != ("apt"@).len());
            assert(("pacman"@).len() != ("brew"@).len());
            assert(spec_resolve("pacman"@) == Option::Some(PkgMgrs::Pacman));
        },
        PkgMgrs::Paru => {
            assert(("paru"@).len() != ("apt"@).len());
            assert(("paru"@)[0] != ("brew"@)[0]);
            assert(("paru"@).len() != ("pacman"@).len());
            assert(spec_resolve("paru"@) == Option::Some(PkgMgrs::Paru));
        },
        PkgMgrs::Yay => {
            assert(("yay"@)[0] != ("apt"@)[0]);
            assert(("yay"@).len() != ("brew"@).len());
            assert(("yay"@).len() != ("pacman"@).len());
            assert(("yay"@).len() != ("paru"@).len());
            assert(spec_resolve("yay"@) == Option::Some(PkgMgrs::Yay));
        },
    }
}

/// The executable that installs packages for a manager.
pub open spec fn spec_invocation(m: PkgMgrs) -> Seq<char> {
    match m {
        PkgMgrs::Apt => "apt"@,
        PkgMgrs::Brew => "brew"@,
        PkgMgrs::Pacman => "pacman"@,
        PkgMgrs::Paru => "paru"@,
        PkgMgrs::Yay => "yay"@,
    }
}

/// Whether the install invocation must be wrapped with a
/// privilege-escalation prefix.
pub open spec fn spec_needs_sudo(m: PkgMgrs) -> bool {
    match m {
        PkgMgrs::Apt => true,
        PkgMgrs::Brew => false,
        PkgMgrs::Pacman => true,
        PkgMgrs::Paru => false,
        PkgMgrs::Yay => false,
    }
}

/// The flag that puts the manager in install mode.
pub open spec fn spec_install_flag(m: PkgMgrs) -> Seq<char> {
    match m {
        PkgMgrs::Apt => "install"@,
        PkgMgrs::Brew => "install"@,
        PkgMgrs::Pacman => "-S"@,
        PkgMgrs::Paru => "-S"@,
        PkgMgrs::Yay => "-S"@,
    }
}

/// The flags that suppress interactive confirmation; written into a
/// generated configuration's `args` field, and omitted when empty.
pub open spec fn spec_confirm_flags(m: PkgMgrs) -> Seq<Seq<char>> {
    match m {
        PkgMgrs::Apt => seq!["-y"@],
        PkgMgrs::Brew => Seq::empty(),
        PkgMgrs::Pacman => seq!["--noconfirm"@],
        PkgMgrs::Paru => seq!["--noconfirm"@],
        PkgMgrs::Yay => seq!["--noconfirm"@],
    }
}

/// The executable that lists explicitly installed packages (apt keeps
/// that list in the separate apt-mark tool).
pub open spec fn spec_list_invocation(m: PkgMgrs) -> Seq<char> {
    match m {
        PkgMgrs::Apt => "apt-mark"@,
        _ => spec_invocation(m),
    }
}

/// The arguments that make the list executable print one explicitly
/// installed package name per line.
pub open spec fn spec_list_args(m: PkgMgrs) -> Seq<Seq<char>> {
    match m {
        PkgMgrs::Apt => seq!["showmanual"@],
        PkgMgrs::Brew => seq!["leaves"@],
        _ => seq!["-Qeq"@],
    }
}

/// Static record describing one package manager's invocation
/// conventions.
#[derive(Clone, Debug)]
pub struct PkgMgrDescriptor {
    /// The canonical registry key.
    pub name: String,
    /// The executable that installs.
    pub invocation: String,
    /// Whether installing needs privilege escalation.
    pub needs_sudo: bool,
    /// The flag denoting install mode.
    pub install_flag: String,
    /// Flags suppressing interactive confirmation.
    pub confirm_flags: Vec<String>,
    /// The executable that lists installed packages.
    pub list_invocation: String,
    /// Arguments producing a newline-separated package list.
    pub list_args: Vec<String>,
}

impl PkgMgrs {
    /// The descriptor record for this manager.
    pub fn descriptor(&self) -> (d: PkgMgrDescriptor)
        ensures
            d.name@ == spec_key(*self),
            d.invocation@ == spec_invocation(*self),
            d.needs_sudo == spec_needs_sudo(*self),
            d.install_flag@ == spec_install_flag(*self),
            d.confirm_flags.deep_view() == spec_confirm_flags(*self),
            d.list_invocation@ == spec_list_invocation(*self),
            d.list_args.deep_view() == spec_list_args(*self),
    {
        match self {
            PkgMgrs::Apt => PkgMgrDescriptor {
                name: "apt".to_owned(),
                invocation: "apt".to_owned(),
                needs_sudo: true,
                install_flag: "install".to_owned(),
                confirm_flags: single_string("-y"),
                list_invocation: "apt-mark".to_owned(),
                list_args: single_string("showmanual"),
            },
            PkgMgrs::Brew => PkgMgrDescriptor {
                name: "brew".to_owned(),
                invocation: "brew".to_owned(),
                needs_sudo: false,
                install_flag: "install".to_owned(),
                confirm_flags: no_strings(),
                list_invocation: "brew".to_owned(),
                list_args: single_string("leaves"),
            },
            PkgMgrs::Pacman => PkgMgrDescriptor {
                name: "pacman".to_owned(),
                invocation: "pacman".to_owned(),
                needs_sudo: true,
                install_flag: "-S".to_owned(),
                confirm_flags: single_string("--noconfirm"),
                list_invocation: "pacman".to_owned(),
                list_args: single_string("-Qeq"),
            },
            PkgMgrs::Paru => PkgMgrDescriptor {
                name: "paru".to_owned(),
                invocation: "paru".to_owned(),
                needs_sudo: false,
                install_flag: "-S".to_owned(),
                confirm_flags: single_string("--noconfirm"),
                list_invocation: "paru".to_owned(),
                list_args: single_string("-Qeq"),
            },
            PkgMgrs::Yay => PkgMgrDescriptor {
                name: "yay".to_owned(),
                invocation: "yay".to_owned(),
                needs_sudo: false,
                install_flag: "-S".to_owned(),
                confirm_flags: single_string("--noconfirm"),
                list_invocation: "yay".to_owned(),
                list_args: single_string("-Qeq"),
            },
        }
    }
}

} // verus!
