//! Typed configuration parsing, fail-closed.
//!
//! The schema defines `[debug]` and `[fps]`; every malformed section makes the
//! whole configuration fall back to the fully disabled default.

use toml::Value;

use vstd::prelude::*;

use crate::base::DataRoot;

verus! {

#[verifier::external_type_specification]
#[verifier::external_body]
pub struct ExTomlValue(toml::Value);

/// What a TOML value stands for.
pub enum TomlTree {
    Text(Seq<char>),
    Integer(int),
    Boolean(bool),
    Table(Map<Seq<char>, TomlTree>),
    /// A float, a date or time, or an array.
    Other,
}

/// What `value` stands for.
pub uninterp spec fn toml_tree(value: toml::Value) -> TomlTree;

/// What `toml::from_str` reads from `text`, if it is a TOML document.
pub uninterp spec fn toml_parse(text: Seq<char>) -> Option<TomlTree>;

/// `toml::from_str` into a `Value`: the document that the text spells, or
/// nothing where it is no TOML document. Which text spells which document is
/// left to the name `toml_parse`.
#[verifier::external_body]
fn toml_from_str(text: &str) -> (r: Option<Value>)
    ensures
        r is Some <==> toml_parse(text@) is Some,
        r is Some ==> toml_tree(r->Some_0) == toml_parse(text@)->Some_0,
{
    toml::from_str(text).ok()
}

/// The entry `key` of `tree`, if `tree` is a table that has one.
pub open spec fn entry(tree: TomlTree, key: Seq<char>) -> Option<TomlTree> {
    match tree {
        TomlTree::Table(entries) => if entries.dom().contains(key) {
            Some(entries[key])
        } else {
            None
        },
        _ => None,
    }
}

/// `toml::Value::get` with a text: the entry of that name, if the value is a
/// table that has one.
#[verifier::external_body]
fn toml_get<'a>(value: &'a Value, key: &str) -> (r: Option<&'a Value>)
    ensures
        r is Some <==> entry(toml_tree(*value), key@) is Some,
        r is Some ==> toml_tree(*r->Some_0) == entry(toml_tree(*value), key@)->Some_0,
{
    value.get(key)
}

/// `toml::Value::as_bool`: the boolean, if the value is one.
#[verifier::external_body]
fn toml_as_bool(value: &Value) -> (r: Option<bool>)
    ensures
        r is Some <==> toml_tree(*value) is Boolean,
        r is Some ==> toml_tree(*value) == TomlTree::Boolean(r->Some_0),
{
    value.as_bool()
}

/// `toml::Value::as_integer`: the integer, if the value is one. A TOML integer
/// is a 64-bit one.
#[verifier::external_body]
fn toml_as_integer(value: &Value) -> (r: Option<i64>)
    ensures
        r is Some <==> toml_tree(*value) is Integer,
        r is Some ==> toml_tree(*value) == TomlTree::Integer(r->Some_0 as int),
{
    value.as_integer()
}

/// Typed configuration that the runtime reads.
#[derive(Debug, Clone, Copy, PartialEq, Eq, Structural)]
pub struct ParsedConfig {
    pub debug: DebugSection,
    pub fps: FpsSection,
}

/// `[debug]` section.
#[derive(Debug, Clone, Copy, PartialEq, Eq, Structural)]
pub struct DebugSection {
    pub enabled: bool,
}

/// `[fps]` section.
#[derive(Debug, Clone, Copy, PartialEq, Eq, Structural)]
pub struct FpsSection {
    pub enabled: bool,
    pub target: i32,
}

/// The disabled `[fps]` section.
pub open spec fn fps_off() -> FpsSection {
    FpsSection { enabled: false, target: 0 }
}

/// The fully disabled configuration.
pub open spec fn all_off() -> ParsedConfig {
    ParsedConfig { debug: DebugSection { enabled: false }, fps: fps_off() }
}

impl Default for FpsSection {
    fn default() -> (r: Self)
        ensures
            r == fps_off(),
    {
        FpsSection { enabled: false, target: 0 }
    }
}

impl Default for ParsedConfig {
    fn default() -> (r: Self)
        ensures
            r == all_off(),
    {
        ParsedConfig { debug: DebugSection { enabled: false }, fps: FpsSection::default() }
    }
}

/// The boolean entry `key` of `tree`.
pub open spec fn flag(tree: TomlTree, key: Seq<char>) -> Option<bool> {
    match entry(tree, key) {
        Some(TomlTree::Boolean(value)) => Some(value),
        _ => None,
    }
}

/// The integer entry `key` of `tree`.
pub open spec fn number(tree: TomlTree, key: Seq<char>) -> Option<int> {
    match entry(tree, key) {
        Some(TomlTree::Integer(value)) => Some(value),
        _ => None,
    }
}

/// What `[debug]` says: off where it is missing, and nothing where it does not
/// hold a boolean `enabled`.
pub open spec fn debug_section(tree: TomlTree) -> Option<DebugSection> {
    match entry(tree, "debug"@) {
        None => Some(DebugSection { enabled: false }),
        Some(section) => match flag(section, "enabled"@) {
            Some(enabled) => Some(DebugSection { enabled }),
            None => None,
        },
    }
}

/// What `[fps]` says: off where it is missing, and nothing where it does not
/// hold a boolean `enabled` and an integer `target` from 1 to 1000.
pub open spec fn fps_section(tree: TomlTree) -> Option<FpsSection> {
    match entry(tree, "fps"@) {
        None => Some(fps_off()),
        Some(section) => match (flag(section, "enabled"@), number(section, "target"@)) {
            (Some(enabled), Some(target)) => if 1 <= target <= 1000 {
                Some(FpsSection { enabled, target: target as i32 })
            } else {
                None
            },
            _ => None,
        },
    }
}

/// What a document says; nothing where any known section is malformed.
pub open spec fn config_of(tree: TomlTree) -> Option<ParsedConfig> {
    match (debug_section(tree), fps_section(tree)) {
        (Some(debug), Some(fps)) => Some(ParsedConfig { debug, fps }),
        _ => None,
    }
}

fn read_flag(section: &Value) -> (r: Option<bool>)
    ensures
        r == flag(toml_tree(*section), "enabled"@),
{
    match toml_get(section, "enabled") {
        Some(value) => toml_as_bool(value),
        None => None,
    }
}

/// The configuration of a parsed document.
pub fn config_from(value: &Value) -> (r: Option<ParsedConfig>)
    ensures
        r == config_of(toml_tree(*value)),
{
    let debug = match toml_get(value, "debug") {
        None => DebugSection { enabled: false },
        Some(section) => match read_flag(section) {
            Some(enabled) => DebugSection { enabled },
            None => return None,
        },
    };
    let fps = match toml_get(value, "fps") {
        None => FpsSection::default(),
        Some(section) => {
            let enabled: bool = match read_flag(section) {
                Some(enabled) => enabled,
                None => return None,
            };
            let target: i64 = match toml_get(section, "target") {
                Some(value) => match toml_as_integer(value) {
                    Some(target) => target,
                    None => return None,
                },
                None => return None,
            };
            if target < 1 || target > 1000 {
                return None;
            }
            FpsSection { enabled, target: target as i32 }
        },
    };
    Some(ParsedConfig { debug, fps })
}

/// Parses the `[debug]` and optional `[fps]` sections; anything unexpected is
/// fail-closed (`None`).
pub fn parse_config(text: &str) -> (r: Option<ParsedConfig>)
    ensures
        r == match toml_parse(text@) {
            Some(tree) => config_of(tree),
            None => None,
        },
{
    match toml_from_str(text) {
        Some(value) => config_from(&value),
        None => None,
    }
}

/// Path of the configuration file under the data root.
pub fn config_path(data_root: &DataRoot) -> (r: String)
    ensures
        r@ == crate::base::joined(data_root.root(), "scsp.toml"@),
{
    data_root.join("scsp.toml")
}

/// The configuration of a file, given its text where it could be read. Never
/// fails: every deviation falls back to the fully disabled default.
pub fn load_config(text: Option<String>) -> (r: ParsedConfig)
    ensures
        r == match text {
            Some(text) => match toml_parse(text@) {
                Some(tree) => match config_of(tree) {
                    Some(config) => config,
                    None => all_off(),
                },
                None => all_off(),
            },
            None => all_off(),
        },
{
    match text {
        Some(text) => match parse_config(text.as_str()) {
            Some(config) => config,
            None => ParsedConfig::default(),
        },
        None => ParsedConfig::default(),
    }
}

/// Fail-closed: the debug plugin is on only where a well-formed document says
/// so, and a malformed `[fps]` section turns it off as well.
pub proof fn debug_is_off_unless_configured(tree: TomlTree)
    ensures
        config_of(tree) is Some ==> (config_of(tree)->Some_0.debug.enabled <==> entry(
            tree,
            "debug"@,
        ) is Some && flag(entry(tree, "debug"@)->Some_0, "enabled"@) == Some(true)),
        fps_section(tree) is None ==> config_of(tree) is None,
{
}

/// The frame rate target of a configuration with `[fps]` is always in range.
pub proof fn configured_target_is_in_range(tree: TomlTree)
    ensures
        config_of(tree) matches Some(config) ==> entry(tree, "fps"@) is Some ==> 1
            <= config.fps.target <= 1000,
{
}

/// What is accepted, and what it says. A document is accepted exactly where
/// `[debug]` is missing or holds a boolean `enabled`, and `[fps]` is missing or
/// holds a boolean `enabled` and an integer `target` from 1 to 1000. Each
/// section of the result then repeats its own section of the document and
/// looks at no other one: a missing section is disabled, with a target of 0.
pub proof fn each_section_speaks_for_itself(value: &Value, r: Option<ParsedConfig>)
    requires
        call_ensures(config_from, (value,), r),
    ensures
        ({
            let debug = entry(toml_tree(*value), "debug"@);
            let fps = entry(toml_tree(*value), "fps"@);
            &&& r is Some <==> {
                &&& debug is Some ==> {
                    let enabled = entry(debug->Some_0, "enabled"@);
                    enabled is Some && enabled->Some_0 is Boolean
                }
                &&& fps is Some ==> {
                    let enabled = entry(fps->Some_0, "enabled"@);
                    let target = entry(fps->Some_0, "target"@);
                    &&& enabled is Some && enabled->Some_0 is Boolean
                    &&& target is Some && target->Some_0 is Integer
                    &&& 1 <= target->Some_0->Integer_0 <= 1000
                }
            }
            &&& r matches Some(config) ==> {
                &&& config.debug.enabled <==> debug is Some && entry(debug->Some_0, "enabled"@)
                    == Some(TomlTree::Boolean(true))
                &&& config.fps.enabled <==> fps is Some && entry(fps->Some_0, "enabled"@) == Some(
                    TomlTree::Boolean(true),
                )
                &&& fps is Some ==> entry(fps->Some_0, "target"@) == Some(
                    TomlTree::Integer(config.fps.target as int),
                )
                &&& fps is None ==> config.fps.target == 0
            }
        }),
{
}

/// Reading a text is reading the document that it spells: two documents that
/// agree in a section are read to the same section, and a text that spells no
/// document is not accepted.
pub proof fn text_is_read_as_its_document(
    text: &str,
    parsed: Option<ParsedConfig>,
    value: &Value,
    read: Option<ParsedConfig>,
)
    requires
        call_ensures(parse_config, (text,), parsed),
        call_ensures(config_from, (value,), read),
    ensures
        toml_parse(text@) is None ==> parsed is None,
        toml_parse(text@) == Some(toml_tree(*value)) ==> parsed == read,
        toml_parse(text@) is Some && parsed is Some && read is Some ==> {
            let tree = toml_parse(text@)->Some_0;
            &&& entry(tree, "fps"@) == entry(toml_tree(*value), "fps"@) ==> parsed->Some_0.fps
                == read->Some_0.fps
            &&& entry(tree, "debug"@) == entry(toml_tree(*value), "debug"@)
                ==> parsed->Some_0.debug == read->Some_0.debug
        },
{
}

/// Loading never does more than the text says: what an accepted text says is
/// taken as it is, and everything else, a file that cannot be read included,
/// leaves both plugins off.
pub proof fn loading_is_fail_closed(
    text: Option<String>,
    loaded: ParsedConfig,
    read: &str,
    parsed: Option<ParsedConfig>,
)
    requires
        call_ensures(load_config, (text,), loaded),
        call_ensures(parse_config, (read,), parsed),
        text matches Some(text) ==> text@ == read@,
    ensures
        text is Some && parsed is Some ==> loaded == parsed->Some_0,
        text is None || parsed is None ==> !loaded.debug.enabled && !loaded.fps.enabled
            && loaded.fps.target == 0,
{
}

} // verus!
