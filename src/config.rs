use vstd::prelude::*;
use yaml_rust::{ScanError, Yaml, YamlLoader};
pub use crate::layout::PrefHolder;
use crate::nesting::{is_shallow, shallow};
use vstd::string::StringSliceAdditionalSpecFns;

verus! {

#[verifier::external_type_specification]
#[verifier::external_body]
pub struct ExYaml(Yaml);

#[verifier::external_type_specification]
#[verifier::external_body]
pub struct ExScanError(ScanError);

/// The documents that YAML text `text` parses into, or none when it is not
/// YAML.
pub uninterp spec fn yaml_load(text: Seq<char>) -> Option<Seq<Yaml>>;

/// What the node under key `key` of YAML document `doc` holds.
pub uninterp spec fn yaml_node_entry(doc: Yaml, key: Seq<char>) -> ConfigEntry;

/// Relies on yaml_rust's `YamlLoader::load_from_str`: parses YAML text into
/// its documents, or fails with a scan error; the outcome depends on the text
/// alone. The loader recurses once per level of nesting, so deeper text than
/// `shallow` admits is refused before the call.
pub assume_specification[ YamlLoader::load_from_str ](source: &str) -> (r: Result<Vec<Yaml>, ScanError>)
    requires
        shallow(source.spec_bytes()),
    ensures
        r is Ok <==> yaml_load(source@) is Some,
        r matches Ok(d) ==> d@ == yaml_load(source@)->Some_0,
;

/// Relies on yaml_rust's `Index<&str>` for `Yaml`, which gives the value under
/// a key of a mapping or `Yaml::BadValue`: tells a missing value, an integer
/// and anything else apart.
#[verifier::external_body]
fn yaml_entry(source: &Yaml, index: &str) -> (r: ConfigEntry)
    ensures
        r == yaml_node_entry(*source, index@),
{
    match &source[index] {
        Yaml::BadValue => ConfigEntry::Absent,
        Yaml::Integer(v) => ConfigEntry::Integer(*v),
        _ => ConfigEntry::Other,
    }
}

/// Why no layout could be read.
#[derive(Clone, Debug)]
pub enum ConfigError {
    /// The text is not YAML.
    Malformed,
    /// The text nests deeper than `MAX_NESTING` allows.
    TooDeep,
    /// The text holds no YAML document.
    NoDocument,
    /// A required key is not there.
    Missing(String),
    /// A required key does not hold an integer.
    NotANumber(String),
    /// A required key holds an integer below zero or above `u32::MAX`.
    OutOfRange(String),
    /// The crop width or height is zero.
    ZeroStep,
}

/// What a configuration key holds.
#[derive(Clone, Copy, PartialEq, Eq, Debug, Structural)]
pub enum ConfigEntry {
    Absent,
    Integer(i64),
    Other,
}

/// An entry holds an integer that fits in a `u32`.
pub open spec fn entry_fits(e: ConfigEntry) -> bool {
    e matches ConfigEntry::Integer(v) && 0 <= v <= u32::MAX
}

/// `r` is the error, naming key `key`, for an entry `e` that holds no `u32`.
pub open spec fn entry_error(r: ConfigError, e: ConfigEntry, key: Seq<char>) -> bool {
    match e {
        ConfigEntry::Absent => r matches ConfigError::Missing(k) && k@ == key,
        ConfigEntry::Integer(_) => r matches ConfigError::OutOfRange(k) && k@ == key,
        ConfigEntry::Other => r matches ConfigError::NotANumber(k) && k@ == key,
    }
}

/// `r` is what key `key` gives when it holds `e`: the integer when it fits
/// in a `u32`, or else the error that names the key.
pub open spec fn config_value_of(r: Result<u32, ConfigError>, e: ConfigEntry, key: Seq<char>) -> bool {
    if entry_fits(e) {
        r == Ok::<u32, ConfigError>(e->Integer_0 as u32)
    } else {
        r matches Err(err) && entry_error(err, e, key)
    }
}

/// The value of key `index` given what it holds.
pub fn u32_config_value(entry: ConfigEntry, index: &str) -> (r: Result<u32, ConfigError>)
    ensures
        config_value_of(r, entry, index@),
{
    match entry {
        ConfigEntry::Absent => Err(ConfigError::Missing(index.to_owned())),
        ConfigEntry::Integer(v) => {
            if 0 <= v && v <= u32::MAX as i64 {
                Ok(v as u32)
            } else {
                Err(ConfigError::OutOfRange(index.to_owned()))
            }
        },
        ConfigEntry::Other => Err(ConfigError::NotANumber(index.to_owned())),
    }
}

/// Reads the required integer under key `index` of a YAML mapping.
pub fn read_necessary_u32_config(source: &Yaml, index: &str) -> (r: Result<u32, ConfigError>)
    ensures
        config_value_of(r, yaml_node_entry(*source, index@), index@),
{
    let entry = yaml_entry(source, index);
    u32_config_value(entry, index)
}

/// The number of keys of a layout.
pub const LAYOUT_KEYS: usize = 10;

/// The keys of a layout, in the order they are read.
pub open spec fn layout_key(i: int) -> Seq<char> {
    if i == 0 {
        "x_step"@
    } else if i == 1 {
        "y_step"@
    } else if i == 2 {
        "north_start_x"@
    } else if i == 3 {
        "north_start_y"@
    } else if i == 4 {
        "east_start_x"@
    } else if i == 5 {
        "east_start_y"@
    } else if i == 6 {
        "south_start_x"@
    } else if i == 7 {
        "south_start_y"@
    } else if i == 8 {
        "west_start_x"@
    } else {
        "west_start_y"@
    }
}

fn key_name(i: usize) -> (r: &'static str)
    requires
        i < LAYOUT_KEYS,
    ensures
        r@ == layout_key(i as int),
{
    if i == 0 {
        "x_step"
    } else if i == 1 {
        "y_step"
    } else if i == 2 {
        "north_start_x"
    } else if i == 3 {
        "north_start_y"
    } else if i == 4 {
        "east_start_x"
    } else if i == 5 {
        "east_start_y"
    } else if i == 6 {
        "south_start_x"
    } else if i == 7 {
        "south_start_y"
    } else if i == 8 {
        "west_start_x"
    } else {
        "west_start_y"
    }
}

/// The integer of an entry, as a `u32`.
pub open spec fn entry_u32(e: ConfigEntry) -> u32 {
    e->Integer_0 as u32
}

/// The layout whose fields are the ten entries, in key order.
pub open spec fn layout_of(es: Seq<ConfigEntry>) -> PrefHolder {
    PrefHolder {
        x_step: entry_u32(es[0]),
        y_step: entry_u32(es[1]),
        north_start_x: entry_u32(es[2]),
        north_start_y: entry_u32(es[3]),
        east_start_x: entry_u32(es[4]),
        east_start_y: entry_u32(es[5]),
        south_start_x: entry_u32(es[6]),
        south_start_y: entry_u32(es[7]),
        west_start_x: entry_u32(es[8]),
        west_start_y: entry_u32(es[9]),
    }
}

/// Entry `k` is the first that holds no integer that fits in a `u32`.
pub open spec fn is_first_bad_entry(es: Seq<ConfigEntry>, k: int) -> bool {
    &&& 0 <= k < es.len()
    &&& !entry_fits(es[k])
    &&& forall|j: int| 0 <= j < k ==> entry_fits(#[trigger] es[j])
}

/// `r` is the outcome of reading a layout whose keys hold `es`: the error of
/// the first key without a `u32`, else `ZeroStep` for a zero crop size, else
/// the layout.
pub open spec fn layout_outcome(r: Result<PrefHolder, ConfigError>, es: Seq<ConfigEntry>) -> bool {
    if exists|k: int| is_first_bad_entry(es, k) {
        exists|k: int| is_first_bad_entry(es, k) && (r matches Err(err) && entry_error(err, es[k], layout_key(k)))
    } else if entry_u32(es[0]) == 0 || entry_u32(es[1]) == 0 {
        r matches Err(ConfigError::ZeroStep)
    } else {
        r == Ok::<PrefHolder, ConfigError>(layout_of(es))
    }
}

/// Builds a layout from what its ten keys hold, in key order.
pub fn layout_from_entries(entries: &Vec<ConfigEntry>) -> (r: Result<PrefHolder, ConfigError>)
    requires
        entries@.len() == LAYOUT_KEYS,
    ensures
        layout_outcome(r, entries@),
{
    let mut values: Vec<u32> = Vec::new();
    let mut i: usize = 0;
    while i < LAYOUT_KEYS
        invariant
            entries@.len() == LAYOUT_KEYS,
            i <= LAYOUT_KEYS,
            values@.len() == i,
            forall|j: int| 0 <= j < i ==> entry_fits(#[trigger] entries@[j]) && values@[j] == entry_u32(entries@[j]),
        decreases LAYOUT_KEYS - i,
    {
        match u32_config_value(entries[i], key_name(i)) {
            Ok(v) => values.push(v),
            Err(e) => {
                assert(is_first_bad_entry(entries@, i as int));
                return Err(e);
            },
        }
        i += 1;
    }
    assert(!exists|k: int| is_first_bad_entry(entries@, k));
    if values[0] == 0 || values[1] == 0 {
        return Err(ConfigError::ZeroStep);
    }
    Ok(PrefHolder {
        x_step: values[0],
        y_step: values[1],
        north_start_x: values[2],
        north_start_y: values[3],
        east_start_x: values[4],
        east_start_y: values[5],
        south_start_x: values[6],
        south_start_y: values[7],
        west_start_x: values[8],
        west_start_y: values[9],
    })
}

/// What the ten layout keys of YAML document `doc` hold, in key order.
pub open spec fn yaml_layout_entries(doc: Yaml) -> Seq<ConfigEntry> {
    Seq::new(LAYOUT_KEYS as nat, |i: int| yaml_node_entry(doc, layout_key(i)))
}

/// Reads a layout from the first document of a YAML text: each of the ten
/// keys must hold an integer that fits in a `u32`, and the crop size must not
/// be zero.
pub fn layout_from_yaml(contents: &str) -> (r: Result<PrefHolder, ConfigError>)
    ensures
        !shallow(contents.spec_bytes()) <==> r matches Err(ConfigError::TooDeep),
        shallow(contents.spec_bytes()) ==> (yaml_load(contents@) is None <==> r matches Err(ConfigError::Malformed)),
        shallow(contents.spec_bytes()) && yaml_load(contents@) is Some && yaml_load(contents@)->Some_0.len() == 0
            ==> r matches Err(ConfigError::NoDocument),
        shallow(contents.spec_bytes()) && yaml_load(contents@) is Some && yaml_load(contents@)->Some_0.len() > 0
            ==> layout_outcome(r, yaml_layout_entries(yaml_load(contents@)->Some_0[0])),
{
    if !is_shallow(contents) {
        return Err(ConfigError::TooDeep);
    }
    let docs = match YamlLoader::load_from_str(contents) {
        Ok(d) => d,
        Err(_) => return Err(ConfigError::Malformed),
    };
    if docs.len() == 0 {
        return Err(ConfigError::NoDocument);
    }
    let doc = &docs[0];
    let mut entries: Vec<ConfigEntry> = Vec::new();
    let mut i: usize = 0;
    while i < LAYOUT_KEYS
        invariant
            i <= LAYOUT_KEYS,
            entries@ == yaml_layout_entries(*doc).subrange(0, i as int),
        decreases LAYOUT_KEYS - i,
    {
        entries.push(yaml_entry(doc, key_name(i)));
        assert(entries@ =~= yaml_layout_entries(*doc).subrange(0, i + 1));
        i += 1;
    }
    assert(entries@ =~= yaml_layout_entries(*doc));
    layout_from_entries(&entries)
}

} // verus!
