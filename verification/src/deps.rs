//! The dependency file: a small declarative TOML document keyed by file
//! name, where an entry's `dependencies` list names the other files whose
//! changes also count toward the file's latest change.
//!
//! Parsing and navigation are delegated to the `toml` crate through trusted
//! declarations; the lookup logic over them is verified.

use vstd::prelude::*;

verus! {

#[verifier::external_type_specification]
#[verifier::external_body]
#[verifier::reject_recursive_types(K)]
#[verifier::reject_recursive_types(V)]
pub struct ExTomlMap<K, V>(toml::map::Map<K, V>);

#[verifier::external_type_specification]
#[verifier::external_body]
pub struct ExTomlValue(toml::Value);

#[verifier::external_type_specification]
#[verifier::external_body]
pub struct ExTomlDeError(toml::de::Error);

/// The table a text parses to, `None` when the text is not valid TOML.
/// Parsing is a function of the text alone.
pub uninterp spec fn parsed_table(text: Seq<char>) -> Option<toml::Table>;

/// The value a parsed table stores under a key, `None` when absent.
pub uninterp spec fn table_entry(t: toml::Table, key: Seq<char>) -> Option<toml::Value>;

/// The value under a key of a TOML value, `None` when the value is not a
/// table or has no such key.
pub uninterp spec fn value_entry(v: toml::Value, key: Seq<char>) -> Option<toml::Value>;

/// The elements of a TOML value, `None` when it is not an array.
pub uninterp spec fn value_items(v: toml::Value) -> Option<Seq<toml::Value>>;

/// The characters of a TOML value, `None` when it is not a string.
pub uninterp spec fn value_text(v: toml::Value) -> Option<Seq<char>>;

/// Relies on `<toml::Table as core::str::FromStr>::from_str`: parsing
/// succeeds exactly on valid TOML and depends on the text alone.
#[verifier::external_body]
fn parse_table(text: &str) -> (r: Result<toml::Table, toml::de::Error>)
    ensures
        r matches Ok(t) ==> parsed_table(text@) == Some(t),
        r is Err ==> parsed_table(text@) is None,
{
    text.parse::<toml::Table>()
}

/// Relies on `toml::map::Map::get`: the value stored under the key, `None`
/// when the table has no such key.
#[verifier::external_body]
fn table_get<'a>(t: &'a toml::Table, key: &str) -> (r: Option<&'a toml::Value>)
    ensures
        r matches Some(v) ==> table_entry(*t, key@) == Some(*v),
        r is None ==> table_entry(*t, key@) is None,
{
    t.get(key)
}

/// Relies on `toml::Value::get` with a string index: the value stored under
/// the key when `self` is a table that has it, `None` otherwise.
#[verifier::external_body]
fn value_get<'a>(v: &'a toml::Value, key: &str) -> (r: Option<&'a toml::Value>)
    ensures
        r matches Some(c) ==> value_entry(*v, key@) == Some(*c),
        r is None ==> value_entry(*v, key@) is None,
{
    v.get(key)
}

/// Relies on `toml::Value::as_array`: the elements when `self` is an array,
/// `None` otherwise.
#[verifier::external_body]
fn value_as_array<'a>(v: &'a toml::Value) -> (r: Option<&'a Vec<toml::Value>>)
    ensures
        r matches Some(a) ==> value_items(*v) == Some(a@),
        r is None ==> value_items(*v) is None,
{
    v.as_array()
}

/// Relies on `toml::Value::as_str`: the characters when `self` is a string,
/// `None` otherwise.
#[verifier::external_body]
fn value_as_str<'a>(v: &'a toml::Value) -> (r: Option<&'a str>)
    ensures
        r matches Some(s) ==> value_text(*v) == Some(s@),
        r is None ==> value_text(*v) is None,
{
    v.as_str()
}

/// Why a dependency file could not be used. Either way the run is aborted.
#[derive(Clone, Copy, Debug, PartialEq, Eq, Structural)]
pub enum DepsError {
    /// The text is not valid TOML.
    Unparsable,
    /// An element of a `dependencies` list is not a string.
    NonStringDependency,
}

impl DepsError {
    /// The diagnostic to print for this failure.
    pub fn message(&self) -> (r: String)
        ensures
            *self == DepsError::Unparsable ==> r@ == "Failed to parse .deps.toml"@,
            *self == DepsError::NonStringDependency ==> r@ == "dependency was not a string"@,
    {
        match self {
            DepsError::Unparsable => "Failed to parse .deps.toml".to_owned(),
            DepsError::NonStringDependency => "dependency was not a string".to_owned(),
        }
    }
}

/// What a dependency file says about a file: the `dependencies` list of the
/// top-level entry named after it. `Ok(None)` when the text has no such
/// entry, the entry has no `dependencies` key, or that key is not an array.
pub open spec fn dependencies_spec(text: Seq<char>, file: Seq<char>) -> Result<
    Option<Seq<Seq<char>>>,
    DepsError,
> {
    match parsed_table(text) {
        None => Err(DepsError::Unparsable),
        Some(t) => match table_entry(t, file) {
            None => Ok(None),
            Some(entry) => match value_entry(entry, "dependencies"@) {
                None => Ok(None),
                Some(list) => match value_items(list) {
                    None => Ok(None),
                    Some(items) => if forall|i: int|
                        0 <= i < items.len() ==> (#[trigger] value_text(items[i])) is Some {
                        Ok(Some(Seq::new(items.len(), |i: int| value_text(items[i])->Some_0)))
                    } else {
                        Err(DepsError::NonStringDependency)
                    },
                },
            },
        },
    }
}

/// Reads the declared dependencies of `filename` out of the text of a
/// dependency file.
pub fn lookup_dependencies(text: &str, filename: &str) -> (r: Result<
    Option<Vec<String>>,
    DepsError,
>)
    ensures
        ({
            let m = dependencies_spec(text@, filename@);
            match r {
                Ok(found) => m == Ok::<Option<Seq<Seq<char>>>, DepsError>(found.deep_view()),
                Err(e) => m == Err::<Option<Seq<Seq<char>>>, DepsError>(e),
            }
        }),
{
    let table = match parse_table(text) {
        Ok(t) => t,
        Err(_) => {
            return Err(DepsError::Unparsable);
        },
    };
    let entry = match table_get(&table, filename) {
        Some(v) => v,
        None => {
            return Ok(None);
        },
    };
    let list = match value_get(entry, "dependencies") {
        Some(d) => d,
        None => {
            return Ok(None);
        },
    };
    let items = match value_as_array(list) {
        Some(a) => a,
        None => {
            return Ok(None);
        },
    };
    let ghost model: Seq<toml::Value> = items@;
    let mut deps: Vec<String> = Vec::new();
    let mut i: usize = 0;
    while i < items.len()
        invariant
            parsed_table(text@) == Some(table),
            table_entry(table, filename@) == Some(*entry),
            value_entry(*entry, "dependencies"@) == Some(*list),
            value_items(*list) == Some(model),
            i <= items.len(),
            items@ == model,
            deps@.len() == i,
            forall|j: int| 0 <= j < i ==> (#[trigger] value_text(model[j])) is Some,
            forall|j: int| 0 <= j < i ==> deps@[j]@ == value_text(#[trigger] model[j])->Some_0,
        decreases items.len() - i,
    {
        match value_as_str(&items[i]) {
            Some(s) => {
                deps.push(s.to_owned());
            },
            None => {
                proof {
                    assert(value_text(model[i as int]) is None);
                    assert(!(forall|k: int|
                        0 <= k < model.len() ==> (#[trigger] value_text(model[k])) is Some));
                }
                return Err(DepsError::NonStringDependency);
            },
        }
        i += 1;
    }
    proof {
        assert(deps.deep_view() =~= Seq::new(model.len(), |k: int| value_text(model[k])->Some_0));
    }
    Ok(Some(deps))
}

} // verus!
