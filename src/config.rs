//! A JSON-like configuration tree and the rewrite of its `python.pythonPath`
//! field.

use crate::error::LaunchError;
use vstd::prelude::*;

verus! {

/// serde_json's `Number`, held opaque: numbers are carried through as they
/// came and never read.
#[verifier::external_type_specification]
#[verifier::external_body]
pub struct ExNumber(zed_extension_api::serde_json::Number);

/// A configuration value as the editor hands it over: a tree of objects,
/// arrays and scalars. The entries of an object are held in order. An object
/// read from JSON has distinct keys; where one is built with a repeated key,
/// the first entry with it is the field.
#[derive(Debug)]
pub enum ConfigValue {
    Null,
    Bool(bool),
    Number(zed_extension_api::serde_json::Number),
    String(String),
    Array(Vec<ConfigValue>),
    Object(Vec<(String, ConfigValue)>),
}

pub open spec fn python_key() -> Seq<char> {
    "python"@
}

pub open spec fn python_path_key() -> Seq<char> {
    "pythonPath"@
}

/// `i` is the position of the first entry whose key is `key`.
pub open spec fn is_first_key(entries: Seq<(String, ConfigValue)>, key: Seq<char>, i: int) -> bool {
    &&& 0 <= i < entries.len()
    &&& entries[i].0@ == key
    &&& forall|j: int| 0 <= j < i ==> entries[j].0@ != key
}

/// The position of the first entry with key `key`, if any.
pub open spec fn first_key(entries: Seq<(String, ConfigValue)>, key: Seq<char>) -> Option<int> {
    if exists|i: int| is_first_key(entries, key, i) {
        Some(choose|i: int| is_first_key(entries, key, i))
    } else {
        None
    }
}

/// Where field `key` stands in `v`: only an object has fields.
pub open spec fn field_index(v: ConfigValue, key: Seq<char>) -> Option<int> {
    match v {
        ConfigValue::Object(entries) => first_key(entries@, key),
        _ => None,
    }
}

/// The value of field `key` of `v`, if `v` is an object that has it.
pub open spec fn field(v: ConfigValue, key: Seq<char>) -> Option<ConfigValue> {
    match field_index(v, key) {
        Some(i) => Some(v->Object_0@[i].1),
        None => None,
    }
}

/// The value at `python.pythonPath`, if both levels are there.
pub open spec fn python_path_of(v: ConfigValue) -> Option<ConfigValue> {
    match field(v, python_key()) {
        Some(python) => field(python, python_path_key()),
        None => None,
    }
}

/// `r` is `v` with the value of field `key` replaced by `child`: the key and
/// every other entry stay as they were.
pub open spec fn is_field_replaced(v: ConfigValue, key: Seq<char>, child: ConfigValue, r: ConfigValue) -> bool {
    match field_index(v, key) {
        Some(i) => r matches ConfigValue::Object(entries) && entries@ == v->Object_0@.update(
            i,
            (v->Object_0@[i].0, child),
        ),
        None => r == v,
    }
}

/// `r` is `v` with the string `path` at `python.pythonPath`, and nothing
/// else changed.
pub open spec fn python_path_set(v: ConfigValue, path: Seq<char>, r: ConfigValue) -> bool {
    let python = field(v, python_key())->Some_0;
    let i = field_index(v, python_key())->Some_0;
    let j = field_index(python, python_path_key())->Some_0;
    &&& r is Object
    &&& 0 <= i < r->Object_0@.len()
    &&& is_field_replaced(v, python_key(), r->Object_0@[i].1, r)
    &&& r->Object_0@[i].1 is Object
    &&& 0 <= j < r->Object_0@[i].1->Object_0@.len()
    &&& is_field_replaced(
        python,
        python_path_key(),
        r->Object_0@[i].1->Object_0@[j].1,
        r->Object_0@[i].1,
    )
    &&& r->Object_0@[i].1->Object_0@[j].1 matches ConfigValue::String(s) && s@ == path
}

/// The position of the first entry of `entries` whose key is `key`.
fn find_key(entries: &Vec<(String, ConfigValue)>, key: &String) -> (r: Option<usize>)
    ensures
        r matches Some(i) ==> first_key(entries@, key@) == Some(i as int),
        r is None ==> first_key(entries@, key@) is None,
{
    let mut i: usize = 0;
    while i < entries.len()
        invariant
            i <= entries@.len(),
            forall|j: int| 0 <= j < i ==> entries@[j].0@ != key@,
        decreases entries@.len() - i,
    {
        if entries[i].0 == *key {
            assert(is_first_key(entries@, key@, i as int));
            let ghost k = choose|k: int| is_first_key(entries@, key@, k);
            assert(k == i as int);
            return Some(i);
        }
        i = i + 1;
    }
    None
}

/// An owned copy of `s`.
pub(crate) fn owned(s: &str) -> (r: String)
    ensures
        r@ == s@,
{
    s.to_owned()
}

/// Replaces the value of field `key` of `v` by `child`.
fn replace_field(v: ConfigValue, key: &String, child: ConfigValue) -> (r: ConfigValue)
    ensures
        is_field_replaced(v, key@, child, r),
{
    match v {
        ConfigValue::Object(mut entries) => {
            let ghost before = entries@;
            match find_key(&entries, key) {
                Some(i) => {
                    let (k, _) = entries.remove(i);
                    entries.insert(i, (k, child));
                    assert(entries@ =~= before.update(i as int, (before[i as int].0, child)));
                    ConfigValue::Object(entries)
                },
                None => ConfigValue::Object(entries),
            }
        },
        other => other,
    }
}

/// What the host platform's path joining makes of `rel` pushed onto `root`.
pub uninterp spec fn joined_path(root: Seq<char>, rel: Seq<char>) -> Seq<char>;

/// Relies on `PathBuf::from_iter`, which pushes `root` and then `rel` (the
/// platform's join), and on `Path::to_str`, which gives that path as a string
/// where it is valid Unicode. Both parts are strings and a join adds only a
/// separator, so the joined path is always valid Unicode.
#[verifier::external_body]
fn join_path(root: &str, rel: &str) -> (r: Option<String>)
    ensures
        r is Some,
        r matches Some(s) ==> s@ == joined_path(root@, rel@),
{
    match std::path::PathBuf::from_iter([root, rel]).to_str() {
        Some(s) => Some(s.to_owned()),
        None => None,
    }
}

/// The string at `python.pythonPath` of `settings`: nothing where the field
/// is absent, an error where it holds anything but a string.
pub fn python_path_setting(settings: &ConfigValue) -> (r: Result<Option<String>, LaunchError>)
    ensures
        python_path_of(*settings) is None ==> r == Ok::<Option<String>, LaunchError>(None),
        python_path_of(*settings) matches Some(ConfigValue::String(p)) ==> r == Ok::<
            Option<String>,
            LaunchError,
        >(Some(p)),
        python_path_of(*settings) matches Some(other) && !(other is String) ==> r matches Err(
            LaunchError::MalformedPythonPath,
        ),
{
    let python_name = owned("python");
    let path_name = owned("pythonPath");
    proof {
        reveal_strlit("python");
        reveal_strlit("pythonPath");
    }
    if let ConfigValue::Object(entries) = settings {
        if let Some(i) = find_key(entries, &python_name) {
            if let ConfigValue::Object(inner) = &entries[i].1 {
                if let Some(j) = find_key(inner, &path_name) {
                    return match &inner[j].1 {
                        ConfigValue::String(p) => Ok(Some(p.clone())),
                        _ => Err(LaunchError::MalformedPythonPath),
                    };
                }
            }
        }
    }
    Ok(None)
}

/// Puts the joined path `joined` at `python.pythonPath` of `settings`, whose
/// field there holds the string `python_path`. Where the join gave no string,
/// the error names `root` and `python_path`.
pub fn finish_python_path(
    settings: ConfigValue,
    root: String,
    python_path: String,
    joined: Option<String>,
) -> (r: Result<ConfigValue, LaunchError>)
    requires
        python_path_of(settings) == Some(ConfigValue::String(python_path)),
    ensures
        joined is None ==> r == Err::<ConfigValue, LaunchError>(
            LaunchError::UnencodablePath { root, python_path },
        ),
        joined matches Some(j) ==> r matches Ok(w) && python_path_set(settings, j@, w),
{
    let python_name = owned("python");
    let path_name = owned("pythonPath");
    proof {
        reveal_strlit("python");
        reveal_strlit("pythonPath");
    }
    let joined = match joined {
        Some(j) => j,
        None => {
            return Err(LaunchError::UnencodablePath { root, python_path });
        },
    };
    let ghost jv = joined@;
    let ghost before = settings;
    match settings {
        ConfigValue::Object(mut entries) => {
            let ghost outer = entries@;
            match find_key(&entries, &python_name) {
                Some(i) => {
                    let (k, python) = entries.remove(i);
                    let new_python = replace_field(python, &path_name, ConfigValue::String(joined));
                    entries.insert(i, (k, new_python));
                    assert(entries@ =~= outer.update(i as int, (outer[i as int].0, new_python)));
                    let r = ConfigValue::Object(entries);
                    assert(python_path_set(before, jv, r));
                    Ok(r)
                },
                None => Ok(ConfigValue::Object(entries)),
            }
        },
        other => Ok(other),
    }
}

/// Makes `python.pythonPath` of `settings` the path of that value joined
/// onto `root`. Settings without that field come back unchanged.
pub fn update_python_path(settings: ConfigValue, root: String) -> (r: Result<
    ConfigValue,
    LaunchError,
>)
    ensures
        python_path_of(settings) is None ==> r == Ok::<ConfigValue, LaunchError>(settings),
        python_path_of(settings) matches Some(other) && !(other is String) ==> r matches Err(
            LaunchError::MalformedPythonPath,
        ),
        python_path_of(settings) matches Some(ConfigValue::String(p)) ==> match r {
            Ok(w) => python_path_set(settings, joined_path(root@, p@), w),
            Err(_) => false,
        },
{
    match python_path_setting(&settings) {
        Err(e) => Err(e),
        Ok(None) => Ok(settings),
        Ok(Some(python_path)) => {
            let joined = join_path(root.as_str(), python_path.as_str());
            finish_python_path(settings, root, python_path, joined)
        },
    }
}

} // verus!
