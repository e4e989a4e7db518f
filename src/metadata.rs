//! Pull-request metadata, as `gh pr view --json` prints it, slimmed down
//! before it is shown to a model: authors become their login, and comments
//! keep only their author's login and their body.

use vstd::prelude::*;

verus! {

/// A JSON value. A number is held as its text.
pub enum Json {
    Null,
    Bool(bool),
    Number(Seq<char>),
    Str(Seq<char>),
    Array(Seq<Json>),
    Object(Map<Seq<char>, Json>),
}

/// serde_json's JSON value, carried opaquely; its content is `json_model`.
#[verifier::external_type_specification]
#[verifier::external_body]
pub struct ExJsonValue(serde_json::Value);

/// serde_json's object map, carried opaquely; its entries are `json_map_model`.
#[verifier::external_type_specification]
#[verifier::external_body]
#[verifier::reject_recursive_types(K)]
#[verifier::reject_recursive_types(V)]
pub struct ExJsonMap<K, V>(serde_json::Map<K, V>);

/// serde_json's error, only told apart from success.
#[verifier::external_type_specification]
#[verifier::external_body]
pub struct ExJsonError(serde_json::Error);

/// The JSON value that a `serde_json::Value` holds.
pub uninterp spec fn json_model(v: serde_json::Value) -> Json;

/// The entries of a `serde_json::Map`.
pub uninterp spec fn json_map_model(m: serde_json::Map<String, serde_json::Value>) -> Map<
    Seq<char>,
    Json,
>;

/// The value that `serde_json::from_str` reads from a text, when it reads one.
pub uninterp spec fn parsed_json(s: Seq<char>) -> Option<Json>;

/// The text that `serde_json::to_string` writes for a value.
pub uninterp spec fn json_text(j: Json) -> Seq<char>;

/// Relies on serde_json::from_str: it reads a value from the text, or fails,
/// depending on the text alone.
#[verifier::external_body]
fn parse_json(s: &str) -> (r: Result<serde_json::Value, serde_json::Error>)
    ensures
        match r {
            Ok(v) => parsed_json(s@) == Some(json_model(v)),
            Err(_) => parsed_json(s@) is None,
        },
{
    serde_json::from_str(s)
}

/// Relies on serde_json::to_string: the text of a value depends on the value
/// alone (objects are ordered by key).
#[verifier::external_body]
fn write_json(v: &serde_json::Value) -> (r: Result<String, serde_json::Error>)
    ensures
        r matches Ok(t) ==> t@ == json_text(json_model(*v)),
{
    serde_json::to_string(v)
}

/// The value under `key` of an object.
pub open spec fn field(j: Json, key: Seq<char>) -> Option<Json> {
    match j {
        Json::Object(m) => if m.contains_key(key) {
            Some(m[key])
        } else {
            None
        },
        _ => None,
    }
}

/// Relies on serde_json::Value::get with a string index: the value under
/// the key in an object; nothing for a missing key or another kind of value.
#[verifier::external_body]
fn json_get<'a>(v: &'a serde_json::Value, key: &str) -> (r: Option<&'a serde_json::Value>)
    ensures
        match r {
            Some(x) => field(json_model(*v), key@) == Some(json_model(*x)),
            None => field(json_model(*v), key@) is None,
        },
{
    v.get(key)
}

/// The text of a string value.
pub open spec fn str_of(j: Option<Json>) -> Option<Seq<char>> {
    match j {
        Some(Json::Str(s)) => Some(s),
        _ => None,
    }
}

/// Relies on serde_json::Value::as_str: the text of a string value, nothing
/// for another kind of value.
pub assume_specification[ serde_json::Value::as_str ](v: &serde_json::Value) -> (r: Option<&str>)
    ensures
        match r {
            Some(s) => str_of(Some(json_model(*v))) == Some(s@),
            None => str_of(Some(json_model(*v))) is None,
        },
;

/// Relies on serde_json::Value::as_array: the elements of an array value,
/// nothing for another kind of value.
pub assume_specification[ serde_json::Value::as_array ](v: &serde_json::Value) -> (r: Option<
    &Vec<serde_json::Value>,
>)
    ensures
        match r {
            Some(items) => json_model(*v) == Json::Array(
                items@.map_values(|x: serde_json::Value| json_model(x)),
            ),
            None => !(json_model(*v) is Array),
        },
;

/// Relies on serde_json::Map::new: an empty map.
pub assume_specification[ serde_json::Map::new ]() -> (r: serde_json::Map<String, serde_json::Value>)
    ensures
        json_map_model(r).dom() == Set::<Seq<char>>::empty(),
;

/// Relies on serde_json::Map::insert: sets the value under a key, handing
/// back the value it replaces.
pub assume_specification[ serde_json::Map::<String, serde_json::Value>::insert ](
    m: &mut serde_json::Map<String, serde_json::Value>,
    k: String,
    v: serde_json::Value,
) -> (r: Option<serde_json::Value>)
    ensures
        r is Some <==> json_map_model(*old(m)).contains_key(k@),
        json_map_model(*final(m)) == json_map_model(*old(m)).insert(k@, json_model(v)),
;

/// Relies on serde_json::Value::String: a string value.
#[verifier::external_body]
fn json_string(s: String) -> (r: serde_json::Value)
    ensures
        json_model(r) == Json::Str(s@),
{
    serde_json::Value::String(s)
}

/// Relies on serde_json::Value::Array: an array value.
#[verifier::external_body]
fn json_array(items: Vec<serde_json::Value>) -> (r: serde_json::Value)
    ensures
        json_model(r) == Json::Array(items@.map_values(|x: serde_json::Value| json_model(x))),
{
    serde_json::Value::Array(items)
}

/// Relies on serde_json::Value::Object: an object value.
#[verifier::external_body]
fn json_object(m: serde_json::Map<String, serde_json::Value>) -> (r: serde_json::Value)
    ensures
        json_model(r) == Json::Object(json_map_model(m)),
{
    serde_json::Value::Object(m)
}

/// Relies on serde_json::Value::Object: the entries of an object value; any
/// other value is handed back.
#[verifier::external_body]
fn into_object(v: serde_json::Value) -> (r: Result<
    serde_json::Map<String, serde_json::Value>,
    serde_json::Value,
>)
    ensures
        match r {
            Ok(m) => json_model(v) == Json::Object(json_map_model(m)),
            Err(w) => w == v && !(json_model(v) is Object),
        },
{
    match v {
        serde_json::Value::Object(m) => Ok(m),
        other => Err(other),
    }
}

/// The login of a comment's author.
pub open spec fn comment_login(c: Json) -> Option<Seq<char>> {
    match field(c, "author"@) {
        Some(a) => str_of(field(a, "login"@)),
        None => None,
    }
}

/// A comment reduced to its author's login and its body, each when it is
/// there; nothing when neither is.
pub open spec fn slim_comment(c: Json) -> Option<Json> {
    let login = comment_login(c);
    let body = str_of(field(c, "body"@));
    if login is None && body is None {
        None
    } else {
        let with_login = match login {
            Some(l) => Map::empty().insert("login"@, Json::Str(l)),
            None => Map::empty(),
        };
        Some(
            Json::Object(
                match body {
                    Some(b) => with_login.insert("body"@, Json::Str(b)),
                    None => with_login,
                },
            ),
        )
    }
}

/// The slimmed comments, in order, without those that kept nothing.
pub open spec fn slim_comments(cs: Seq<Json>) -> Seq<Json>
    decreases cs.len(),
{
    if cs.len() == 0 {
        Seq::empty()
    } else {
        let earlier = slim_comments(cs.drop_last());
        match slim_comment(cs.last()) {
            Some(s) => earlier.push(s),
            None => earlier,
        }
    }
}

/// The metadata with its author replaced by the author's login, when that is
/// a string, and its comments slimmed, when they are an array. Anything but
/// an object stays as it is.
pub open spec fn minimized(j: Json) -> Json {
    match j {
        Json::Object(m) => {
            let with_author = match str_of(
                match field(j, "author"@) {
                    Some(a) => field(a, "login"@),
                    None => None,
                },
            ) {
                Some(login) => m.insert("author"@, Json::Str(login)),
                None => m,
            };
            Json::Object(
                match field(Json::Object(with_author), "comments"@) {
                    Some(Json::Array(cs)) => with_author.insert(
                        "comments"@,
                        Json::Array(slim_comments(cs)),
                    ),
                    _ => with_author,
                },
            )
        },
        _ => j,
    }
}

fn slim_comment_value(c: &serde_json::Value) -> (r: Option<serde_json::Value>)
    ensures
        match r {
            Some(v) => slim_comment(json_model(*c)) == Some(json_model(v)),
            None => slim_comment(json_model(*c)) is None,
        },
{
    let login = match json_get(c, "author") {
        Some(author) => match json_get(author, "login") {
            Some(l) => l.as_str(),
            None => None,
        },
        None => None,
    };
    let body = match json_get(c, "body") {
        Some(b) => b.as_str(),
        None => None,
    };
    if login.is_none() && body.is_none() {
        return None;
    }
    let mut map = serde_json::Map::new();
    assert(json_map_model(map) =~= Map::<Seq<char>, Json>::empty());
    if let Some(l) = login {
        map.insert(String::from_str("login"), json_string(String::from_str(l)));
    }
    if let Some(b) = body {
        map.insert(String::from_str("body"), json_string(String::from_str(b)));
    }
    Some(json_object(map))
}

fn slim_comment_values(items: &Vec<serde_json::Value>) -> (r: Vec<serde_json::Value>)
    ensures
        r@.map_values(|x: serde_json::Value| json_model(x)) == slim_comments(
            items@.map_values(|x: serde_json::Value| json_model(x)),
        ),
{
    let ghost all = items@.map_values(|x: serde_json::Value| json_model(x));
    let mut out: Vec<serde_json::Value> = Vec::new();
    let mut i: usize = 0;
    while i < items.len()
        invariant
            i <= items@.len(),
            all == items@.map_values(|x: serde_json::Value| json_model(x)),
            out@.map_values(|x: serde_json::Value| json_model(x)) == slim_comments(
                all.take(i as int),
            ),
        decreases items.len() - i,
    {
        assert(all.take(i + 1).drop_last() =~= all.take(i as int));
        let ghost before = out@.map_values(|x: serde_json::Value| json_model(x));
        match slim_comment_value(&items[i]) {
            Some(v) => {
                out.push(v);
                assert(out@.map_values(|x: serde_json::Value| json_model(x)) =~= before.push(
                    json_model(v),
                ));
            },
            None => {},
        }
        i += 1;
    }
    assert(all.take(items.len() as int) =~= all);
    out
}

/// The slimmed form of a metadata value.
pub fn minimize_json(value: serde_json::Value) -> (r: serde_json::Value)
    ensures
        json_model(r) == minimized(json_model(value)),
{
    let login = match json_get(&value, "author") {
        Some(author) => match json_get(author, "login") {
            Some(l) => match l.as_str() {
                Some(s) => Some(String::from_str(s)),
                None => None,
            },
            None => None,
        },
        None => None,
    };
    let slim = match json_get(&value, "comments") {
        Some(comments) => match comments.as_array() {
            Some(items) => Some(slim_comment_values(items)),
            None => None,
        },
        None => None,
    };
    match into_object(value) {
        Err(other) => other,
        Ok(map) => {
            let mut map = map;
            if let Some(l) = login {
                map.insert(String::from_str("author"), json_string(l));
            }
            if let Some(s) = slim {
                map.insert(String::from_str("comments"), json_array(s));
            }
            json_object(map)
        },
    }
}

/// Why metadata could not be slimmed.
#[derive(Debug, Clone, Copy, PartialEq, Eq, Structural)]
pub enum MetadataError {
    /// The text is not JSON.
    InvalidJson,
    /// The slimmed value could not be written back as JSON.
    Unwritable,
}

/// Slims the JSON metadata of a pull request.
pub fn minimize_pr_metadata(metadata: &str) -> (r: Result<String, MetadataError>)
    ensures
        match parsed_json(metadata@) {
            None => r == Err::<String, MetadataError>(MetadataError::InvalidJson),
            Some(j) => match r {
                Ok(text) => text@ == json_text(minimized(j)),
                Err(e) => e == MetadataError::Unwritable,
            },
        },
{
    let value = match parse_json(metadata) {
        Ok(v) => v,
        Err(_) => {
            return Err(MetadataError::InvalidJson);
        },
    };
    let slim = minimize_json(value);
    match write_json(&slim) {
        Ok(text) => Ok(text),
        Err(_) => Err(MetadataError::Unwritable),
    }
}

} // verus!
