use vstd::prelude::*;

verus! {

/// A parsed manifest: an untyped tree of strings, numbers, booleans, arrays
/// and tables.
#[derive(Debug, PartialEq)]
pub enum ManifestValue {
    String(String),
    Integer(i64),
    /// A floating-point number; the manifest logic never reads its value.
    Float,
    Boolean(bool),
    /// A date or time, in its TOML spelling.
    Datetime(String),
    Array(Vec<ManifestValue>),
    /// The entries of a table; where a key occurs twice the first entry counts.
    Table(Vec<(String, ManifestValue)>),
}

#[verifier::external_type_specification]
#[verifier::external_body]
pub struct ExTomlValue(toml::Value);

/// The outcome of parsing `text` as TOML: the document, or the parser's
/// diagnostic.
pub uninterp spec fn toml_parsed(text: Seq<char>) -> Result<ManifestValue, Seq<char>>;

/// Relies on `toml::Value`'s `FromStr` impl (`toml::from_str`): parses TOML
/// text into a document, or reports the parser's diagnostic (its `Display`).
#[verifier::external_body]
pub(crate) fn parse_toml(text: &str) -> (r: Result<ManifestValue, String>)
    ensures
        match r {
            Ok(d) => toml_parsed(text@) == Ok::<ManifestValue, Seq<char>>(d),
            Err(m) => toml_parsed(text@) == Err::<ManifestValue, Seq<char>>(m@),
        },
{
    match text.parse::<toml::Value>() {
        Ok(v) => Ok(from_toml(v)),
        Err(e) => Err(e.to_string()),
    }
}

/// Carries a `toml::Value` over into a `ManifestValue`, variant by variant: arrays
/// element by element, tables entry by entry in the map's order.
#[verifier::external_body]
fn from_toml(v: toml::Value) -> ManifestValue {
    match v {
        toml::Value::String(s) => ManifestValue::String(s),
        toml::Value::Integer(i) => ManifestValue::Integer(i),
        toml::Value::Float(_) => ManifestValue::Float,
        toml::Value::Boolean(b) => ManifestValue::Boolean(b),
        toml::Value::Datetime(d) => ManifestValue::Datetime(d.to_string()),
        toml::Value::Array(a) => ManifestValue::Array(a.into_iter().map(from_toml).collect()),
        toml::Value::Table(t) => ManifestValue::Table(t.into_iter().map(|(k, x)| (k, from_toml(x))).collect()),
    }
}

/// The value of the first entry of `t` whose key is `key`.
pub open spec fn entry(t: Seq<(String, ManifestValue)>, key: Seq<char>) -> Option<ManifestValue>
    decreases t.len(),
{
    if t.len() == 0 {
        None
    } else if t[0].0@ == key {
        Some(t[0].1)
    } else {
        entry(t.drop_first(), key)
    }
}

/// The value under `key` in a table; nothing for a value that is no table.
pub open spec fn lookup(v: ManifestValue, key: Seq<char>) -> Option<ManifestValue> {
    match v {
        ManifestValue::Table(t) => entry(t@, key),
        _ => None,
    }
}

/// The texts of an array whose elements are all strings.
pub open spec fn string_items(v: ManifestValue) -> Option<Seq<Seq<char>>> {
    match v {
        ManifestValue::Array(a) => if forall|i: int| 0 <= i < a@.len() ==> a@[i] is String {
            Some(a@.map_values(|x: ManifestValue| x->String_0@))
        } else {
            None
        },
        _ => None,
    }
}

impl ManifestValue {
    /// Whether this is a table.
    pub fn is_table(&self) -> (r: bool)
        ensures
            r == (*self is Table),
    {
        match self {
            ManifestValue::Table(_) => true,
            _ => false,
        }
    }

    /// The value under `key`, where this is a table that has one.
    pub fn get(&self, key: &str) -> (r: Option<&ManifestValue>)
        ensures
            match r {
                Some(x) => lookup(*self, key@) == Some(*x),
                None => lookup(*self, key@) is None,
            },
    {
        match self {
            ManifestValue::Table(t) => {
                let k = key.to_owned();
                let mut i: usize = 0;
                assert(t@.skip(0) =~= t@);
                while i < t.len()
                    invariant
                        0 <= i <= t@.len(),
                        k@ == key@,
                        *self == ManifestValue::Table(*t),
                        entry(t@, key@) == entry(t@.skip(i as int), key@),
                    decreases t@.len() - i,
                {
                    proof {
                        assert(t@.skip(i as int).drop_first() =~= t@.skip(i + 1));
                        assert(t@.skip(i as int)[0] == t@[i as int]);
                    }
                    if t[i].0 == k {
                        return Some(&t[i].1);
                    }
                    i = i + 1;
                }
                None
            },
            _ => None,
        }
    }

    /// The texts of this array, where it is one whose elements are all strings.
    pub fn as_strings(&self) -> (r: Option<Vec<String>>)
        ensures
            match r {
                Some(v) => string_items(*self) == Some(v@.map_values(|s: String| s@)),
                None => string_items(*self) is None,
            },
    {
        match self {
            ManifestValue::Array(a) => {
                let mut out: Vec<String> = Vec::new();
                let mut i: usize = 0;
                while i < a.len()
                    invariant
                        0 <= i <= a@.len(),
                        out@.len() == i,
                        *self == ManifestValue::Array(*a),
                        forall|j: int| 0 <= j < i ==> a@[j] is String && out@[j]@ == a@[j]->String_0@,
                    decreases a@.len() - i,
                {
                    match &a[i] {
                        ManifestValue::String(s) => out.push(s.clone()),
                        _ => {
                            assert(!(a@[i as int] is String));
                            return None;
                        },
                    }
                    i = i + 1;
                }
                proof {
                    assert(out@.map_values(|s: String| s@) =~= a@.map_values(|x: ManifestValue| x->String_0@));
                }
                Some(out)
            },
            _ => None,
        }
    }
}

} // verus!
