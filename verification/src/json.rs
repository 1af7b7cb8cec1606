//! A plain model of JSON values, the lookups the library performs on them,
//! and the two `serde_json` calls (parse and compact serialisation) made
//! through trusted wrappers.
use vstd::prelude::*;

verus! {

/// The `serde_json` value type, carried opaquely through the conversions.
#[verifier::external_type_specification]
#[verifier::external_body]
pub struct ExSerdeValue(serde_json::Value);

/// The `serde_json` number type, carried opaquely through the conversions.
#[verifier::external_type_specification]
#[verifier::external_body]
pub struct ExSerdeNumber(serde_json::Number);

/// A JSON number as `serde_json` distinguishes it.
#[derive(Debug, PartialEq, Eq)]
pub enum JsonNumber {
    /// A non-negative integer.
    Unsigned(u64),
    /// A negative integer.
    Signed(i64),
    /// Any other number, in its textual form.
    Decimal(String),
}

/// A JSON value. Object members are held as a list of key and value; a
/// parsed object lists them in the order `serde_json` keeps them (sorted by
/// key), and compact text writes them sorted by key whatever their order here.
#[derive(Debug, PartialEq, Eq)]
pub enum JsonValue {
    Null,
    Bool(bool),
    Number(JsonNumber),
    Str(String),
    Array(Vec<JsonValue>),
    Object(Vec<(String, JsonValue)>),
}

/// The mathematical form of a JSON number.
pub enum NumberView {
    Unsigned(u64),
    Signed(i64),
    Decimal(Seq<char>),
}

/// The mathematical form of a JSON value.
pub enum Json {
    Null,
    Bool(bool),
    Number(NumberView),
    Str(Seq<char>),
    Array(Seq<Json>),
    Object(Seq<(Seq<char>, Json)>),
}

pub open spec fn number_view(n: JsonNumber) -> NumberView {
    match n {
        JsonNumber::Unsigned(u) => NumberView::Unsigned(u),
        JsonNumber::Signed(i) => NumberView::Signed(i),
        JsonNumber::Decimal(d) => NumberView::Decimal(d@),
    }
}

/// The mathematical form of a model value.
pub open spec fn json_view(v: JsonValue) -> Json
    decreases v,
{
    match v {
        JsonValue::Null => Json::Null,
        JsonValue::Bool(b) => Json::Bool(b),
        JsonValue::Number(n) => Json::Number(number_view(n)),
        JsonValue::Str(s) => Json::Str(s@),
        JsonValue::Array(items) => Json::Array(
            Seq::new(
                items@.len(),
                |i: int|
                    if 0 <= i < items@.len() {
                        json_view(items@[i])
                    } else {
                        Json::Null
                    },
            ),
        ),
        JsonValue::Object(entries) => Json::Object(
            Seq::new(
                entries@.len(),
                |i: int|
                    if 0 <= i < entries@.len() {
                        (entries@[i].0@, json_view(entries@[i].1))
                    } else {
                        (Seq::empty(), Json::Null)
                    },
            ),
        ),
    }
}

impl View for JsonValue {
    type V = Json;

    open spec fn view(&self) -> Json {
        json_view(*self)
    }
}

impl View for JsonNumber {
    type V = NumberView;

    open spec fn view(&self) -> NumberView {
        number_view(*self)
    }
}

/// Looks a key up among object members (first match).
pub open spec fn entries_get(entries: Seq<(Seq<char>, Json)>, key: Seq<char>) -> Option<Json>
    decreases entries.len(),
{
    if entries.len() == 0 {
        None
    } else if entries[0].0 == key {
        Some(entries[0].1)
    } else {
        entries_get(entries.drop_first(), key)
    }
}

/// `value.get(key)` for objects; `None` for every other value.
pub open spec fn field(v: Json, key: Seq<char>) -> Option<Json> {
    match v {
        Json::Object(entries) => entries_get(entries, key),
        _ => None,
    }
}

/// `value.as_str()`.
pub open spec fn as_text(v: Json) -> Option<Seq<char>> {
    match v {
        Json::Str(s) => Some(s),
        _ => None,
    }
}

/// `value.as_u64()`.
pub open spec fn as_unsigned(v: Json) -> Option<u64> {
    match v {
        Json::Number(NumberView::Unsigned(n)) => Some(n),
        _ => None,
    }
}

/// `value.as_bool()`.
pub open spec fn as_boolean(v: Json) -> Option<bool> {
    match v {
        Json::Bool(b) => Some(b),
        _ => None,
    }
}

/// `value.get(key).and_then(Value::as_str)`.
pub open spec fn text_field(v: Json, key: Seq<char>) -> Option<Seq<char>> {
    match field(v, key) {
        Some(f) => as_text(f),
        None => None,
    }
}

/// `value.get(outer)?.get(inner)?.as_str()`.
pub open spec fn nested_text(v: Json, outer: Seq<char>, inner: Seq<char>) -> Option<Seq<char>> {
    match field(v, outer) {
        Some(o) => text_field(o, inner),
        None => None,
    }
}

/// What `serde_json::from_str::<Value>` yields for a text, in mathematical form.
pub uninterp spec fn parsed_json(text: Seq<char>) -> Option<Json>;

/// What `serde_json::to_string` yields for a value (compact form).
pub uninterp spec fn compact_text(v: Json) -> Seq<char>;

/// The message of the error `serde_json::from_str::<Value>` reports for a text.
pub uninterp spec fn json_error_text(text: Seq<char>) -> Seq<char>;

pub open spec fn opt_view(r: Option<&JsonValue>) -> Option<Json> {
    match r {
        Some(f) => Some(f@),
        None => None,
    }
}

pub open spec fn opt_str_view(r: Option<String>) -> Option<Seq<char>> {
    match r {
        Some(s) => Some(s@),
        None => None,
    }
}

/// A copy of a number.
pub fn copy_number(n: &JsonNumber) -> (r: JsonNumber)
    ensures
        r@ == n@,
{
    match n {
        JsonNumber::Unsigned(u) => JsonNumber::Unsigned(*u),
        JsonNumber::Signed(i) => JsonNumber::Signed(*i),
        JsonNumber::Decimal(d) => JsonNumber::Decimal(d.clone()),
    }
}

impl Clone for JsonValue {
    /// A deep copy.
    fn clone(&self) -> (r: Self)
        ensures
            r@ == self@,
    {
        copy_json(self)
    }
}

/// A deep copy of a value.
#[verifier::loop_isolation(false)]
pub fn copy_json(v: &JsonValue) -> (r: JsonValue)
    ensures
        r@ == v@,
    decreases v,
{
    match v {
        JsonValue::Null => JsonValue::Null,
        JsonValue::Bool(b) => JsonValue::Bool(*b),
        JsonValue::Number(n) => JsonValue::Number(copy_number(n)),
        JsonValue::Str(s) => JsonValue::Str(s.clone()),
        JsonValue::Array(items) => {
            let mut out: Vec<JsonValue> = Vec::new();
            let mut i: usize = 0;
            while i < items.len()
                invariant
                    i <= items.len(),
                    out@.len() == i,
                    forall|k: int| 0 <= k < i ==> (#[trigger] out@[k])@ == items@[k]@,
                decreases items.len() - i,
            {
                proof {
                    assert(decreases_to!(v => v->Array_0));
                }
                let c = copy_json(&items[i]);
                out.push(c);
                i = i + 1;
            }
            let r = JsonValue::Array(out);
            assert(r@ == v@) by {
                if let Json::Array(a) = r@ {
                    if let Json::Array(b) = v@ {
                        assert(a =~= b);
                    }
                }
            }
            r
        },
        JsonValue::Object(entries) => {
            let mut out: Vec<(String, JsonValue)> = Vec::new();
            let mut i: usize = 0;
            while i < entries.len()
                invariant
                    i <= entries.len(),
                    out@.len() == i,
                    forall|k: int| 0 <= k < i ==> (#[trigger] out@[k]).0@ == entries@[k].0@
                        && out@[k].1@ == entries@[k].1@,
                decreases entries.len() - i,
            {
                proof {
                    assert(decreases_to!(v => v->Object_0));
                    assert(decreases_to!(entries[i as int] => entries[i as int].1));
                }
                let value = copy_json(&entries[i].1);
                out.push((entries[i].0.clone(), value));
                i = i + 1;
            }
            let r = JsonValue::Object(out);
            assert(r@ == v@) by {
                if let Json::Object(a) = r@ {
                    if let Json::Object(b) = v@ {
                        assert(a =~= b);
                    }
                }
            }
            r
        },
    }
}

/// Finds an object member by key.
pub fn get<'a>(v: &'a JsonValue, key: &str) -> (r: Option<&'a JsonValue>)
    ensures
        opt_view(r) == field(v@, key@),
{
    match v {
        JsonValue::Object(entries) => {
            let ghost es = match v@ {
                Json::Object(e) => e,
                _ => Seq::empty(),
            };
            assert(es.skip(0) =~= es);
            assert(field(v@, key@) == entries_get(es, key@));
            let mut i: usize = 0;
            while i < entries.len()
                invariant
                    i <= entries.len(),
                    es.len() == entries@.len(),
                    forall|k: int| 0 <= k < es.len() ==> #[trigger] es[k] == (entries@[k].0@, entries@[k].1@),
                    entries_get(es, key@) == entries_get(es.skip(i as int), key@),
                    field(v@, key@) == entries_get(es, key@),
                decreases entries.len() - i,
            {
                assert(es.skip(i as int).drop_first() =~= es.skip(i + 1));
                assert(es.skip(i as int)[0] == es[i as int]);
                if crate::text::str_eq(entries[i].0.as_str(), key) {
                    assert(entries_get(es.skip(i as int), key@) == Some(es[i as int].1));
                    assert(opt_view(Some(&entries[i as int].1)) == Some(entries@[i as int].1@));
                    return Some(&entries[i].1);
                }
                i = i + 1;
            }
            None
        },
        _ => None,
    }
}

/// `value.as_str()`.
pub fn get_text(v: &JsonValue) -> (r: Option<&String>)
    ensures
        match r {
            Some(s) => as_text(v@) == Some(s@),
            None => as_text(v@) is None,
        },
{
    match v {
        JsonValue::Str(s) => Some(s),
        _ => None,
    }
}

/// `value.get(key).and_then(Value::as_str)`, owned.
pub fn text_of(v: &JsonValue, key: &str) -> (r: Option<String>)
    ensures
        opt_str_view(r) == text_field(v@, key@),
{
    match get(v, key) {
        Some(f) => match get_text(f) {
            Some(s) => Some(s.clone()),
            None => None,
        },
        None => None,
    }
}

/// `value.get(outer).and_then(|o| o.get(inner)).and_then(Value::as_str)`, owned.
pub fn nested_text_of(v: &JsonValue, outer: &str, inner: &str) -> (r: Option<String>)
    ensures
        opt_str_view(r) == nested_text(v@, outer@, inner@),
{
    match get(v, outer) {
        Some(o) => text_of(o, inner),
        None => None,
    }
}

/// `value.as_u64()`.
pub fn get_unsigned(v: &JsonValue) -> (r: Option<u64>)
    ensures
        r == as_unsigned(v@),
{
    match v {
        JsonValue::Number(JsonNumber::Unsigned(n)) => Some(*n),
        _ => None,
    }
}

/// `value.as_bool()`.
pub fn get_bool(v: &JsonValue) -> (r: Option<bool>)
    ensures
        r == as_boolean(v@),
{
    match v {
        JsonValue::Bool(b) => Some(*b),
        _ => None,
    }
}

/// Whether the value is an object.
pub fn is_object_value(v: &JsonValue) -> (r: bool)
    ensures
        r == (v@ is Object),
{
    match v {
        JsonValue::Object(_) => true,
        _ => false,
    }
}

/// Parses JSON text with `serde_json` into the model; `None` when the text
/// is not JSON.
#[verifier::external_body]
pub(crate) fn parse_json(text: &str) -> (r: Option<JsonValue>)
    ensures
        match r {
            Some(v) => parsed_json(text@) == Some(v@),
            None => parsed_json(text@) is None,
        },
{
    match serde_json::from_str::<serde_json::Value>(text) {
        Ok(v) => Some(from_serde(&v)),
        Err(_) => None,
    }
}

/// Parses JSON text with `serde_json` into the model, or gives the error
/// message `serde_json` reports for the text.
#[verifier::external_body]
pub(crate) fn parse_json_or_error(text: &str) -> (r: Result<JsonValue, String>)
    ensures
        match r {
            Ok(v) => parsed_json(text@) == Some(v@),
            Err(e) => parsed_json(text@) is None && e@ == json_error_text(text@),
        },
{
    match serde_json::from_str::<serde_json::Value>(text) {
        Ok(v) => Ok(from_serde(&v)),
        Err(error) => Err(error.to_string()),
    }
}

/// Compact JSON text of a value, as `serde_json::to_string` writes it.
#[verifier::external_body]
pub(crate) fn to_compact_text(v: &JsonValue) -> (r: String)
    ensures
        r@ == compact_text(v@),
{
    serde_json::to_string(&to_serde(v)).unwrap_or_default()
}

/// Converts a `serde_json` value into the model, member for member.
#[verifier::external_body]
fn from_serde(v: &serde_json::Value) -> JsonValue {
    match v {
        serde_json::Value::Null => JsonValue::Null,
        serde_json::Value::Bool(b) => JsonValue::Bool(*b),
        serde_json::Value::Number(n) => JsonValue::Number(number_from_serde(n)),
        serde_json::Value::String(s) => JsonValue::Str(s.clone()),
        serde_json::Value::Array(a) => JsonValue::Array(a.iter().map(from_serde).collect()),
        serde_json::Value::Object(m) => JsonValue::Object(
            m.iter().map(|(k, x)| (k.clone(), from_serde(x))).collect(),
        ),
    }
}

/// Converts a `serde_json` number into the model.
#[verifier::external_body]
fn number_from_serde(n: &serde_json::Number) -> JsonNumber {
    match (n.as_u64(), n.as_i64()) {
        (Some(u), _) => JsonNumber::Unsigned(u),
        (None, Some(i)) => JsonNumber::Signed(i),
        (None, None) => JsonNumber::Decimal(n.to_string()),
    }
}

/// Converts a model value back into a `serde_json` value, member for member.
#[verifier::external_body]
fn to_serde(v: &JsonValue) -> serde_json::Value {
    match v {
        JsonValue::Null => serde_json::Value::Null,
        JsonValue::Bool(b) => serde_json::Value::Bool(*b),
        JsonValue::Number(JsonNumber::Unsigned(u)) => serde_json::Value::from(*u),
        JsonValue::Number(JsonNumber::Signed(i)) => serde_json::Value::from(*i),
        JsonValue::Number(JsonNumber::Decimal(d)) => serde_json::from_str(d).unwrap_or_default(),
        JsonValue::Str(s) => serde_json::Value::String(s.clone()),
        JsonValue::Array(a) => serde_json::Value::Array(a.iter().map(to_serde).collect()),
        JsonValue::Object(e) => serde_json::Value::Object(
            e.iter().map(|(k, x)| (k.clone(), to_serde(x))).collect(),
        ),
    }
}

/// The mathematical form of object members.
pub open spec fn entries_view(v: Seq<(String, JsonValue)>) -> Seq<(Seq<char>, Json)> {
    Seq::new(v.len(), |i: int| (v[i].0@, v[i].1@))
}

/// The members with a key added when it is absent (`entry(key).or_insert(value)`).
pub open spec fn put_absent(entries: Seq<(Seq<char>, Json)>, key: Seq<char>, value: Json) -> Seq<(Seq<char>, Json)> {
    if entries_get(entries, key) is Some {
        entries
    } else {
        entries.push((key, value))
    }
}

/// `base` with each member of `extra` added, in order, when its key is absent.
pub open spec fn merge_absent(base: Seq<(Seq<char>, Json)>, extra: Seq<(Seq<char>, Json)>) -> Seq<(Seq<char>, Json)>
    decreases extra.len(),
{
    if extra.len() == 0 {
        base
    } else {
        merge_absent(put_absent(base, extra[0].0, extra[0].1), extra.drop_first())
    }
}

/// The text under a key of object members.
pub open spec fn entries_text(entries: Seq<(Seq<char>, Json)>, key: Seq<char>) -> Option<Seq<char>> {
    match entries_get(entries, key) {
        Some(v) => as_text(v),
        None => None,
    }
}

pub proof fn lemma_object_view(entries: Vec<(String, JsonValue)>)
    ensures
        JsonValue::Object(entries)@ == Json::Object(entries_view(entries@)),
{
    let v = JsonValue::Object(entries);
    match v@ {
        Json::Object(e) => {
            assert(e =~= entries_view(entries@));
        },
        _ => {},
    }
}

pub proof fn lemma_entries_get_prefix(es: Seq<(Seq<char>, Json)>, key: Seq<char>, i: int)
    requires
        0 <= i <= es.len(),
        forall|k: int| 0 <= k < i ==> es[k].0 != key,
    ensures
        entries_get(es, key) == entries_get(es.skip(i), key),
    decreases i,
{
    if i > 0 {
        lemma_entries_get_prefix(es.drop_first(), key, i - 1);
        assert(es.drop_first().skip(i - 1) =~= es.skip(i));
    } else {
        assert(es.skip(0) =~= es);
    }
}

/// The position of a key among object members.
pub fn find_entry(entries: &Vec<(String, JsonValue)>, key: &str) -> (r: Option<usize>)
    ensures
        match r {
            Some(i) => i < entries.len() && entries_get(entries_view(entries@), key@) == Some(entries@[i as int].1@),
            None => entries_get(entries_view(entries@), key@) is None,
        },
{
    let ghost es = entries_view(entries@);
    let mut i: usize = 0;
    while i < entries.len()
        invariant
            i <= entries.len(),
            es == entries_view(entries@),
            forall|k: int| 0 <= k < i ==> es[k].0 != key@,
        decreases entries.len() - i,
    {
        if crate::text::str_eq(entries[i].0.as_str(), key) {
            proof {
                lemma_entries_get_prefix(es, key@, i as int);
                assert(es.skip(i as int)[0] == es[i as int]);
            }
            return Some(i);
        }
        i = i + 1;
    }
    proof {
        lemma_entries_get_prefix(es, key@, i as int);
        assert(es.skip(i as int).len() == 0);
    }
    None
}

/// The text under a key of object members, owned.
pub fn entry_text(entries: &Vec<(String, JsonValue)>, key: &str) -> (r: Option<String>)
    ensures
        opt_str_view(r) == entries_text(entries_view(entries@), key@),
{
    match find_entry(entries, key) {
        Some(i) => match get_text(&entries[i].1) {
            Some(s) => Some(s.clone()),
            None => None,
        },
        None => None,
    }
}

/// Adds a member when its key is absent.
pub fn put_if_absent(entries: &mut Vec<(String, JsonValue)>, key: &str, value: JsonValue)
    ensures
        entries_view(final(entries)@) == put_absent(entries_view(old(entries)@), key@, value@),
{
    if find_entry(entries, key).is_none() {
        let ghost before = entries@;
        entries.push((crate::text::owned(key), value));
        assert(entries_view(entries@) =~= entries_view(before).push((key@, value@)));
    }
}

/// A deep copy of object members.
pub fn copy_entries(entries: &Vec<(String, JsonValue)>) -> (r: Vec<(String, JsonValue)>)
    ensures
        entries_view(r@) == entries_view(entries@),
{
    let mut out: Vec<(String, JsonValue)> = Vec::new();
    let mut i: usize = 0;
    while i < entries.len()
        invariant
            i <= entries.len(),
            entries_view(out@) == entries_view(entries@).take(i as int),
        decreases entries.len() - i,
    {
        let ghost before = out@;
        let k = entries[i].0.clone();
        let c = copy_json(&entries[i].1);
        out.push((k, c));
        assert(out@ == before.push((k, c)));
        assert(entries_view(out@) =~= entries_view(before).push((entries@[i as int].0@, entries@[i as int].1@)));
        assert(entries_view(out@) =~= entries_view(entries@).take(i + 1));
        i = i + 1;
    }
    assert(entries_view(entries@).take(entries.len() as int) =~= entries_view(entries@));
    out
}

/// The members of an object value.
pub fn object_entries(v: &JsonValue) -> (r: Option<&Vec<(String, JsonValue)>>)
    ensures
        match r {
            Some(e) => v@ == Json::Object(entries_view(e@)),
            None => !(v@ is Object),
        },
{
    match v {
        JsonValue::Object(entries) => {
            proof {
                lemma_object_view(*entries);
            }
            Some(entries)
        },
        _ => None,
    }
}

/// The mathematical form of array items.
pub open spec fn values_view(v: Seq<JsonValue>) -> Seq<Json> {
    Seq::new(v.len(), |i: int| v[i]@)
}

pub proof fn lemma_array_view(items: Vec<JsonValue>)
    ensures
        JsonValue::Array(items)@ == Json::Array(values_view(items@)),
{
    let v = JsonValue::Array(items);
    match v@ {
        Json::Array(a) => {
            assert(a =~= values_view(items@));
        },
        _ => {},
    }
}

/// The items of an array value.
pub fn array_items(v: &JsonValue) -> (r: Option<&Vec<JsonValue>>)
    ensures
        match r {
            Some(items) => v@ == Json::Array(values_view(items@)),
            None => !(v@ is Array),
        },
{
    match v {
        JsonValue::Array(items) => {
            proof {
                lemma_array_view(*items);
            }
            Some(items)
        },
        _ => None,
    }
}

} // verus!
