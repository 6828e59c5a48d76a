//! JSON values as the protocol messages carry them.
use crate::text;
use crate::text::{number_text, same_text, signed_number_text};
use vstd::prelude::*;

verus! {

/// A JSON number.
#[derive(Debug)]
pub enum JsonNumber {
    /// A whole number that is not negative.
    Unsigned(u64),
    /// A negative whole number.
    Negative(i64),
    /// A number with a fraction or an exponent, by its text.
    Decimal(String),
}

/// A JSON value. The members of an object stand in the order in which it
/// lists them.
#[derive(Debug)]
pub enum Json {
    Null,
    Bool(bool),
    Number(JsonNumber),
    Text(String),
    Array(Vec<Json>),
    Object(Vec<(String, Json)>),
}

/// What a JSON number says.
pub ghost enum NumberView {
    Unsigned(u64),
    Negative(i64),
    Decimal(Seq<char>),
}

/// What a JSON value says.
pub ghost enum JsonView {
    Null,
    Bool(bool),
    Number(NumberView),
    Text(Seq<char>),
    Array(Seq<JsonView>),
    Object(Seq<(Seq<char>, JsonView)>),
}

pub open spec fn number_view(number: JsonNumber) -> NumberView {
    match number {
        JsonNumber::Unsigned(n) => NumberView::Unsigned(n),
        JsonNumber::Negative(n) => NumberView::Negative(n),
        JsonNumber::Decimal(text) => NumberView::Decimal(text@),
    }
}

pub open spec fn json_view(json: Json) -> JsonView
    decreases json,
{
    match json {
        Json::Null => JsonView::Null,
        Json::Bool(b) => JsonView::Bool(b),
        Json::Number(number) => JsonView::Number(number_view(number)),
        Json::Text(text) => JsonView::Text(text@),
        Json::Array(items) => JsonView::Array(
            Seq::new(
                items@.len(),
                |i: int|
                    if 0 <= i < items@.len() {
                        json_view(items@[i])
                    } else {
                        JsonView::Null
                    },
            ),
        ),
        Json::Object(members) => JsonView::Object(
            Seq::new(
                members@.len(),
                |i: int|
                    if 0 <= i < members@.len() {
                        (members@[i].0@, json_view(members@[i].1))
                    } else {
                        (Seq::empty(), JsonView::Null)
                    },
            ),
        ),
    }
}

impl View for Json {
    type V = JsonView;

    open spec fn view(&self) -> JsonView {
        json_view(*self)
    }
}

impl NumberView {
    /// The number as it is printed.
    pub open spec fn text(self) -> Seq<char> {
        match self {
            NumberView::Unsigned(n) => text::decimal(n as nat),
            NumberView::Negative(n) => text::signed_decimal(n as int),
            NumberView::Decimal(text) => text,
        }
    }
}

/// The first member called `key` among `members[from..]`.
pub open spec fn member_from(
    members: Seq<(Seq<char>, JsonView)>,
    key: Seq<char>,
    from: int,
) -> Option<JsonView>
    decreases members.len() - from,
{
    if from < 0 || from >= members.len() {
        None
    } else if members[from].0 == key {
        Some(members[from].1)
    } else {
        member_from(members, key, from + 1)
    }
}

impl JsonView {
    /// The member called `key`, where the value is an object that has one.
    pub open spec fn get(self, key: Seq<char>) -> Option<JsonView> {
        match self {
            JsonView::Object(members) => member_from(members, key, 0),
            _ => None,
        }
    }

    pub open spec fn as_text(self) -> Option<Seq<char>> {
        match self {
            JsonView::Text(text) => Some(text),
            _ => None,
        }
    }

    pub open spec fn as_bool(self) -> Option<bool> {
        match self {
            JsonView::Bool(b) => Some(b),
            _ => None,
        }
    }

    pub open spec fn as_u64(self) -> Option<u64> {
        match self {
            JsonView::Number(NumberView::Unsigned(n)) => Some(n),
            _ => None,
        }
    }

    pub open spec fn as_i64(self) -> Option<i64> {
        match self {
            JsonView::Number(NumberView::Unsigned(n)) => if n <= i64::MAX {
                Some(n as i64)
            } else {
                None
            },
            JsonView::Number(NumberView::Negative(n)) => Some(n),
            _ => None,
        }
    }

    /// The text of the member called `key`, where it is a text.
    pub open spec fn text_at(self, key: Seq<char>) -> Option<Seq<char>> {
        match self.get(key) {
            Some(member) => member.as_text(),
            None => None,
        }
    }

    pub open spec fn bool_at(self, key: Seq<char>) -> Option<bool> {
        match self.get(key) {
            Some(member) => member.as_bool(),
            None => None,
        }
    }

    pub open spec fn i64_at(self, key: Seq<char>) -> Option<i64> {
        match self.get(key) {
            Some(member) => member.as_i64(),
            None => None,
        }
    }

    pub open spec fn u64_at(self, key: Seq<char>) -> Option<u64> {
        match self.get(key) {
            Some(member) => member.as_u64(),
            None => None,
        }
    }

    /// The items of the member called `key`, where it is an array.
    pub open spec fn array_at(self, key: Seq<char>) -> Option<Seq<JsonView>> {
        match self.get(key) {
            Some(JsonView::Array(items)) => Some(items),
            _ => None,
        }
    }
}

/// The text that may be there.
pub open spec fn opt_text(text: Option<&str>) -> Option<Seq<char>> {
    match text {
        Some(text) => Some(text@),
        None => None,
    }
}

impl JsonNumber {
    /// The number as it is printed.
    pub fn text(&self) -> (text: String)
        ensures
            text@ == number_view(*self).text(),
    {
        match self {
            JsonNumber::Unsigned(n) => number_text(*n),
            JsonNumber::Negative(n) => signed_number_text(*n),
            JsonNumber::Decimal(text) => text.clone(),
        }
    }
}

impl Json {
    /// The member called `key`, where the value is an object that has one.
    pub fn get(&self, key: &str) -> (member: Option<&Json>)
        ensures
            match member {
                Some(member) => self@.get(key@) == Some(member@),
                None => self@.get(key@) is None,
            },
    {
        match self {
            Json::Object(members) => {
                let ghost all = match self@ {
                    JsonView::Object(all) => all,
                    _ => Seq::empty(),
                };
                let mut i: usize = 0;
                while i < members.len()
                    invariant
                        i <= members@.len(),
                        *self == Json::Object(*members),
                        self@ == JsonView::Object(all),
                        all.len() == members@.len(),
                        self@.get(key@) == member_from(all, key@, i as int),
                    decreases members@.len() - i,
                {
                    assert(all[i as int] == (members@[i as int].0@, members@[i as int].1@));
                    if same_text(members[i].0.as_str(), key) {
                        return Some(&members[i].1);
                    }
                    i += 1;
                }
                None
            },
            _ => None,
        }
    }

    pub fn as_str(&self) -> (text: Option<&str>)
        ensures
            opt_text(text) == self@.as_text(),
    {
        match self {
            Json::Text(text) => Some(text.as_str()),
            _ => None,
        }
    }

    pub fn as_bool(&self) -> (value: Option<bool>)
        ensures
            value == self@.as_bool(),
    {
        match self {
            Json::Bool(b) => Some(*b),
            _ => None,
        }
    }

    pub fn as_u64(&self) -> (value: Option<u64>)
        ensures
            value == self@.as_u64(),
    {
        match self {
            Json::Number(JsonNumber::Unsigned(n)) => Some(*n),
            _ => None,
        }
    }

    pub fn as_i64(&self) -> (value: Option<i64>)
        ensures
            value == self@.as_i64(),
    {
        match self {
            Json::Number(JsonNumber::Unsigned(n)) => if *n <= 0x7fff_ffff_ffff_ffff {
                Some(*n as i64)
            } else {
                None
            },
            Json::Number(JsonNumber::Negative(n)) => Some(*n),
            _ => None,
        }
    }

    /// The text of the member called `key`, where it is a text.
    pub fn str_at(&self, key: &str) -> (text: Option<&str>)
        ensures
            opt_text(text) == self@.text_at(key@),
    {
        match self.get(key) {
            Some(member) => member.as_str(),
            None => None,
        }
    }

    pub fn bool_at(&self, key: &str) -> (value: Option<bool>)
        ensures
            value == self@.bool_at(key@),
    {
        match self.get(key) {
            Some(member) => member.as_bool(),
            None => None,
        }
    }

    pub fn i64_at(&self, key: &str) -> (value: Option<i64>)
        ensures
            value == self@.i64_at(key@),
    {
        match self.get(key) {
            Some(member) => member.as_i64(),
            None => None,
        }
    }

    pub fn u64_at(&self, key: &str) -> (value: Option<u64>)
        ensures
            value == self@.u64_at(key@),
    {
        match self.get(key) {
            Some(member) => member.as_u64(),
            None => None,
        }
    }

    /// The items of the member called `key`, where it is an array.
    pub fn array_at(&self, key: &str) -> (items: Option<&Vec<Json>>)
        ensures
            match items {
                Some(items) => self@.array_at(key@) == Some(items_view(items@)),
                None => self@.array_at(key@) is None,
            },
    {
        match self.get(key) {
            Some(Json::Array(items)) => {
                proof {
                    if let JsonView::Array(seen) = json_view(Json::Array(*items)) {
                        assert(seen =~= items_view(items@));
                    }
                }
                Some(items)
            },
            _ => None,
        }
    }
}

/// What the items of an array say.
pub open spec fn items_view(items: Seq<Json>) -> Seq<JsonView> {
    Seq::new(
        items.len(),
        |i: int|
            if 0 <= i < items.len() {
                json_view(items[i])
            } else {
                JsonView::Null
            },
    )
}

/// What the members of an object say.
pub open spec fn members_view(members: Seq<(String, Json)>) -> Seq<(Seq<char>, JsonView)> {
    members.map_values(|member: (String, Json)| (member.0@, member.1@))
}

/// A text as a JSON value.
pub fn text_value(text: &str) -> (value: Json)
    ensures
        value@ == JsonView::Text(text@),
{
    Json::Text(text.to_owned())
}

/// A text as a JSON value, or null where there is none.
pub fn opt_text_value(text: &Option<String>) -> (value: Json)
    ensures
        value@ == match *text {
            Some(text) => JsonView::Text(text@),
            None => JsonView::Null,
        },
{
    match text {
        Some(text) => Json::Text(text.clone()),
        None => Json::Null,
    }
}

/// An object with these members.
pub fn object(members: Vec<(String, Json)>) -> (value: Json)
    ensures
        value@ == JsonView::Object(members_view(members@)),
{
    let ghost all = members@;
    let value = Json::Object(members);
    proof {
        if let JsonView::Object(seen) = value@ {
            assert(seen =~= members_view(all));
        }
    }
    value
}

/// An array of these items.
pub fn array(items: Vec<Json>) -> (value: Json)
    ensures
        value@ == JsonView::Array(items@.map_values(|item: Json| item@)),
{
    let ghost all = items@;
    let value = Json::Array(items);
    proof {
        if let JsonView::Array(seen) = value@ {
            assert(seen =~= all.map_values(|item: Json| item@));
        }
    }
    value
}

/// Adds a member to the members of an object.
pub fn add_member(members: &mut Vec<(String, Json)>, key: &str, value: Json)
    ensures
        members_view(final(members)@) == members_view(old(members)@).push((key@, value@)),
{
    members.push((key.to_owned(), value));
    assert(members_view(members@) =~= members_view(old(members)@).push((key@, value@)));
}

/// A value of serde_json, which the wrappers below hand on.
#[verifier::external_type_specification]
#[verifier::external_body]
pub struct ExValue(serde_json::Value);

/// The compact text of a value, as serde_json prints it.
pub uninterp spec fn compact_json(value: JsonView) -> Seq<char>;

/// The indented text of a value, as serde_json prints it.
pub uninterp spec fn pretty_json(value: JsonView) -> Seq<char>;

/// The value in the type of serde_json: each variant becomes the variant of the
/// same kind (a text with a fraction or an exponent the number that
/// `serde_json::Number::from_f64` makes of it).
#[verifier::external_body]
fn to_value(json: &Json) -> (value: serde_json::Value) {
    match json {
        Json::Null => serde_json::Value::Null,
        Json::Bool(b) => serde_json::Value::Bool(*b),
        Json::Number(JsonNumber::Unsigned(n)) => serde_json::Value::from(*n),
        Json::Number(JsonNumber::Negative(n)) => serde_json::Value::from(*n),
        Json::Number(JsonNumber::Decimal(text)) => serde_json::Value::from(
            text.parse().ok().and_then(serde_json::Number::from_f64),
        ),
        Json::Text(text) => serde_json::Value::from(text.as_str()),
        Json::Array(items) => items.iter().map(to_value).collect(),
        Json::Object(members) => members.iter().map(|m| (m.0.clone(), to_value(&m.1))).collect(),
    }
}

/// `serde_json::Value::to_string`: the compact text of the value. The text is
/// named, not described; it depends on the value alone.
#[verifier::external_body]
pub(crate) fn compact_text(json: &Json) -> (text: String)
    ensures
        text@ == compact_json(json@),
{
    to_value(json).to_string()
}

/// `serde_json::to_string_pretty`: the indented text of the value. The text is
/// named, not described; it depends on the value alone. It does not fail on a
/// value whose keys are all texts, as they are here.
#[verifier::external_body]
pub(crate) fn pretty_text(json: &Json) -> (text: String)
    ensures
        text@ == pretty_json(json@),
{
    serde_json::to_string_pretty(&to_value(json)).unwrap_or_default()
}

/// What serde_json reads from a text: the value, or why the text is none.
pub uninterp spec fn read_json(text: Seq<char>) -> Result<JsonView, Seq<char>>;

/// A value of serde_json in the type of this library: each variant becomes the
/// variant of the same kind.
#[verifier::external_body]
fn from_value(value: serde_json::Value) -> (json: Json) {
    match value {
        serde_json::Value::Null => Json::Null,
        serde_json::Value::Bool(b) => Json::Bool(b),
        serde_json::Value::Number(n) => Json::Number(
            n.as_u64().map(JsonNumber::Unsigned).or(n.as_i64().map(JsonNumber::Negative))
                .unwrap_or_else(|| JsonNumber::Decimal(n.to_string())),
        ),
        serde_json::Value::String(text) => Json::Text(text),
        serde_json::Value::Array(items) => Json::Array(items.into_iter().map(from_value).collect()),
        serde_json::Value::Object(members) => Json::Object(
            members.into_iter().map(|m| (m.0, from_value(m.1))).collect(),
        ),
    }
}

/// `serde_json::from_str`: the value that a text stands for, or the message of
/// the error. Both are named, not described; they depend on the text alone.
#[verifier::external_body]
pub(crate) fn parse_json(text: &str) -> (r: Result<Json, String>)
    ensures
        match r {
            Ok(json) => read_json(text@) == Ok::<JsonView, Seq<char>>(json@),
            Err(message) => read_json(text@) == Err::<JsonView, Seq<char>>(message@),
        },
{
    serde_json::from_str(text).map(from_value).map_err(|e| e.to_string())
}

} // verus!
