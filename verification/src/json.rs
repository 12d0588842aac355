//! JSON documents.

use vstd::prelude::*;

verus! {

/// A number of `serde_json` that is no integer. It is carried along, never looked into.
#[verifier::external_type_specification]
#[verifier::external_body]
pub struct ExNumber(serde_json::Number);

/// A document as `serde_json` holds it.
#[verifier::external_type_specification]
#[verifier::external_body]
pub struct ExValue(serde_json::Value);

/// A JSON document.
#[derive(Debug, PartialEq, Eq)]
pub enum Json {
    Null,
    Bool(bool),
    /// An integer that is not negative.
    Unsigned(u64),
    /// A negative integer.
    Negative(i64),
    /// Any other number.
    Float(serde_json::Number),
    Text(String),
    Array(Vec<Json>),
    /// Keys with their values, in the order of the keys.
    Object(Vec<Member>),
}

/// A key of an object with its value.
#[derive(Debug, PartialEq, Eq)]
pub struct Member {
    pub key: String,
    pub value: Json,
}

/// A JSON document with its texts and lists as sequences.
#[verifier::ext_equal]
pub enum JsonData {
    Null,
    Bool(bool),
    Unsigned(u64),
    Negative(i64),
    Float(serde_json::Number),
    Text(Seq<char>),
    Array(Seq<JsonData>),
    Object(Seq<MemberData>),
}

/// A key of an object with its value.
#[verifier::ext_equal]
pub struct MemberData {
    pub key: Seq<char>,
    pub value: JsonData,
}

impl View for Json {
    type V = JsonData;

    open spec fn view(&self) -> JsonData
        decreases self,
    {
        match self {
            Json::Null => JsonData::Null,
            Json::Bool(b) => JsonData::Bool(*b),
            Json::Unsigned(n) => JsonData::Unsigned(*n),
            Json::Negative(n) => JsonData::Negative(*n),
            Json::Float(n) => JsonData::Float(*n),
            Json::Text(t) => JsonData::Text(t@),
            Json::Array(items) => JsonData::Array(
                Seq::new(
                    items@.len(),
                    |i: int|
                        if 0 <= i < items@.len() {
                            items@[i].view()
                        } else {
                            JsonData::Null
                        },
                ),
            ),
            Json::Object(members) => JsonData::Object(
                Seq::new(
                    members@.len(),
                    |i: int|
                        if 0 <= i < members@.len() {
                            MemberData { key: members@[i].key@, value: members@[i].value.view() }
                        } else {
                            MemberData { key: Seq::empty(), value: JsonData::Null }
                        },
                ),
            ),
        }
    }
}

/// Whether text `a` comes before text `b`, character by character.
pub open spec fn before(a: Seq<char>, b: Seq<char>) -> bool
    decreases a.len(),
{
    if b.len() == 0 {
        false
    } else if a.len() == 0 {
        true
    } else if a[0] == b[0] {
        before(a.drop_first(), b.drop_first())
    } else {
        a[0] < b[0]
    }
}

/// Whether the keys of an object stand in order, each of them once.
pub open spec fn ordered(members: Seq<MemberData>) -> bool {
    forall|i: int, j: int|
        0 <= i < j < members.len() ==> before(#[trigger] members[i].key, #[trigger] members[j].key)
}

/// Whether a number is held as a floating-point number, which
/// `serde_json::Number::is_f64` says.
pub uninterp spec fn number_is_float(number: serde_json::Number) -> bool;

/// Whether a document is held the one way in which it can be: the keys of
/// each object in order, no integer marked negative that is not, and none
/// among the other numbers.
pub open spec fn tidy(data: JsonData) -> bool
    decreases data,
{
    match data {
        JsonData::Negative(n) => n < 0,
        JsonData::Float(n) => number_is_float(n),
        JsonData::Array(items) => forall|i: int| 0 <= i < items.len() ==> tidy(#[trigger] items[i]),
        JsonData::Object(members) => ordered(members) && forall|i: int|
            0 <= i < members.len() ==> tidy((#[trigger] members[i]).value),
        _ => true,
    }
}

/// A key that `serde_json` may take for a marker of its own.
pub const RAW_VALUE_KEY: &'static str = "$serde_json::private::RawValue";

/// How deep `serde_json` reads arrays and objects within each other.
pub const MAX_DEPTH: usize = 127;

/// Whether a document is read back from its text as it was written: it is
/// tidy, nests arrays and objects at most `depth` deep, and holds neither a
/// number that is no integer nor a key that has a meaning of its own.
pub open spec fn readable(data: JsonData, depth: nat) -> bool
    decreases data,
{
    match data {
        JsonData::Negative(n) => n < 0,
        JsonData::Float(_) => false,
        JsonData::Array(items) => depth > 0 && forall|i: int|
            0 <= i < items.len() ==> readable(#[trigger] items[i], (depth - 1) as nat),
        JsonData::Object(members) => depth > 0 && ordered(members) && forall|i: int|
            0 <= i < members.len() ==> (#[trigger] members[i]).key != RAW_VALUE_KEY@ && readable(
                members[i].value,
                (depth - 1) as nat,
            ),
        _ => true,
    }
}

/// Whether a document holds no key that has a meaning of its own.
pub open spec fn plain(data: JsonData) -> bool
    decreases data,
{
    match data {
        JsonData::Array(items) => forall|i: int| 0 <= i < items.len() ==> plain(#[trigger] items[i]),
        JsonData::Object(members) => forall|i: int|
            0 <= i < members.len() ==> (#[trigger] members[i]).key != RAW_VALUE_KEY@ && plain(
                members[i].value,
            ),
        _ => true,
    }
}

/// Whether `read` is `data`, but for what stands in the place of numbers that
/// are no integers.
pub open spec fn alike(read: JsonData, data: JsonData) -> bool
    decreases data,
{
    match data {
        JsonData::Float(_) => true,
        JsonData::Array(items) => {
            &&& read is Array
            &&& read->Array_0.len() == items.len()
            &&& forall|i: int|
                0 <= i < items.len() ==> alike(read->Array_0[i], #[trigger] items[i])
        },
        JsonData::Object(members) => {
            &&& read is Object
            &&& read->Object_0.len() == members.len()
            &&& forall|i: int|
                0 <= i < members.len() ==> read->Object_0[i].key == (#[trigger] members[i]).key
                    && alike(read->Object_0[i].value, members[i].value)
        },
        _ => read == data,
    }
}

/// What `serde_json::from_str` makes of a text: a document, or the message of its error.
pub uninterp spec fn json_parse(text: Seq<char>) -> Result<JsonData, Seq<char>>;

/// The document that a `serde_json::Value` holds.
pub uninterp spec fn json_data(value: serde_json::Value) -> JsonData;

/// The text that `serde_json::to_string_pretty` writes for a document.
pub uninterp spec fn json_pretty(data: JsonData) -> Seq<char>;

/// `serde_json::from_str`. Its outcome is a function of the text, named
/// [`json_parse`]. An object that it returns has each key once, in order, and
/// its numbers are natural numbers, negative integers or floating-point
/// numbers: `serde_json` keeps all of that by construction.
#[verifier::external_body]
fn parse_value(text: &str) -> (outcome: Result<serde_json::Value, String>)
    ensures
        match outcome {
            Ok(value) => tidy(json_data(value)) && (json_parse(text@) matches Ok(data) && data
                == json_data(value)),
            Err(message) => json_parse(text@) matches Err(m) && m == message@,
        },
{
    serde_json::from_str(text).map_err(|e: serde_json::Error| e.to_string())
}

/// Moves a document out of a `serde_json::Value`, one variant for one. The
/// variants of a `serde_json::Number` are told apart by `as_u64` and `as_i64`;
/// what neither of them takes is a floating-point number.
#[verifier::external_body]
fn from_value(value: serde_json::Value) -> (doc: Json)
    ensures
        doc@ == json_data(value),
        doc@ matches JsonData::Float(n) ==> number_is_float(n),
{
    match value {
        serde_json::Value::Null => Json::Null,
        serde_json::Value::Bool(b) => Json::Bool(b),
        serde_json::Value::Number(n) => match (n.as_u64(), n.as_i64()) {
            (Some(u), _) => Json::Unsigned(u),
            (None, Some(i)) => Json::Negative(i),
            (None, None) => Json::Float(n),
        },
        serde_json::Value::String(t) => Json::Text(t),
        serde_json::Value::Array(items) => Json::Array(items.into_iter().map(from_value).collect()),
        serde_json::Value::Object(members) => Json::Object(
            members.into_iter().map(|(key, v)| Member { key, value: from_value(v) }).collect(),
        ),
    }
}

/// Moves a document into a `serde_json::Value`, one variant for one.
#[verifier::external_body]
fn to_value(doc: Json) -> (value: serde_json::Value)
    requires
        tidy(doc@),
    ensures
        json_data(value) == doc@,
{
    match doc {
        Json::Null => serde_json::Value::Null,
        Json::Bool(b) => serde_json::Value::Bool(b),
        Json::Unsigned(n) => serde_json::Value::from(n),
        Json::Negative(n) => serde_json::Value::from(n),
        Json::Float(n) => serde_json::Value::Number(n),
        Json::Text(t) => serde_json::Value::String(t),
        Json::Array(items) => serde_json::Value::Array(items.into_iter().map(to_value).collect()),
        Json::Object(members) => serde_json::Value::Object(
            members.into_iter().map(|m| (m.key, to_value(m.value))).collect(),
        ),
    }
}

/// `serde_json::to_string_pretty` on a `serde_json::Value`, which does not
/// fail: every key is a text and the text is written to memory. The text is a
/// function of the document, named [`json_pretty`]. With a line break behind
/// it, it is read back as that document where the document is [`readable`].
/// Where the document is only [`plain`], it may be nested too deep to be read
/// back, and a number that is no integer may come back as a neighbouring one;
/// whatever is read back is [`alike`].
#[verifier::external_body]
fn pretty_value(value: &serde_json::Value) -> (outcome: Result<String, String>)
    ensures
        match outcome {
            Ok(text) => text@ == json_pretty(json_data(*value)) && (readable(
                json_data(*value),
                MAX_DEPTH as nat,
            ) ==> (json_parse(text@ + "\n"@) matches Ok(data) && data == json_data(*value))) && (
            plain(json_data(*value)) ==> (json_parse(text@ + "\n"@) matches Ok(data) ==> alike(
                data,
                json_data(*value),
            ))),
            Err(_) => false,
        },
{
    serde_json::to_string_pretty(value).map_err(|e| e.to_string())
}

/// Reads a document.
pub fn parse_json(text: &str) -> (outcome: Result<Json, String>)
    ensures
        match outcome {
            Ok(doc) => tidy(doc@) && (json_parse(text@) matches Ok(data) && data == doc@),
            Err(message) => json_parse(text@) matches Err(m) && m == message@,
        },
{
    match parse_value(text) {
        Ok(value) => Ok(from_value(value)),
        Err(message) => Err(message),
    }
}

/// Writes a document, indented, with a line break at the end.
pub fn pretty_json(doc: Json) -> (text: String)
    requires
        tidy(doc@),
    ensures
        text@ == json_pretty(doc@) + "\n"@,
        readable(doc@, MAX_DEPTH as nat) ==> (json_parse(text@) matches Ok(data) && data == doc@),
        plain(doc@) ==> (json_parse(text@) matches Ok(data) ==> alike(data, doc@)),
{
    let value = to_value(doc);
    let text: String = pretty_value(&value).unwrap();
    text.concat("\n")
}

/// The position of the first member with the given key, or the number of members.
pub open spec fn key_index(members: Seq<MemberData>, key: Seq<char>) -> int
    decreases members.len(),
{
    if members.len() == 0 || members[0].key == key {
        0
    } else {
        1 + key_index(members.drop_first(), key)
    }
}

/// What stands in a document behind a path of keys.
pub open spec fn at(data: JsonData, path: Seq<Seq<char>>) -> Option<JsonData>
    decreases path.len(),
{
    if path.len() == 0 {
        Some(data)
    } else {
        match data {
            JsonData::Object(members) => {
                let i = key_index(members, path[0]);
                if i < members.len() {
                    at(members[i].value, path.drop_first())
                } else {
                    None
                }
            },
            _ => None,
        }
    }
}

/// A document with `item` appended to the array behind a path of keys, if there is one.
pub open spec fn appended(data: JsonData, path: Seq<Seq<char>>, item: JsonData) -> JsonData
    decreases path.len(),
{
    if path.len() == 0 {
        match data {
            JsonData::Array(items) => JsonData::Array(items.push(item)),
            _ => data,
        }
    } else {
        match data {
            JsonData::Object(members) => {
                let i = key_index(members, path[0]);
                if i < members.len() {
                    JsonData::Object(
                        members.update(
                            i,
                            MemberData {
                                key: members[i].key,
                                value: appended(members[i].value, path.drop_first(), item),
                            },
                        ),
                    )
                } else {
                    data
                }
            },
            _ => data,
        }
    }
}

/// The items of an array as data.
pub open spec fn items_data(items: Seq<Json>) -> Seq<JsonData> {
    items.map_values(|item: Json| item@)
}

/// The members of an object as data.
pub open spec fn members_data(members: Seq<Member>) -> Seq<MemberData> {
    members.map_values(|m: Member| MemberData { key: m.key@, value: m.value@ })
}

/// A path of keys as data.
pub open spec fn path_data(path: Seq<String>) -> Seq<Seq<char>> {
    path.map_values(|key: String| key@)
}

/// The view of an array is made of the views of its items.
pub proof fn lemma_array_view(items: Vec<Json>)
    ensures
        Json::Array(items)@ == JsonData::Array(items_data(items@)),
{
    reveal_with_fuel(<Json as View>::view, 2);
    assert(Json::Array(items)@->Array_0 =~= items_data(items@));
}

/// The view of an object is made of the views of its members.
pub proof fn lemma_object_view(members: Vec<Member>)
    ensures
        Json::Object(members)@ == JsonData::Object(members_data(members@)),
{
    reveal_with_fuel(<Json as View>::view, 2);
    assert(Json::Object(members)@->Object_0 =~= members_data(members@));
}

/// The position of the first member with the given key, or the number of members.
fn position(members: &Vec<Member>, key: &str) -> (found: usize)
    ensures
        found == key_index(members_data(members@), key@),
        found <= members@.len(),
{
    let ghost all = members_data(members@);
    let wanted: String = key.to_owned();
    let mut i: usize = 0;
    assert(all.skip(0) == all);
    while i < members.len()
        invariant
            i <= members@.len(),
            all == members_data(members@),
            wanted@ == key@,
            key_index(all, key@) == i + key_index(all.skip(i as int), key@),
        decreases members@.len() - i,
    {
        if members[i].key == wanted {
            return i;
        }
        assert(all.skip(i as int).drop_first() == all.skip(i + 1));
        i = i + 1;
    }
    i
}

/// What stands in an object behind a key.
pub fn member<'a>(doc: &'a Json, key: &str) -> (found: Option<&'a Json>)
    ensures
        match found {
            Some(value) => at(doc@, seq![key@]) == Some(value@),
            None => at(doc@, seq![key@]) is None,
        },
{
    reveal_with_fuel(at, 2);
    match doc {
        Json::Object(members) => {
            proof {
                lemma_object_view(*members);
            }
            let i = position(members, key);
            if i < members.len() {
                Some(&members[i].value)
            } else {
                None
            }
        },
        _ => None,
    }
}

/// Appends `item` to the array behind the path of keys from position `from` on.
pub fn append(doc: &mut Json, path: &Vec<String>, from: usize, item: Json)
    requires
        from <= path@.len(),
    ensures
        final(doc)@ == appended(old(doc)@, path_data(path@).skip(from as int), item@),
    decreases path@.len() - from,
{
    let ghost keys = path_data(path@).skip(from as int);
    if from == path.len() {
        match doc {
            Json::Array(items) => {
                proof {
                    lemma_array_view(*items);
                }
                let ghost before = *items;
                items.push(item);
                proof {
                    lemma_array_view(*items);
                    assert(items_data(items@) =~= items_data(before@).push(item@));
                }
            },
            _ => {},
        }
    } else {
        match doc {
            Json::Object(members) => {
                proof {
                    lemma_object_view(*members);
                }
                let ghost before = *members;
                let i = position(members, path[from].as_str());
                if i < members.len() {
                    append(&mut members[i].value, path, from + 1, item);
                    proof {
                        assert(keys.drop_first() == path_data(path@).skip(from + 1));
                        lemma_object_view(*members);
                        assert(members_data(members@) =~= members_data(before@).update(
                            i as int,
                            MemberData {
                                key: before@[i as int].key@,
                                value: members@[i as int].value@,
                            },
                        ));
                    }
                }
            },
            _ => {},
        }
    }
}

proof fn lemma_key_index(members: Seq<MemberData>, key: Seq<char>)
    ensures
        0 <= key_index(members, key) <= members.len(),
        key_index(members, key) < members.len() ==> members[key_index(members, key)].key == key,
    decreases members.len(),
{
    if members.len() > 0 && members[0].key != key {
        lemma_key_index(members.drop_first(), key);
    }
}

/// Where a key stands depends on the keys alone.
proof fn lemma_key_index_of_same_keys(a: Seq<MemberData>, b: Seq<MemberData>, key: Seq<char>)
    requires
        a.len() == b.len(),
        forall|i: int| 0 <= i < a.len() ==> (#[trigger] a[i]).key == b[i].key,
    ensures
        key_index(a, key) == key_index(b, key),
    decreases a.len(),
{
    if a.len() > 0 && a[0].key != key {
        lemma_key_index_of_same_keys(a.drop_first(), b.drop_first(), key);
    }
}

/// What was appended to an array is found at its end.
pub proof fn law_appended_item_is_read_back(
    data: JsonData,
    path: Seq<Seq<char>>,
    items: Seq<JsonData>,
    item: JsonData,
)
    requires
        at(data, path) == Some(JsonData::Array(items)),
    ensures
        at(appended(data, path, item), path) == Some(JsonData::Array(items.push(item))),
    decreases path.len(),
{
    if path.len() > 0 {
        let members = data->Object_0;
        let i = key_index(members, path[0]);
        lemma_key_index(members, path[0]);
        law_appended_item_is_read_back(members[i].value, path.drop_first(), items, item);
        let after = appended(data, path, item)->Object_0;
        lemma_key_index_of_same_keys(members, after, path[0]);
    }
}

/// Appending to the array behind one path changes nothing behind a path that
/// parts from it at some key.
pub proof fn law_appending_leaves_other_paths(
    data: JsonData,
    path: Seq<Seq<char>>,
    item: JsonData,
    other: Seq<Seq<char>>,
    fork: int,
)
    requires
        0 <= fork < path.len(),
        fork < other.len(),
        path[fork] != other[fork],
    ensures
        at(appended(data, path, item), other) == at(data, other),
    decreases path.len(),
{
    match data {
        JsonData::Object(members) => {
            let i = key_index(members, path[0]);
            lemma_key_index(members, path[0]);
            lemma_key_index(members, other[0]);
            if i < members.len() {
                let after = appended(data, path, item)->Object_0;
                lemma_key_index_of_same_keys(members, after, other[0]);
                // The first fork at or before `fork` decides.
                if path[0] == other[0] {
                    law_appending_leaves_other_paths(
                        members[i].value,
                        path.drop_first(),
                        item,
                        other.drop_first(),
                        fork - 1,
                    );
                }
            }
        },
        _ => {},
    }
}

/// Appending a tidy item keeps a document tidy.
pub proof fn law_appending_keeps_tidy(data: JsonData, path: Seq<Seq<char>>, item: JsonData)
    requires
        tidy(data),
        tidy(item),
    ensures
        tidy(appended(data, path, item)),
    decreases path.len(),
{
    match data {
        JsonData::Object(members) => {
            if path.len() > 0 {
                let i = key_index(members, path[0]);
                lemma_key_index(members, path[0]);
                if i < members.len() {
                    law_appending_keeps_tidy(members[i].value, path.drop_first(), item);
                    let after = appended(data, path, item)->Object_0;
                    assert forall|j: int| 0 <= j < after.len() implies tidy(
                        (#[trigger] after[j]).value,
                    ) by {
                        assert(tidy(members[j].value));
                    }
                }
            }
        },
        _ => {},
    }
}

/// Appending a text keeps a document readable.
pub proof fn law_appending_text_keeps_readable(
    data: JsonData,
    path: Seq<Seq<char>>,
    text: Seq<char>,
    depth: nat,
)
    requires
        readable(data, depth),
    ensures
        readable(appended(data, path, JsonData::Text(text)), depth),
    decreases path.len(),
{
    let item = JsonData::Text(text);
    assert(forall|n: nat| readable(item, n));
    match data {
        JsonData::Object(members) => {
            if path.len() > 0 {
                let i = key_index(members, path[0]);
                lemma_key_index(members, path[0]);
                if i < members.len() {
                    law_appending_text_keeps_readable(
                        members[i].value,
                        path.drop_first(),
                        text,
                        (depth - 1) as nat,
                    );
                    let after = appended(data, path, JsonData::Text(text))->Object_0;
                    assert forall|j: int, k: int| 0 <= j < k < after.len() implies before(
                        #[trigger] after[j].key,
                        #[trigger] after[k].key,
                    ) by {
                        assert(before(members[j].key, members[k].key));
                    }
                    assert forall|j: int| 0 <= j < after.len() implies (#[trigger] after[j]).key
                        != RAW_VALUE_KEY@ && readable(after[j].value, (depth - 1) as nat) by {
                        assert(members[j].key != RAW_VALUE_KEY@);
                    }
                }
            }
        },
        JsonData::Array(items) => {
            if path.len() == 0 {
                let after = items.push(item);
                assert forall|j: int| 0 <= j < after.len() implies readable(
                    #[trigger] after[j],
                    (depth - 1) as nat,
                ) by {
                    if j < items.len() {
                        assert(readable(items[j], (depth - 1) as nat));
                    }
                }
            }
        },
        _ => {},
    }
}

/// Appending a text keeps a document plain.
pub proof fn law_appending_text_keeps_plain(
    data: JsonData,
    path: Seq<Seq<char>>,
    text: Seq<char>,
)
    requires
        plain(data),
    ensures
        plain(appended(data, path, JsonData::Text(text))),
    decreases path.len(),
{
    let item = JsonData::Text(text);
    match data {
        JsonData::Object(members) => {
            if path.len() > 0 {
                let i = key_index(members, path[0]);
                lemma_key_index(members, path[0]);
                if i < members.len() {
                    law_appending_text_keeps_plain(members[i].value, path.drop_first(), text);
                    let after = appended(data, path, item)->Object_0;
                    assert forall|j: int| 0 <= j < after.len() implies (#[trigger] after[j]).key
                        != RAW_VALUE_KEY@ && plain(after[j].value) by {
                        assert(members[j].key != RAW_VALUE_KEY@);
                    }
                }
            }
        },
        JsonData::Array(items) => {
            if path.len() == 0 {
                let after = items.push(item);
                assert forall|j: int| 0 <= j < after.len() implies plain(#[trigger] after[j]) by {
                    if j < items.len() {
                        assert(plain(items[j]));
                    }
                }
            }
        },
        _ => {},
    }
}

/// In documents that are alike, what stands behind a path is alike.
pub proof fn lemma_alike_behind(read: JsonData, data: JsonData, path: Seq<Seq<char>>)
    requires
        alike(read, data),
        at(data, path) is Some,
    ensures
        at(read, path) matches Some(found) && alike(found, at(data, path)->Some_0),
    decreases path.len(),
{
    if path.len() > 0 {
        let members = data->Object_0;
        let others = read->Object_0;
        let i = key_index(members, path[0]);
        lemma_key_index(members, path[0]);
        assert forall|j: int| 0 <= j < others.len() implies (#[trigger] others[j]).key
            == members[j].key by {
            assert(others[j].key == members[j].key);
        }
        lemma_key_index_of_same_keys(others, members, path[0]);
        assert(alike(others[i].value, members[i].value));
        lemma_alike_behind(others[i].value, members[i].value, path.drop_first());
    }
}

/// A document that is no list is what it holds.
pub proof fn law_json_scalars(flag: bool, natural: u64, negative: i64, text: String)
    ensures
        Json::Null@ is Null,
        Json::Bool(flag)@ == JsonData::Bool(flag),
        Json::Unsigned(natural)@ == JsonData::Unsigned(natural),
        Json::Negative(negative)@ == JsonData::Negative(negative),
        Json::Text(text)@ == JsonData::Text(text@),
{
}

/// A list is its items, an object its members, each in its place.
pub proof fn law_json_lists(items: Vec<Json>, members: Vec<Member>)
    ensures
        Json::Array(items)@ is Array,
        Json::Array(items)@->Array_0.len() == items@.len(),
        forall|i: int|
            0 <= i < items@.len() ==> #[trigger] Json::Array(items)@->Array_0[i] == items@[i]@,
        Json::Object(members)@ is Object,
        Json::Object(members)@->Object_0.len() == members@.len(),
        forall|i: int|
            0 <= i < members@.len() ==> (#[trigger] Json::Object(members)@->Object_0[i]).key
                == members@[i].key@ && Json::Object(members)@->Object_0[i].value
                == members@[i].value@,
{
    lemma_array_view(items);
    lemma_object_view(members);
}

proof fn lemma_first_key(members: Seq<MemberData>, key: Seq<char>, i: int)
    requires
        0 <= i <= members.len(),
        forall|j: int| 0 <= j < i ==> (#[trigger] members[j]).key != key,
        i < members.len() ==> members[i].key == key,
    ensures
        key_index(members, key) == i,
    decreases members.len(),
{
    if members.len() > 0 && i > 0 {
        assert(members[0].key != key);
        assert forall|j: int| 0 <= j < i - 1 implies (#[trigger] members.drop_first()[j]).key
            != key by {
            assert(members[j + 1].key != key);
        }
        lemma_first_key(members.drop_first(), key, i - 1);
    }
}

/// Behind a key stands the value of the first member that has it, whatever the
/// other members are; where none has it, and in what is no object, nothing
/// stands behind any key. Behind no key at all stands the document itself.
pub proof fn law_found_behind_a_key(
    data: JsonData,
    members: Seq<MemberData>,
    i: int,
    key: Seq<char>,
    rest: Seq<Seq<char>>,
)
    requires
        0 <= i <= members.len(),
        forall|j: int| 0 <= j < i ==> (#[trigger] members[j]).key != key,
        i < members.len() ==> members[i].key == key,
    ensures
        at(data, Seq::empty()) == Some(data),
        data !is Object ==> at(data, seq![key] + rest) is None,
        i < members.len() ==> at(JsonData::Object(members), seq![key] + rest) == at(
            members[i].value,
            rest,
        ),
        i == members.len() ==> at(JsonData::Object(members), seq![key] + rest) is None,
{
    lemma_first_key(members, key, i);
    assert((seq![key] + rest)[0] == key);
    assert((seq![key] + rest).drop_first() =~= rest);
}

/// Where no array stands behind a path, appending changes nothing.
pub proof fn law_appending_needs_an_array(data: JsonData, path: Seq<Seq<char>>, item: JsonData)
    requires
        !(at(data, path) matches Some(found) && found is Array),
    ensures
        appended(data, path, item) == data,
    decreases path.len(),
{
    if path.len() > 0 && data is Object {
        let members = data->Object_0;
        let i = key_index(members, path[0]);
        lemma_key_index(members, path[0]);
        if i < members.len() {
            law_appending_needs_an_array(members[i].value, path.drop_first(), item);
            assert(appended(data, path, item)->Object_0 =~= members);
        }
    }
}

/// Appending keeps the shape of a document: an object keeps its keys, in their
/// order, and every member but the one on the path.
pub proof fn law_appending_keeps_members(
    members: Seq<MemberData>,
    path: Seq<Seq<char>>,
    item: JsonData,
)
    requires
        path.len() > 0,
    ensures
        appended(JsonData::Object(members), path, item) is Object,
        appended(JsonData::Object(members), path, item)->Object_0.len() == members.len(),
        forall|i: int|
            0 <= i < members.len() ==> (#[trigger] appended(
                JsonData::Object(members),
                path,
                item,
            )->Object_0[i]).key == members[i].key,
        forall|i: int|
            0 <= i < members.len() && members[i].key != path[0] ==> (#[trigger] appended(
                JsonData::Object(members),
                path,
                item,
            )->Object_0[i]) == members[i],
{
    lemma_key_index(members, path[0]);
}

/// A path is its keys.
pub proof fn law_path_data(path: Seq<String>)
    ensures
        path_data(path).len() == path.len(),
        forall|i: int| 0 <= i < path.len() ==> #[trigger] path_data(path)[i] == path[i]@,
{
}

} // verus!
