//! The manifest of the web profile, and the market plugin in it.

use vstd::prelude::*;

use crate::json::{append, member, parse_json, pretty_json, Json, JsonData, Member, MemberData};
use crate::text::same_text;

verus! {

/// The preinstalled market plugin's package.
pub const DSH_MARKET_PACKAGE: &'static str = "dshmarket";

/// The first bundle of a fresh web profile.
pub const DSH_BASE_BUNDLE: &'static str = "@deepseek-ai/dsh-base";

/// The second bundle of a fresh web profile.
pub const DSH_WEB_APP_BUNDLE: &'static str = "@deepseek-ai/dsh-web-app";

/// What a fresh web profile is called.
pub const PROFILE_NAME: &'static str = "dsh-profile-web";

/// What precedes the reason for which a manifest is no JSON.
pub const PARSE_FAILED: &'static str = "解析 profile manifest 失败: ";

/// Where the bundle list stands in a manifest.
pub open spec fn bundles_path() -> Seq<Seq<char>> {
    seq!["dsh"@, "profile"@, "bundles"@]
}

/// The bundle list that DSH itself writes.
pub open spec fn default_bundles() -> Seq<JsonData> {
    seq![JsonData::Text(DSH_BASE_BUNDLE@), JsonData::Text(DSH_WEB_APP_BUNDLE@)]
}

/// The market plugin's entry in a bundle list.
pub open spec fn market_entry() -> JsonData {
    JsonData::Text(DSH_MARKET_PACKAGE@)
}

/// Whether a manifest has the bundle list that DSH itself writes.
pub open spec fn untouched(data: JsonData) -> bool {
    crate::json::at(data, bundles_path()) == Some(JsonData::Array(default_bundles()))
}

/// A manifest with the market plugin added: none where the list is not the
/// default one, and none where the plugin was put in before, so that a list
/// from which the user removed it stays without it.
pub open spec fn seeded(data: JsonData, seeded_before: bool) -> Option<JsonData> {
    if !seeded_before && untouched(data) {
        Some(crate::json::appended(data, bundles_path(), market_entry()))
    } else {
        None
    }
}

/// Whether a manifest lists the market plugin.
pub open spec fn lists_market(data: JsonData) -> bool {
    crate::json::at(data, bundles_path()) matches Some(list) && list is Array
        && list->Array_0.contains(market_entry())
}

proof fn lemma_at_three(data: JsonData, a: Seq<char>, b: Seq<char>, c: Seq<char>)
    ensures
        crate::json::at(data, seq![a, b, c]) == match crate::json::at(data, seq![a]) {
            Some(x) => match crate::json::at(x, seq![b]) {
                Some(y) => crate::json::at(y, seq![c]),
                None => None,
            },
            None => None,
        },
{
    reveal_with_fuel(crate::json::at, 4);
    assert(seq![a, b, c].drop_first() =~= seq![b, c]);
    assert(seq![b, c].drop_first() =~= seq![c]);
    assert(seq![a].drop_first() =~= Seq::<Seq<char>>::empty());
    assert(seq![b].drop_first() =~= Seq::<Seq<char>>::empty());
}

/// Whether `item` is the given text.
fn is_text(item: &Json, text: &str) -> (yes: bool)
    ensures
        yes == (item@ == JsonData::Text(text@)),
{
    match item {
        Json::Text(t) => same_text(t.as_str(), text),
        _ => false,
    }
}

/// The bundle list of a manifest.
fn bundles(doc: &Json) -> (found: Option<&Json>)
    ensures
        match found {
            Some(list) => crate::json::at(doc@, bundles_path()) == Some(list@),
            None => crate::json::at(doc@, bundles_path()) is None,
        },
{
    proof {
        lemma_at_three(doc@, "dsh"@, "profile"@, "bundles"@);
    }
    match member(doc, "dsh") {
        Some(dsh) => match member(dsh, "profile") {
            Some(profile) => member(profile, "bundles"),
            None => None,
        },
        None => None,
    }
}

/// Whether `list` is the bundle list that DSH itself writes.
fn is_default_list(list: &Json) -> (yes: bool)
    ensures
        yes == (list@ == JsonData::Array(default_bundles())),
{
    match list {
        Json::Array(items) => {
            let ghost data = crate::json::items_data(items@);
            proof {
                crate::json::lemma_array_view(*items);
                assert(default_bundles().len() == 2);
                if items@.len() == 2 && data[0] == default_bundles()[0] && data[1]
                    == default_bundles()[1] {
                    assert(data =~= default_bundles());
                }
            }
            items.len() == 2 && is_text(&items[0], DSH_BASE_BUNDLE) && is_text(
                &items[1],
                DSH_WEB_APP_BUNDLE,
            )
        },
        _ => false,
    }
}

/// Whether a manifest has the bundle list that DSH itself writes.
pub fn is_untouched_default(doc: &Json) -> (yes: bool)
    ensures
        yes == untouched(doc@),
{
    match bundles(doc) {
        Some(list) => is_default_list(list),
        None => false,
    }
}

/// Whether a manifest lists the market plugin.
pub fn has_market(doc: &Json) -> (yes: bool)
    ensures
        yes == lists_market(doc@),
{
    match bundles(doc) {
        Some(Json::Array(items)) => {
            let ghost data = crate::json::items_data(items@);
            proof {
                crate::json::lemma_array_view(*items);
            }
            let mut i: usize = 0;
            while i < items.len()
                invariant
                    i <= items@.len(),
                    data == crate::json::items_data(items@),
                    crate::json::at(doc@, bundles_path()) == Some(JsonData::Array(data)),
                    forall|j: int| 0 <= j < i ==> #[trigger] data[j] != market_entry(),
                decreases items@.len() - i,
            {
                if is_text(&items[i], DSH_MARKET_PACKAGE) {
                    assert(data[i as int] == market_entry());
                    return true;
                }
                i = i + 1;
            }
            false
        },
        _ => false,
    }
}

/// The path to the bundle list, as [`append`] takes it.
fn bundles_keys() -> (path: Vec<String>)
    ensures
        crate::json::path_data(path@) == bundles_path(),
{
    let mut path: Vec<String> = Vec::new();
    path.push("dsh".to_owned());
    path.push("profile".to_owned());
    path.push("bundles".to_owned());
    assert(crate::json::path_data(path@) =~= bundles_path());
    path
}

/// Adds the market plugin to a manifest whose bundle list is the default one,
/// unless it was put in before. Any other list is the user's own and is left
/// alone, and so is a default list from which the user removed the plugin.
pub fn seed_market(doc: Json, seeded_before: bool) -> (changed: Option<Json>)
    ensures
        match changed {
            Some(new) => seeded(doc@, seeded_before) == Some(new@),
            None => seeded(doc@, seeded_before) is None,
        },
{
    if seeded_before || !is_untouched_default(&doc) {
        return None;
    }
    let mut new = doc;
    let path = bundles_keys();
    assert(bundles_path().skip(0) == bundles_path());
    append(&mut new, &path, 0, Json::Text(DSH_MARKET_PACKAGE.to_owned()));
    Some(new)
}

/// What is to become of a manifest.
#[derive(Debug, PartialEq, Eq)]
pub enum Seeding {
    /// It gets this text, in which the market plugin is listed.
    Rewrite(String),
    /// It stays, and that the market plugin is in it is to be remembered.
    Remember,
    /// It stays.
    Keep,
}

/// A [`Seeding`] with its text as a character sequence.
pub enum SeedingData {
    Rewrite(Seq<char>),
    Remember,
    Keep,
}

impl View for Seeding {
    type V = SeedingData;

    open spec fn view(&self) -> SeedingData {
        match self {
            Seeding::Rewrite(text) => SeedingData::Rewrite(text@),
            Seeding::Remember => SeedingData::Remember,
            Seeding::Keep => SeedingData::Keep,
        }
    }
}

/// What is to become of a manifest that reads as `data`.
pub open spec fn seeding_of(data: JsonData, seeded_before: bool) -> SeedingData {
    match seeded(data, seeded_before) {
        Some(new) => SeedingData::Rewrite(crate::json::json_pretty(new) + "\n"@),
        None => if !seeded_before && lists_market(data) {
            SeedingData::Remember
        } else {
            SeedingData::Keep
        },
    }
}

/// What is to become of a manifest with the given text, or the message of a failure.
pub open spec fn seeding(text: Seq<char>, seeded_before: bool) -> Result<SeedingData, Seq<char>> {
    match crate::json::json_parse(text) {
        Ok(data) => Ok(seeding_of(data, seeded_before)),
        Err(message) => Err(PARSE_FAILED@ + message),
    }
}

/// The outcome of looking at a manifest.
pub open spec fn seeding_outcome(outcome: Result<Seeding, String>) -> Result<
    SeedingData,
    Seq<char>,
> {
    match outcome {
        Ok(what) => Ok(what@),
        Err(message) => Err(message@),
    }
}

/// Says what is to become of a manifest, given whether the market plugin was
/// put in before. A new text is never rewritten itself, where the manifest is
/// plain; where it is one that reads back, the new text reads back as the
/// manifest with the plugin.
pub fn seeded_manifest(text: &str, seeded_before: bool) -> (outcome: Result<Seeding, String>)
    ensures
        seeding_outcome(outcome) == seeding(text@, seeded_before),
        outcome matches Ok(Seeding::Rewrite(new)) ==> (crate::json::json_parse(text@) matches Ok(
            data,
        ) ==> (crate::json::readable(data, crate::json::MAX_DEPTH as nat) ==> (
        crate::json::json_parse(new@) matches Ok(data2) && seeded(data, seeded_before) == Some(
            data2,
        ) && seeding(new@, false) == Ok::<SeedingData, Seq<char>>(SeedingData::Remember)))),
        outcome matches Ok(Seeding::Rewrite(new)) ==> (crate::json::json_parse(text@) matches Ok(
            data,
        ) ==> (crate::json::plain(data) ==> (seeding(new@, false) matches Ok(again)
            ==> again is Remember))),
{
    match parse_json(text) {
        Ok(doc) => {
            let ghost data = doc@;
            let market = has_market(&doc);
            match seed_market(doc, seeded_before) {
                Some(new) => {
                    let ghost changed = new@;
                    proof {
                        law_seeding_adds_the_market(data);
                        law_seeding_is_idempotent(data);
                        crate::json::law_appending_keeps_tidy(
                            data,
                            bundles_path(),
                            market_entry(),
                        );
                        if crate::json::readable(data, crate::json::MAX_DEPTH as nat) {
                            crate::json::law_appending_text_keeps_readable(
                                data,
                                bundles_path(),
                                DSH_MARKET_PACKAGE@,
                                crate::json::MAX_DEPTH as nat,
                            );
                        }
                        if crate::json::plain(data) {
                            crate::json::law_appending_text_keeps_plain(
                                data,
                                bundles_path(),
                                DSH_MARKET_PACKAGE@,
                            );
                        }
                    }
                    let text = pretty_json(new);
                    proof {
                        if crate::json::plain(data) && crate::json::json_parse(text@) is Ok {
                            lemma_alike_is_seeded(
                                crate::json::json_parse(text@)->Ok_0,
                                changed,
                            );
                        }
                    }
                    Ok(Seeding::Rewrite(text))
                },
                None => if !seeded_before && market {
                    Ok(Seeding::Remember)
                } else {
                    Ok(Seeding::Keep)
                },
            }
        },
        Err(message) => Err(crate::failure::labelled(PARSE_FAILED, message.as_str())),
    }
}

/// The bundle list of a seeded manifest.
pub open spec fn seeded_bundles() -> Seq<JsonData> {
    default_bundles().push(market_entry())
}

/// A manifest with the seeded list is to be remembered.
proof fn lemma_seeded_list(data: JsonData)
    requires
        crate::json::at(data, bundles_path()) == Some(JsonData::Array(seeded_bundles())),
    ensures
        !untouched(data),
        lists_market(data),
        seeding_of(data, false) == SeedingData::Remember,
{
    assert(seeded_bundles().len() == 3);
    assert(default_bundles().len() == 2);
    assert(seeded_bundles()[2] == market_entry());
}

/// What is like a manifest with the seeded list has that list.
pub proof fn lemma_alike_is_seeded(read: JsonData, data: JsonData)
    requires
        crate::json::alike(read, data),
        crate::json::at(data, bundles_path()) == Some(JsonData::Array(seeded_bundles())),
    ensures
        !untouched(read),
        seeding_of(read, false) == SeedingData::Remember,
{
    crate::json::lemma_alike_behind(read, data, bundles_path());
    let list = crate::json::at(read, bundles_path())->Some_0;
    let items = list->Array_0;
    assert(seeded_bundles().len() == 3);
    assert(crate::json::alike(items[0], seeded_bundles()[0]));
    assert(crate::json::alike(items[1], seeded_bundles()[1]));
    assert(crate::json::alike(items[2], seeded_bundles()[2]));
    assert(items =~= seeded_bundles());
    lemma_seeded_list(read);
}

/// The manifest of a fresh profile.
pub open spec fn fresh_data() -> JsonData {
    JsonData::Object(
        seq![
            MemberData { key: "dependencies"@, value: JsonData::Object(Seq::empty()) },
            MemberData {
                key: "dsh"@,
                value: JsonData::Object(
                    seq![
                        MemberData {
                            key: "profile"@,
                            value: JsonData::Object(
                                seq![
                                    MemberData {
                                        key: "bundles"@,
                                        value: JsonData::Array(
                                            default_bundles().push(market_entry()),
                                        ),
                                    },
                                ],
                            ),
                        },
                    ],
                ),
            },
            MemberData { key: "name"@, value: JsonData::Text(PROFILE_NAME@) },
            MemberData { key: "private"@, value: JsonData::Bool(true) },
        ],
    )
}

proof fn lemma_keys_in_order()
    ensures
        crate::json::before("dependencies"@, "dsh"@),
        crate::json::before("dependencies"@, "name"@),
        crate::json::before("dependencies"@, "private"@),
        crate::json::before("dsh"@, "name"@),
        crate::json::before("dsh"@, "private"@),
        crate::json::before("name"@, "private"@),
{
    reveal_strlit("dependencies");
    reveal_strlit("dsh");
    reveal_strlit("name");
    reveal_strlit("private");
    reveal_with_fuel(crate::json::before, 3);
}

proof fn lemma_keys_are_plain()
    ensures
        "dependencies"@ != crate::json::RAW_VALUE_KEY@,
        "dsh"@ != crate::json::RAW_VALUE_KEY@,
        "name"@ != crate::json::RAW_VALUE_KEY@,
        "private"@ != crate::json::RAW_VALUE_KEY@,
        "profile"@ != crate::json::RAW_VALUE_KEY@,
        "bundles"@ != crate::json::RAW_VALUE_KEY@,
{
    reveal_strlit("dependencies");
    reveal_strlit("dsh");
    reveal_strlit("name");
    reveal_strlit("private");
    reveal_strlit("profile");
    reveal_strlit("bundles");
    reveal_strlit("$serde_json::private::RawValue");
    assert(crate::json::RAW_VALUE_KEY@.len() == 30);
    assert("dependencies"@.len() == 12);
    assert("dsh"@.len() == 3);
    assert("name"@.len() == 4);
    assert("private"@.len() == 7);
    assert("profile"@.len() == 7);
    assert("bundles"@.len() == 7);
}

proof fn lemma_fresh_is_readable()
    ensures
        crate::json::tidy(fresh_data()),
        crate::json::readable(fresh_data(), crate::json::MAX_DEPTH as nat),
{
    lemma_keys_in_order();
    lemma_keys_are_plain();
    reveal_with_fuel(crate::json::tidy, 6);
    reveal_with_fuel(crate::json::readable, 6);
}

/// An object with one member.
fn object_of(key: &str, value: Json) -> (doc: Json)
    ensures
        doc@ == JsonData::Object(seq![MemberData { key: key@, value: value@ }]),
{
    let mut members: Vec<Member> = Vec::new();
    members.push(Member { key: key.to_owned(), value });
    proof {
        crate::json::lemma_object_view(members);
        assert(crate::json::members_data(members@) =~= seq![
            MemberData { key: key@, value: value@ },
        ]);
    }
    Json::Object(members)
}

/// The bundle list of a fresh profile.
fn fresh_bundles() -> (list: Json)
    ensures
        list@ == JsonData::Array(default_bundles().push(market_entry())),
{
    let mut items: Vec<Json> = Vec::new();
    items.push(Json::Text(DSH_BASE_BUNDLE.to_owned()));
    items.push(Json::Text(DSH_WEB_APP_BUNDLE.to_owned()));
    items.push(Json::Text(DSH_MARKET_PACKAGE.to_owned()));
    proof {
        crate::json::lemma_array_view(items);
        assert(crate::json::items_data(items@) =~= default_bundles().push(market_entry()));
    }
    Json::Array(items)
}

/// The manifest of a fresh profile: the bundles that DSH itself would list,
/// then the market plugin.
pub fn fresh_document() -> (doc: Json)
    ensures
        doc@ == fresh_data(),
        crate::json::tidy(doc@),
{
    let none: Vec<Member> = Vec::new();
    let mut members: Vec<Member> = Vec::new();
    proof {
        crate::json::lemma_object_view(none);
        assert(crate::json::members_data(none@) =~= Seq::<MemberData>::empty());
    }
    members.push(Member { key: "dependencies".to_owned(), value: Json::Object(none) });
    members.push(
        Member {
            key: "dsh".to_owned(),
            value: object_of("profile", object_of("bundles", fresh_bundles())),
        },
    );
    members.push(Member { key: "name".to_owned(), value: Json::Text(PROFILE_NAME.to_owned()) });
    members.push(Member { key: "private".to_owned(), value: Json::Bool(true) });
    proof {
        crate::json::lemma_object_view(members);
        assert(crate::json::members_data(members@) =~= fresh_data()->Object_0);
        lemma_fresh_is_readable();
    }
    Json::Object(members)
}

/// The text of a fresh profile's manifest. It reads back as that manifest,
/// and is not seeded again.
pub fn fresh_manifest() -> (text: String)
    ensures
        text@ == crate::json::json_pretty(fresh_data()) + "\n"@,
        crate::json::json_parse(text@) matches Ok(data) && data == fresh_data(),
        seeding(text@, false) == Ok::<SeedingData, Seq<char>>(SeedingData::Remember),
{
    proof {
        lemma_fresh_is_readable();
        law_fresh_manifest_is_seeded();
    }
    pretty_json(fresh_document())
}

/// A seeded manifest lists the default bundles and then the market plugin.
pub proof fn law_seeding_adds_the_market(data: JsonData)
    requires
        untouched(data),
    ensures
        seeded(data, false) matches Some(new) && crate::json::at(new, bundles_path()) == Some(
            JsonData::Array(seeded_bundles()),
        ),
{
    crate::json::law_appended_item_is_read_back(
        data,
        bundles_path(),
        default_bundles(),
        market_entry(),
    );
}

/// The bundle list alone decides. Whatever else a manifest holds: if the value
/// behind `dsh`, `profile` and `bundles` is the list of the two default
/// bundles, and the market plugin was not put in before, the manifest is
/// rewritten, its list is those two and then the plugin, and whatever stands
/// behind a path that parts from the list's path is as it was.
pub proof fn law_default_list_is_seeded(data: JsonData)
    requires
        crate::json::at(data, seq!["dsh"@, "profile"@, "bundles"@]) == Some(
            JsonData::Array(
                seq![
                    JsonData::Text("@deepseek-ai/dsh-base"@),
                    JsonData::Text("@deepseek-ai/dsh-web-app"@),
                ],
            ),
        ),
    ensures
        seeded(data, false) matches Some(new) && crate::json::at(
            new,
            seq!["dsh"@, "profile"@, "bundles"@],
        ) == Some(
            JsonData::Array(
                seq![
                    JsonData::Text("@deepseek-ai/dsh-base"@),
                    JsonData::Text("@deepseek-ai/dsh-web-app"@),
                    JsonData::Text("dshmarket"@),
                ],
            ),
        ) && seeding_of(data, false) == SeedingData::Rewrite(
            crate::json::json_pretty(new) + "\n"@,
        ),
        forall|other: Seq<Seq<char>>, fork: int|
            #![trigger other[fork]]
            0 <= fork < 3 && fork < other.len() && other[fork] != seq!["dsh"@, "profile"@, "bundles"@][fork]
                ==> crate::json::at(seeded(data, false)->Some_0, other) == crate::json::at(
                data,
                other,
            ),
{
    assert(bundles_path() =~= seq!["dsh"@, "profile"@, "bundles"@]);
    law_seeding_adds_the_market(data);
    assert(seeded_bundles() =~= seq![
        JsonData::Text("@deepseek-ai/dsh-base"@),
        JsonData::Text("@deepseek-ai/dsh-web-app"@),
        JsonData::Text("dshmarket"@),
    ]);
    assert forall|other: Seq<Seq<char>>, fork: int|
        #![trigger other[fork]]
        0 <= fork < 3 && fork < other.len() && other[fork] != seq!["dsh"@, "profile"@, "bundles"@][fork] implies
        crate::json::at(seeded(data, false)->Some_0, other) == crate::json::at(data, other) by {
        law_seeding_keeps_the_rest(data, other, fork);
    }
}

/// Any other bundle list, and a manifest without one, is not rewritten. That
/// the plugin is in is remembered exactly if the list is an array that holds
/// it and it is not known yet.
pub proof fn law_other_lists_are_kept(data: JsonData, seeded_before: bool)
    requires
        !(crate::json::at(data, seq!["dsh"@, "profile"@, "bundles"@]) == Some(
            JsonData::Array(
                seq![
                    JsonData::Text("@deepseek-ai/dsh-base"@),
                    JsonData::Text("@deepseek-ai/dsh-web-app"@),
                ],
            ),
        )),
    ensures
        seeded(data, seeded_before) is None,
        seeding_of(data, true) is Keep,
        ({
            let listed = crate::json::at(data, seq!["dsh"@, "profile"@, "bundles"@]) matches Some(list)
                && list is Array && exists|i: int|
                0 <= i < list->Array_0.len() && #[trigger] list->Array_0[i] == JsonData::Text("dshmarket"@);
            &&& listed ==> seeding_of(data, false) is Remember
            &&& !listed ==> seeding_of(data, false) is Keep
        }),
{
    assert(bundles_path() =~= seq!["dsh"@, "profile"@, "bundles"@]);
    assert(default_bundles() =~= seq![
        JsonData::Text("@deepseek-ai/dsh-base"@),
        JsonData::Text("@deepseek-ai/dsh-web-app"@),
    ]);
}

/// Once the plugin was put in, no manifest is rewritten, whatever it holds. A
/// text that is no JSON is reported with the reason.
pub proof fn law_seeding_of_a_text(text: Seq<char>, data: JsonData, message: Seq<char>)
    ensures
        seeded(data, true) is None,
        seeding_of(data, true) is Keep,
        crate::json::json_parse(text) == Ok::<JsonData, Seq<char>>(data) ==> seeding(text, false)
            == Ok::<SeedingData, Seq<char>>(seeding_of(data, false)) && seeding(text, true) == Ok::<
            SeedingData,
            Seq<char>,
        >(SeedingData::Keep),
        crate::json::json_parse(text) == Err::<JsonData, Seq<char>>(message) ==> seeding(text, true)
            == Err::<SeedingData, Seq<char>>("解析 profile manifest 失败: "@ + message) && seeding(
            text,
            false,
        ) == Err::<SeedingData, Seq<char>>("解析 profile manifest 失败: "@ + message),
{
}

/// What is to become of a manifest is handed on as it is.
pub proof fn law_seeding_outcomes(text: String)
    ensures
        seeding_outcome(Ok(Seeding::Rewrite(text))) == Ok::<SeedingData, Seq<char>>(
            SeedingData::Rewrite(text@),
        ),
        seeding_outcome(Ok(Seeding::Remember)) == Ok::<SeedingData, Seq<char>>(
            SeedingData::Remember,
        ),
        seeding_outcome(Ok(Seeding::Keep)) == Ok::<SeedingData, Seq<char>>(SeedingData::Keep),
        seeding_outcome(Err(text)) == Err::<SeedingData, Seq<char>>(text@),
{
}

/// Seeding changes the bundle list alone: whatever stands behind a path that
/// parts from the list's path is as it was.
pub proof fn law_seeding_keeps_the_rest(data: JsonData, other: Seq<Seq<char>>, fork: int)
    requires
        untouched(data),
        0 <= fork < bundles_path().len(),
        fork < other.len(),
        bundles_path()[fork] != other[fork],
    ensures
        seeded(data, false) matches Some(new) && crate::json::at(new, other) == crate::json::at(
            data,
            other,
        ),
{
    crate::json::law_appending_leaves_other_paths(
        data,
        bundles_path(),
        market_entry(),
        other,
        fork,
    );
}

/// A fresh manifest holds a name, the mark of a private package, no
/// dependencies and the seeded bundle list, and nothing else.
pub proof fn law_fresh_manifest()
    ensures
        fresh_data() == JsonData::Object(
            seq![
                MemberData { key: "dependencies"@, value: JsonData::Object(Seq::empty()) },
                MemberData {
                    key: "dsh"@,
                    value: JsonData::Object(
                        seq![
                            MemberData {
                                key: "profile"@,
                                value: JsonData::Object(
                                    seq![
                                        MemberData {
                                            key: "bundles"@,
                                            value: JsonData::Array(
                                                seq![
                                                    JsonData::Text("@deepseek-ai/dsh-base"@),
                                                    JsonData::Text("@deepseek-ai/dsh-web-app"@),
                                                    JsonData::Text("dshmarket"@),
                                                ],
                                            ),
                                        },
                                    ],
                                ),
                            },
                        ],
                    ),
                },
                MemberData { key: "name"@, value: JsonData::Text("dsh-profile-web"@) },
                MemberData { key: "private"@, value: JsonData::Bool(true) },
            ],
        ),
{
    assert(default_bundles().push(market_entry()) =~= seq![
        JsonData::Text("@deepseek-ai/dsh-base"@),
        JsonData::Text("@deepseek-ai/dsh-web-app"@),
        JsonData::Text("dshmarket"@),
    ]);
}

/// Seeding a seeded manifest changes nothing, whether the seeding is
/// remembered or not, and where it is not, it is found again.
pub proof fn law_seeding_is_idempotent(data: JsonData)
    ensures
        seeded(data, false) matches Some(new) ==> seeded(new, false) is None && seeded(
            new,
            true,
        ) is None && seeding_of(new, false) == SeedingData::Remember,
{
    if untouched(data) {
        law_seeding_adds_the_market(data);
        lemma_seeded_list(seeded(data, false)->Some_0);
    }
}

/// A bundle list that is not the default one is the user's own, and is left alone.
pub proof fn law_customised_bundles_are_left_alone(
    data: JsonData,
    list: JsonData,
    seeded_before: bool,
)
    requires
        crate::json::at(data, bundles_path()) == Some(list),
        list != JsonData::Array(default_bundles()),
    ensures
        seeded(data, seeded_before) is None,
{
}

/// Once the market plugin was put in, no manifest gets it again, whatever its
/// bundle list: one from which the user removed it stays without it.
pub proof fn law_removed_market_is_not_put_back(data: JsonData)
    ensures
        seeded(data, true) is None,
        seeding_of(data, true) == SeedingData::Keep,
{
}

/// A fresh manifest lists what a seeded one does, and is not seeded again.
pub proof fn law_fresh_manifest_is_seeded()
    ensures
        crate::json::at(fresh_data(), bundles_path()) == Some(
            JsonData::Array(seeded_bundles()),
        ),
        seeding_of(fresh_data(), false) == SeedingData::Remember,
{
    lemma_at_three(fresh_data(), "dsh"@, "profile"@, "bundles"@);
    reveal_with_fuel(crate::json::at, 2);
    reveal_with_fuel(crate::json::key_index, 3);
    reveal_strlit("dependencies");
    reveal_strlit("dsh");
    assert("dependencies"@.len() == 12);
    assert("dsh"@.len() == 3);
    let members = fresh_data()->Object_0;
    assert(members.drop_first()[0] == members[1]);
    assert(crate::json::key_index(members, "dsh"@) == 1);
    lemma_seeded_list(fresh_data());
}

} // verus!
