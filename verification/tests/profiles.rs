use deepseek_work::failure::{IoFailure, PathFailure};
use deepseek_work::json::{append, member, parse_json, pretty_json, Json};
use deepseek_work::manifest::{
    fresh_document, fresh_manifest, has_market, is_untouched_default, seed_market,
    seeded_manifest, Seeding,
};
use deepseek_work::place::web_profile_dir;
use deepseek_work::profile::{
    seed_dsh_market, SeedStep, MANIFEST_FILE, PATCH_FILE, PROFILE_PATCH_TEMPLATE,
    PROFILE_PNPM_WORKSPACE, RECORD_FILE, WORKSPACE_FILE,
};

const DEFAULT: &str = r#"{"name":"mine","version":2,"z":-1,"dsh":{"profile":{"bundles":["@deepseek-ai/dsh-base","@deepseek-ai/dsh-web-app"],"other":1.5}}}"#;

fn parsed(text: &str) -> Json {
    parse_json(text).unwrap()
}

fn rewritten(text: &str) -> String {
    match seeded_manifest(text, false) {
        Ok(Seeding::Rewrite(new)) => new,
        other => panic!("{:?}", other),
    }
}

#[test]
fn documents_are_read_variant_by_variant() {
    assert_eq!(parsed("null"), Json::Null);
    assert_eq!(parsed("true"), Json::Bool(true));
    assert_eq!(parsed("18446744073709551615"), Json::Unsigned(u64::MAX));
    assert_eq!(parsed("-3"), Json::Negative(-3));
    assert!(matches!(parsed("1.5"), Json::Float(_)));
    assert!(matches!(parsed("-0"), Json::Float(_)));
    assert!(matches!(parsed("18446744073709551616"), Json::Float(_)));
    assert_eq!(parsed("\"\\u4e2d\""), Json::Text("中".to_string()));
    assert_eq!(
        parsed("[1, []]"),
        Json::Array(vec![Json::Unsigned(1), Json::Array(vec![])])
    );
    match parsed(r#"{"b":1,"a":2,"b":3}"#) {
        Json::Object(members) => {
            assert_eq!(members.len(), 2);
            assert_eq!(members[0].key, "a");
            assert_eq!(members[0].value, Json::Unsigned(2));
            assert_eq!(members[1].key, "b");
            assert_eq!(members[1].value, Json::Unsigned(3));
        }
        _ => panic!("no object"),
    }
}

#[test]
fn unreadable_documents_are_reported() {
    assert_eq!(
        parse_json("").unwrap_err(),
        "EOF while parsing a value at line 1 column 0"
    );
    assert!(parse_json("{]").is_err());
    assert!(parse_json("1 2").is_err());
}

#[test]
fn documents_are_written_indented() {
    assert_eq!(
        pretty_json(parsed(r#"{"b":[1,-2],"a":{}}"#)),
        "{\n  \"a\": {},\n  \"b\": [\n    1,\n    -2\n  ]\n}\n"
    );
    assert_eq!(parsed(&pretty_json(parsed("[\"\\n\"]"))), parsed("[\"\\n\"]"));
}

#[test]
fn members_are_found_by_key() {
    let doc = parsed(r#"{"a":1,"b":[true]}"#);
    assert_eq!(member(&doc, "a"), Some(&Json::Unsigned(1)));
    assert_eq!(member(&doc, "c"), None);
    assert_eq!(member(&Json::Null, "a"), None);
}

#[test]
fn appending_changes_one_array_alone() {
    let mut doc = parsed(r#"{"a":{"l":[1]},"b":{"l":[1]}}"#);
    append(&mut doc, &vec!["a".to_string(), "l".to_string()], 0, Json::Null);
    assert_eq!(doc, parsed(r#"{"a":{"l":[1,null]},"b":{"l":[1]}}"#));
    append(&mut doc, &vec!["a".to_string(), "x".to_string()], 0, Json::Null);
    append(&mut doc, &vec!["a".to_string()], 0, Json::Null);
    assert_eq!(doc, parsed(r#"{"a":{"l":[1,null]},"b":{"l":[1]}}"#));
}

#[test]
fn default_list_is_recognised_exactly() {
    assert!(is_untouched_default(&parsed(DEFAULT)));
    for text in [
        "{}",
        "[]",
        r#"{"dsh":{"profile":{"bundles":[]}}}"#,
        r#"{"dsh":{"profile":{"bundles":{}}}}"#,
        r#"{"dsh":{"profile":{"bundles":["@deepseek-ai/dsh-base"]}}}"#,
        r#"{"dsh":{"profile":{"bundles":["@deepseek-ai/dsh-web-app","@deepseek-ai/dsh-base"]}}}"#,
        r#"{"dsh":{"profile":{"bundles":["@deepseek-ai/dsh-base",1]}}}"#,
        r#"{"dsh":{"profile":{"bundles":["@deepseek-ai/dsh-base","@deepseek-ai/dsh-web-app","x"]}}}"#,
    ] {
        assert!(!is_untouched_default(&parsed(text)), "{}", text);
        assert_eq!(seed_market(parsed(text), false), None, "{}", text);
        assert_eq!(seeded_manifest(text, false), Ok(Seeding::Keep), "{}", text);
        assert_eq!(seeded_manifest(text, true), Ok(Seeding::Keep), "{}", text);
    }
}

#[test]
fn seeding_adds_the_market_and_keeps_the_rest() {
    let text = rewritten(DEFAULT);
    assert_eq!(
        text,
        "{\n  \"dsh\": {\n    \"profile\": {\n      \"bundles\": [\n        \"@deepseek-ai/dsh-base\",\n        \"@deepseek-ai/dsh-web-app\",\n        \"dshmarket\"\n      ],\n      \"other\": 1.5\n    }\n  },\n  \"name\": \"mine\",\n  \"version\": 2,\n  \"z\": -1\n}\n"
    );
    assert!(has_market(&parsed(&text)));
    assert_eq!(seeded_manifest(&text, false), Ok(Seeding::Remember));
    assert_eq!(seeded_manifest(&text, true), Ok(Seeding::Keep));
}

#[test]
fn removed_market_is_not_put_back() {
    assert_eq!(seed_market(parsed(DEFAULT), true), None);
    assert_eq!(seeded_manifest(DEFAULT, true), Ok(Seeding::Keep));

    let SeedStep::CheckManifest(step) = seed_dsh_market(Ok(()), None) else { panic!() };
    let SeedStep::ReadManifest(step) = step.checked(true) else { panic!() };
    assert_eq!(step.record(), web_profile_dir(None).join(RECORD_FILE));
    assert_eq!(step.read(Ok(DEFAULT.to_string()), true), SeedStep::Done);
}

#[test]
fn market_that_is_listed_already_is_remembered() {
    let text = r#"{"dsh":{"profile":{"bundles":["x",1,"dshmarket"]}}}"#;
    assert!(has_market(&parsed(text)));
    assert!(!has_market(&parsed(DEFAULT)));
    assert!(!has_market(&parsed("{}")));
    assert_eq!(seeded_manifest(text, false), Ok(Seeding::Remember));
    let SeedStep::CheckManifest(step) = seed_dsh_market(Ok(()), None) else { panic!() };
    let SeedStep::ReadManifest(step) = step.checked(true) else { panic!() };
    let SeedStep::WriteRecord(step) = step.read(Ok(text.to_string()), false) else { panic!() };
    assert_eq!(step.file(), web_profile_dir(None).join(RECORD_FILE));
    assert_eq!(step.contents(), "dshmarket\n");
    assert_eq!(step.recorded(), SeedStep::Done);
}

#[test]
fn broken_manifest_is_reported() {
    assert_eq!(
        seeded_manifest("", false).unwrap_err(),
        "解析 profile manifest 失败: EOF while parsing a value at line 1 column 0"
    );
}

#[test]
fn fresh_manifest_lists_the_market() {
    let text = fresh_manifest();
    assert_eq!(
        text,
        "{\n  \"dependencies\": {},\n  \"dsh\": {\n    \"profile\": {\n      \"bundles\": [\n        \"@deepseek-ai/dsh-base\",\n        \"@deepseek-ai/dsh-web-app\",\n        \"dshmarket\"\n      ]\n    }\n  },\n  \"name\": \"dsh-profile-web\",\n  \"private\": true\n}\n"
    );
    assert_eq!(parsed(&text), fresh_document());
    assert_eq!(seeded_manifest(&text, false), Ok(Seeding::Remember));
}

fn path_failure() -> PathFailure {
    PathFailure {
        path: "/p/web".to_string(),
        failure: IoFailure { text: "denied".to_string(), code: Some(13) },
    }
}

fn failed(step: SeedStep) -> String {
    match step {
        SeedStep::Failed(message) => message,
        other => panic!("{:?}", other),
    }
}

#[test]
fn fresh_profile_gets_three_files() {
    assert_eq!(MANIFEST_FILE, "package.json");
    assert_eq!(PATCH_FILE, "cordis.patch.yml");
    assert_eq!(WORKSPACE_FILE, "pnpm-workspace.yaml");
    assert!(PROFILE_PATCH_TEMPLATE.ends_with("allowed).\n[]\n"));
    assert_eq!(
        PROFILE_PNPM_WORKSPACE,
        "packages:\n  - .\n\nnodeLinker: hoisted\nautoInstallPeers: false\n"
    );
    let dir = web_profile_dir;
    let SeedStep::CheckManifest(step) = seed_dsh_market(Ok(()), Some(false)) else { panic!() };
    assert_eq!(step.file(), dir(Some(false)).join(MANIFEST_FILE));
    let SeedStep::MakeProfile(step) = step.checked(false) else { panic!() };
    assert_eq!(step.directory(), dir(Some(false)));
    let SeedStep::WriteManifest(step) = step.made(Ok(())) else { panic!() };
    assert_eq!(step.file(), dir(Some(false)).join(MANIFEST_FILE));
    assert_eq!(step.contents, fresh_manifest());
    let SeedStep::WritePatch(step) = step.written(Ok(())) else { panic!() };
    assert_eq!(step.file(), dir(Some(false)).join(PATCH_FILE));
    assert_eq!(step.contents(), PROFILE_PATCH_TEMPLATE);
    let SeedStep::WriteWorkspace(step) = step.written(Ok(())) else { panic!() };
    assert_eq!(step.file(), dir(Some(false)).join(WORKSPACE_FILE));
    assert_eq!(step.contents(), PROFILE_PNPM_WORKSPACE);
    let SeedStep::WriteRecord(step) = step.written(Ok(())) else { panic!() };
    assert_eq!(step.file(), dir(Some(false)).join(RECORD_FILE));
    assert_eq!(step.recorded(), SeedStep::Done);
}

#[test]
fn kept_profile_gets_at_most_a_new_manifest() {
    let SeedStep::CheckManifest(step) = seed_dsh_market(Ok(()), None) else { panic!() };
    let SeedStep::ReadManifest(step) = step.checked(true) else { panic!() };
    assert_eq!(step.file(), web_profile_dir(None).join(MANIFEST_FILE));
    let SeedStep::WriteManifest(step) = step.read(Ok(DEFAULT.to_string()), false) else { panic!() };
    assert_eq!(step.contents, rewritten(DEFAULT));
    let SeedStep::WriteRecord(step) = step.written(Ok(())) else { panic!() };
    assert_eq!(step.recorded(), SeedStep::Done);

    let SeedStep::CheckManifest(step) = seed_dsh_market(Ok(()), None) else { panic!() };
    let SeedStep::ReadManifest(step) = step.checked(true) else { panic!() };
    assert_eq!(step.read(Ok(fresh_manifest()), true), SeedStep::Done);
}

#[test]
fn seeding_failures_are_worded() {
    assert_eq!(failed(seed_dsh_market(Err("no home".to_string()), Some(false))), "no home");

    let SeedStep::CheckManifest(step) = seed_dsh_market(Ok(()), None) else { panic!() };
    let SeedStep::MakeProfile(step) = step.checked(false) else { panic!() };
    assert_eq!(failed(step.made(Err(path_failure()))), "创建 profile 目录失败 (/p/web): denied");

    let SeedStep::CheckManifest(step) = seed_dsh_market(Ok(()), None) else { panic!() };
    let SeedStep::ReadManifest(step) = step.checked(true) else { panic!() };
    assert_eq!(failed(step.read(Err("gone".to_string()), false)), "读取 profile manifest 失败: gone");

    let SeedStep::CheckManifest(step) = seed_dsh_market(Ok(()), None) else { panic!() };
    let SeedStep::ReadManifest(step) = step.checked(true) else { panic!() };
    assert!(failed(step.read(Ok("{".to_string()), true)).starts_with("解析 profile manifest 失败: EOF"));

    let SeedStep::CheckManifest(step) = seed_dsh_market(Ok(()), None) else { panic!() };
    let SeedStep::MakeProfile(step) = step.checked(false) else { panic!() };
    let SeedStep::WriteManifest(step) = step.made(Ok(())) else { panic!() };
    assert_eq!(failed(step.written(Err("full".to_string()))), "写入 profile manifest 失败: full");

    let SeedStep::CheckManifest(step) = seed_dsh_market(Ok(()), None) else { panic!() };
    let SeedStep::MakeProfile(step) = step.checked(false) else { panic!() };
    let SeedStep::WriteManifest(step) = step.made(Ok(())) else { panic!() };
    let SeedStep::WritePatch(step) = step.written(Ok(())) else { panic!() };
    assert_eq!(failed(step.written(Err("full".to_string()))), "写入 cordis.patch.yml 失败: full");

    let SeedStep::CheckManifest(step) = seed_dsh_market(Ok(()), None) else { panic!() };
    let SeedStep::MakeProfile(step) = step.checked(false) else { panic!() };
    let SeedStep::WriteManifest(step) = step.made(Ok(())) else { panic!() };
    let SeedStep::WritePatch(step) = step.written(Ok(())) else { panic!() };
    let SeedStep::WriteWorkspace(step) = step.written(Ok(())) else { panic!() };
    assert_eq!(
        failed(step.written(Err("full".to_string()))),
        "写入 pnpm-workspace.yaml 失败: full"
    );

    let SeedStep::CheckManifest(step) = seed_dsh_market(Ok(()), None) else { panic!() };
    let SeedStep::ReadManifest(step) = step.checked(true) else { panic!() };
    let SeedStep::WriteRecord(step) = step.read(Ok(fresh_manifest()), false) else { panic!() };
    assert_eq!(step.recorded(), SeedStep::Done);
}
