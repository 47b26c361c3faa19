use pug_cli::PugJsonObject;
use pug_cli::PugOptions;

#[test]
fn default_options_emit_no_tokens() {
    let tokens = PugOptions::new().into_tokens();
    assert!(tokens.is_empty());
}

#[test]
fn stdin_emits_no_token() {
    let tokens = PugOptions::new().stdin().into_tokens();
    assert!(tokens.is_empty());
}

#[test]
fn every_option_in_fixed_order() {
    let options = PugOptions::new()
        .version()
        .with_object(PugJsonObject::Raw(String::from("data")))
        .with_path(String::from("a.pug"))
        .out_dir(String::from("out"))
        .pretty()
        .no_debug()
        .client()
        .doctype(String::from("html"))
        .stdin();
    let tokens = options.into_tokens();
    assert_eq!(
        tokens,
        vec![
            String::from("--version"),
            String::from("--obj"),
            String::from("data"),
            String::from("--path"),
            String::from("a.pug"),
            String::from("--out"),
            String::from("out"),
            String::from("--pretty"),
            String::from("--no-debug"),
            String::from("--client"),
            String::from("--doctype"),
            String::from("html"),
        ]
    );
}

#[test]
fn tokens_are_deterministic() {
    let build = || {
        PugOptions::new()
            .with_object(PugJsonObject::Raw(String::from("x")))
            .with_path(String::from("t.pug"))
            .pretty()
    };
    assert_eq!(build().into_tokens(), build().into_tokens());
}

#[test]
fn payload_token_follows_obj_and_precedes_path() {
    let options = PugOptions::new()
        .with_object(PugJsonObject::Raw(String::from("payload")))
        .with_path(String::from("t.pug"));
    let tokens = options.into_tokens();
    let obj = tokens.iter().position(|t| t == "--obj").unwrap();
    assert_eq!(tokens[obj + 1], "payload");
    let path = tokens.iter().position(|t| t == "--path").unwrap();
    assert!(obj < path);
}

#[test]
fn json_payload_is_single_quoted_json_text() {
    let value: serde_json::Value = serde_json::from_str("{\"language\": \"pug\"}").unwrap();
    let token = PugJsonObject::Json(value).to_token();
    assert_eq!(token, "'{\"language\":\"pug\"}'");
}

#[test]
fn json_payload_token_begins_and_ends_with_quote() {
    let value: serde_json::Value = serde_json::from_str("[1, 2, 3]").unwrap();
    let token = PugJsonObject::Json(value).to_token();
    assert!(token.starts_with('\''));
    assert!(token.ends_with('\''));
}

#[test]
fn raw_payload_passes_through_unchanged() {
    let token = PugJsonObject::Raw(String::from("{\"a\": 1}")).to_token();
    assert_eq!(token, "{\"a\": 1}");
}

#[test]
fn path_payload_serializes_as_its_text() {
    let token = PugJsonObject::Path(String::from("data/locals.json")).to_token();
    assert_eq!(token, "data/locals.json");
}

#[test]
fn version_flag_alone() {
    let tokens = PugOptions::new().version().into_tokens();
    assert_eq!(tokens, vec![String::from("--version")]);
}

#[test]
fn doctype_carries_its_value() {
    let tokens = PugOptions::new().doctype(String::from("strict")).into_tokens();
    assert_eq!(tokens, vec![String::from("--doctype"), String::from("strict")]);
}
