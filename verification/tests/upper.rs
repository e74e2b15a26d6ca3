//! Tests for the document model boundary: the flexible boolean, command
//! conversion, and how a deserializer failure becomes a positioned
//! diagnostic.

use nova_verifier::error::{Context, Level, Session, Span, SpanStyle, Spanned};
use nova_verifier::index::{self, CommandObject, FloatBits, Seconds};
use nova_verifier::lower;
use nova_verifier::upper::{self, ParseError, TomlBool};

fn cs<T>(value: T) -> Spanned<T> {
    Spanned::new(value, Span::dummy())
}

fn testing(source: &str) -> Context {
    Session::new()
        .add_file(source.as_bytes().to_vec(), String::from("<anonymous>"))
        .unwrap()
}

/// Reads the `ok` key of a small document the way the deserializer would:
/// a plain boolean stays a boolean, a string goes through the library's
/// reading of flexible booleans.
fn parse_ok_field(document: &str) -> TomlBool {
    let value: toml::Value = toml::from_str(document).unwrap();
    match value.get("ok").unwrap() {
        toml::Value::Boolean(b) => TomlBool::from_bool(*b),
        toml::Value::String(s) => TomlBool::from_toml_str(s).expect("a recognized string"),
        other => panic!("unexpected value {:?}", other),
    }
}

#[test]
fn de() {
    let s = r#"ok = "true""#;
    assert_eq!(parse_ok_field(s), TomlBool(true));

    let s = r#"ok = true"#;
    assert_eq!(parse_ok_field(s), TomlBool(true));

    let s = r#"ok = false"#;
    assert_eq!(parse_ok_field(s), TomlBool(false));

    let s = r#"ok = "enable""#;
    assert_eq!(parse_ok_field(s), TomlBool(true));

    let s = r#"ok = "disable""#;
    assert_eq!(parse_ok_field(s), TomlBool(false));
}

#[test]
fn unrecognized_boolean_string_is_refused() {
    assert_eq!(TomlBool::from_toml_str(&"yes".to_string()), None);
    assert_eq!(TomlBool::from_toml_str(&"".to_string()), None);
    assert_eq!(TomlBool::from_toml_str(&"True".to_string()), None);
    assert!(TomlBool(true).get());
    assert!(!TomlBool(false).get());
}

#[test]
fn a() {
    let mut context = testing("");

    let expected = index::Command::new(CommandObject::Pyro1(true), Seconds(FloatBits(0)));

    let initial = cs(upper::Command {
        pyro1: Some(cs(TomlBool(true))),
        pyro2: None,
        pyro3: None,
        data_rate: None,
        beacon: None,
        delay: None,
    });
    assert_eq!(
        expected,
        lower::convert_command(&initial, &mut context).unwrap()
    );

    assert!(context.end_phase().is_ok());
}

#[test]
fn parse_success_passes_the_document_through() {
    let mut context = testing("");
    let config = upper::ConfigFile {
        default_state: None,
        states: cs(vec![]),
    };
    let r = upper::verify(&mut context, Ok(config.clone()));
    assert_eq!(r.unwrap(), config);
    assert!(context.end_phase().is_ok());
}

#[test]
fn parse_failure_becomes_one_positioned_error() {
    let mut context = testing("ab\ncde\n");
    let failure = ParseError {
        row: 1,
        col: 1,
        message: "expected `=`".to_string(),
    };
    let r = upper::verify(&mut context, Err(failure));
    assert!(r.is_err());
    let diags = context.end_phase().unwrap_err().diagnostics;
    assert_eq!(diags.len(), 1);
    assert_eq!(diags[0].level, Level::Error);
    assert_eq!(diags[0].message, "failed to parse config file");
    assert_eq!(diags[0].spans.len(), 1);
    assert_eq!(diags[0].spans[0].style, SpanStyle::Primary);
    // Row 1, column 1 of "ab\ncde\n" is the `d`, at byte offset 4.
    assert_eq!(diags[0].spans[0].span, Span::new(4, 5));
    assert_eq!(diags[0].spans[0].label.as_deref(), Some("expected `=`"));
}
