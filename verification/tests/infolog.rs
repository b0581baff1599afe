use d365_automate::json::Json;
use d365_automate::odata::infolog::{parse_infolog, InfologMessage, InfologSeverity};
use d365_automate::odata::transaction::has_failure;

fn s(x: &str) -> Json {
    Json::Str(x.to_string())
}

/// An object with its members in ascending key order, as a parsed JSON object has them.
fn obj(mut members: Vec<(&str, Json)>) -> Json {
    members.sort_by(|a, b| a.0.cmp(b.0));
    Json::Object(members.into_iter().map(|(k, v)| (k.to_string(), v)).collect())
}

#[test]
fn parses_array_of_infolog_rows() {
    let v = Json::Array(vec![
        obj(vec![("severity", s("Error")), ("code", s("LedgerPeriodClosed")), ("message", s("Posting period is not open"))]),
        obj(vec![("severity", s("Info")), ("code", s("LedgerPosted")), ("message", s("Voucher posted"))]),
    ]);
    let parsed = parse_infolog(&v);
    assert_eq!(parsed.len(), 2);
    assert_eq!(parsed[0].severity, InfologSeverity::Error);
    assert!(parsed[0].is_failure());
    assert_eq!(parsed[1].severity, InfologSeverity::Info);
    assert!(!parsed[1].is_failure());
}

#[test]
fn parses_odata_error_payload() {
    let v = obj(vec![(
        "error",
        obj(vec![
            ("code", s("Forbidden")),
            ("message", obj(vec![("value", s("Insufficient privileges"))])),
            ("target", s("LedgerJournalTrans")),
        ]),
    )]);
    let parsed = parse_infolog(&v);
    assert_eq!(parsed.len(), 1);
    assert_eq!(parsed[0].severity, InfologSeverity::Error);
    assert_eq!(parsed[0].text, "Insufficient privileges");
    assert_eq!(parsed[0].field.as_deref(), Some("LedgerJournalTrans"));
}

#[test]
fn parses_nested_outputs_infolog() {
    let v = obj(vec![
        ("executed_on", s("gt-prod")),
        (
            "outputs",
            obj(vec![
                (
                    "Infolog",
                    Json::Array(vec![obj(vec![
                        ("severity", s("Warning")),
                        ("code", s("DimDefaulted")),
                        ("message", s("Financial dimension defaulted")),
                    ])]),
                ),
                ("RecId", s("5637144576")),
            ]),
        ),
    ]);
    let parsed = parse_infolog(&v);
    assert_eq!(parsed.len(), 1);
    assert_eq!(parsed[0].text, "Financial dimension defaulted");
    assert_eq!(parsed[0].code, "DimDefaulted");
}

#[test]
fn empty_value_returns_empty_list() {
    assert!(parse_infolog(&Json::Null).is_empty());
    assert!(parse_infolog(&obj(vec![("unrelated", Json::Number("1".into()))])).is_empty());
}

#[test]
fn severity_is_failure_classification() {
    assert!(InfologSeverity::Error.is_failure());
    assert!(
        InfologSeverity::Unknown('Z').is_failure(),
        "Unknown severities must be treated as failures so unrecognised responses don't cause silent commits"
    );
    assert!(!InfologSeverity::Success.is_failure());
    assert!(!InfologSeverity::Warning.is_failure());
    assert!(!InfologSeverity::Info.is_failure());
}

#[test]
fn severity_parse_accepts_words_and_letters() {
    assert_eq!(InfologSeverity::parse(" Error "), InfologSeverity::Error);
    assert_eq!(InfologSeverity::parse("e"), InfologSeverity::Error);
    assert_eq!(InfologSeverity::parse("WARN"), InfologSeverity::Warning);
    assert_eq!(InfologSeverity::parse("information"), InfologSeverity::Info);
    assert_eq!(InfologSeverity::parse("S"), InfologSeverity::Success);
    assert_eq!(InfologSeverity::parse("  zzz"), InfologSeverity::Unknown('z'));
    assert_eq!(InfologSeverity::parse(""), InfologSeverity::Unknown(' '));
}

#[test]
fn numeric_codes_and_missing_severity() {
    let v = obj(vec![
        ("type", Json::Number("7".into())),
        ("ID", Json::Number("42".into())),
        ("MESSAGE", s("numbered")),
        ("SYSTEM", s("gt-dev")),
    ]);
    let parsed = parse_infolog(&v);
    assert_eq!(parsed.len(), 1);
    assert_eq!(parsed[0].code, "42");
    assert_eq!(parsed[0].environment.as_deref(), Some("gt-dev"));
    assert_eq!(parsed[0].severity, InfologSeverity::Unknown('7'));
}

fn msg(sev: InfologSeverity) -> InfologMessage {
    InfologMessage { severity: sev, code: "X".into(), text: "t".into(), field: None, environment: None }
}

#[test]
fn has_failure_treats_error_and_unknown_as_failure() {
    assert!(has_failure(&[msg(InfologSeverity::Error)]));
    assert!(has_failure(&[msg(InfologSeverity::Unknown('Z'))]));
    assert!(!has_failure(&[msg(InfologSeverity::Success)]));
    assert!(!has_failure(&[msg(InfologSeverity::Warning), msg(InfologSeverity::Info)]));
    assert!(!has_failure(&[]));
}

#[test]
fn severity_parse_trims_unicode_whitespace() {
    assert_eq!(InfologSeverity::parse("\u{2003}Warning\u{3000}"), InfologSeverity::Warning);
    assert_eq!(InfologSeverity::parse("\u{a0}e\n"), InfologSeverity::Error);
}
