use denmon::aggregate::collect_contributions;
use denmon::aggregate::key_is_supply_field;
use denmon::bits::bits_finite;
use denmon::bits::supply_below_minimum;
use denmon::ensure_success_status;
use denmon::errors::CheckTetherSupplyCommandRunError;
use denmon::errors::SupplyValueParseError;
use denmon::model::JsonField;
use denmon::model::JsonNumber;
use denmon::model::JsonValue;
use denmon::model::NumericParse;
use denmon::model::UncoercibleKind;
use denmon::notify::build_shortfall_notification;
use denmon::notify::notification_needed;
use denmon::notify::shortfall_notification;
use denmon::notify::RunConfig;
use denmon::payload::extract_usdt_fields;
use denmon::status_acceptable;

fn num(v: f64) -> JsonValue {
    JsonValue::Number(JsonNumber::Representable { bits: v.to_bits() })
}

fn text(s: &str) -> JsonValue {
    let parse = match s.parse::<f64>() {
        Ok(v) => NumericParse::Parsed { bits: v.to_bits() },
        Err(e) => NumericParse::Failed {
            message: e.to_string(),
        },
    };
    JsonValue::Text {
        value: s.to_string(),
        parse,
    }
}

fn field(name: &str, value: JsonValue) -> JsonField {
    JsonField {
        name: name.to_string(),
        value,
    }
}

fn sum(bits: &[u64]) -> f64 {
    let mut total = 0.0_f64;
    for b in bits {
        total += f64::from_bits(*b);
    }
    total
}

#[test]
fn aggregation_rejects_empty_mapping() {
    let fields: Vec<JsonField> = Vec::new();
    let r = collect_contributions(&fields);
    assert!(matches!(r, Err(CheckTetherSupplyCommandRunError::NoSupplyFields)));
}

#[test]
fn aggregation_rejects_mapping_without_supply_keys() {
    let fields = vec![
        field("other", text("1")),
        field("totals", num(3.0)),
        field("Totaltokens1", num(4.0)),
        field("xtotaltokens", num(5.0)),
    ];
    let r = collect_contributions(&fields);
    assert!(matches!(r, Err(CheckTetherSupplyCommandRunError::NoSupplyFields)));
}

#[test]
fn aggregation_returns_single_value_exactly() {
    let fields = vec![field("totaltokens1", text("1000000.5"))];
    let r = collect_contributions(&fields).expect("one valid supply field");
    assert_eq!(r.len(), 1);
    assert_eq!(f64::from_bits(r[0]), 1000000.5);
}

#[test]
fn aggregation_sums_multiple_fields() {
    let fields = vec![
        field("totaltokens1", text("1000000.5")),
        field("totaltokensEth", num(500000.0)),
        field("other", text("1")),
    ];
    let r = collect_contributions(&fields).expect("all supply fields valid");
    assert_eq!(r.len(), 2);
    assert_eq!(sum(&r), 1500000.5);
}

#[test]
fn aggregation_is_order_independent() {
    let one = vec![
        field("totaltokens1", text("1000000.5")),
        field("totaltokensEth", num(500000.0)),
        field("ignored", num(7.0)),
    ];
    let two = vec![
        field("ignored", num(7.0)),
        field("totaltokensEth", num(500000.0)),
        field("totaltokens1", text("1000000.5")),
    ];
    let mut a = collect_contributions(&one).expect("valid");
    let mut b = collect_contributions(&two).expect("valid");
    assert_eq!(sum(&a), sum(&b));
    a.sort();
    b.sort();
    assert_eq!(a, b);
}

#[test]
fn bare_prefix_key_qualifies() {
    let fields = vec![field("totaltokens", num(2.5))];
    let r = collect_contributions(&fields).expect("bare prefix qualifies");
    assert_eq!(r.len(), 1);
    assert_eq!(f64::from_bits(r[0]), 2.5);
}

#[test]
fn invalid_values_under_other_keys_are_ignored() {
    let fields = vec![
        field("other", JsonValue::Bool(true)),
        field("note", text("abc")),
        field("totaltokens1", num(1.25)),
    ];
    let r = collect_contributions(&fields).expect("only supply fields are coerced");
    assert_eq!(sum(&r), 1.25);
}

#[test]
fn prefix_match_is_prefix_not_exact() {
    assert!(key_is_supply_field("totaltokens"));
    assert!(key_is_supply_field("totaltokens1"));
    assert!(key_is_supply_field("totaltokensEth"));
    assert!(!key_is_supply_field("Totaltokens1"));
    assert!(!key_is_supply_field("xtotaltokens"));
    assert!(!key_is_supply_field("totaltoken"));
    assert!(!key_is_supply_field(""));
}

#[test]
fn aggregation_rejects_uncoercible_kinds() {
    let cases = [
        (JsonValue::Bool(true), UncoercibleKind::Bool),
        (JsonValue::Array(Vec::new()), UncoercibleKind::Array),
        (JsonValue::Object(Vec::new()), UncoercibleKind::Object),
        (JsonValue::Null, UncoercibleKind::Null),
    ];
    for (value, kind) in cases {
        let fields = vec![field("totaltokensOdd", value)];
        match collect_contributions(&fields) {
            Err(CheckTetherSupplyCommandRunError::InvalidSupplyValue { key, source }) => {
                assert_eq!(key, "totaltokensOdd");
                match source {
                    SupplyValueParseError::UnsupportedType { value_type } => {
                        assert_eq!(value_type, kind);
                        assert_eq!(
                            value_type.label(),
                            match kind {
                                UncoercibleKind::Bool => "bool",
                                UncoercibleKind::Array => "array",
                                UncoercibleKind::Object => "object",
                                UncoercibleKind::Null => "null",
                            }
                        );
                    }
                    _ => panic!("wrong failure kind"),
                }
            }
            _ => panic!("expected an invalid supply value failure"),
        }
    }
}

#[test]
fn aggregation_rejects_unparsable_string_and_names_key() {
    let fields = vec![
        field("totaltokens1", num(1.0)),
        field("totaltokensBad", text("abc")),
    ];
    match collect_contributions(&fields) {
        Err(CheckTetherSupplyCommandRunError::InvalidSupplyValue { key, source }) => {
            assert_eq!(key, "totaltokensBad");
            match source {
                SupplyValueParseError::InvalidString { value, message } => {
                    assert_eq!(value, "abc");
                    assert!(!message.is_empty());
                }
                _ => panic!("wrong failure kind"),
            }
        }
        _ => panic!("expected an invalid supply value failure"),
    }
}

#[test]
fn aggregation_rejects_non_finite_parses() {
    for s in ["inf", "-inf", "NaN", "infinity"] {
        let fields = vec![field("totaltokens1", text(s))];
        match collect_contributions(&fields) {
            Err(CheckTetherSupplyCommandRunError::InvalidSupplyValue { key, source }) => {
                assert_eq!(key, "totaltokens1");
                match source {
                    SupplyValueParseError::NonFinite { bits } => {
                        assert!(!f64::from_bits(bits).is_finite());
                    }
                    _ => panic!("wrong failure kind"),
                }
            }
            _ => panic!("expected an invalid supply value failure"),
        }
    }
}

#[test]
fn aggregation_rejects_out_of_range_number() {
    let fields = vec![field(
        "totaltokensBig",
        JsonValue::Number(JsonNumber::OutOfRange {
            rendered: "1e999".to_string(),
        }),
    )];
    match collect_contributions(&fields) {
        Err(CheckTetherSupplyCommandRunError::InvalidSupplyValue { key, source }) => {
            assert_eq!(key, "totaltokensBig");
            match source {
                SupplyValueParseError::NumberOutOfRange { value } => {
                    assert_eq!(value, "1e999");
                }
                _ => panic!("wrong failure kind"),
            }
        }
        _ => panic!("expected an invalid supply value failure"),
    }
}

#[test]
fn aggregation_fails_on_first_offending_field() {
    let fields = vec![
        field("totaltokensA", num(1.0)),
        field("totaltokensB", text("abc")),
        field("totaltokensC", JsonValue::Null),
    ];
    match collect_contributions(&fields) {
        Err(CheckTetherSupplyCommandRunError::InvalidSupplyValue { key, .. }) => {
            assert_eq!(key, "totaltokensB");
        }
        _ => panic!("expected an invalid supply value failure"),
    }
}

#[test]
fn threshold_equal_does_not_trigger() {
    for v in [0.0, 1.0, 2000000.0, -3.5, f64::MAX] {
        assert!(!supply_below_minimum(v.to_bits(), v.to_bits()));
    }
}

#[test]
fn threshold_one_below_triggers() {
    let min = 2000000.0_f64;
    assert!(supply_below_minimum((min - 1.0).to_bits(), min.to_bits()));
    assert!(!supply_below_minimum((min + 1.0).to_bits(), min.to_bits()));
}

#[test]
fn threshold_matches_float_comparison() {
    let samples = [
        0.0,
        -0.0,
        1.0,
        -1.0,
        0.5,
        -0.5,
        1500000.5,
        2000000.0,
        f64::MAX,
        f64::MIN,
        f64::MIN_POSITIVE,
        5e-324,
        -5e-324,
        f64::INFINITY,
        f64::NEG_INFINITY,
        f64::NAN,
        1.4e11,
    ];
    for a in samples {
        for b in samples {
            assert_eq!(
                supply_below_minimum(a.to_bits(), b.to_bits()),
                a < b,
                "mismatch for {a} < {b}"
            );
        }
    }
}

#[test]
fn finiteness_matches_float_classification() {
    let samples = [
        0.0,
        -0.0,
        1.0,
        -1.5,
        f64::MAX,
        f64::MIN_POSITIVE,
        5e-324,
        f64::INFINITY,
        f64::NEG_INFINITY,
        f64::NAN,
    ];
    for v in samples {
        assert_eq!(bits_finite(v.to_bits()), v.is_finite(), "mismatch for {v}");
    }
}

#[test]
fn notification_decision_uses_config_minimum() {
    let config = RunConfig {
        ntfy_topic: "supply".to_string(),
        supply_min_bits: 2000000.0_f64.to_bits(),
    };
    assert!(notification_needed(1500000.5_f64.to_bits(), &config));
    assert!(!notification_needed(2000000.0_f64.to_bits(), &config));
    assert!(!notification_needed(2500000.0_f64.to_bits(), &config));
}

#[test]
fn status_success_range_is_two_hundreds() {
    for s in [200u16, 201, 204, 299] {
        assert!(status_acceptable(s));
        assert!(ensure_success_status(s).is_ok());
    }
    for s in [100u16, 199, 300, 301, 404, 500, 503] {
        assert!(!status_acceptable(s));
    }
}

#[test]
fn unexpected_status_reports_the_status() {
    match ensure_success_status(500) {
        Err(CheckTetherSupplyCommandRunError::UnexpectedStatus { status }) => {
            assert_eq!(status, 500);
        }
        _ => panic!("expected an unexpected-status failure"),
    }
}

#[test]
fn notification_request_carries_the_fixed_contents() {
    let r = build_shortfall_notification("mytopic".to_string(), "1,500,000");
    assert_eq!(r.topic, "mytopic");
    assert_eq!(r.title, "USDT supply decreased");
    assert_eq!(r.message, "Current supply: 1,500,000");
    assert!(r.markdown);
    assert_eq!(r.tags, vec!["warning".to_string()]);
    assert_eq!(
        r.click_url,
        "https://studio.glassnode.com/charts/supply.Current?a=USDT&category=Supply"
    );
}

#[test]
fn one_notification_exactly_when_below_minimum() {
    let config = RunConfig {
        ntfy_topic: "supply".to_string(),
        supply_min_bits: 2000000.0_f64.to_bits(),
    };
    let triggered = shortfall_notification(1500000.5_f64.to_bits(), &config, "1,500,000");
    match triggered {
        Some(request) => {
            assert_eq!(request.topic, "supply");
            assert_eq!(request.message, "Current supply: 1,500,000");
        }
        None => panic!("a supply below the minimum must notify"),
    }
    assert!(shortfall_notification(2000000.0_f64.to_bits(), &config, "2,000,000").is_none());
    assert!(shortfall_notification(2000001.0_f64.to_bits(), &config, "2,000,001").is_none());
}

fn example_payload(usdt: Vec<JsonField>) -> JsonValue {
    JsonValue::Object(vec![field(
        "data",
        JsonValue::Object(vec![field("usdt", JsonValue::Object(usdt))]),
    )])
}

#[test]
fn payload_extraction_finds_nested_mapping() {
    let payload = example_payload(vec![field("totaltokens1", num(5.0))]);
    let fields = extract_usdt_fields(payload).expect("well-shaped payload");
    assert_eq!(fields.len(), 1);
    assert_eq!(fields[0].name, "totaltokens1");
}

#[test]
fn payload_extraction_rejects_wrong_shapes() {
    let wrong = [
        JsonValue::Null,
        JsonValue::Array(Vec::new()),
        JsonValue::Object(Vec::new()),
        JsonValue::Object(vec![field("data", JsonValue::Null)]),
        JsonValue::Object(vec![field("data", JsonValue::Object(Vec::new()))]),
        JsonValue::Object(vec![field(
            "data",
            JsonValue::Object(vec![field("usdt", text("nope"))]),
        )]),
    ];
    for payload in wrong {
        assert!(matches!(
            extract_usdt_fields(payload),
            Err(CheckTetherSupplyCommandRunError::ParseTransparencyFailed { .. })
        ));
    }
}

#[test]
fn end_to_end_shortfall_example() {
    let payload = example_payload(vec![
        field("totaltokens1", text("1000000.5")),
        field("totaltokensEth", num(500000.0)),
    ]);
    let fields = extract_usdt_fields(payload).expect("well-shaped payload");
    let contributions = collect_contributions(&fields).expect("valid supply fields");
    let supply = sum(&contributions);
    assert_eq!(supply, 1500000.5);
    let config = RunConfig {
        ntfy_topic: "supply".to_string(),
        supply_min_bits: 2000000.0_f64.to_bits(),
    };
    assert!(notification_needed(supply.to_bits(), &config));
    let mut formatter = numfmt::Formatter::new()
        .separator(',')
        .unwrap()
        .precision(numfmt::Precision::Decimals(0));
    let formatted = formatter.fmt2(supply).to_string();
    let request = build_shortfall_notification(config.ntfy_topic.clone(), &formatted);
    assert_eq!(request.message, "Current supply: 1,500,000");
}

#[test]
fn example_without_supply_fields_fails_before_notification() {
    let payload = example_payload(vec![field("other", text("1"))]);
    let fields = extract_usdt_fields(payload).expect("well-shaped payload");
    let r = collect_contributions(&fields);
    assert!(matches!(r, Err(CheckTetherSupplyCommandRunError::NoSupplyFields)));
}
