use std::sync::atomic::{AtomicUsize, Ordering};
use std::sync::{Arc, Mutex};
use tide_validator::{HttpField, Report, RequestFields, ValidatorMiddleware, Verdict};

type Check = Box<dyn Fn(&str, Option<&str>) -> Result<(), String> + Send + Sync>;

fn is_number(field_name: &str, field_value: Option<&str>) -> Result<(), String> {
    if let Some(field_value) = field_value {
        if field_value.parse::<i64>().is_err() {
            return Err(format!(
                "field '{}' = '{}' is not a valid number",
                field_name, field_value
            ));
        }
    }
    Ok(())
}

fn is_required(field_name: &str, field_value: Option<&str>) -> Result<(), String> {
    if field_value.is_none() {
        Err(format!("'{}' is mandatory", field_name))
    } else {
        Ok(())
    }
}

fn is_bool(field_name: &str, field_value: Option<&str>) -> Result<(), String> {
    if let Some(field_value) = field_value {
        match field_value {
            "true" | "false" => return Ok(()),
            other => {
                return Err(format!(
                    "field '{}' = '{}' is not a valid boolean",
                    field_name, other
                ))
            }
        }
    }
    Ok(())
}

fn is_length_under(max_length: usize) -> Check {
    Box::new(move |field_name: &str, field_value: Option<&str>| {
        if let Some(field_value) = field_value {
            if field_value.len() > max_length {
                return Err(format!(
                    "element '{}' which is equals to '{}' have not the maximum length of {}",
                    field_name, field_value, max_length
                ));
            }
        }
        Ok(())
    })
}

/// A validator that counts its calls and then answers as `inner` does.
fn counted(calls: &Arc<AtomicUsize>, inner: fn(&str, Option<&str>) -> Result<(), String>) -> Check {
    let calls = Arc::clone(calls);
    Box::new(move |name: &str, value: Option<&str>| {
        calls.fetch_add(1, Ordering::SeqCst);
        inner(name, value)
    })
}

/// A validator that writes down what it was given and passes.
fn recording(seen: &Arc<Mutex<Vec<(String, Option<String>)>>>) -> Check {
    let seen = Arc::clone(seen);
    Box::new(move |name: &str, value: Option<&str>| {
        seen.lock()
            .unwrap()
            .push((name.to_string(), value.map(|text| text.to_string())));
        Ok(())
    })
}

fn always_fails(name: &str, _value: Option<&str>) -> Result<(), String> {
    Err(format!("{} fails", name))
}

fn always_passes(_name: &str, _value: Option<&str>) -> Result<(), String> {
    Ok(())
}

fn invalid(report: &Report<String>) -> (HttpField<'static>, usize, String) {
    match &report.verdict {
        Verdict::Invalid { field, index, error } => (*field, *index, error.clone()),
        Verdict::Forward => panic!("the request was forwarded"),
        Verdict::MalformedQuery => panic!("the query string was refused"),
    }
}

#[test]
fn empty_registry_forwards_every_request() {
    let registry: ValidatorMiddleware<String, Check> = ValidatorMiddleware::new();
    let requests = vec![
        RequestFields::new(),
        RequestFields::new().with_query("n=abc"),
        RequestFields::new().with_query("a[b]=1"),
        RequestFields::new()
            .with_param("n", "x")
            .with_header("X-Is-Connected", "maybe")
            .with_cookie("session", ""),
    ];
    for fields in requests.iter() {
        let report = registry.handle(fields);
        assert!(matches!(report.verdict, Verdict::Forward));
        assert_eq!(report.query_decodes, 0);
    }
}

#[test]
fn number_in_the_query_passes() {
    let mut registry: ValidatorMiddleware<String, Check> = ValidatorMiddleware::new();
    registry.add_validator(HttpField::QueryParam("n"), Box::new(is_number));
    let report = registry.handle(&RequestFields::new().with_query("n=42"));
    assert!(matches!(report.verdict, Verdict::Forward));
    assert_eq!(report.query_decodes, 1);
}

#[test]
fn text_in_place_of_a_number_is_invalid() {
    let mut registry: ValidatorMiddleware<String, Check> = ValidatorMiddleware::new();
    registry.add_validator(HttpField::QueryParam("n"), Box::new(is_number));
    let report = registry.handle(&RequestFields::new().with_query("n=abc"));
    assert_eq!(
        invalid(&report),
        (
            HttpField::QueryParam("n"),
            0,
            "field 'n' = 'abc' is not a valid number".to_string()
        )
    );
    assert_eq!(report.query_decodes, 1);
}

#[test]
fn missing_header_fails_the_required_validator_first() {
    let calls = Arc::new(AtomicUsize::new(0));
    let mut registry: ValidatorMiddleware<String, Check> = ValidatorMiddleware::new();
    registry.add_validator(HttpField::Header("X-Is-Connected"), Box::new(is_required));
    registry.add_validator(HttpField::Header("X-Is-Connected"), counted(&calls, is_bool));
    let report = registry.handle(&RequestFields::new());
    assert_eq!(
        invalid(&report),
        (
            HttpField::Header("X-Is-Connected"),
            0,
            "'X-Is-Connected' is mandatory".to_string()
        )
    );
    assert_eq!(calls.load(Ordering::SeqCst), 0);
}

#[test]
fn header_that_is_a_boolean_passes_both_validators() {
    let calls = Arc::new(AtomicUsize::new(0));
    let mut registry: ValidatorMiddleware<String, Check> = ValidatorMiddleware::new();
    registry.add_validator(HttpField::Header("X-Is-Connected"), Box::new(is_required));
    registry.add_validator(HttpField::Header("X-Is-Connected"), counted(&calls, is_bool));
    let fields = RequestFields::new().with_header("X-Is-Connected", "true");
    let report = registry.handle(&fields);
    assert!(matches!(report.verdict, Verdict::Forward));
    assert_eq!(calls.load(Ordering::SeqCst), 1);
}

#[test]
fn header_that_is_no_boolean_fails_the_second_validator() {
    let mut registry: ValidatorMiddleware<String, Check> = ValidatorMiddleware::new();
    registry.add_validator(HttpField::Header("X-Is-Connected"), Box::new(is_required));
    registry.add_validator(HttpField::Header("X-Is-Connected"), Box::new(is_bool));
    let fields = RequestFields::new().with_header("X-Is-Connected", "maybe");
    assert_eq!(
        invalid(&registry.handle(&fields)),
        (
            HttpField::Header("X-Is-Connected"),
            1,
            "field 'X-Is-Connected' = 'maybe' is not a valid boolean".to_string()
        )
    );
}

#[test]
fn short_query_parameter_passes_the_length_validator() {
    let mut registry: ValidatorMiddleware<String, Check> = ValidatorMiddleware::new();
    registry.add_validator(HttpField::QueryParam("test"), is_length_under(10));
    let report = registry.handle(&RequestFields::new().with_query("test=coucou"));
    assert!(matches!(report.verdict, Verdict::Forward));
}

#[test]
fn long_query_parameter_fails_the_length_validator() {
    let mut registry: ValidatorMiddleware<String, Check> = ValidatorMiddleware::new();
    registry.add_validator(HttpField::QueryParam("test"), is_length_under(10));
    let report = registry.handle(&RequestFields::new().with_query("test=blablablablabla"));
    assert_eq!(
        invalid(&report),
        (
            HttpField::QueryParam("test"),
            0,
            "element 'test' which is equals to 'blablablablabla' have not the maximum length of 10"
                .to_string()
        )
    );
}

#[test]
fn malformed_query_string_stops_the_request() {
    let seen = Arc::new(Mutex::new(Vec::new()));
    for text in ["n[x]=1", "n=1&n=2", "n=%ff"] {
        let mut registry: ValidatorMiddleware<String, Check> = ValidatorMiddleware::new();
        registry.add_validator(HttpField::QueryParam("n"), recording(&seen));
        registry.add_validator(HttpField::Header("X-Token"), recording(&seen));
        let report = registry.handle(&RequestFields::new().with_query(text));
        assert!(matches!(report.verdict, Verdict::MalformedQuery), "{:?}", text);
        assert_eq!(report.query_decodes, 1);
    }
    assert!(seen.lock().unwrap().is_empty());
}

#[test]
fn malformed_query_string_is_nothing_to_a_registry_without_query_selectors() {
    let mut registry: ValidatorMiddleware<String, Check> = ValidatorMiddleware::new();
    registry.add_validator(HttpField::Header("X-Token"), Box::new(is_required));
    let fields = RequestFields::new()
        .with_query("n[x]=1")
        .with_header("X-Token", "abc");
    let report = registry.handle(&fields);
    assert!(matches!(report.verdict, Verdict::Forward));
    assert_eq!(report.query_decodes, 0);
}

#[test]
fn validators_before_a_malformed_query_string_still_run() {
    let calls = Arc::new(AtomicUsize::new(0));
    let mut registry: ValidatorMiddleware<String, Check> = ValidatorMiddleware::new();
    registry.add_validator(HttpField::Header("X-Token"), counted(&calls, always_passes));
    registry.add_validator(HttpField::QueryParam("n"), counted(&calls, always_passes));
    registry.add_validator(HttpField::Cookie("session"), counted(&calls, always_passes));
    let report = registry.handle(&RequestFields::new().with_query("n[x]=1"));
    assert!(matches!(report.verdict, Verdict::MalformedQuery));
    assert_eq!(calls.load(Ordering::SeqCst), 1);
}

#[test]
fn failure_before_the_query_selector_leaves_the_query_string_alone() {
    let mut registry: ValidatorMiddleware<String, Check> = ValidatorMiddleware::new();
    registry.add_validator(HttpField::Header("X-Token"), Box::new(is_required));
    registry.add_validator(HttpField::QueryParam("a"), Box::new(is_number));
    registry.add_validator(HttpField::QueryParam("b"), Box::new(is_number));
    let report = registry.handle(&RequestFields::new().with_query("a[b]=1"));
    assert_eq!(
        invalid(&report),
        (HttpField::Header("X-Token"), 0, "'X-Token' is mandatory".to_string())
    );
    assert_eq!(report.query_decodes, 0);
}

#[test]
fn first_failure_stops_every_later_validator() {
    let before = Arc::new(AtomicUsize::new(0));
    let failing = Arc::new(AtomicUsize::new(0));
    let same_chain = Arc::new(AtomicUsize::new(0));
    let other_chain = Arc::new(AtomicUsize::new(0));
    let mut registry: ValidatorMiddleware<String, Check> = ValidatorMiddleware::new();
    registry.add_validator(HttpField::Param("id"), counted(&before, always_passes));
    registry.add_validator(HttpField::Header("X-Token"), counted(&before, always_passes));
    registry.add_validator(HttpField::Header("X-Token"), counted(&failing, always_fails));
    registry.add_validator(HttpField::Header("X-Token"), counted(&same_chain, always_passes));
    registry.add_validator(HttpField::Header("X-Token"), counted(&same_chain, always_fails));
    registry.add_validator(HttpField::Cookie("session"), counted(&other_chain, always_fails));
    registry.add_validator(HttpField::QueryParam("page"), counted(&other_chain, always_passes));
    let report = registry.handle(&RequestFields::new().with_query("page[x]=1"));
    assert_eq!(
        invalid(&report),
        (HttpField::Header("X-Token"), 1, "X-Token fails".to_string())
    );
    assert_eq!(before.load(Ordering::SeqCst), 2);
    assert_eq!(failing.load(Ordering::SeqCst), 1);
    assert_eq!(same_chain.load(Ordering::SeqCst), 0);
    assert_eq!(other_chain.load(Ordering::SeqCst), 0);
    assert_eq!(report.query_decodes, 0);
}

#[test]
fn what_stands_behind_the_failure_does_not_change_the_report() {
    let mut short: ValidatorMiddleware<String, Check> = ValidatorMiddleware::new();
    short.add_validator(HttpField::Param("id"), Box::new(is_number));
    short.add_validator(HttpField::Header("X-Token"), Box::new(is_required));
    let mut long: ValidatorMiddleware<String, Check> = ValidatorMiddleware::new();
    long.add_validator(HttpField::Param("id"), Box::new(is_number));
    long.add_validator(HttpField::Header("X-Token"), Box::new(is_required));
    long.add_validator(HttpField::Header("X-Token"), Box::new(always_fails));
    long.add_validator(HttpField::QueryParam("page"), Box::new(always_fails));
    long.add_validator(HttpField::Cookie("session"), Box::new(always_fails));
    let fields = RequestFields::new().with_param("id", "7").with_query("page[x]=1");
    let from_short = registry_report(&short, &fields);
    let from_long = registry_report(&long, &fields);
    assert_eq!(
        from_short,
        (HttpField::Header("X-Token"), 0, "'X-Token' is mandatory".to_string(), 0)
    );
    assert_eq!(from_long, from_short);
}

fn registry_report(
    registry: &ValidatorMiddleware<String, Check>,
    fields: &RequestFields,
) -> (HttpField<'static>, usize, String, usize) {
    let report = registry.handle(fields);
    let (field, index, error) = invalid(&report);
    (field, index, error, report.query_decodes)
}

#[test]
fn selectors_are_gone_through_in_the_order_of_their_registration() {
    let mut registry: ValidatorMiddleware<String, Check> = ValidatorMiddleware::new();
    registry.add_validator(HttpField::Cookie("session"), Box::new(always_passes));
    registry.add_validator(HttpField::Header("X-Token"), Box::new(always_fails));
    registry.add_validator(HttpField::Cookie("session"), Box::new(always_fails));
    let report = registry.handle(&RequestFields::new());
    assert_eq!(
        invalid(&report),
        (HttpField::Cookie("session"), 1, "session fails".to_string())
    );
}

#[test]
fn query_string_is_decoded_once_for_several_parameters() {
    let seen = Arc::new(Mutex::new(Vec::new()));
    let mut registry: ValidatorMiddleware<String, Check> = ValidatorMiddleware::new();
    registry.add_validator(HttpField::QueryParam("a"), recording(&seen));
    registry.add_validator(HttpField::Header("X-Token"), recording(&seen));
    registry.add_validator(HttpField::QueryParam("b"), recording(&seen));
    registry.add_validator(HttpField::QueryParam("c"), recording(&seen));
    registry.add_validator(HttpField::QueryParam("a"), recording(&seen));
    let report = registry.handle(&RequestFields::new().with_query("a=1&b=2"));
    assert!(matches!(report.verdict, Verdict::Forward));
    assert_eq!(report.query_decodes, 1);
    assert_eq!(
        *seen.lock().unwrap(),
        vec![
            ("a".to_string(), Some("1".to_string())),
            ("a".to_string(), Some("1".to_string())),
            ("X-Token".to_string(), None),
            ("b".to_string(), Some("2".to_string())),
            ("c".to_string(), None),
        ]
    );
}

#[test]
fn query_string_is_not_decoded_without_query_selectors() {
    let mut registry: ValidatorMiddleware<String, Check> = ValidatorMiddleware::new();
    registry.add_validator(HttpField::Param("id"), Box::new(is_number));
    registry.add_validator(HttpField::Cookie("session"), Box::new(always_passes));
    let report = registry.handle(&RequestFields::new().with_query("a=1&b=2"));
    assert!(matches!(report.verdict, Verdict::Forward));
    assert_eq!(report.query_decodes, 0);
}

#[test]
fn absent_fields_reach_the_validators_as_none() {
    let seen = Arc::new(Mutex::new(Vec::new()));
    let mut registry: ValidatorMiddleware<String, Check> = ValidatorMiddleware::new();
    registry.add_validator(HttpField::Param("id"), recording(&seen));
    registry.add_validator(HttpField::QueryParam("page"), recording(&seen));
    registry.add_validator(HttpField::Header("X-Token"), recording(&seen));
    registry.add_validator(HttpField::Cookie("session"), recording(&seen));
    let report = registry.handle(&RequestFields::new());
    assert!(matches!(report.verdict, Verdict::Forward));
    assert_eq!(
        *seen.lock().unwrap(),
        vec![
            ("id".to_string(), None),
            ("page".to_string(), None),
            ("X-Token".to_string(), None),
            ("session".to_string(), None),
        ]
    );
}

#[test]
fn absent_field_is_for_the_required_validator_to_refuse() {
    for field in [
        HttpField::Param("id"),
        HttpField::Header("id"),
        HttpField::Cookie("id"),
        HttpField::QueryParam("id"),
    ] {
        let mut registry: ValidatorMiddleware<String, Check> = ValidatorMiddleware::new();
        registry.add_validator(field, Box::new(is_required));
        let fields = RequestFields::new()
            .with_param("other", "1")
            .with_query("other=1")
            .with_header("other", "1")
            .with_cookie("other", "1");
        assert_eq!(
            invalid(&registry.handle(&fields)),
            (field, 0, "'id' is mandatory".to_string())
        );
    }
}

#[test]
fn present_fields_reach_the_validators_with_their_values() {
    let seen = Arc::new(Mutex::new(Vec::new()));
    let mut registry: ValidatorMiddleware<String, Check> = ValidatorMiddleware::new();
    registry.add_validator(HttpField::Param("id"), recording(&seen));
    registry.add_validator(HttpField::QueryParam("id"), recording(&seen));
    registry.add_validator(HttpField::Header("id"), recording(&seen));
    registry.add_validator(HttpField::Cookie("id"), recording(&seen));
    let fields = RequestFields::new()
        .with_param("id", "from the path")
        .with_query("id=from%20the%20query")
        .with_header("id", "an earlier value")
        .with_header("id", "from the header")
        .with_cookie("id", "from the cookie");
    let report = registry.handle(&fields);
    assert!(matches!(report.verdict, Verdict::Forward));
    assert_eq!(
        *seen.lock().unwrap(),
        vec![
            ("id".to_string(), Some("from the path".to_string())),
            ("id".to_string(), Some("from the query".to_string())),
            ("id".to_string(), Some("from the header".to_string())),
            ("id".to_string(), Some("from the cookie".to_string())),
        ]
    );
}

#[test]
fn same_request_gets_the_same_report_again() {
    let mut registry: ValidatorMiddleware<String, Check> = ValidatorMiddleware::new();
    registry.add_validator(HttpField::QueryParam("n"), Box::new(is_number));
    let fields = RequestFields::new().with_query("n=abc");
    let first = registry.handle(&fields);
    let second = registry.handle(&fields);
    assert_eq!(invalid(&first), invalid(&second));
    assert_eq!(first.query_decodes, second.query_decodes);
}

#[test]
fn first_failure_is_none_where_all_pass() {
    let validators: Vec<Check> = vec![Box::new(is_required), Box::new(is_number)];
    assert_eq!(tide_validator::dispatch::first_failure(&validators, "n", Some("42")), None);
    let nothing: Vec<Check> = Vec::new();
    assert_eq!(tide_validator::dispatch::first_failure(&nothing, "n", None), None);
}

#[test]
fn first_failure_names_the_validator_and_its_error() {
    let calls = Arc::new(AtomicUsize::new(0));
    let validators: Vec<Check> = vec![
        Box::new(is_required),
        Box::new(is_number),
        counted(&calls, always_fails),
    ];
    assert_eq!(
        tide_validator::dispatch::first_failure(&validators, "n", Some("abc")),
        Some((1, "field 'n' = 'abc' is not a valid number".to_string()))
    );
    assert_eq!(calls.load(Ordering::SeqCst), 0);
    assert_eq!(
        tide_validator::dispatch::first_failure(&validators, "n", None),
        Some((0, "'n' is mandatory".to_string()))
    );
    assert_eq!(
        tide_validator::dispatch::first_failure(&validators, "n", Some("7")),
        Some((2, "n fails".to_string()))
    );
    assert_eq!(calls.load(Ordering::SeqCst), 1);
}
