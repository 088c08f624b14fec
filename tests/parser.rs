use envvars::get_context_envvars;
use envvars::parser::{into_variables, parse_output, Captured};
use envvars::EnvError;
use std::collections::HashMap;

#[test]
fn flat_object_is_parsed() {
    let out = parse_output(br#"{"PATH":"/usr/bin","HOME":"/home/u"}"#, b"").unwrap();
    assert_eq!(out.len(), 2);
    assert_eq!(out.get("PATH").map(|s| s.as_str()), Some("/usr/bin"));
    assert_eq!(out.get("HOME").map(|s| s.as_str()), Some("/home/u"));
}

#[test]
fn non_json_is_a_parsing_error() {
    match parse_output(b"not-json", b"some diagnostics") {
        Err(EnvError::Parsing(_, stdout, stderr)) => {
            assert_eq!(stdout, "not-json");
            assert_eq!(stderr, "some diagnostics");
        }
        other => panic!("unexpected {:?}", other),
    }
}

#[test]
fn nested_values_are_a_parsing_error() {
    assert!(matches!(
        parse_output(br#"{"A":{"B":"c"}}"#, b""),
        Err(EnvError::Parsing(_, _, _))
    ));
}

#[test]
fn invalid_stdout_is_a_decoding_error() {
    assert!(matches!(parse_output(&[0xff, 0xfe], b""), Err(EnvError::Decoding(_))));
}

#[test]
fn invalid_stderr_is_a_decoding_error() {
    assert!(matches!(parse_output(b"{}", &[0xc3]), Err(EnvError::Decoding(_))));
}

#[test]
fn empty_object_is_an_empty_map() {
    assert!(parse_output(b"{}", b"").unwrap().is_empty());
}

#[test]
fn round_trip_is_lossless() {
    let mut vars = HashMap::new();
    vars.insert("PATH".to_string(), "/usr/bin:/bin".to_string());
    vars.insert("Mixed Case".to_string(), "ünïcode \"quoted\" \\ back".to_string());
    vars.insert("EMPTY".to_string(), String::new());
    let text = serde_json::to_string(&vars).unwrap();
    assert_eq!(parse_output(text.as_bytes(), b"").unwrap(), vars);
}

#[test]
fn parser_outcome_is_mapped() {
    let mut m = HashMap::new();
    m.insert("K".to_string(), "V".to_string());
    assert_eq!(into_variables(Ok(m.clone()), "x", "y").unwrap(), m);
    let e = serde_json::from_str::<HashMap<String, String>>("[").unwrap_err();
    match into_variables(Err(e), "[", "err") {
        Err(EnvError::Parsing(_, o, r)) => {
            assert_eq!(o, "[");
            assert_eq!(r, "err");
        }
        _ => panic!("expected a parsing error"),
    }
}

#[test]
fn context_variables_from_captured_output() {
    let captured = Captured {
        stdout: br#"{"PATH":"/usr/bin"}"#.to_vec(),
        stderr: Vec::new(),
    };
    let vars = get_context_envvars(Ok(captured)).unwrap();
    assert_eq!(vars.get("PATH").map(|s| s.as_str()), Some("/usr/bin"));
    let failed = get_context_envvars(Err(EnvError::NotSupportedPlatform));
    assert!(matches!(failed, Err(EnvError::NotSupportedPlatform)));
}
