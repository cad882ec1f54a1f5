use pocket_cli::output::{Output, OutputError, OutputFormat, ParseOutputFormatError};

#[test]
fn format_names_parse() {
    assert_eq!(OutputFormat::parse("json"), Ok(OutputFormat::Json));
    assert_eq!(OutputFormat::parse("yaml"), Ok(OutputFormat::Yaml));
    assert_eq!(OutputFormat::parse("yml"), Ok(OutputFormat::Yaml));
    assert_eq!(OutputFormat::parse("toml"), Ok(OutputFormat::Toml));
    assert_eq!(OutputFormat::parse("text"), Ok(OutputFormat::Text));
}

#[test]
fn format_from_str_matches_parse() {
    let f: OutputFormat = "yml".parse().unwrap();
    assert_eq!(f, OutputFormat::Yaml);
}

#[test]
fn unknown_format_is_refused_with_message() {
    let e = OutputFormat::parse("xml").unwrap_err();
    assert_eq!(e, ParseOutputFormatError { input: "xml".to_string() });
    assert_eq!(e.message(), "provided invalid output format: xml");
    assert!(OutputFormat::parse("JSON").is_err());
    assert!(OutputFormat::parse("").is_err());
}

#[test]
fn format_names_round_trip() {
    for f in [OutputFormat::Json, OutputFormat::Yaml, OutputFormat::Toml, OutputFormat::Text] {
        assert_eq!(OutputFormat::parse(f.name()), Ok(f));
    }
    assert_eq!(OutputFormat::Yaml.name(), "yaml");
}

#[test]
fn default_format_is_json() {
    assert_eq!(OutputFormat::default(), OutputFormat::Json);
}

#[test]
fn write_appends_encoded_text() {
    let mut out = Output::new(OutputFormat::Json, Vec::new());
    assert_eq!(out.write(Ok("[]".to_string())), Ok(()));
    assert_eq!(out.write(Ok("é".to_string())), Ok(()));
    assert_eq!(out.format(), OutputFormat::Json);
    assert_eq!(out.into_vec(), vec![b'[', b']', 0xc3, 0xa9]);
}

#[test]
fn write_keeps_existing_bytes() {
    let mut out = Output::new(OutputFormat::Toml, b"a".to_vec());
    out.write(Ok("b".to_string())).unwrap();
    assert_eq!(out.into_vec(), b"ab".to_vec());
}

#[test]
fn failed_encoding_writes_nothing() {
    let mut out = Output::new(OutputFormat::Yaml, Vec::new());
    assert_eq!(out.write(Err(OutputError {})), Err(OutputError {}));
    assert!(out.into_vec().is_empty());
    assert_eq!(OutputError {}.message(), "unexpected output error");
}

#[test]
fn text_value_in_json_is_a_string_literal() {
    let mut out = Output::new(OutputFormat::Json, Vec::new());
    assert_eq!(out.write_text("a\"b"), Ok(()));
    assert_eq!(String::from_utf8(out.into_vec()).unwrap(), "\"a\\\"b\"");
}

#[test]
fn text_value_in_yaml_is_a_document() {
    let mut out = Output::new(OutputFormat::Yaml, Vec::new());
    assert_eq!(out.write_text("abc123"), Ok(()));
    assert_eq!(String::from_utf8(out.into_vec()).unwrap(), "abc123\n");
}

#[test]
fn text_value_in_toml_is_refused() {
    let mut out = Output::new(OutputFormat::Toml, b"x".to_vec());
    assert_eq!(out.write_text("abc123"), Err(OutputError {}));
    assert_eq!(out.into_vec(), b"x".to_vec());
}

#[test]
fn text_value_in_text_is_debug_rendering() {
    let mut out = Output::new(OutputFormat::Text, Vec::new());
    assert_eq!(out.write_text("Success"), Ok(()));
    assert_eq!(String::from_utf8(out.into_vec()).unwrap(), "\"Success\"");
}
