use minigrep::config::{
    create_terms_struct, extract_terms_properties_from_args, parse_true_or_false_argument,
    validate_args, validate_case_sensitive_character, Args, Terms, INVALID_CASE_SENSITIVE,
    MISSING_FILE, MISSING_QUERY,
};

fn args(query: &str, file: &str, case_sensitive: &str) -> Args {
    Args {
        query: query.to_string(),
        file: file.to_string(),
        case_sensitive: case_sensitive.to_string(),
    }
}

#[test]
fn empty_query_is_reported_first() {
    assert_eq!(Err("missing query argument..."), validate_args(&args("", "", "x")));
    assert_eq!(Err(MISSING_QUERY), validate_args(&args("", "poem.txt", "f")));
    assert!(matches!(Terms::new(&args("", "poem.txt", "f")), Err(e) if e == MISSING_QUERY));
}

#[test]
fn empty_file_is_reported_after_query() {
    assert_eq!(Err("missing file name..."), validate_args(&args("duct", "", "x")));
    assert!(matches!(Terms::new(&args("duct", "", "t")), Err(e) if e == MISSING_FILE));
}

#[test]
fn invalid_token_is_reported() {
    assert_eq!(
        Err("invalid case sensitive argument..."),
        validate_args(&args("duct", "poem.txt", "x"))
    );
    assert!(matches!(
        Terms::new(&args("duct", "poem.txt", "x")),
        Err(e) if e == INVALID_CASE_SENSITIVE
    ));
    assert_eq!(Err(INVALID_CASE_SENSITIVE), validate_args(&args("duct", "poem.txt", "")));
    assert_eq!(Err(INVALID_CASE_SENSITIVE), validate_args(&args("duct", "poem.txt", "true")));
}

#[test]
fn valid_arguments_pass() {
    assert_eq!(Ok(true), validate_args(&args("duct", "poem.txt", "f")));
    assert_eq!(Ok(true), validate_args(&args("duct", "poem.txt", "T")));
}

#[test]
fn token_validity_ignores_casing() {
    assert!(!validate_case_sensitive_character("f".to_string()));
    assert!(!validate_case_sensitive_character("F".to_string()));
    assert!(!validate_case_sensitive_character("t".to_string()));
    assert!(!validate_case_sensitive_character("T".to_string()));
    assert!(validate_case_sensitive_character("x".to_string()));
    assert!(validate_case_sensitive_character("ft".to_string()));
}

#[test]
fn token_mapping() {
    assert!(!parse_true_or_false_argument("f"));
    assert!(!parse_true_or_false_argument("F"));
    assert!(parse_true_or_false_argument("t"));
    assert!(parse_true_or_false_argument("T"));
}

#[test]
fn terms_copy_the_arguments() {
    let terms = Terms::new(&args("Duct", "poem.txt", "F")).unwrap();
    assert_eq!("Duct", terms.query);
    assert_eq!("poem.txt", terms.file);
    assert!(!terms.case_sensitive);

    let built = create_terms_struct(&args("q", "a.txt", "t"));
    assert_eq!(("q".to_string(), "a.txt".to_string(), true), (built.query, built.file, built.case_sensitive));

    assert_eq!(
        ("x".to_string(), "y".to_string(), false),
        extract_terms_properties_from_args(&args("x", "y", "f"))
    );
}
