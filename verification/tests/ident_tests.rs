use std::str::FromStr;

use univm::ident::{ParseZkvmIdentError, ZkvmIdent, format_suggestion};

#[test]
fn correct_zkvm_identifiers_must_be_parsed() {
    assert_eq!(ZkvmIdent::from_str("risc0"), Ok(ZkvmIdent::Risc0));
    assert_eq!(ZkvmIdent::from_str("sp1"), Ok(ZkvmIdent::Sp1));
    assert_eq!(ZkvmIdent::from_str("pico"), Ok(ZkvmIdent::Pico));
    assert_eq!(ZkvmIdent::from_str("ziren"), Ok(ZkvmIdent::Ziren));
    assert_eq!(ZkvmIdent::from_str("zisk"), Ok(ZkvmIdent::Zisk));
}

#[test]
fn incorrect_zkvm_identifiers_must_be_rejected() {
    let incorrect_identifiers: [&str; 21] = [
        "risc",
        "SP1",
        "risczero",
        "R0",
        "r0",
        "succinct",
        "picovm",
        "zkpico",
        "zkvm-pico",
        "pico-zkvm",
        "pico ",
        "brevis",
        "brevis-pico",
        " pico ",
        "ziren ",
        "Ziren",
        "zkm",
        "zkm-zkvm",
        "Zisk",
        "zIsk",
        "zisK",
    ];

    for id in incorrect_identifiers {
        assert!(
            ZkvmIdent::from_str(id).is_err(),
            r#"zkvm identifier "{id}" must be incorrect"#
        )
    }
}

#[test]
fn case_variants_earn_a_suggestion() {
    assert_eq!(
        ZkvmIdent::from_str("RISC0"),
        Err(ParseZkvmIdentError::suggestion(
            "RISC0".to_string(),
            "risc0".to_string()
        ))
    );
    assert_eq!(
        ZkvmIdent::from_str("zIsk"),
        Err(ParseZkvmIdentError::suggestion(
            "zIsk".to_string(),
            "zisk".to_string()
        ))
    );
    assert_eq!(
        ZkvmIdent::from_str(" pico "),
        Err(ParseZkvmIdentError::suggestion(
            " pico ".to_string(),
            "pico".to_string()
        ))
    );
}

#[test]
fn aliases_earn_a_suggestion() {
    assert_eq!(
        ZkvmIdent::from_str("r0"),
        Err(ParseZkvmIdentError::suggestion(
            "r0".to_string(),
            "risc0".to_string()
        ))
    );
    assert_eq!(
        ZkvmIdent::from_str("succinct"),
        Err(ParseZkvmIdentError::suggestion(
            "succinct".to_string(),
            "sp1".to_string()
        ))
    );
    assert_eq!(
        ZkvmIdent::from_str("brevis-pico"),
        Err(ParseZkvmIdentError::suggestion(
            "brevis-pico".to_string(),
            "pico".to_string()
        ))
    );
    assert_eq!(
        ZkvmIdent::from_str("zkm"),
        Err(ParseZkvmIdentError::suggestion(
            "zkm".to_string(),
            "ziren".to_string()
        ))
    );
}

#[test]
fn unknown_identifiers_get_no_suggestion() {
    assert_eq!(
        ZkvmIdent::from_str("dummy"),
        Err(ParseZkvmIdentError::unknown("dummy".to_string()))
    );
    assert_eq!(
        ZkvmIdent::from_str("risczero"),
        Err(ParseZkvmIdentError::unknown("risczero".to_string()))
    );
}

#[test]
fn resolve_canonical_is_exact_match_only() {
    assert_eq!(
        ZkvmIdent::resolve_canonical("risc0"),
        Some(ZkvmIdent::Risc0)
    );
    assert_eq!(ZkvmIdent::resolve_canonical("RISC0"), None);
    assert_eq!(ZkvmIdent::resolve_canonical(" pico"), None);
    assert_eq!(ZkvmIdent::resolve_canonical("pico "), None);
    assert_eq!(ZkvmIdent::resolve_canonical(""), None);
}

#[test]
fn canonical_names_round_trip() {
    for id in [
        ZkvmIdent::Risc0,
        ZkvmIdent::Sp1,
        ZkvmIdent::Pico,
        ZkvmIdent::Ziren,
        ZkvmIdent::Zisk,
    ] {
        assert_eq!(ZkvmIdent::resolve_canonical(id.canonical_name()), Some(id));
    }
}

#[test]
fn whitespace_variants_are_trimmed_for_suggestions() {
    assert_eq!(
        ZkvmIdent::from_str("\tpico\n"),
        Err(ParseZkvmIdentError::suggestion(
            "\tpico\n".to_string(),
            "pico".to_string()
        ))
    );
    assert_eq!(
        ZkvmIdent::from_str("\r ZIREN \r"),
        Err(ParseZkvmIdentError::suggestion(
            "\r ZIREN \r".to_string(),
            "ziren".to_string()
        ))
    );
}

#[test]
fn the_empty_token_is_unknown_without_suggestion() {
    assert_eq!(
        ZkvmIdent::from_str(""),
        Err(ParseZkvmIdentError::unknown(String::new()))
    );
    assert_eq!(
        ZkvmIdent::from_str("   "),
        Err(ParseZkvmIdentError::unknown("   ".to_string()))
    );
}

#[test]
fn suggestion_formatting_matches_diagnostics() {
    assert_eq!(
        format_suggestion(&Some("risc0".to_string())),
        " - maybe you wanted to use `risc0`?"
    );
    assert_eq!(
        format_suggestion(&None),
        " - valid options are `risc0`, `sp1`, `pico`, `ziren` and `zisk`."
    );
}

#[test]
fn parse_error_message_renders_the_full_diagnostic() {
    let with_suggestion = ParseZkvmIdentError::suggestion("RISC0".to_string(), "risc0".to_string());
    assert_eq!(
        with_suggestion.message(),
        "unknown zkvm \"RISC0\" - maybe you wanted to use `risc0`?"
    );
    let without = ParseZkvmIdentError::unknown("dummy".to_string());
    assert_eq!(
        without.message(),
        "unknown zkvm \"dummy\" - valid options are `risc0`, `sp1`, `pico`, `ziren` and `zisk`."
    );
}
