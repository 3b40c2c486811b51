use univm::expr::{Expr, Rhs};
use univm::ident::ParseZkvmIdentError;
use univm::rewrite::{RewriteError, transform_expr};

fn atom(name: &str) -> Expr {
    Expr::Atom(name.to_string())
}

fn assign(key: &str, value: &str) -> Expr {
    Expr::Assign {
        key: key.to_string(),
        rhs: Rhs::Str(value.to_string()),
    }
}

fn call(name: &str, args: Vec<Expr>) -> Expr {
    Expr::Call {
        name: name.to_string(),
        args,
    }
}

fn risc0_pred() -> Expr {
    call(
        "all",
        vec![
            assign("target_os", "zkvm"),
            assign("target_vendor", "risc0"),
            call("not", vec![atom("zkvm_pico")]),
        ],
    )
}

fn sp1_pred() -> Expr {
    call(
        "all",
        vec![assign("target_os", "zkvm"), assign("target_vendor", "succinct")],
    )
}

fn pico_pred() -> Expr {
    call(
        "all",
        vec![
            assign("target_os", "zkvm"),
            assign("target_vendor", "risc0"),
            atom("zkvm_pico"),
        ],
    )
}

fn ziren_pred() -> Expr {
    call(
        "all",
        vec![assign("target_os", "zkvm"), assign("target_vendor", "zkm")],
    )
}

fn zisk_pred() -> Expr {
    call(
        "all",
        vec![assign("target_os", "zkvm"), assign("target_vendor", "zisk")],
    )
}

#[test]
fn shorthand_syntax_is_correctly_transformed() {
    assert_eq!(transform_expr(atom("risc0")).unwrap(), risc0_pred());
    assert_eq!(transform_expr(atom("sp1")).unwrap(), sp1_pred());
    assert_eq!(transform_expr(atom("pico")).unwrap(), pico_pred());
    assert_eq!(transform_expr(atom("ziren")).unwrap(), ziren_pred());
    assert_eq!(transform_expr(atom("zisk")).unwrap(), zisk_pred());
}

#[test]
fn full_form_syntax_is_correctly_transformed() {
    assert_eq!(transform_expr(assign("zkvm", "risc0")).unwrap(), risc0_pred());
    assert_eq!(transform_expr(assign("zkvm", "sp1")).unwrap(), sp1_pred());
    assert_eq!(transform_expr(assign("zkvm", "pico")).unwrap(), pico_pred());
    assert_eq!(transform_expr(assign("zkvm", "ziren")).unwrap(), ziren_pred());
    assert_eq!(transform_expr(assign("zkvm", "zisk")).unwrap(), zisk_pred());
}

#[test]
fn parameters_in_function_calls_are_correctly_transformed() {
    assert_eq!(
        transform_expr(call("any", vec![assign("zkvm", "risc0"), assign("zkvm", "pico")]))
            .unwrap(),
        call("any", vec![risc0_pred(), pico_pred()])
    );
    assert_eq!(
        transform_expr(call("any", vec![atom("sp1"), atom("ziren")])).unwrap(),
        call("any", vec![sp1_pred(), ziren_pred()])
    );
    assert_eq!(
        transform_expr(call(
            "all",
            vec![
                assign("feature", "dummy-feature"),
                call("any", vec![atom("zisk"), atom("ziren")]),
            ],
        ))
        .unwrap(),
        call(
            "all",
            vec![
                assign("feature", "dummy-feature"),
                call("any", vec![zisk_pred(), ziren_pred()]),
            ],
        )
    );
}

#[test]
fn any_with_mixed_syntax_is_correctly_transformed() {
    assert_eq!(
        transform_expr(call("any", vec![atom("risc0"), assign("zkvm", "sp1")])).unwrap(),
        call("any", vec![risc0_pred(), sp1_pred()])
    );
    assert_eq!(
        transform_expr(call("any", vec![assign("zkvm", "pico"), atom("zisk")])).unwrap(),
        call("any", vec![pico_pred(), zisk_pred()])
    );
}

#[test]
fn all_with_feature_flags_is_correctly_transformed() {
    assert_eq!(
        transform_expr(call("all", vec![atom("risc0"), assign("feature", "std")])).unwrap(),
        call("all", vec![risc0_pred(), assign("feature", "std")])
    );
    assert_eq!(
        transform_expr(call(
            "all",
            vec![assign("zkvm", "sp1"), assign("feature", "experimental")],
        ))
        .unwrap(),
        call("all", vec![sp1_pred(), assign("feature", "experimental")])
    );
}

#[test]
fn not_is_correctly_transformed() {
    assert_eq!(
        transform_expr(call("not", vec![atom("risc0")])).unwrap(),
        call("not", vec![risc0_pred()])
    );
    assert_eq!(
        transform_expr(call("not", vec![assign("zkvm", "pico")])).unwrap(),
        call("not", vec![pico_pred()])
    );
}

#[test]
fn nested_function_calls_are_correctly_transformed() {
    // any inside all
    assert_eq!(
        transform_expr(call(
            "all",
            vec![
                assign("feature", "std"),
                call("any", vec![atom("risc0"), atom("sp1")]),
            ],
        ))
        .unwrap(),
        call(
            "all",
            vec![
                assign("feature", "std"),
                call("any", vec![risc0_pred(), sp1_pred()]),
            ],
        )
    );
    // all inside any
    assert_eq!(
        transform_expr(call(
            "any",
            vec![
                call("all", vec![atom("risc0"), assign("feature", "foo")]),
                call("all", vec![atom("sp1"), assign("feature", "bar")]),
            ],
        ))
        .unwrap(),
        call(
            "any",
            vec![
                call("all", vec![risc0_pred(), assign("feature", "foo")]),
                call("all", vec![sp1_pred(), assign("feature", "bar")]),
            ],
        )
    );
}

#[test]
fn deeply_nested_calls_are_correctly_transformed() {
    assert_eq!(
        transform_expr(call(
            "all",
            vec![
                call("not", vec![atom("zisk")]),
                call("any", vec![assign("zkvm", "risc0"), assign("zkvm", "ziren")]),
            ],
        ))
        .unwrap(),
        call(
            "all",
            vec![
                call("not", vec![zisk_pred()]),
                call("any", vec![risc0_pred(), ziren_pred()]),
            ],
        )
    );
}

#[test]
fn any_with_all_zkvm_variants_is_correctly_transformed() {
    assert_eq!(
        transform_expr(call(
            "any",
            vec![
                atom("risc0"),
                atom("sp1"),
                atom("pico"),
                atom("ziren"),
                atom("zisk"),
            ],
        ))
        .unwrap(),
        call(
            "any",
            vec![risc0_pred(), sp1_pred(), pico_pred(), ziren_pred(), zisk_pred()],
        )
    );
}

#[test]
fn complex_nested_expression_is_correctly_transformed() {
    assert_eq!(
        transform_expr(call(
            "all",
            vec![
                assign("feature", "default"),
                call(
                    "any",
                    vec![
                        call(
                            "all",
                            vec![atom("risc0"), call("not", vec![assign("feature", "no-risc0")])],
                        ),
                        call(
                            "all",
                            vec![assign("zkvm", "sp1"), assign("feature", "sp1-extras")],
                        ),
                    ],
                ),
            ],
        ))
        .unwrap(),
        call(
            "all",
            vec![
                assign("feature", "default"),
                call(
                    "any",
                    vec![
                        call(
                            "all",
                            vec![risc0_pred(), call("not", vec![assign("feature", "no-risc0")])],
                        ),
                        call("all", vec![sp1_pred(), assign("feature", "sp1-extras")]),
                    ],
                ),
            ],
        )
    );
}

#[test]
fn not_any_combination_is_correctly_transformed() {
    assert_eq!(
        transform_expr(call(
            "not",
            vec![call("any", vec![atom("ziren"), atom("zisk")])],
        ))
        .unwrap(),
        call("not", vec![call("any", vec![ziren_pred(), zisk_pred()])])
    );
}

#[test]
fn unknown_atoms_pass_through_unchanged() {
    assert_eq!(transform_expr(atom("unknown_flag")).unwrap(), atom("unknown_flag"));
    assert_eq!(transform_expr(atom("RISC0")).unwrap(), atom("RISC0"));
    assert_eq!(
        transform_expr(call("all", vec![atom("fuzz"), atom("risc0")])).unwrap(),
        call("all", vec![atom("fuzz"), risc0_pred()])
    );
}

#[test]
fn empty_and_padded_atoms_pass_through_unchanged() {
    assert_eq!(transform_expr(atom("")).unwrap(), atom(""));
    assert_eq!(transform_expr(atom(" risc0")).unwrap(), atom(" risc0"));
}

#[test]
fn non_discriminator_assignments_pass_through_unchanged() {
    assert_eq!(
        transform_expr(assign("feature", "risc0")).unwrap(),
        assign("feature", "risc0")
    );
    let odd = Expr::Assign {
        key: "feature".to_string(),
        rhs: Rhs::Other("3".to_string()),
    };
    assert_eq!(transform_expr(odd.clone()).unwrap(), odd);
}

#[test]
fn discriminator_with_unknown_value_fails_with_suggestion() {
    assert_eq!(
        transform_expr(assign("zkvm", "RISC0")),
        Err(RewriteError::UnknownZkvm(ParseZkvmIdentError::suggestion(
            "RISC0".to_string(),
            "risc0".to_string()
        )))
    );
    assert_eq!(
        transform_expr(assign("zkvm", "r0")),
        Err(RewriteError::UnknownZkvm(ParseZkvmIdentError::suggestion(
            "r0".to_string(),
            "risc0".to_string()
        )))
    );
    assert_eq!(
        transform_expr(assign("zkvm", "brevis-pico")),
        Err(RewriteError::UnknownZkvm(ParseZkvmIdentError::suggestion(
            "brevis-pico".to_string(),
            "pico".to_string()
        )))
    );
    assert_eq!(
        transform_expr(assign("zkvm", "zkm")),
        Err(RewriteError::UnknownZkvm(ParseZkvmIdentError::suggestion(
            "zkm".to_string(),
            "ziren".to_string()
        )))
    );
    assert_eq!(
        transform_expr(assign("zkvm", "dummy")),
        Err(RewriteError::UnknownZkvm(ParseZkvmIdentError::unknown(
            "dummy".to_string()
        )))
    );
}

#[test]
fn malformed_shapes_are_hard_errors() {
    let bad_rhs = Expr::Assign {
        key: "zkvm".to_string(),
        rhs: Rhs::Other("3".to_string()),
    };
    assert_eq!(
        transform_expr(bad_rhs),
        Err(RewriteError::OnlyStringLiteralSupported)
    );
    assert_eq!(
        transform_expr(Expr::AssignOther),
        Err(RewriteError::OnlyIdentifierSupported)
    );
    assert_eq!(
        transform_expr(Expr::Other),
        Err(RewriteError::NotSupportedExpression)
    );
}

#[test]
fn rewrite_error_messages_match_diagnostics() {
    let err = transform_expr(assign("zkvm", "dummy")).unwrap_err();
    assert_eq!(
        err.message(),
        "unknown zkvm \"dummy\" - valid options are `risc0`, `sp1`, `pico`, `ziren` and `zisk`."
    );
    assert_eq!(
        RewriteError::OnlyIdentifierSupported.message(),
        "Only identifier supported in this place"
    );
    assert_eq!(
        RewriteError::OnlyStringLiteralSupported.message(),
        "Only string literal supported in this place"
    );
    assert_eq!(
        RewriteError::NotSupportedExpression.message(),
        "Not supported expression"
    );
}

#[test]
fn a_failing_argument_fails_the_whole_call_with_the_first_error() {
    let input = call(
        "any",
        vec![atom("fine"), assign("zkvm", "bad1"), assign("zkvm", "bad2")],
    );
    assert_eq!(
        transform_expr(input.clone()),
        Err(RewriteError::UnknownZkvm(ParseZkvmIdentError::unknown(
            "bad1".to_string()
        )))
    );
}

#[test]
fn expressions_without_backend_references_are_left_alone() {
    let input = call(
        "all",
        vec![
            atom("foo"),
            assign("feature", "x"),
            call("not", vec![atom("bar")]),
        ],
    );
    assert_eq!(transform_expr(input.clone()).unwrap(), input);
}

#[test]
fn rewriting_a_rewritten_expression_changes_nothing() {
    let input = call(
        "any",
        vec![
            call("all", vec![atom("risc0"), assign("feature", "foo")]),
            assign("zkvm", "zisk"),
            atom("RISC0"),
        ],
    );
    let once = transform_expr(input).unwrap();
    let twice = transform_expr(once.clone()).unwrap();
    assert_eq!(once, twice);
}
