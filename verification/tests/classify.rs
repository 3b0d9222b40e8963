use pytrace::argument::{resolve_type, Argument, ArgumentKind, Binding};
use pytrace::classify::{
    classify, has_variadic_keyword, has_variadic_positional, is_in_classification_order,
    kind_may_follow, rank_of, slots_announced, HAS_VARIADIC_KEYWORD, HAS_VARIADIC_POSITIONAL,
};

fn bound(name: &str, typ: &str) -> Binding {
    Binding { name: name.to_string(), typ: Some(typ.to_string()) }
}

fn arg(name: &str, typ: &str, kind: ArgumentKind) -> Argument {
    Argument { name: name.to_string(), typ: typ.to_string(), kind }
}

fn kinds(args: &[Argument]) -> Vec<ArgumentKind> {
    args.iter().map(|a| a.kind).collect()
}

#[test]
fn positional_and_variadic_positional_scenario() {
    let snapshot = vec![bound("a", "int"), bound("b", "str"), bound("args", "tuple")];
    let args = classify(&snapshot, 2, 0, true, false);
    assert_eq!(
        args,
        vec![
            arg("a", "int", ArgumentKind::Positional),
            arg("b", "str", ArgumentKind::Positional),
            arg("args", "tuple", ArgumentKind::VariadicPositional),
        ]
    );
}

#[test]
fn positional_only() {
    let snapshot = vec![bound("x", "float"), bound("y", "float")];
    let args = classify(&snapshot, 2, 0, false, false);
    assert_eq!(
        args,
        vec![
            arg("x", "float", ArgumentKind::Positional),
            arg("y", "float", ArgumentKind::Positional),
        ]
    );
}

#[test]
fn positional_and_keyword_only() {
    let snapshot = vec![bound("x", "int"), bound("key", "str"), bound("flag", "bool")];
    let args = classify(&snapshot, 1, 2, false, false);
    assert_eq!(
        args,
        vec![
            arg("x", "int", ArgumentKind::Positional),
            arg("key", "str", ArgumentKind::KeywordOnly),
            arg("flag", "bool", ArgumentKind::KeywordOnly),
        ]
    );
}

#[test]
fn all_four_kinds_come_in_classification_order() {
    // The snapshot is laid out as the host does: positional, keyword-only,
    // then the two collecting slots.
    let snapshot = vec![
        bound("a", "int"),
        bound("b", "str"),
        bound("k1", "bytes"),
        bound("k2", "list"),
        bound("args", "tuple"),
        bound("kwargs", "dict"),
    ];
    let args = classify(&snapshot, 2, 2, true, true);
    assert_eq!(
        args,
        vec![
            arg("a", "int", ArgumentKind::Positional),
            arg("b", "str", ArgumentKind::Positional),
            arg("args", "tuple", ArgumentKind::VariadicPositional),
            arg("k1", "bytes", ArgumentKind::KeywordOnly),
            arg("k2", "list", ArgumentKind::KeywordOnly),
            arg("kwargs", "dict", ArgumentKind::VariadicKeyword),
        ]
    );
    assert_eq!(args.len(), 2 + 2 + 1 + 1);
    assert!(is_in_classification_order(&args));
}

#[test]
fn variadic_keyword_without_variadic_positional_reads_the_slot_after_the_windows() {
    let snapshot = vec![bound("a", "int"), bound("k", "str"), bound("kwargs", "dict")];
    let args = classify(&snapshot, 1, 1, false, true);
    assert_eq!(
        args,
        vec![
            arg("a", "int", ArgumentKind::Positional),
            arg("k", "str", ArgumentKind::KeywordOnly),
            arg("kwargs", "dict", ArgumentKind::VariadicKeyword),
        ]
    );
}

#[test]
fn only_variadic_slots() {
    let snapshot = vec![bound("args", "tuple"), bound("kwargs", "dict")];
    let args = classify(&snapshot, 0, 0, true, true);
    assert_eq!(
        kinds(&args),
        vec![ArgumentKind::VariadicPositional, ArgumentKind::VariadicKeyword]
    );
    assert_eq!(args[0].name, "args");
    assert_eq!(args[1].name, "kwargs");
}

#[test]
fn every_arity_combination_has_the_announced_count_and_order() {
    let snapshot: Vec<Binding> =
        (0..8).map(|i| bound(&format!("v{}", i), "int")).collect();
    for positional in 0u32..4 {
        for keyword_only in 0u32..3 {
            for &variadic_positional in &[false, true] {
                for &variadic_keyword in &[false, true] {
                    let args = classify(
                        &snapshot,
                        positional,
                        keyword_only,
                        variadic_positional,
                        variadic_keyword,
                    );
                    let mut expected = vec![ArgumentKind::Positional; positional as usize];
                    if variadic_positional {
                        expected.push(ArgumentKind::VariadicPositional);
                    }
                    expected.extend(vec![ArgumentKind::KeywordOnly; keyword_only as usize]);
                    if variadic_keyword {
                        expected.push(ArgumentKind::VariadicKeyword);
                    }
                    assert_eq!(kinds(&args), expected);
                    assert!(is_in_classification_order(&args));
                }
            }
        }
    }
}

#[test]
fn locals_beyond_the_announced_entries_are_not_arguments() {
    let snapshot = vec![bound("a", "int"), bound("tmp", "list"), bound("i", "int")];
    let args = classify(&snapshot, 1, 0, false, false);
    assert_eq!(args, vec![arg("a", "int", ArgumentKind::Positional)]);
}

#[test]
fn empty_snapshot_with_no_parameters() {
    let args = classify(&Vec::new(), 0, 0, false, false);
    assert!(args.is_empty());
}

#[test]
fn slots_announced_adds_the_counts_and_the_flags() {
    assert_eq!(slots_announced(0, 0, false, false), 0);
    assert_eq!(slots_announced(2, 0, true, false), 3);
    assert_eq!(slots_announced(0, 0, false, true), 1);
    assert_eq!(slots_announced(2, 3, false, false), 5);
    assert_eq!(slots_announced(2, 3, true, true), 7);
}

#[test]
fn slots_announced_at_the_limit_does_not_overflow() {
    assert_eq!(slots_announced(u32::MAX, u32::MAX, true, true), 2 * (u32::MAX as u64) + 2);
    assert_eq!(slots_announced(u32::MAX, u32::MAX, true, true), 8_589_934_592);
}

#[test]
fn snapshot_of_exactly_the_announced_length_is_classified_whole() {
    let snapshot = vec![bound("a", "int"), bound("k", "str"), bound("args", "tuple")];
    assert_eq!(snapshot.len() as u64, slots_announced(1, 1, true, false));
    let args = classify(&snapshot, 1, 1, true, false);
    assert_eq!(
        args,
        vec![
            arg("a", "int", ArgumentKind::Positional),
            arg("args", "tuple", ArgumentKind::VariadicPositional),
            arg("k", "str", ArgumentKind::KeywordOnly),
        ]
    );
}

#[test]
fn unresolved_binding_is_recorded_as_unknown() {
    let snapshot = vec![
        Binding { name: "a".to_string(), typ: None },
        bound("args", "tuple"),
    ];
    let args = classify(&snapshot, 1, 0, true, false);
    assert_eq!(
        args,
        vec![
            arg("a", "<unknown>", ArgumentKind::Positional),
            arg("args", "tuple", ArgumentKind::VariadicPositional),
        ]
    );
}

#[test]
fn resolve_type_gives_the_name_or_the_sentinel() {
    assert_eq!(resolve_type(&Some("dict".to_string())), "dict");
    assert_eq!(resolve_type(&None), "<unknown>");
}

#[test]
fn argument_from_binding_and_duplicate() {
    let a = Argument::from_binding(&bound("n", "int"), ArgumentKind::KeywordOnly);
    assert_eq!(a, arg("n", "int", ArgumentKind::KeywordOnly));
    assert_eq!(a.duplicate(), a);
}

#[test]
fn flag_bits() {
    assert_eq!(HAS_VARIADIC_POSITIONAL, 0x04);
    assert_eq!(HAS_VARIADIC_KEYWORD, 0x08);
    assert!(!has_variadic_positional(0));
    assert!(has_variadic_positional(0x04));
    assert!(!has_variadic_positional(0x08));
    assert!(has_variadic_keyword(0x08));
    assert!(has_variadic_keyword(0x0c | 0x43));
    assert!(has_variadic_positional(0x0c | 0x43));
    assert!(!has_variadic_keyword(0x04));
    assert!(!has_variadic_keyword(0x43));
}

#[test]
fn ranks_and_what_may_follow() {
    assert_eq!(rank_of(ArgumentKind::Positional), 0);
    assert_eq!(rank_of(ArgumentKind::VariadicPositional), 1);
    assert_eq!(rank_of(ArgumentKind::KeywordOnly), 2);
    assert_eq!(rank_of(ArgumentKind::VariadicKeyword), 3);
    assert!(kind_may_follow(ArgumentKind::Positional, ArgumentKind::Positional));
    assert!(kind_may_follow(ArgumentKind::Positional, ArgumentKind::VariadicKeyword));
    assert!(kind_may_follow(ArgumentKind::KeywordOnly, ArgumentKind::KeywordOnly));
    assert!(!kind_may_follow(ArgumentKind::KeywordOnly, ArgumentKind::Positional));
    assert!(!kind_may_follow(
        ArgumentKind::VariadicPositional,
        ArgumentKind::VariadicPositional
    ));
    assert!(!kind_may_follow(ArgumentKind::VariadicKeyword, ArgumentKind::VariadicKeyword));
    assert!(!kind_may_follow(ArgumentKind::VariadicKeyword, ArgumentKind::KeywordOnly));
}

#[test]
fn order_test_rejects_what_classification_never_yields() {
    assert!(is_in_classification_order(&Vec::new()));
    assert!(is_in_classification_order(&vec![arg("a", "int", ArgumentKind::KeywordOnly)]));
    assert!(!is_in_classification_order(&vec![
        arg("k", "int", ArgumentKind::KeywordOnly),
        arg("a", "int", ArgumentKind::Positional),
    ]));
    assert!(!is_in_classification_order(&vec![
        arg("a", "tuple", ArgumentKind::VariadicPositional),
        arg("b", "tuple", ArgumentKind::VariadicPositional),
    ]));
    assert!(!is_in_classification_order(&vec![
        arg("a", "int", ArgumentKind::Positional),
        arg("kw", "dict", ArgumentKind::VariadicKeyword),
        arg("k", "int", ArgumentKind::KeywordOnly),
    ]));
}
