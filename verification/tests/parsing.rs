use dsa5_analyzer::character::{ApCalculator, ApValueParseResult};
use dsa5_analyzer::fields::char_is_white_space;
use dsa5_analyzer::lexical::text_le;
use dsa5_analyzer::text::{int_to_string, nat_to_string, parse_int};

fn parsed(text: &str) -> Option<Vec<i32>> {
    match ApCalculator::parse_ap_value(text) {
        ApValueParseResult::SingleValue(value) => Some(vec![value]),
        ApValueParseResult::MultipleValues(values) => Some(values),
        ApValueParseResult::ParseError => None,
    }
}

#[test]
fn single_value_is_parsed() {
    assert!(matches!(
        ApCalculator::parse_ap_value("12"),
        ApValueParseResult::SingleValue(12)
    ));
    assert!(matches!(
        ApCalculator::parse_ap_value("-5"),
        ApValueParseResult::SingleValue(-5)
    ));
    assert!(matches!(
        ApCalculator::parse_ap_value("+5"),
        ApValueParseResult::SingleValue(5)
    ));
    assert!(matches!(
        ApCalculator::parse_ap_value("007"),
        ApValueParseResult::SingleValue(7)
    ));
}

#[test]
fn several_values_are_parsed() {
    match ApCalculator::parse_ap_value("3;5;8") {
        ApValueParseResult::MultipleValues(values) => assert_eq!(values, vec![3, 5, 8]),
        other => panic!("{:?}", other),
    }
    match ApCalculator::parse_ap_value(" 3 ; -5;\t8\u{a0}") {
        ApValueParseResult::MultipleValues(values) => assert_eq!(values, vec![3, -5, 8]),
        other => panic!("{:?}", other),
    }
}

#[test]
fn text_without_number_is_a_parse_error() {
    assert!(matches!(
        ApCalculator::parse_ap_value("abc"),
        ApValueParseResult::ParseError
    ));
    for text in ["", " ", " 12", "12 ", "1.5", "1e3", "--1", "+", "-", "1_0", "\u{664}"] {
        assert!(
            matches!(ApCalculator::parse_ap_value(text), ApValueParseResult::ParseError),
            "{:?}",
            text
        );
    }
}

#[test]
fn a_list_with_one_bad_part_is_a_parse_error() {
    for text in [";", "3;", ";3", "3;;5", "3;x;5", "3;5;", "3; 5 5", "3;2147483648"] {
        assert!(
            matches!(ApCalculator::parse_ap_value(text), ApValueParseResult::ParseError),
            "{:?}",
            text
        );
    }
}

#[test]
fn parsing_agrees_with_the_standard_library() {
    let samples = [
        "0", "-0", "+0", "1", "12", "0012", "2147483647", "2147483648", "-2147483648",
        "-2147483649", "99999999999999999999", "-99999999999999999999", "", "+", "-", "1a", "a1",
        " 1", "1 ", "1;2", "1 ; 2", ";", ";;", "1;", "+1;-2;+3", "1;\n2", "\u{2003}4;5\u{3000}",
        "4;\u{200b}5", "１２",
    ];
    for text in samples {
        let expected = if text.contains(';') {
            text.split(';')
                .map(|part| part.trim().parse::<i32>())
                .collect::<Result<Vec<i32>, _>>()
                .ok()
        } else {
            text.parse::<i32>().ok().map(|value| vec![value])
        };
        assert_eq!(parsed(text), expected, "{:?}", text);
    }
}

#[test]
fn integers_are_parsed_as_the_standard_library_parses_them() {
    for text in [
        "0", "7", "-7", "+7", "2147483647", "-2147483648", "2147483648", "-2147483649", "", " ",
        "+", "-", "+-1", "1+", "0x10", "00000000000000000000000001", "1\u{0}",
    ] {
        assert_eq!(parse_int(text), text.parse::<i32>().ok(), "{:?}", text);
    }
}

#[test]
fn integers_are_written_in_decimal() {
    for value in [0_i64, 1, -1, 9, 10, 11, 99, 100, 12345, -12345, i64::MAX, i64::MIN] {
        assert_eq!(int_to_string(value), value.to_string());
    }
    for value in [0_u64, 5, 10, 18446744073709551615] {
        assert_eq!(nat_to_string(value), value.to_string());
    }
}

#[test]
fn written_integers_parse_back() {
    for value in [0, 1, -1, 42, -42, 1000, i32::MAX, i32::MIN] {
        assert_eq!(parse_int(&int_to_string(value as i64)), Some(value));
    }
}

#[test]
fn white_space_is_what_the_standard_library_takes_for_it() {
    for code in 0..=0x10ffff_u32 {
        if let Some(c) = char::from_u32(code) {
            assert_eq!(char_is_white_space(c), c.is_whitespace(), "{:?}", c);
        }
    }
}

#[test]
fn base_name_ends_before_the_parenthesis() {
    assert_eq!(
        ApCalculator::extract_base_name("Prinzipientreue (Hesindekirche)"),
        "Prinzipientreue"
    );
    assert_eq!(ApCalculator::extract_base_name("Foo (Bar)"), "Foo");
    assert_eq!(ApCalculator::extract_base_name("Foo(Bar)"), "Foo");
    assert_eq!(ApCalculator::extract_base_name("  Foo \u{a0}(Bar) (Baz)"), "Foo");
    assert_eq!(ApCalculator::extract_base_name("(Bar)"), "");
    assert_eq!(ApCalculator::extract_base_name("K\u{f6}rper (x)"), "K\u{f6}rper");
}

#[test]
fn base_name_without_parenthesis_is_the_name() {
    assert_eq!(ApCalculator::extract_base_name("Foo"), "Foo");
    assert_eq!(ApCalculator::extract_base_name(" Foo "), " Foo ");
    assert_eq!(ApCalculator::extract_base_name(""), "");
    assert_eq!(ApCalculator::extract_base_name("Foo)"), "Foo)");
}

#[test]
fn single_value_cost_is_value_times_step() {
    assert_eq!(ApCalculator::calculate_single_value_cost(12, 1), 12);
    assert_eq!(ApCalculator::calculate_single_value_cost(5, 3), 15);
    assert_eq!(ApCalculator::calculate_single_value_cost(-10, 2), -20);
    assert_eq!(ApCalculator::calculate_single_value_cost(7, 0), 0);
}

#[test]
fn multiple_values_cost_sums_the_first_steps() {
    assert_eq!(ApCalculator::calculate_multiple_values_cost(&[3, 5, 8], 1), Ok(3));
    assert_eq!(ApCalculator::calculate_multiple_values_cost(&[3, 5, 8], 2), Ok(8));
    assert_eq!(ApCalculator::calculate_multiple_values_cost(&[3, 5, 8], 3), Ok(16));
    assert_eq!(ApCalculator::calculate_multiple_values_cost(&[3, -5, 8], 2), Ok(-2));
}

#[test]
fn multiple_values_cost_refuses_a_step_beyond_the_list() {
    assert_eq!(
        ApCalculator::calculate_multiple_values_cost(&[3, 5, 8], 4),
        Err("Step 4 exceeds available values (3)".to_string())
    );
    assert_eq!(
        ApCalculator::calculate_multiple_values_cost(&[], 1),
        Err("Step 1 exceeds available values (0)".to_string())
    );
}

#[test]
fn multiple_values_cost_refuses_a_step_below_one() {
    assert_eq!(
        ApCalculator::calculate_multiple_values_cost(&[3, 5, 8], 0),
        Err("Step must be at least 1".to_string())
    );
    assert_eq!(
        ApCalculator::calculate_multiple_values_cost(&[3, 5, 8], -2),
        Err("Step must be at least 1".to_string())
    );
    assert_eq!(
        ApCalculator::calculate_multiple_values_cost(&[], 0),
        Err("Step must be at least 1".to_string())
    );
}

#[test]
fn cost_at_step_follows_the_kind_of_value() {
    assert_eq!(ApCalculator::cost_at_step(&ApValueParseResult::SingleValue(12), 3), 36);
    assert_eq!(
        ApCalculator::cost_at_step(&ApValueParseResult::MultipleValues(vec![3, 5, 8]), 2),
        8
    );
    assert_eq!(
        ApCalculator::cost_at_step(&ApValueParseResult::MultipleValues(vec![3, 5, 8]), 4),
        0
    );
    assert_eq!(ApCalculator::cost_at_step(&ApValueParseResult::ParseError, 2), 0);
}

#[test]
fn checked_cost_at_step_reports_what_does_not_fit() {
    assert_eq!(
        ApCalculator::checked_cost_at_step(&ApValueParseResult::SingleValue(2_000_000_000), 2),
        None
    );
    assert_eq!(
        ApCalculator::checked_cost_at_step(&ApValueParseResult::SingleValue(i32::MIN), 1),
        Some(i32::MIN)
    );
    assert_eq!(
        ApCalculator::checked_cost_at_step(&ApValueParseResult::SingleValue(i32::MIN), -1),
        None
    );
    assert_eq!(
        ApCalculator::checked_cost_at_step(
            &ApValueParseResult::MultipleValues(vec![i32::MAX, 1, -1]),
            2
        ),
        None
    );
    assert_eq!(
        ApCalculator::checked_cost_at_step(
            &ApValueParseResult::MultipleValues(vec![i32::MAX, 1, -1]),
            3
        ),
        Some(i32::MAX)
    );
}

#[test]
fn calculation_is_explained() {
    assert_eq!(
        ApCalculator::explain_calculation(&ApValueParseResult::SingleValue(12), 1),
        "12"
    );
    assert_eq!(
        ApCalculator::explain_calculation(&ApValueParseResult::SingleValue(12), 3),
        "12 \u{d7} 3"
    );
    assert_eq!(
        ApCalculator::explain_calculation(&ApValueParseResult::SingleValue(-4), -2),
        "-4 \u{d7} -2"
    );
    let values = ApValueParseResult::MultipleValues(vec![3, 5, 8]);
    assert_eq!(ApCalculator::explain_calculation(&values, 1), "3");
    assert_eq!(ApCalculator::explain_calculation(&values, 2), "Sum: 3 + 5");
    assert_eq!(ApCalculator::explain_calculation(&values, 3), "Sum: 3 + 5 + 8");
    assert_eq!(
        ApCalculator::explain_calculation(&values, 4),
        "ERROR: Step 4 exceeds available values (3)"
    );
    assert_eq!(
        ApCalculator::explain_calculation(&values, 0),
        "ERROR: Step must be at least 1"
    );
    assert_eq!(
        ApCalculator::explain_calculation(&ApValueParseResult::ParseError, 1),
        "Parse error"
    );
}

#[test]
fn texts_are_ordered_as_the_standard_library_orders_them() {
    let samples = [
        "", "a", "A", "ab", "abc", "b", "B", "Zauber", "zauber", "\u{c4}rger", "Arger", "a\u{0}",
        "\u{10ffff}", "\u{ffff}", "K\u{f6}rperkraft", "Koerperkraft", " ", "1", "10", "2",
    ];
    for a in samples {
        for b in samples {
            assert_eq!(text_le(a, b), a <= b, "{:?} {:?}", a, b);
        }
    }
}
