use anki_classroom::deck_options::{
    default_learning_seconds, default_learning_steps, default_new_per_day,
    default_relearning_seconds, default_relearning_steps, default_review_per_day,
    invalid_step_value, no_steps_message, parse_steps, parse_steps_csv, split_step_word,
    step_not_positive, step_unit_seconds, step_words, steps_to_csv, unknown_step_unit,
};
use anki_classroom::text::{format_i64, join_chars, parse_i64, split_chars};

fn chars(s: &str) -> Vec<char> {
    s.chars().collect()
}

#[test]
fn parses_stored_step_lists() {
    assert_eq!(parse_steps_csv("60,600"), vec![60, 600]);
    assert_eq!(parse_steps_csv(" 60 , , x, 600 ,"), vec![60, 600]);
    assert_eq!(parse_steps_csv(""), Vec::<i64>::new());
    assert_eq!(parse_steps_csv("-5,+7"), vec![-5, 7]);
    assert_eq!(parse_steps_csv("99999999999999999999,1"), vec![1]);
}

#[test]
fn writes_step_lists() {
    assert_eq!(steps_to_csv(&[60, 600]), "60,600");
    assert_eq!(steps_to_csv(&[]), "");
    assert_eq!(steps_to_csv(&[-1, 0, i64::MAX]), "-1,0,9223372036854775807");
}

#[test]
fn step_lists_roundtrip() {
    for steps in [vec![], vec![1], vec![60, 600, 86400], vec![i64::MIN, -3, 0]] {
        assert_eq!(parse_steps_csv(&steps_to_csv(&steps)), steps);
    }
}

#[test]
fn decimal_numbers() {
    assert_eq!(format_i64(0).iter().collect::<String>(), "0");
    assert_eq!(format_i64(-42).iter().collect::<String>(), "-42");
    assert_eq!(format_i64(i64::MIN).iter().collect::<String>(), "-9223372036854775808");
    assert_eq!(parse_i64(&chars("-9223372036854775808")), Some(i64::MIN));
    assert_eq!(parse_i64(&chars("9223372036854775808")), None);
    assert_eq!(parse_i64(&chars("+12")), Some(12));
    assert_eq!(parse_i64(&chars("-")), None);
    assert_eq!(parse_i64(&chars("1 2")), None);
    assert_eq!(parse_i64(&chars("007")), Some(7));
}

#[test]
fn step_text_pieces() {
    assert_eq!(step_words("  1m\t10m  1.5d "), vec!["1m", "10m", "1.5d"]);
    assert_eq!(step_words("   "), Vec::<String>::new());
    assert_eq!(split_step_word("10m"), ("10".to_string(), "m".to_string()));
    assert_eq!(split_step_word("1.5d"), ("1.5".to_string(), "d".to_string()));
    assert_eq!(split_step_word("30"), ("30".to_string(), "".to_string()));
    assert_eq!(split_step_word("x5"), ("".to_string(), "x5".to_string()));
    assert_eq!(step_unit_seconds(""), Some(60));
    assert_eq!(step_unit_seconds("m"), Some(60));
    assert_eq!(step_unit_seconds("s"), Some(1));
    assert_eq!(step_unit_seconds("h"), Some(3600));
    assert_eq!(step_unit_seconds("d"), Some(86400));
    assert_eq!(step_unit_seconds("w"), None);
}

#[test]
fn step_messages() {
    assert_eq!(invalid_step_value("x"), "Invalid step value: 'x'");
    assert_eq!(unknown_step_unit("w"), "Unknown step unit: 'w'");
    assert_eq!(step_not_positive("0m"), "Step must be positive: '0m'");
    assert_eq!(no_steps_message(), "At least one step is required");
}

#[test]
fn preset_defaults() {
    assert_eq!(default_learning_steps(), "1m 10m");
    assert_eq!(default_relearning_steps(), "10m");
    assert_eq!(default_new_per_day(), 20);
    assert_eq!(default_review_per_day(), 200);
    assert_eq!(default_learning_seconds(), vec![60, 600]);
    assert_eq!(default_relearning_seconds(), vec![600]);
    assert_eq!(steps(&default_learning_steps()), Ok(default_learning_seconds()));
    assert_eq!(steps(&default_relearning_steps()), Ok(default_relearning_seconds()));
}

/// Reads and scales each word's number in floating point, as the server does.
fn readings(input: &str) -> Vec<Option<i64>> {
    step_words(input)
        .iter()
        .map(|w| {
            let (num, unit) = split_step_word(w);
            let m = step_unit_seconds(&unit).unwrap_or(0);
            num.parse::<f64>().ok().map(|v| (v * m as f64).round() as i64)
        })
        .collect()
}

fn steps(input: &str) -> Result<Vec<i64>, String> {
    parse_steps(input, &readings(input))
}

#[test]
fn parses_step_lists_with_units() {
    assert_eq!(steps("1m 1d"), Ok(vec![60, 86400]));
    assert_eq!(steps("1m 10m"), Ok(vec![60, 600]));
    assert_eq!(steps("30s 2h 10"), Ok(vec![30, 7200, 600]));
    assert_eq!(steps("1.5d"), Ok(vec![129600]));
    assert_eq!(steps("0.5s"), Ok(vec![1]));
}

#[test]
fn refuses_bad_step_lists() {
    assert_eq!(steps(""), Err("At least one step is required".to_string()));
    assert_eq!(steps("   "), Err("At least one step is required".to_string()));
    assert_eq!(steps("1m x"), Err("Invalid step value: 'x'".to_string()));
    assert_eq!(steps("1.2.3m"), Err("Invalid step value: '1.2.3m'".to_string()));
    assert_eq!(steps("5w"), Err("Unknown step unit: 'w'".to_string()));
    assert_eq!(steps("0m"), Err("Step must be positive: '0m'".to_string()));
    assert_eq!(steps("0.1s"), Err("Step must be positive: '0.1s'".to_string()));
    assert_eq!(steps("x 5w"), Err("Invalid step value: 'x'".to_string()));
}

#[test]
fn first_bad_step_decides() {
    assert_eq!(parse_steps("1m 2m", &[Some(60), None]), Err("Invalid step value: '2m'".to_string()));
    assert_eq!(parse_steps("1m 2m", &[Some(0), None]), Err("Step must be positive: '1m'".to_string()));
    assert_eq!(parse_steps("1m 2m", &[Some(60), Some(120)]), Ok(vec![60, 120]));
}

#[test]
fn splitting_a_join_gives_the_pieces_back() {
    let pieces: Vec<Vec<char>> = vec![chars("60"), chars(""), chars("a b")];
    let joined = join_chars(&pieces, &chars(","));
    assert_eq!(joined.iter().collect::<String>(), "60,,a b");
    assert_eq!(split_chars(&joined, ','), pieces);
}

#[test]
fn parsed_steps_are_positive_one_per_word() {
    let input = "1s 2m 0.5h 1.25d";
    let v = steps(input).unwrap();
    assert_eq!(v.len(), step_words(input).len());
    assert!(v.iter().all(|s| *s > 0));
    assert_eq!(v, vec![1, 120, 1800, 108000]);
}
