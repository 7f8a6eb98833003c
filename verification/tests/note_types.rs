use anki_classroom::note_types::{
    field_names_json, parse_field_names, render_card, render_card_or_unknown, render_cards, render_template, validate_fields,
    NoteFields, Template,
};

fn fields(pairs: &[(&str, Option<&str>)]) -> NoteFields {
    let mut f = NoteFields::new();
    for (k, v) in pairs {
        f.insert(k.to_string(), v.map(|s| s.to_string()));
    }
    f
}

fn basic_templates() -> Vec<Template> {
    vec![
        Template {
            index: 0,
            name: "Card 1".to_string(),
            front_pattern: "{{Front}}".to_string(),
            back_pattern: "{{Front}} -> {{Back}}".to_string(),
        },
        Template {
            index: 1,
            name: "Card 2".to_string(),
            front_pattern: "{{Back}}".to_string(),
            back_pattern: "{{Front}}".to_string(),
        },
    ]
}

#[test]
fn renders_placeholders() {
    let f = fields(&[("Front", Some("DNA")), ("Back", Some("Deoxyribonucleic acid"))]);
    assert_eq!(render_template("Q: {{Front}}", &f), "Q: DNA");
    assert_eq!(render_template("{{ Front }}", &f), "DNA");
    assert_eq!(render_template("{{Front}}/{{Back}}", &f), "DNA/Deoxyribonucleic acid");
}

#[test]
fn text_without_placeholders_is_unchanged() {
    let f = fields(&[("Front", Some("x"))]);
    assert_eq!(render_template("plain { text } here", &f), "plain { text } here");
    assert_eq!(render_template("", &f), "");
}

#[test]
fn unknown_field_renders_its_name() {
    let f = fields(&[("Front", Some("x"))]);
    assert_eq!(render_template("[{{Missing}}]", &f), "[Missing]");
    assert_eq!(render_template("[{{ Missing }}]", &f), "[ Missing ]");
}

#[test]
fn non_string_field_renders_its_name() {
    let f = fields(&[("Count", None)]);
    assert_eq!(render_template("{{Count}}", &f), "Count");
}

#[test]
fn unclosed_placeholder_is_kept_and_looked_up() {
    let f = fields(&[("Front", Some("X"))]);
    assert_eq!(render_template("a {{Front", &f), "a {{FrontX");
    assert_eq!(render_template("a {{Nope", &f), "a {{NopeNope");
}

#[test]
fn single_brace_inside_placeholder() {
    let f = fields(&[("a}b", Some("V"))]);
    assert_eq!(render_template("{{a}b}}", &f), "V");
    let g = fields(&[("x", Some("V"))]);
    assert_eq!(render_template("{{x}}}", &g), "V}");
}

#[test]
fn insert_replaces_existing_field() {
    let mut f = NoteFields::new();
    f.insert("Front".to_string(), Some("one".to_string()));
    f.insert("Front".to_string(), Some("two".to_string()));
    assert_eq!(f.entries.len(), 1);
    assert_eq!(render_template("{{Front}}", &f), "two");
}

#[test]
fn renders_all_cards() {
    let f = fields(&[("Front", Some("F")), ("Back", Some("B"))]);
    let cards = render_cards(&basic_templates(), &f);
    assert_eq!(cards.len(), 2);
    assert_eq!(cards[0].template_index, 0);
    assert_eq!(cards[0].front, "F");
    assert_eq!(cards[0].back, "F -> B");
    assert_eq!(cards[1].front, "B");
    assert_eq!(cards[1].back, "F");
}

#[test]
fn renders_one_card_by_index() {
    let f = fields(&[("Front", Some("F")), ("Back", Some("B"))]);
    let c = render_card(&basic_templates(), 1, &f).unwrap();
    assert_eq!(c.template_index, 1);
    assert_eq!(c.front, "B");
    assert!(render_card(&basic_templates(), 7, &f).is_none());
    let u = render_card_or_unknown(&basic_templates(), 7, &f);
    assert_eq!(u.template_index, 7);
    assert_eq!(u.front, "(unknown)");
    assert_eq!(u.back, "");
}

#[test]
fn validates_required_fields() {
    let f = fields(&[("Front", Some("F"))]);
    let names = vec!["Front".to_string()];
    assert_eq!(validate_fields(&names, &f), Ok(()));
    let names = vec!["Front".to_string(), "Back".to_string(), "Extra".to_string()];
    assert_eq!(
        validate_fields(&names, &f),
        Err("Missing required fields: Back, Extra".to_string())
    );
    let empty = NoteFields::new();
    assert_eq!(
        validate_fields(&["Back".to_string()], &empty),
        Err("Missing required fields: Back".to_string())
    );
}

#[test]
fn non_string_field_counts_as_present() {
    let f = fields(&[("Front", None)]);
    assert_eq!(validate_fields(&["Front".to_string()], &f), Ok(()));
}

#[test]
fn field_names_are_stored_as_json() {
    let names = vec!["Front".to_string(), "Back".to_string()];
    assert_eq!(field_names_json(&names), r#"["Front","Back"]"#);
    assert_eq!(field_names_json(&Vec::new()), "[]");
    let odd = vec!["say \"hi\"".to_string(), "a\\b".to_string(), "é\n".to_string()];
    assert_eq!(parse_field_names(&field_names_json(&odd)), Ok(odd.clone()));
}

#[test]
fn stored_field_names_read_back() {
    assert_eq!(parse_field_names(r#"["Front", "Back"]"#), Ok(vec!["Front".to_string(), "Back".to_string()]));
    assert_eq!(parse_field_names("[]"), Ok(Vec::new()));
    for bad in ["", "not json", "[1, 2]", r#"{"a": "b"}"#, r#"["open"#] {
        let e = parse_field_names(bad).unwrap_err();
        assert!(e.starts_with("Invalid field_names JSON: "), "{e}");
        assert!(e.len() > "Invalid field_names JSON: ".len());
    }
}
