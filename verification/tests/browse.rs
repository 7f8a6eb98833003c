use anki_classroom::browse::{
    default_page, default_per_page, default_sort, in_clause, is_new_card, list_items,
    new_card_positions, paging, search_clause, sort_clause, state_where,
};

fn chars(s: &str) -> Vec<char> {
    s.chars().collect()
}

fn strings(items: Vec<Vec<char>>) -> Vec<String> {
    items.into_iter().map(|v| v.into_iter().collect()).collect()
}

#[test]
fn query_defaults() {
    assert_eq!(default_sort(), "created_at");
    assert_eq!(default_page(), 1);
    assert_eq!(default_per_page(), 50);
}

#[test]
fn list_items_trims_and_drops_empty() {
    assert_eq!(strings(list_items(&chars(" 1, 2 ,,3 , "))), vec!["1", "2", "3"]);
    assert!(list_items(&chars("")).is_empty());
    assert!(list_items(&chars(" , ,")).is_empty());
}

#[test]
fn in_clause_lists_values() {
    assert_eq!(in_clause("c.deck_id", "3, 7"), "AND c.deck_id IN (3,7)");
    assert_eq!(in_clause("c.deck_id", "5"), "AND c.deck_id IN (5)");
    assert_eq!(in_clause("c.deck_id", ""), "");
    assert_eq!(in_clause("c.deck_id", " , "), "");
    assert_eq!(in_clause("c.deck_id", "1) OR (1=1"), "");
    assert_eq!(in_clause("c.deck_id", "1, x, -2, 007, 1;DROP"), "AND c.deck_id IN (1,-2,7)");
}

#[test]
fn state_where_joins_known_states() {
    assert_eq!(state_where("learning"), "AND (scs.state = 'learning')");
    assert_eq!(
        state_where("review, relearning"),
        "AND (scs.state = 'review' OR scs.state = 'relearning')"
    );
    assert_eq!(
        state_where("new"),
        "AND ((scs.state = 'new' OR scs.reps = 0 OR scs.state IS NULL))"
    );
    assert_eq!(
        state_where("due,bogus"),
        "AND ((scs.state IN ('review', 'relearning') AND scs.due_at <= unixepoch()))"
    );
    assert_eq!(state_where("bogus"), "");
    assert_eq!(state_where(""), "");
}

#[test]
fn sort_clause_by_key() {
    assert_eq!(sort_clause("due_at"), "scs.due_at ASC NULLS LAST, c.created_at DESC");
    assert_eq!(sort_clause("deck"), "d.title ASC, c.created_at DESC");
    assert_eq!(sort_clause("question"), "n.fields_json ASC, c.created_at DESC");
    assert_eq!(sort_clause("created_at"), "c.created_at DESC");
    assert_eq!(sort_clause("anything"), "c.created_at DESC");
}

#[test]
fn search_clause_uses_trimmed_text() {
    assert_eq!(search_clause(Some("  cat ")), "AND n.fields_json LIKE '%cat%'");
    assert_eq!(search_clause(Some("   ")), "");
    assert_eq!(search_clause(None), "");
    assert_eq!(search_clause(Some(" it's ")), "AND n.fields_json LIKE '%it''s%'");
    assert_eq!(
        search_clause(Some("x' OR 1=1 --")),
        "AND n.fields_json LIKE '%x'' OR 1=1 --%'"
    );
}

#[test]
fn paging_clamps() {
    assert_eq!(paging(1, 50), (1, 50, 0));
    assert_eq!(paging(3, 20), (3, 20, 40));
    assert_eq!(paging(0, 0), (1, 1, 0));
    assert_eq!(paging(-4, 500), (1, 100, 0));
    assert_eq!(paging(2, 101), (2, 100, 100));
}

#[test]
fn new_cards_by_state_or_reps() {
    assert!(is_new_card(Some("new"), 4));
    assert!(is_new_card(None, 0));
    assert!(is_new_card(Some("review"), 0));
    assert!(!is_new_card(Some("review"), 2));
    assert!(!is_new_card(None, 1));
}

#[test]
fn new_card_positions_count_on_from_offset() {
    assert_eq!(
        new_card_positions(&[true, false, true, true], 50),
        vec![Some(51), None, Some(52), Some(53)]
    );
    assert_eq!(new_card_positions(&[false, false], 0), vec![None, None]);
    assert!(new_card_positions(&[], 7).is_empty());
}

#[test]
fn large_pages_of_single_cards() {
    assert_eq!(paging(i64::MAX, 1), (i64::MAX, 1, i64::MAX - 1));
    assert_eq!(paging(i64::MAX, 0), (i64::MAX, 1, i64::MAX - 1));
}

#[test]
fn positions_only_count_new_cards() {
    assert_eq!(new_card_positions(&[false, false], i64::MAX), vec![None, None]);
    assert_eq!(new_card_positions(&[false, true], i64::MAX - 1), vec![None, Some(i64::MAX)]);
}
