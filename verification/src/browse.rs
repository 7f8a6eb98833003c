//! The card browser: query-string defaults, paging and the SQL filter
//! fragments built from comma-separated filter lists.

use vstd::prelude::*;

use crate::deck_options::{parse_steps_csv, steps_csv_text, steps_from_csv, steps_to_csv};
use crate::text::{
    chars_equal, chars_of, decimal, is_digit, join, join_chars, law_parse_decimal, push_all,
    split_chars, split_on, string_from_chars, trim, trim_chars, views,
};

verus! {

/// The default sort key.
pub fn default_sort() -> (r: String)
    ensures
        r@ == "created_at"@,
{
    String::from_str("created_at")
}

/// The default page number.
pub fn default_page() -> (r: i64)
    ensures
        r == 1,
{
    1
}

/// The default page size.
pub fn default_per_page() -> (r: i64)
    ensures
        r == 50,
{
    50
}

/// The trimmed, non-empty pieces.
pub open spec fn trimmed_nonempty(pieces: Seq<Seq<char>>) -> Seq<Seq<char>>
    decreases pieces.len(),
{
    if pieces.len() == 0 {
        Seq::empty()
    } else {
        let prev = trimmed_nonempty(pieces.drop_last());
        let t = trim(pieces.last());
        if t.len() > 0 {
            prev.push(t)
        } else {
            prev
        }
    }
}

/// The trimmed, non-empty items of a comma-separated list.
pub fn list_items(csv: &Vec<char>) -> (r: Vec<Vec<char>>)
    ensures
        views(r@) == trimmed_nonempty(split_on(csv@, ',')),
{
    let pieces = split_chars(csv, ',');
    let mut out: Vec<Vec<char>> = Vec::new();
    let mut i: usize = 0;
    while i < pieces.len()
        invariant
            i <= pieces.len(),
            views(pieces@) == split_on(csv@, ','),
            views(out@) == trimmed_nonempty(views(pieces@).take(i as int)),
        decreases pieces.len() - i,
    {
        let ghost ps = views(pieces@);
        assert(ps.take(i + 1).drop_last() =~= ps.take(i as int));
        assert(ps.take(i + 1).last() == pieces@[i as int]@);
        let t = trim_chars(&pieces[i]);
        if t.len() > 0 {
            let ghost before = views(out@);
            let ghost tv = t@;
            out.push(t);
            assert(views(out@) =~= before.push(tv));
        }
        i = i + 1;
    }
    assert(views(pieces@).take(pieces.len() as int) =~= views(pieces@));
    out
}

/// The SQL fragment that restricts `column` to the integers of a
/// comma-separated list: each item is trimmed and kept when it reads as an
/// `i64`, and written back as its decimal text; empty when no item is an
/// integer, else `AND column IN (v1,v2,...)`.
pub open spec fn in_clause_text(column: Seq<char>, csv: Seq<char>) -> Seq<char> {
    let vals = steps_from_csv(csv);
    if vals.len() == 0 {
        Seq::empty()
    } else {
        "AND "@ + column + " IN ("@ + steps_csv_text(vals) + ")"@
    }
}

/// A character of the decimal text of an integer list: a digit, a minus
/// sign or a comma.
pub open spec fn is_number_list_char(c: char) -> bool {
    is_digit(c) || c == '-' || c == ','
}

proof fn lemma_join_chars_within(list: Seq<Seq<char>>, sep: Seq<char>)
    requires
        forall|i: int, j: int|
            0 <= i < list.len() && 0 <= j < list[i].len() ==> is_number_list_char(
                #[trigger] list[i][j],
            ),
        forall|j: int| 0 <= j < sep.len() ==> is_number_list_char(#[trigger] sep[j]),
    ensures
        forall|k: int|
            0 <= k < join(list, sep).len() ==> is_number_list_char(#[trigger] join(list, sep)[k]),
    decreases list.len(),
{
    if list.len() == 1 {
        assert forall|k: int| 0 <= k < join(list, sep).len() implies is_number_list_char(
            #[trigger] join(list, sep)[k],
        ) by {
            assert(list[0][k] == join(list, sep)[k]);
        }
    } else if list.len() > 1 {
        let prefix = list.drop_last();
        assert forall|i: int, j: int| 0 <= i < prefix.len() && 0 <= j < prefix[i].len() implies is_number_list_char(
            #[trigger] prefix[i][j],
        ) by {
            assert(prefix[i] == list[i]);
        }
        lemma_join_chars_within(prefix, sep);
        let a = join(prefix, sep);
        let last = list.last();
        assert(join(list, sep) == a + sep + last);
        assert forall|k: int| 0 <= k < join(list, sep).len() implies is_number_list_char(
            #[trigger] join(list, sep)[k],
        ) by {
            if k < a.len() {
                assert(join(list, sep)[k] == a[k]);
            } else if k < a.len() + sep.len() {
                assert(join(list, sep)[k] == sep[k - a.len()]);
            } else {
                assert(join(list, sep)[k] == last[k - a.len() - sep.len()]);
                assert(list[list.len() - 1] == last);
            }
        }
    }
}

/// Whatever the list, the values of an `IN (...)` fragment are only
/// digits, minus signs and commas: no text of the list reaches the query
/// except as the decimal text of an integer.
pub proof fn law_in_clause_holds_only_numbers(csv: Seq<char>)
    ensures
        forall|k: int|
            0 <= k < steps_csv_text(steps_from_csv(csv)).len() ==> is_number_list_char(
                #[trigger] steps_csv_text(steps_from_csv(csv))[k],
            ),
{
    let vals = steps_from_csv(csv);
    let texts = vals.map_values(|x: i64| decimal(x as int));
    assert forall|i: int, j: int| 0 <= i < texts.len() && 0 <= j < texts[i].len() implies is_number_list_char(
        #[trigger] texts[i][j],
    ) by {
        law_parse_decimal(vals[i]);
        assert(texts[i] == decimal(vals[i] as int));
    }
    assert(seq![','][0] == ',');
    lemma_join_chars_within(texts, seq![',']);
}

/// Builds the `IN (...)` fragment for a comma-separated list of integers.
pub fn in_clause(column: &str, csv: &str) -> (r: String)
    ensures
        r@ == in_clause_text(column@, csv@),
{
    let vals = parse_steps_csv(csv);
    if vals.len() == 0 {
        return String::new();
    }
    let mut out = chars_of("AND ");
    push_all(&mut out, &chars_of(column));
    push_all(&mut out, &chars_of(" IN ("));
    push_all(&mut out, &chars_of(steps_to_csv(vals.as_slice()).as_str()));
    push_all(&mut out, &chars_of(")"));
    string_from_chars(&out)
}

/// The condition for one state filter name, if it is one of `new`,
/// `learning`, `review`, `relearning` or `due`.
pub open spec fn state_condition(s: Seq<char>) -> Option<Seq<char>> {
    if s == "new"@ {
        Some("(scs.state = 'new' OR scs.reps = 0 OR scs.state IS NULL)"@)
    } else if s == "learning"@ {
        Some("scs.state = 'learning'"@)
    } else if s == "review"@ {
        Some("scs.state = 'review'"@)
    } else if s == "relearning"@ {
        Some("scs.state = 'relearning'"@)
    } else if s == "due"@ {
        Some("(scs.state IN ('review', 'relearning') AND scs.due_at <= unixepoch())"@)
    } else {
        None
    }
}

/// The conditions of the known state names, in order.
pub open spec fn state_conditions(names: Seq<Seq<char>>) -> Seq<Seq<char>>
    decreases names.len(),
{
    if names.len() == 0 {
        Seq::empty()
    } else {
        let prev = state_conditions(names.drop_last());
        match state_condition(names.last()) {
            Some(c) => prev.push(c),
            None => prev,
        }
    }
}

/// The SQL fragment for a comma-separated list of state filters: empty
/// when no listed name is known, else `AND (c1 OR c2 ...)`.
pub open spec fn state_where_text(csv: Seq<char>) -> Seq<char> {
    let conds = state_conditions(trimmed_nonempty(split_on(csv, ',')));
    if conds.len() == 0 {
        Seq::empty()
    } else {
        "AND ("@ + join(conds, " OR "@) + ")"@
    }
}

fn state_condition_exec(s: &Vec<char>) -> (r: Option<Vec<char>>)
    ensures
        match r {
            Some(v) => state_condition(s@) == Some(v@),
            None => state_condition(s@) is None,
        },
{
    if chars_equal(s, &chars_of("new")) {
        Some(chars_of("(scs.state = 'new' OR scs.reps = 0 OR scs.state IS NULL)"))
    } else if chars_equal(s, &chars_of("learning")) {
        Some(chars_of("scs.state = 'learning'"))
    } else if chars_equal(s, &chars_of("review")) {
        Some(chars_of("scs.state = 'review'"))
    } else if chars_equal(s, &chars_of("relearning")) {
        Some(chars_of("scs.state = 'relearning'"))
    } else if chars_equal(s, &chars_of("due")) {
        Some(chars_of("(scs.state IN ('review', 'relearning') AND scs.due_at <= unixepoch())"))
    } else {
        None
    }
}

/// Builds the WHERE fragment for comma-separated state filters.
pub fn state_where(csv: &str) -> (r: String)
    ensures
        r@ == state_where_text(csv@),
{
    let names = list_items(&chars_of(csv));
    let mut conds: Vec<Vec<char>> = Vec::new();
    let mut i: usize = 0;
    while i < names.len()
        invariant
            i <= names.len(),
            views(conds@) == state_conditions(views(names@).take(i as int)),
        decreases names.len() - i,
    {
        let ghost ns = views(names@);
        assert(ns.take(i + 1).drop_last() =~= ns.take(i as int));
        assert(ns.take(i + 1).last() == names@[i as int]@);
        match state_condition_exec(&names[i]) {
            Some(c) => {
                let ghost before = views(conds@);
                let ghost cv = c@;
                conds.push(c);
                assert(views(conds@) =~= before.push(cv));
            },
            None => {},
        }
        i = i + 1;
    }
    assert(views(names@).take(names.len() as int) =~= views(names@));
    if conds.len() == 0 {
        return String::new();
    }
    let mut out = chars_of("AND (");
    push_all(&mut out, &join_chars(&conds, &chars_of(" OR ")));
    push_all(&mut out, &chars_of(")"));
    string_from_chars(&out)
}

/// The ORDER BY clause for a sort key; unknown keys sort by creation time.
pub fn sort_clause(sort: &str) -> (r: &'static str)
    ensures
        r@ == if sort@ == "due_at"@ {
            "scs.due_at ASC NULLS LAST, c.created_at DESC"@
        } else if sort@ == "deck"@ {
            "d.title ASC, c.created_at DESC"@
        } else if sort@ == "question"@ {
            "n.fields_json ASC, c.created_at DESC"@
        } else {
            "c.created_at DESC"@
        },
{
    let s = chars_of(sort);
    if chars_equal(&s, &chars_of("due_at")) {
        "scs.due_at ASC NULLS LAST, c.created_at DESC"
    } else if chars_equal(&s, &chars_of("deck")) {
        "d.title ASC, c.created_at DESC"
    } else if chars_equal(&s, &chars_of("question")) {
        "n.fields_json ASC, c.created_at DESC"
    } else {
        "c.created_at DESC"
    }
}

/// `s` made safe inside a single-quoted SQL string literal: every `'` is
/// doubled.
pub open spec fn escape_quotes(s: Seq<char>) -> Seq<char>
    decreases s.len(),
{
    if s.len() == 0 {
        Seq::empty()
    } else if s[0] == '\'' {
        seq!['\'', '\''] + escape_quotes(s.drop_first())
    } else {
        seq![s[0]] + escape_quotes(s.drop_first())
    }
}

/// Every `'` in `s` is one of a doubled pair, so the body of a string
/// literal holding `s` does not end inside it.
pub open spec fn quotes_paired(s: Seq<char>) -> bool
    decreases s.len(),
{
    if s.len() == 0 {
        true
    } else if s[0] == '\'' {
        s.len() >= 2 && s[1] == '\'' && quotes_paired(s.subrange(2, s.len() as int))
    } else {
        quotes_paired(s.drop_first())
    }
}

/// The text that a string-literal body denotes: each doubled `'` stands for
/// one `'`.
pub open spec fn literal_text(s: Seq<char>) -> Seq<char>
    decreases s.len(),
{
    if s.len() == 0 {
        Seq::empty()
    } else if s[0] == '\'' && s.len() >= 2 && s[1] == '\'' {
        seq!['\''] + literal_text(s.subrange(2, s.len() as int))
    } else {
        seq![s[0]] + literal_text(s.drop_first())
    }
}

proof fn lemma_escape_append(a: Seq<char>, b: Seq<char>)
    ensures
        escape_quotes(a + b) == escape_quotes(a) + escape_quotes(b),
    decreases a.len(),
{
    if a.len() == 0 {
        assert(a + b =~= b);
    } else {
        lemma_escape_append(a.drop_first(), b);
        assert((a + b).drop_first() =~= a.drop_first() + b);
        assert((a + b)[0] == a[0]);
        if a[0] == '\'' {
            assert(seq!['\'', '\''] + (escape_quotes(a.drop_first()) + escape_quotes(b)) =~= (seq![
                '\'',
                '\'',
            ] + escape_quotes(a.drop_first())) + escape_quotes(b));
        } else {
            assert(seq![a[0]] + (escape_quotes(a.drop_first()) + escape_quotes(b)) =~= (seq![a[0]]
                + escape_quotes(a.drop_first())) + escape_quotes(b));
        }
    }
}

/// Escaped text can be put between single quotes in SQL: its quotes are
/// all paired, so the literal ends where it should, and the literal
/// denotes the text itself.
pub proof fn law_escaped_text_stays_literal(t: Seq<char>)
    ensures
        quotes_paired(escape_quotes(t)),
        literal_text(escape_quotes(t)) == t,
    decreases t.len(),
{
    if t.len() > 0 {
        law_escaped_text_stays_literal(t.drop_first());
        let e = escape_quotes(t);
        let rest = escape_quotes(t.drop_first());
        if t[0] == '\'' {
            assert(e.subrange(2, e.len() as int) =~= rest);
            assert(seq!['\''] + t.drop_first() =~= t);
        } else {
            assert(e.drop_first() =~= rest);
            assert(seq![t[0]] + t.drop_first() =~= t);
        }
    }
}

/// `v` with every `'` doubled.
fn escape_quotes_chars(v: &Vec<char>) -> (r: Vec<char>)
    ensures
        r@ == escape_quotes(v@),
{
    let mut out: Vec<char> = Vec::new();
    let mut i: usize = 0;
    assert(v@.take(0) =~= Seq::<char>::empty());
    while i < v.len()
        invariant
            i <= v.len(),
            out@ == escape_quotes(v@.take(i as int)),
        decreases v.len() - i,
    {
        let c = v[i];
        proof {
            lemma_escape_append(v@.take(i as int), seq![c]);
            assert(v@.take(i + 1) =~= v@.take(i as int) + seq![c]);
            assert(seq![c].drop_first() =~= Seq::<char>::empty());
            assert(escape_quotes(Seq::<char>::empty()) =~= Seq::<char>::empty());
            if c == '\'' {
                assert(escape_quotes(seq![c]) =~= seq!['\'', '\'']);
            } else {
                assert(escape_quotes(seq![c]) =~= seq![c]);
            }
        }
        let ghost before = out@;
        if c == '\'' {
            out.push('\'');
            out.push('\'');
            assert(out@ =~= before + seq!['\'', '\'']);
        } else {
            out.push(c);
            assert(out@ =~= before + seq![c]);
        }
        i = i + 1;
    }
    assert(v@.take(v.len() as int) =~= v@);
    out
}

/// The search fragment for the optional `q` parameter: empty when absent or
/// blank, else a LIKE match on the note's fields with the trimmed text,
/// its quotes doubled so that it stays inside the string literal.
pub fn search_clause(q: Option<&str>) -> (r: String)
    ensures
        match q {
            Some(s) if trim(s@).len() > 0 => r@ == "AND n.fields_json LIKE '%"@ + escape_quotes(
                trim(s@),
            ) + "%'"@,
            _ => r@ == Seq::<char>::empty(),
        },
{
    match q {
        None => String::new(),
        Some(s) => {
            let t = trim_chars(&chars_of(s));
            if t.len() == 0 {
                return String::new();
            }
            let mut out = chars_of("AND n.fields_json LIKE '%");
            push_all(&mut out, &escape_quotes_chars(&t));
            push_all(&mut out, &chars_of("%'"));
            string_from_chars(&out)
        },
    }
}

/// The page, page size and row offset of a browse request: the page is at
/// least 1 and the page size between 1 and 100.
pub fn paging(page: i64, per_page: i64) -> (r: (i64, i64, i64))
    requires
        (if page < 1 {
            0
        } else {
            page - 1
        }) * (if per_page < 1 {
            1
        } else if per_page > 100 {
            100
        } else {
            per_page
        }) <= i64::MAX,
    ensures
        r.0 == if page < 1 {
            1
        } else {
            page
        },
        r.1 == if per_page < 1 {
            1
        } else if per_page > 100 {
            100
        } else {
            per_page
        },
        r.2 == (r.0 - 1) * r.1,
{
    let p = if page < 1 {
        1
    } else {
        page
    };
    let pp = if per_page < 1 {
        1
    } else if per_page > 100 {
        100
    } else {
        per_page
    };
    assert((p - 1) * pp >= 0) by (nonlinear_arith)
        requires
            p >= 1,
            pp >= 1,
    ;
    (p, pp, (p - 1) * pp)
}

/// Whether a browsed card counts as new: its state is `new`, or it has never
/// been reviewed.
pub fn is_new_card(state: Option<&str>, reps: i64) -> (r: bool)
    ensures
        r == ((state matches Some(s) && s@ == "new"@) || reps == 0),
{
    let named_new = match state {
        Some(s) => chars_equal(&chars_of(s), &chars_of("new")),
        None => false,
    };
    named_new || reps == 0
}

/// How many of the first `k` flags are set.
pub open spec fn count_set(flags: Seq<bool>, k: int) -> int
    decreases k,
{
    if k <= 0 {
        0
    } else {
        count_set(flags, k - 1) + if flags[k - 1] {
            1int
        } else {
            0int
        }
    }
}

proof fn lemma_count_set_bound(flags: Seq<bool>, k: int)
    requires
        0 <= k,
    ensures
        0 <= count_set(flags, k) <= k,
    decreases k,
{
    if k > 0 {
        lemma_count_set_bound(flags, k - 1);
    }
}

proof fn lemma_count_set_monotone(flags: Seq<bool>, j: int, k: int)
    requires
        0 <= j <= k,
    ensures
        count_set(flags, j) <= count_set(flags, k),
    decreases k - j,
{
    if j < k {
        lemma_count_set_monotone(flags, j, k - 1);
    }
}

/// The queue positions shown for the cards of a page: the new cards are
/// numbered on from `offset`, in page order; other cards have none.
pub fn new_card_positions(is_new: &[bool], offset: i64) -> (r: Vec<Option<i64>>)
    requires
        offset + count_set(is_new@, is_new.len() as int) <= i64::MAX,
    ensures
        r.len() == is_new.len(),
        forall|i: int|
            0 <= i < r.len() ==> #[trigger] r@[i] == if is_new@[i] {
                Some((offset + count_set(is_new@, i + 1)) as i64)
            } else {
                None
            },
{
    let mut out: Vec<Option<i64>> = Vec::new();
    let mut pos = offset;
    let mut i: usize = 0;
    while i < is_new.len()
        invariant
            i <= is_new.len(),
            offset + count_set(is_new@, is_new.len() as int) <= i64::MAX,
            out.len() == i,
            pos == offset + count_set(is_new@, i as int),
            forall|k: int|
                0 <= k < i ==> #[trigger] out@[k] == if is_new@[k] {
                    Some((offset + count_set(is_new@, k + 1)) as i64)
                } else {
                    None
                },
        decreases is_new.len() - i,
    {
        proof {
            lemma_count_set_bound(is_new@, i + 1);
            lemma_count_set_monotone(is_new@, i + 1, is_new.len() as int);
        }
        if is_new[i] {
            pos = pos + 1;
            out.push(Some(pos));
        } else {
            out.push(None);
        }
        i = i + 1;
    }
    out
}

} // verus!

verus! {

/// The query of the card browser; list filters are comma-separated.
pub struct CardBrowserQuery {
    pub deck_id: String,
    pub note_type_id: String,
    pub q: Option<String>,
    pub state: String,
    pub flag: String,
    pub sort: String,
    pub page: i64,
    pub per_page: i64,
}

} // verus!
