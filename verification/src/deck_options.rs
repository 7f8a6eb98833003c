//! Step lists of deck option presets, stored as comma-separated seconds.

use vstd::prelude::*;

use crate::text::{
    chars_equal, chars_of, copy_range, decimal, format_i64, is_digit, is_whitespace_char, is_ws,
    join, join_chars, parse_i64, parse_i64_spec, push_all, split_chars, split_on,
    string_from_chars, trim, trim_chars, trim_start, views,
};

verus! {

/// The step values read from the pieces of a comma-separated list: each
/// piece is trimmed, and kept when it is a non-empty decimal `i64`.
pub open spec fn csv_values(pieces: Seq<Seq<char>>) -> Seq<i64>
    decreases pieces.len(),
{
    if pieces.len() == 0 {
        Seq::empty()
    } else {
        let prev = csv_values(pieces.drop_last());
        let t = trim(pieces.last());
        if t.len() > 0 && parse_i64_spec(t) is Some {
            prev.push(parse_i64_spec(t).unwrap())
        } else {
            prev
        }
    }
}

/// What a stored step list reads as.
pub open spec fn steps_from_csv(csv: Seq<char>) -> Seq<i64> {
    csv_values(split_on(csv, ','))
}

/// The stored text of a step list: the decimal values joined by commas.
pub open spec fn steps_csv_text(steps: Seq<i64>) -> Seq<char> {
    join(steps.map_values(|x: i64| decimal(x as int)), seq![','])
}

/// Parses a comma-separated seconds list (as stored in the database);
/// pieces that are empty or not integers are skipped.
pub fn parse_steps_csv(csv: &str) -> (r: Vec<i64>)
    ensures
        r@ == steps_from_csv(csv@),
{
    let pieces = split_chars(&chars_of(csv), ',');
    let mut out: Vec<i64> = Vec::new();
    let mut i: usize = 0;
    while i < pieces.len()
        invariant
            i <= pieces.len(),
            views(pieces@) == split_on(csv@, ','),
            out@ == csv_values(views(pieces@).take(i as int)),
        decreases pieces.len() - i,
    {
        let ghost ps = views(pieces@);
        assert(ps.take(i + 1).drop_last() =~= ps.take(i as int));
        assert(ps.take(i + 1).last() == pieces@[i as int]@);
        let t = trim_chars(&pieces[i]);
        if t.len() > 0 {
            match parse_i64(&t) {
                Some(v) => {
                    out.push(v);
                },
                None => {},
            }
        }
        i = i + 1;
    }
    assert(views(pieces@).take(pieces.len() as int) =~= views(pieces@));
    out
}

/// Serialises a seconds list to a comma-separated string.
pub fn steps_to_csv(steps: &[i64]) -> (r: String)
    ensures
        r@ == steps_csv_text(steps@),
{
    let mut parts: Vec<Vec<char>> = Vec::new();
    let mut i: usize = 0;
    while i < steps.len()
        invariant
            i <= steps.len(),
            views(parts@) == steps@.take(i as int).map_values(|x: i64| decimal(x as int)),
        decreases steps.len() - i,
    {
        let ghost before = views(parts@);
        let d = format_i64(steps[i]);
        let ghost dv = d@;
        parts.push(d);
        assert(views(parts@) =~= before.push(dv));
        assert(steps@.take(i + 1).map_values(|x: i64| decimal(x as int)) =~= steps@.take(
            i as int,
        ).map_values(|x: i64| decimal(x as int)).push(decimal(steps@[i as int] as int)));
        i = i + 1;
    }
    assert(steps@.take(steps.len() as int) =~= steps@);
    let sep = chars_of(",");
    let ghost comma = seq![','];
    assert(sep@ =~= comma) by {
        reveal_strlit(",");
    }
    string_from_chars(&join_chars(&parts, &sep))
}

proof fn lemma_trim_plain(s: Seq<char>)
    requires
        forall|i: int| 0 <= i < s.len() ==> !is_ws(#[trigger] s[i]),
    ensures
        trim(s) == s,
{
    if s.len() > 0 {
        assert(!is_ws(s[0]));
        assert(!is_ws(s[s.len() - 1]));
    }
}

proof fn lemma_csv_values_plain(steps: Seq<i64>)
    ensures
        csv_values(steps.map_values(|x: i64| decimal(x as int))) == steps,
    decreases steps.len(),
{
    let texts = steps.map_values(|x: i64| decimal(x as int));
    if steps.len() > 0 {
        lemma_csv_values_plain(steps.drop_last());
        assert(texts.drop_last() =~= steps.drop_last().map_values(|x: i64| decimal(x as int)));
        let x = steps.last();
        let t = decimal(x as int);
        assert(texts.last() == t);
        crate::text::law_parse_decimal(x);
        assert forall|i: int| 0 <= i < t.len() implies !is_ws(#[trigger] t[i]) by {
            let c = t[i];
            assert(c == '-' || crate::text::is_digit(c));
        }
        lemma_trim_plain(t);
        assert(steps.drop_last().push(x) =~= steps);
    }
}

/// Reading back a stored step list gives the list that was stored.
pub proof fn law_steps_csv_roundtrip(steps: Seq<i64>)
    ensures
        steps_from_csv(steps_csv_text(steps)) == steps,
{
    let texts = steps.map_values(|x: i64| decimal(x as int));
    if steps.len() == 0 {
        assert(texts =~= Seq::<Seq<char>>::empty());
        assert(steps_csv_text(steps) =~= Seq::<char>::empty());
        assert(split_on(Seq::<char>::empty(), ',') =~= seq![Seq::<char>::empty()]);
        assert(seq![Seq::<char>::empty()].drop_last() =~= Seq::<Seq<char>>::empty());
        assert(trim_start(Seq::<char>::empty()) =~= Seq::<char>::empty());
        assert(trim(Seq::<char>::empty()) =~= Seq::<char>::empty());
        assert(csv_values(Seq::<Seq<char>>::empty()) =~= Seq::<i64>::empty());
        assert(seq![Seq::<char>::empty()].last() == Seq::<char>::empty());
        assert(csv_values(seq![Seq::<char>::empty()]) =~= Seq::<i64>::empty());
        assert(steps =~= Seq::<i64>::empty());
    } else {
        assert forall|i: int, j: int| 0 <= i < texts.len() && 0 <= j < texts[i].len() implies #[trigger] texts[i][j] != ',' by {
            crate::text::law_parse_decimal(steps[i]);
            let c = texts[i][j];
            assert(c == '-' || crate::text::is_digit(c));
        }
        crate::text::law_split_join(texts, ',');
        lemma_csv_values_plain(steps);
    }
}

} // verus!

verus! {

/// The whitespace-separated words of `s`, as `str::split_whitespace` gives
/// them.
pub open spec fn words(s: Seq<char>) -> Seq<Seq<char>>
    decreases s.len(),
{
    if s.len() == 0 {
        Seq::empty()
    } else {
        let prev = words(s.drop_last());
        let c = s.last();
        if is_ws(c) {
            prev
        } else if s.len() > 1 && !is_ws(s[s.len() - 2]) {
            prev.update(prev.len() - 1, prev.last().push(c))
        } else {
            prev.push(seq![c])
        }
    }
}

/// The words of a step list such as `"1m 10m"`.
pub fn step_words(input: &str) -> (r: Vec<String>)
    ensures
        r@.map_values(|w: String| w@) == words(input@),
{
    let s = chars_of(input);
    let mut done: Vec<Vec<char>> = Vec::new();
    let mut cur: Vec<char> = Vec::new();
    let mut i: usize = 0;
    assert(s@.take(0) =~= Seq::<char>::empty());
    while i < s.len()
        invariant
            i <= s.len(),
            s@ == input@,
            cur@.len() > 0 <==> (i > 0 && !is_ws(s@[i - 1])),
            cur@.len() > 0 ==> views(done@).push(cur@) == words(s@.take(i as int)),
            cur@.len() == 0 ==> views(done@) == words(s@.take(i as int)),
        decreases s.len() - i,
    {
        let c = s[i];
        let ghost t = s@.take(i + 1);
        assert(t.drop_last() =~= s@.take(i as int));
        assert(t.last() == c);
        if is_whitespace_char(c) {
            if cur.len() > 0 {
                let ghost before = views(done@);
                let w = cur;
                done.push(w);
                cur = Vec::new();
                assert(views(done@) =~= before.push(w@));
            }
        } else {
            let ghost before = cur@;
            if cur.len() > 0 {
                assert(t[t.len() - 2] == s@[i - 1]);
                cur.push(c);
                assert(views(done@).push(cur@) =~= views(done@).push(before).update(
                    views(done@).len() as int,
                    before.push(c),
                ));
            } else {
                if i > 0 {
                    assert(t[t.len() - 2] == s@[i - 1]);
                }
                cur.push(c);
                assert(cur@ =~= seq![c]);
            }
        }
        i = i + 1;
    }
    assert(s@.take(s.len() as int) =~= s@);
    if cur.len() > 0 {
        let ghost before = views(done@);
        let w = cur;
        done.push(w);
        assert(views(done@) =~= before.push(w@));
    }
    let mut out: Vec<String> = Vec::new();
    let mut k: usize = 0;
    while k < done.len()
        invariant
            k <= done.len(),
            out.len() == k,
            out@.map_values(|w: String| w@) == views(done@).take(k as int),
        decreases done.len() - k,
    {
        let w = string_from_chars(&done[k]);
        let ghost before = out@;
        let ghost wv = w@;
        out.push(w);
        assert(out@ =~= before.push(out@[k as int]));
        assert(out@[k as int]@ == wv);
        assert(out@.map_values(|w: String| w@) =~= before.map_values(|w: String| w@).push(wv));
        assert(views(done@).take(k + 1) =~= views(done@).take(k as int).push(done@[k as int]@));
        k = k + 1;
    }
    assert(views(done@).take(done.len() as int) =~= views(done@));
    out
}

/// Position of the first character of `w` that is neither an ASCII digit
/// nor `.`, or the length of `w` when there is none.
pub open spec fn number_end(w: Seq<char>, i: int) -> int
    decreases w.len() - i,
{
    if i >= w.len() {
        w.len() as int
    } else if is_digit(w[i]) || w[i] == '.' {
        number_end(w, i + 1)
    } else {
        i
    }
}

proof fn lemma_number_end_bounds(w: Seq<char>, i: int)
    requires
        0 <= i <= w.len(),
    ensures
        i <= number_end(w, i) <= w.len(),
    decreases w.len() - i,
{
    if i < w.len() && (is_digit(w[i]) || w[i] == '.') {
        lemma_number_end_bounds(w, i + 1);
    }
}

/// Splits a step word into its number part (leading digits and dots) and
/// its unit suffix.
pub fn split_step_word(word: &str) -> (r: (String, String))
    ensures
        ({
            let k = number_end(word@, 0);
            r.0@ == word@.subrange(0, k) && r.1@ == word@.subrange(k, word@.len() as int)
        }),
{
    let w = chars_of(word);
    let mut i: usize = 0;
    while i < w.len() && (('0' <= w[i] && w[i] <= '9') || w[i] == '.')
        invariant
            i <= w.len(),
            w@ == word@,
            number_end(w@, 0) == number_end(w@, i as int),
        decreases w.len() - i,
    {
        i = i + 1;
    }
    proof {
        lemma_number_end_bounds(w@, 0);
    }
    (string_from_chars(&copy_range(&w, 0, i)), string_from_chars(&copy_range(&w, i, w.len())))
}

/// The seconds in one unit of a step: `s` 1, `m` (or no unit) 60, `h` 3600,
/// `d` 86400.
pub open spec fn unit_seconds(unit: Seq<char>) -> Option<i64> {
    if unit.len() == 0 || unit == "m"@ {
        Some(60)
    } else if unit == "s"@ {
        Some(1)
    } else if unit == "h"@ {
        Some(3600)
    } else if unit == "d"@ {
        Some(86400)
    } else {
        None
    }
}

/// The seconds in one unit of a step, `None` for an unknown unit.
pub fn step_unit_seconds(unit: &str) -> (r: Option<i64>)
    ensures
        r == unit_seconds(unit@),
{
    let u = chars_of(unit);
    if u.len() == 0 || chars_equal(&u, &chars_of("m")) {
        Some(60)
    } else if chars_equal(&u, &chars_of("s")) {
        Some(1)
    } else if chars_equal(&u, &chars_of("h")) {
        Some(3600)
    } else if chars_equal(&u, &chars_of("d")) {
        Some(86400)
    } else {
        None
    }
}

/// `before` + `text` + `'`.
fn quoted_message(before: &str, text: &str) -> (r: String)
    ensures
        r@ == before@ + text@ + seq!['\''],
{
    let mut out = chars_of(before);
    push_all(&mut out, &chars_of(text));
    out.push('\'');
    string_from_chars(&out)
}

/// The error for a step word whose number part does not parse.
pub fn invalid_step_value(word: &str) -> (r: String)
    ensures
        r@ == "Invalid step value: '"@ + word@ + seq!['\''],
{
    quoted_message("Invalid step value: '", word)
}

/// The error for an unknown step unit.
pub fn unknown_step_unit(unit: &str) -> (r: String)
    ensures
        r@ == "Unknown step unit: '"@ + unit@ + seq!['\''],
{
    quoted_message("Unknown step unit: '", unit)
}

/// The error for a step that is not a positive number of seconds.
pub fn step_not_positive(word: &str) -> (r: String)
    ensures
        r@ == "Step must be positive: '"@ + word@ + seq!['\''],
{
    quoted_message("Step must be positive: '", word)
}

/// The error for a step list with no steps.
pub fn no_steps_message() -> (r: String)
    ensures
        r@ == "At least one step is required"@,
{
    String::from_str("At least one step is required")
}

/// What one step word gives, from `reading`: the result of reading the
/// word's number part as a decimal number and scaling it by the seconds of
/// its unit, rounded to whole seconds (`None` when the number part is not a
/// number). A word whose number part is not a number is refused first, then
/// one with an unknown unit, then one that is not a positive number of
/// seconds.
pub open spec fn step_outcome(word: Seq<char>, reading: Option<i64>) -> Result<i64, Seq<char>> {
    let unit = word.subrange(number_end(word, 0), word.len() as int);
    match reading {
        None => Err("Invalid step value: '"@ + word + seq!['\'']),
        Some(secs) => match unit_seconds(unit) {
            None => Err("Unknown step unit: '"@ + unit + seq!['\'']),
            Some(_) => if secs <= 0 {
                Err("Step must be positive: '"@ + word + seq!['\''])
            } else {
                Ok(secs)
            },
        },
    }
}

/// The seconds of a list of step words with their readings, in order, or
/// the refusal of the first word that fails.
pub open spec fn steps_outcome(ws: Seq<Seq<char>>, readings: Seq<Option<i64>>) -> Result<
    Seq<i64>,
    Seq<char>,
>
    decreases ws.len(),
{
    if ws.len() == 0 {
        Ok(Seq::empty())
    } else {
        match step_outcome(ws[0], readings[0]) {
            Err(e) => Err(e),
            Ok(secs) => match steps_outcome(ws.drop_first(), readings.drop_first()) {
                Err(e) => Err(e),
                Ok(rest) => Ok(seq![secs] + rest),
            },
        }
    }
}

/// What a step list such as `"1m 10m 1.5d"` gives, where `readings` holds,
/// word by word, what reading and scaling each word's number gave: the
/// seconds of its steps, or the refusal of the first bad word, or a
/// refusal when there are no steps at all.
pub open spec fn parse_steps_spec(input: Seq<char>, readings: Seq<Option<i64>>) -> Result<
    Seq<i64>,
    Seq<char>,
> {
    match steps_outcome(words(input), readings) {
        Err(e) => Err(e),
        Ok(steps) => if steps.len() == 0 {
            Err("At least one step is required"@)
        } else {
            Ok(steps)
        },
    }
}

/// `prefix` put before the seconds of an outcome.
pub open spec fn after_steps(prefix: Seq<i64>, r: Result<Seq<i64>, Seq<char>>) -> Result<
    Seq<i64>,
    Seq<char>,
> {
    match r {
        Err(e) => Err(e),
        Ok(rest) => Ok(prefix + rest),
    }
}

/// Parses an Anki-style step list into seconds: `s` seconds, `m` (or no
/// unit) minutes, `h` hours, `d` days; for example `"1m 1d"` gives
/// `[60, 86400]`.
///
/// A step's number may be a decimal such as `1.5d`; reading and scaling it
/// is floating-point work, done by the caller, which passes for each word
/// of `input`, in order, the rounded seconds it gave (`None` when the
/// number part does not read as a number).
pub fn parse_steps(input: &str, readings: &[Option<i64>]) -> (r: Result<Vec<i64>, String>)
    requires
        readings@.len() == words(input@).len(),
    ensures
        match r {
            Ok(steps) => parse_steps_spec(input@, readings@) == Ok::<Seq<i64>, Seq<char>>(steps@),
            Err(msg) => parse_steps_spec(input@, readings@) == Err::<Seq<i64>, Seq<char>>(msg@),
        },
{
    let ws = step_words(input);
    let ghost wv = ws@.map_values(|w: String| w@);
    let mut out: Vec<i64> = Vec::new();
    let mut i: usize = 0;
    assert(wv.skip(0) =~= wv);
    assert(readings@.skip(0) =~= readings@);
    while i < ws.len()
        invariant
            i <= ws.len() == readings@.len(),
            wv == ws@.map_values(|w: String| w@),
            wv == words(input@),
            steps_outcome(wv, readings@) == after_steps(
                out@,
                steps_outcome(wv.skip(i as int), readings@.skip(i as int)),
            ),
        decreases ws.len() - i,
    {
        let word = ws[i].as_str();
        assert(word@ == wv[i as int]);
        assert(wv.skip(i as int)[0] == wv[i as int]);
        assert(readings@.skip(i as int)[0] == readings@[i as int]);
        assert(wv.skip(i as int).drop_first() =~= wv.skip(i + 1));
        assert(readings@.skip(i as int).drop_first() =~= readings@.skip(i + 1));
        let (_num, unit) = split_step_word(word);
        match readings[i] {
            None => {
                return Err(invalid_step_value(word));
            },
            Some(secs) => {
                match step_unit_seconds(unit.as_str()) {
                    None => {
                        return Err(unknown_step_unit(unit.as_str()));
                    },
                    Some(_) => {
                        if secs <= 0 {
                            return Err(step_not_positive(word));
                        }
                        let ghost before = out@;
                        out.push(secs);
                        proof {
                            let rest = steps_outcome(wv.skip(i + 1), readings@.skip(i + 1));
                            match rest {
                                Ok(v) => {
                                    assert(before + (seq![secs] + v) =~= out@ + v);
                                },
                                Err(e) => {},
                            }
                        }
                    },
                }
            },
        }
        i = i + 1;
    }
    assert(wv.skip(ws.len() as int) =~= Seq::<Seq<char>>::empty());
    assert(out@ + Seq::<i64>::empty() =~= out@);
    if out.len() == 0 {
        return Err(no_steps_message());
    }
    Ok(out)
}

/// The default learning steps of a new preset, as text.
pub fn default_learning_steps() -> (r: String)
    ensures
        r@ == "1m 10m"@,
{
    String::from_str("1m 10m")
}

/// The default relearning steps of a new preset, as text.
pub fn default_relearning_steps() -> (r: String)
    ensures
        r@ == "10m"@,
{
    String::from_str("10m")
}

proof fn lemma_steps_outcome_positive(ws: Seq<Seq<char>>, readings: Seq<Option<i64>>)
    ensures
        steps_outcome(ws, readings) matches Ok(v) ==> v.len() == ws.len() && forall|i: int|
            0 <= i < v.len() ==> v[i] > 0,
    decreases ws.len(),
{
    if ws.len() > 0 {
        lemma_steps_outcome_positive(ws.drop_first(), readings.drop_first());
        match steps_outcome(ws, readings) {
            Ok(v) => {
                let first = step_outcome(ws[0], readings[0]);
                let rest = steps_outcome(ws.drop_first(), readings.drop_first());
                assert(first is Ok && rest is Ok);
                assert forall|i: int| 0 <= i < v.len() implies v[i] > 0 by {
                    if i > 0 {
                        assert(v[i] == rest->Ok_0[i - 1]);
                    }
                }
            },
            Err(_) => {},
        }
    }
}

/// A step list that parses gives one step per word, at least one, and
/// every step is a positive number of seconds.
pub proof fn law_parsed_steps_positive(input: Seq<char>, readings: Seq<Option<i64>>)
    ensures
        parse_steps_spec(input, readings) matches Ok(v) ==> {
            &&& v.len() == words(input).len()
            &&& v.len() > 0
            &&& forall|i: int| 0 <= i < v.len() ==> v[i] > 0
        },
{
    lemma_steps_outcome_positive(words(input), readings);
}

/// The learning steps, in seconds, of a deck without a preset: one minute
/// and ten minutes.
pub fn default_learning_seconds() -> (r: Vec<i64>)
    ensures
        r@ == seq![60i64, 600i64],
{
    let mut v: Vec<i64> = Vec::new();
    v.push(60);
    v.push(600);
    assert(v@ =~= seq![60i64, 600i64]);
    v
}

/// The relearning steps, in seconds, of a deck without a preset: ten
/// minutes.
pub fn default_relearning_seconds() -> (r: Vec<i64>)
    ensures
        r@ == seq![600i64],
{
    let mut v: Vec<i64> = Vec::new();
    v.push(600);
    assert(v@ =~= seq![600i64]);
    v
}

/// The default daily limit of new cards.
pub fn default_new_per_day() -> (r: i64)
    ensures
        r == 20,
{
    20
}

/// The default daily limit of reviews.
pub fn default_review_per_day() -> (r: i64)
    ensures
        r == 200,
{
    200
}

} // verus!

