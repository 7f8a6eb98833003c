//! Character-level helpers shared by the rest of the library.

use vstd::prelude::*;

verus! {

/// `String::push` appends one character to the end of the string.
pub assume_specification[ String::push ](s: &mut String, ch: char)
    ensures
        final(s)@ == old(s)@.push(ch),
;

/// The characters of `s`, in order.
pub fn chars_of(s: &str) -> (v: Vec<char>)
    ensures
        v@ == s@,
{
    let mut it = s.chars();
    let mut v: Vec<char> = Vec::new();
    loop
        invariant
            v@ + vstd::std_specs::iter::IteratorSpec::remaining(&it) == s@,
            vstd::std_specs::iter::IteratorSpec::obeys_prophetic_iter_laws(&it),
            vstd::std_specs::iter::IteratorSpec::decrease(&it) is Some,
        ensures
            v@ == s@,
        decreases vstd::std_specs::iter::IteratorSpec::decrease(&it)->0,
    {
        match it.next() {
            Some(c) => {
                v.push(c);
            },
            None => {
                assert(v@ + Seq::<char>::empty() =~= v@);
                break;
            },
        }
    }
    v
}

/// A string holding exactly the characters of `v`.
pub fn string_from_chars(v: &Vec<char>) -> (s: String)
    ensures
        s@ == v@,
{
    let mut s = String::new();
    let mut i: usize = 0;
    while i < v.len()
        invariant
            i <= v.len(),
            s@ == v@.take(i as int),
        decreases v.len() - i,
    {
        s.push(v[i]);
        assert(v@.take(i as int).push(v@[i as int]) =~= v@.take(i + 1));
        i = i + 1;
    }
    assert(v@.take(v.len() as int) =~= v@);
    s
}

} // verus!

verus! {

/// Whether `c` has the Unicode `White_Space` property, the set that
/// `char::is_whitespace` tests for.
pub open spec fn is_ws(c: char) -> bool {
    ||| ('\u{9}' <= c && c <= '\u{d}')
    ||| c == ' '
    ||| c == '\u{85}'
    ||| c == '\u{a0}'
    ||| c == '\u{1680}'
    ||| ('\u{2000}' <= c && c <= '\u{200a}')
    ||| c == '\u{2028}'
    ||| c == '\u{2029}'
    ||| c == '\u{202f}'
    ||| c == '\u{205f}'
    ||| c == '\u{3000}'
}

/// Executable form of [`is_ws`].
pub fn is_whitespace_char(c: char) -> (r: bool)
    ensures
        r == is_ws(c),
{
    ('\u{9}' <= c && c <= '\u{d}') || c == ' ' || c == '\u{85}' || c == '\u{a0}' || c
        == '\u{1680}' || ('\u{2000}' <= c && c <= '\u{200a}') || c == '\u{2028}' || c
        == '\u{2029}' || c == '\u{202f}' || c == '\u{205f}' || c == '\u{3000}'
}

/// `s` without its leading whitespace.
pub open spec fn trim_start(s: Seq<char>) -> Seq<char>
    decreases s.len(),
{
    if s.len() > 0 && is_ws(s[0]) {
        trim_start(s.drop_first())
    } else {
        s
    }
}

/// `s` without its trailing whitespace.
pub open spec fn trim_end(s: Seq<char>) -> Seq<char>
    decreases s.len(),
{
    if s.len() > 0 && is_ws(s.last()) {
        trim_end(s.drop_last())
    } else {
        s
    }
}

/// `s` without leading and trailing whitespace (what `str::trim` returns).
pub open spec fn trim(s: Seq<char>) -> Seq<char> {
    trim_end(trim_start(s))
}

/// The characters `v[lo..hi]` as a new vector.
pub fn copy_range(v: &Vec<char>, lo: usize, hi: usize) -> (r: Vec<char>)
    requires
        lo <= hi <= v.len(),
    ensures
        r@ == v@.subrange(lo as int, hi as int),
{
    let mut r: Vec<char> = Vec::new();
    let mut i = lo;
    while i < hi
        invariant
            lo <= i <= hi <= v.len(),
            r@ == v@.subrange(lo as int, i as int),
        decreases hi - i,
    {
        r.push(v[i]);
        assert(v@.subrange(lo as int, i as int).push(v@[i as int]) =~= v@.subrange(
            lo as int,
            i + 1,
        ));
        i = i + 1;
    }
    r
}

/// Appends all of `other` to `out`.
pub fn push_all(out: &mut Vec<char>, other: &Vec<char>)
    ensures
        final(out)@ == old(out)@ + other@,
{
    let mut i: usize = 0;
    while i < other.len()
        invariant
            i <= other.len(),
            out@ == old(out)@ + other@.take(i as int),
        decreases other.len() - i,
    {
        out.push(other[i]);
        assert(old(out)@ + other@.take(i as int).push(other@[i as int]) =~= old(out)@
            + other@.take(i + 1));
        i = i + 1;
    }
    assert(other@.take(other.len() as int) =~= other@);
}

/// `v` without leading and trailing whitespace.
pub fn trim_chars(v: &Vec<char>) -> (r: Vec<char>)
    ensures
        r@ == trim(v@),
{
    let n = v.len();
    let mut i: usize = 0;
    assert(v@.subrange(0, n as int) =~= v@);
    while i < n && is_whitespace_char(v[i])
        invariant
            i <= n == v.len(),
            trim_start(v@) == trim_start(v@.subrange(i as int, n as int)),
        decreases n - i,
    {
        assert(v@.subrange(i as int, n as int).drop_first() =~= v@.subrange(i + 1, n as int));
        i = i + 1;
    }
    assert(trim_start(v@) == v@.subrange(i as int, n as int));
    let mut j: usize = n;
    while j > i && is_whitespace_char(v[j - 1])
        invariant
            i <= j <= n == v.len(),
            trim_start(v@) == v@.subrange(i as int, n as int),
            trim(v@) == trim_end(v@.subrange(i as int, j as int)),
        decreases j,
    {
        assert(v@.subrange(i as int, j as int).drop_last() =~= v@.subrange(i as int, j - 1));
        j = j - 1;
    }
    copy_range(v, i, j)
}

/// Character-sequence equality, computed.
pub fn chars_equal(a: &Vec<char>, b: &Vec<char>) -> (r: bool)
    ensures
        r == (a@ == b@),
{
    if a.len() != b.len() {
        return false;
    }
    let mut i: usize = 0;
    while i < a.len()
        invariant
            a.len() == b.len(),
            i <= a.len(),
            forall|k: int| 0 <= k < i ==> a@[k] == b@[k],
        decreases a.len() - i,
    {
        if a[i] != b[i] {
            return false;
        }
        i = i + 1;
    }
    assert(a@ =~= b@);
    true
}

} // verus!

verus! {

/// The items of `list` with `sep` between each two neighbours.
pub open spec fn join(list: Seq<Seq<char>>, sep: Seq<char>) -> Seq<char>
    decreases list.len(),
{
    if list.len() == 0 {
        Seq::empty()
    } else if list.len() == 1 {
        list[0]
    } else {
        join(list.drop_last(), sep) + sep + list.last()
    }
}

/// The views of a vector of character vectors.
pub open spec fn views(list: Seq<Vec<char>>) -> Seq<Seq<char>> {
    list.map_values(|v: Vec<char>| v@)
}

/// Joins the items of `list` with `sep` between neighbours.
pub fn join_chars(list: &Vec<Vec<char>>, sep: &Vec<char>) -> (r: Vec<char>)
    ensures
        r@ == join(views(list@), sep@),
{
    let mut out: Vec<char> = Vec::new();
    let mut i: usize = 0;
    while i < list.len()
        invariant
            i <= list.len(),
            out@ == join(views(list@).take(i as int), sep@),
        decreases list.len() - i,
    {
        let ghost prev = views(list@).take(i as int);
        assert(views(list@).take(i + 1).drop_last() =~= prev);
        if i > 0 {
            push_all(&mut out, sep);
        } else {
            assert(prev =~= Seq::<Seq<char>>::empty());
        }
        push_all(&mut out, &list[i]);
        i = i + 1;
    }
    assert(views(list@).take(list.len() as int) =~= views(list@));
    out
}

} // verus!

verus! {

/// An ASCII decimal digit.
pub open spec fn is_digit(c: char) -> bool {
    '0' <= c && c <= '9'
}

/// The value of an ASCII digit.
pub open spec fn digit_val(c: char) -> int {
    c as int - '0' as int
}

/// Every character of `s` is an ASCII digit.
pub open spec fn all_digits(s: Seq<char>) -> bool {
    forall|i: int| 0 <= i < s.len() ==> is_digit(#[trigger] s[i])
}

/// The number that a string of decimal digits denotes.
pub open spec fn digits_value(s: Seq<char>) -> int
    decreases s.len(),
{
    if s.len() == 0 {
        0
    } else {
        digits_value(s.drop_last()) * 10 + digit_val(s.last())
    }
}

/// The digits part of a signed decimal: `s` without a leading sign.
pub open spec fn unsigned_part(s: Seq<char>) -> Seq<char> {
    if s.len() > 0 && (s[0] == '-' || s[0] == '+') {
        s.drop_first()
    } else {
        s
    }
}

/// What `str::parse::<i64>` gives: an optional `+` or `-`, then one or more
/// ASCII digits and nothing else, denoting a value in the `i64` range.
pub open spec fn parse_i64_spec(s: Seq<char>) -> Option<i64> {
    let body = unsigned_part(s);
    let v = if s.len() > 0 && s[0] == '-' {
        -digits_value(body)
    } else {
        digits_value(body)
    };
    if body.len() == 0 || !all_digits(body) || !(i64::MIN <= v <= i64::MAX) {
        None
    } else {
        Some(v as i64)
    }
}

/// The ASCII digit for `d` (0 to 9).
pub open spec fn digit_char(d: int) -> char {
    (d + 48) as char
}

/// The decimal digits of `n`, without leading zeros.
pub open spec fn nat_digits(n: nat) -> Seq<char>
    decreases n,
{
    if n < 10 {
        seq![digit_char(n as int)]
    } else {
        nat_digits(n / 10).push(digit_char((n % 10) as int))
    }
}

/// The decimal text of `n`, as `i64::to_string` writes it.
pub open spec fn decimal(n: int) -> Seq<char> {
    if n < 0 {
        seq!['-'] + nat_digits((-n) as nat)
    } else {
        nat_digits(n as nat)
    }
}

proof fn lemma_digit_char(d: int)
    requires
        0 <= d < 10,
    ensures
        is_digit(digit_char(d)),
        digit_val(digit_char(d)) == d,
{
    assert(((d + 48) as char) as int == d + 48);
}

proof fn lemma_digits_value_nonneg(s: Seq<char>)
    requires
        all_digits(s),
    ensures
        digits_value(s) >= 0,
    decreases s.len(),
{
    if s.len() > 0 {
        assert(all_digits(s.drop_last())) by {
            assert forall|i: int| 0 <= i < s.drop_last().len() implies is_digit(
                #[trigger] s.drop_last()[i],
            ) by {
                assert(s.drop_last()[i] == s[i]);
            }
        }
        lemma_digits_value_nonneg(s.drop_last());
        assert(is_digit(s[s.len() - 1]));
    }
}

/// A longer run of digits denotes at least as much as any of its prefixes.
proof fn lemma_digits_value_prefix(s: Seq<char>, k: int)
    requires
        all_digits(s),
        0 <= k <= s.len(),
    ensures
        digits_value(s.take(k)) <= digits_value(s),
    decreases s.len(),
{
    if k < s.len() {
        assert(all_digits(s.drop_last())) by {
            assert forall|i: int| 0 <= i < s.drop_last().len() implies is_digit(
                #[trigger] s.drop_last()[i],
            ) by {
                assert(s.drop_last()[i] == s[i]);
            }
        }
        lemma_digits_value_prefix(s.drop_last(), k);
        assert(s.drop_last().take(k) =~= s.take(k));
        lemma_digits_value_nonneg(s.drop_last());
        assert(is_digit(s[s.len() - 1]));
    } else {
        assert(s.take(k) =~= s);
    }
}

proof fn lemma_nat_digits(n: nat)
    ensures
        nat_digits(n).len() > 0,
        all_digits(nat_digits(n)),
        digits_value(nat_digits(n)) == n,
    decreases n,
{
    if n < 10 {
        lemma_digit_char(n as int);
        assert(nat_digits(n).drop_last() =~= Seq::<char>::empty());
        assert(digits_value(nat_digits(n)) == digits_value(Seq::<char>::empty()) * 10 + digit_val(
            digit_char(n as int),
        ));
    } else {
        lemma_nat_digits(n / 10);
        lemma_digit_char((n % 10) as int);
        let s = nat_digits(n);
        assert(s.drop_last() =~= nat_digits(n / 10));
        assert(s.last() == digit_char((n % 10) as int));
        assert(n == (n / 10) * 10 + n % 10);
        assert forall|i: int| 0 <= i < s.len() implies is_digit(#[trigger] s[i]) by {
            if i < s.len() - 1 {
                assert(s[i] == nat_digits(n / 10)[i]);
            }
        }
    }
}

/// Reading back the decimal text of a number gives the number.
pub proof fn law_parse_decimal(n: i64)
    ensures
        parse_i64_spec(decimal(n as int)) == Some(n),
        decimal(n as int).len() > 0,
        forall|i: int| 0 <= i < decimal(n as int).len() ==> {
            let c = #[trigger] decimal(n as int)[i];
            c == '-' || is_digit(c)
        },
{
    let s = decimal(n as int);
    if n < 0 {
        lemma_nat_digits((-n) as nat);
        assert(s.drop_first() =~= nat_digits((-n) as nat));
        assert forall|i: int| 0 <= i < s.len() implies {
            let c = #[trigger] s[i];
            c == '-' || is_digit(c)
        } by {
            if i > 0 {
                assert(s[i] == nat_digits((-n) as nat)[i - 1]);
            }
        }
    } else {
        lemma_nat_digits(n as nat);
        assert(is_digit(s[0]));
    }
}

/// Parses a decimal `i64` as `str::parse::<i64>` does.
pub fn parse_i64(s: &Vec<char>) -> (r: Option<i64>)
    ensures
        r == parse_i64_spec(s@),
{
    let n = s.len();
    if n == 0 {
        return None;
    }
    let neg = s[0] == '-';
    let start: usize = if s[0] == '-' || s[0] == '+' {
        1
    } else {
        0
    };
    let ghost body = unsigned_part(s@);
    assert(body =~= s@.subrange(start as int, n as int));
    if start == n {
        return None;
    }
    let mut acc: u128 = 0;
    let mut i: usize = start;
    while i < n
        invariant
            start <= i <= n == s.len(),
            body == unsigned_part(s@),
            body == s@.subrange(start as int, n as int),
            all_digits(body.take(i - start)),
            acc == digits_value(body.take(i - start)),
            acc <= 0x8000_0000_0000_0000,
        decreases n - i,
    {
        let c = s[i];
        assert(body[i - start] == s@[i as int]);
        if !('0' <= c && c <= '9') {
            assert(!is_digit(body[i - start]));
            assert(!all_digits(body));
            return None;
        }
        let ghost k = i - start;
        assert(body.take(k + 1).drop_last() =~= body.take(k));
        assert(body.take(k + 1).last() == c);
        let d = (c as u32 - '0' as u32) as u128;
        acc = acc * 10 + d;
        i = i + 1;
        assert(acc == digits_value(body.take(i - start)));
        assert(all_digits(body.take(i - start))) by {
            assert forall|j: int| 0 <= j < body.take(i - start).len() implies is_digit(
                #[trigger] body.take(i - start)[j],
            ) by {
                if j < k {
                    assert(body.take(i - start)[j] == body.take(k)[j]);
                }
            }
        }
        if acc > 0x8000_0000_0000_0000 {
            assert(parse_i64_spec(s@) is None) by {
                if all_digits(body) {
                    lemma_digits_value_prefix(body, i - start);
                    assert(digits_value(body) > 0x8000_0000_0000_0000);
                }
            }
            return None;
        }
    }
    assert(body.take(n - start) =~= body);
    if neg {
        let v: i128 = -(acc as i128);
        Some(v as i64)
    } else if acc <= 0x7fff_ffff_ffff_ffff {
        Some(acc as i64)
    } else {
        None
    }
}

/// The ASCII digit for `d`.
fn digit_to_char(d: u64) -> (c: char)
    requires
        d < 10,
    ensures
        c == digit_char(d as int),
{
    match d {
        0 => '0',
        1 => '1',
        2 => '2',
        3 => '3',
        4 => '4',
        5 => '5',
        6 => '6',
        7 => '7',
        8 => '8',
        _ => '9',
    }
}

/// Writes `n` in decimal, as `i64::to_string` does.
pub fn format_i64(n: i64) -> (r: Vec<char>)
    ensures
        r@ == decimal(n as int),
{
    let mag: u64 = if n < 0 {
        (-(n as i128)) as u64
    } else {
        n as u64
    };
    let mut m: u64 = mag;
    let mut acc: Vec<char> = Vec::new();
    loop
        invariant_except_break
            nat_digits(mag as nat) == nat_digits(m as nat) + acc@,
        ensures
            nat_digits(mag as nat) == acc@,
        decreases m,
    {
        let c = digit_to_char(m % 10);
        let ghost before = acc@;
        acc.insert(0, c);
        assert(acc@ =~= seq![c] + before);
        if m < 10 {
            assert(m % 10 == m);
            assert(nat_digits(m as nat) =~= seq![c]);
            assert(nat_digits(mag as nat) =~= acc@);
            break;
        }
        assert(nat_digits(m as nat) =~= nat_digits((m / 10) as nat).push(c));
        m = m / 10;
    }
    if n < 0 {
        acc.insert(0, '-');
    }
    acc
}

} // verus!

verus! {

/// The pieces of `s` between occurrences of `sep`, as `str::split` gives
/// them (always at least one piece).
pub open spec fn split_on(s: Seq<char>, sep: char) -> Seq<Seq<char>>
    decreases s.len(),
{
    if s.len() == 0 {
        seq![Seq::<char>::empty()]
    } else {
        let prev = split_on(s.drop_last(), sep);
        if s.last() == sep {
            prev.push(Seq::<char>::empty())
        } else {
            prev.update(prev.len() - 1, prev.last().push(s.last()))
        }
    }
}

pub proof fn lemma_split_on_nonempty(s: Seq<char>, sep: char)
    ensures
        split_on(s, sep).len() >= 1,
    decreases s.len(),
{
    if s.len() > 0 {
        lemma_split_on_nonempty(s.drop_last(), sep);
    }
}

/// Splits `s` at every `sep`, as `str::split(sep)` does.
pub fn split_chars(s: &Vec<char>, sep: char) -> (r: Vec<Vec<char>>)
    ensures
        views(r@) == split_on(s@, sep),
{
    let mut pieces: Vec<Vec<char>> = Vec::new();
    let mut cur: Vec<char> = Vec::new();
    let mut i: usize = 0;
    assert(s@.take(0) =~= Seq::<char>::empty());
    assert(views(pieces@).push(cur@) =~= split_on(s@.take(0), sep));
    while i < s.len()
        invariant
            i <= s.len(),
            views(pieces@).push(cur@) == split_on(s@.take(i as int), sep),
        decreases s.len() - i,
    {
        let c = s[i];
        let ghost t = s@.take(i + 1);
        assert(t.drop_last() =~= s@.take(i as int));
        assert(t.last() == c);
        if c == sep {
            let ghost before = views(pieces@);
            let done = cur;
            pieces.push(done);
            cur = Vec::new();
            assert(views(pieces@) =~= before.push(done@));
            assert(views(pieces@).push(cur@) =~= split_on(t, sep));
        } else {
            let ghost before = cur@;
            cur.push(c);
            assert(views(pieces@).push(cur@) =~= views(pieces@).push(before).update(
                views(pieces@).len() as int,
                before.push(c),
            ));
        }
        i = i + 1;
    }
    assert(s@.take(s.len() as int) =~= s@);
    let ghost before = views(pieces@);
    let last = cur;
    pieces.push(last);
    assert(views(pieces@) =~= before.push(last@));
    pieces
}

/// Splitting a text made of a prefix and a tail without separators: the
/// tail extends the prefix's last piece.
proof fn lemma_split_append_plain(a: Seq<char>, b: Seq<char>, sep: char)
    requires
        forall|i: int| 0 <= i < b.len() ==> b[i] != sep,
    ensures
        split_on(a + b, sep) == split_on(a, sep).update(
            split_on(a, sep).len() - 1,
            split_on(a, sep).last() + b,
        ),
    decreases b.len(),
{
    lemma_split_on_nonempty(a, sep);
    if b.len() == 0 {
        assert(a + b =~= a);
        assert(split_on(a, sep).last() + b =~= split_on(a, sep).last());
        assert(split_on(a, sep).update(split_on(a, sep).len() - 1, split_on(a, sep).last())
            =~= split_on(a, sep));
    } else {
        let b2 = b.drop_last();
        lemma_split_append_plain(a, b2, sep);
        assert((a + b).drop_last() =~= a + b2);
        assert((a + b).last() == b.last());
        assert(b[b.len() - 1] != sep);
        let sa = split_on(a, sep);
        let prev = split_on(a + b2, sep);
        assert(prev.len() == sa.len());
        assert(prev.last() == sa.last() + b2);
        assert(sa.last() + b2 + seq![b.last()] =~= sa.last() + b);
        assert((sa.last() + b2).push(b.last()) =~= sa.last() + b);
        assert(split_on(a + b, sep) =~= split_on(a, sep).update(
            split_on(a, sep).len() - 1,
            split_on(a, sep).last() + b,
        ));
    }
}

/// Splitting the join of pieces that hold no separator gives the pieces
/// back.
pub proof fn law_split_join(list: Seq<Seq<char>>, sep: char)
    requires
        list.len() >= 1,
        forall|i: int, j: int| 0 <= i < list.len() && 0 <= j < list[i].len() ==> #[trigger] list[i][j] != sep,
    ensures
        split_on(join(list, seq![sep]), sep) == list,
    decreases list.len(),
{
    if list.len() == 1 {
        let e = Seq::<char>::empty();
        assert forall|j: int| 0 <= j < list[0].len() implies list[0][j] != sep by {
            assert(list[0][j] != sep);
        }
        lemma_split_append_plain(e, list[0], sep);
        assert(e + list[0] =~= list[0]);
        assert(split_on(e, sep) =~= seq![e]);
        assert(e + list[0] =~= list[0]);
        assert(seq![e].update(0, e + list[0]) =~= list);
    } else {
        let prefix = list.drop_last();
        assert forall|i: int, j: int| 0 <= i < prefix.len() && 0 <= j < prefix[i].len() implies #[trigger] prefix[i][j] != sep by {
            assert(prefix[i] == list[i]);
        }
        law_split_join(prefix, sep);
        let a = join(prefix, seq![sep]);
        let t = list.last();
        assert forall|j: int| 0 <= j < t.len() implies t[j] != sep by {
            assert(list[list.len() - 1][j] != sep);
        }
        let with_sep = a + seq![sep];
        assert(with_sep.drop_last() =~= a);
        assert(split_on(with_sep, sep) == prefix.push(Seq::<char>::empty()));
        lemma_split_append_plain(with_sep, t, sep);
        assert(join(list, seq![sep]) =~= with_sep + t);
        assert(Seq::<char>::empty() + t =~= t);
        assert(prefix.push(Seq::<char>::empty()).update(prefix.len() as int, t) =~= list);
    }
}

} // verus!
