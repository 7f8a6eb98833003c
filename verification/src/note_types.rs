//! Note types, card templates and card rendering.
//!
//! A template pattern holds `{{FieldName}}` placeholders. Rendering replaces
//! each placeholder with the text of the named field of a note.

use vstd::prelude::*;

use crate::text::{chars_of, copy_range, push_all, string_from_chars, trim, trim_chars};

verus! {

/// A card template within a note type.
pub struct Template {
    pub index: i64,
    pub name: String,
    pub front_pattern: String,
    pub back_pattern: String,
}

/// A note type definition: its name, field names and card templates.
pub struct NoteType {
    pub id: i64,
    pub name: String,
    pub field_names: Vec<String>,
    pub templates: Vec<Template>,
}

/// The rendered output for a single card.
pub struct RenderedCard {
    /// The index of the template that generated this card.
    pub template_index: i64,
    /// The rendered front (question) text.
    pub front: String,
    /// The rendered back (answer) text.
    pub back: String,
}

/// One field of a note: its name and, when the stored value is a JSON
/// string, that string (`None` for any other kind of JSON value).
pub struct FieldEntry {
    pub name: String,
    pub text: Option<String>,
}

/// The fields of a note, keyed by field name.
pub struct NoteFields {
    pub entries: Vec<FieldEntry>,
}

/// The characters of an optional string.
pub open spec fn text_view(t: Option<String>) -> Option<Seq<char>> {
    match t {
        Some(s) => Some(s@),
        None => None,
    }
}

/// The abstract value of one field entry.
pub open spec fn entry_view(e: FieldEntry) -> (Seq<char>, Option<Seq<char>>) {
    (e.name@, text_view(e.text))
}

impl View for NoteFields {
    type V = Seq<(Seq<char>, Option<Seq<char>>)>;

    open spec fn view(&self) -> Seq<(Seq<char>, Option<Seq<char>>)> {
        self.entries@.map_values(|e: FieldEntry| entry_view(e))
    }
}

/// Position of the first field named `key`, searching from `i` on.
pub open spec fn find_field(fs: Seq<(Seq<char>, Option<Seq<char>>)>, key: Seq<char>, i: int) -> Option<int>
    decreases fs.len() - i,
{
    if i >= fs.len() {
        None
    } else if fs[i].0 == key {
        Some(i)
    } else {
        find_field(fs, key, i + 1)
    }
}

/// Whether a field named `key` is present.
pub open spec fn has_field(fs: Seq<(Seq<char>, Option<Seq<char>>)>, key: Seq<char>) -> bool {
    find_field(fs, key, 0) is Some
}

/// The value stored under `key`: `None` when absent, `Some(None)` when the
/// value is not a JSON string.
pub open spec fn field_value(fs: Seq<(Seq<char>, Option<Seq<char>>)>, key: Seq<char>) -> Option<
    Option<Seq<char>>,
> {
    match find_field(fs, key, 0) {
        Some(i) => Some(fs[i].1),
        None => None,
    }
}

/// The string text stored under `key`, if there is a field of that name
/// holding a JSON string.
pub open spec fn field_text(fs: Seq<(Seq<char>, Option<Seq<char>>)>, key: Seq<char>) -> Option<
    Seq<char>,
> {
    match field_value(fs, key) {
        Some(Some(t)) => Some(t),
        _ => None,
    }
}

proof fn lemma_find_field_bounds(fs: Seq<(Seq<char>, Option<Seq<char>>)>, key: Seq<char>, i: int)
    requires
        0 <= i,
    ensures
        find_field(fs, key, i) matches Some(k) ==> i <= k < fs.len() && fs[k].0 == key && forall|
            m: int,
        | i <= m < k ==> fs[m].0 != key,
        find_field(fs, key, i) is None ==> forall|k: int| i <= k < fs.len() ==> fs[k].0 != key,
    decreases fs.len() - i,
{
    if i < fs.len() && fs[i].0 != key {
        lemma_find_field_bounds(fs, key, i + 1);
    }
}

proof fn lemma_find_field_first(fs: Seq<(Seq<char>, Option<Seq<char>>)>, key: Seq<char>, i: int, k: int)
    requires
        0 <= i <= k < fs.len(),
        fs[k].0 == key,
        forall|m: int| i <= m < k ==> fs[m].0 != key,
    ensures
        find_field(fs, key, i) == Some(k),
    decreases k - i,
{
    if i < k {
        lemma_find_field_first(fs, key, i + 1, k);
    }
}

impl NoteFields {
    /// A note with no fields.
    pub fn new() -> (r: NoteFields)
        ensures
            r@ == Seq::<(Seq<char>, Option<Seq<char>>)>::empty(),
    {
        let r = NoteFields { entries: Vec::new() };
        assert(r@ =~= Seq::<(Seq<char>, Option<Seq<char>>)>::empty());
        r
    }

    /// Position of the field named `key`.
    pub fn find(&self, key: &String) -> (r: Option<usize>)
        ensures
            match r {
                Some(i) => find_field(self@, key@, 0) == Some(i as int),
                None => find_field(self@, key@, 0) is None,
            },
    {
        let mut i: usize = 0;
        while i < self.entries.len()
            invariant
                i <= self.entries.len(),
                find_field(self@, key@, 0) == find_field(self@, key@, i as int),
            decreases self.entries.len() - i,
        {
            if self.entries[i].name == *key {
                return Some(i);
            }
            i = i + 1;
        }
        None
    }

    /// Stores `text` under `name`, replacing the value of an existing field
    /// of that name.
    pub fn insert(&mut self, name: String, text: Option<String>)
        ensures
            field_value(final(self)@, name@) == Some(text_view(text)),
            forall|k: Seq<char>| k != name@ ==> field_value(final(self)@, k) == field_value(old(self)@, k),
    {
        let ghost old_view = self@;
        let ghost tv = text_view(text);
        match self.find(&name) {
            Some(i) => {
                proof {
                    lemma_find_field_bounds(old_view, name@, 0);
                }
                let ghost nm = self.entries@[i as int].name;
                self.entries.set(i, FieldEntry { name: name, text: text });
                assert(self@ =~= old_view.update(i as int, (name@, tv)));
                proof {
                    lemma_find_field_first(self@, name@, 0, i as int);
                    assert forall|k: Seq<char>| k != name@ implies field_value(self@, k)
                        == field_value(old_view, k) by {
                        lemma_find_field_bounds(old_view, k, 0);
                        lemma_find_field_bounds(self@, k, 0);
                        match find_field(old_view, k, 0) {
                            Some(m) => {
                                lemma_find_field_first(self@, k, 0, m);
                            },
                            None => {},
                        }
                    }
                }
            },
            None => {
                proof {
                    lemma_find_field_bounds(old_view, name@, 0);
                }
                let nm = name;
                self.entries.push(FieldEntry { name: nm, text: text });
                assert(self@ =~= old_view.push((name@, tv)));
                proof {
                    lemma_find_field_first(self@, name@, 0, old_view.len() as int);
                    assert forall|k: Seq<char>| k != name@ implies field_value(self@, k)
                        == field_value(old_view, k) by {
                        lemma_find_field_bounds(old_view, k, 0);
                        lemma_find_field_bounds(self@, k, 0);
                        match find_field(old_view, k, 0) {
                            Some(m) => {
                                lemma_find_field_first(self@, k, 0, m);
                            },
                            None => {},
                        }
                    }
                }
            },
        }
    }
}

} // verus!

verus! {

/// Position of the first `}}` in `s` at or after position `k`.
pub open spec fn find_close(s: Seq<char>, k: int) -> Option<int>
    decreases s.len() - k,
{
    if k + 1 >= s.len() {
        None
    } else if s[k] == '}' && s[k + 1] == '}' {
        Some(k)
    } else {
        find_close(s, k + 1)
    }
}

pub proof fn lemma_find_close_bounds(s: Seq<char>, k: int)
    ensures
        find_close(s, k) matches Some(j) ==> k <= j && j + 1 < s.len() && s[j] == '}' && s[j
            + 1] == '}',
    decreases s.len() - k,
{
    if k + 1 < s.len() && !(s[k] == '}' && s[k + 1] == '}') {
        lemma_find_close_bounds(s, k + 1);
    }
}

/// What a placeholder with body `ph` renders to: the text of the field
/// named by the trimmed body, or the body itself when there is no such
/// string field.
pub open spec fn placeholder_value(fs: Seq<(Seq<char>, Option<Seq<char>>)>, ph: Seq<char>) -> Seq<
    char,
> {
    match field_text(fs, trim(ph)) {
        Some(t) => t,
        None => ph,
    }
}

/// Rendering of the pattern `s` from position `i` on.
///
/// `{{` opens a placeholder that the next `}}` closes. An unclosed
/// placeholder is written out as `{{` followed by the rest of the pattern,
/// and then its value is appended as for a closed one.
pub open spec fn render_from(s: Seq<char>, fs: Seq<(Seq<char>, Option<Seq<char>>)>, i: int) -> Seq<
    char,
>
    decreases s.len() - i,
{
    if i < 0 || i >= s.len() {
        Seq::empty()
    } else if s[i] == '{' && i + 1 < s.len() && s[i + 1] == '{' {
        match find_close(s, i + 2) {
            Some(k) => {
                proof {
                    lemma_find_close_bounds(s, i + 2);
                }
                placeholder_value(fs, s.subrange(i + 2, k)) + render_from(s, fs, k + 2)
            },
            None => seq!['{', '{'] + s.subrange(i + 2, s.len() as int) + placeholder_value(
                fs,
                s.subrange(i + 2, s.len() as int),
            ),
        }
    } else {
        seq![s[i]] + render_from(s, fs, i + 1)
    }
}

/// The text that the pattern `s` renders to with the fields `fs`.
pub open spec fn render_spec(s: Seq<char>, fs: Seq<(Seq<char>, Option<Seq<char>>)>) -> Seq<char> {
    render_from(s, fs, 0)
}

/// The value that a placeholder body renders to.
fn placeholder_text(ph: &Vec<char>, fields: &NoteFields) -> (r: Vec<char>)
    ensures
        r@ == placeholder_value(fields@, ph@),
{
    let key = string_from_chars(&trim_chars(ph));
    proof {
        lemma_find_field_bounds(fields@, key@, 0);
    }
    match fields.find(&key) {
        Some(i) => {
            assert(fields@[i as int] == entry_view(fields.entries@[i as int]));
            match &fields.entries[i].text {
                Some(t) => chars_of(t.as_str()),
                None => copy_range(ph, 0, ph.len()),
            }
        },
        None => copy_range(ph, 0, ph.len()),
    }
}

/// Replaces the `{{FieldName}}` placeholders of `template` with the texts
/// of the named fields.
pub fn render_template(template: &str, fields: &NoteFields) -> (r: String)
    ensures
        r@ == render_spec(template@, fields@),
{
    let s = chars_of(template);
    let n = s.len();
    let ghost fs = fields@;
    let mut out: Vec<char> = Vec::new();
    let mut i: usize = 0;
    while i < n
        invariant
            i <= n == s@.len(),
            fs == fields@,
            render_spec(s@, fs) == out@ + render_from(s@, fs, i as int),
        decreases n - i,
    {
        if s[i] == '{' && i + 1 < n && s[i + 1] == '{' {
            let mut j: usize = i + 2;
            while n - j > 1 && !(s[j] == '}' && s[j + 1] == '}')
                invariant
                    i + 2 <= j <= n == s@.len(),
                    find_close(s@, i + 2) == find_close(s@, j as int),
                decreases n - j,
            {
                j = j + 1;
            }
            if n - j > 1 {
                assert(find_close(s@, j as int) == Some(j as int));
                let ph = copy_range(&s, i + 2, j);
                let v = placeholder_text(&ph, fields);
                push_all(&mut out, &v);
                i = j + 2;
            } else {
                assert(find_close(s@, j as int) is None);
                let ph = copy_range(&s, i + 2, n);
                let v = placeholder_text(&ph, fields);
                let ghost before = out@;
                out.push('{');
                out.push('{');
                push_all(&mut out, &ph);
                push_all(&mut out, &v);
                assert(out@ =~= before + (seq!['{', '{'] + ph@ + v@));
                assert(render_from(s@, fs, n as int) =~= Seq::<char>::empty());
                i = n;
            }
        } else {
            let ghost before = out@;
            out.push(s[i]);
            assert(out@ =~= before + seq![s@[i as int]]);
            i = i + 1;
        }
    }
    assert(render_from(s@, fs, n as int) =~= Seq::<char>::empty());
    string_from_chars(&out)
}

} // verus!

verus! {

/// Position of the first template with index `idx`, searching from `i` on.
pub open spec fn find_template(ts: Seq<Template>, idx: i64, i: int) -> Option<int>
    decreases ts.len() - i,
{
    if i < 0 || i >= ts.len() {
        None
    } else if ts[i].index == idx {
        Some(i)
    } else {
        find_template(ts, idx, i + 1)
    }
}

/// `card` is what template `t` renders to with the fields `fs`.
pub open spec fn renders_card(t: Template, fs: Seq<(Seq<char>, Option<Seq<char>>)>, card: RenderedCard) -> bool {
    &&& card.template_index == t.index
    &&& card.front@ == render_spec(t.front_pattern@, fs)
    &&& card.back@ == render_spec(t.back_pattern@, fs)
}

/// Renders one card from template `t`.
fn render_with(t: &Template, fields: &NoteFields) -> (r: RenderedCard)
    ensures
        renders_card(*t, fields@, r),
{
    RenderedCard {
        template_index: t.index,
        front: render_template(t.front_pattern.as_str(), fields),
        back: render_template(t.back_pattern.as_str(), fields),
    }
}

/// Renders all cards for a note by applying each template to the fields.
pub fn render_cards(templates: &[Template], fields: &NoteFields) -> (r: Vec<RenderedCard>)
    ensures
        r.len() == templates.len(),
        forall|i: int| 0 <= i < r.len() ==> renders_card(templates@[i], fields@, #[trigger] r@[i]),
{
    let mut out: Vec<RenderedCard> = Vec::new();
    let mut i: usize = 0;
    while i < templates.len()
        invariant
            i <= templates.len(),
            out.len() == i,
            forall|k: int| 0 <= k < i ==> renders_card(templates@[k], fields@, #[trigger] out@[k]),
        decreases templates.len() - i,
    {
        let c = render_with(&templates[i], fields);
        out.push(c);
        i = i + 1;
    }
    out
}

/// Renders the card of the first template whose index is `template_index`;
/// `None` when no template has that index.
pub fn render_card(templates: &[Template], template_index: i64, fields: &NoteFields) -> (r: Option<
    RenderedCard,
>)
    ensures
        match find_template(templates@, template_index, 0) {
            Some(k) => r matches Some(c) && renders_card(templates@[k], fields@, c),
            None => r is None,
        },
{
    let mut i: usize = 0;
    while i < templates.len()
        invariant
            i <= templates.len(),
            find_template(templates@, template_index, 0) == find_template(
                templates@,
                template_index,
                i as int,
            ),
        decreases templates.len() - i,
    {
        if templates[i].index == template_index {
            return Some(render_with(&templates[i], fields));
        }
        i = i + 1;
    }
    None
}

/// Names among `names` for which the note has no field, in order.
pub open spec fn missing_fields(names: Seq<Seq<char>>, fs: Seq<(Seq<char>, Option<Seq<char>>)>) -> Seq<
    Seq<char>,
>
    decreases names.len(),
{
    if names.len() == 0 {
        Seq::empty()
    } else if has_field(fs, names.last()) {
        missing_fields(names.drop_last(), fs)
    } else {
        missing_fields(names.drop_last(), fs).push(names.last())
    }
}

/// The views of a sequence of strings.
pub open spec fn string_views(names: Seq<String>) -> Seq<Seq<char>> {
    names.map_values(|s: String| s@)
}

/// Checks that the note has a field for every required field name.
///
/// On failure the message lists the missing names in order, separated by
/// `", "`.
pub fn validate_fields(field_names: &[String], fields: &NoteFields) -> (r: Result<(), String>)
    ensures
        ({
            let missing = missing_fields(string_views(field_names@), fields@);
            match r {
                Ok(()) => missing.len() == 0,
                Err(msg) => missing.len() > 0 && msg@ == "Missing required fields: "@ + crate::text::join(
                    missing,
                    ", "@,
                ),
            }
        }),
        r is Ok <==> forall|i: int|
            0 <= i < field_names.len() ==> #[trigger] has_field(fields@, field_names@[i]@),
{
    proof {
        law_validation_passes_iff_all_present(string_views(field_names@), fields@);
        assert forall|i: int| 0 <= i < field_names.len() implies string_views(field_names@)[i]
            == #[trigger] field_names@[i]@ by {}
    }
    let mut missing: Vec<Vec<char>> = Vec::new();
    let mut i: usize = 0;
    while i < field_names.len()
        invariant
            i <= field_names.len(),
            crate::text::views(missing@) == missing_fields(
                string_views(field_names@).take(i as int),
                fields@,
            ),
        decreases field_names.len() - i,
    {
        let ghost names = string_views(field_names@);
        assert(names.take(i + 1).drop_last() =~= names.take(i as int));
        assert(names.take(i + 1).last() == field_names@[i as int]@);
        let found = fields.find(&field_names[i]);
        if found.is_none() {
            let name = chars_of(field_names[i].as_str());
            let ghost before = missing@;
            missing.push(name);
            assert(crate::text::views(missing@) =~= crate::text::views(before).push(name@));
        }
        i = i + 1;
    }
    assert(string_views(field_names@).take(field_names.len() as int) =~= string_views(
        field_names@,
    ));
    if missing.len() == 0 {
        Ok(())
    } else {
        let mut msg = chars_of("Missing required fields: ");
        let sep = chars_of(", ");
        let joined = crate::text::join_chars(&missing, &sep);
        push_all(&mut msg, &joined);
        Err(string_from_chars(&msg))
    }
}

} // verus!

verus! {

proof fn lemma_render_plain_from(s: Seq<char>, fs: Seq<(Seq<char>, Option<Seq<char>>)>, i: int)
    requires
        0 <= i <= s.len(),
        forall|k: int| 0 <= k < s.len() - 1 ==> !(#[trigger] s[k] == '{' && s[k + 1] == '{'),
    ensures
        render_from(s, fs, i) == s.subrange(i, s.len() as int),
    decreases s.len() - i,
{
    if i < s.len() {
        lemma_render_plain_from(s, fs, i + 1);
        assert(seq![s[i]] + s.subrange(i + 1, s.len() as int) =~= s.subrange(i, s.len() as int));
    } else {
        assert(s.subrange(i, s.len() as int) =~= Seq::<char>::empty());
    }
}

/// A pattern in which no `{` is directly followed by another `{` renders
/// to itself, whatever the fields.
pub proof fn law_render_without_placeholders(s: Seq<char>, fs: Seq<(Seq<char>, Option<Seq<char>>)>)
    requires
        forall|k: int| 0 <= k < s.len() - 1 ==> !(#[trigger] s[k] == '{' && s[k + 1] == '{'),
    ensures
        render_spec(s, fs) == s,
{
    lemma_render_plain_from(s, fs, 0);
    assert(s.subrange(0, s.len() as int) =~= s);
}

proof fn lemma_find_close_at(s: Seq<char>, k: int, e: int)
    requires
        0 <= k <= e,
        e + 1 < s.len(),
        s[e] == '}',
        s[e + 1] == '}',
        forall|m: int| k <= m < e ==> s[m] != '}',
    ensures
        find_close(s, k) == Some(e),
    decreases e - k,
{
    if k < e {
        lemma_find_close_at(s, k + 1, e);
    }
}

proof fn lemma_find_close_shift(x: Seq<char>, y: Seq<char>, k: int)
    requires
        0 <= k,
    ensures
        find_close(x + y, x.len() + k) == match find_close(y, k) {
            Some(j) => Some(x.len() + j),
            None => None::<int>,
        },
    decreases y.len() - k,
{
    let s = x + y;
    if k + 1 < y.len() {
        assert(s[x.len() + k] == y[k] && s[x.len() + k + 1] == y[k + 1]);
        if !(y[k] == '}' && y[k + 1] == '}') {
            lemma_find_close_shift(x, y, k + 1);
        }
    }
}

/// Rendering from a position inside the second part of a pattern does not
/// depend on the part before it.
proof fn lemma_render_shift(x: Seq<char>, y: Seq<char>, fs: Seq<(Seq<char>, Option<Seq<char>>)>, j: int)
    requires
        0 <= j,
    ensures
        render_from(x + y, fs, x.len() + j) == render_from(y, fs, j),
    decreases y.len() - j,
{
    let s = x + y;
    let i = x.len() + j;
    if j < y.len() {
        assert(s[i] == y[j]);
        if j + 1 < y.len() {
            assert(s[i + 1] == y[j + 1]);
        }
        if y[j] == '{' && j + 1 < y.len() && y[j + 1] == '{' {
            lemma_find_close_shift(x, y, j + 2);
            lemma_find_close_bounds(y, j + 2);
            match find_close(y, j + 2) {
                Some(k) => {
                    assert(s.subrange(i + 2, x.len() + k) =~= y.subrange(j + 2, k));
                    lemma_render_shift(x, y, fs, k + 2);
                },
                None => {
                    assert(s.subrange(i + 2, s.len() as int) =~= y.subrange(j + 2, y.len() as int));
                },
            }
        } else {
            lemma_render_shift(x, y, fs, j + 1);
        }
    }
}

/// Text with no `{{` (and not ending in `{`) before a placeholder renders
/// to itself.
proof fn lemma_render_plain_prefix(
    a: Seq<char>,
    rest: Seq<char>,
    fs: Seq<(Seq<char>, Option<Seq<char>>)>,
    i: int,
)
    requires
        0 <= i <= a.len(),
        forall|k: int| 0 <= k < a.len() - 1 ==> !(#[trigger] a[k] == '{' && a[k + 1] == '{'),
        a.len() > 0 ==> a[a.len() - 1] != '{',
    ensures
        render_from(a + rest, fs, i) == a.subrange(i, a.len() as int) + render_from(
            a + rest,
            fs,
            a.len() as int,
        ),
    decreases a.len() - i,
{
    let s = a + rest;
    if i < a.len() {
        assert(s[i] == a[i]);
        if i + 1 < a.len() {
            assert(s[i + 1] == a[i + 1]);
        }
        lemma_render_plain_prefix(a, rest, fs, i + 1);
        assert(seq![a[i]] + a.subrange(i + 1, a.len() as int) =~= a.subrange(i, a.len() as int));
        assert(seq![a[i]] + (a.subrange(i + 1, a.len() as int) + render_from(s, fs, a.len() as int))
            =~= a.subrange(i, a.len() as int) + render_from(s, fs, a.len() as int));
    } else {
        assert(a.subrange(i, a.len() as int) + render_from(s, fs, a.len() as int) =~= render_from(
            s,
            fs,
            a.len() as int,
        ));
    }
}

/// A placeholder renders in place, wherever it stands: for a pattern
/// `a + "{{" + name + "}}" + b`, where `a` holds no `{{` and does not end
/// in `{` and `name` holds no `}`, the text is `a`, then the text of the
/// field named by the trimmed `name` (empty text included; `name` itself
/// when the note has no string field of that name), then the rendering of
/// `b`.
pub proof fn law_render_placeholder_in_place(
    a: Seq<char>,
    name: Seq<char>,
    b: Seq<char>,
    fs: Seq<(Seq<char>, Option<Seq<char>>)>,
)
    requires
        forall|k: int| 0 <= k < a.len() - 1 ==> !(#[trigger] a[k] == '{' && a[k + 1] == '{'),
        a.len() > 0 ==> a[a.len() - 1] != '{',
        forall|m: int| 0 <= m < name.len() ==> name[m] != '}',
    ensures
        render_spec(a + seq!['{', '{'] + name + seq!['}', '}'] + b, fs) == a + match field_text(
            fs,
            trim(name),
        ) {
            Some(t) => t,
            None => name,
        } + render_spec(b, fs),
{
    let mid = seq!['{', '{'] + name + seq!['}', '}'];
    let rest = mid + b;
    let p = a + mid + b;
    assert(p =~= a + rest);
    lemma_render_plain_prefix(a, rest, fs, 0);
    assert(a.subrange(0, a.len() as int) =~= a);
    lemma_render_shift(a, rest, fs, 0);
    let e: int = name.len() as int + 2;
    assert(rest[0] == '{' && rest[1] == '{');
    assert(rest[e] == '}' && rest[e + 1] == '}');
    assert forall|m: int| 2 <= m < e implies rest[m] != '}' by {
        assert(rest[m] == name[m - 2]);
    }
    lemma_find_close_at(rest, 2, e);
    assert(rest.subrange(2, e) =~= name);
    lemma_render_shift(mid, b, fs, 0);
    assert(mid.len() == e + 2);
    assert(render_from(rest, fs, 0) == placeholder_value(fs, name) + render_from(rest, fs, e + 2));
    assert(render_from(rest, fs, e + 2) == render_from(b, fs, 0));
    assert(render_from(a + rest, fs, 0) == a + render_from(a + rest, fs, a.len() as int));
    assert(render_from(a + rest, fs, a.len() as int) == render_from(rest, fs, 0));
    assert(a + seq!['{', '{'] + name + seq!['}', '}'] + b =~= a + rest);
    assert(a + placeholder_value(fs, name) + render_spec(b, fs) =~= a + (placeholder_value(fs, name)
        + render_spec(b, fs)));
}

/// A note has a field of a name exactly when one of its entries has that
/// name, and the field's value is that of the first such entry.
pub proof fn law_field_lookup(fs: Seq<(Seq<char>, Option<Seq<char>>)>, key: Seq<char>)
    ensures
        has_field(fs, key) <==> exists|i: int| 0 <= i < fs.len() && #[trigger] fs[i].0 == key,
        has_field(fs, key) ==> exists|i: int|
            0 <= i < fs.len() && #[trigger] fs[i].0 == key && field_value(fs, key) == Some(fs[i].1)
                && forall|m: int| 0 <= m < i ==> fs[m].0 != key,
        !has_field(fs, key) ==> field_value(fs, key) is None && field_text(fs, key) is None,
{
    lemma_find_field_bounds(fs, key, 0);
    if exists|i: int| 0 <= i < fs.len() && #[trigger] fs[i].0 == key {
        let i = choose|i: int| 0 <= i < fs.len() && #[trigger] fs[i].0 == key;
        assert(has_field(fs, key));
    }
    if has_field(fs, key) {
        let k = find_field(fs, key, 0)->0;
        assert(fs[k].0 == key);
    }
}

/// The missing names are exactly the required names, in order, for which
/// the note has no field at all, whatever the texts of the fields it has.
pub proof fn law_missing_fields_are_absent(
    names: Seq<Seq<char>>,
    fs: Seq<(Seq<char>, Option<Seq<char>>)>,
)
    ensures
        missing_fields(names, fs) == names.filter(|n: Seq<char>| !has_field(fs, n)),
    decreases names.len(),
{
    reveal(Seq::filter);
    if names.len() > 0 {
        law_missing_fields_are_absent(names.drop_last(), fs);
    }
}

/// Nothing is missing exactly when the note has a field, of any text, for
/// every required name; every required name without a field is reported.
pub proof fn law_validation_passes_iff_all_present(
    names: Seq<Seq<char>>,
    fs: Seq<(Seq<char>, Option<Seq<char>>)>,
)
    ensures
        missing_fields(names, fs).len() == 0 <==> forall|i: int|
            0 <= i < names.len() ==> #[trigger] has_field(fs, names[i]),
        forall|i: int|
            0 <= i < names.len() && !has_field(fs, names[i]) ==> missing_fields(
                names,
                fs,
            ).contains(#[trigger] names[i]),
        forall|n: Seq<char>| #[trigger]
            missing_fields(names, fs).contains(n) ==> names.contains(n) && !has_field(fs, n),
    decreases names.len(),
{
    if names.len() > 0 {
        let init = names.drop_last();
        law_validation_passes_iff_all_present(init, fs);
        let m0 = missing_fields(init, fs);
        let m = missing_fields(names, fs);
        assert forall|i: int| 0 <= i < names.len() && !has_field(fs, names[i]) implies m.contains(
            #[trigger] names[i],
        ) by {
            if i < init.len() {
                assert(init[i] == names[i]);
                assert(m0.contains(init[i]));
                let j = choose|j: int| 0 <= j < m0.len() && m0[j] == init[i];
                assert(m[j] == m0[j]);
            } else {
                assert(m[m.len() - 1] == names.last());
            }
        }
        assert forall|n: Seq<char>| #[trigger] m.contains(n) implies names.contains(n) && !has_field(
            fs,
            n,
        ) by {
            let j = choose|j: int| 0 <= j < m.len() && m[j] == n;
            if j < m0.len() {
                assert(m0[j] == n);
                assert(m0.contains(n));
                let k = choose|k: int| 0 <= k < init.len() && init[k] == n;
                assert(names[k] == n);
            } else {
                assert(n == names.last());
                assert(names[names.len() - 1] == n);
            }
        }
        if m.len() == 0 {
            assert forall|i: int| 0 <= i < names.len() implies #[trigger] has_field(fs, names[i]) by {
                if !has_field(fs, names[i]) {
                    assert(m.contains(names[i]));
                }
            }
        }
        if forall|i: int| 0 <= i < names.len() ==> #[trigger] has_field(fs, names[i]) {
            if m.len() > 0 {
                assert(m.contains(m[0]));
                let k = choose|k: int| 0 <= k < names.len() && names[k] == m[0];
                assert(has_field(fs, names[k]));
            }
        }
    }
}

/// A pattern made of one placeholder `{{name}}`, where `name` holds no `}`,
/// renders to the text of the field named by the trimmed `name`, or to
/// `name` itself when the note has no string field of that name.
pub proof fn law_render_single_placeholder(name: Seq<char>, fs: Seq<(Seq<char>, Option<Seq<char>>)>)
    requires
        forall|m: int| 0 <= m < name.len() ==> name[m] != '}',
    ensures
        render_spec(seq!['{', '{'] + name + seq!['}', '}'], fs) == match field_text(fs, trim(name)) {
            Some(t) => t,
            None => name,
        },
{
    let s = seq!['{', '{'] + name + seq!['}', '}'];
    let e: int = name.len() as int + 2;
    assert(s[e] == '}' && s[e + 1] == '}');
    assert forall|m: int| 2 <= m < e implies s[m] != '}' by {
        assert(s[m] == name[m - 2]);
    }
    lemma_find_close_at(s, 2, e);
    assert(s.subrange(2, e) =~= name);
    assert(render_from(s, fs, e + 2) =~= Seq::<char>::empty());
    assert(placeholder_value(fs, name) + Seq::<char>::empty() =~= placeholder_value(fs, name));
}

} // verus!

verus! {

/// The card of template `template_index`, or a placeholder card with the
/// front `(unknown)` and an empty back when the note type has no such
/// template.
pub fn render_card_or_unknown(templates: &[Template], template_index: i64, fields: &NoteFields) -> (r:
    RenderedCard)
    ensures
        match find_template(templates@, template_index, 0) {
            Some(k) => renders_card(templates@[k], fields@, r),
            None => r.template_index == template_index && r.front@ == "(unknown)"@ && r.back@
                == Seq::<char>::empty(),
        },
{
    match render_card(templates, template_index, fields) {
        Some(c) => c,
        None => RenderedCard {
            template_index: template_index,
            front: String::from_str("(unknown)"),
            back: String::new(),
        },
    }
}

} // verus!

verus! {

/// The JSON text that serde_json writes for a list of strings (an array of
/// JSON strings, escaped as serde_json escapes them).
pub uninterp spec fn json_string_list(items: Seq<Seq<char>>) -> Seq<char>;

/// What serde_json reads from a text as a list of strings: the strings, or
/// `None` when the text is not a JSON array of strings.
pub uninterp spec fn json_string_list_read(text: Seq<char>) -> Option<Seq<Seq<char>>>;

/// `serde_json::to_string` on a `Vec<String>`: the JSON array of the
/// strings, named by [`json_string_list`]. serde_json fails only for a
/// `Serialize` impl that fails or a map with non-string keys, neither of
/// which a list of strings has; its string escapes are undone by its
/// reader, so the text reads back as the same list.
#[verifier::external_body]
fn serde_string_list(names: &Vec<String>) -> (r: String)
    ensures
        r@ == json_string_list(names@.map_values(|s: String| s@)),
        json_string_list_read(r@) == Some(names@.map_values(|s: String| s@)),
{
    serde_json::to_string(names).unwrap_or_default()
}

/// `serde_json::from_str::<Vec<String>>`: reads a JSON array of strings, as
/// named by [`json_string_list_read`]; the error is serde_json's message,
/// whose text is not stated.
#[verifier::external_body]
fn serde_read_string_list(json: &str) -> (r: Result<Vec<String>, String>)
    ensures
        match r {
            Ok(v) => json_string_list_read(json@) == Some(v@.map_values(|s: String| s@)),
            Err(_) => json_string_list_read(json@) is None,
        },
{
    serde_json::from_str::<Vec<String>>(json).map_err(|e| e.to_string())
}

/// The stored form of a note type's field names: their JSON array.
pub fn field_names_json(names: &Vec<String>) -> (r: String)
    ensures
        r@ == json_string_list(string_views(names@)),
        json_string_list_read(r@) == Some(string_views(names@)),
{
    serde_string_list(names)
}

/// The message of a stored field-name list that does not read.
pub open spec fn bad_field_names_prefix() -> Seq<char> {
    "Invalid field_names JSON: "@
}

/// Reads the stored field names of a note type. A text that is not a JSON
/// array of strings is refused with `Invalid field_names JSON: ` followed
/// by serde_json's message.
pub fn parse_field_names(json: &str) -> (r: Result<Vec<String>, String>)
    ensures
        match r {
            Ok(v) => json_string_list_read(json@) == Some(string_views(v@)),
            Err(m) => json_string_list_read(json@) is None && bad_field_names_prefix().is_prefix_of(
                m@,
            ),
        },
{
    match serde_read_string_list(json) {
        Ok(v) => Ok(v),
        Err(e) => {
            let mut m = chars_of("Invalid field_names JSON: ");
            push_all(&mut m, &chars_of(e.as_str()));
            let r = string_from_chars(&m);
            assert(r@.subrange(0, bad_field_names_prefix().len() as int) =~= bad_field_names_prefix());
            Err(r)
        },
    }
}

} // verus!
