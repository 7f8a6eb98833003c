//! Checks and small computations on request bodies and query parameters.

use vstd::prelude::*;

use crate::access::{is_rejection, Rejection};
use crate::text::{chars_of, push_all, string_from_chars, trim, trim_chars};

verus! {

/// Checks the body of a new note type: a name, at least one field and at
/// least one template.
pub fn check_new_note_type(name: &str, field_count: usize, template_count: usize) -> (r: Result<
    (),
    Rejection,
>)
    ensures
        name@.len() == 0 ==> (r matches Err(e) && is_rejection(e, 400, "Name is required"@)),
        name@.len() > 0 && field_count == 0 ==> (r matches Err(e) && is_rejection(
            e,
            400,
            "At least one field is required"@,
        )),
        name@.len() > 0 && field_count > 0 && template_count == 0 ==> (r matches Err(e)
            && is_rejection(e, 400, "At least one template is required"@)),
        name@.len() > 0 && field_count > 0 && template_count > 0 ==> r is Ok,
{
    if name.is_empty() {
        return Err(Rejection { status: 400, message: "Name is required" });
    }
    if field_count == 0 {
        return Err(Rejection { status: 400, message: "At least one field is required" });
    }
    if template_count == 0 {
        return Err(Rejection { status: 400, message: "At least one template is required" });
    }
    Ok(())
}

/// Checks a new name given in an update: it may not be empty.
pub fn check_new_name(name: &str) -> (r: Result<(), Rejection>)
    ensures
        name@.len() == 0 ==> (r matches Err(e) && is_rejection(e, 400, "Name cannot be empty"@)),
        name@.len() > 0 ==> r is Ok,
{
    if name.is_empty() {
        return Err(Rejection { status: 400, message: "Name cannot be empty" });
    }
    Ok(())
}

/// Checks the name of a new deck options preset: it may not be empty.
pub fn check_preset_name(name: &str) -> (r: Result<(), Rejection>)
    ensures
        name@.len() == 0 ==> (r matches Err(e) && is_rejection(e, 400, "Name is required"@)),
        name@.len() > 0 ==> r is Ok,
{
    if name.is_empty() {
        return Err(Rejection { status: 400, message: "Name is required" });
    }
    Ok(())
}

/// Checks a replacement list given in an update: it may not be empty.
pub fn check_nonempty_update(count: usize, fields: bool) -> (r: Result<(), Rejection>)
    ensures
        count == 0 && fields ==> (r matches Err(e) && is_rejection(
            e,
            400,
            "At least one field is required"@,
        )),
        count == 0 && !fields ==> (r matches Err(e) && is_rejection(
            e,
            400,
            "At least one template is required"@,
        )),
        count > 0 ==> r is Ok,
{
    if count == 0 {
        if fields {
            return Err(Rejection { status: 400, message: "At least one field is required" });
        }
        return Err(Rejection { status: 400, message: "At least one template is required" });
    }
    Ok(())
}

/// The new due time of a rescheduled card: the absolute `due_at` if given,
/// else `days` days from `now`; a request with neither is refused.
pub fn reschedule_due(due_at: Option<i64>, days: Option<i64>, now: i64) -> (r: Result<i64, Rejection>)
    requires
        due_at is None && days is Some ==> i64::MIN <= now + days.unwrap() * 86400 <= i64::MAX
            && i64::MIN <= days.unwrap() * 86400 <= i64::MAX,
    ensures
        match (due_at, days) {
            (Some(d), _) => r == Ok::<i64, Rejection>(d),
            (None, Some(n)) => r == Ok::<i64, Rejection>((now + n * 86400) as i64),
            (None, None) => r matches Err(e) && is_rejection(
                e,
                400,
                "Provide either due_at or days"@,
            ),
        },
{
    match due_at {
        Some(d) => Ok(d),
        None => match days {
            Some(n) => Ok(now + n * 86400),
            None => Err(Rejection { status: 400, message: "Provide either due_at or days" }),
        },
    }
}

/// The LIKE pattern of a user search: `None` when the trimmed query is
/// empty (no results), else the trimmed query between `%` signs.
pub fn search_pattern(q: &str) -> (r: Option<String>)
    ensures
        trim(q@).len() == 0 ==> r is None,
        trim(q@).len() > 0 ==> (r matches Some(p) && p@ == seq!['%'] + trim(q@) + seq!['%']),
{
    let t = trim_chars(&chars_of(q));
    if t.len() == 0 {
        return None;
    }
    let mut out: Vec<char> = Vec::new();
    out.push('%');
    push_all(&mut out, &t);
    out.push('%');
    assert(out@ =~= seq!['%'] + t@ + seq!['%']);
    Some(string_from_chars(&out))
}

/// `count` SQL placeholders separated by commas: `?,?,...,?`.
pub open spec fn placeholders(count: nat) -> Seq<char>
    decreases count,
{
    if count == 0 {
        Seq::empty()
    } else if count == 1 {
        seq!['?']
    } else {
        placeholders((count - 1) as nat) + seq![',', '?']
    }
}

/// Builds the placeholder list of an `IN (...)` clause with `count` values.
pub fn build_in_clause(count: usize) -> (r: String)
    ensures
        r@ == placeholders(count as nat),
{
    let mut out: Vec<char> = Vec::new();
    let mut i: usize = 0;
    while i < count
        invariant
            i <= count,
            out@ == placeholders(i as nat),
        decreases count - i,
    {
        if i > 0 {
            out.push(',');
        }
        out.push('?');
        i = i + 1;
    }
    string_from_chars(&out)
}

/// Whether a student is already on the attention list.
pub fn already_listed(listed: &[i64], student_id: i64) -> (r: bool)
    ensures
        r == listed@.contains(student_id),
{
    let mut i: usize = 0;
    while i < listed.len()
        invariant
            i <= listed.len(),
            forall|k: int| 0 <= k < i ==> listed@[k] != student_id,
        decreases listed.len() - i,
    {
        if listed[i] == student_id {
            assert(listed@[i as int] == student_id);
            return true;
        }
        i = i + 1;
    }
    false
}

/// The stored archive flag after toggling: archived classes become active
/// and active ones archived.
pub fn toggled_archive(current: i64) -> (r: i64)
    ensures
        r == if current != 0 {
            0i64
        } else {
            1i64
        },
{
    if current != 0 {
        0
    } else {
        1
    }
}

} // verus!
