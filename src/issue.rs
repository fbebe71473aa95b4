use vstd::prelude::*;

use crate::text::{caseless_eq, eq_ignore_ascii_case};

verus! {

/// The value of a custom field, as the tracker reports it.
#[derive(Clone, Debug)]
pub enum FieldValue {
    /// An object carrying a `name` (an enum-like value such as a state).
    Named(String),
    /// A plain text value.
    Scalar(String),
    /// No value, or one of another shape.
    Absent,
}

/// A custom field of an issue.
#[derive(Clone, Debug)]
pub struct CustomField {
    pub name: String,
    pub value: FieldValue,
}

/// An issue of the tracker.
#[derive(Clone, Debug)]
pub struct Issue {
    pub id_readable: String,
    pub summary: String,
    pub description: Option<String>,
    pub custom_fields: Vec<CustomField>,
}

/// The text that a field value resolves to.
pub open spec fn value_text(v: FieldValue) -> Option<Seq<char>> {
    match v {
        FieldValue::Named(n) => Some(n@),
        FieldValue::Scalar(s) => Some(s@),
        FieldValue::Absent => None,
    }
}

/// The first index from `i` on of a field named `name`, ignoring case.
pub open spec fn field_from(fields: Seq<CustomField>, name: Seq<char>, i: int) -> Option<int>
    decreases fields.len() - i,
{
    if i < 0 || i >= fields.len() {
        None
    } else if caseless_eq(fields[i].name@, name) {
        Some(i)
    } else {
        field_from(fields, name, i + 1)
    }
}

/// The resolved value of the first field of `issue` named `field`.
pub open spec fn state_value(issue: Issue, field: Seq<char>) -> Option<Seq<char>> {
    match field_from(issue.custom_fields@, field, 0) {
        Some(k) => value_text(issue.custom_fields@[k].value),
        None => None,
    }
}

/// `issue` counts as open: its state value equals `open` up to ASCII case.
pub open spec fn issue_is_open(issue: Issue, field: Seq<char>, open: Seq<char>) -> bool {
    match state_value(issue, field) {
        Some(v) => caseless_eq(v, open),
        None => false,
    }
}

/// The open issues among `issues`, in their order.
pub open spec fn open_issues_of(issues: Seq<Issue>, field: Seq<char>, open: Seq<char>) -> Seq<
    Issue,
>
    decreases issues.len(),
{
    if issues.len() == 0 {
        seq![]
    } else {
        let rest = open_issues_of(issues.drop_last(), field, open);
        if issue_is_open(issues.last(), field, open) {
            rest.push(issues.last())
        } else {
            rest
        }
    }
}

fn value_of(v: &FieldValue) -> (r: Option<String>)
    ensures
        match r {
            Some(s) => value_text(*v) == Some(s@),
            None => value_text(*v) is None,
        },
{
    match v {
        FieldValue::Named(n) => Some(n.clone()),
        FieldValue::Scalar(s) => Some(s.clone()),
        FieldValue::Absent => None,
    }
}

/// The value of the first custom field named `state_field` (ignoring case):
/// the `name` of an object value, else a text value.
pub fn youtrack_state_value(issue: &Issue, state_field: &str) -> (r: Option<String>)
    ensures
        match r {
            Some(s) => state_value(*issue, state_field@) == Some(s@),
            None => state_value(*issue, state_field@) is None,
        },
{
    let n = issue.custom_fields.len();
    let mut i: usize = 0;
    while i < n
        invariant
            n == issue.custom_fields@.len(),
            i <= n,
            field_from(issue.custom_fields@, state_field@, 0) == field_from(
                issue.custom_fields@,
                state_field@,
                i as int,
            ),
        decreases n - i,
    {
        if eq_ignore_ascii_case(issue.custom_fields[i].name.as_str(), state_field) {
            return value_of(&issue.custom_fields[i].value);
        }
        i = i + 1;
    }
    None
}

/// Whether `issue` is open: its state field's value equals `open_value`,
/// both the field name and the value compared ignoring ASCII case. An issue
/// without the field is not open.
pub fn is_open_issue(issue: &Issue, state_field: &str, open_value: &str) -> (r: bool)
    ensures
        r == issue_is_open(*issue, state_field@, open_value@),
{
    match youtrack_state_value(issue, state_field) {
        Some(v) => eq_ignore_ascii_case(v.as_str(), open_value),
        None => false,
    }
}

/// Keeps the open issues, in their order.
pub fn select_open_issues(issues: Vec<Issue>, state_field: &str, open_value: &str) -> (r: Vec<
    Issue,
>)
    ensures
        r@ == open_issues_of(issues@, state_field@, open_value@),
{
    let ghost all = issues@;
    let total: usize = issues.len();
    let mut rest = issues;
    let mut kept: Vec<Issue> = Vec::new();
    let mut i: usize = 0;
    while rest.len() > 0
        invariant
            i <= all.len(),
            all.len() == total,
            rest@ == all.skip(i as int),
            kept@ == open_issues_of(all.take(i as int), state_field@, open_value@),
        decreases rest.len(),
    {
        let issue = rest.remove(0);
        proof {
            assert(all.take(i + 1).drop_last() =~= all.take(i as int));
            assert(rest@ =~= all.skip(i + 1));
        }
        if is_open_issue(&issue, state_field, open_value) {
            kept.push(issue);
        }
        i = i + 1;
    }
    proof {
        assert(all.take(i as int) =~= all);
    }
    kept
}

} // verus!
