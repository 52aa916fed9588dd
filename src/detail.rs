//! Reading which column a uniqueness conflict was on out of the data store's
//! detail text, whose shape is `Key (<column>)=(<value>) already exists.`

use vstd::prelude::*;

verus! {

/// The first index at or after `i` that holds a closing parenthesis, or the
/// length of `s` when there is none.
pub open spec fn close_from(s: Seq<char>, i: int) -> int
    decreases s.len() - i,
{
    if i < 0 || i >= s.len() {
        s.len() as int
    } else if s[i] == ')' {
        i
    } else {
        close_from(s, i + 1)
    }
}

/// Where the column token of `s` ends: the first `)` after the opening `Key (`.
pub open spec fn column_end(s: Seq<char>) -> int {
    close_from(s, 5)
}

/// Whether `s` opens with `Key (`, followed by a non-empty column and its `)`.
pub open spec fn has_column(s: Seq<char>) -> bool {
    &&& s.len() >= 5
    &&& s.subrange(0, 5) == "Key ("@
    &&& 5 < column_end(s) < s.len()
}

/// Whether the column's `)` is followed by `=(`, a value (empty or not), and the
/// closing `) already exists.`.
pub open spec fn has_value(s: Seq<char>) -> bool {
    let e = column_end(s);
    &&& s.len() >= e + 20
    &&& s.subrange(e + 1, e + 3) == "=("@
    &&& s.subrange(s.len() - 17, s.len() as int) == ") already exists."@
}

/// The column and, where it can be read, the value that a detail text names.
pub open spec fn hint_of(s: Seq<char>) -> Option<(Seq<char>, Option<Seq<char>>)> {
    if !has_column(s) {
        None
    } else if has_value(s) {
        Some(
            (
                s.subrange(5, column_end(s)),
                Some(s.subrange(column_end(s) + 3, s.len() - 17)),
            ),
        )
    } else {
        Some((s.subrange(5, column_end(s)), None))
    }
}

/// What a uniqueness conflict's detail text tells: the offending column and,
/// where present, the clashing value.
#[derive(Clone, Debug)]
pub struct ConstraintHint {
    pub column: String,
    pub value: Option<String>,
}

impl ConstraintHint {
    /// The column and optional value as character sequences.
    pub open spec fn view_pair(self) -> (Seq<char>, Option<Seq<char>>) {
        (
            self.column@,
            match self.value {
                Some(v) => Some(v@),
                None => None,
            },
        )
    }
}

/// Whether `s[from..from + t.len()]` is the text `t`.
fn text_at(s: &str, n: usize, from: usize, t: &str) -> (r: bool)
    requires
        n == s@.len(),
        from <= n,
    ensures
        r == (from + t@.len() <= n && s@.subrange(from as int, from + t@.len()) == t@),
{
    let m = t.unicode_len();
    if m > n - from {
        return false;
    }
    let part = String::from_str(s.substring_char(from, from + m));
    part == String::from_str(t)
}

/// The first index at or after `i` that holds `)`, or `n` when there is none.
fn find_close(s: &str, n: usize, i: usize) -> (r: usize)
    requires
        n == s@.len(),
        i <= n,
    ensures
        r == close_from(s@, i as int),
        i <= r <= n,
{
    let mut j = i;
    while j < n
        invariant
            n == s@.len(),
            i <= j <= n,
            close_from(s@, i as int) == close_from(s@, j as int),
        decreases n - j,
    {
        if s.get_char(j) == ')' {
            return j;
        }
        j = j + 1;
    }
    j
}

/// Reads the column and value out of a uniqueness conflict's detail text;
/// `None` when the text does not have the expected shape.
pub fn constraint_hint(detail: &str) -> (r: Option<ConstraintHint>)
    ensures
        match r {
            Some(h) => hint_of(detail@) == Some(h.view_pair()),
            None => hint_of(detail@) is None,
        },
{
    proof {
        reveal_strlit("Key (");
        reveal_strlit("=(");
        reveal_strlit(") already exists.");
    }
    let n = detail.unicode_len();
    if !text_at(detail, n, 0, "Key (") {
        return None;
    }
    let e = find_close(detail, n, 5);
    if e == 5 || e >= n {
        return None;
    }
    let column = String::from_str(detail.substring_char(5, e));
    if n - e >= 20 && text_at(detail, n, e + 1, "=(") && text_at(detail, n, n - 17, ") already exists.") {
        let value = String::from_str(detail.substring_char(e + 3, n - 17));
        Some(ConstraintHint { column, value: Some(value) })
    } else {
        Some(ConstraintHint { column, value: None })
    }
}

} // verus!
