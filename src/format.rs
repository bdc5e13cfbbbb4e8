//! Output formats for query results.
use vstd::prelude::*;

verus! {

/// How the batches of a query result are rendered as text.
#[derive(Debug, Clone, Copy, PartialEq, Eq, Structural)]
pub enum QueryOutputFormat {
    /// A boxed table for a terminal.
    Pretty,
    /// A header line of column names, then one comma separated line per row.
    Csv,
    /// A JSON array with one object per row.
    Json,
}

/// Errors of choosing or applying an output format.
#[derive(Debug)]
pub enum FormatError {
    /// The requested name is not one of the known formats.
    Invalid(String),
    /// The batches could not be rendered in the chosen format.
    Render { message: String },
}

/// ASCII lower case of one character; other characters are unchanged.
pub open spec fn ascii_lower(c: char) -> char {
    if 'A' <= c && c <= 'Z' {
        (((c as u8) + 32) as u8) as char
    } else {
        c
    }
}

/// Whether `s` equals `name` when ASCII letters are compared without case.
pub open spec fn equal_ignoring_ascii_case(s: Seq<char>, name: Seq<char>) -> bool {
    s.len() == name.len() && forall|i: int|
        0 <= i < s.len() ==> #[trigger] ascii_lower(s[i]) == ascii_lower(name[i])
}

/// The format that a user-supplied name selects, if any.
pub open spec fn format_named(s: Seq<char>) -> Option<QueryOutputFormat> {
    if equal_ignoring_ascii_case(s, "pretty"@) {
        Some(QueryOutputFormat::Pretty)
    } else if equal_ignoring_ascii_case(s, "csv"@) {
        Some(QueryOutputFormat::Csv)
    } else if equal_ignoring_ascii_case(s, "json"@) {
        Some(QueryOutputFormat::Json)
    } else {
        None
    }
}

fn lower_char(c: char) -> (r: char)
    ensures
        r == ascii_lower(c),
{
    if 'A' <= c && c <= 'Z' {
        (((c as u8) + 32) as u8) as char
    } else {
        c
    }
}

fn eq_ignore_ascii_case(s: &str, name: &str) -> (r: bool)
    ensures
        r == equal_ignoring_ascii_case(s@, name@),
{
    let n = s.unicode_len();
    if n != name.unicode_len() {
        return false;
    }
    let mut i: usize = 0;
    while i < n
        invariant
            n == s@.len(),
            n == name@.len(),
            i <= n,
            forall|j: int| 0 <= j < i ==> #[trigger] ascii_lower(s@[j]) == ascii_lower(name@[j]),
        decreases n - i,
    {
        if lower_char(s.get_char(i)) != lower_char(name.get_char(i)) {
            return false;
        }
        i = i + 1;
    }
    true
}

/// The lower case name of a format.
pub open spec fn format_name(f: QueryOutputFormat) -> Seq<char> {
    match f {
        QueryOutputFormat::Pretty => "pretty"@,
        QueryOutputFormat::Csv => "csv"@,
        QueryOutputFormat::Json => "json"@,
    }
}

/// Format names are matched without regard to ASCII case: two names that
/// differ only in the case of ASCII letters select the same format, or none.
pub proof fn lemma_format_names_ignore_case(s: Seq<char>, t: Seq<char>)
    requires
        equal_ignoring_ascii_case(s, t),
    ensures
        format_named(s) == format_named(t),
{
    assert forall|name: Seq<char>| equal_ignoring_ascii_case(s, name) == equal_ignoring_ascii_case(t, name) by {
        if s.len() == name.len() {
            assert forall|i: int| 0 <= i < s.len() implies (ascii_lower(s[i]) == ascii_lower(name[i])
                <==> ascii_lower(t[i]) == ascii_lower(name[i])) by {
                assert(ascii_lower(s[i]) == ascii_lower(t[i]));
            }
        }
    }
}

/// Each format's own name, in any ASCII case, selects it.
pub proof fn lemma_format_name_selects(f: QueryOutputFormat)
    ensures
        format_named(format_name(f)) == Some(f),
{
    reveal_strlit("pretty");
    reveal_strlit("csv");
    reveal_strlit("json");
}

impl QueryOutputFormat {
    /// The lower case name of the format.
    pub fn name(&self) -> (r: &'static str)
        ensures
            r@ == format_name(*self),
    {
        match self {
            QueryOutputFormat::Pretty => "pretty",
            QueryOutputFormat::Csv => "csv",
            QueryOutputFormat::Json => "json",
        }
    }

    /// Selects a format by name, ignoring ASCII case: `pretty`, `csv` or `json`.
    pub fn parse(s: &str) -> (r: Result<QueryOutputFormat, FormatError>)
        ensures
            match r {
                Ok(f) => format_named(s@) == Some(f),
                Err(FormatError::Invalid(t)) => format_named(s@).is_none() && t@ == s@,
                Err(FormatError::Render { .. }) => false,
            },
    {
        proof {
            reveal_strlit("pretty");
            reveal_strlit("csv");
            reveal_strlit("json");
        }
        if eq_ignore_ascii_case(s, "pretty") {
            Ok(QueryOutputFormat::Pretty)
        } else if eq_ignore_ascii_case(s, "csv") {
            Ok(QueryOutputFormat::Csv)
        } else if eq_ignore_ascii_case(s, "json") {
            Ok(QueryOutputFormat::Json)
        } else {
            Err(FormatError::Invalid(String::from_str(s)))
        }
    }
}

} // verus!
