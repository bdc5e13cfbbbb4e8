//! The session: which remote database is selected and how results are shown.
use vstd::prelude::*;
use crate::batch::{collect_all, CollectState, StreamItem};
use crate::format::{format_named, QueryOutputFormat, FormatError};

verus! {

/// Failures of a session command.
#[derive(Debug)]
pub enum Error {
    /// The list of remote namespaces could not be loaded.
    LoadingRemoteState { message: String },
    /// The gathered batches could not be rendered.
    FormattingResults { source: FormatError },
    /// The requested output format is not known; the active one is kept.
    SettingFormat { requested_format: String, source: FormatError },
    /// A command line could not be understood.
    ParsingCommand { message: String },
    /// The remote query failed when submitted or while its batches streamed in.
    RunningRemoteQuery { message: String },
}

/// Where queries run.
#[derive(Debug)]
pub enum QueryEngine {
    /// Run queries against the named database on the remote server.
    Remote(String),
}

/// What a query command does in the current session state.
#[derive(Debug)]
pub enum SqlAction {
    /// No database is selected: the text is reported to the user instead of
    /// running anything.
    NoDatabase(String),
    /// Submit `sql` verbatim against the remote database `db_name`.
    Remote { db_name: String, sql: String },
}

/// The state of an interactive session: the selected database, if any, and
/// the format in which results are shown.
#[derive(Debug)]
pub struct Repl {
    /// Database against which SQL commands are run.
    pub query_engine: Option<QueryEngine>,
    /// Format used to show query results.
    pub output_format: QueryOutputFormat,
}

/// The session after `use_database(name)`.
pub open spec fn with_database(r: Repl, name: String) -> Repl {
    Repl { query_engine: Some(QueryEngine::Remote(name)), output_format: r.output_format }
}

/// The text returned by a query command while no database is selected.
pub open spec fn no_database_text() -> Seq<char> {
    "Error: no database selected"@
}

/// The character of a decimal digit.
pub open spec fn digit_char(d: nat) -> char {
    ((48 + d) as u8) as char
}

/// The decimal digits of `n`, most significant first, without leading zeros.
pub open spec fn decimal(n: nat) -> Seq<char>
    decreases n,
{
    if n < 10 {
        seq![digit_char(n)]
    } else {
        decimal(n / 10).push(digit_char(n % 10))
    }
}

/// The sum of a sequence of row counts.
pub open spec fn sum_rows(rows: Seq<usize>) -> nat
    decreases rows.len(),
{
    if rows.len() == 0 {
        0
    } else {
        sum_rows(rows.drop_last()) + rows.last() as nat
    }
}

/// How a row count is reported: `no rows`, `1 row`, `<n> rows`.
pub open spec fn summary_text(n: nat) -> Seq<char> {
    if n == 0 {
        "no rows"@
    } else if n == 1 {
        "1 row"@
    } else {
        decimal(n) + " rows"@
    }
}

/// What a query gives in session `r` when its stream hands over `items`:
/// nothing while no database is selected, else the gathered batches and the
/// state of the stream.
pub open spec fn query_outcome<B>(r: Repl, items: Seq<StreamItem<B>>) -> Option<(Seq<B>, CollectState)> {
    match r.query_engine {
        None => None,
        Some(_) => Some(collect_all(items)),
    }
}

fn digit_str(d: u128) -> (r: &'static str)
    requires
        d < 10,
    ensures
        r@ == seq![digit_char(d as nat)],
{
    proof {
        reveal_strlit("0");
        reveal_strlit("1");
        reveal_strlit("2");
        reveal_strlit("3");
        reveal_strlit("4");
        reveal_strlit("5");
        reveal_strlit("6");
        reveal_strlit("7");
        reveal_strlit("8");
        reveal_strlit("9");
    }
    let r = if d == 0 {
        "0"
    } else if d == 1 {
        "1"
    } else if d == 2 {
        "2"
    } else if d == 3 {
        "3"
    } else if d == 4 {
        "4"
    } else if d == 5 {
        "5"
    } else if d == 6 {
        "6"
    } else if d == 7 {
        "7"
    } else if d == 8 {
        "8"
    } else {
        "9"
    };
    assert(r@ =~= seq![digit_char(d as nat)]);
    r
}

/// Writes `n` in decimal.
pub fn decimal_string(n: u128) -> (r: String)
    ensures
        r@ == decimal(n as nat),
    decreases n,
{
    if n < 10 {
        String::from_str(digit_str(n))
    } else {
        let mut s = decimal_string(n / 10);
        s.append(digit_str(n % 10));
        s
    }
}

proof fn lemma_sum_rows_bound(rows: Seq<usize>)
    ensures
        sum_rows(rows) <= rows.len() * (usize::MAX as nat),
    decreases rows.len(),
{
    if rows.len() > 0 {
        lemma_sum_rows_bound(rows.drop_last());
        assert((rows.len() - 1) * (usize::MAX as nat) + usize::MAX as nat == rows.len() * (usize::MAX as nat))
            by (nonlinear_arith);
    }
}

impl Repl {
    /// A new session: no database selected, results shown as a pretty table.
    pub fn new() -> (r: Repl)
        ensures
            r.query_engine.is_none(),
            r.output_format == QueryOutputFormat::Pretty,
    {
        Repl { query_engine: None, output_format: QueryOutputFormat::Pretty }
    }

    /// Selects the remote database that later queries run against, replacing
    /// any earlier selection. Returns the message that confirms it.
    pub fn use_database(&mut self, db_name: String) -> (msg: String)
        ensures
            *final(self) == with_database(*old(self), db_name),
            msg@ == "You are now in remote mode, querying database "@ + db_name@,
    {
        proof {
            reveal_strlit("You are now in remote mode, querying database ");
        }
        let msg = String::from_str("You are now in remote mode, querying database ").concat(db_name.as_str());
        self.set_query_engine(QueryEngine::Remote(db_name));
        msg
    }

    /// Sets where queries run.
    pub fn set_query_engine(&mut self, query_engine: QueryEngine)
        ensures
            final(self).query_engine == Some(query_engine),
            final(self).output_format == old(self).output_format,
    {
        self.query_engine = Some(query_engine)
    }

    /// Sets the output format by name (`pretty`, `csv` or `json`, in any ASCII
    /// case). An unknown name leaves the session unchanged.
    pub fn set_output_format(&mut self, requested_format: &str) -> (r: Result<(), Error>)
        ensures
            match format_named(requested_format@) {
                Some(f) => r is Ok && final(self).output_format == f
                    && final(self).query_engine == old(self).query_engine,
                None => *final(self) == *old(self) && match r {
                    Err(Error::SettingFormat { requested_format: t, source: FormatError::Invalid(u) }) =>
                        t@ == requested_format@ && u@ == requested_format@,
                    _ => false,
                },
            },
    {
        match QueryOutputFormat::parse(requested_format) {
            Ok(f) => {
                self.output_format = f;
                Ok(())
            },
            Err(e) => Err(Error::SettingFormat { requested_format: String::from_str(requested_format), source: e }),
        }
    }

    /// Decides what a query command does: report that no database is
    /// selected, or submit `sql` unchanged to the selected database.
    pub fn plan_sql(&self, sql: String) -> (r: SqlAction)
        ensures
            match self.query_engine {
                None => r matches SqlAction::NoDatabase(t) && t@ == no_database_text(),
                Some(QueryEngine::Remote(db)) => r matches SqlAction::Remote { db_name, sql: s }
                    && db_name@ == db@ && s == sql,
            },
    {
        proof {
            reveal_strlit("Error: no database selected");
        }
        match &self.query_engine {
            None => SqlAction::NoDatabase(String::from_str("Error: no database selected")),
            Some(QueryEngine::Remote(db)) => SqlAction::Remote { db_name: db.clone(), sql },
        }
    }

    /// Reports the number of rows of a result, given the row count of each
    /// batch: `no rows`, `1 row`, or `<n> rows`.
    pub fn row_summary(rows: &[usize]) -> (r: String)
        ensures
            r@ == summary_text(sum_rows(rows@)),
    {
        let mut total: u128 = 0;
        let mut i: usize = 0;
        while i < rows.len()
            invariant
                i <= rows@.len(),
                total as nat == sum_rows(rows@.subrange(0, i as int)),
            decreases rows@.len() - i,
        {
            let ghost prefix = rows@.subrange(0, i as int);
            proof {
                lemma_sum_rows_bound(prefix);
                assert(prefix.len() * (usize::MAX as nat) <= (usize::MAX as nat) * (usize::MAX as nat))
                    by (nonlinear_arith)
                    requires
                        prefix.len() <= usize::MAX,
                ;
                assert(rows@.subrange(0, i + 1).drop_last() =~= prefix);
            }
            total = total + rows[i] as u128;
            i = i + 1;
        }
        assert(rows@.subrange(0, i as int) =~= rows@);
        proof {
            reveal_strlit("no rows");
            reveal_strlit("1 row");
            reveal_strlit(" rows");
        }
        if total > 1 {
            decimal_string(total).concat(" rows")
        } else if total == 0 {
            String::from_str("no rows")
        } else {
            String::from_str("1 row")
        }
    }
}

/// Selecting the same database twice leaves the session as selecting it once.
pub proof fn lemma_use_database_idempotent(r: Repl, name: String)
    ensures
        with_database(with_database(r, name), name) == with_database(r, name),
{
}

/// A failed query leaves the session as it was: a later query in the same
/// session whose stream delivers batches and ends gives exactly those batches.
pub proof fn lemma_failure_isolated<B>(r: Repl, failed: Seq<StreamItem<B>>, bs: Seq<B>)
    requires
        r.query_engine is Some,
        query_outcome(r, failed) matches Some((_, CollectState::Failed(_))),
    ensures
        query_outcome(r, crate::batch::delivered(bs)) == Some((bs, CollectState::Ended)),
{
    crate::batch::lemma_order_kept(bs);
}

} // verus!
