use vstd::prelude::*;

use crate::error::{outcome, ChronosError, ErrorModel};
use crate::models::Timestamp;
use crate::time_text::{calendar_midnight, parse_calendar_date, parse_rfc3339, rfc3339_instant};
use crate::text::{decimal, pad_right, pad_right_spec, repeat_char, signed_decimal, truncate, i64_to_decimal, u64_to_decimal, is_truncation, opt_view};

verus! {

/// The message of the error for a date that cannot be parsed.
pub open spec fn invalid_date_message(text: Seq<char>) -> Seq<char> {
    "Invalid date format: "@ + text + ". Use YYYY-MM-DD or RFC3339."@
}

/// The date chosen from the two readings of a command-line date: the RFC 3339 one
/// when there is one, else the calendar date, else an error.
pub open spec fn chosen_date(
    text: Seq<char>,
    as_rfc3339: Option<Timestamp>,
    as_calendar_date: Option<Timestamp>,
) -> Result<Timestamp, ErrorModel> {
    match as_rfc3339 {
        Some(t) => Ok(t),
        None => match as_calendar_date {
            Some(t) => Ok(t),
            None => Err(ErrorModel::InvalidInput(invalid_date_message(text))),
        },
    }
}

/// The date denoted by a command-line argument.
pub open spec fn parsed_date(text: Seq<char>) -> Result<Timestamp, ErrorModel> {
    chosen_date(text, rfc3339_instant(text), calendar_midnight(text))
}

/// Picks the date of `text` from its two readings (RFC 3339 first, then `YYYY-MM-DD`).
pub fn choose_date(text: &str, as_rfc3339: Option<Timestamp>, as_calendar_date: Option<Timestamp>) -> (r: Result<Timestamp, ChronosError>)
    ensures
        outcome(r) == chosen_date(text@, as_rfc3339, as_calendar_date),
{
    match as_rfc3339 {
        Some(t) => Ok(t),
        None => match as_calendar_date {
            Some(t) => Ok(t),
            None => {
                let msg = String::from_str("Invalid date format: ").concat(text).concat(
                    ". Use YYYY-MM-DD or RFC3339.",
                );
                Err(ChronosError::InvalidInput(msg))
            },
        },
    }
}

/// Parses a date given on the command line: RFC 3339, or `YYYY-MM-DD` at midnight UTC.
pub fn parse_date(text: &str) -> (r: Result<Timestamp, ChronosError>)
    ensures
        outcome(r) == parsed_date(text@),
{
    let as_rfc3339 = match parse_rfc3339(text) {
        Ok(t) => Some(t),
        Err(_) => None,
    };
    let as_calendar_date = parse_calendar_date(text);
    choose_date(text, as_rfc3339, as_calendar_date)
}

/// Which logs a query asks for.
#[derive(Debug, Clone, Copy, PartialEq, Eq)]
pub enum QueryPlan {
    /// The most recent logs, newest first.
    Recent { limit: u64 },
    /// The logs stamped between `from` and `to` (both included), oldest first.
    Range { from: Timestamp, to: Timestamp, limit: u64 },
}

/// The plan of the `query` command: without dates, the most recent logs; with a
/// date, the range between `from` (default: the Unix epoch) and `to` (default: `now`).
/// A date that cannot be parsed is an error; `from` is parsed first.
pub open spec fn planned_query(
    from: Option<Seq<char>>,
    to: Option<Seq<char>>,
    limit: u64,
    now: Timestamp,
) -> Result<QueryPlan, ErrorModel> {
    if from is None && to is None {
        Ok(QueryPlan::Recent { limit })
    } else {
        let from_r: Result<Timestamp, ErrorModel> = match from {
            Some(f) => parsed_date(f),
            None => Ok(Timestamp { secs: 0, nanos: 0 }),
        };
        let to_r: Result<Timestamp, ErrorModel> = match to {
            Some(t) => parsed_date(t),
            None => Ok(now),
        };
        match from_r {
            Err(e) => Err(e),
            Ok(f) => match to_r {
                Err(e) => Err(e),
                Ok(t) => Ok(QueryPlan::Range { from: f, to: t, limit }),
            },
        }
    }
}

/// Decides which logs the `query` command fetches, given the current time `now`.
pub fn plan_query(from: Option<String>, to: Option<String>, limit: u64, now: Timestamp) -> (r: Result<QueryPlan, ChronosError>)
    ensures
        outcome(r) == planned_query(opt_view(from), opt_view(to), limit, now),
{
    if from.is_none() && to.is_none() {
        return Ok(QueryPlan::Recent { limit });
    }
    let from_t = match &from {
        Some(f) => parse_date(f.as_str())?,
        None => Timestamp::unix_epoch(),
    };
    let to_t = match &to {
        Some(t) => parse_date(t.as_str())?,
        None => now,
    };
    Ok(QueryPlan::Range { from: from_t, to: to_t, limit })
}

/// What the `query` command shows of one log.
#[derive(Debug, Clone, PartialEq, Eq)]
pub struct LogSummary {
    /// The log's timestamp, in RFC 3339.
    pub timestamp: String,
    /// The foreground application, when known.
    pub active_application: Option<String>,
    /// The summary of the screen content.
    pub description: String,
}

/// Width of the timestamp column of the query table.
pub const TIMESTAMP_COLUMN: usize = 25;

/// Width of the application column of the query table.
pub const APPLICATION_COLUMN: usize = 15;

/// Width of the rule under the header of the query table.
pub const RULE_WIDTH: usize = 80;

/// The application column's text: the name shortened to the column's width, or `Unknown`.
pub open spec fn application_cell(app: Option<Seq<char>>, cell: Seq<char>) -> bool {
    let name = match app {
        Some(a) => a,
        None => "Unknown"@,
    };
    is_truncation(name, APPLICATION_COLUMN as nat, cell)
}

/// A row of the query table: timestamp, application and description, ` | `-separated.
pub open spec fn table_row(timestamp: Seq<char>, app_cell: Seq<char>, description: Seq<char>) -> Seq<char> {
    pad_right_spec(timestamp, TIMESTAMP_COLUMN as nat) + " | "@ + pad_right_spec(
        app_cell,
        APPLICATION_COLUMN as nat,
    ) + " | "@ + description
}

/// The header of the query table.
pub open spec fn table_header() -> Seq<char> {
    pad_right_spec("Timestamp"@, TIMESTAMP_COLUMN as nat) + " | "@ + pad_right_spec(
        "Application"@,
        APPLICATION_COLUMN as nat,
    ) + " | Description"@
}

/// Whether `line` is the table row that shows `log`.
pub open spec fn row_shows(line: Seq<char>, log: LogSummary) -> bool {
    exists|cell: Seq<char>|
        application_cell(opt_view(log.active_application), cell) && line == table_row(
            log.timestamp@,
            cell,
            log.description@,
        )
}

/// Formats the table row of one log.
pub fn format_log_row(log: &LogSummary) -> (r: String)
    ensures
        row_shows(r@, *log),
{
    let app: &str = match &log.active_application {
        Some(a) => a.as_str(),
        None => "Unknown",
    };
    let cell = truncate(app, APPLICATION_COLUMN);
    let r = pad_right(log.timestamp.as_str(), TIMESTAMP_COLUMN).concat(" | ").concat(
        pad_right(cell.as_str(), APPLICATION_COLUMN).as_str(),
    ).concat(" | ").concat(log.description.as_str());
    assert(application_cell(opt_view(log.active_application), cell@));
    assert(r@ =~= table_row(log.timestamp@, cell@, log.description@));
    r
}

/// The lines printed by the `query` command for the logs found.
pub fn format_query_report(logs: &Vec<LogSummary>) -> (lines: Vec<String>)
    ensures
        logs@.len() == 0 ==> lines@.len() == 1 && lines@[0]@ == "No logs found."@,
        logs@.len() > 0 ==> {
            &&& lines@.len() == logs@.len() + 2
            &&& lines@[0]@ == table_header()
            &&& lines@[1]@ == Seq::new(RULE_WIDTH as nat, |_i: int| '-')
            &&& forall|k: int|
                2 <= k < lines@.len() ==> row_shows(#[trigger] lines@[k]@, logs@[k - 2])
        },
{
    let mut lines: Vec<String> = Vec::new();
    if logs.len() == 0 {
        lines.push(String::from_str("No logs found."));
        return lines;
    }
    let header = pad_right("Timestamp", TIMESTAMP_COLUMN).concat(" | ").concat(
        pad_right("Application", APPLICATION_COLUMN).as_str(),
    ).concat(" | Description");
    assert(header@ =~= table_header());
    lines.push(header);
    lines.push(repeat_char('-', RULE_WIDTH));
    let mut i: usize = 0;
    while i < logs.len()
        invariant
            i <= logs@.len(),
            lines@.len() == i + 2,
            lines@[0]@ == table_header(),
            lines@[1]@ == Seq::new(RULE_WIDTH as nat, |_i: int| '-'),
            forall|k: int| 2 <= k < lines@.len() ==> row_shows(#[trigger] lines@[k]@, logs@[k - 2]),
        decreases logs@.len() - i,
    {
        let row = format_log_row(&logs[i]);
        let ghost prev = lines@;
        lines.push(row);
        i = i + 1;
        assert forall|k: int| 2 <= k < lines@.len() implies row_shows(
            #[trigger] lines@[k]@,
            logs@[k - 2],
        ) by {
            if k < lines@.len() - 1 {
                assert(lines@[k] == prev[k]);
            }
        }
    }
    lines
}

/// The lines printed by the `status` command.
pub fn format_status_report(db_url: &str, log_count: i64, version: &str) -> (lines: Vec<String>)
    ensures
        lines@.len() == 4,
        lines@[0]@ == "Chronos System Status:"@,
        lines@[1]@ == "  Database: "@ + db_url@,
        lines@[2]@ == "  Total Semantic Logs: "@ + signed_decimal(log_count as int),
        lines@[3]@ == "  Version: v"@ + version@,
{
    let mut lines: Vec<String> = Vec::new();
    lines.push(String::from_str("Chronos System Status:"));
    lines.push(String::from_str("  Database: ").concat(db_url));
    lines.push(String::from_str("  Total Semantic Logs: ").concat(i64_to_decimal(log_count).as_str()));
    lines.push(String::from_str("  Version: v").concat(version));
    lines
}

/// The largest row count a query may ask the database for.
pub const MAX_QUERY_LIMIT: u64 = 9223372036854775807;

/// Converts a requested number of logs to the signed count the database takes,
/// rejecting counts beyond `i64::MAX`.
pub fn checked_limit(limit: u64) -> (r: Result<i64, ChronosError>)
    ensures
        limit <= MAX_QUERY_LIMIT ==> r == Ok::<i64, ChronosError>(limit as i64),
        limit > MAX_QUERY_LIMIT ==> outcome(r) == Err::<i64, ErrorModel>(
            ErrorModel::InvalidInput(
                "Limit "@ + decimal(limit as nat) + " is too large (max: 9223372036854775807)"@,
            ),
        ),
{
    if limit <= MAX_QUERY_LIMIT {
        Ok(limit as i64)
    } else {
        let msg = String::from_str("Limit ").concat(u64_to_decimal(limit).as_str()).concat(
            " is too large (max: 9223372036854775807)",
        );
        Err(ChronosError::InvalidInput(msg))
    }
}

/// The user's local data directory (`$XDG_DATA_HOME`, or `$HOME/.local/share` on Linux),
/// from `dirs::data_local_dir`, as text.
///
/// Nothing is claimed of the result: it depends on the environment.
#[verifier::external_body]
fn local_data_dir() -> (r: Option<String>) {
    match dirs::data_local_dir() {
        Some(path) => Some(path.to_string_lossy().into_owned()),
        None => None,
    }
}

/// `name` appended to the directory path `dir`, with one `/` between them.
pub open spec fn joined_path(dir: Seq<char>, name: Seq<char>) -> Seq<char> {
    if dir.len() == 0 || dir.last() == '/' {
        dir + name
    } else {
        dir + "/"@ + name
    }
}

/// Appends the path component `name` to the directory path `dir`.
pub fn join_path(dir: &str, name: &str) -> (r: String)
    ensures
        r@ == joined_path(dir@, name@),
{
    let n = dir.unicode_len();
    if n == 0 || dir.get_char(n - 1) == '/' {
        String::from_str(dir).concat(name)
    } else {
        String::from_str(dir).concat("/").concat(name)
    }
}

/// The directory where Chronos keeps its database, inside the local data directory.
pub fn chronos_data_dir(local_data: &str) -> (r: String)
    ensures
        r@ == joined_path(local_data@, "chronos"@),
{
    join_path(local_data, "chronos")
}

/// The URL of the database kept in the directory `dir`.
pub fn db_url_in(dir: &str) -> (r: String)
    ensures
        r@ == "sqlite://"@ + joined_path(dir@, "chronos.db"@),
{
    String::from_str("sqlite://").concat(join_path(dir, "chronos.db").as_str())
}

/// The directory where Chronos keeps its database by default: `chronos` inside the
/// user's local data directory.
pub fn default_data_dir() -> (r: Result<String, ChronosError>)
    ensures
        match r {
            Ok(dir) => exists|base: Seq<char>| dir@ == joined_path(base, "chronos"@),
            Err(e) => e@ == ErrorModel::Config("Could not find local data directory"@),
        },
{
    match local_data_dir() {
        Some(base) => Ok(chronos_data_dir(base.as_str())),
        None => Err(ChronosError::Config(String::from_str("Could not find local data directory"))),
    }
}

/// The database URL to use: the one given on the command line, else the Chronos
/// database in the default data directory.
///
/// The directory itself is created by the caller before the database is opened.
pub fn resolve_db_url(url_override: Option<String>) -> (r: Result<String, ChronosError>)
    ensures
        url_override is Some ==> r == Ok::<String, ChronosError>(url_override->0),
        url_override is None ==> match r {
            Ok(url) => exists|base: Seq<char>|
                url@ == "sqlite://"@ + joined_path(joined_path(base, "chronos"@), "chronos.db"@),
            Err(e) => e@ == ErrorModel::Config("Could not find local data directory"@),
        },
{
    match url_override {
        Some(url) => Ok(url),
        None => match default_data_dir() {
            Ok(dir) => Ok(db_url_in(dir.as_str())),
            Err(e) => Err(e),
        },
    }
}

/// The `pause` command, which this version does not offer.
pub fn handle_pause() -> (r: Result<(), ChronosError>)
    ensures
        outcome(r) == Err::<(), ErrorModel>(
            ErrorModel::Unsupported(
                "Pause command not yet implemented in v0.1. Full IPC coming in v0.2."@,
            ),
        ),
{
    Err(
        ChronosError::Unsupported(
            String::from_str("Pause command not yet implemented in v0.1. Full IPC coming in v0.2."),
        ),
    )
}

/// The `resume` command, which this version does not offer.
pub fn handle_resume() -> (r: Result<(), ChronosError>)
    ensures
        outcome(r) == Err::<(), ErrorModel>(
            ErrorModel::Unsupported(
                "Resume command not yet implemented in v0.1. Full IPC coming in v0.2."@,
            ),
        ),
{
    Err(
        ChronosError::Unsupported(
            String::from_str("Resume command not yet implemented in v0.1. Full IPC coming in v0.2."),
        ),
    )
}

/// A date on the command line is read as RFC 3339 first: when that reading gives an
/// instant, the date is exactly that instant, whatever the text would give as a
/// calendar date. Otherwise a `YYYY-MM-DD` text is midnight UTC of that day, and a
/// text that is neither is refused with the text in the message.
pub proof fn lemma_date_reading(text: Seq<char>, t: Timestamp, c: Option<Timestamp>)
    ensures
        chosen_date(text, Some(t), c) == Ok::<Timestamp, ErrorModel>(t),
        chosen_date(text, None, Some(t)) == Ok::<Timestamp, ErrorModel>(t),
        chosen_date(text, None, None) == Err::<Timestamp, ErrorModel>(
            ErrorModel::InvalidInput("Invalid date format: "@ + text + ". Use YYYY-MM-DD or RFC3339."@),
        ),
        rfc3339_instant(text) == Some(t) ==> parsed_date(text) == Ok::<Timestamp, ErrorModel>(t),
        rfc3339_instant(text) is None && calendar_midnight(text) == Some(t) ==> parsed_date(text)
            == Ok::<Timestamp, ErrorModel>(t),
{
}

/// The plan of the `query` command keeps the requested limit. Without dates it asks
/// for the most recent logs; with a date it asks for the logs between the `from` date
/// (the Unix epoch when absent) and the `to` date (`now` when absent), each being the
/// date its text reads as; a date that does not read is the error, `from` first.
pub proof fn lemma_query_plan(
    from: Option<Seq<char>>,
    to: Option<Seq<char>>,
    limit: u64,
    now: Timestamp,
)
    ensures
        from is None && to is None ==> planned_query(from, to, limit, now) == Ok::<
            QueryPlan,
            ErrorModel,
        >(QueryPlan::Recent { limit }),
        !(from is None && to is None) ==> {
            let f = match from {
                Some(x) => parsed_date(x),
                None => Ok(Timestamp { secs: 0, nanos: 0 }),
            };
            let t = match to {
                Some(y) => parsed_date(y),
                None => Ok(now),
            };
            &&& f is Ok && t is Ok ==> planned_query(from, to, limit, now) == Ok::<
                QueryPlan,
                ErrorModel,
            >(QueryPlan::Range { from: f->Ok_0, to: t->Ok_0, limit })
            &&& f matches Err(e) ==> planned_query(from, to, limit, now) == Err::<QueryPlan, ErrorModel>(e)
            &&& f is Ok ==> (t matches Err(e) ==> planned_query(from, to, limit, now) == Err::<
                QueryPlan,
                ErrorModel,
            >(e))
        },
{
}

} // verus!
