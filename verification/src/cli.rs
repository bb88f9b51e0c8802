use vstd::prelude::*;

use crate::error::{ChronosError, ErrorModel};
use crate::text::{decimal, digits_value, lemma_decimal_digits_value, opt_view, parse_u64, starts_with, str_equals, u64_text_error, u64_text_value};

verus! {

/// The subcommands of the `chronos` command line.
#[derive(Debug, Clone, PartialEq, Eq)]
pub enum Commands {
    /// Start the background capture daemon.
    Start,
    /// Query the semantic logs stored in the database.
    Query {
        /// Only logs from this date/time on (YYYY-MM-DD or RFC 3339).
        from: Option<String>,
        /// Only logs up to this date/time (YYYY-MM-DD or RFC 3339).
        to: Option<String>,
        /// Most results to return (default 10).
        limit: u64,
    },
    /// Show the system status, database location and log statistics.
    Status,
    /// Pause the screen capture loop.
    Pause,
    /// Resume the screen capture loop.
    Resume,
}

/// The parsed `chronos` command line.
#[derive(Debug, Clone, PartialEq, Eq)]
pub struct Cli {
    /// Overrides the default database URL (e.g. `sqlite::memory:`).
    pub db_url: Option<String>,
    /// The command to execute.
    pub command: Commands,
}

/// The content of a subcommand.
pub enum CommandModel {
    Start,
    Query { from: Option<Seq<char>>, to: Option<Seq<char>>, limit: u64 },
    Status,
    Pause,
    Resume,
}

/// The content of a parsed command line.
pub struct CliModel {
    pub db_url: Option<Seq<char>>,
    pub command: CommandModel,
}

impl View for Cli {
    type V = CliModel;

    open spec fn view(&self) -> CliModel {
        CliModel {
            db_url: opt_view(self.db_url),
            command: match self.command {
                Commands::Start => CommandModel::Start,
                Commands::Query { from, to, limit } => CommandModel::Query {
                    from: opt_view(from),
                    to: opt_view(to),
                    limit,
                },
                Commands::Status => CommandModel::Status,
                Commands::Pause => CommandModel::Pause,
                Commands::Resume => CommandModel::Resume,
            },
        }
    }
}

/// A request for the program's help text or its version, in place of a command.
#[derive(Debug, Clone, Copy, PartialEq, Eq)]
pub enum InfoRequest {
    /// `--help`, `-h` or the `help` subcommand.
    Help,
    /// `--version` or `-V`, before any subcommand.
    Version,
}

/// What a command line asks for: a command to run, or the help text or version.
#[derive(Debug, Clone, PartialEq, Eq)]
pub enum Invocation {
    /// Run this command.
    Run(Cli),
    /// Print the help text or the version.
    Show(InfoRequest),
}

/// The content of an invocation.
pub enum InvocationModel {
    Run(CliModel),
    Show(InfoRequest),
}

impl View for Invocation {
    type V = InvocationModel;

    open spec fn view(&self) -> InvocationModel {
        match self {
            Invocation::Run(c) => InvocationModel::Run(c@),
            Invocation::Show(k) => InvocationModel::Show(*k),
        }
    }
}

/// The name of a subcommand on the command line.
#[derive(Debug, Clone, Copy, PartialEq, Eq)]
pub enum Subcommand {
    Start,
    Query,
    Status,
    Pause,
    Resume,
}

/// The options that take a value.
#[derive(Debug, Clone, Copy, PartialEq, Eq)]
pub enum OptionSlot {
    DbUrl,
    From,
    To,
    Limit,
}

/// The flag of an option.
pub open spec fn slot_flag(slot: OptionSlot) -> Seq<char> {
    match slot {
        OptionSlot::DbUrl => "--db-url"@,
        OptionSlot::From => "--from"@,
        OptionSlot::To => "--to"@,
        OptionSlot::Limit => "--limit"@,
    }
}

/// How an option is named in error messages.
pub open spec fn slot_display(slot: OptionSlot) -> Seq<char> {
    match slot {
        OptionSlot::DbUrl => "--db-url <DB_URL>"@,
        OptionSlot::From => "--from <FROM>"@,
        OptionSlot::To => "--to <TO>"@,
        OptionSlot::Limit => "--limit <LIMIT>"@,
    }
}

/// What has been read of the command line so far.
pub struct ScanModel {
    pub db_url: Option<Seq<char>>,
    pub subcommand: Option<Subcommand>,
    pub from: Option<Seq<char>>,
    pub to: Option<Seq<char>>,
    pub limit: Option<Seq<char>>,
    pub request: Option<InfoRequest>,
    /// Whether `--` was met: everything after it is a positional argument.
    pub escaped: bool,
}

/// Nothing read yet.
pub open spec fn scan_start() -> ScanModel {
    ScanModel {
        db_url: None,
        subcommand: None,
        from: None,
        to: None,
        limit: None,
        request: None,
        escaped: false,
    }
}

/// The value given so far for an option.
pub open spec fn slot_value(st: ScanModel, slot: OptionSlot) -> Option<Seq<char>> {
    match slot {
        OptionSlot::DbUrl => st.db_url,
        OptionSlot::From => st.from,
        OptionSlot::To => st.to,
        OptionSlot::Limit => st.limit,
    }
}

/// `st` with the value of an option set.
pub open spec fn with_slot(st: ScanModel, slot: OptionSlot, v: Seq<char>) -> ScanModel {
    match slot {
        OptionSlot::DbUrl => ScanModel { db_url: Some(v), ..st },
        OptionSlot::From => ScanModel { from: Some(v), ..st },
        OptionSlot::To => ScanModel { to: Some(v), ..st },
        OptionSlot::Limit => ScanModel { limit: Some(v), ..st },
    }
}

/// Whether an option may be given at this point: `--db-url` anywhere, the others
/// after the `query` subcommand.
pub open spec fn slot_available(st: ScanModel, slot: OptionSlot) -> bool {
    slot is DbUrl || st.subcommand == Some(Subcommand::Query)
}

/// Whether a token looks like a flag: a `-` followed by something.
pub open spec fn flag_like(tok: Seq<char>) -> bool {
    tok.len() >= 2 && tok[0] == '-'
}

/// The option a token names, with the value given inline after `=`, if any.
pub open spec fn token_option(tok: Seq<char>, slot: OptionSlot) -> Option<Option<Seq<char>>> {
    let flag = slot_flag(slot);
    if tok == flag {
        Some(None)
    } else if tok.len() > flag.len() && tok.take(flag.len() as int) == flag && tok[flag.len() as int]
        == '=' {
        Some(Some(tok.skip(flag.len() as int + 1)))
    } else {
        None
    }
}

/// The subcommand a token names.
pub open spec fn subcommand_named(tok: Seq<char>) -> Option<Subcommand> {
    if tok == "start"@ {
        Some(Subcommand::Start)
    } else if tok == "query"@ {
        Some(Subcommand::Query)
    } else if tok == "status"@ {
        Some(Subcommand::Status)
    } else if tok == "pause"@ {
        Some(Subcommand::Pause)
    } else if tok == "resume"@ {
        Some(Subcommand::Resume)
    } else {
        None
    }
}

/// Reads the value of an option named by `args[i]` (inline, or the next token).
/// On success: whether the next token was used, and the new state.
pub open spec fn read_option(
    args: Seq<Seq<char>>,
    i: int,
    st: ScanModel,
    slot: OptionSlot,
    inline: Option<Seq<char>>,
) -> Result<(bool, ScanModel), Seq<char>> {
    if slot_value(st, slot) is Some {
        Err("the argument '"@ + slot_display(slot) + "' cannot be used multiple times"@)
    } else {
        match inline {
            Some(v) => Ok((false, with_slot(st, slot, v))),
            None => if i + 1 < args.len() && !flag_like(args[i + 1]) {
                Ok((true, with_slot(st, slot, args[i + 1])))
            } else {
                Err(
                    "a value is required for '"@ + slot_display(slot)
                        + "' but none was supplied"@,
                )
            },
        }
    }
}

/// Reads the token `args[i]`: whether it also used the next token, and the new state.
pub open spec fn scan_step(args: Seq<Seq<char>>, i: int, st: ScanModel) -> Result<
    (bool, ScanModel),
    Seq<char>,
> {
    let tok = args[i];
    if st.escaped {
        Err("unexpected argument '"@ + tok + "' found"@)
    } else if tok == "--"@ {
        Ok((false, ScanModel { escaped: true, ..st }))
    } else if token_option(tok, OptionSlot::DbUrl) is Some {
        read_option(args, i, st, OptionSlot::DbUrl, token_option(tok, OptionSlot::DbUrl)->0)
    } else if slot_available(st, OptionSlot::From) && token_option(tok, OptionSlot::From) is Some {
        read_option(args, i, st, OptionSlot::From, token_option(tok, OptionSlot::From)->0)
    } else if slot_available(st, OptionSlot::To) && token_option(tok, OptionSlot::To) is Some {
        read_option(args, i, st, OptionSlot::To, token_option(tok, OptionSlot::To)->0)
    } else if slot_available(st, OptionSlot::Limit) && token_option(tok, OptionSlot::Limit) is Some {
        read_option(args, i, st, OptionSlot::Limit, token_option(tok, OptionSlot::Limit)->0)
    } else if tok == "--help"@ || tok == "-h"@ {
        Ok((false, ScanModel { request: Some(InfoRequest::Help), ..st }))
    } else if st.subcommand is None && (tok == "--version"@ || tok == "-V"@) {
        Ok((false, ScanModel { request: Some(InfoRequest::Version), ..st }))
    } else if flag_like(tok) || st.subcommand is Some {
        Err("unexpected argument '"@ + tok + "' found"@)
    } else {
        match subcommand_named(tok) {
            Some(c) => Ok((false, ScanModel { subcommand: Some(c), ..st })),
            None => if tok == "help"@ {
                Ok((false, ScanModel { request: Some(InfoRequest::Help), ..st }))
            } else {
                Err("unrecognized subcommand '"@ + tok + "'"@)
            },
        }
    }
}

/// Reads the tokens from `args[i]` on, stopping at a request for help or the version.
pub open spec fn scan(args: Seq<Seq<char>>, i: int, st: ScanModel) -> Result<ScanModel, Seq<char>>
    decreases args.len() - i,
{
    if i >= args.len() || i < 0 || st.request is Some {
        Ok(st)
    } else {
        match scan_step(args, i, st) {
            Ok((used_next, next)) => scan(args, i + if used_next { 2int } else { 1int }, next),
            Err(m) => Err(m),
        }
    }
}

/// The command line made of what was read.
pub open spec fn finish(st: ScanModel) -> Result<CliModel, Seq<char>> {
    match st.subcommand {
        None => Err("a subcommand is required but one was not provided"@),
        Some(Subcommand::Query) => match st.limit {
            None => Ok(
                CliModel {
                    db_url: st.db_url,
                    command: CommandModel::Query { from: st.from, to: st.to, limit: 10 },
                },
            ),
            Some(v) => match u64_text_value(v) {
                Some(n) => Ok(
                    CliModel {
                        db_url: st.db_url,
                        command: CommandModel::Query { from: st.from, to: st.to, limit: n },
                    },
                ),
                None => Err(
                    "invalid value '"@ + v + "' for '--limit <LIMIT>': "@ + u64_text_error(v),
                ),
            },
        },
        Some(Subcommand::Start) => Ok(CliModel { db_url: st.db_url, command: CommandModel::Start }),
        Some(Subcommand::Status) => Ok(CliModel { db_url: st.db_url, command: CommandModel::Status }),
        Some(Subcommand::Pause) => Ok(CliModel { db_url: st.db_url, command: CommandModel::Pause }),
        Some(Subcommand::Resume) => Ok(CliModel { db_url: st.db_url, command: CommandModel::Resume }),
    }
}

/// What was read asks for: the help text or version when requested, else the command.
pub open spec fn finish_invocation(st: ScanModel) -> Result<InvocationModel, Seq<char>> {
    match st.request {
        Some(k) => Ok(InvocationModel::Show(k)),
        None => match finish(st) {
            Ok(c) => Ok(InvocationModel::Run(c)),
            Err(m) => Err(m),
        },
    }
}

/// What the arguments `args` ask for; the first argument is the program's name.
pub open spec fn parsed_invocation(args: Seq<Seq<char>>) -> Result<InvocationModel, Seq<char>> {
    match scan(args, 1, scan_start()) {
        Ok(st) => finish_invocation(st),
        Err(m) => Err(m),
    }
}

/// The message that reports a request for help or the version where a command was wanted.
pub open spec fn request_message(k: InfoRequest) -> Seq<char> {
    match k {
        InfoRequest::Help => "the help text was requested"@,
        InfoRequest::Version => "the version was requested"@,
    }
}

/// The command line denoted by `args`, whose first element is the program's name.
pub open spec fn parsed_cli(args: Seq<Seq<char>>) -> Result<CliModel, Seq<char>> {
    match parsed_invocation(args) {
        Ok(InvocationModel::Run(c)) => Ok(c),
        Ok(InvocationModel::Show(k)) => Err(request_message(k)),
        Err(m) => Err(m),
    }
}

/// The characters of each argument.
pub open spec fn args_view(args: Seq<&str>) -> Seq<Seq<char>> {
    args.map_values(|a: &str| a@)
}

/// What has been read of the command line so far.
struct ScanState {
    db_url: Option<String>,
    subcommand: Option<Subcommand>,
    from: Option<String>,
    to: Option<String>,
    limit: Option<String>,
    request: Option<InfoRequest>,
    escaped: bool,
}

impl ScanState {
    spec fn model(&self) -> ScanModel {
        ScanModel {
            db_url: opt_view(self.db_url),
            subcommand: self.subcommand,
            from: opt_view(self.from),
            to: opt_view(self.to),
            limit: opt_view(self.limit),
            request: self.request,
            escaped: self.escaped,
        }
    }

    fn has_value(&self, slot: OptionSlot) -> (r: bool)
        ensures
            r == slot_value(self.model(), slot) is Some,
    {
        match slot {
            OptionSlot::DbUrl => self.db_url.is_some(),
            OptionSlot::From => self.from.is_some(),
            OptionSlot::To => self.to.is_some(),
            OptionSlot::Limit => self.limit.is_some(),
        }
    }

    fn set(self, slot: OptionSlot, v: String) -> (r: ScanState)
        ensures
            r.model() == with_slot(self.model(), slot, v@),
    {
        match slot {
            OptionSlot::DbUrl => ScanState { db_url: Some(v), ..self },
            OptionSlot::From => ScanState { from: Some(v), ..self },
            OptionSlot::To => ScanState { to: Some(v), ..self },
            OptionSlot::Limit => ScanState { limit: Some(v), ..self },
        }
    }
}

fn slot_flag_text(slot: OptionSlot) -> (r: &'static str)
    ensures
        r@ == slot_flag(slot),
{
    match slot {
        OptionSlot::DbUrl => "--db-url",
        OptionSlot::From => "--from",
        OptionSlot::To => "--to",
        OptionSlot::Limit => "--limit",
    }
}

fn slot_display_text(slot: OptionSlot) -> (r: &'static str)
    ensures
        r@ == slot_display(slot),
{
    match slot {
        OptionSlot::DbUrl => "--db-url <DB_URL>",
        OptionSlot::From => "--from <FROM>",
        OptionSlot::To => "--to <TO>",
        OptionSlot::Limit => "--limit <LIMIT>",
    }
}

/// The view of an optional inline value.
spec fn opt_opt_view(o: Option<Option<String>>) -> Option<Option<Seq<char>>> {
    match o {
        Some(inner) => Some(opt_view(inner)),
        None => None,
    }
}

fn match_option(tok: &str, slot: OptionSlot) -> (r: Option<Option<String>>)
    ensures
        opt_opt_view(r) == token_option(tok@, slot),
{
    let flag = slot_flag_text(slot);
    if str_equals(tok, flag) {
        return Some(None);
    }
    let n = flag.unicode_len();
    let len = tok.unicode_len();
    if len > n && starts_with(tok, flag) && tok.get_char(n) == '=' {
        let v = tok.substring_char(n + 1, len);
        Some(Some(String::from_str(v)))
    } else {
        None
    }
}

fn is_flag_like(tok: &str) -> (r: bool)
    ensures
        r == flag_like(tok@),
{
    tok.unicode_len() >= 2 && tok.get_char(0) == '-'
}

fn exec_read_option(args: &[&str], i: usize, st: ScanState, slot: OptionSlot, inline: Option<String>) -> (r:
    Result<(bool, ScanState), String>)
    requires
        i < args@.len(),
    ensures
        match (r, read_option(args_view(args@), i as int, st.model(), slot, opt_view(inline))) {
            (Ok((u, s1)), Ok((v, m1))) => u == v && s1.model() == m1,
            (Err(e), Err(m)) => e@ == m,
            _ => false,
        },
{
    let ghost tokens = args_view(args@);
    if st.has_value(slot) {
        return Err(
            String::from_str("the argument '").concat(slot_display_text(slot)).concat(
                "' cannot be used multiple times",
            ),
        );
    }
    match inline {
        Some(v) => Ok((false, st.set(slot, v))),
        None => {
            if i < args.len() - 1 && !is_flag_like(args[i + 1]) {
                let v = String::from_str(args[i + 1]);
                assert(tokens[i + 1] == args@[i + 1]@);
                Ok((true, st.set(slot, v)))
            } else {
                proof {
                    if i + 1 < args@.len() {
                        assert(tokens[i + 1] == args@[i + 1]@);
                    }
                }
                Err(
                    String::from_str("a value is required for '").concat(
                        slot_display_text(slot),
                    ).concat("' but none was supplied"),
                )
            }
        },
    }
}

fn subcommand_of(tok: &str) -> (r: Option<Subcommand>)
    ensures
        r == subcommand_named(tok@),
{
    if str_equals(tok, "start") {
        Some(Subcommand::Start)
    } else if str_equals(tok, "query") {
        Some(Subcommand::Query)
    } else if str_equals(tok, "status") {
        Some(Subcommand::Status)
    } else if str_equals(tok, "pause") {
        Some(Subcommand::Pause)
    } else if str_equals(tok, "resume") {
        Some(Subcommand::Resume)
    } else {
        None
    }
}

fn exec_scan_step(args: &[&str], i: usize, st: ScanState) -> (r: Result<(bool, ScanState), String>)
    requires
        i < args@.len(),
    ensures
        match (r, scan_step(args_view(args@), i as int, st.model())) {
            (Ok((u, s1)), Ok((v, m1))) => u == v && s1.model() == m1,
            (Err(e), Err(m)) => e@ == m,
            _ => false,
        },
{
    let ghost tokens = args_view(args@);
    let tok: &str = args[i];
    assert(tokens[i as int] == tok@);
    let ghost st_model = st.model();
    if st.escaped {
        return Err(String::from_str("unexpected argument '").concat(tok).concat("' found"));
    }
    if str_equals(tok, "--") {
        return Ok((false, ScanState { escaped: true, ..st }));
    }
    let db = match_option(tok, OptionSlot::DbUrl);
    if db.is_some() {
        return exec_read_option(args, i, st, OptionSlot::DbUrl, db.unwrap());
    }
    let query = match st.subcommand {
        Some(Subcommand::Query) => true,
        _ => false,
    };
    if query {
        let from = match_option(tok, OptionSlot::From);
        if from.is_some() {
            return exec_read_option(args, i, st, OptionSlot::From, from.unwrap());
        }
        let to = match_option(tok, OptionSlot::To);
        if to.is_some() {
            return exec_read_option(args, i, st, OptionSlot::To, to.unwrap());
        }
        let limit = match_option(tok, OptionSlot::Limit);
        if limit.is_some() {
            return exec_read_option(args, i, st, OptionSlot::Limit, limit.unwrap());
        }
    }
    if str_equals(tok, "--help") || str_equals(tok, "-h") {
        return Ok((false, ScanState { request: Some(InfoRequest::Help), ..st }));
    }
    if st.subcommand.is_none() && (str_equals(tok, "--version") || str_equals(tok, "-V")) {
        return Ok((false, ScanState { request: Some(InfoRequest::Version), ..st }));
    }
    if is_flag_like(tok) || st.subcommand.is_some() {
        return Err(String::from_str("unexpected argument '").concat(tok).concat("' found"));
    }
    match subcommand_of(tok) {
        Some(c) => Ok((false, ScanState { subcommand: Some(c), ..st })),
        None => {
            if str_equals(tok, "help") {
                Ok((false, ScanState { request: Some(InfoRequest::Help), ..st }))
            } else {
                Err(String::from_str("unrecognized subcommand '").concat(tok).concat("'"))
            }
        },
    }
}

fn exec_finish(st: ScanState) -> (r: Result<Cli, String>)
    ensures
        match (r, finish(st.model())) {
            (Ok(c), Ok(m)) => c@ == m,
            (Err(e), Err(m)) => e@ == m,
            _ => false,
        },
{
    match st.subcommand {
        None => Err(String::from_str("a subcommand is required but one was not provided")),
        Some(Subcommand::Query) => {
            let limit = match &st.limit {
                None => 10,
                Some(v) => match parse_u64(v.as_str()) {
                    Ok(n) => n,
                    Err(reason) => {
                        return Err(
                            String::from_str("invalid value '").concat(v.as_str()).concat(
                                "' for '--limit <LIMIT>': ",
                            ).concat(reason.as_str()),
                        );
                    },
                },
            };
            Ok(Cli { db_url: st.db_url, command: Commands::Query { from: st.from, to: st.to, limit } })
        },
        Some(Subcommand::Start) => Ok(Cli { db_url: st.db_url, command: Commands::Start }),
        Some(Subcommand::Status) => Ok(Cli { db_url: st.db_url, command: Commands::Status }),
        Some(Subcommand::Pause) => Ok(Cli { db_url: st.db_url, command: Commands::Pause }),
        Some(Subcommand::Resume) => Ok(Cli { db_url: st.db_url, command: Commands::Resume }),
    }
}

impl Cli {
    /// Reads what a command line asks for; its first element is the program's name.
    ///
    /// An optional `--db-url <URL>` (anywhere), then one subcommand (`start`, `query`,
    /// `status`, `pause`, `resume`); `query` takes `--from <DATE>`, `--to <DATE>` and
    /// `--limit <N>` (default 10). Options take their value as the next argument or
    /// after `=`. `--help`, `-h` or the `help` subcommand ask for the help text, and
    /// `--version` or `-V` before the subcommand for the version; reading stops there.
    /// Anything else, a missing value, a repeated option or a bad limit is an
    /// invalid-input error.
    pub fn read_invocation(args: &[&str]) -> (r: Result<Invocation, ChronosError>)
        ensures
            match (r, parsed_invocation(args_view(args@))) {
                (Ok(v), Ok(m)) => v@ == m,
                (Err(e), Err(m)) => e@ == ErrorModel::InvalidInput(m),
                _ => false,
            },
    {
        let ghost tokens = args_view(args@);
        let mut st = ScanState {
            db_url: None,
            subcommand: None,
            from: None,
            to: None,
            limit: None,
            request: None,
            escaped: false,
        };
        let mut i: usize = 1;
        while i < args.len() && st.request.is_none()
            invariant
                tokens == args_view(args@),
                1 <= i,
                scan(tokens, 1, scan_start()) == scan(tokens, i as int, st.model()),
            decreases args@.len() - i,
        {
            match exec_scan_step(args, i, st) {
                Ok((used_next, next)) => {
                    st = next;
                    i = if used_next {
                        i + 2
                    } else {
                        i + 1
                    };
                },
                Err(m) => {
                    return Err(ChronosError::InvalidInput(m));
                },
            }
        }
        match st.request {
            Some(k) => Ok(Invocation::Show(k)),
            None => match exec_finish(st) {
                Ok(c) => Ok(Invocation::Run(c)),
                Err(m) => Err(ChronosError::InvalidInput(m)),
            },
        }
    }

    /// Parses a command line that names a command to run, as `read_invocation` reads
    /// it; a request for the help text or the version is reported as an
    /// invalid-input error saying which was requested.
    pub fn try_parse_from(args: &[&str]) -> (r: Result<Cli, ChronosError>)
        ensures
            match (r, parsed_cli(args_view(args@))) {
                (Ok(c), Ok(m)) => c@ == m,
                (Err(e), Err(m)) => e@ == ErrorModel::InvalidInput(m),
                _ => false,
            },
    {
        match Self::read_invocation(args) {
            Ok(Invocation::Run(c)) => Ok(c),
            Ok(Invocation::Show(InfoRequest::Help)) => Err(
                ChronosError::InvalidInput(String::from_str("the help text was requested")),
            ),
            Ok(Invocation::Show(InfoRequest::Version)) => Err(
                ChronosError::InvalidInput(String::from_str("the version was requested")),
            ),
            Err(e) => Err(e),
        }
    }
}

/// The name of a subcommand on the command line.
pub open spec fn command_name(c: CommandModel) -> Seq<char> {
    match c {
        CommandModel::Start => "start"@,
        CommandModel::Query { .. } => "query"@,
        CommandModel::Status => "status"@,
        CommandModel::Pause => "pause"@,
        CommandModel::Resume => "resume"@,
    }
}

/// `--<option>=<value>` for an option given a value, nothing otherwise.
pub open spec fn option_args(slot: OptionSlot, value: Option<Seq<char>>) -> Seq<Seq<char>> {
    match value {
        Some(v) => seq![slot_flag(slot) + "="@ + v],
        None => Seq::empty(),
    }
}

/// A command line that denotes `c`: the program's name, the subcommand, then every
/// option in its `--<option>=<value>` form.
pub open spec fn canonical_args(program: Seq<char>, c: CliModel) -> Seq<Seq<char>> {
    seq![program, command_name(c.command)] + option_args(OptionSlot::DbUrl, c.db_url) + match c.command {
        CommandModel::Query { from, to, limit } => option_args(OptionSlot::From, from) + option_args(
            OptionSlot::To,
            to,
        ) + option_args(OptionSlot::Limit, Some(decimal(limit as nat))),
        _ => Seq::empty(),
    }
}

proof fn lemma_flag_chars()
    ensures
        forall|slot: OptionSlot| #[trigger] slot_flag(slot).len() >= 4,
        forall|slot: OptionSlot| #[trigger] slot_flag(slot)[0] == '-',
        slot_flag(OptionSlot::DbUrl)[2] == 'd',
        slot_flag(OptionSlot::From)[2] == 'f',
        slot_flag(OptionSlot::To)[2] == 't',
        slot_flag(OptionSlot::Limit)[2] == 'l',
        slot_flag(OptionSlot::DbUrl).len() == 8,
        slot_flag(OptionSlot::From).len() == 6,
        slot_flag(OptionSlot::To).len() == 4,
        slot_flag(OptionSlot::Limit).len() == 7,
{
    reveal_strlit("--db-url");
    reveal_strlit("--from");
    reveal_strlit("--to");
    reveal_strlit("--limit");
    assert forall|slot: OptionSlot| #[trigger] slot_flag(slot).len() >= 4 && slot_flag(slot)[0] == '-' by {
        match slot {
            OptionSlot::DbUrl => {},
            OptionSlot::From => {},
            OptionSlot::To => {},
            OptionSlot::Limit => {},
        }
    }
}

/// `--<option>=<value>` names exactly that option, with that value.
proof fn lemma_option_token(slot: OptionSlot, other: OptionSlot, v: Seq<char>)
    ensures
        token_option(slot_flag(slot) + "="@ + v, slot) == Some(Some(v)),
        other != slot ==> token_option(slot_flag(slot) + "="@ + v, other) is None,
        flag_like(slot_flag(slot) + "="@ + v),
        slot_flag(slot) + "="@ + v != "--"@,
{
    lemma_flag_chars();
    reveal_strlit("=");
    reveal_strlit("--");
    let f = slot_flag(slot);
    let tok = f + "="@ + v;
    assert(tok.take(f.len() as int) =~= f);
    assert(tok[f.len() as int] == '=');
    assert(tok.skip(f.len() as int + 1) =~= v);
    assert(tok != f);
    assert(tok[2] == f[2]);
    if other != slot {
        let g = slot_flag(other);
        assert(g[2] != f[2]);
        if tok.len() > g.len() {
            assert(tok.take(g.len() as int)[2] == tok[2]);
        }
    }
}

/// A subcommand's name is no option and no flag.
proof fn lemma_command_token(c: CommandModel, slot: OptionSlot)
    ensures
        token_option(command_name(c), slot) is None,
        !flag_like(command_name(c)),
        command_name(c).len() > 0,
        command_name(c) != "--help"@ && command_name(c) != "-h"@ && command_name(c) != "--"@,
        command_name(c) != "--version"@ && command_name(c) != "-V"@,
{
    lemma_flag_chars();
    reveal_strlit("start");
    reveal_strlit("query");
    reveal_strlit("status");
    reveal_strlit("pause");
    reveal_strlit("resume");
    reveal_strlit("--help");
    reveal_strlit("-h");
    reveal_strlit("--version");
    reveal_strlit("-V");
    reveal_strlit("--");
    let t = command_name(c);
    assert(t[0] != '-');
    assert("--help"@[0] == '-' && "-h"@[0] == '-' && "--version"@[0] == '-' && "-V"@[0] == '-');
    assert("--"@[0] == '-');
    assert(t != slot_flag(slot));
    if t.len() > slot_flag(slot).len() {
        assert(t.take(slot_flag(slot).len() as int)[0] == t[0]);
    }
}

/// Every command line can be written as arguments that parse back to it.
pub proof fn lemma_canonical_args_parse(program: Seq<char>, c: CliModel)
    ensures
        parsed_invocation(canonical_args(program, c)) == Ok::<InvocationModel, Seq<char>>(
            InvocationModel::Run(c),
        ),
        parsed_cli(canonical_args(program, c)) == Ok::<CliModel, Seq<char>>(c),
{
    reveal_strlit("start");
    reveal_strlit("query");
    reveal_strlit("status");
    reveal_strlit("pause");
    reveal_strlit("resume");
    let args = canonical_args(program, c);
    let name = command_name(c.command);
    lemma_command_token(c.command, OptionSlot::DbUrl);
    lemma_command_token(c.command, OptionSlot::From);
    lemma_command_token(c.command, OptionSlot::To);
    lemma_command_token(c.command, OptionSlot::Limit);
    assert(args[1] == name);
    let sub = match c.command {
        CommandModel::Start => Subcommand::Start,
        CommandModel::Query { .. } => Subcommand::Query,
        CommandModel::Status => Subcommand::Status,
        CommandModel::Pause => Subcommand::Pause,
        CommandModel::Resume => Subcommand::Resume,
    };
    assert(subcommand_named(name) == Some(sub));
    let st1 = ScanModel { subcommand: Some(sub), ..scan_start() };
    assert(scan_step(args, 1, scan_start()) == Ok::<(bool, ScanModel), Seq<char>>((false, st1)));
    let db = option_args(OptionSlot::DbUrl, c.db_url);
    let st2 = ScanModel { db_url: c.db_url, ..st1 };
    let i2: int = 2 + db.len() as int;
    if let Some(u) = c.db_url {
        lemma_option_token(OptionSlot::DbUrl, OptionSlot::From, u);
        assert(args[2] == slot_flag(OptionSlot::DbUrl) + "="@ + u);
        assert(scan_step(args, 2, st1) == Ok::<(bool, ScanModel), Seq<char>>((false, st2)));
        assert(scan(args, 2, st1) == scan(args, 3, st2));
    } else {
        assert(st2 == st1);
    }
    assert(scan(args, 1, scan_start()) == scan(args, i2, st2));
    match c.command {
        CommandModel::Query { from, to, limit } => {
            let lim = decimal(limit as nat);
            lemma_decimal_digits_value(limit as nat);
            assert(u64_text_value(lim) == Some(limit));
            let st3 = ScanModel { from, ..st2 };
            let i3: int = i2 + option_args(OptionSlot::From, from).len() as int;
            if let Some(v) = from {
                lemma_option_token(OptionSlot::From, OptionSlot::DbUrl, v);
                assert(args[i2] == slot_flag(OptionSlot::From) + "="@ + v);
                assert(scan_step(args, i2, st2) == Ok::<(bool, ScanModel), Seq<char>>((false, st3)));
            } else {
                assert(st3 == st2);
            }
            assert(scan(args, i2, st2) == scan(args, i3, st3));
            let st4 = ScanModel { to, ..st3 };
            let i4: int = i3 + option_args(OptionSlot::To, to).len() as int;
            if let Some(v) = to {
                lemma_option_token(OptionSlot::To, OptionSlot::DbUrl, v);
                lemma_option_token(OptionSlot::To, OptionSlot::From, v);
                assert(args[i3] == slot_flag(OptionSlot::To) + "="@ + v);
                assert(scan_step(args, i3, st3) == Ok::<(bool, ScanModel), Seq<char>>((false, st4)));
            } else {
                assert(st4 == st3);
            }
            assert(scan(args, i3, st3) == scan(args, i4, st4));
            let st5 = ScanModel { limit: Some(lim), ..st4 };
            lemma_option_token(OptionSlot::Limit, OptionSlot::DbUrl, lim);
            lemma_option_token(OptionSlot::Limit, OptionSlot::From, lim);
            lemma_option_token(OptionSlot::Limit, OptionSlot::To, lim);
            assert(args[i4] == slot_flag(OptionSlot::Limit) + "="@ + lim);
            assert(scan_step(args, i4, st4) == Ok::<(bool, ScanModel), Seq<char>>((false, st5)));
            assert(args.len() == i4 + 1);
            assert(scan(args, i4, st4) == scan(args, i4 + 1, st5));
            assert(scan(args, i4 + 1, st5) == Ok::<ScanModel, Seq<char>>(st5));
            assert(finish(st5) == Ok::<CliModel, Seq<char>>(c));
        },
        _ => {
            assert(args.len() == i2);
            assert(scan(args, i2, st2) == Ok::<ScanModel, Seq<char>>(st2));
            assert(finish(st2) == Ok::<CliModel, Seq<char>>(c));
        },
    }
}

/// A bare option flag names exactly its own option.
proof fn lemma_bare_flag(slot: OptionSlot, other: OptionSlot)
    ensures
        token_option(slot_flag(slot), slot) == Some(None::<Seq<char>>),
        other != slot ==> token_option(slot_flag(slot), other) is None,
        flag_like(slot_flag(slot)),
        slot_flag(slot) != "--"@,
        slot_flag(slot) != "--help"@ && slot_flag(slot) != "-h"@,
{
    lemma_flag_chars();
    reveal_strlit("--");
    reveal_strlit("--help");
    reveal_strlit("-h");
    let f = slot_flag(slot);
    assert(f.len() != "--"@.len());
    assert(f[2] != "--help"@[2] || f.len() != "--help"@.len());
    assert(f.len() != "-h"@.len());
    if other != slot {
        let g = slot_flag(other);
        assert(g[2] != f[2]);
        if f.len() > g.len() {
            assert(f.take(g.len() as int)[2] == f[2]);
        }
    }
}

/// An option of `query` takes its value either as the next argument or after `=`, to
/// the same effect: `query <flag> <v>` and `query <flag>=<v>` set that option, and only
/// that one, to `v` (the limit to the number `v` reads as, or refuse it), the other
/// options keeping their defaults.
pub proof fn lemma_option_value_forms(program: Seq<char>, slot: OptionSlot, v: Seq<char>)
    requires
        !flag_like(v),
    ensures
        ({
            let expected = match slot {
                OptionSlot::DbUrl => Ok(
                    CliModel {
                        db_url: Some(v),
                        command: CommandModel::Query { from: None, to: None, limit: 10 },
                    },
                ),
                OptionSlot::From => Ok(
                    CliModel {
                        db_url: None,
                        command: CommandModel::Query { from: Some(v), to: None, limit: 10 },
                    },
                ),
                OptionSlot::To => Ok(
                    CliModel {
                        db_url: None,
                        command: CommandModel::Query { from: None, to: Some(v), limit: 10 },
                    },
                ),
                OptionSlot::Limit => match u64_text_value(v) {
                    Some(n) => Ok(
                        CliModel {
                            db_url: None,
                            command: CommandModel::Query { from: None, to: None, limit: n },
                        },
                    ),
                    None => Err(
                        "invalid value '"@ + v + "' for '--limit <LIMIT>': "@ + u64_text_error(v),
                    ),
                },
            };
            &&& parsed_cli(seq![program, "query"@, slot_flag(slot), v]) == expected
            &&& parsed_cli(seq![program, "query"@, slot_flag(slot) + "="@ + v]) == expected
        }),
{
    reveal_strlit("start");
    reveal_strlit("query");
    reveal_strlit("status");
    reveal_strlit("pause");
    reveal_strlit("resume");
    let q = CommandModel::Query { from: None, to: None, limit: 10 };
    lemma_command_token(q, OptionSlot::DbUrl);
    lemma_command_token(q, OptionSlot::From);
    lemma_command_token(q, OptionSlot::To);
    lemma_command_token(q, OptionSlot::Limit);
    lemma_bare_flag(slot, OptionSlot::DbUrl);
    lemma_bare_flag(slot, OptionSlot::From);
    lemma_bare_flag(slot, OptionSlot::To);
    lemma_bare_flag(slot, OptionSlot::Limit);
    lemma_option_token(slot, OptionSlot::DbUrl, v);
    lemma_option_token(slot, OptionSlot::From, v);
    lemma_option_token(slot, OptionSlot::To, v);
    lemma_option_token(slot, OptionSlot::Limit, v);
    let st1 = ScanModel { subcommand: Some(Subcommand::Query), ..scan_start() };
    let st2 = with_slot(st1, slot, v);
    // The separate form.
    let a = seq![program, "query"@, slot_flag(slot), v];
    assert(a[1] == command_name(q));
    assert(subcommand_named(a[1]) == Some(Subcommand::Query));
    assert(scan_step(a, 1, scan_start()) == Ok::<(bool, ScanModel), Seq<char>>((false, st1)));
    assert(a[2] == slot_flag(slot));
    assert(a[3] == v);
    assert(read_option(a, 2, st1, slot, None) == Ok::<(bool, ScanModel), Seq<char>>((true, st2)));
    assert(scan_step(a, 2, st1) == Ok::<(bool, ScanModel), Seq<char>>((true, st2)));
    assert(scan(a, 4, st2) == Ok::<ScanModel, Seq<char>>(st2));
    assert(scan(a, 2, st1) == scan(a, 4, st2));
    assert(scan(a, 1, scan_start()) == scan(a, 2, st1));
    // The `=` form.
    let b = seq![program, "query"@, slot_flag(slot) + "="@ + v];
    assert(b[1] == command_name(q));
    assert(scan_step(b, 1, scan_start()) == Ok::<(bool, ScanModel), Seq<char>>((false, st1)));
    assert(b[2] == slot_flag(slot) + "="@ + v);
    assert(scan_step(b, 2, st1) == Ok::<(bool, ScanModel), Seq<char>>((false, st2)));
    assert(scan(b, 3, st2) == Ok::<ScanModel, Seq<char>>(st2));
    assert(scan(b, 2, st1) == scan(b, 3, st2));
    assert(scan(b, 1, scan_start()) == scan(b, 2, st1));
}

} // verus!
