//! The command's options, and how the credentials are gathered from them.

use vstd::prelude::*;
use crate::errors::GhpcError;
use crate::types::LoggerOptions;

verus! {

/// The name the command is run as.
pub const CLI_NAME: &'static str = "ghpc";

/// The command's version.
pub const CLI_VERSION: &'static str = "26.4.12";

/// The command's options (the command-line parser lives outside the library).
#[derive(Debug, Clone)]
pub struct Cli {
    pub username: Option<String>,
    pub password: Option<String>,
    pub quiet: bool,
    pub verbose: bool,
    pub force: bool,
    pub status: bool,
    pub json: bool,
    pub password_stdin: bool,
    pub print_token: bool,
}

/// The name and version the command's help and `--version` show.
#[derive(Debug, Clone)]
pub struct CommandInfo {
    name: String,
    version: String,
}

impl CommandInfo {
    /// The command's name.
    pub fn get_name(&self) -> (s: &str)
        ensures
            s@ == self.name_text(),
    {
        self.name.as_str()
    }

    /// The command's version.
    pub fn get_version(&self) -> (s: Option<&str>)
        ensures
            s matches Some(v) && v@ == self.version_text(),
    {
        Some(self.version.as_str())
    }

    /// The command's name.
    pub closed spec fn name_text(&self) -> Seq<char> {
        self.name@
    }

    /// The command's version.
    pub closed spec fn version_text(&self) -> Seq<char> {
        self.version@
    }
}

/// Where the username comes from.
#[derive(Debug, Clone)]
pub enum UsernameSource {
    Given(String),
    Prompt,
}

/// Where the password comes from.
#[derive(Debug, Clone)]
pub enum PasswordSource {
    Given(String),
    Prompt,
    Stdin,
}

/// An option that is set and not empty.
pub open spec fn given(o: Option<String>) -> bool {
    o matches Some(v) && v@.len() > 0
}

/// A password read from standard input without its trailing line ends.
pub open spec fn without_line_ends(s: Seq<char>) -> Seq<char>
    decreases s.len(),
{
    if s.len() > 0 && (s.last() == '\n' || s.last() == '\r') {
        without_line_ends(s.drop_last())
    } else {
        s
    }
}

impl Cli {
    /// The output settings of the options.
    pub fn get_logger_options(&self) -> (o: LoggerOptions)
        ensures
            o.quiet == self.quiet,
            o.verbose == self.verbose,
            o.json == self.json,
    {
        LoggerOptions { quiet: self.quiet, verbose: self.verbose, json: self.json }
    }

    /// The name and version of the command.
    pub fn command() -> (c: CommandInfo)
        ensures
            c.name_text() == CLI_NAME@,
            c.version_text() == CLI_VERSION@,
    {
        CommandInfo { name: CLI_NAME.to_owned(), version: CLI_VERSION.to_owned() }
    }
}

fn non_empty(o: &Option<String>) -> (r: Option<String>)
    ensures
        given(*o) ==> r == *o,
        !given(*o) ==> r is None,
{
    match o {
        Some(v) if !v.as_str().is_empty() => Some(v.clone()),
        _ => None,
    }
}

/// Where the username and password come from: the options when they are set
/// and not empty, else an interactive prompt; with `--password-stdin` the
/// password comes from standard input and the username must be given.
pub fn resolve_credentials(cli: &Cli) -> (r: Result<(UsernameSource, PasswordSource), GhpcError>)
    ensures
        r is Err <==> (!given(cli.username) && cli.password_stdin),
        r matches Err(e) ==> e is UsernameRequired,
        r matches Ok((u, p)) ==> {
            &&& given(cli.username) ==> u == UsernameSource::Given(cli.username->0)
            &&& !given(cli.username) ==> u is Prompt
            &&& cli.password_stdin ==> p is Stdin
            &&& (!cli.password_stdin && given(cli.password)) ==> p == PasswordSource::Given(
                cli.password->0,
            )
            &&& (!cli.password_stdin && !given(cli.password)) ==> p is Prompt
        },
{
    let username = match non_empty(&cli.username) {
        Some(u) => UsernameSource::Given(u),
        None => {
            if cli.password_stdin {
                return Err(GhpcError::UsernameRequired);
            }
            UsernameSource::Prompt
        },
    };
    let password = if cli.password_stdin {
        PasswordSource::Stdin
    } else {
        match non_empty(&cli.password) {
            Some(p) => PasswordSource::Given(p),
            None => PasswordSource::Prompt,
        }
    };
    Ok((username, password))
}

/// The password that standard input held: without its trailing line feeds
/// and carriage returns, and an error when nothing is left.
pub fn password_from_stdin(raw: &str) -> (r: Result<String, GhpcError>)
    ensures
        match r {
            Ok(p) => p@ == without_line_ends(raw@) && p@.len() > 0,
            Err(e) => e is EmptyStdinPassword && without_line_ends(raw@).len() == 0,
        },
{
    let mut v = crate::text::chars_of(raw);
    while v.len() > 0 && (v[v.len() - 1] == '\n' || v[v.len() - 1] == '\r')
        invariant
            without_line_ends(raw@) == without_line_ends(v@),
        decreases v.len(),
    {
        v.pop();
    }
    if v.len() == 0 {
        return Err(GhpcError::EmptyStdinPassword);
    }
    Ok(crate::text::string_of(&v))
}

} // verus!
