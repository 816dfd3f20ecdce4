//! The command surface: what each subcommand of the client carries, and
//! the few decisions taken on raw arguments before any request is made.

use vstd::prelude::*;

use crate::entities::{SourceInfo, spec_source_name};
use crate::json::{JsonValue, SpecJson, json_of, parse_json};

verus! {

/// What a run request carries: the plan's name, the instrument session it
/// belongs to, raw JSON parameters, and whether to block until the plan
/// completes.
#[derive(Debug, PartialEq, Eq)]
pub struct RunArgs {
    pub name: String,
    pub instrument_session: String,
    pub params: Option<String>,
    pub foreground: bool,
    pub background: bool,
}

/// Mathematical model of a [`RunArgs`].
pub struct SpecRunArgs {
    pub name: Seq<char>,
    pub instrument_session: Seq<char>,
    pub params: Option<Seq<char>>,
    pub foreground: bool,
    pub background: bool,
}

impl View for RunArgs {
    type V = SpecRunArgs;

    open spec fn view(&self) -> SpecRunArgs {
        SpecRunArgs {
            name: self.name@,
            instrument_session: self.instrument_session@,
            params: self.params.deep_view(),
            foreground: self.foreground,
            background: self.background,
        }
    }
}

/// Whether a run blocks until the plan completes: it does unless the
/// background flag stands alone — an explicit foreground wish wins.
pub open spec fn spec_foreground(foreground: bool, background: bool) -> bool {
    foreground || !background
}

impl RunArgs {
    /// The name of the plan to run.
    pub fn name(&self) -> (r: &str)
        ensures
            r@ == self@.name,
    {
        self.name.as_str()
    }

    /// Reads the raw parameter text as JSON: nothing where no parameters
    /// were given, the parsed value where the text is well-formed, and an
    /// error otherwise.
    pub fn parameters(&self) -> (r: Result<Option<JsonValue>, ()>)
        ensures
            match r {
                Ok(None) => self@.params is None,
                Ok(Some(v)) => self@.params matches Some(p) && json_of(
                    vstd::utf8::encode_utf8(p),
                ) == Some(v@),
                Err(_) => self@.params matches Some(p) && json_of(
                    vstd::utf8::encode_utf8(p),
                ) is None,
            },
    {
        match &self.params {
            None => Ok(None),
            Some(p) => match parse_json(p.as_str().as_bytes()) {
                Some(v) => Ok(Some(v)),
                None => Err(()),
            },
        }
    }

    /// Whether the run blocks until the plan completes, as
    /// [`spec_foreground`] describes.
    pub fn foreground(&self) -> (r: bool)
        ensures
            r == spec_foreground(self@.foreground, self@.background),
    {
        match (self.foreground, self.background) {
            (false, false) => true,
            (true, true) => true,
            (true, false) => true,
            (false, true) => false,
        }
    }

    /// The instrument session, as the JSON value a task request carries.
    pub fn instrument_session(&self) -> (r: JsonValue)
        ensures
            r@ == SpecJson::Str(self@.instrument_session),
    {
        JsonValue::Str(self.instrument_session.clone())
    }
}

/// Filters the installed-package listing by package name and source.
#[derive(Debug, PartialEq, Eq)]
pub struct PackageFilter {
    pub name: Option<String>,
    pub source: Option<SourceInfo>,
}

/// Mathematical model of a [`PackageFilter`].
pub struct SpecPackageFilter {
    pub name: Option<Seq<char>>,
    pub source: Option<SourceInfo>,
}

impl View for PackageFilter {
    type V = SpecPackageFilter;

    open spec fn view(&self) -> SpecPackageFilter {
        SpecPackageFilter { name: self.name.deep_view(), source: self.source }
    }
}

/// The query parameters a filter sends: a `name` pair and a `source` pair,
/// each present exactly where the filter holds one — an absent option
/// sends nothing.
pub open spec fn spec_query_pairs(f: SpecPackageFilter) -> Seq<(Seq<char>, Seq<char>)> {
    (match f.name {
        Some(n) => seq![("name"@, n)],
        None => Seq::empty(),
    }) + (match f.source {
        Some(s) => seq![("source"@, spec_source_name(s))],
        None => Seq::empty(),
    })
}

impl PackageFilter {
    /// Renders the filter as query parameters, as [`spec_query_pairs`]
    /// describes.
    pub fn query_pairs(&self) -> (r: Vec<(String, String)>)
        ensures
            r.deep_view() == spec_query_pairs(self@),
    {
        let mut out: Vec<(String, String)> = Vec::new();
        match &self.name {
            Some(n) => out.push(("name".to_owned(), n.clone())),
            None => (),
        }
        match &self.source {
            Some(s) => out.push(("source".to_owned(), s.query_name())),
            None => (),
        }
        proof {
            assert(out.deep_view() =~= spec_query_pairs(self@));
        }
        out
    }
}

/// The named subcommands the client exposes.
#[derive(Debug, PartialEq, Eq)]
pub enum CliArgs {
    /// Run a plan.
    Run(RunArgs),
    /// Pause the current task, deferring to the next checkpoint on wish.
    Pause { defer: bool },
    /// Resume a paused task.
    Resume,
    /// Stop the current task, keeping any ongoing run a success.
    Stop,
    /// Abort the current task, marking any ongoing run failed.
    Abort { reason: Option<String> },
    /// List devices, or show one by name.
    Devices { name: Option<String> },
    /// List plans, or show one by name.
    Plans { name: Option<String> },
    /// Inspect the environment, or reload it within a timeout in seconds.
    Env { reload: bool, timeout: Option<u64> },
    /// List the installed packages and their sources.
    GetPythonEnv(PackageFilter),
    /// Show the worker's state.
    State,
    /// Print every message of the event feed.
    Listen,
}

/// Mathematical model of a [`CliArgs`].
pub enum SpecCliArgs {
    Run(SpecRunArgs),
    Pause { defer: bool },
    Resume,
    Stop,
    Abort { reason: Option<Seq<char>> },
    Devices { name: Option<Seq<char>> },
    Plans { name: Option<Seq<char>> },
    Env { reload: bool, timeout: Option<u64> },
    GetPythonEnv(SpecPackageFilter),
    State,
    Listen,
}

impl View for CliArgs {
    type V = SpecCliArgs;

    open spec fn view(&self) -> SpecCliArgs {
        match self {
            CliArgs::Run(args) => SpecCliArgs::Run(args@),
            CliArgs::Pause { defer } => SpecCliArgs::Pause { defer: *defer },
            CliArgs::Resume => SpecCliArgs::Resume,
            CliArgs::Stop => SpecCliArgs::Stop,
            CliArgs::Abort { reason } => SpecCliArgs::Abort { reason: reason.deep_view() },
            CliArgs::Devices { name } => SpecCliArgs::Devices { name: name.deep_view() },
            CliArgs::Plans { name } => SpecCliArgs::Plans { name: name.deep_view() },
            CliArgs::Env { reload, timeout } => SpecCliArgs::Env {
                reload: *reload,
                timeout: *timeout,
            },
            CliArgs::GetPythonEnv(filter) => SpecCliArgs::GetPythonEnv(filter@),
            CliArgs::State => SpecCliArgs::State,
            CliArgs::Listen => SpecCliArgs::Listen,
        }
    }
}

} // verus!
