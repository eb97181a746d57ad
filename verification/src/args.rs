use vstd::prelude::*;
use vstd::string::StringExecFns;

use crate::numeric::{parse_usize, spec_parse_usize};
use crate::text::same_text;

verus! {

/// The arguments whose absence or malformation stops the program.
#[derive(Clone, Copy, Debug, PartialEq, Eq, Structural)]
pub enum ArgName {
    Sqpack,
    Threads,
    CsvOut,
    Index,
    ExportMp3,
    ExportOgg,
}

impl ArgName {
    /// The name under which a failure of this argument is reported.
    pub open spec fn spec_text(self) -> Seq<char> {
        match self {
            ArgName::Sqpack => "sqpack"@,
            ArgName::Threads => "threads"@,
            ArgName::CsvOut => "csv-out"@,
            ArgName::Index => "index"@,
            ArgName::ExportMp3 => "export-mp3"@,
            ArgName::ExportOgg => "export-ogg"@,
        }
    }

    pub fn text(&self) -> (t: &'static str)
        ensures
            t@ == self.spec_text(),
    {
        match self {
            ArgName::Sqpack => "sqpack",
            ArgName::Threads => "threads",
            ArgName::CsvOut => "csv-out",
            ArgName::Index => "index",
            ArgName::ExportMp3 => "export-mp3",
            ArgName::ExportOgg => "export-ogg",
        }
    }
}

/// Why the arguments were refused.
#[derive(Clone, Debug, PartialEq, Eq)]
pub enum ArgFailure {
    /// The argument was missing or did not validate.
    Invalid(ArgName),
    /// MP3 export was asked for, but this build cannot encode MP3.
    Mp3Disabled,
    /// The export directory given for the argument exists and is a file; the
    /// path is kept for the report.
    ExportDirIsFile(ArgName, String),
    /// Neither a name nor an index selects the file to process.
    NoSelection,
}

impl ArgFailure {
    /// Every refusal ends the program with exit status 1.
    pub fn exit_status(&self) -> (s: i32)
        ensures
            s == 1,
    {
        1
    }

    /// The argument named by the closing line of the report, if the report
    /// has one.
    pub open spec fn spec_failed_argument(self) -> Option<ArgName> {
        match self {
            ArgFailure::Invalid(a) => Some(a),
            ArgFailure::Mp3Disabled => Some(ArgName::ExportMp3),
            ArgFailure::ExportDirIsFile(a, _) => Some(a),
            ArgFailure::NoSelection => None,
        }
    }

    pub fn failed_argument(&self) -> (a: Option<ArgName>)
        ensures
            a == self.spec_failed_argument(),
            self is Invalid ==> a == Some(self->Invalid_0),
            self is Mp3Disabled ==> a == Some(ArgName::ExportMp3),
            self is ExportDirIsFile ==> a == Some(self->ExportDirIsFile_0),
            self is NoSelection ==> a is None,
    {
        match self {
            ArgFailure::Invalid(a) => Some(*a),
            ArgFailure::Mp3Disabled => Some(ArgName::ExportMp3),
            ArgFailure::ExportDirIsFile(a, _) => Some(*a),
            ArgFailure::NoSelection => None,
        }
    }

    /// The fixed line that precedes the closing line, where the report has
    /// one that does not name a path.
    pub open spec fn spec_note(self) -> Option<Seq<char>> {
        match self {
            ArgFailure::Mp3Disabled => Some("MP3 encoding is not enabled."@),
            ArgFailure::NoSelection => Some("Neither name nor index was specified!"@),
            _ => None,
        }
    }

    pub fn note(&self) -> (n: Option<&'static str>)
        ensures
            match n {
                Some(t) => self.spec_note() == Some(t@),
                None => self.spec_note() is None,
            },
            self is Mp3Disabled ==> (n matches Some(t) && t@ == "MP3 encoding is not enabled."@),
            self is NoSelection ==> (n matches Some(t) && t@ == "Neither name nor index was specified!"@),
            self is Invalid || self is ExportDirIsFile ==> n is None,
    {
        match self {
            ArgFailure::Mp3Disabled => Some("MP3 encoding is not enabled."),
            ArgFailure::NoSelection => Some("Neither name nor index was specified!"),
            _ => None,
        }
    }
}

/// A refused argument is reported under its own name: an `Invalid(a)`
/// failure names exactly `a`, and the closing line ends with `a`'s name and
/// no other argument's.
pub proof fn lemma_invalid_names_its_argument(a: ArgName, b: ArgName)
    ensures
        ArgFailure::Invalid(a).spec_failed_argument() == Some(a),
        spec_argument_fail_message(a) == "An argument was either not provided or failed to validate: "@
            + a.spec_text(),
        a != b ==> a.spec_text() != b.spec_text(),
{
    reveal_strlit("sqpack");
    reveal_strlit("threads");
    reveal_strlit("csv-out");
    reveal_strlit("index");
    reveal_strlit("export-mp3");
    reveal_strlit("export-ogg");
    if a != b {
        let ta = a.spec_text();
        let tb = b.spec_text();
        if ta.len() == tb.len() {
            assert(ta[0] != tb[0] || ta[1] != tb[1] || ta[ta.len() - 1] != tb[tb.len() - 1]);
        }
    }
}

/// The line that reports a failed argument.
pub open spec fn spec_argument_fail_message(arg: ArgName) -> Seq<char> {
    "An argument was either not provided or failed to validate: "@ + arg.spec_text()
}

pub fn argument_fail_message(arg: ArgName) -> (m: String)
    ensures
        m@ == spec_argument_fail_message(arg),
{
    let prefix = String::from_str("An argument was either not provided or failed to validate: ");
    prefix.concat(arg.text())
}

/// An argument that must be present.
pub fn required<'a>(value: Option<&'a str>, arg: ArgName) -> (res: Result<&'a str, ArgFailure>)
    ensures
        match value {
            Some(v) => res == Ok::<&'a str, ArgFailure>(v),
            None => res == Err::<&'a str, ArgFailure>(ArgFailure::Invalid(arg)),
        },
{
    match value {
        Some(v) => Ok(v),
        None => Err(ArgFailure::Invalid(arg)),
    }
}


/// `num_cpus::get`: the number of logical CPUs this process may run on, as
/// sched affinity and cgroup quotas allow. Its documentation promises at
/// least one; nothing more is stated, for it depends on the machine.
/// What it reported is tied to the callers' results by
/// `is_logical_cpu_count`.
#[verifier::external_body]
fn available_cpus() -> (n: usize)
    ensures
        n >= 1,
{
    num_cpus::get()
}

/// `n` is a count of logical CPUs that `num_cpus::get` can report on this
/// machine. This names no single value: two calls may report different
/// counts, and each is such a count.
pub closed spec fn is_logical_cpu_count(n: usize) -> bool {
    call_ensures(available_cpus, (), n)
}

/// Every count of logical CPUs is at least one.
pub proof fn lemma_logical_cpu_count_positive(n: usize)
    requires
        is_logical_cpu_count(n),
    ensures
        n >= 1,
{
}

/// The thread count that `--threads` asks for, or `cpus` when it is absent.
pub fn thread_count_from(arg: Option<&str>, cpus: usize) -> (res: Result<usize, ArgFailure>)
    ensures
        match arg {
            None => res == Ok::<usize, ArgFailure>(cpus),
            Some(s) => match spec_parse_usize(s@) {
                Some(n) => res == Ok::<usize, ArgFailure>(n),
                None => res == Err::<usize, ArgFailure>(ArgFailure::Invalid(ArgName::Threads)),
            },
        },
{
    match arg {
        None => Ok(cpus),
        Some(s) => match parse_usize(s) {
            Some(n) => Ok(n),
            None => Err(ArgFailure::Invalid(ArgName::Threads)),
        },
    }
}

/// The thread count that `--threads` asks for, or the number of logical CPUs
/// of this machine when it is absent.
pub fn thread_count(arg: Option<&str>) -> (res: Result<usize, ArgFailure>)
    ensures
        match arg {
            None => res matches Ok(n) && n >= 1 && is_logical_cpu_count(n),
            Some(s) => match spec_parse_usize(s@) {
                Some(n) => res == Ok::<usize, ArgFailure>(n),
                None => res == Err::<usize, ArgFailure>(ArgFailure::Invalid(ArgName::Threads)),
            },
        },
{
    let cpus = available_cpus();
    thread_count_from(arg, cpus)
}

/// How the file to process is chosen: by its internal name or by its index.
#[derive(Clone, Debug, PartialEq, Eq)]
pub enum Selector {
    Name(String),
    Index(usize),
}

/// The selector that `--name` or `--index` asks for; a name wins over an index.
pub fn option_name_index(name: Option<&str>, index: Option<&str>) -> (res: Result<
    Selector,
    ArgFailure,
>)
    ensures
        match (name, index) {
            (Some(n), _) => res matches Ok(Selector::Name(s)) && s@ == n@,
            (None, Some(i)) => match spec_parse_usize(i@) {
                Some(v) => res == Ok::<Selector, ArgFailure>(Selector::Index(v)),
                None => res == Err::<Selector, ArgFailure>(ArgFailure::Invalid(ArgName::Index)),
            },
            (None, None) => res == Err::<Selector, ArgFailure>(ArgFailure::NoSelection),
        },
{
    match name {
        Some(n) => Ok(Selector::Name(String::from_str(n))),
        None => match index {
            Some(i) => match parse_usize(i) {
                Some(v) => Ok(Selector::Index(v)),
                None => Err(ArgFailure::Invalid(ArgName::Index)),
            },
            None => Err(ArgFailure::NoSelection),
        },
    }
}

/// The format and output directory of an export.
#[derive(Clone, Debug, PartialEq, Eq)]
pub enum ExportMode {
    Ogg(String),
    Mp3(String),
}

/// The export that `--export-mp3` or `--export-ogg` asks for; MP3 wins over
/// OGG. `mp3_is_file` and `ogg_is_file` tell whether the directory given to
/// each exists and is a file, which refuses it.
pub fn option_exports_into_mode(
    emp3: Option<&str>,
    eogg: Option<&str>,
    mp3_is_file: bool,
    ogg_is_file: bool,
) -> (res: Result<Option<ExportMode>, ArgFailure>)
    ensures
        match (emp3, eogg) {
            (Some(p), _) => if mp3_is_file {
                res matches Err(ArgFailure::ExportDirIsFile(a, q)) && a == ArgName::ExportMp3
                    && q@ == p@
            } else {
                res matches Ok(Some(ExportMode::Mp3(q))) && q@ == p@
            },
            (None, Some(p)) => if ogg_is_file {
                res matches Err(ArgFailure::ExportDirIsFile(a, q)) && a == ArgName::ExportOgg
                    && q@ == p@
            } else {
                res matches Ok(Some(ExportMode::Ogg(q))) && q@ == p@
            },
            (None, None) => res == Ok::<Option<ExportMode>, ArgFailure>(None),
        },
{
    match emp3 {
        Some(p) => {
            if mp3_is_file {
                Err(ArgFailure::ExportDirIsFile(ArgName::ExportMp3, String::from_str(p)))
            } else {
                Ok(Some(ExportMode::Mp3(String::from_str(p))))
            }
        },
        None => match eogg {
            Some(p) => {
                if ogg_is_file {
                    Err(ArgFailure::ExportDirIsFile(ArgName::ExportOgg, String::from_str(p)))
                } else {
                    Ok(Some(ExportMode::Ogg(String::from_str(p))))
                }
            },
            None => Ok(None),
        },
    }
}


/// The arguments that the `one` and `all` subcommands share.
#[derive(Clone, Debug, PartialEq, Eq)]
pub struct BgmArgs {
    pub export_mp3: Option<String>,
    pub export_ogg: Option<String>,
    pub compare: Option<String>,
    pub save: Option<String>,
}

/// What the export run is asked to do: the manifest to save, the manifest to
/// compare with, and the export.
#[derive(Clone, Debug, PartialEq, Eq)]
pub struct BgmRequest {
    pub save_file: Option<String>,
    pub compare_file: Option<String>,
    pub export_mode: Option<ExportMode>,
}

fn as_text(s: &Option<String>) -> (res: Option<&str>)
    ensures
        match *s {
            Some(v) => res matches Some(t) && t@ == v@,
            None => res is None,
        },
{
    match s {
        Some(v) => Some(v.as_str()),
        None => None,
    }
}

/// The request that the shared arguments make. `mp3_enabled` tells whether
/// this build can encode MP3; `mp3_is_file` and `ogg_is_file` whether the
/// export directory given to each format exists and is a file.
pub fn get_bgm_options(
    args: &BgmArgs,
    mp3_enabled: bool,
    mp3_is_file: bool,
    ogg_is_file: bool,
) -> (res: Result<BgmRequest, ArgFailure>)
    ensures
        args.export_mp3 is Some && !mp3_enabled ==> res == Err::<BgmRequest, ArgFailure>(
            ArgFailure::Mp3Disabled,
        ),
        args.export_mp3 is Some && mp3_enabled && mp3_is_file ==> (res matches Err(
            ArgFailure::ExportDirIsFile(a, q),
        ) && a == ArgName::ExportMp3 && q@ == args.export_mp3->0@),
        args.export_mp3 is None && args.export_ogg is Some && ogg_is_file ==> (res matches Err(
            ArgFailure::ExportDirIsFile(a, q),
        ) && a == ArgName::ExportOgg && q@ == args.export_ogg->0@),
        res is Ok <==> (match (args.export_mp3, args.export_ogg) {
            (Some(_), _) => mp3_enabled && !mp3_is_file,
            (None, Some(_)) => !ogg_is_file,
            (None, None) => true,
        }),
        res matches Ok(r) ==> {
            &&& r.save_file == args.save
            &&& r.compare_file == args.compare
            &&& match (args.export_mp3, args.export_ogg) {
                (Some(p), _) => r.export_mode matches Some(ExportMode::Mp3(q)) && q@ == p@,
                (None, Some(p)) => r.export_mode matches Some(ExportMode::Ogg(q)) && q@ == p@,
                (None, None) => r.export_mode is None,
            }
        },
{
    if args.export_mp3.is_some() && !mp3_enabled {
        return Err(ArgFailure::Mp3Disabled);
    }
    let export_mode = match option_exports_into_mode(
        as_text(&args.export_mp3),
        as_text(&args.export_ogg),
        mp3_is_file,
        ogg_is_file,
    ) {
        Ok(m) => m,
        Err(e) => {
            return Err(e);
        },
    };
    Ok(BgmRequest {
        save_file: args.save.clone(),
        compare_file: args.compare.clone(),
        export_mode,
    })
}

/// The subcommand that the command line names.
#[derive(Clone, Copy, Debug, PartialEq, Eq, Structural)]
pub enum Command {
    /// No subcommand: the program says so and stops.
    Missing,
    All,
    One,
    Util,
    /// A subcommand of another name: reported, and the program stops.
    Unknown,
}

impl Command {
    /// The exit status with which the program stops at once on this
    /// subcommand, or `None` when the subcommand runs.
    pub open spec fn spec_exit_status(self) -> Option<i32> {
        match self {
            Command::Missing => Some(0),
            Command::Unknown => Some(1),
            _ => None,
        }
    }

    pub fn exit_status(&self) -> (s: Option<i32>)
        ensures
            s == self.spec_exit_status(),
    {
        match self {
            Command::Missing => Some(0),
            Command::Unknown => Some(1),
            _ => None,
        }
    }
}

/// The line printed, on standard output, when a subcommand is missing.
pub fn no_subcommand_message() -> (m: &'static str)
    ensures
        m@ == "No subcommand specified."@,
{
    "No subcommand specified."
}

pub open spec fn spec_command(name: Option<Seq<char>>) -> Command {
    match name {
        None => Command::Missing,
        Some(n) => if n == "all"@ {
            Command::All
        } else if n == "one"@ {
            Command::One
        } else if n == "util"@ {
            Command::Util
        } else {
            Command::Unknown
        },
    }
}

pub open spec fn text_view(name: Option<&str>) -> Option<Seq<char>> {
    match name {
        Some(n) => Some(n@),
        None => None,
    }
}

pub fn classify_command(name: Option<&str>) -> (c: Command)
    ensures
        c == spec_command(text_view(name)),
{
    match name {
        None => Command::Missing,
        Some(n) => if same_text(n, "all") {
            Command::All
        } else if same_text(n, "one") {
            Command::One
        } else if same_text(n, "util") {
            Command::Util
        } else {
            Command::Unknown
        },
    }
}

/// The subcommand of `util` that the command line names.
#[derive(Clone, Copy, Debug, PartialEq, Eq, Structural)]
pub enum UtilCommand {
    /// No subcommand: the program says so and stops.
    Missing,
    BgmCsv,
    /// A subcommand of another name: reported, and the program stops.
    Unknown,
}

impl UtilCommand {
    /// The exit status with which the program stops at once on this
    /// subcommand of `util`, or `None` when it runs.
    pub open spec fn spec_exit_status(self) -> Option<i32> {
        match self {
            UtilCommand::Missing => Some(0),
            UtilCommand::Unknown => Some(1),
            UtilCommand::BgmCsv => None,
        }
    }

    pub fn exit_status(&self) -> (s: Option<i32>)
        ensures
            s == self.spec_exit_status(),
    {
        match self {
            UtilCommand::Missing => Some(0),
            UtilCommand::Unknown => Some(1),
            UtilCommand::BgmCsv => None,
        }
    }
}

pub open spec fn spec_util_command(name: Option<Seq<char>>) -> UtilCommand {
    match name {
        None => UtilCommand::Missing,
        Some(n) => if n == "bgm-csv"@ {
            UtilCommand::BgmCsv
        } else {
            UtilCommand::Unknown
        },
    }
}

pub fn classify_util_command(name: Option<&str>) -> (c: UtilCommand)
    ensures
        c == spec_util_command(text_view(name)),
{
    match name {
        None => UtilCommand::Missing,
        Some(n) => if same_text(n, "bgm-csv") {
            UtilCommand::BgmCsv
        } else {
            UtilCommand::Unknown
        },
    }
}

/// The line that reports a subcommand of an unknown name.
pub fn unknown_subcommand_message(name: &str) -> (m: String)
    ensures
        m@ == "Unknown subcommand: "@ + name@,
{
    String::from_str("Unknown subcommand: ").concat(name)
}

} // verus!
