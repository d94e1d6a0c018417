use vstd::prelude::*;
use crate::error::Error;
use crate::paths::{get_root_dir, is_node_root_dir, is_path_join, logs_dir_path, may_be_verbatim, needs_separator};
use crate::peer_id::PeerId;
use crate::node_run::Opt;

verus! {

/// Where the node is told to write its logs.
pub enum LogOutputDestArg {
    /// To standard output.
    Stdout,
    /// To the `logs` directory of the node's root directory.
    DataDir,
    /// To this directory.
    Path(String),
}

/// The mathematical value of a [`LogOutputDestArg`].
pub enum LogOutputDestArgView {
    Stdout,
    DataDir,
    Path(Seq<char>),
}

impl View for LogOutputDestArg {
    type V = LogOutputDestArgView;

    open spec fn view(&self) -> LogOutputDestArgView {
        match self {
            LogOutputDestArg::Stdout => LogOutputDestArgView::Stdout,
            LogOutputDestArg::DataDir => LogOutputDestArgView::DataDir,
            LogOutputDestArg::Path(p) => LogOutputDestArgView::Path(p@),
        }
    }
}

/// The destination that a command-line value names.
pub open spec fn log_output_of(val: Seq<char>) -> LogOutputDestArgView {
    if val == "stdout"@ {
        LogOutputDestArgView::Stdout
    } else if val == "data-dir"@ {
        LogOutputDestArgView::DataDir
    } else {
        LogOutputDestArgView::Path(val)
    }
}

/// The text of a destination, as the command line would give it.
pub open spec fn log_output_text(a: LogOutputDestArgView) -> Seq<char> {
    match a {
        LogOutputDestArgView::Stdout => "stdout"@,
        LogOutputDestArgView::DataDir => "data-dir"@,
        LogOutputDestArgView::Path(p) => p,
    }
}

/// Reads the `--log-output-dest` value: "stdout", "data-dir", or else a path. The
/// path need not exist (it can be created), so any other value is accepted.
pub fn parse_log_output(val: &str) -> (r: Result<LogOutputDestArg, Error>)
    ensures
        r matches Ok(a) && a@ == log_output_of(val@),
{
    let v = val.to_owned();
    if v == "stdout".to_owned() {
        Ok(LogOutputDestArg::Stdout)
    } else if v == "data-dir".to_owned() {
        Ok(LogOutputDestArg::DataDir)
    } else {
        Ok(LogOutputDestArg::Path(v))
    }
}

impl LogOutputDestArg {
    /// The destination's text, as it is displayed (and as it is written on the
    /// command line).
    pub fn to_string(&self) -> (r: String)
        ensures
            r@ == log_output_text(self@),
    {
        match self {
            LogOutputDestArg::Stdout => "stdout".to_owned(),
            LogOutputDestArg::DataDir => "data-dir".to_owned(),
            LogOutputDestArg::Path(p) => p.clone(),
        }
    }
}

/// Displaying what was parsed gives back the value given: no value is altered by
/// being read.
pub proof fn lemma_display_after_parse(val: Seq<char>)
    ensures
        log_output_text(log_output_of(val)) == val,
{
}

/// Parsing what is displayed gives back the destination, for every destination
/// but a path spelled "stdout" or "data-dir" (which reads as the named one).
pub proof fn lemma_parse_after_display(a: LogOutputDestArgView)
    requires
        a matches LogOutputDestArgView::Path(p) ==> p != "stdout"@ && p != "data-dir"@,
    ensures
        log_output_of(log_output_text(a)) == a,
{
    reveal_strlit("stdout");
    reveal_strlit("data-dir");
    assert("stdout"@.len() != "data-dir"@.len());
}

/// Where the logging library writes: to standard output, or to files in a directory.
pub enum LogOutputDest {
    Stdout,
    Path(String),
}

/// The mathematical value of a [`LogOutputDest`].
pub enum LogOutputDestView {
    Stdout,
    Path(Seq<char>),
}

impl View for LogOutputDest {
    type V = LogOutputDestView;

    open spec fn view(&self) -> LogOutputDestView {
        match self {
            LogOutputDest::Stdout => LogOutputDestView::Stdout,
            LogOutputDest::Path(p) => LogOutputDestView::Path(p@),
        }
    }
}

impl LogOutputDest {
    /// The destination's text: "stdout", or the directory.
    pub fn to_string(&self) -> (r: String)
        ensures
            r@ == match self@ {
                LogOutputDestView::Stdout => "stdout"@,
                LogOutputDestView::Path(p) => p,
            },
    {
        match self {
            LogOutputDest::Stdout => "stdout".to_owned(),
            LogOutputDest::Path(p) => p.clone(),
        }
    }
}

/// The level down to which a module's events are logged.
#[derive(Clone, Copy, Debug, PartialEq, Eq, Structural)]
pub enum LogLevel {
    Trace,
    Debug,
    Info,
    Warn,
    Error,
}

/// The format of log lines.
#[derive(Clone, Copy, Debug, PartialEq, Eq, Structural)]
pub enum LogFormat {
    Default,
    Json,
}

/// The text of the error for a log format that is neither "default" nor "json".
pub open spec fn log_format_error_text() -> Seq<char> {
    "The only valid values for this argument are \"default\" or \"json\""@
}

impl LogFormat {
    /// Reads the `--log-format` value: "default" or "json".
    pub fn parse_from_str(val: &str) -> (r: Result<LogFormat, Error>)
        ensures
            if val@ == "default"@ {
                r matches Ok(LogFormat::Default)
            } else if val@ == "json"@ {
                r matches Ok(LogFormat::Json)
            } else {
                r matches Err(Error::LoggingConfiguration(m)) && m@ == log_format_error_text()
            },
    {
        let v = val.to_owned();
        if v == "default".to_owned() {
            Ok(LogFormat::Default)
        } else if v == "json".to_owned() {
            Ok(LogFormat::Json)
        } else {
            Err(
                Error::LoggingConfiguration(
                    "The only valid values for this argument are \"default\" or \"json\"".to_owned(),
                ),
            )
        }
    }
}

/// The modules whose events the node logs, with their levels.
pub open spec fn logging_targets_spec() -> Seq<(Seq<char>, LogLevel)> {
    seq![
        ("sn_networking"@, LogLevel::Debug),
        ("safenode"@, LogLevel::Trace),
        ("sn_build_info"@, LogLevel::Trace),
        ("sn_logging"@, LogLevel::Trace),
        ("sn_node"@, LogLevel::Trace),
        ("sn_peers_acquisition"@, LogLevel::Trace),
        ("sn_protocol"@, LogLevel::Trace),
        ("sn_registers"@, LogLevel::Trace),
        ("sn_testnet"@, LogLevel::Trace),
        ("sn_transfers"@, LogLevel::Trace),
    ]
}

/// The node logs these ten modules: its networking module at debug level, and
/// itself, its build information, logging, node, peer acquisition, protocol,
/// registers, test network and transfers modules at trace level; no module is
/// logged twice, and only networking is below trace level.
pub proof fn lemma_logged_modules()
    ensures
        logging_targets_spec().len() == 10,
        logging_targets_spec().contains(("sn_networking"@, LogLevel::Debug)),
        logging_targets_spec().contains(("safenode"@, LogLevel::Trace)),
        logging_targets_spec().contains(("sn_build_info"@, LogLevel::Trace)),
        logging_targets_spec().contains(("sn_logging"@, LogLevel::Trace)),
        logging_targets_spec().contains(("sn_node"@, LogLevel::Trace)),
        logging_targets_spec().contains(("sn_peers_acquisition"@, LogLevel::Trace)),
        logging_targets_spec().contains(("sn_protocol"@, LogLevel::Trace)),
        logging_targets_spec().contains(("sn_registers"@, LogLevel::Trace)),
        logging_targets_spec().contains(("sn_testnet"@, LogLevel::Trace)),
        logging_targets_spec().contains(("sn_transfers"@, LogLevel::Trace)),
        forall|i: int|
            0 <= i < logging_targets_spec().len() ==> (#[trigger] logging_targets_spec()[i]).1
                == LogLevel::Trace || logging_targets_spec()[i].0 == "sn_networking"@,
{
    let t = logging_targets_spec();
    assert(t[0] == ("sn_networking"@, LogLevel::Debug));
    assert(t[1] == ("safenode"@, LogLevel::Trace));
    assert(t[2] == ("sn_build_info"@, LogLevel::Trace));
    assert(t[3] == ("sn_logging"@, LogLevel::Trace));
    assert(t[4] == ("sn_node"@, LogLevel::Trace));
    assert(t[5] == ("sn_peers_acquisition"@, LogLevel::Trace));
    assert(t[6] == ("sn_protocol"@, LogLevel::Trace));
    assert(t[7] == ("sn_registers"@, LogLevel::Trace));
    assert(t[8] == ("sn_testnet"@, LogLevel::Trace));
    assert(t[9] == ("sn_transfers"@, LogLevel::Trace));
}

pub open spec fn targets_view(v: Seq<(String, LogLevel)>) -> Seq<(Seq<char>, LogLevel)> {
    v.map_values(|t: (String, LogLevel)| (t.0@, t.1))
}

/// The modules whose events the node logs: the networking module at debug level,
/// the node's own modules at trace level.
pub fn logging_targets() -> (r: Vec<(String, LogLevel)>)
    ensures
        targets_view(r@) == logging_targets_spec(),
{
    let mut v: Vec<(String, LogLevel)> = Vec::new();
    v.push(("sn_networking".to_owned(), LogLevel::Debug));
    v.push(("safenode".to_owned(), LogLevel::Trace));
    v.push(("sn_build_info".to_owned(), LogLevel::Trace));
    v.push(("sn_logging".to_owned(), LogLevel::Trace));
    v.push(("sn_node".to_owned(), LogLevel::Trace));
    v.push(("sn_peers_acquisition".to_owned(), LogLevel::Trace));
    v.push(("sn_protocol".to_owned(), LogLevel::Trace));
    v.push(("sn_registers".to_owned(), LogLevel::Trace));
    v.push(("sn_testnet".to_owned(), LogLevel::Trace));
    v.push(("sn_transfers".to_owned(), LogLevel::Trace));
    assert(targets_view(v@) =~= logging_targets_spec());
    v
}

/// The `logs` directory of the node's root directory.
pub open spec fn is_node_logs_dir(logs: Seq<char>, data_dir: Seq<char>, peer: Seq<u8>) -> bool {
    exists|root: Seq<char>|
        #[trigger] is_node_root_dir(root, data_dir, peer) && needs_separator(root) && is_path_join(
            logs,
            root,
            "logs"@,
        )
}

/// How the node's logging is to be set up.
pub struct LoggingPlan {
    pub targets: Vec<(String, LogLevel)>,
    pub output_dest: LogOutputDest,
    pub format: LogFormat,
    pub max_uncompressed_log_files: Option<usize>,
    pub max_compressed_log_files: Option<usize>,
}

/// Decides the node's logging: the modules of [`logging_targets`]; the
/// destination asked for, where "data-dir" is the `logs` directory of the node's
/// root directory; the format asked for, or the default one; the file limits
/// asked for. Fails only when "data-dir" is asked for and the root directory
/// cannot be determined.
pub fn init_logging(
    opt: &Opt,
    data_dir: Option<&str>,
    peer_id: &PeerId,
) -> (r: Result<LoggingPlan, Error>)
    ensures
        match r {
            Ok(plan) => {
                &&& targets_view(plan.targets@) == logging_targets_spec()
                &&& match opt.log_output_dest@ {
                    LogOutputDestArgView::Stdout => plan.output_dest@ == LogOutputDestView::Stdout,
                    LogOutputDestArgView::Path(p) => plan.output_dest@ == LogOutputDestView::Path(p),
                    LogOutputDestArgView::DataDir => data_dir matches Some(d)
                        && plan.output_dest@ matches LogOutputDestView::Path(logs)
                        && (!may_be_verbatim(d@) ==> is_node_logs_dir(logs, d@, peer_id@)),
                }
                &&& plan.format == match opt.log_format {
                    Some(f) => f,
                    None => LogFormat::Default,
                }
                &&& plan.max_uncompressed_log_files == opt.max_uncompressed_log_files
                &&& plan.max_compressed_log_files == opt.max_compressed_log_files
            },
            Err(e) => opt.log_output_dest@ is DataDir && data_dir is None && e is RootDirectoryNotObtainable,
        },
{
    let output_dest = match &opt.log_output_dest {
        LogOutputDestArg::Stdout => LogOutputDest::Stdout,
        LogOutputDestArg::DataDir => {
            let root = match get_root_dir(data_dir, peer_id) {
                Ok(root) => root,
                Err(e) => return Err(e),
            };
            let logs = logs_dir_path(root.as_str());
            proof {
                if !may_be_verbatim(data_dir->0@) {
                    assert(is_node_root_dir(root@, data_dir->0@, peer_id@) && needs_separator(root@)
                        && is_path_join(logs@, root@, "logs"@));
                    assert(is_node_logs_dir(logs@, data_dir->0@, peer_id@));
                }
            }
            LogOutputDest::Path(logs)
        },
        LogOutputDestArg::Path(path) => LogOutputDest::Path(path.clone()),
    };
    let format = match opt.log_format {
        Some(f) => f,
        None => LogFormat::Default,
    };
    let plan = LoggingPlan {
        targets: logging_targets(),
        output_dest,
        format,
        max_uncompressed_log_files: opt.max_uncompressed_log_files,
        max_compressed_log_files: opt.max_compressed_log_files,
    };
    assert(targets_view(plan.targets@) == logging_targets_spec());
    Ok(plan)
}

} // verus!
