use vstd::prelude::*;
use vstd::utf8::encode_utf8;
use crate::log_output::{LogFormat, LogOutputDestArg};
use crate::service::{IpAddress, SocketAddress};
use crate::text::{all_digits, concat, decimal, decimal_text, decimal_value, lemma_decimal_reads_back, repeat_char};

verus! {

/// The node's command-line options.
pub struct Opt {
    /// Where to write logs: "stdout", "data-dir" (the default), or a directory.
    pub log_output_dest: LogOutputDestArg,
    /// The format of log lines; the default one when not given.
    pub log_format: Option<LogFormat>,
    /// How many uncompressed log files to keep before archiving older ones.
    pub max_uncompressed_log_files: Option<usize>,
    /// How many archived log files to keep before deleting older ones.
    pub max_compressed_log_files: Option<usize>,
    /// The node's data directory; by default one named after its peer id.
    pub root_dir: Option<String>,
    /// The port to listen on; 0 lets the system choose.
    pub port: u16,
    /// The IP address to listen on; 0.0.0.0 means every interface.
    pub ip: IpAddress,
    /// Where to serve the admin RPC service, if anywhere.
    pub rpc: Option<SocketAddress>,
    /// Whether to run in local mode, keeping local addresses.
    pub local: bool,
}

/// The address the node listens on: the IP and port of its options.
pub fn node_socket_addr(opt: &Opt) -> (r: SocketAddress)
    ensures
        r == (SocketAddress { ip: opt.ip, port: opt.port }),
{
    SocketAddress { ip: opt.ip, port: opt.port }
}

/// What the node reports to the loop that runs it.
pub enum NodeEvent {
    /// The node has joined the network.
    ConnectedToNetwork,
    /// The node's event channel was closed.
    ChannelClosed,
    /// The node found that it sits behind a NAT.
    BehindNat,
    /// Any other event, by its debug text.
    Other(String),
}

/// What receiving from the node's event channel came to.
pub enum EventReceipt {
    /// An event.
    Event(NodeEvent),
    /// The channel is closed.
    Closed,
    /// This many events were missed.
    Lagged(u64),
}

/// What the run loop does on an event.
pub enum EventAction {
    /// Record the marker that the node has connected to the network.
    LogConnected,
    /// Ask the program to shut down.
    SendShutdown,
    /// Log and otherwise ignore this event.
    Ignore(String),
    /// Warn that this many events were skipped, and go on.
    Skip(u64),
}

/// The run loop's decision on what it received: a closed channel, in either form,
/// and a node behind a NAT shut the program down; the connection is recorded;
/// missed events are warned of; anything else is ignored.
pub fn on_node_event(received: EventReceipt) -> (r: EventAction)
    ensures
        match received {
            EventReceipt::Event(NodeEvent::ConnectedToNetwork) => r is LogConnected,
            EventReceipt::Event(NodeEvent::ChannelClosed) => r is SendShutdown,
            EventReceipt::Closed => r is SendShutdown,
            EventReceipt::Event(NodeEvent::BehindNat) => r is SendShutdown,
            EventReceipt::Event(NodeEvent::Other(text)) => r matches EventAction::Ignore(t) && t@ == text@,
            EventReceipt::Lagged(n) => r matches EventAction::Skip(k) && k == n,
        },
{
    match received {
        EventReceipt::Event(NodeEvent::ConnectedToNetwork) => EventAction::LogConnected,
        EventReceipt::Event(NodeEvent::ChannelClosed) | EventReceipt::Closed => EventAction::SendShutdown,
        EventReceipt::Event(NodeEvent::BehindNat) => EventAction::SendShutdown,
        EventReceipt::Event(NodeEvent::Other(text)) => EventAction::Ignore(text),
        EventReceipt::Lagged(n) => EventAction::Skip(n),
    }
}

/// Whether the run loop goes on after asking for shutdown: it stops only when the
/// request could not be sent.
pub fn continue_after_shutdown_request(sent: bool) -> (r: bool)
    ensures
        r == sent,
{
    sent
}

/// The line logged when the node starts: the message, then a rule of `=` as long
/// (in bytes) as the message.
pub open spec fn banner_text(bin_name: Seq<char>, version: Seq<char>) -> Seq<char> {
    let msg = "Running "@ + bin_name + " v"@ + version;
    "\n"@ + msg + "\n"@ + repeat_char('=', encode_utf8(msg).len())
}

/// The line logged when the node starts, such as
/// "\nRunning safenode v0.1\n===================".
pub fn startup_banner(bin_name: &str, version: &str) -> (r: String)
    requires
        encode_utf8("Running "@ + bin_name@ + " v"@ + version@).len() <= usize::MAX,
    ensures
        r@ == banner_text(bin_name@, version@),
{
    let msg = concat("Running ", bin_name);
    let msg = concat(msg.as_str(), " v");
    let msg = concat(msg.as_str(), version);
    let ghost msg_text = "Running "@ + bin_name@ + " v"@ + version@;
    assert(msg@ =~= msg_text);
    let n = msg.as_str().len();
    assert(n == encode_utf8(msg_text).len());
    let mut rule = String::new();
    let mut i: usize = 0;
    while i < n
        invariant
            i <= n,
            rule@ == repeat_char('=', i as nat),
        decreases n - i,
    {
        proof {
            reveal_strlit("=");
        }
        rule.append("=");
        i = i + 1;
        assert(rule@ =~= repeat_char('=', i as nat));
    }
    let line = concat("\n", msg.as_str());
    let line = concat(line.as_str(), "\n");
    let line = concat(line.as_str(), rule.as_str());
    assert(rule@ == repeat_char('=', encode_utf8(msg_text).len()));
    assert(line@ =~= "\n"@ + msg_text + "\n"@ + repeat_char('=', encode_utf8(msg_text).len()));
    line
}

/// The text printed once the node has started, naming its peer id.
pub open spec fn node_started_text(peer_text: Seq<char>) -> Seq<char> {
    "\nNode started\n\nPeerId is "@ + peer_text
        + "\nYou can check your reward balance by running:\n`safe wallet balance --peer-id="@
        + peer_text + "`\n    "@
}

/// The text printed once the node has started, naming its peer id.
pub fn node_started_message(peer_text: &str) -> (r: String)
    ensures
        r@ == node_started_text(peer_text@),
{
    let m = concat("\nNode started\n\nPeerId is ", peer_text);
    let m = concat(
        m.as_str(),
        "\nYou can check your reward balance by running:\n`safe wallet balance --peer-id=",
    );
    let m = concat(m.as_str(), peer_text);
    let m = concat(m.as_str(), "`\n    ");
    m
}

/// What the node writes to its pid file: its process id in decimal.
pub fn pid_file_contents(pid: u32) -> (r: String)
    ensures
        r@ == decimal(pid as nat),
        all_digits(r@),
        decimal_value(r@) == pid,
{
    proof {
        lemma_decimal_reads_back(pid as nat);
    }
    decimal_text(pid)
}

/// The arguments to restart the node with: those it was given, without the
/// program's own path that comes first.
pub fn restart_args(args: &Vec<String>) -> (r: Vec<String>)
    requires
        args.len() >= 1,
    ensures
        r.len() == args.len() - 1,
        forall|i: int| 0 <= i < r.len() ==> #[trigger] r@[i]@ == args@[i + 1]@,
{
    let mut out: Vec<String> = Vec::new();
    let n = args.len();
    let mut i: usize = 1;
    while i < n
        invariant
            n == args.len(),
            1 <= i <= n,
            out.len() == i - 1,
            forall|k: int| 0 <= k < out.len() ==> #[trigger] out@[k]@ == args@[k + 1]@,
        decreases n - i,
    {
        out.push(args[i].clone());
        i = i + 1;
    }
    out
}

/// A request from the operating system to the node running as a Windows service.
pub enum ServiceControl {
    Interrogate,
    Stop,
    /// Any other request.
    Other,
}

/// The answer to such a request.
#[derive(Clone, Copy, Debug, PartialEq, Eq, Structural)]
pub enum ServiceControlHandlerResult {
    NoError,
    Other(u32),
    NotImplemented,
}

/// What the handler does with a request.
pub enum ControlStep {
    /// Answer at once.
    Reply(ServiceControlHandlerResult),
    /// Try to send the shutdown signal, then answer by
    /// [`on_shutdown_signal_sent`].
    TrySendShutdown,
}

/// The service's handler of requests: an interrogation is answered at once; a stop
/// request sends the shutdown signal; any other request is not implemented.
pub fn on_service_control(control: ServiceControl) -> (r: ControlStep)
    ensures
        match control {
            ServiceControl::Interrogate => r == ControlStep::Reply(ServiceControlHandlerResult::NoError),
            ServiceControl::Stop => r is TrySendShutdown,
            ServiceControl::Other => r == ControlStep::Reply(ServiceControlHandlerResult::NotImplemented),
        },
{
    match control {
        ServiceControl::Interrogate => ControlStep::Reply(ServiceControlHandlerResult::NoError),
        ServiceControl::Stop => ControlStep::TrySendShutdown,
        ServiceControl::Other => ControlStep::Reply(ServiceControlHandlerResult::NotImplemented),
    }
}

/// The answer to a stop request: no error when the shutdown signal was sent,
/// error 1 otherwise.
pub fn on_shutdown_signal_sent(sent: bool) -> (r: ServiceControlHandlerResult)
    ensures
        r == if sent {
            ServiceControlHandlerResult::NoError
        } else {
            ServiceControlHandlerResult::Other(1)
        },
{
    if sent {
        ServiceControlHandlerResult::NoError
    } else {
        ServiceControlHandlerResult::Other(1)
    }
}

/// What the Windows service's loop saw.
pub enum ServiceLoopEvent {
    /// The node's run finished.
    RunFinished,
    /// The shutdown signal arrived.
    ShutdownReceived,
    /// The loop's 100 ms wait passed.
    Tick,
}

/// Whether the Windows service's loop goes on: only while nothing but the wait
/// has passed. Each pass waits on the node's run handle, which the first wait
/// takes; a pass is only defined while that handle is still held, so after a
/// tick the service cannot wait on the run again.
pub fn service_loop_continues(run_handle_held: bool, event: ServiceLoopEvent) -> (r: bool)
    requires
        run_handle_held,
    ensures
        r <==> event is Tick,
{
    match event {
        ServiceLoopEvent::Tick => true,
        _ => false,
    }
}

} // verus!
