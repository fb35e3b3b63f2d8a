//! What the client does with the reply to a command: the reply as the
//! client reads it, the notices it shows, and the error it ends with.
use vstd::prelude::*;

verus! {

/// How far the proxy got with a command.
#[derive(Clone, Copy, PartialEq, Eq, Debug)]
pub enum ResponseStatus {
    Processing,
    Error,
    Success,
}

/// The run state of a worker process.
#[derive(Clone, Copy, PartialEq, Eq, Debug)]
pub enum RunState {
    Running,
    Stopping,
    Stopped,
    NotAnswering,
}

/// One worker in a worker list.
#[derive(Clone, Copy, PartialEq, Eq, Debug)]
pub struct WorkerEntry {
    pub id: u32,
    pub pid: i32,
    pub run_state: RunState,
}

/// Which data a reply carries. Only the worker list is read by the
/// client's decisions; the other kinds are shown as they are.
#[derive(PartialEq, Eq, Debug)]
pub enum ReplyContent {
    Empty,
    State,
    Workers(Vec<WorkerEntry>),
    Metrics,
    Query,
    Event,
    FrontendList,
    Status,
}

/// A reply read from the command socket.
#[derive(PartialEq, Eq, Debug)]
pub struct Reply {
    pub id: String,
    pub status: ResponseStatus,
    pub message: String,
    pub content: ReplyContent,
}

/// Why a command failed.
#[derive(PartialEq, Eq, Debug)]
pub enum CommandError {
    /// No reply came before the timeout.
    Timeout,
    /// No reply could be read at all.
    NoReply,
    /// The reply answers another request.
    InvalidId,
    /// The reply to a worker upgrade never came.
    NoWorkerReply(u32),
    /// The proxy answered "processing" where an answer was due at once.
    NotImmediate,
    SaveStateFailed(String),
    LoadStateFailed(String),
    DumpStateFailed(String),
    /// The state dump carried no state.
    EmptyStateDump,
    StopFailed(String),
    WorkerStopFailed(u32, String),
    WorkerListFailed(String),
    /// The reply carries another kind of data than the one asked for.
    WrongResponseKind,
    /// The reply carries no data.
    NoData,
    MetricsFailed(String),
    QueryFailed(String),
    /// The proxy answered a certificate query with an error.
    ErrorReceived,
    /// The reply to a certificate query carries no query answer.
    UnexpectedResponse,
    EventsFailed(String),
    OrderFailed(String),
    ListWorkersFailed(String),
    UpgradeMainFailed(String),
    /// During an upgrade, the reply answers another request.
    UnexpectedMessage,
    /// The metrics command is not one that configures metrics.
    NotAMetricsConfiguration,
    /// Both a cluster id and a domain were given.
    ClusterIdAndDomain,
    /// Both a fingerprint and a domain were given.
    FingerprintAndDomain,
    /// The fingerprint is not a hexadecimal string.
    InvalidFingerprint(crate::ctl::queries::HexError),
}

/// What the client shows before it returns.
#[derive(Clone, Copy, PartialEq, Eq, Debug)]
pub enum Notice {
    Silent,
    /// The reply's message on a line of its own.
    Message,
    /// That the state was loaded from the given path.
    StateLoaded,
    /// The reply's message as JSON; a failure to print ends the command.
    JsonMessage,
    /// The dumped state as JSON; a failure to print ends the command.
    JsonState,
    /// The dumped state in debug form.
    DebugState,
    /// That the proxy is processing, with the message.
    ProxyProcessing,
    /// That the proxy shut down, with the message quoted.
    ProxyShutDownQuoted,
    /// That the proxy shut down, with the message.
    ProxyShutDown,
    /// Logged: that the worker is processing.
    WorkerProcessing,
    /// Logged: that the worker shut down.
    WorkerShutDown,
    /// The status of each worker.
    WorkerStatus,
    /// That the metrics command succeeded.
    MetricsConfigured,
    /// That the configuration was reloaded.
    Reloaded,
    /// That the proxy state could not be queried, with the message.
    QueryFailed,
    /// Logged: the reply's data.
    ContentLogged,
    /// Logged: the reply's data; then the list of frontends.
    ContentLoggedAndFrontends,
    /// The answer to a cluster query.
    ClusterQueryAnswer,
    /// The certificates of a certificate query.
    Certificates,
    /// The event, with the worker named in the message.
    Event,
    /// The metrics; a failure to print ends the command.
    Metrics,
    /// The names of the available metrics; a failure to print ends the
    /// command.
    AvailableMetrics,
    /// That the reply carries the wrong kind of data.
    WrongKind,
    /// Logged as an error: the worker list did not come at once.
    WorkersNotImmediate,
    /// That the proxy was upgraded.
    ProxyUpgraded,
}

/// What the client shows, then what it returns.
#[derive(PartialEq, Eq, Debug)]
pub struct Decision {
    pub notice: Notice,
    pub result: Result<(), CommandError>,
}

pub open spec fn done(notice: Notice) -> Decision {
    Decision { notice, result: Ok(()) }
}

pub open spec fn fail(e: CommandError) -> Decision {
    Decision { notice: Notice::Silent, result: Err(e) }
}

/// The reply, once it has come and answers the request sent with `sent`.
pub open spec fn checked(sent: Seq<char>, reply: Option<Reply>) -> Result<Reply, CommandError> {
    match reply {
        None => Err(CommandError::Timeout),
        Some(r) => if r.id@ == sent {
            Ok(r)
        } else {
            Err(CommandError::InvalidId)
        },
    }
}

pub open spec fn spec_save_state(sent: Seq<char>, reply: Option<Reply>) -> Decision {
    match checked(sent, reply) {
        Err(e) => fail(e),
        Ok(r) => match r.status {
            ResponseStatus::Processing => done(Notice::Silent),
            ResponseStatus::Error => fail(CommandError::SaveStateFailed(r.message)),
            ResponseStatus::Success => done(Notice::Message),
        },
    }
}

pub open spec fn spec_load_state(sent: Seq<char>, reply: Option<Reply>) -> Decision {
    match checked(sent, reply) {
        Err(e) => fail(e),
        Ok(r) => match r.status {
            ResponseStatus::Processing => done(Notice::Silent),
            ResponseStatus::Error => fail(CommandError::LoadStateFailed(r.message)),
            ResponseStatus::Success => done(Notice::StateLoaded),
        },
    }
}

pub open spec fn spec_dump_state(sent: Seq<char>, reply: Option<Reply>, json: bool) -> Decision {
    match checked(sent, reply) {
        Err(e) => fail(e),
        Ok(r) => match r.status {
            ResponseStatus::Processing => done(Notice::Silent),
            ResponseStatus::Error => Decision {
                notice: if json {
                    Notice::JsonMessage
                } else {
                    Notice::Silent
                },
                result: Err(CommandError::DumpStateFailed(r.message)),
            },
            ResponseStatus::Success => match r.content {
                ReplyContent::State => done(
                    if json {
                        Notice::JsonState
                    } else {
                        Notice::DebugState
                    },
                ),
                _ => fail(CommandError::EmptyStateDump),
            },
        },
    }
}

pub open spec fn spec_soft_stop(sent: Seq<char>, reply: Option<Reply>) -> Decision {
    match checked(sent, reply) {
        Err(e) => fail(e),
        Ok(r) => match r.status {
            ResponseStatus::Processing => done(Notice::ProxyProcessing),
            ResponseStatus::Error => fail(CommandError::StopFailed(r.message)),
            ResponseStatus::Success => done(Notice::ProxyShutDownQuoted),
        },
    }
}

pub open spec fn spec_hard_stop(sent: Seq<char>, reply: Option<Reply>) -> Decision {
    match reply {
        None => fail(CommandError::Timeout),
        Some(r) => match r.status {
            ResponseStatus::Processing => done(Notice::ProxyProcessing),
            ResponseStatus::Error => fail(CommandError::StopFailed(r.message)),
            ResponseStatus::Success => done(
                if r.id@ == sent {
                    Notice::ProxyShutDown
                } else {
                    Notice::Silent
                },
            ),
        },
    }
}

pub open spec fn spec_upgrade_worker(sent: Seq<char>, reply: Option<Reply>, worker_id: u32) -> Decision {
    match reply {
        None => fail(CommandError::NoWorkerReply(worker_id)),
        Some(r) => match r.status {
            ResponseStatus::Processing => done(Notice::WorkerProcessing),
            ResponseStatus::Error => fail(CommandError::WorkerStopFailed(worker_id, r.message)),
            ResponseStatus::Success => done(
                if r.id@ == sent {
                    Notice::WorkerShutDown
                } else {
                    Notice::Silent
                },
            ),
        },
    }
}

pub open spec fn spec_status(sent: Seq<char>, reply: Option<Reply>, json: bool) -> Decision {
    match reply {
        None => fail(CommandError::NoReply),
        Some(r) => if r.id@ != sent {
            fail(CommandError::InvalidId)
        } else {
            match r.status {
                ResponseStatus::Processing => fail(CommandError::NotImmediate),
                ResponseStatus::Error => Decision {
                    notice: if json {
                        Notice::JsonMessage
                    } else {
                        Notice::Silent
                    },
                    result: Err(CommandError::WorkerListFailed(r.message)),
                },
                ResponseStatus::Success => match r.content {
                    ReplyContent::Status => done(Notice::WorkerStatus),
                    ReplyContent::Empty => fail(CommandError::NoData),
                    _ => fail(CommandError::WrongResponseKind),
                },
            }
        },
    }
}

pub open spec fn spec_configure_metrics(sent: Seq<char>, reply: Option<Reply>) -> Decision {
    match reply {
        None => fail(CommandError::Timeout),
        Some(r) => match r.status {
            ResponseStatus::Processing => done(Notice::ProxyProcessing),
            ResponseStatus::Error => fail(CommandError::MetricsFailed(r.message)),
            ResponseStatus::Success => done(
                if r.id@ == sent {
                    Notice::MetricsConfigured
                } else {
                    Notice::Silent
                },
            ),
        },
    }
}

pub open spec fn spec_reload_configuration(
    sent: Seq<char>,
    reply: Option<Reply>,
    json: bool,
) -> Decision {
    match checked(sent, reply) {
        Err(e) => fail(e),
        Ok(r) => match r.status {
            ResponseStatus::Processing => fail(CommandError::NotImmediate),
            ResponseStatus::Error => Decision {
                notice: if json {
                    Notice::JsonMessage
                } else {
                    Notice::Silent
                },
                result: Err(CommandError::WorkerListFailed(r.message)),
            },
            ResponseStatus::Success => done(
                if json {
                    Notice::JsonMessage
                } else {
                    Notice::Reloaded
                },
            ),
        },
    }
}

pub open spec fn spec_list_frontends(sent: Seq<char>, reply: Option<Reply>) -> Decision {
    match checked(sent, reply) {
        Err(e) => fail(e),
        Ok(r) => match r.status {
            ResponseStatus::Processing => done(Notice::Silent),
            ResponseStatus::Error => done(Notice::QueryFailed),
            ResponseStatus::Success => done(
                if r.content is FrontendList {
                    Notice::ContentLoggedAndFrontends
                } else {
                    Notice::ContentLogged
                },
            ),
        },
    }
}

pub open spec fn spec_query_cluster(sent: Seq<char>, reply: Option<Reply>, json: bool) -> Decision {
    match checked(sent, reply) {
        Err(e) => fail(e),
        Ok(r) => match r.status {
            ResponseStatus::Processing => done(Notice::Message),
            ResponseStatus::Error => Decision {
                notice: if json {
                    Notice::JsonMessage
                } else {
                    Notice::Silent
                },
                result: Err(CommandError::QueryFailed(r.message)),
            },
            ResponseStatus::Success => done(Notice::ClusterQueryAnswer),
        },
    }
}

pub open spec fn spec_query_certificate(
    sent: Seq<char>,
    reply: Option<Reply>,
    json: bool,
) -> Decision {
    match checked(sent, reply) {
        Err(e) => fail(e),
        Ok(r) => match r.status {
            ResponseStatus::Processing => done(Notice::Silent),
            ResponseStatus::Error => if json {
                Decision { notice: Notice::JsonMessage, result: Err(CommandError::ErrorReceived) }
            } else {
                fail(CommandError::QueryFailed(r.message))
            },
            ResponseStatus::Success => if r.content is Query {
                done(Notice::Certificates)
            } else {
                fail(CommandError::UnexpectedResponse)
            },
        },
    }
}

pub open spec fn spec_events(reply: Option<Reply>) -> Decision {
    match reply {
        None => fail(CommandError::Timeout),
        Some(r) => match r.status {
            ResponseStatus::Processing => done(
                if r.content is Event {
                    Notice::Event
                } else {
                    Notice::Silent
                },
            ),
            ResponseStatus::Error => fail(CommandError::EventsFailed(r.message)),
            ResponseStatus::Success => done(Notice::Message),
        },
    }
}

pub open spec fn spec_order_command(sent: Seq<char>, reply: Option<Reply>) -> Decision {
    match checked(sent, reply) {
        Err(e) => fail(e),
        Ok(r) => match r.status {
            ResponseStatus::Processing => done(Notice::Silent),
            ResponseStatus::Error => fail(CommandError::OrderFailed(r.message)),
            ResponseStatus::Success => done(Notice::Silent),
        },
    }
}

// ---------------------------------------------------------------------------
// Executable decisions
// ---------------------------------------------------------------------------

fn decide(notice: Notice) -> (d: Decision)
    ensures
        d == done(notice),
{
    Decision { notice, result: Ok(()) }
}

fn refuse(e: CommandError) -> (d: Decision)
    ensures
        d == fail(e),
{
    Decision { notice: Notice::Silent, result: Err(e) }
}

fn same_id(sent: &String, id: &String) -> (b: bool)
    ensures
        b == (id@ == sent@),
{
    *id == *sent
}

/// The reply, once it has come and answers the request sent with `sent`.
pub fn check_reply(sent: &String, reply: Option<Reply>) -> (res: Result<Reply, CommandError>)
    ensures
        res == checked(sent@, reply),
{
    match reply {
        None => Err(CommandError::Timeout),
        Some(r) => if same_id(sent, &r.id) {
            Ok(r)
        } else {
            Err(CommandError::InvalidId)
        },
    }
}

/// The decision on the reply to a request to save the proxy state.
pub fn save_state_reply(sent: &String, reply: Option<Reply>) -> (d: Decision)
    ensures
        d == spec_save_state(sent@, reply),
{
    match check_reply(sent, reply) {
        Err(e) => refuse(e),
        Ok(r) => match r.status {
            ResponseStatus::Processing => decide(Notice::Silent),
            ResponseStatus::Error => refuse(CommandError::SaveStateFailed(r.message)),
            ResponseStatus::Success => decide(Notice::Message),
        },
    }
}

/// The decision on the reply to a request to load the proxy state.
pub fn load_state_reply(sent: &String, reply: Option<Reply>) -> (d: Decision)
    ensures
        d == spec_load_state(sent@, reply),
{
    match check_reply(sent, reply) {
        Err(e) => refuse(e),
        Ok(r) => match r.status {
            ResponseStatus::Processing => decide(Notice::Silent),
            ResponseStatus::Error => refuse(CommandError::LoadStateFailed(r.message)),
            ResponseStatus::Success => decide(Notice::StateLoaded),
        },
    }
}

/// The decision on the reply to a request to dump the proxy state.
pub fn dump_state_reply(sent: &String, reply: Option<Reply>, json: bool) -> (d: Decision)
    ensures
        d == spec_dump_state(sent@, reply, json),
{
    match check_reply(sent, reply) {
        Err(e) => refuse(e),
        Ok(r) => match r.status {
            ResponseStatus::Processing => decide(Notice::Silent),
            ResponseStatus::Error => Decision {
                notice: if json {
                    Notice::JsonMessage
                } else {
                    Notice::Silent
                },
                result: Err(CommandError::DumpStateFailed(r.message)),
            },
            ResponseStatus::Success => match r.content {
                ReplyContent::State => decide(
                    if json {
                        Notice::JsonState
                    } else {
                        Notice::DebugState
                    },
                ),
                _ => refuse(CommandError::EmptyStateDump),
            },
        },
    }
}

/// The decision on the reply to a soft stop of the proxy.
pub fn soft_stop_reply(sent: &String, reply: Option<Reply>) -> (d: Decision)
    ensures
        d == spec_soft_stop(sent@, reply),
{
    match check_reply(sent, reply) {
        Err(e) => refuse(e),
        Ok(r) => match r.status {
            ResponseStatus::Processing => decide(Notice::ProxyProcessing),
            ResponseStatus::Error => refuse(CommandError::StopFailed(r.message)),
            ResponseStatus::Success => decide(Notice::ProxyShutDownQuoted),
        },
    }
}

/// The decision on the reply to a hard stop of the proxy. The identifier is
/// only read to decide whether to report the shutdown.
pub fn hard_stop_reply(sent: &String, reply: Option<Reply>) -> (d: Decision)
    ensures
        d == spec_hard_stop(sent@, reply),
{
    match reply {
        None => refuse(CommandError::Timeout),
        Some(r) => match r.status {
            ResponseStatus::Processing => decide(Notice::ProxyProcessing),
            ResponseStatus::Error => refuse(CommandError::StopFailed(r.message)),
            ResponseStatus::Success => decide(
                if same_id(sent, &r.id) {
                    Notice::ProxyShutDown
                } else {
                    Notice::Silent
                },
            ),
        },
    }
}

/// The decision on the reply to the upgrade of one worker.
pub fn upgrade_worker_reply(sent: &String, reply: Option<Reply>, worker_id: u32) -> (d: Decision)
    ensures
        d == spec_upgrade_worker(sent@, reply, worker_id),
{
    match reply {
        None => refuse(CommandError::NoWorkerReply(worker_id)),
        Some(r) => match r.status {
            ResponseStatus::Processing => decide(Notice::WorkerProcessing),
            ResponseStatus::Error => refuse(CommandError::WorkerStopFailed(worker_id, r.message)),
            ResponseStatus::Success => decide(
                if same_id(sent, &r.id) {
                    Notice::WorkerShutDown
                } else {
                    Notice::Silent
                },
            ),
        },
    }
}

/// The decision on the reply to a status request.
pub fn status_reply(sent: &String, reply: Option<Reply>, json: bool) -> (d: Decision)
    ensures
        d == spec_status(sent@, reply, json),
{
    match reply {
        None => refuse(CommandError::NoReply),
        Some(r) => if !same_id(sent, &r.id) {
            refuse(CommandError::InvalidId)
        } else {
            match r.status {
                ResponseStatus::Processing => refuse(CommandError::NotImmediate),
                ResponseStatus::Error => Decision {
                    notice: if json {
                        Notice::JsonMessage
                    } else {
                        Notice::Silent
                    },
                    result: Err(CommandError::WorkerListFailed(r.message)),
                },
                ResponseStatus::Success => match r.content {
                    ReplyContent::Status => decide(Notice::WorkerStatus),
                    ReplyContent::Empty => refuse(CommandError::NoData),
                    _ => refuse(CommandError::WrongResponseKind),
                },
            }
        },
    }
}

/// The decision on the reply to a metrics configuration.
pub fn configure_metrics_reply(sent: &String, reply: Option<Reply>) -> (d: Decision)
    ensures
        d == spec_configure_metrics(sent@, reply),
{
    match reply {
        None => refuse(CommandError::Timeout),
        Some(r) => match r.status {
            ResponseStatus::Processing => decide(Notice::ProxyProcessing),
            ResponseStatus::Error => refuse(CommandError::MetricsFailed(r.message)),
            ResponseStatus::Success => decide(
                if same_id(sent, &r.id) {
                    Notice::MetricsConfigured
                } else {
                    Notice::Silent
                },
            ),
        },
    }
}

/// The decision on the reply to a configuration reload.
pub fn reload_configuration_reply(sent: &String, reply: Option<Reply>, json: bool) -> (d: Decision)
    ensures
        d == spec_reload_configuration(sent@, reply, json),
{
    match check_reply(sent, reply) {
        Err(e) => refuse(e),
        Ok(r) => match r.status {
            ResponseStatus::Processing => refuse(CommandError::NotImmediate),
            ResponseStatus::Error => Decision {
                notice: if json {
                    Notice::JsonMessage
                } else {
                    Notice::Silent
                },
                result: Err(CommandError::WorkerListFailed(r.message)),
            },
            ResponseStatus::Success => decide(
                if json {
                    Notice::JsonMessage
                } else {
                    Notice::Reloaded
                },
            ),
        },
    }
}

/// The decision on the reply to a listing of the frontends.
pub fn list_frontends_reply(sent: &String, reply: Option<Reply>) -> (d: Decision)
    ensures
        d == spec_list_frontends(sent@, reply),
{
    match check_reply(sent, reply) {
        Err(e) => refuse(e),
        Ok(r) => match r.status {
            ResponseStatus::Processing => decide(Notice::Silent),
            ResponseStatus::Error => decide(Notice::QueryFailed),
            ResponseStatus::Success => decide(
                match r.content {
                    ReplyContent::FrontendList => Notice::ContentLoggedAndFrontends,
                    _ => Notice::ContentLogged,
                },
            ),
        },
    }
}

/// The decision on the reply to a cluster query.
pub fn query_cluster_reply(sent: &String, reply: Option<Reply>, json: bool) -> (d: Decision)
    ensures
        d == spec_query_cluster(sent@, reply, json),
{
    match check_reply(sent, reply) {
        Err(e) => refuse(e),
        Ok(r) => match r.status {
            ResponseStatus::Processing => decide(Notice::Message),
            ResponseStatus::Error => Decision {
                notice: if json {
                    Notice::JsonMessage
                } else {
                    Notice::Silent
                },
                result: Err(CommandError::QueryFailed(r.message)),
            },
            ResponseStatus::Success => decide(Notice::ClusterQueryAnswer),
        },
    }
}

/// The decision on the reply to a certificate query.
pub fn query_certificate_reply(sent: &String, reply: Option<Reply>, json: bool) -> (d: Decision)
    ensures
        d == spec_query_certificate(sent@, reply, json),
{
    match check_reply(sent, reply) {
        Err(e) => refuse(e),
        Ok(r) => match r.status {
            ResponseStatus::Processing => decide(Notice::Silent),
            ResponseStatus::Error => if json {
                Decision { notice: Notice::JsonMessage, result: Err(CommandError::ErrorReceived) }
            } else {
                refuse(CommandError::QueryFailed(r.message))
            },
            ResponseStatus::Success => match r.content {
                ReplyContent::Query => decide(Notice::Certificates),
                _ => refuse(CommandError::UnexpectedResponse),
            },
        },
    }
}

/// The decision on the reply to a subscription to the proxy's events.
pub fn events_reply(reply: Option<Reply>) -> (d: Decision)
    ensures
        d == spec_events(reply),
{
    match reply {
        None => refuse(CommandError::Timeout),
        Some(r) => match r.status {
            ResponseStatus::Processing => decide(
                match r.content {
                    ReplyContent::Event => Notice::Event,
                    _ => Notice::Silent,
                },
            ),
            ResponseStatus::Error => refuse(CommandError::EventsFailed(r.message)),
            ResponseStatus::Success => decide(Notice::Message),
        },
    }
}

/// The decision on the reply to an order for the proxy.
pub fn order_command_reply(sent: &String, reply: Option<Reply>) -> (d: Decision)
    ensures
        d == spec_order_command(sent@, reply),
{
    match check_reply(sent, reply) {
        Err(e) => refuse(e),
        Ok(r) => match r.status {
            ResponseStatus::Processing => decide(Notice::Silent),
            ResponseStatus::Error => refuse(CommandError::OrderFailed(r.message)),
            ResponseStatus::Success => decide(Notice::Silent),
        },
    }
}

// ---------------------------------------------------------------------------
// Laws
// ---------------------------------------------------------------------------

/// A reply that answers another request is refused by every command that
/// checks the identifier, and nothing is shown.
pub proof fn law_foreign_reply_refused(sent: Seq<char>, r: Reply, json: bool)
    requires
        r.id@ != sent,
    ensures
        spec_save_state(sent, Some(r)) == fail(CommandError::InvalidId),
        spec_load_state(sent, Some(r)) == fail(CommandError::InvalidId),
        spec_dump_state(sent, Some(r), json) == fail(CommandError::InvalidId),
        spec_soft_stop(sent, Some(r)) == fail(CommandError::InvalidId),
        spec_status(sent, Some(r), json) == fail(CommandError::InvalidId),
        spec_reload_configuration(sent, Some(r), json) == fail(CommandError::InvalidId),
        spec_list_frontends(sent, Some(r)) == fail(CommandError::InvalidId),
        spec_query_cluster(sent, Some(r), json) == fail(CommandError::InvalidId),
        spec_query_certificate(sent, Some(r), json) == fail(CommandError::InvalidId),
        spec_order_command(sent, Some(r)) == fail(CommandError::InvalidId),
{
}

/// When no reply comes, every command fails: with a timeout, except the
/// status request, which reports that nothing could be read, and a worker
/// upgrade, which names the worker.
pub proof fn law_missing_reply_fails(sent: Seq<char>, json: bool, worker_id: u32)
    ensures
        spec_save_state(sent, None) == fail(CommandError::Timeout),
        spec_load_state(sent, None) == fail(CommandError::Timeout),
        spec_dump_state(sent, None, json) == fail(CommandError::Timeout),
        spec_soft_stop(sent, None) == fail(CommandError::Timeout),
        spec_hard_stop(sent, None) == fail(CommandError::Timeout),
        spec_upgrade_worker(sent, None, worker_id) == fail(CommandError::NoWorkerReply(worker_id)),
        spec_status(sent, None, json) == fail(CommandError::NoReply),
        spec_configure_metrics(sent, None) == fail(CommandError::Timeout),
        spec_reload_configuration(sent, None, json) == fail(CommandError::Timeout),
        spec_list_frontends(sent, None) == fail(CommandError::Timeout),
        spec_query_cluster(sent, None, json) == fail(CommandError::Timeout),
        spec_query_certificate(sent, None, json) == fail(CommandError::Timeout),
        spec_events(None) == fail(CommandError::Timeout),
        spec_order_command(sent, None) == fail(CommandError::Timeout),
{
}

/// An error reply to the request ends every command with an error, except
/// the listing of the frontends, which only reports it.
pub proof fn law_error_reply_fails(sent: Seq<char>, r: Reply, json: bool, worker_id: u32)
    requires
        r.id@ == sent,
        r.status == ResponseStatus::Error,
    ensures
        spec_save_state(sent, Some(r)).result is Err,
        spec_load_state(sent, Some(r)).result is Err,
        spec_dump_state(sent, Some(r), json).result is Err,
        spec_soft_stop(sent, Some(r)).result is Err,
        spec_hard_stop(sent, Some(r)).result is Err,
        spec_upgrade_worker(sent, Some(r), worker_id).result is Err,
        spec_status(sent, Some(r), json).result is Err,
        spec_configure_metrics(sent, Some(r)).result is Err,
        spec_reload_configuration(sent, Some(r), json).result is Err,
        spec_query_cluster(sent, Some(r), json).result is Err,
        spec_query_certificate(sent, Some(r), json).result is Err,
        spec_events(Some(r)).result is Err,
        spec_order_command(sent, Some(r)).result is Err,
        spec_list_frontends(sent, Some(r)) == done(Notice::QueryFailed),
{
}

} // verus!
