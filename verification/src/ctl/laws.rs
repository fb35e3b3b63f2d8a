//! What each decision of the client means, stated over its inputs: when a
//! command ends well, which error it ends with otherwise, and what it shows.
use vstd::prelude::*;

use crate::ctl::metrics::MetricsRound;
use crate::ctl::reply::{CommandError, Decision, Notice, Reply, ReplyContent, ResponseStatus};
use crate::ctl::upgrade::{UpgradeAction, UpgradeEvent, UpgradePhase};

verus! {

/// A reply came and it answers the request sent with `sent`.
pub open spec fn answers(sent: Seq<char>, reply: Option<Reply>) -> bool {
    reply matches Some(r) && r.id@ == sent
}

/// A reply came, answers the request, and has the given status.
pub open spec fn answered_with(sent: Seq<char>, reply: Option<Reply>, status: ResponseStatus) -> bool {
    answers(sent, reply) && reply.unwrap().status == status
}

/// Saving and loading the state end well exactly when the reply answers the
/// request without an error; an error reply ends them with its message; a
/// success is reported.
pub proof fn law_state_commands(sent: Seq<char>, reply: Option<Reply>)
    ensures
        (crate::ctl::reply::spec_save_state(sent, reply).result is Ok) <==> (answers(sent, reply)
            && reply.unwrap().status != ResponseStatus::Error),
        (crate::ctl::reply::spec_load_state(sent, reply).result is Ok) <==> (answers(sent, reply)
            && reply.unwrap().status != ResponseStatus::Error),
        answered_with(sent, reply, ResponseStatus::Error) ==> crate::ctl::reply::spec_save_state(
            sent,
            reply,
        ).result == Err::<(), CommandError>(CommandError::SaveStateFailed(reply.unwrap().message)),
        answered_with(sent, reply, ResponseStatus::Error) ==> crate::ctl::reply::spec_load_state(
            sent,
            reply,
        ).result == Err::<(), CommandError>(CommandError::LoadStateFailed(reply.unwrap().message)),
        answered_with(sent, reply, ResponseStatus::Success) ==> crate::ctl::reply::spec_save_state(
            sent,
            reply,
        ).notice == Notice::Message,
        answered_with(sent, reply, ResponseStatus::Success) ==> crate::ctl::reply::spec_load_state(
            sent,
            reply,
        ).notice == Notice::StateLoaded,
        !answered_with(sent, reply, ResponseStatus::Success) ==> crate::ctl::reply::spec_save_state(
            sent,
            reply,
        ).notice == Notice::Silent && crate::ctl::reply::spec_load_state(sent, reply).notice
            == Notice::Silent,
{
}

/// A state dump ends well exactly when the reply answers it and is still
/// processing or carries the state; the state is shown as JSON or in debug
/// form; a success without state, or an error, ends it with an error.
pub proof fn law_dump_state(sent: Seq<char>, reply: Option<Reply>, json: bool)
    ensures
        ({
            let d = crate::ctl::reply::spec_dump_state(sent, reply, json);
            &&& (d.result is Ok) <==> (answered_with(sent, reply, ResponseStatus::Processing) || (
            answered_with(sent, reply, ResponseStatus::Success) && reply.unwrap().content is State))
            &&& (answered_with(sent, reply, ResponseStatus::Success) && reply.unwrap().content is State
                ==> d.notice == (if json {
                Notice::JsonState
            } else {
                Notice::DebugState
            }))
            &&& (answered_with(sent, reply, ResponseStatus::Success) && !(reply.unwrap().content is State)
                ==> d == Decision { notice: Notice::Silent, result: Err(CommandError::EmptyStateDump) })
            &&& (answered_with(sent, reply, ResponseStatus::Error) ==> d == Decision {
                notice: if json {
                    Notice::JsonMessage
                } else {
                    Notice::Silent
                },
                result: Err(CommandError::DumpStateFailed(reply.unwrap().message)),
            })
            &&& (answered_with(sent, reply, ResponseStatus::Processing) ==> d == Decision {
                notice: Notice::Silent,
                result: Ok(()),
            })
            &&& (!answers(sent, reply) ==> d.notice == Notice::Silent)
        }),
{
}

/// A soft stop ends well exactly when the reply answers it without an
/// error. A hard stop does not check the identifier: any reply without an
/// error ends it well, and the shutdown is reported only for its own reply.
pub proof fn law_stop_commands(sent: Seq<char>, reply: Option<Reply>)
    ensures
        (crate::ctl::reply::spec_soft_stop(sent, reply).result is Ok) <==> (answers(sent, reply)
            && reply.unwrap().status != ResponseStatus::Error),
        (crate::ctl::reply::spec_hard_stop(sent, reply).result is Ok) <==> (reply is Some
            && reply.unwrap().status != ResponseStatus::Error),
        reply is Some && reply.unwrap().status == ResponseStatus::Error ==> (
        crate::ctl::reply::spec_hard_stop(sent, reply).result == Err::<(), CommandError>(
            CommandError::StopFailed(reply.unwrap().message),
        )),
        answered_with(sent, reply, ResponseStatus::Error) ==> (crate::ctl::reply::spec_soft_stop(
            sent,
            reply,
        ).result == Err::<(), CommandError>(CommandError::StopFailed(reply.unwrap().message))),
        reply is Some && reply.unwrap().status == ResponseStatus::Success ==> (
        crate::ctl::reply::spec_hard_stop(sent, reply).notice == if answers(sent, reply) {
            Notice::ProxyShutDown
        } else {
            Notice::Silent
        }),
        crate::ctl::reply::spec_hard_stop(sent, reply).result is Err
            ==> crate::ctl::reply::spec_hard_stop(sent, reply).notice == Notice::Silent,
        crate::ctl::reply::spec_soft_stop(sent, reply).result is Err
            ==> crate::ctl::reply::spec_soft_stop(sent, reply).notice == Notice::Silent,
        reply is Some && reply.unwrap().status == ResponseStatus::Processing ==> (
        crate::ctl::reply::spec_hard_stop(sent, reply).notice == Notice::ProxyProcessing),
        answered_with(sent, reply, ResponseStatus::Success) ==> crate::ctl::reply::spec_soft_stop(
            sent,
            reply,
        ).notice == Notice::ProxyShutDownQuoted,
        answered_with(sent, reply, ResponseStatus::Processing) ==> crate::ctl::reply::spec_soft_stop(
            sent,
            reply,
        ).notice == Notice::ProxyProcessing,
{
}

/// A worker upgrade does not check the identifier: any reply without an
/// error ends it well; no reply names the worker; an error carries the
/// worker and the message.
pub proof fn law_upgrade_worker(sent: Seq<char>, reply: Option<Reply>, worker_id: u32)
    ensures
        ({
            let d = crate::ctl::reply::spec_upgrade_worker(sent, reply, worker_id);
            &&& (d.result is Ok) <==> (reply is Some && reply.unwrap().status != ResponseStatus::Error)
            &&& (reply is None ==> d.result == Err::<(), CommandError>(
                CommandError::NoWorkerReply(worker_id),
            ))
            &&& (reply is Some && reply.unwrap().status == ResponseStatus::Error ==> d.result == Err::<
                (),
                CommandError,
            >(CommandError::WorkerStopFailed(worker_id, reply.unwrap().message)))
            &&& (reply is Some && reply.unwrap().status == ResponseStatus::Success ==> d.notice == if answers(
                sent,
                reply,
            ) {
                Notice::WorkerShutDown
            } else {
                Notice::Silent
            })
            &&& (reply is Some && reply.unwrap().status == ResponseStatus::Processing ==> d.notice
                == Notice::WorkerProcessing)
            &&& (d.result is Err ==> d.notice == Notice::Silent)
        }),
{
}

/// A status request ends well exactly when the reply answers it with
/// success and carries the status, which is then shown.
pub proof fn law_status(sent: Seq<char>, reply: Option<Reply>, json: bool)
    ensures
        ({
            let d = crate::ctl::reply::spec_status(sent, reply, json);
            &&& (d.result is Ok) <==> (answered_with(sent, reply, ResponseStatus::Success)
                && reply.unwrap().content is Status)
            &&& (d.result is Ok ==> d.notice == Notice::WorkerStatus)
            &&& (reply is None ==> d.result == Err::<(), CommandError>(CommandError::NoReply))
            &&& (answered_with(sent, reply, ResponseStatus::Processing) ==> d.result == Err::<
                (),
                CommandError,
            >(CommandError::NotImmediate))
            &&& (answered_with(sent, reply, ResponseStatus::Error) ==> d.result == Err::<
                (),
                CommandError,
            >(CommandError::WorkerListFailed(reply.unwrap().message)))
            &&& (answered_with(sent, reply, ResponseStatus::Error) ==> d.notice == if json {
                Notice::JsonMessage
            } else {
                Notice::Silent
            })
            &&& (answered_with(sent, reply, ResponseStatus::Success) && !(reply.unwrap().content is Status)
                ==> d.result == Err::<(), CommandError>(
                if reply.unwrap().content is Empty {
                    CommandError::NoData
                } else {
                    CommandError::WrongResponseKind
                },
            ))
            &&& (d.result is Err && !answered_with(sent, reply, ResponseStatus::Error) ==> d.notice
                == Notice::Silent)
        }),
{
}

/// A metrics configuration does not check the identifier: any reply without
/// an error ends it well, and the success is reported only for its own
/// reply.
pub proof fn law_configure_metrics(sent: Seq<char>, reply: Option<Reply>)
    ensures
        ({
            let d = crate::ctl::reply::spec_configure_metrics(sent, reply);
            &&& (d.result is Ok) <==> (reply is Some && reply.unwrap().status != ResponseStatus::Error)
            &&& (reply is Some && reply.unwrap().status == ResponseStatus::Error ==> d.result == Err::<
                (),
                CommandError,
            >(CommandError::MetricsFailed(reply.unwrap().message)))
            &&& (reply is Some && reply.unwrap().status == ResponseStatus::Success ==> d.notice == if answers(
                sent,
                reply,
            ) {
                Notice::MetricsConfigured
            } else {
                Notice::Silent
            })
            &&& (reply is Some && reply.unwrap().status == ResponseStatus::Processing ==> d.notice
                == Notice::ProxyProcessing)
            &&& (d.result is Err ==> d.notice == Notice::Silent)
        }),
{
}

/// A reload ends well exactly when the reply answers it with success.
pub proof fn law_reload_configuration(sent: Seq<char>, reply: Option<Reply>, json: bool)
    ensures
        ({
            let d = crate::ctl::reply::spec_reload_configuration(sent, reply, json);
            &&& (d.result is Ok) <==> answered_with(sent, reply, ResponseStatus::Success)
            &&& (answered_with(sent, reply, ResponseStatus::Success) ==> d.notice == (if json {
                Notice::JsonMessage
            } else {
                Notice::Reloaded
            }))
            &&& (answered_with(sent, reply, ResponseStatus::Processing) ==> d.result == Err::<
                (),
                CommandError,
            >(CommandError::NotImmediate))
            &&& (answered_with(sent, reply, ResponseStatus::Error) ==> d.result == Err::<
                (),
                CommandError,
            >(CommandError::WorkerListFailed(reply.unwrap().message)))
            &&& (answered_with(sent, reply, ResponseStatus::Error) ==> d.notice == if json {
                Notice::JsonMessage
            } else {
                Notice::Silent
            })
            &&& (d.result is Err && !answered_with(sent, reply, ResponseStatus::Error) ==> d.notice
                == Notice::Silent)
        }),
{
}

/// Listing the frontends ends well exactly when the reply answers it, even
/// with an error, which is only reported; a list in a successful reply is
/// shown.
pub proof fn law_list_frontends(sent: Seq<char>, reply: Option<Reply>)
    ensures
        ({
            let d = crate::ctl::reply::spec_list_frontends(sent, reply);
            &&& (d.result is Ok) <==> answers(sent, reply)
            &&& (answered_with(sent, reply, ResponseStatus::Error) ==> d.notice == Notice::QueryFailed)
            &&& (answered_with(sent, reply, ResponseStatus::Success) ==> (d.notice
                == Notice::ContentLoggedAndFrontends <==> reply.unwrap().content is FrontendList))
            &&& (answered_with(sent, reply, ResponseStatus::Success) ==> (d.notice
                == Notice::ContentLoggedAndFrontends || d.notice == Notice::ContentLogged))
            &&& (answered_with(sent, reply, ResponseStatus::Processing) ==> d.notice == Notice::Silent)
            &&& (reply is None ==> d.result == Err::<(), CommandError>(CommandError::Timeout))
            &&& (reply is Some && !answers(sent, reply) ==> d.result == Err::<(), CommandError>(
                CommandError::InvalidId,
            ))
            &&& (d.result is Err ==> d.notice == Notice::Silent)
        }),
{
}

/// A cluster query ends well exactly when the reply answers it without an
/// error; a success shows the answer.
pub proof fn law_query_cluster(sent: Seq<char>, reply: Option<Reply>, json: bool)
    ensures
        ({
            let d = crate::ctl::reply::spec_query_cluster(sent, reply, json);
            &&& (d.result is Ok) <==> (answers(sent, reply) && reply.unwrap().status
                != ResponseStatus::Error)
            &&& (answered_with(sent, reply, ResponseStatus::Success) ==> d.notice
                == Notice::ClusterQueryAnswer)
            &&& (answered_with(sent, reply, ResponseStatus::Processing) ==> d.notice == Notice::Message)
            &&& (answered_with(sent, reply, ResponseStatus::Error) ==> d.result == Err::<
                (),
                CommandError,
            >(CommandError::QueryFailed(reply.unwrap().message)))
            &&& (answered_with(sent, reply, ResponseStatus::Error) ==> d.notice == if json {
                Notice::JsonMessage
            } else {
                Notice::Silent
            })
            &&& (!answers(sent, reply) ==> d.notice == Notice::Silent)
        }),
{
}

/// A certificate query ends well exactly when the reply answers it and is
/// still processing or carries query data; query data in a success is shown
/// as certificates; a success without it is an unexpected response.
pub proof fn law_query_certificate(sent: Seq<char>, reply: Option<Reply>, json: bool)
    ensures
        ({
            let d = crate::ctl::reply::spec_query_certificate(sent, reply, json);
            &&& (d.result is Ok) <==> (answered_with(sent, reply, ResponseStatus::Processing) || (
            answered_with(sent, reply, ResponseStatus::Success) && reply.unwrap().content is Query))
            &&& (answered_with(sent, reply, ResponseStatus::Success) && reply.unwrap().content is Query
                ==> d == Decision { notice: Notice::Certificates, result: Ok(()) })
            &&& (d.result == Err::<(), CommandError>(CommandError::UnexpectedResponse) <==> (
            answered_with(sent, reply, ResponseStatus::Success) && !(reply.unwrap().content is Query)))
            &&& (answered_with(sent, reply, ResponseStatus::Error) ==> d == (if json {
                Decision { notice: Notice::JsonMessage, result: Err(CommandError::ErrorReceived) }
            } else {
                Decision {
                    notice: Notice::Silent,
                    result: Err(CommandError::QueryFailed(reply.unwrap().message)),
                }
            }))
            &&& (answered_with(sent, reply, ResponseStatus::Processing) ==> d.notice == Notice::Silent)
            &&& (!answers(sent, reply) ==> d.notice == Notice::Silent)
        }),
{
}

/// The event subscription ends well exactly when a reply without an error
/// comes; an event in a processing reply is shown.
pub proof fn law_events(reply: Option<Reply>)
    ensures
        ({
            let d = crate::ctl::reply::spec_events(reply);
            &&& (d.result is Ok) <==> (reply is Some && reply.unwrap().status != ResponseStatus::Error)
            &&& (reply is Some && reply.unwrap().status == ResponseStatus::Processing ==> d.notice
                == if reply.unwrap().content is Event {
                Notice::Event
            } else {
                Notice::Silent
            })
            &&& (d.result is Err ==> d.notice == Notice::Silent)
            &&& (reply is Some && reply.unwrap().status == ResponseStatus::Success ==> d.notice
                == Notice::Message)
            &&& (reply is Some && reply.unwrap().status == ResponseStatus::Error ==> d.result == Err::<
                (),
                CommandError,
            >(CommandError::EventsFailed(reply.unwrap().message)))
        }),
{
}

/// An order ends well exactly when the reply answers it without an error;
/// it fails only for a missing reply, a reply to another request or an
/// error, and it shows nothing.
pub proof fn law_order_command(sent: Seq<char>, reply: Option<Reply>)
    ensures
        ({
            let d = crate::ctl::reply::spec_order_command(sent, reply);
            &&& (d.result is Ok) <==> (answers(sent, reply) && reply.unwrap().status
                != ResponseStatus::Error)
            &&& d.notice == Notice::Silent
            &&& (reply is None ==> d.result == Err::<(), CommandError>(CommandError::Timeout))
            &&& (reply is Some && !answers(sent, reply) ==> d.result == Err::<(), CommandError>(
                CommandError::InvalidId,
            ))
            &&& (answered_with(sent, reply, ResponseStatus::Error) ==> d.result == Err::<
                (),
                CommandError,
            >(CommandError::OrderFailed(reply.unwrap().message)))
        }),
{
}

/// A metrics round on a reply that answers the request without an error
/// repeats after `s` seconds exactly when a refresh of `s` seconds was asked
/// for, and ends well otherwise, whatever data the reply carries. An error
/// reply ends the loop: well once shown as JSON, with the error otherwise.
/// A missing reply or a reply to another request ends it with an error.
pub proof fn law_metrics_round(sent: Seq<char>, reply: Option<Reply>, json: bool, refresh: Option<u32>)
    ensures
        ({
            let m = crate::ctl::metrics::spec_metrics_round(sent, reply, json, refresh);
            &&& (answers(sent, reply) && reply.unwrap().status != ResponseStatus::Error ==> {
                &&& (refresh matches Some(s) ==> (m matches MetricsRound::Repeat { seconds, .. }
                    && seconds == s))
                &&& (refresh is None ==> (m matches MetricsRound::Finish(d) && d.result is Ok))
            })
            &&& (answered_with(sent, reply, ResponseStatus::Success) ==> (m matches MetricsRound::Repeat {
                notice,
                ..
            } ==> notice == match reply.unwrap().content {
                ReplyContent::Metrics => Notice::Metrics,
                ReplyContent::Query => Notice::AvailableMetrics,
                _ => Notice::WrongKind,
            }) && (m matches MetricsRound::Finish(d) ==> d.notice == match reply.unwrap().content {
                ReplyContent::Metrics => Notice::Metrics,
                ReplyContent::Query => Notice::AvailableMetrics,
                _ => Notice::WrongKind,
            }))
            &&& (answered_with(sent, reply, ResponseStatus::Processing) ==> match m {
                MetricsRound::Repeat { notice, .. } => notice == Notice::Silent,
                MetricsRound::Finish(d) => d.notice == Notice::Silent,
            })
            &&& (!answers(sent, reply) ==> match m {
                MetricsRound::Repeat { .. } => false,
                MetricsRound::Finish(d) => d.notice == Notice::Silent,
            })
            &&& (answered_with(sent, reply, ResponseStatus::Error) ==> m == (if json {
                MetricsRound::Finish(Decision { notice: Notice::JsonMessage, result: Ok(()) })
            } else {
                MetricsRound::Finish(
                    Decision {
                        notice: Notice::Silent,
                        result: Err(CommandError::QueryFailed(reply.unwrap().message)),
                    },
                )
            }))
            &&& (!answers(sent, reply) ==> (m matches MetricsRound::Finish(d) && d.result is Err))
        }),
{
}

/// An error reply during the upgrade stops it with that error; the client
/// reconnects only after a successful reply to the main-process upgrade,
/// and keeps the worker list it had; a processing reply to it makes the
/// client wait; a missing reply or a reply to another request stops the
/// upgrade with an error.
pub proof fn law_upgrade_replies(
    phase: UpgradePhase,
    event: UpgradeEvent,
    next: UpgradePhase,
    action: UpgradeAction,
)
    requires
        crate::ctl::upgrade::upgrade_step_spec(phase, event, next, action),
    ensures
        match event {
            UpgradeEvent::Reply(Some(r)) => match phase {
                UpgradePhase::ListingWorkers { id } => {
                    &&& (r.status == ResponseStatus::Error ==> next == UpgradePhase::Finished
                        && action == UpgradeAction::Finish(
                        Decision {
                            notice: Notice::Silent,
                            result: Err(
                                if r.id@ == id@ {
                                    CommandError::ListWorkersFailed(r.message)
                                } else {
                                    CommandError::UnexpectedMessage
                                },
                            ),
                        },
                    ))
                    &&& (r.id@ != id@ ==> next == UpgradePhase::Finished && action
                        == UpgradeAction::Finish(
                        Decision {
                            notice: Notice::Silent,
                            result: Err(CommandError::UnexpectedMessage),
                        },
                    ))
                    &&& (r.id@ == id@ && r.status == ResponseStatus::Processing ==> next
                        == UpgradePhase::Finished && action == UpgradeAction::Finish(
                        Decision { notice: Notice::WorkersNotImmediate, result: Ok(()) },
                    ))
                    &&& (r.id@ == id@ && r.status == ResponseStatus::Success ==> match r.content {
                        ReplyContent::Workers(ws) => match action {
                            UpgradeAction::UpgradeMain { id: id2 } => crate::ctl::ids::is_tagged_id(
                                "UPGRADE-MAIN"@,
                                id2@,
                            ) && next == UpgradePhase::UpgradingMain { id: id2, workers: ws },
                            _ => false,
                        },
                        _ => next == UpgradePhase::Finished && action == UpgradeAction::Finish(
                            Decision { notice: Notice::Silent, result: Ok(()) },
                        ),
                    })
                },
                UpgradePhase::UpgradingMain { id, workers } => {
                    &&& (r.status == ResponseStatus::Error ==> next == UpgradePhase::Finished
                        && action == UpgradeAction::Finish(
                        Decision {
                            notice: Notice::Silent,
                            result: Err(
                                if r.id@ == id@ {
                                    CommandError::UpgradeMainFailed(r.message)
                                } else {
                                    CommandError::UnexpectedMessage
                                },
                            ),
                        },
                    ))
                    &&& (r.id@ != id@ ==> next == UpgradePhase::Finished && action
                        == UpgradeAction::Finish(
                        Decision {
                            notice: Notice::Silent,
                            result: Err(CommandError::UnexpectedMessage),
                        },
                    ))
                    &&& (r.id@ == id@ && r.status == ResponseStatus::Processing ==> next
                        == UpgradePhase::UpgradingMain { id, workers } && action
                        == UpgradeAction::AwaitMain)
                    &&& (r.id@ == id@ && r.status == ResponseStatus::Success ==> next
                        == UpgradePhase::Reconnecting { workers } && action
                        == UpgradeAction::Reconnect)
                },
                _ => true,
            },
            UpgradeEvent::Reply(None) => (phase is ListingWorkers || phase is UpgradingMain) ==> (
            next == UpgradePhase::Finished && action == UpgradeAction::Finish(
                Decision { notice: Notice::Silent, result: Err(CommandError::Timeout) },
            )),
            _ => true,
        },
        phase is Start ==> match action {
            UpgradeAction::ListWorkers { id } => crate::ctl::ids::is_tagged_id(
                "LIST-WORKERS"@,
                id@,
            ) && next == UpgradePhase::ListingWorkers { id },
            _ => false,
        },
        next is Reconnecting ==> match (phase, event) {
            (
                UpgradePhase::UpgradingMain { id, workers },
                UpgradeEvent::Reply(Some(r)),
            ) => r.id@ == id@ && r.status == ResponseStatus::Success && next
                == UpgradePhase::Reconnecting { workers } && action == UpgradeAction::Reconnect,
            _ => false,
        },
{
}

/// Every worker upgrade asked for names the running worker at its position
/// in the list of running workers, counted from one, and gives their count;
/// the first comes right after reconnecting and each next one follows the
/// previous; once none is left the upgrade ends well.
pub proof fn law_upgrade_workers(
    phase: UpgradePhase,
    event: UpgradeEvent,
    next: UpgradePhase,
    action: UpgradeAction,
)
    requires
        crate::ctl::upgrade::upgrade_step_spec(phase, event, next, action),
    ensures
        match action {
            UpgradeAction::UpgradeWorker { worker_id, position, count } => match next {
                UpgradePhase::UpgradingWorkers { running, next: index } => position == index + 1
                    && count == running@.len() && index < running@.len() && worker_id
                    == running@[index as int],
                _ => false,
            },
            _ => true,
        },
        match phase {
            UpgradePhase::Reconnecting { workers } => {
                &&& (action is UpgradeWorker <==> crate::ctl::upgrade::running_ids(workers@).len()
                    > 0)
                &&& (action is UpgradeWorker ==> action->position == 1 && match next {
                    UpgradePhase::UpgradingWorkers { running, .. } => running@
                        == crate::ctl::upgrade::running_ids(workers@),
                    _ => false,
                })
                &&& (!(action is UpgradeWorker) ==> next == UpgradePhase::Finished && action
                    == UpgradeAction::Finish(
                    Decision { notice: Notice::ProxyUpgraded, result: Ok(()) },
                ))
            },
            UpgradePhase::UpgradingWorkers { running, next: index } => {
                &&& (action is UpgradeWorker <==> index + 1 < running@.len())
                &&& (action is UpgradeWorker ==> action->position == index + 2 && match next {
                    UpgradePhase::UpgradingWorkers { running: r2, .. } => r2 == running,
                    _ => false,
                })
                &&& (!(action is UpgradeWorker) ==> next == UpgradePhase::Finished && action
                    == UpgradeAction::Finish(
                    Decision { notice: Notice::ProxyUpgraded, result: Ok(()) },
                ))
            },
            _ => true,
        },
{
    match next {
        UpgradePhase::UpgradingWorkers { running, .. } => {
            vstd::std_specs::vec::axiom_spec_len(&running);
        },
        _ => {},
    }
    match phase {
        UpgradePhase::UpgradingWorkers { running, .. } => {
            vstd::std_specs::vec::axiom_spec_len(&running);
        },
        UpgradePhase::Reconnecting { workers } => {
            let running = choose|running: Vec<u32>|
                running@ == crate::ctl::upgrade::running_ids(workers@)
                    && crate::ctl::upgrade::worker_turn(running, 0, next, action);
            vstd::std_specs::vec::axiom_spec_len(&running);
        },
        _ => {},
    }
}

} // verus!
