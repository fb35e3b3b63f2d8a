//! The metrics query, which the client repeats at a fixed interval when
//! asked to refresh.
use vstd::prelude::*;

use crate::ctl::reply;
use crate::ctl::reply::{
    check_reply, CommandError, Decision, Notice, Reply, ReplyContent, ResponseStatus,
};

verus! {

/// What the client does after one round of the metrics query.
#[derive(PartialEq, Eq, Debug)]
pub enum MetricsRound {
    /// Show the notice, then end the command with the decision's result.
    Finish(Decision),
    /// Show the notice (a failure to print ends the command), wait
    /// `seconds`, clear what was shown and query again.
    Repeat { notice: Notice, seconds: u32 },
}

pub open spec fn spec_after_round(notice: Notice, refresh: Option<u32>) -> MetricsRound {
    match refresh {
        None => MetricsRound::Finish(reply::done(notice)),
        Some(seconds) => MetricsRound::Repeat { notice, seconds },
    }
}

pub open spec fn spec_metrics_round(
    sent: Seq<char>,
    reply: Option<Reply>,
    json: bool,
    refresh: Option<u32>,
) -> MetricsRound {
    match reply::checked(sent, reply) {
        Err(e) => MetricsRound::Finish(reply::fail(e)),
        Ok(r) => match r.status {
            ResponseStatus::Processing => spec_after_round(Notice::Silent, refresh),
            ResponseStatus::Error => if json {
                MetricsRound::Finish(reply::done(Notice::JsonMessage))
            } else {
                MetricsRound::Finish(reply::fail(CommandError::QueryFailed(r.message)))
            },
            ResponseStatus::Success => spec_after_round(
                match r.content {
                    ReplyContent::Metrics => Notice::Metrics,
                    ReplyContent::Query => Notice::AvailableMetrics,
                    _ => Notice::WrongKind,
                },
                refresh,
            ),
        },
    }
}

fn after_round(notice: Notice, refresh: Option<u32>) -> (m: MetricsRound)
    ensures
        m == spec_after_round(notice, refresh),
{
    match refresh {
        None => MetricsRound::Finish(Decision { notice, result: Ok(()) }),
        Some(seconds) => MetricsRound::Repeat { notice, seconds },
    }
}

/// The decision on the reply to one round of the metrics query: whether to
/// end the command, or to query again after `refresh` seconds.
pub fn metrics_round(sent: &String, reply: Option<Reply>, json: bool, refresh: Option<u32>) -> (m:
    MetricsRound)
    ensures
        m == spec_metrics_round(sent@, reply, json, refresh),
{
    match check_reply(sent, reply) {
        Err(e) => MetricsRound::Finish(Decision { notice: Notice::Silent, result: Err(e) }),
        Ok(r) => match r.status {
            ResponseStatus::Processing => after_round(Notice::Silent, refresh),
            ResponseStatus::Error => if json {
                MetricsRound::Finish(Decision { notice: Notice::JsonMessage, result: Ok(()) })
            } else {
                MetricsRound::Finish(
                    Decision {
                        notice: Notice::Silent,
                        result: Err(CommandError::QueryFailed(r.message)),
                    },
                )
            },
            ResponseStatus::Success => after_round(
                match r.content {
                    ReplyContent::Metrics => Notice::Metrics,
                    ReplyContent::Query => Notice::AvailableMetrics,
                    _ => Notice::WrongKind,
                },
                refresh,
            ),
        },
    }
}

} // verus!
