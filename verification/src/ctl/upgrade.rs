//! The upgrade of the proxy: list the workers, upgrade the main process,
//! reconnect to it, then upgrade each running worker in turn.
use vstd::prelude::*;

use crate::ctl::ids::generate_tagged_id;
use crate::ctl::reply;
use crate::ctl::reply::{CommandError, Decision, Notice, Reply, ReplyContent, ResponseStatus, RunState, WorkerEntry};

verus! {

/// The ids of the running workers, in the order of the list.
pub open spec fn running_ids(workers: Seq<WorkerEntry>) -> Seq<u32>
    decreases workers.len(),
{
    if workers.len() == 0 {
        Seq::<u32>::empty()
    } else {
        let rest = running_ids(workers.drop_last());
        if workers.last().run_state == RunState::Running {
            rest.push(workers.last().id)
        } else {
            rest
        }
    }
}

/// The ids of the running workers, in the order of the list.
pub fn running_worker_ids(workers: &Vec<WorkerEntry>) -> (ids: Vec<u32>)
    ensures
        ids@ == running_ids(workers@),
{
    let mut ids: Vec<u32> = Vec::new();
    let mut i: usize = 0;
    while i < workers.len()
        invariant
            i <= workers@.len(),
            ids@ == running_ids(workers@.take(i as int)),
        decreases workers@.len() - i,
    {
        proof {
            assert(workers@.take(i + 1).drop_last() =~= workers@.take(i as int));
        }
        let w = workers[i];
        match w.run_state {
            RunState::Running => ids.push(w.id),
            _ => {},
        }
        i = i + 1;
    }
    proof {
        assert(workers@.take(workers@.len() as int) =~= workers@);
    }
    ids
}

/// An id is in the list of running workers exactly when some running
/// worker of the list has it, and the list is no longer than the workers.
pub proof fn law_running_ids(workers: Seq<WorkerEntry>)
    ensures
        running_ids(workers).len() <= workers.len(),
        forall|x: u32|
            running_ids(workers).contains(x) <==> exists|j: int|
                0 <= j < workers.len() && #[trigger] workers[j].id == x && workers[j].run_state
                    == RunState::Running,
    decreases workers.len(),
{
    if workers.len() > 0 {
        let init = workers.drop_last();
        law_running_ids(init);
        let rest = running_ids(init);
        assert forall|x: u32|
            running_ids(workers).contains(x) <==> exists|j: int|
                0 <= j < workers.len() && #[trigger] workers[j].id == x && workers[j].run_state
                    == RunState::Running by {
            if running_ids(workers).contains(x) {
                let k = choose|k: int| 0 <= k < running_ids(workers).len() && running_ids(workers)[k] == x;
                if k < rest.len() {
                    assert(rest.contains(x));
                    let j = choose|j: int|
                        0 <= j < init.len() && #[trigger] init[j].id == x && init[j].run_state
                            == RunState::Running;
                    assert(workers[j] == init[j]);
                } else {
                    assert(workers[workers.len() - 1].id == x);
                }
            }
            if exists|j: int|
                0 <= j < workers.len() && #[trigger] workers[j].id == x && workers[j].run_state
                    == RunState::Running {
                let j = choose|j: int|
                    0 <= j < workers.len() && #[trigger] workers[j].id == x && workers[j].run_state
                        == RunState::Running;
                if j < workers.len() - 1 {
                    assert(init[j] == workers[j]);
                    assert(rest.contains(x));
                    let k = choose|k: int| 0 <= k < rest.len() && rest[k] == x;
                    assert(running_ids(workers)[k] == x);
                } else {
                    assert(running_ids(workers)[running_ids(workers).len() - 1] == x);
                }
            }
        }
    }
}

/// Where the upgrade stands.
#[derive(PartialEq, Eq, Debug)]
pub enum UpgradePhase {
    /// Nothing has been sent yet.
    Start,
    /// The worker list was asked for with `id`.
    ListingWorkers { id: String },
    /// The main process was asked to upgrade with `id`.
    UpgradingMain { id: String, workers: Vec<WorkerEntry> },
    /// The main process upgraded; the client is reconnecting to it.
    Reconnecting { workers: Vec<WorkerEntry> },
    /// The worker `running[next]` is being upgraded.
    UpgradingWorkers { running: Vec<u32>, next: usize },
    /// The upgrade is over.
    Finished,
}

/// What happened since the last step.
#[derive(PartialEq, Eq, Debug)]
pub enum UpgradeEvent {
    /// The user asked for the upgrade.
    Begin,
    /// A reply was read, or none came before the timeout.
    Reply(Option<Reply>),
    /// The client reconnected to the new main process.
    Reconnected,
    /// The worker being upgraded was upgraded.
    WorkerUpgraded,
}

/// What the client does next.
#[derive(PartialEq, Eq, Debug)]
pub enum UpgradeAction {
    /// Announce the upgrade, ask for the worker list with `id`, read a reply.
    ListWorkers { id: String },
    /// Show the workers, ask the main process to upgrade with `id`,
    /// announce it, read a reply.
    UpgradeMain { id: String },
    /// Say that the main process is upgrading, read a reply.
    AwaitMain,
    /// Report that the main process upgraded, reconnect to it.
    Reconnect,
    /// Announce the upgrade of worker `worker_id`, number `position` out of
    /// `count`, and upgrade it.
    UpgradeWorker { worker_id: u32, position: usize, count: usize },
    /// Show the notice and end the upgrade with the decision's result.
    Finish(Decision),
}

/// The events that can follow each phase.
pub open spec fn expects(phase: UpgradePhase, event: UpgradeEvent) -> bool {
    match phase {
        UpgradePhase::Start => event is Begin,
        UpgradePhase::ListingWorkers { .. } => event is Reply,
        UpgradePhase::UpgradingMain { .. } => event is Reply,
        UpgradePhase::Reconnecting { .. } => event is Reconnected,
        UpgradePhase::UpgradingWorkers { running, next } => event is WorkerUpgraded && next
            < running@.len(),
        UpgradePhase::Finished => false,
    }
}

pub open spec fn finish(next: UpgradePhase, action: UpgradeAction, d: Decision) -> bool {
    next == UpgradePhase::Finished && action == UpgradeAction::Finish(d)
}

/// The next worker upgrade, or the end of the upgrade once no running
/// worker is left.
pub open spec fn worker_turn(
    running: Vec<u32>,
    index: int,
    next: UpgradePhase,
    action: UpgradeAction,
) -> bool {
    if index < running@.len() {
        &&& next == UpgradePhase::UpgradingWorkers { running, next: index as usize }
        &&& action == UpgradeAction::UpgradeWorker {
            worker_id: running@[index],
            position: (index + 1) as usize,
            count: running@.len() as usize,
        }
    } else {
        finish(next, action, reply::done(Notice::ProxyUpgraded))
    }
}

/// One step of the upgrade: from the phase and what happened, the next
/// phase and what to do. A new request gets a fresh id tagged
/// `LIST-WORKERS` or `UPGRADE-MAIN`.
pub open spec fn upgrade_step_spec(
    phase: UpgradePhase,
    event: UpgradeEvent,
    next: UpgradePhase,
    action: UpgradeAction,
) -> bool {
    match phase {
        UpgradePhase::Start => action matches UpgradeAction::ListWorkers { id }
            && crate::ctl::ids::is_tagged_id("LIST-WORKERS"@, id@)
            && next == UpgradePhase::ListingWorkers { id },
        UpgradePhase::ListingWorkers { id } => match event {
            UpgradeEvent::Reply(None) => finish(next, action, reply::fail(CommandError::Timeout)),
            UpgradeEvent::Reply(Some(r)) => if r.id@ != id@ {
                finish(next, action, reply::fail(CommandError::UnexpectedMessage))
            } else {
                match r.status {
                    ResponseStatus::Processing => finish(
                        next,
                        action,
                        reply::done(Notice::WorkersNotImmediate),
                    ),
                    ResponseStatus::Error => finish(
                        next,
                        action,
                        reply::fail(CommandError::ListWorkersFailed(r.message)),
                    ),
                    ResponseStatus::Success => match r.content {
                        ReplyContent::Workers(workers) => action matches UpgradeAction::UpgradeMain {
                            id: id2,
                        } && crate::ctl::ids::is_tagged_id("UPGRADE-MAIN"@, id2@) && next
                            == UpgradePhase::UpgradingMain { id: id2, workers },
                        _ => finish(next, action, reply::done(Notice::Silent)),
                    },
                }
            },
            _ => false,
        },
        UpgradePhase::UpgradingMain { id, workers } => match event {
            UpgradeEvent::Reply(None) => finish(next, action, reply::fail(CommandError::Timeout)),
            UpgradeEvent::Reply(Some(r)) => if r.id@ != id@ {
                finish(next, action, reply::fail(CommandError::UnexpectedMessage))
            } else {
                match r.status {
                    ResponseStatus::Processing => next == UpgradePhase::UpgradingMain {
                        id,
                        workers,
                    } && action == UpgradeAction::AwaitMain,
                    ResponseStatus::Error => finish(
                        next,
                        action,
                        reply::fail(CommandError::UpgradeMainFailed(r.message)),
                    ),
                    ResponseStatus::Success => next == UpgradePhase::Reconnecting { workers }
                        && action == UpgradeAction::Reconnect,
                }
            },
            _ => false,
        },
        UpgradePhase::Reconnecting { workers } => exists|running: Vec<u32>|
            running@ == running_ids(workers@) && worker_turn(running, 0, next, action),
        UpgradePhase::UpgradingWorkers { running, next: index } => worker_turn(
            running,
            index + 1,
            next,
            action,
        ),
        UpgradePhase::Finished => false,
    }
}

fn finished(d: Decision) -> (res: (UpgradePhase, UpgradeAction))
    ensures
        finish(res.0, res.1, d),
{
    (UpgradePhase::Finished, UpgradeAction::Finish(d))
}

fn next_worker(running: Vec<u32>, index: usize) -> (res: (UpgradePhase, UpgradeAction))
    ensures
        worker_turn(running, index as int, res.0, res.1),
{
    if index < running.len() {
        let worker_id = running[index];
        let count = running.len();
        (
            UpgradePhase::UpgradingWorkers { running, next: index },
            UpgradeAction::UpgradeWorker { worker_id, position: index + 1, count },
        )
    } else {
        finished(Decision { notice: Notice::ProxyUpgraded, result: Ok(()) })
    }
}

/// One step of the upgrade: the next phase and what to do.
pub fn upgrade_step(phase: UpgradePhase, event: UpgradeEvent) -> (res: (UpgradePhase, UpgradeAction))
    requires
        expects(phase, event),
    ensures
        upgrade_step_spec(phase, event, res.0, res.1),
{
    match phase {
        UpgradePhase::Start => {
            let id = generate_tagged_id("LIST-WORKERS");
            let sent = id.clone();
            (UpgradePhase::ListingWorkers { id }, UpgradeAction::ListWorkers { id: sent })
        },
        UpgradePhase::ListingWorkers { id } => match event {
            UpgradeEvent::Reply(None) => finished(
                Decision { notice: Notice::Silent, result: Err(CommandError::Timeout) },
            ),
            UpgradeEvent::Reply(Some(r)) => if !(r.id == id) {
                finished(Decision { notice: Notice::Silent, result: Err(CommandError::UnexpectedMessage) })
            } else {
                match r.status {
                    ResponseStatus::Processing => finished(
                        Decision { notice: Notice::WorkersNotImmediate, result: Ok(()) },
                    ),
                    ResponseStatus::Error => finished(
                        Decision {
                            notice: Notice::Silent,
                            result: Err(CommandError::ListWorkersFailed(r.message)),
                        },
                    ),
                    ResponseStatus::Success => match r.content {
                        ReplyContent::Workers(workers) => {
                            let id2 = generate_tagged_id("UPGRADE-MAIN");
                            let sent = id2.clone();
                            (
                                UpgradePhase::UpgradingMain { id: id2, workers },
                                UpgradeAction::UpgradeMain { id: sent },
                            )
                        },
                        _ => finished(Decision { notice: Notice::Silent, result: Ok(()) }),
                    },
                }
            },
            _ => (UpgradePhase::Finished, UpgradeAction::AwaitMain),
        },
        UpgradePhase::UpgradingMain { id, workers } => match event {
            UpgradeEvent::Reply(None) => finished(
                Decision { notice: Notice::Silent, result: Err(CommandError::Timeout) },
            ),
            UpgradeEvent::Reply(Some(r)) => if !(r.id == id) {
                finished(Decision { notice: Notice::Silent, result: Err(CommandError::UnexpectedMessage) })
            } else {
                match r.status {
                    ResponseStatus::Processing => (
                        UpgradePhase::UpgradingMain { id, workers },
                        UpgradeAction::AwaitMain,
                    ),
                    ResponseStatus::Error => finished(
                        Decision {
                            notice: Notice::Silent,
                            result: Err(CommandError::UpgradeMainFailed(r.message)),
                        },
                    ),
                    ResponseStatus::Success => (
                        UpgradePhase::Reconnecting { workers },
                        UpgradeAction::Reconnect,
                    ),
                }
            },
            _ => (UpgradePhase::Finished, UpgradeAction::AwaitMain),
        },
        UpgradePhase::Reconnecting { workers } => {
            let running = running_worker_ids(&workers);
            next_worker(running, 0)
        },
        UpgradePhase::UpgradingWorkers { running, next } => {
            let count = running.len();
            assert(next < count);
            next_worker(running, next + 1)
        },
        UpgradePhase::Finished => (UpgradePhase::Finished, UpgradeAction::AwaitMain),
    }
}

} // verus!
