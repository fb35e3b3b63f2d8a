use sozu::ctl::ids::{generate_id, generate_tagged_id, join_tag};
use sozu::ctl::metrics::{metrics_round, MetricsRound};
use sozu::ctl::queries::{
    certificate_query, cluster_query, metrics_setting, split_domain, CertificateQuery,
    ClusterQuery, HexError, MetricsCmd, MetricsSetting,
};
use sozu::ctl::reply::{
    check_reply, configure_metrics_reply, dump_state_reply, events_reply, hard_stop_reply,
    list_frontends_reply, load_state_reply, order_command_reply, query_certificate_reply,
    query_cluster_reply, reload_configuration_reply, save_state_reply, soft_stop_reply,
    status_reply, upgrade_worker_reply, CommandError, Decision, Notice, Reply, ReplyContent,
    ResponseStatus, RunState, WorkerEntry,
};
use sozu::ctl::upgrade::{
    running_worker_ids, upgrade_step, UpgradeAction, UpgradeEvent, UpgradePhase,
};

fn reply(id: &str, status: ResponseStatus, message: &str, content: ReplyContent) -> Option<Reply> {
    Some(Reply { id: id.to_string(), status, message: message.to_string(), content })
}

fn done(notice: Notice) -> Decision {
    Decision { notice, result: Ok(()) }
}

fn fail(e: CommandError) -> Decision {
    Decision { notice: Notice::Silent, result: Err(e) }
}

fn sent() -> String {
    "ID-abc123".to_string()
}

#[test]
fn ids_have_tag_dash_and_six_alphanumerics() {
    let id = generate_id();
    assert_eq!(id.len(), 9);
    assert!(id.starts_with("ID-"));
    assert!(id[3..].chars().all(|c| c.is_ascii_alphanumeric()));

    let id = generate_tagged_id("LIST-WORKERS");
    assert_eq!(id.len(), "LIST-WORKERS".len() + 7);
    assert!(id.starts_with("LIST-WORKERS-"));
    assert!(id["LIST-WORKERS-".len()..].chars().all(|c| c.is_ascii_alphanumeric()));

    assert_eq!(join_tag("UPGRADE-MAIN", "x1Y2z3"), "UPGRADE-MAIN-x1Y2z3");
}

#[test]
fn metrics_commands() {
    assert_eq!(metrics_setting(MetricsCmd::Enable), Ok(MetricsSetting::Enabled(true)));
    assert_eq!(metrics_setting(MetricsCmd::Disable), Ok(MetricsSetting::Enabled(false)));
    assert_eq!(metrics_setting(MetricsCmd::Clear), Ok(MetricsSetting::Clear));
    assert_eq!(metrics_setting(MetricsCmd::Get), Err(CommandError::NotAMetricsConfiguration));
}

#[test]
fn domains_split_at_the_first_slash() {
    assert_eq!(
        split_domain("example.com/api/v1"),
        ("example.com".to_string(), Some("/api/v1".to_string()))
    );
    assert_eq!(split_domain("example.com"), ("example.com".to_string(), None));
    assert_eq!(split_domain("example.com/"), ("example.com".to_string(), Some("/".to_string())));
    assert_eq!(split_domain(""), ("".to_string(), None));
    assert_eq!(split_domain("/a"), ("".to_string(), Some("/a".to_string())));
}

#[test]
fn cluster_queries() {
    assert_eq!(
        cluster_query(&Some("app".to_string()), &Some("d".to_string())),
        Err(CommandError::ClusterIdAndDomain)
    );
    assert_eq!(
        cluster_query(&Some("app".to_string()), &None),
        Ok(ClusterQuery::ClusterId("app".to_string()))
    );
    assert_eq!(
        cluster_query(&None, &Some("lolcatho.st/api".to_string())),
        Ok(ClusterQuery::Domain {
            hostname: "lolcatho.st".to_string(),
            path: Some("/api".to_string())
        })
    );
    assert_eq!(cluster_query(&None, &None), Ok(ClusterQuery::Hashes));
}

#[test]
fn certificate_queries() {
    assert_eq!(certificate_query(&None, &None), Ok(CertificateQuery::All));
    assert_eq!(
        certificate_query(&Some("0aFf10".to_string()), &None),
        Ok(CertificateQuery::Fingerprint(vec![0x0a, 0xff, 0x10]))
    );
    assert_eq!(
        certificate_query(&Some("abc".to_string()), &None),
        Err(CommandError::InvalidFingerprint(HexError::OddLength))
    );
    assert_eq!(
        certificate_query(&Some("0g12".to_string()), &None),
        Err(CommandError::InvalidFingerprint(HexError::InvalidHexCharacter { c: 'g', index: 1 }))
    );
    assert_eq!(
        certificate_query(&None, &Some("example.com".to_string())),
        Ok(CertificateQuery::Domain("example.com".to_string()))
    );
    assert_eq!(
        certificate_query(&Some("00".to_string()), &Some("example.com".to_string())),
        Err(CommandError::FingerprintAndDomain)
    );
}

#[test]
fn replies_are_checked_against_the_sent_id() {
    let s = sent();
    assert_eq!(check_reply(&s, None), Err(CommandError::Timeout));
    assert_eq!(
        check_reply(&s, reply("ID-other", ResponseStatus::Success, "", ReplyContent::Empty)),
        Err(CommandError::InvalidId)
    );
    assert!(check_reply(&s, reply("ID-abc123", ResponseStatus::Success, "", ReplyContent::Empty))
        .is_ok());
    assert_eq!(
        save_state_reply(&s, reply("ID-other", ResponseStatus::Error, "m", ReplyContent::Empty)),
        fail(CommandError::InvalidId)
    );
    assert_eq!(
        order_command_reply(&s, reply("ID-x", ResponseStatus::Success, "m", ReplyContent::Empty)),
        fail(CommandError::InvalidId)
    );
}

#[test]
fn state_commands() {
    let s = sent();
    assert_eq!(save_state_reply(&s, None), fail(CommandError::Timeout));
    assert_eq!(
        save_state_reply(&s, reply("ID-abc123", ResponseStatus::Success, "ok", ReplyContent::Empty)),
        done(Notice::Message)
    );
    assert_eq!(
        save_state_reply(&s, reply("ID-abc123", ResponseStatus::Error, "disk", ReplyContent::Empty)),
        fail(CommandError::SaveStateFailed("disk".to_string()))
    );
    assert_eq!(
        load_state_reply(&s, reply("ID-abc123", ResponseStatus::Success, "", ReplyContent::Empty)),
        done(Notice::StateLoaded)
    );
    assert_eq!(
        load_state_reply(&s, reply("ID-abc123", ResponseStatus::Processing, "", ReplyContent::Empty)),
        done(Notice::Silent)
    );
    assert_eq!(
        dump_state_reply(&s, reply("ID-abc123", ResponseStatus::Success, "", ReplyContent::State), true),
        done(Notice::JsonState)
    );
    assert_eq!(
        dump_state_reply(&s, reply("ID-abc123", ResponseStatus::Success, "", ReplyContent::State), false),
        done(Notice::DebugState)
    );
    assert_eq!(
        dump_state_reply(&s, reply("ID-abc123", ResponseStatus::Success, "", ReplyContent::Empty), false),
        fail(CommandError::EmptyStateDump)
    );
    assert_eq!(
        dump_state_reply(&s, reply("ID-abc123", ResponseStatus::Error, "e", ReplyContent::Empty), true),
        Decision {
            notice: Notice::JsonMessage,
            result: Err(CommandError::DumpStateFailed("e".to_string()))
        }
    );
}

#[test]
fn stop_commands() {
    let s = sent();
    assert_eq!(
        soft_stop_reply(&s, reply("ID-abc123", ResponseStatus::Processing, "", ReplyContent::Empty)),
        done(Notice::ProxyProcessing)
    );
    assert_eq!(
        soft_stop_reply(&s, reply("ID-abc123", ResponseStatus::Success, "", ReplyContent::Empty)),
        done(Notice::ProxyShutDownQuoted)
    );
    assert_eq!(
        hard_stop_reply(&s, reply("ID-other", ResponseStatus::Success, "", ReplyContent::Empty)),
        done(Notice::Silent)
    );
    assert_eq!(
        hard_stop_reply(&s, reply("ID-abc123", ResponseStatus::Success, "", ReplyContent::Empty)),
        done(Notice::ProxyShutDown)
    );
    assert_eq!(
        hard_stop_reply(&s, reply("ID-other", ResponseStatus::Error, "no", ReplyContent::Empty)),
        fail(CommandError::StopFailed("no".to_string()))
    );
    assert_eq!(upgrade_worker_reply(&s, None, 3), fail(CommandError::NoWorkerReply(3)));
    assert_eq!(
        upgrade_worker_reply(&s, reply("ID-other", ResponseStatus::Error, "x", ReplyContent::Empty), 3),
        fail(CommandError::WorkerStopFailed(3, "x".to_string()))
    );
    assert_eq!(
        upgrade_worker_reply(&s, reply("ID-abc123", ResponseStatus::Success, "x", ReplyContent::Empty), 3),
        done(Notice::WorkerShutDown)
    );
}

#[test]
fn status_command() {
    let s = sent();
    assert_eq!(status_reply(&s, None, false), fail(CommandError::NoReply));
    assert_eq!(
        status_reply(&s, reply("ID-abc123", ResponseStatus::Processing, "", ReplyContent::Empty), false),
        fail(CommandError::NotImmediate)
    );
    assert_eq!(
        status_reply(&s, reply("ID-abc123", ResponseStatus::Success, "", ReplyContent::Status), false),
        done(Notice::WorkerStatus)
    );
    assert_eq!(
        status_reply(&s, reply("ID-abc123", ResponseStatus::Success, "", ReplyContent::Empty), false),
        fail(CommandError::NoData)
    );
    assert_eq!(
        status_reply(&s, reply("ID-abc123", ResponseStatus::Success, "", ReplyContent::Query), false),
        fail(CommandError::WrongResponseKind)
    );
}

#[test]
fn other_commands() {
    let s = sent();
    assert_eq!(
        configure_metrics_reply(&s, reply("ID-abc123", ResponseStatus::Success, "", ReplyContent::Empty)),
        done(Notice::MetricsConfigured)
    );
    assert_eq!(
        reload_configuration_reply(&s, reply("ID-abc123", ResponseStatus::Success, "", ReplyContent::Empty), false),
        done(Notice::Reloaded)
    );
    assert_eq!(
        reload_configuration_reply(&s, reply("ID-abc123", ResponseStatus::Processing, "", ReplyContent::Empty), false),
        fail(CommandError::NotImmediate)
    );
    assert_eq!(
        list_frontends_reply(&s, reply("ID-abc123", ResponseStatus::Error, "", ReplyContent::Empty)),
        done(Notice::QueryFailed)
    );
    assert_eq!(
        list_frontends_reply(&s, reply("ID-abc123", ResponseStatus::Success, "", ReplyContent::FrontendList)),
        done(Notice::ContentLoggedAndFrontends)
    );
    assert_eq!(
        query_cluster_reply(&s, reply("ID-abc123", ResponseStatus::Processing, "", ReplyContent::Empty), false),
        done(Notice::Message)
    );
    assert_eq!(
        query_certificate_reply(&s, reply("ID-abc123", ResponseStatus::Error, "e", ReplyContent::Empty), true),
        Decision { notice: Notice::JsonMessage, result: Err(CommandError::ErrorReceived) }
    );
    assert_eq!(
        query_certificate_reply(&s, reply("ID-abc123", ResponseStatus::Success, "", ReplyContent::Empty), true),
        fail(CommandError::UnexpectedResponse)
    );
    assert_eq!(
        events_reply(reply("any", ResponseStatus::Processing, "w1", ReplyContent::Event)),
        done(Notice::Event)
    );
    assert_eq!(
        events_reply(reply("any", ResponseStatus::Error, "e", ReplyContent::Empty)),
        fail(CommandError::EventsFailed("e".to_string()))
    );
}

#[test]
fn metrics_rounds() {
    let s = sent();
    assert_eq!(
        metrics_round(&s, reply("ID-abc123", ResponseStatus::Success, "", ReplyContent::Metrics), false, None),
        MetricsRound::Finish(done(Notice::Metrics))
    );
    assert_eq!(
        metrics_round(&s, reply("ID-abc123", ResponseStatus::Success, "", ReplyContent::Query), false, Some(2)),
        MetricsRound::Repeat { notice: Notice::AvailableMetrics, seconds: 2 }
    );
    assert_eq!(
        metrics_round(&s, reply("ID-abc123", ResponseStatus::Error, "x", ReplyContent::Empty), true, Some(2)),
        MetricsRound::Finish(done(Notice::JsonMessage))
    );
    assert_eq!(
        metrics_round(&s, reply("ID-abc123", ResponseStatus::Error, "x", ReplyContent::Empty), false, Some(2)),
        MetricsRound::Finish(fail(CommandError::QueryFailed("x".to_string())))
    );
    assert_eq!(metrics_round(&s, None, false, Some(2)), MetricsRound::Finish(fail(CommandError::Timeout)));
}

fn worker(id: u32, run_state: RunState) -> WorkerEntry {
    WorkerEntry { id, pid: 100 + id as i32, run_state }
}

#[test]
fn only_running_workers_are_upgraded() {
    let ws = vec![
        worker(0, RunState::Running),
        worker(1, RunState::Stopped),
        worker(2, RunState::Running),
        worker(3, RunState::NotAnswering),
    ];
    assert_eq!(running_worker_ids(&ws), vec![0, 2]);
}

#[test]
fn upgrade_runs_through_its_phases() {
    let (phase, action) = upgrade_step(UpgradePhase::Start, UpgradeEvent::Begin);
    let list_id = match &action {
        UpgradeAction::ListWorkers { id } => id.clone(),
        other => panic!("unexpected {:?}", other),
    };
    assert!(list_id.starts_with("LIST-WORKERS-"));
    let workers = vec![worker(4, RunState::Running), worker(5, RunState::Stopping), worker(6, RunState::Running)];
    let (phase, action) = upgrade_step(
        phase,
        UpgradeEvent::Reply(Some(Reply {
            id: list_id,
            status: ResponseStatus::Success,
            message: String::new(),
            content: ReplyContent::Workers(workers),
        })),
    );
    let main_id = match &action {
        UpgradeAction::UpgradeMain { id } => id.clone(),
        other => panic!("unexpected {:?}", other),
    };
    assert!(main_id.starts_with("UPGRADE-MAIN-"));
    let (phase, action) = upgrade_step(
        phase,
        UpgradeEvent::Reply(reply(&main_id, ResponseStatus::Processing, "", ReplyContent::Empty)),
    );
    assert_eq!(action, UpgradeAction::AwaitMain);
    let (phase, action) = upgrade_step(
        phase,
        UpgradeEvent::Reply(reply(&main_id, ResponseStatus::Success, "up", ReplyContent::Empty)),
    );
    assert_eq!(action, UpgradeAction::Reconnect);
    let (phase, action) = upgrade_step(phase, UpgradeEvent::Reconnected);
    assert_eq!(action, UpgradeAction::UpgradeWorker { worker_id: 4, position: 1, count: 2 });
    let (phase, action) = upgrade_step(phase, UpgradeEvent::WorkerUpgraded);
    assert_eq!(action, UpgradeAction::UpgradeWorker { worker_id: 6, position: 2, count: 2 });
    let (phase, action) = upgrade_step(phase, UpgradeEvent::WorkerUpgraded);
    assert_eq!(action, UpgradeAction::Finish(done(Notice::ProxyUpgraded)));
    assert_eq!(phase, UpgradePhase::Finished);
}

#[test]
fn upgrade_stops_on_failures() {
    let (phase, action) = upgrade_step(UpgradePhase::Start, UpgradeEvent::Begin);
    assert!(matches!(action, UpgradeAction::ListWorkers { .. }));
    let (phase2, action) = upgrade_step(
        phase,
        UpgradeEvent::Reply(reply("other", ResponseStatus::Success, "", ReplyContent::Empty)),
    );
    assert_eq!(action, UpgradeAction::Finish(fail(CommandError::UnexpectedMessage)));
    assert_eq!(phase2, UpgradePhase::Finished);

    let phase = UpgradePhase::ListingWorkers { id: "LIST-WORKERS-aaaaaa".to_string() };
    let (_, action) = upgrade_step(
        phase,
        UpgradeEvent::Reply(reply("LIST-WORKERS-aaaaaa", ResponseStatus::Error, "no", ReplyContent::Empty)),
    );
    assert_eq!(action, UpgradeAction::Finish(fail(CommandError::ListWorkersFailed("no".to_string()))));

    let phase = UpgradePhase::UpgradingMain { id: "UPGRADE-MAIN-bbbbbb".to_string(), workers: vec![] };
    let (_, action) = upgrade_step(phase, UpgradeEvent::Reply(None));
    assert_eq!(action, UpgradeAction::Finish(fail(CommandError::Timeout)));

    let phase = UpgradePhase::Reconnecting { workers: vec![worker(1, RunState::Stopped)] };
    let (_, action) = upgrade_step(phase, UpgradeEvent::Reconnected);
    assert_eq!(action, UpgradeAction::Finish(done(Notice::ProxyUpgraded)));
}
