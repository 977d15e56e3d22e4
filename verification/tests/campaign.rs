use http_load_tester::campaign::{
    Action, Campaign, CampaignError, Event, Phase, PrepareStep, UploadStep, PAUSE_SECS,
};
use http_load_tester::paths::ArtifactKind;
use http_load_tester::request::{
    campaign_config, iterations_or_default, CampaignConfig, LogFormat, RunRequest,
};
use http_load_tester::scenario::build_scenario;

fn request(iterations: usize, bucket: Option<&str>) -> RunRequest {
    RunRequest {
        host: "http://x".to_string(),
        users: 1,
        start_time: "1s".to_string(),
        run_time: "2s".to_string(),
        iterations,
        compress: false,
        log_dir: None,
        report_name: None,
        bucket: bucket.map(|name| name.to_string()),
    }
}

/// Stands in for the directory, the engine, the disk and the storage service.
struct World {
    directory_exists: bool,
    directory_can_be_made: bool,
    failing_campaign: Option<usize>,
    unreadable: Option<String>,
    rejected: Option<String>,
}

fn kind_world() -> World {
    World {
        directory_exists: true,
        directory_can_be_made: true,
        failing_campaign: None,
        unreadable: None,
        rejected: None,
    }
}

fn contents_of(path: &str) -> Vec<u8> {
    format!("contents of {}", path).into_bytes()
}

fn answer(world: &World, action: &Action) -> Option<Event> {
    match action {
        Action::ProbeDirectory { .. } => {
            Some(Event::DirectoryProbed { exists: world.directory_exists })
        }
        Action::CreateDirectory { .. } => {
            if world.directory_can_be_made {
                Some(Event::DirectoryCreated)
            } else {
                Some(Event::DirectoryFailed)
            }
        }
        Action::RunCampaign { iteration, .. } => {
            if world.failing_campaign == Some(*iteration) {
                Some(Event::CampaignFailed)
            } else {
                Some(Event::CampaignFinished)
            }
        }
        Action::ReadArtifact { path } => {
            if world.unreadable.as_ref() == Some(path) {
                Some(Event::ArtifactUnreadable)
            } else {
                Some(Event::ArtifactRead { bytes: contents_of(path) })
            }
        }
        Action::PutObject { object_name, .. } => {
            if world.rejected.as_ref() == Some(object_name) {
                Some(Event::ObjectRejected)
            } else {
                Some(Event::ObjectStored)
            }
        }
        Action::Sleep { .. } => Some(Event::PauseElapsed),
        Action::Finish => None,
        Action::Abort { .. } => None,
    }
}

fn drive(campaign: &mut Campaign, world: &World) -> Vec<Action> {
    let mut actions = Vec::new();
    let mut next = campaign.step(Event::Start);
    let mut steps = 0;
    while let Some(action) = next {
        actions.push(action.clone());
        steps += 1;
        assert!(steps < 10_000);
        match answer(world, &action) {
            Some(event) => next = campaign.step(event),
            None => break,
        }
    }
    actions
}

fn written_files(actions: &[Action]) -> Vec<String> {
    let mut files = Vec::new();
    for action in actions {
        if let Action::RunCampaign { config, .. } = action {
            files.push(config.report_file.clone());
            files.push(config.request_log.clone());
        }
    }
    files
}

fn started(actions: &[Action]) -> Vec<usize> {
    let mut iterations = Vec::new();
    for action in actions {
        if let Action::RunCampaign { iteration, .. } = action {
            iterations.push(*iteration);
        }
    }
    iterations
}

fn stored(actions: &[Action]) -> Vec<(String, String, String)> {
    let mut objects = Vec::new();
    for action in actions {
        if let Action::PutObject { bucket, object_name, content_type, .. } = action {
            objects.push((bucket.clone(), object_name.clone(), content_type.clone()));
        }
    }
    objects
}

fn reads(actions: &[Action]) -> usize {
    actions.iter().filter(|a| matches!(a, Action::ReadArtifact { .. })).count()
}

fn pauses(actions: &[Action]) -> usize {
    actions.iter().filter(|a| matches!(a, Action::Sleep { .. })).count()
}

fn triple(bucket: &str, name: &str, content_type: &str) -> (String, String, String) {
    (bucket.to_string(), name.to_string(), content_type.to_string())
}

#[test]
fn two_iterations_without_bucket() {
    let mut campaign = Campaign::new(request(2, None), false);
    let actions = drive(&mut campaign, &kind_world());
    assert_eq!(
        written_files(&actions),
        vec![
            "/tmp/1-report.html".to_string(),
            "/tmp/1-requests.csv".to_string(),
            "/tmp/2-report.html".to_string(),
            "/tmp/2-requests.csv".to_string(),
        ]
    );
    assert_eq!(started(&actions), vec![1, 2]);
    assert_eq!(reads(&actions), 0);
    assert!(stored(&actions).is_empty());
    assert_eq!(actions.last(), Some(&Action::Finish));
    assert!(campaign.is_done());
    assert_eq!(campaign.failure(), None);
}

#[test]
fn two_iterations_without_bucket_step_by_step() {
    let mut campaign = Campaign::new(request(2, None), false);
    let actions = drive(&mut campaign, &kind_world());
    let base = request(2, None);
    assert_eq!(
        actions,
        vec![
            Action::ProbeDirectory { path: "/tmp".to_string() },
            Action::RunCampaign {
                iteration: 1,
                config: campaign_config(&base, 1, false),
                scenario: build_scenario(false),
            },
            Action::Sleep { seconds: 10 },
            Action::RunCampaign {
                iteration: 2,
                config: campaign_config(&base, 2, false),
                scenario: build_scenario(false),
            },
            Action::Finish,
        ]
    );
}

#[test]
fn two_iterations_with_bucket() {
    let mut campaign = Campaign::new(request(2, Some("b")), false);
    let actions = drive(&mut campaign, &kind_world());
    assert_eq!(
        written_files(&actions),
        vec![
            "/tmp/1-report.html".to_string(),
            "/tmp/1-requests.csv".to_string(),
            "/tmp/2-report.html".to_string(),
            "/tmp/2-requests.csv".to_string(),
        ]
    );
    assert_eq!(
        stored(&actions),
        vec![
            triple("b", "1-report.html", "text/html"),
            triple("b", "1-requests.csv", "text/csv"),
            triple("b", "2-report.html", "text/html"),
            triple("b", "2-requests.csv", "text/csv"),
        ]
    );
    assert_eq!(reads(&actions), 4);
    assert!(campaign.is_done());
}

#[test]
fn uploads_follow_their_campaign() {
    let mut campaign = Campaign::new(request(2, Some("b")), false);
    let actions = drive(&mut campaign, &kind_world());
    let kinds: Vec<&str> = actions
        .iter()
        .map(|a| match a {
            Action::ProbeDirectory { .. } => "probe",
            Action::CreateDirectory { .. } => "create",
            Action::RunCampaign { .. } => "run",
            Action::ReadArtifact { .. } => "read",
            Action::PutObject { .. } => "put",
            Action::Sleep { .. } => "sleep",
            Action::Finish => "finish",
            Action::Abort { .. } => "abort",
        })
        .collect();
    assert_eq!(
        kinds,
        vec![
            "probe", "run", "read", "put", "read", "put", "sleep", "run", "read", "put", "read",
            "put", "finish"
        ]
    );
}

#[test]
fn stored_bytes_are_the_bytes_read() {
    let mut campaign = Campaign::new(request(1, Some("b")), true);
    let actions = drive(&mut campaign, &kind_world());
    let mut seen = 0;
    for action in actions.iter() {
        if let Action::PutObject { bytes, object_name, .. } = action {
            let path = format!("/tmp/{}", object_name);
            assert_eq!(bytes, &contents_of(&path));
            assert!(!bytes.is_empty());
            seen += 1;
        }
    }
    assert_eq!(seen, 2);
    assert_eq!(
        stored(&actions),
        vec![
            triple("b", "1-compressed-report.html", "text/html"),
            triple("b", "1-compressed-requests.csv", "text/csv"),
        ]
    );
}

#[test]
fn failing_first_campaign_ends_the_sequence() {
    let mut campaign = Campaign::new(request(2, Some("b")), false);
    let mut world = kind_world();
    world.failing_campaign = Some(1);
    let actions = drive(&mut campaign, &world);
    assert_eq!(started(&actions), vec![1]);
    assert_eq!(reads(&actions), 0);
    assert!(stored(&actions).is_empty());
    assert_eq!(pauses(&actions), 0);
    assert_eq!(actions.last(), Some(&Action::Abort { error: CampaignError::Engine }));
    assert_eq!(actions.len(), 3);
    assert_eq!(campaign.phase, Phase::Failed(CampaignError::Engine));
    assert_eq!(campaign.failure(), Some(CampaignError::Engine));
    assert!(!campaign.is_done());
}

#[test]
fn failing_second_campaign_keeps_first_uploads() {
    let mut campaign = Campaign::new(request(3, Some("b")), false);
    let mut world = kind_world();
    world.failing_campaign = Some(2);
    let actions = drive(&mut campaign, &world);
    assert_eq!(started(&actions), vec![1, 2]);
    assert_eq!(
        stored(&actions),
        vec![triple("b", "1-report.html", "text/html"), triple("b", "1-requests.csv", "text/csv")]
    );
    assert_eq!(actions.last(), Some(&Action::Abort { error: CampaignError::Engine }));
}

#[test]
fn nothing_is_accepted_after_a_failure() {
    let mut campaign = Campaign::new(request(2, None), false);
    let mut world = kind_world();
    world.failing_campaign = Some(1);
    drive(&mut campaign, &world);
    let before = campaign.clone();
    let events = vec![
        Event::Start,
        Event::DirectoryProbed { exists: true },
        Event::DirectoryCreated,
        Event::DirectoryFailed,
        Event::CampaignFinished,
        Event::CampaignFailed,
        Event::ArtifactRead { bytes: vec![1] },
        Event::ArtifactUnreadable,
        Event::ObjectStored,
        Event::ObjectRejected,
        Event::PauseElapsed,
    ];
    for event in events {
        assert_eq!(campaign.step(event), None);
        assert_eq!(campaign, before);
    }
}

#[test]
fn nothing_is_accepted_after_the_end() {
    let mut campaign = Campaign::new(request(1, None), false);
    drive(&mut campaign, &kind_world());
    assert!(campaign.is_done());
    assert_eq!(campaign.step(Event::Start), None);
    assert_eq!(campaign.step(Event::PauseElapsed), None);
    assert_eq!(campaign.step(Event::CampaignFinished), None);
    assert_eq!(campaign.phase, Phase::Done);
}

#[test]
fn missing_directory_is_created_first() {
    let mut campaign = Campaign::new(request(1, None), false);
    let mut world = kind_world();
    world.directory_exists = false;
    let actions = drive(&mut campaign, &world);
    assert_eq!(actions[0], Action::ProbeDirectory { path: "/tmp".to_string() });
    assert_eq!(actions[1], Action::CreateDirectory { path: "/tmp".to_string() });
    assert_eq!(started(&actions), vec![1]);
    assert!(campaign.is_done());
}

#[test]
fn existing_directory_is_not_created_again() {
    let mut campaign = Campaign::new(request(1, None), false);
    let actions = drive(&mut campaign, &kind_world());
    assert!(!actions.iter().any(|a| matches!(a, Action::CreateDirectory { .. })));
    let mut again = Campaign::new(request(1, None), false);
    let second = drive(&mut again, &kind_world());
    assert_eq!(actions, second);
    assert!(again.is_done());
}

#[test]
fn directory_failure_ends_before_any_campaign() {
    let mut req = request(2, Some("b"));
    req.log_dir = Some("/no/such".to_string());
    req.report_name = Some("place".to_string());
    let mut campaign = Campaign::new(req, false);
    let mut world = kind_world();
    world.directory_exists = false;
    world.directory_can_be_made = false;
    let actions = drive(&mut campaign, &world);
    assert_eq!(
        actions,
        vec![
            Action::ProbeDirectory { path: "/no/such/place".to_string() },
            Action::CreateDirectory { path: "/no/such/place".to_string() },
            Action::Abort { error: CampaignError::Io },
        ]
    );
    assert_eq!(campaign.failure(), Some(CampaignError::Io));
}

#[test]
fn unreadable_artifact_ends_the_sequence() {
    let mut campaign = Campaign::new(request(2, Some("b")), false);
    let mut world = kind_world();
    world.unreadable = Some("/tmp/1-requests.csv".to_string());
    let actions = drive(&mut campaign, &world);
    assert_eq!(stored(&actions), vec![triple("b", "1-report.html", "text/html")]);
    assert_eq!(started(&actions), vec![1]);
    assert_eq!(actions.last(), Some(&Action::Abort { error: CampaignError::Io }));
    assert_eq!(campaign.failure(), Some(CampaignError::Io));
}

#[test]
fn unreadable_report_ends_before_any_upload() {
    let mut campaign = Campaign::new(request(1, Some("b")), false);
    let mut world = kind_world();
    world.unreadable = Some("/tmp/1-report.html".to_string());
    let actions = drive(&mut campaign, &world);
    assert!(stored(&actions).is_empty());
    assert_eq!(reads(&actions), 1);
    assert_eq!(actions.last(), Some(&Action::Abort { error: CampaignError::Io }));
}

#[test]
fn rejected_object_ends_the_sequence() {
    let mut campaign = Campaign::new(request(2, Some("b")), false);
    let mut world = kind_world();
    world.rejected = Some("1-report.html".to_string());
    let actions = drive(&mut campaign, &world);
    assert_eq!(stored(&actions), vec![triple("b", "1-report.html", "text/html")]);
    assert_eq!(reads(&actions), 1);
    assert_eq!(started(&actions), vec![1]);
    assert_eq!(actions.last(), Some(&Action::Abort { error: CampaignError::Upload }));
    assert_eq!(campaign.failure(), Some(CampaignError::Upload));
}

#[test]
fn pause_only_between_iterations() {
    for iterations in 1..6usize {
        let mut campaign = Campaign::new(request(iterations, None), false);
        let actions = drive(&mut campaign, &kind_world());
        assert_eq!(pauses(&actions), iterations - 1);
        assert_eq!(started(&actions), (1..=iterations).collect::<Vec<usize>>());
        assert!(matches!(actions[actions.len() - 2], Action::RunCampaign { .. }));
        assert_eq!(actions.last(), Some(&Action::Finish));
    }
}

#[test]
fn pause_lasts_ten_seconds() {
    assert_eq!(PAUSE_SECS, 10);
    let mut campaign = Campaign::new(request(2, Some("b")), true);
    let actions = drive(&mut campaign, &kind_world());
    let sleeps: Vec<&Action> =
        actions.iter().filter(|a| matches!(a, Action::Sleep { .. })).collect();
    assert_eq!(sleeps, vec![&Action::Sleep { seconds: 10 }]);
}

#[test]
fn no_iterations_means_only_the_directory() {
    let mut campaign = Campaign::new(request(0, Some("b")), false);
    let actions = drive(&mut campaign, &kind_world());
    assert_eq!(
        actions,
        vec![Action::ProbeDirectory { path: "/tmp".to_string() }, Action::Finish]
    );
    assert!(campaign.is_done());
}

#[test]
fn empty_bucket_uploads_nothing() {
    let mut campaign = Campaign::new(request(2, Some("")), false);
    let actions = drive(&mut campaign, &kind_world());
    assert_eq!(reads(&actions), 0);
    assert!(stored(&actions).is_empty());
    assert_eq!(started(&actions), vec![1, 2]);
    assert!(campaign.is_done());
}

#[test]
fn compressed_sequence_uses_compressed_names() {
    let mut campaign = Campaign::new(request(1, None), true);
    let actions = drive(&mut campaign, &kind_world());
    assert_eq!(
        written_files(&actions),
        vec![
            "/tmp/1-compressed-report.html".to_string(),
            "/tmp/1-compressed-requests.csv".to_string(),
        ]
    );
    match &actions[1] {
        Action::RunCampaign { scenario, .. } => {
            assert_eq!(scenario, &build_scenario(true));
            assert!(scenario.setup.gzip && scenario.setup.brotli);
        }
        other => panic!("unexpected action {:?}", other),
    }
}

#[test]
fn unexpected_event_changes_nothing() {
    let mut campaign = Campaign::new(request(2, Some("b")), false);
    assert_eq!(campaign.step(Event::CampaignFinished), None);
    assert_eq!(campaign.phase, Phase::Idle);
    assert!(campaign.step(Event::Start).is_some());
    assert_eq!(campaign.phase, Phase::Preparing(PrepareStep::Probing));
    assert_eq!(campaign.step(Event::Start), None);
    assert_eq!(campaign.step(Event::DirectoryCreated), None);
    assert_eq!(campaign.phase, Phase::Preparing(PrepareStep::Probing));
    assert!(campaign.step(Event::DirectoryProbed { exists: true }).is_some());
    assert_eq!(campaign.phase, Phase::Running(1));
    assert_eq!(campaign.step(Event::PauseElapsed), None);
    assert_eq!(campaign.step(Event::ObjectStored), None);
    assert_eq!(campaign.phase, Phase::Running(1));
}

#[test]
fn phases_of_one_upload() {
    let mut campaign = Campaign::new(request(1, Some("b")), false);
    campaign.step(Event::Start);
    campaign.step(Event::DirectoryProbed { exists: true });
    let action = campaign.step(Event::CampaignFinished);
    assert_eq!(action, Some(Action::ReadArtifact { path: "/tmp/1-report.html".to_string() }));
    assert_eq!(campaign.phase, Phase::Uploading(1, ArtifactKind::Report, UploadStep::Reading));
    assert_eq!(campaign.step(Event::ObjectStored), None);
    let action = campaign.step(Event::ArtifactRead { bytes: vec![60, 104, 62] });
    assert_eq!(
        action,
        Some(Action::PutObject {
            bucket: "b".to_string(),
            bytes: vec![60, 104, 62],
            object_name: "1-report.html".to_string(),
            content_type: "text/html".to_string(),
        })
    );
    assert_eq!(campaign.phase, Phase::Uploading(1, ArtifactKind::Report, UploadStep::Storing));
    let action = campaign.step(Event::ObjectStored);
    assert_eq!(action, Some(Action::ReadArtifact { path: "/tmp/1-requests.csv".to_string() }));
    assert_eq!(campaign.phase, Phase::Uploading(1, ArtifactKind::RequestLog, UploadStep::Reading));
    let action = campaign.step(Event::ArtifactRead { bytes: Vec::new() });
    assert_eq!(
        action,
        Some(Action::PutObject {
            bucket: "b".to_string(),
            bytes: Vec::new(),
            object_name: "1-requests.csv".to_string(),
            content_type: "text/csv".to_string(),
        })
    );
    assert_eq!(campaign.step(Event::ObjectStored), Some(Action::Finish));
    assert_eq!(campaign.phase, Phase::Done);
}

#[test]
fn next_does_not_move_the_machine() {
    let mut campaign = Campaign::new(request(1, None), false);
    assert_eq!(campaign.next(&Event::Start), Some(Phase::Preparing(PrepareStep::Probing)));
    assert_eq!(campaign.next(&Event::PauseElapsed), None);
    assert_eq!(campaign.phase, Phase::Idle);
    campaign.step(Event::Start);
    assert_eq!(
        campaign.next(&Event::DirectoryProbed { exists: false }),
        Some(Phase::Preparing(PrepareStep::Creating))
    );
    assert_eq!(campaign.next(&Event::DirectoryProbed { exists: true }), Some(Phase::Running(1)));
}

#[test]
fn new_campaign_is_idle() {
    let campaign = Campaign::new(request(4, Some("b")), true);
    assert_eq!(campaign.phase, Phase::Idle);
    assert!(campaign.compressed);
    assert_eq!(campaign.request, request(4, Some("b")));
    assert!(!campaign.is_done());
    assert_eq!(campaign.failure(), None);
}

#[test]
fn config_of_one_campaign() {
    let mut req = request(3, None);
    req.host = "http://localhost:8080".to_string();
    req.users = 25;
    req.start_time = "10s".to_string();
    req.run_time = "20m".to_string();
    req.log_dir = Some("/logs".to_string());
    req.report_name = Some("nightly".to_string());
    let config = campaign_config(&req, 2, true);
    assert_eq!(
        config,
        CampaignConfig {
            host: "http://localhost:8080".to_string(),
            users: 25,
            startup_time: "10s".to_string(),
            run_time: "20m".to_string(),
            report_file: "/logs/nightly/2-compressed-report.html".to_string(),
            request_log: "/logs/nightly/2-compressed-requests.csv".to_string(),
            request_format: LogFormat::Csv,
        }
    );
}

#[test]
fn configs_are_built_afresh() {
    let req = request(2, None);
    let first = campaign_config(&req, 1, false);
    let second = campaign_config(&req, 2, false);
    assert_ne!(first.report_file, second.report_file);
    assert_ne!(first.request_log, second.request_log);
    assert_eq!(first.host, second.host);
    assert_eq!(campaign_config(&req, 1, false), first);
}

#[test]
fn iterations_default_to_one() {
    assert_eq!(iterations_or_default(None), 1);
    assert_eq!(iterations_or_default(Some(5)), 5);
    assert_eq!(iterations_or_default(Some(0)), 0);
}

#[test]
fn request_from_flags() {
    let req = RunRequest::new(
        "http://x".to_string(),
        3,
        "1s".to_string(),
        "2s".to_string(),
        Some("b".to_string()),
        Some("n".to_string()),
        Some("/d".to_string()),
        None,
        None,
    );
    assert_eq!(
        req,
        RunRequest {
            host: "http://x".to_string(),
            users: 3,
            start_time: "1s".to_string(),
            run_time: "2s".to_string(),
            iterations: 1,
            compress: false,
            log_dir: Some("/d".to_string()),
            report_name: Some("n".to_string()),
            bucket: Some("b".to_string()),
        }
    );
    let req = RunRequest::new(
        "h".to_string(),
        1,
        "".to_string(),
        "".to_string(),
        None,
        None,
        None,
        Some(7),
        Some(true),
    );
    assert_eq!(req.iterations, 7);
    assert!(req.compress);
    assert_eq!(req.bucket, None);
    let req = RunRequest::new(
        "h".to_string(),
        1,
        "".to_string(),
        "".to_string(),
        None,
        None,
        None,
        Some(2),
        Some(false),
    );
    assert!(!req.compress);
}
