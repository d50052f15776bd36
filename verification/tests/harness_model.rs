use enarx::{
    build_client_config, format_repo_info, registry_issuer, Orchestrator, RepoSpec, RunPhase,
    ServerPhase, TagSpec, UserSpec,
};

#[test]
fn registry_trusts_identity_provider_address() {
    assert_eq!(registry_issuer("127.0.0.1:4444"), "http://127.0.0.1:4444");
}

#[test]
fn server_lifecycle() {
    let mut o = Orchestrator::start(
        String::from("127.0.0.1:4444"),
        String::from("localhost:5555"),
    );
    assert_eq!(o.phase, RunPhase::Starting);
    assert_eq!(o.identity.addr, "127.0.0.1:4444");
    assert_eq!(o.registry.addr, "localhost:5555");

    o.begin_scenario();
    assert_eq!(o.phase, RunPhase::ScenarioRunning);

    // Connections are served while the scenario runs.
    o.identity.accept();
    o.registry.accept();
    o.identity.finish();

    o.scenario_finished(true);
    assert_eq!(o.phase, RunPhase::ScenarioDone);
    assert_eq!(o.scenario_passed, Some(true));

    // Both signals go out before either completion is awaited.
    o.begin_shutdown();
    assert_eq!(o.phase, RunPhase::ShutdownSignaled);
    assert_eq!(o.identity.phase, ServerPhase::Draining);
    assert_eq!(o.registry.phase, ServerPhase::Draining);

    // The registry connection still in flight finishes during the drain.
    o.registry_connection_finished();

    o.confirm_stopped();
    assert_eq!(o.phase, RunPhase::Complete);
    assert_eq!(o.identity.phase, ServerPhase::Stopped);
    assert_eq!(o.registry.phase, ServerPhase::Stopped);
}

#[test]
fn failed_scenario_still_shuts_down() {
    let mut o = Orchestrator::start(String::from("a:1"), String::from("b:2"));
    o.begin_scenario();
    o.scenario_finished(false);
    assert_eq!(o.scenario_passed, Some(false));
    o.begin_shutdown();
    o.confirm_stopped();
    assert_eq!(o.phase, RunPhase::Complete);
}

/// The scripted end-to-end sequence, driven through the library's model:
/// the slugs of each command parse to the right pieces, the client
/// configuration binds to the registry address with augmented trust, and
/// the `repo info` outputs match the scripted expectations before and
/// after the publish.
#[test]
fn scripted_scenario_against_model() {
    let mut o = Orchestrator::start(
        String::from("127.0.0.1:4444"),
        String::from("localhost:5555"),
    );
    o.begin_scenario();
    let db = o.registry.addr.clone();

    // `user info <db>+testuser`
    let user = UserSpec::from_str(&format!("{db}+testuser")).unwrap();
    assert_eq!(user.host, "localhost:5555");
    assert_eq!(user.ctx.name.text, "testuser");

    // The client the command builds for that host trusts the test CA.
    let cfg = build_client_config(&user.host, "test-token\n", b"").unwrap();
    assert_eq!(cfg.base_url, "https://localhost:5555");
    assert_eq!(cfg.token, "test-token");

    // `repo register <db>+testuser/privaterepo`
    let repo = RepoSpec::from_str(&format!("{db}+testuser/privaterepo")).unwrap();
    assert_eq!(repo.ctx.owner.name.text, "testuser");
    assert_eq!(repo.ctx.name.text, "privaterepo");

    // `repo info` on the empty private repository.
    assert_eq!(
        format_repo_info(false, &Vec::new()),
        "Visibility: private\nTags:\n"
    );

    // `package publish <db>+testuser/privaterepo:0.1.0 <dir>`
    let tag = TagSpec::from_str(&format!("{db}+testuser/privaterepo:0.1.0")).unwrap();
    assert_eq!(tag.ctx.name.text, "0.1.0");

    // `repo info` once the tag exists.
    assert_eq!(
        format_repo_info(false, &vec![String::from("0.1.0")]),
        "Visibility: private\nTags:\n\t0.1.0\n"
    );

    o.scenario_finished(true);
    o.begin_shutdown();
    o.confirm_stopped();
    assert_eq!(o.phase, RunPhase::Complete);
}
