use maa_se::level::Level;
use maa_se::session::{
    EngineLibrary, Session, SessionAction, SessionError, SessionEvent, SessionStage, WaitOutcome,
};
use maa_se::settings::{AdbSettings, ExtraAdb, MuMuEmulator12ConnectionExtras};

fn queue(names: &[&str]) -> Vec<(String, String)> {
    names.iter().map(|name| (name.to_string(), format!("{{\"task\":\"{name}\"}}"))).collect()
}

fn plain() -> AdbSettings {
    AdbSettings { path: "adb".to_string(), address: "127.0.0.1:5555".to_string(), extra: ExtraAdb::NoExtras }
}

/// Takes a session through the steps that every run begins with, and
/// returns it as it waits for the engine.
fn running(names: &[&str]) -> Session {
    let mut session = Session::run_core(queue(names), plain(), true);
    assert!(matches!(session.step(SessionEvent::Begin).action, SessionAction::LoadResource));
    assert!(matches!(session.step(SessionEvent::Done).action, SessionAction::CreateAssistant));
    assert!(matches!(session.step(SessionEvent::Done).action, SessionAction::Connect { .. }));
    let mut step = session.step(SessionEvent::Done);
    for (i, name) in names.iter().enumerate() {
        match &step.action {
            SessionAction::AppendTask { name: handed, .. } => assert_eq!(handed, name),
            other => panic!("expected a task, found {:?}", other),
        }
        step = session.step(SessionEvent::Appended(i as i32 + 1));
    }
    assert!(matches!(step.action, SessionAction::Start));
    assert!(matches!(session.step(SessionEvent::Done).action, SessionAction::Wait));
    assert_eq!(session.stage, SessionStage::Running);
    session
}

#[test]
fn daily_run() {
    let mut session = Session::run_core(queue(&["Fight", "Mall"]), AdbSettings::default(), false);
    assert!(matches!(session.step(SessionEvent::Begin).action, SessionAction::LoadLibrary));
    assert!(matches!(session.step(SessionEvent::Done).action, SessionAction::LoadResource));
    assert!(matches!(session.step(SessionEvent::Done).action, SessionAction::CreateAssistant));
    match session.step(SessionEvent::Done).action {
        SessionAction::SetConnectionExtras { tag, config } => {
            assert_eq!(tag, "MuMuEmulator12");
            assert_eq!(config, "{\"path\":\"D:\\\\MuMuPlayer-12.0\"}");
        }
        other => panic!("expected the extras, found {:?}", other),
    }
    match session.step(SessionEvent::Done).action {
        SessionAction::Connect { adb_path, address, config, block } => {
            assert_eq!(adb_path, "D:\\MuMuPlayer-12.0\\shell\\adb.exe");
            assert_eq!(address, "127.0.0.1:16384");
            assert_eq!(config, "MuMuEmulator12");
            assert!(block);
        }
        other => panic!("expected the connection, found {:?}", other),
    }
    let step = session.step(SessionEvent::Done);
    assert!(step.log.is_none());
    match step.action {
        SessionAction::AppendTask { name, params } => {
            assert_eq!(name, "Fight");
            assert_eq!(params, "{\"task\":\"Fight\"}");
        }
        other => panic!("expected the first task, found {:?}", other),
    }
    let step = session.step(SessionEvent::Appended(1));
    let line = step.log.unwrap();
    assert_eq!(line.level, Level::Debug);
    assert_eq!(line.text, "append task 'Fight' (id: 1)");
    match step.action {
        SessionAction::AppendTask { name, params } => {
            assert_eq!(name, "Mall");
            assert_eq!(params, "{\"task\":\"Mall\"}");
        }
        other => panic!("expected the second task, found {:?}", other),
    }
    let step = session.step(SessionEvent::Appended(-2));
    assert_eq!(step.log.unwrap().text, "append task 'Mall' (id: -2)");
    assert!(matches!(step.action, SessionAction::Start));
    assert!(matches!(session.step(SessionEvent::Done).action, SessionAction::Wait));
    let polled = SessionEvent::Waited(WaitOutcome::Polled { running: true });
    assert!(matches!(session.step(polled.clone()).action, SessionAction::Wait));
    assert!(matches!(session.step(polled).action, SessionAction::Wait));
    let ended = SessionEvent::Waited(WaitOutcome::Polled { running: false });
    assert!(matches!(session.step(ended).action, SessionAction::Stop));
    let step = session.step(SessionEvent::Done);
    assert!(step.log.is_none());
    assert!(matches!(step.action, SessionAction::Finish));
    assert_eq!(session.stage, SessionStage::Finished);
}

#[test]
fn cooperative_stop() {
    let mut session = running(&["Fight", "Mall"]);
    let step = session.step(SessionEvent::Waited(WaitOutcome::StopRequested));
    assert!(matches!(step.action, SessionAction::Stop));
    assert_eq!(session.stage, SessionStage::Stopping);
    let step = session.step(SessionEvent::Done);
    assert!(matches!(step.action, SessionAction::Finish));
    assert_eq!(session.stage, SessionStage::Finished);
    // The session has ended: the engine is not stopped again.
    let step = session.step(SessionEvent::Waited(WaitOutcome::StopRequested));
    assert!(matches!(step.action, SessionAction::Fail(SessionError::Unexpected)));
}

#[test]
fn an_empty_queue_starts_the_engine_at_once() {
    let mut session = Session::run_core(vec![], plain(), true);
    session.step(SessionEvent::Begin);
    session.step(SessionEvent::Done);
    session.step(SessionEvent::Done);
    assert!(matches!(session.step(SessionEvent::Done).action, SessionAction::Start));
}

#[test]
fn failures_before_the_instance_end_the_session_at_once() {
    let mut session = Session::run_core(queue(&["Fight"]), plain(), false);
    session.step(SessionEvent::Begin);
    match session.step(SessionEvent::Failed("no such file".to_string())).action {
        SessionAction::Fail(SessionError::LoadCore(why)) => assert_eq!(why, "no such file"),
        other => panic!("expected a failure, found {:?}", other),
    }
    assert_eq!(session.stage, SessionStage::Finished);

    let mut session = Session::run_core(queue(&["Fight"]), plain(), true);
    session.step(SessionEvent::Begin);
    match session.step(SessionEvent::Failed("no resource".to_string())).action {
        SessionAction::Fail(SessionError::LoadResource(why)) => assert_eq!(why, "no resource"),
        other => panic!("expected a failure, found {:?}", other),
    }
}

#[test]
fn failures_with_an_instance_stop_the_engine_first() {
    let mut session = Session::run_core(queue(&["Fight", "Mall"]), plain(), true);
    session.step(SessionEvent::Begin);
    session.step(SessionEvent::Done);
    session.step(SessionEvent::Done);
    session.step(SessionEvent::Done);
    session.step(SessionEvent::Appended(1));
    let step = session.step(SessionEvent::Failed("refused".to_string()));
    assert!(matches!(step.action, SessionAction::Stop));
    assert_eq!(session.stage, SessionStage::Stopping);
    match session.step(SessionEvent::Done).action {
        SessionAction::Fail(SessionError::AppendTask { name, source }) => {
            assert_eq!(name, "Mall");
            assert_eq!(source, "refused");
        }
        other => panic!("expected a failure, found {:?}", other),
    }

    let mut session = Session::run_core(queue(&["Fight"]), plain(), true);
    session.step(SessionEvent::Begin);
    session.step(SessionEvent::Done);
    session.step(SessionEvent::Done);
    let step = session.step(SessionEvent::Failed("no device".to_string()));
    assert!(matches!(step.action, SessionAction::Stop));
    match session.step(SessionEvent::Done).action {
        SessionAction::Fail(SessionError::Connect(why)) => assert_eq!(why, "no device"),
        other => panic!("expected a failure, found {:?}", other),
    }
}

#[test]
fn a_failed_stop_is_logged_and_does_not_hide_the_first_failure() {
    let mut session = running(&["Fight"]);
    session.step(SessionEvent::Waited(WaitOutcome::ChannelClosed("closed".to_string())));
    let step = session.step(SessionEvent::Failed("stuck".to_string()));
    let line = step.log.unwrap();
    assert_eq!(line.level, Level::Error);
    assert_eq!(line.text, "stop failed: stuck");
    match step.action {
        SessionAction::Fail(SessionError::StopChannel(why)) => assert_eq!(why, "closed"),
        other => panic!("expected the first failure, found {:?}", other),
    }

    let mut session = running(&["Fight"]);
    session.step(SessionEvent::Waited(WaitOutcome::StopRequested));
    let step = session.step(SessionEvent::Failed("stuck".to_string()));
    assert_eq!(step.log.unwrap().text, "stop failed: stuck");
    match step.action {
        SessionAction::Fail(SessionError::Stop(why)) => assert_eq!(why, "stuck"),
        other => panic!("expected a failure, found {:?}", other),
    }
}

#[test]
fn extras_that_are_not_named_are_not_set() {
    let mut session = Session::run_core(vec![], plain(), true);
    session.step(SessionEvent::Begin);
    session.step(SessionEvent::Done);
    match session.step(SessionEvent::Done).action {
        SessionAction::Connect { adb_path, address, config, block } => {
            assert_eq!(adb_path, "adb");
            assert_eq!(address, "127.0.0.1:5555");
            assert_eq!(config, "");
            assert!(block);
        }
        other => panic!("expected the connection, found {:?}", other),
    }
    let mut adb = plain();
    adb.extra = ExtraAdb::MuMuEmulator12(MuMuEmulator12ConnectionExtras::new(
        false,
        "x".to_string(),
        Some(2),
    ));
    let mut session = Session::run_core(vec![], adb, true);
    session.step(SessionEvent::Begin);
    session.step(SessionEvent::Done);
    match session.step(SessionEvent::Done).action {
        SessionAction::SetConnectionExtras { tag, config } => {
            assert_eq!(tag, "MuMuEmulator12");
            assert_eq!(config, "{}");
        }
        other => panic!("expected the extras, found {:?}", other),
    }
}

#[test]
fn one_session_at_a_time_and_no_reload_under_a_session() {
    let mut library = EngineLibrary::new();
    assert!(!library.is_loaded());
    assert!(!library.is_session_active());
    assert_eq!(library.begin_session().unwrap(), false);
    assert!(library.is_session_active());
    assert!(matches!(library.begin_session(), Err(SessionError::Busy)));
    library.mark_loaded();
    assert!(library.is_loaded());
    assert!(!library.reload_core());
    assert!(library.is_loaded());
    library.end_session();
    assert!(!library.is_session_active());
    assert_eq!(library.begin_session().unwrap(), true);
    library.end_session();
    assert!(library.reload_core());
    assert!(!library.is_loaded());
    library.mark_loaded();
    assert!(library.is_loaded());
}

#[test]
fn session_errors_have_their_words() {
    assert_eq!(SessionError::Busy.to_text(), "another session is running");
    assert_eq!(SessionError::LoadCore("x".to_string()).to_text(), "load core: x");
    assert_eq!(SessionError::LoadResource("x".to_string()).to_text(), "load resource: x");
    assert_eq!(SessionError::Create("x".to_string()).to_text(), "create instance: x");
    assert_eq!(
        SessionError::SetConnectionExtras("x".to_string()).to_text(),
        "set connection extras: x"
    );
    assert_eq!(SessionError::Connect("x".to_string()).to_text(), "connect: x");
    assert_eq!(
        SessionError::AppendTask { name: "Fight".to_string(), source: "x".to_string() }.to_text(),
        "append task Fight: x"
    );
    assert_eq!(SessionError::Start("x".to_string()).to_text(), "start: x");
    assert_eq!(SessionError::StopChannel("x".to_string()).to_text(), "stop channel: x");
    assert_eq!(SessionError::Stop("x".to_string()).to_text(), "stop: x");
    assert_eq!(SessionError::Unexpected.to_text(), "unexpected event");
}
