use maa_se::download_reporter::{Progress, ReporterAction, ReporterEvent};

#[test]
fn chunks_add_up_and_are_published_on_the_tick() {
    let mut progress = Progress::start(1000);
    assert_eq!(
        progress.step(ReporterEvent::Tick),
        ReporterAction::Publish { downloaded: 0, total: 1000 }
    );
    assert_eq!(progress.step(ReporterEvent::Received(Some(300))), ReporterAction::Continue);
    assert_eq!(progress.step(ReporterEvent::Received(Some(200))), ReporterAction::Continue);
    assert_eq!(
        progress.step(ReporterEvent::Tick),
        ReporterAction::Publish { downloaded: 500, total: 1000 }
    );
    assert_eq!(progress, Progress { downloaded: 500, total: 1000 });
}

#[test]
fn an_empty_chunk_or_a_closed_channel_ends_the_account() {
    let mut progress = Progress::start(0);
    progress.step(ReporterEvent::Received(Some(7)));
    assert_eq!(progress.step(ReporterEvent::Received(Some(0))), ReporterAction::Stop);
    assert_eq!(progress.step(ReporterEvent::Received(None)), ReporterAction::Stop);
    assert_eq!(progress, Progress { downloaded: 7, total: 0 });
}

#[test]
fn the_account_does_not_overflow() {
    let mut progress = Progress { downloaded: u64::MAX - 1, total: 10 };
    assert_eq!(progress.step(ReporterEvent::Received(Some(5))), ReporterAction::Continue);
    assert_eq!(progress.downloaded, u64::MAX);
    let mut progress = Progress { downloaded: u64::MAX - 5, total: 10 };
    progress.step(ReporterEvent::Received(Some(5)));
    assert_eq!(progress.downloaded, u64::MAX);
    let mut progress = Progress { downloaded: u64::MAX - 6, total: 10 };
    progress.step(ReporterEvent::Received(Some(5)));
    assert_eq!(progress.downloaded, u64::MAX - 1);
}
