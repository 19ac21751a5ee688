//! The account of a download: how much has arrived, and when the account
//! is published.

use vstd::prelude::*;

verus! {

/// What reaches the account of a download.
#[derive(Debug, Clone, Copy, PartialEq, Eq)]
pub enum ReporterEvent {
    /// The reporting interval has passed.
    Tick,
    /// The download sent the size of a chunk; `None` where the download
    /// has hung up.
    Received(Option<usize>),
}

/// What the keeper of the account does next.
#[derive(Debug, Clone, Copy, PartialEq, Eq, Structural)]
pub enum ReporterAction {
    /// Publish how much of the download has arrived, and go on.
    Publish { downloaded: u64, total: u64 },
    /// Go on.
    Continue,
    /// The download has ended: stop.
    Stop,
}

/// The account of one download.
#[derive(Debug, Clone, Copy, PartialEq, Eq, Structural)]
pub struct Progress {
    /// The bytes that have arrived.
    pub downloaded: u64,
    /// The bytes that the download announced; 0 where it announced none.
    pub total: u64,
}

/// The sum of `downloaded` and `chunk`, but no more than a `u64` holds.
pub open spec fn counted(downloaded: u64, chunk: usize) -> u64 {
    if downloaded + chunk > u64::MAX {
        u64::MAX
    } else {
        (downloaded + chunk) as u64
    }
}

impl Progress {
    /// The rule of the account: what the account `self` becomes on
    /// `event`, and what its keeper does next.
    ///
    /// When the interval has passed, the account is published as it
    /// stands. A chunk is added to what has arrived. A chunk of no bytes
    /// ends the account, and so does a download that has hung up.
    pub open spec fn spec_step(self, event: ReporterEvent) -> (Progress, ReporterAction) {
        match event {
            ReporterEvent::Tick => (
                self,
                ReporterAction::Publish { downloaded: self.downloaded, total: self.total },
            ),
            ReporterEvent::Received(Some(chunk)) => if chunk == 0 {
                (self, ReporterAction::Stop)
            } else {
                (
                    Progress { downloaded: counted(self.downloaded, chunk), total: self.total },
                    ReporterAction::Continue,
                )
            },
            ReporterEvent::Received(None) => (self, ReporterAction::Stop),
        }
    }

    /// The account of a download that announced `total` bytes, before any
    /// of them has arrived.
    pub fn start(total: usize) -> (r: Progress)
        ensures
            r.downloaded == 0,
            r.total == total,
    {
        Progress { downloaded: 0, total: total as u64 }
    }

    /// Takes the account one event further, and says what its keeper does
    /// next.
    pub fn step(&mut self, event: ReporterEvent) -> (r: ReporterAction)
        ensures
            (*final(self), r) == old(self).spec_step(event),
    {
        match event {
            ReporterEvent::Tick => ReporterAction::Publish {
                downloaded: self.downloaded,
                total: self.total,
            },
            ReporterEvent::Received(Some(chunk)) => {
                if chunk == 0 {
                    ReporterAction::Stop
                } else {
                    let chunk = chunk as u64;
                    if chunk > u64::MAX - self.downloaded {
                        self.downloaded = u64::MAX;
                    } else {
                        self.downloaded = self.downloaded + chunk;
                    }
                    ReporterAction::Continue
                }
            },
            ReporterEvent::Received(None) => ReporterAction::Stop,
        }
    }
}

/// What has arrived never becomes less, and what was announced stays.
pub proof fn lemma_progress_grows(before: Progress, event: ReporterEvent)
    ensures
        before.spec_step(event).0.downloaded >= before.downloaded,
        before.spec_step(event).0.total == before.total,
{
}

} // verus!
