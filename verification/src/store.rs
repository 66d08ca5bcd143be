//! The snapshot store: the single cell that holds the latest snapshot.
//!
//! [`SnapshotStore`] is the cell itself, a plain value with an exact
//! contract: empty until the first publish, then always the snapshot
//! published last. The handle that the sampler and the readers share is in
//! [`crate::shared_store`].

use crate::snapshot::{division_guarded, SystemInfo};
use vstd::prelude::*;
use vstd::string::StringExecFns;

verus! {

/// Why a read of the store gave no snapshot.
#[derive(Clone, Debug, PartialEq, Eq)]
pub enum MonitorError {
    /// No sampling pass has published yet. The caller may ask again shortly.
    NotInitialized,
    /// The lock of the shared store could not be taken; `detail` is what the
    /// lock reported.
    LockUnavailable { detail: String },
}

/// The text shown for a read that came before the first publish.
pub open spec fn not_initialized_text() -> Seq<char> {
    "システム情報がまだ初期化されていません"@
}

/// The text that precedes the lock's own report when the lock failed.
pub open spec fn lock_unavailable_prefix() -> Seq<char> {
    "システム情報の取得に失敗しました: "@
}

impl MonitorError {
    /// The text of `self.message()`.
    pub open spec fn message_text(self) -> Seq<char> {
        match self {
            MonitorError::NotInitialized => not_initialized_text(),
            MonitorError::LockUnavailable { detail } => lock_unavailable_prefix() + detail@,
        }
    }

    /// The descriptive text handed to the application shell.
    pub fn message(&self) -> (text: String)
        ensures
            text@ == self.message_text(),
    {
        match self {
            MonitorError::NotInitialized => "システム情報がまだ初期化されていません".to_owned(),
            MonitorError::LockUnavailable { detail } => {
                let mut text = "システム情報の取得に失敗しました: ".to_owned();
                text.append(detail.as_str());
                text
            },
        }
    }
}

/// What a read returns from a cell in state `state`.
pub open spec fn read_of(state: Option<SystemInfo>) -> Result<SystemInfo, MonitorError> {
    match state {
        Some(info) => Ok(info),
        None => Err(MonitorError::NotInitialized),
    }
}

/// The state of a cell after `info` was published to it: the cell holds
/// `info` and nothing of what it held before.
pub open spec fn publish_one(state: Option<SystemInfo>, info: SystemInfo) -> Option<SystemInfo> {
    Some(info)
}

/// The state of a cell after `infos` were published to it in order,
/// starting from `state`.
pub open spec fn publish_all(state: Option<SystemInfo>, infos: Seq<SystemInfo>) -> Option<
    SystemInfo,
>
    decreases infos.len(),
{
    if infos.len() == 0 {
        state
    } else {
        publish_one(publish_all(state, infos.drop_last()), infos.last())
    }
}

/// The cell that holds the most recent snapshot: empty until the first
/// publish, then always exactly one snapshot, the latest.
#[derive(Clone, Copy, Debug, PartialEq, Eq, Structural)]
pub struct SnapshotStore {
    latest: Option<SystemInfo>,
}

impl View for SnapshotStore {
    type V = Option<SystemInfo>;

    closed spec fn view(&self) -> Option<SystemInfo> {
        self.latest
    }
}

impl SnapshotStore {
    /// An empty cell.
    pub fn new() -> (store: SnapshotStore)
        ensures
            store@ is None,
    {
        SnapshotStore { latest: None }
    }

    /// Replaces the content with `info`. Nothing of the previous snapshot
    /// remains.
    pub fn publish(&mut self, info: SystemInfo)
        ensures
            final(self)@ == publish_one(old(self)@, info),
            final(self)@ == Some(info),
    {
        self.latest = Some(info);
    }

    /// A copy of the latest snapshot, or `NotInitialized` before the first
    /// publish.
    pub fn read(&self) -> (r: Result<SystemInfo, MonitorError>)
        ensures
            r == read_of(self@),
            r is Ok <==> self@ is Some,
            r matches Ok(info) ==> division_guarded(info@),
    {
        match self.latest {
            Some(info) => {
                proof {
                    use_type_invariant(&info);
                }
                Ok(info)
            },
            None => Err(MonitorError::NotInitialized),
        }
    }
}

/// Reading never invents a snapshot: a cell to which nothing was published
/// answers `NotInitialized`, and it answers so only then.
pub proof fn law_read_before_publish(infos: Seq<SystemInfo>)
    ensures
        read_of(None) == Err::<SystemInfo, MonitorError>(MonitorError::NotInitialized),
        read_of(publish_all(None, infos)) is Err <==> infos.len() == 0,
        infos.len() == 0 ==> read_of(publish_all(None, infos)) == Err::<SystemInfo, MonitorError>(
            MonitorError::NotInitialized,
        ),
{
}

/// After at least one publish a read returns the snapshot published last,
/// whole: every field of the result comes from that one publish, whatever
/// the cell held before.
pub proof fn law_read_returns_latest(state: Option<SystemInfo>, infos: Seq<SystemInfo>)
    requires
        infos.len() > 0,
    ensures
        publish_all(state, infos) == Some(infos.last()),
        read_of(publish_all(state, infos)) == Ok::<SystemInfo, MonitorError>(infos.last()),
        exists|i: int|
            0 <= i < infos.len() && read_of(publish_all(state, infos)) == Ok::<
                SystemInfo,
                MonitorError,
            >(#[trigger] infos[i]),
{
    assert(read_of(publish_all(state, infos)) == Ok::<SystemInfo, MonitorError>(
        infos[infos.len() - 1],
    ));
}

/// The cell keeps no history: publishing one more snapshot leaves exactly
/// that snapshot, and a longer history reads the same as its last entry
/// alone.
pub proof fn law_store_keeps_only_latest(
    state: Option<SystemInfo>,
    infos: Seq<SystemInfo>,
    info: SystemInfo,
)
    ensures
        publish_all(state, infos.push(info)) == Some(info),
        publish_all(state, infos.push(info)) == publish_all(None, seq![info]),
{
    assert(infos.push(info).last() == info);
    assert(seq![info].last() == info);
}

} // verus!
