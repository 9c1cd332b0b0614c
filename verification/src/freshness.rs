//! FreshnessPolicy: the three strategies for keeping a view "fresh enough",
//! each a cancellable, time-driven observation task. A policy instance walks
//! `Idle -> Connected -> {Observed}* -> Closed` and always reaches `Closed`
//! with its handle released — including on error.

use vstd::prelude::*;

use crate::connection::{
    attached, catch_up, caught_up, close_readonly, detach_secondary, detached, fresh_source_handle,
    open_failure, open_readonly, open_secondary, CatchUpOutcome, ConnectionError, ConnectionHandle,
    ConnectionMode, FilesLimit,
};
use crate::engine::{snapshot_tip, written, EngineModel, EngineV};
use crate::errors::{CatchUpError, ReadError};
use crate::storage::{StorageView, ViewConfig};
use crate::tip::{lemma_tip_record_round_trip, tip_record, SelectedChainTip};

verus! {

/// How a view's freshness is maintained between observations.
#[derive(Clone, Copy, PartialEq, Eq, Structural, Debug)]
pub enum Strategy {
    /// Open once, read repeatedly: every read returns the identical value,
    /// frozen at open time. Right where staleness is acceptable and the
    /// open cost should be paid once.
    StaticSnapshot,
    /// Close and reopen a Primary-readonly handle before every read:
    /// staleness is bounded by the time since the most recent reopen, at
    /// full open cost per observation.
    ReconnectRefresh,
    /// Open a Secondary once and pull its snapshot forward before every
    /// read: staleness bounded as with reconnecting, without the reopen.
    SecondaryCatchUp,
}

/// Where a policy instance stands in its lifecycle.
#[derive(Clone, Copy, PartialEq, Eq, Structural, Debug)]
pub enum PolicyPhase {
    Idle,
    Connected,
    Observed,
    Closed,
}

/// The connection mode a strategy observes through.
pub open spec fn connect_mode(s: Strategy) -> ConnectionMode {
    match s {
        Strategy::StaticSnapshot => ConnectionMode::PrimaryReadonly,
        Strategy::ReconnectRefresh => ConnectionMode::PrimaryReadonly,
        Strategy::SecondaryCatchUp => ConnectionMode::Secondary,
    }
}

/// One observation task: a strategy, the resources it may use, and the view
/// it currently owns. The tick interval is carried as explicit
/// configuration — the caller drives the clock and the iteration bound.
pub struct FreshnessPolicy {
    pub strategy: Strategy,
    pub phase: PolicyPhase,
    pub limit: FilesLimit,
    pub config: ViewConfig,
    /// The observation interval the driving loop should sleep between
    /// observations.
    pub tick_millis: u64,
    pub view: Option<StorageView>,
}

impl FreshnessPolicy {
    /// The lifecycle invariant: a view is owned exactly while connected, and
    /// its handle is an open source handle of the strategy's mode, with this
    /// policy's limit and configuration.
    pub open spec fn inv(self) -> bool {
        match self.phase {
            PolicyPhase::Idle | PolicyPhase::Closed => self.view is None,
            _ => {
                &&& self.view is Some
                &&& self.view->Some_0.config == self.config
                &&& self.view->Some_0.handle.is_open
                &&& self.view->Some_0.handle.limit == self.limit
                &&& self.view->Some_0.handle.target is Source
                &&& self.view->Some_0.handle.mode == connect_mode(self.strategy)
            },
        }
    }

    /// While connected, the owned handle is consistent with the engine
    /// state.
    pub open spec fn live_in(self, e: EngineV) -> bool {
        (self.phase is Connected || self.phase is Observed)
            ==> self.view->Some_0.handle.live_in(e)
    }

    /// A policy that has not connected yet.
    pub fn new(strategy: Strategy, limit: FilesLimit, config: ViewConfig, tick_millis: u64) -> (out:
        FreshnessPolicy)
        ensures
            out == (FreshnessPolicy {
                strategy,
                phase: PolicyPhase::Idle,
                limit,
                config,
                tick_millis,
                view: None,
            }),
            out.inv(),
    {
        FreshnessPolicy { strategy, phase: PolicyPhase::Idle, limit, config, tick_millis, view: None }
    }

    /// `Idle -> Connected`: open the strategy's connection. On failure the
    /// policy goes straight to `Closed` holding nothing, so no handle can
    /// leak on the error path.
    pub fn connect(&mut self, engine: &mut EngineModel) -> (out: Result<(), ConnectionError>)
        requires
            old(self).inv(),
            old(self).phase is Idle,
        ensures
            final(self).inv(),
            final(self).strategy == old(self).strategy,
            final(self).limit == old(self).limit,
            final(self).config == old(self).config,
            final(self).tick_millis == old(self).tick_millis,
            match open_failure(old(engine)@, connect_mode(old(self).strategy), old(self).limit) {
                Some(k) => {
                    &&& out == Err::<(), ConnectionError>(
                        ConnectionError { mode: connect_mode(old(self).strategy), kind: k },
                    )
                    &&& final(self).phase is Closed
                    &&& final(self).view is None
                    &&& final(engine)@ == old(engine)@
                },
                None => {
                    &&& out == Ok::<(), ConnectionError>(())
                    &&& final(self).phase is Connected
                    &&& final(self).view == Some(
                        StorageView {
                            handle: fresh_source_handle(
                                old(engine)@,
                                connect_mode(old(self).strategy),
                                old(self).limit,
                            ),
                            config: old(self).config,
                        },
                    )
                    &&& (old(self).strategy is SecondaryCatchUp ==> final(engine)@ == attached(
                        old(engine)@,
                    ))
                    &&& (!(old(self).strategy is SecondaryCatchUp) ==> final(engine)@ == old(
                        engine,
                    )@)
                    &&& final(self).live_in(final(engine)@)
                },
            },
    {
        let res = match self.strategy {
            Strategy::SecondaryCatchUp => open_secondary(engine, self.limit),
            _ => open_readonly(engine, self.limit),
        };
        match res {
            Ok(h) => {
                self.view = Some(StorageView::new(h, self.config));
                self.phase = PolicyPhase::Connected;
                Ok(())
            },
            Err(e) => {
                self.view = None;
                self.phase = PolicyPhase::Closed;
                Err(e)
            },
        }
    }

    /// One observation. What it returns and what it does to the owned
    /// handle is exactly the strategy's freshness guarantee:
    /// - Static snapshot: the handle is untouched, and the read goes through
    ///   the snapshot frozen at open time;
    /// - Reconnect refresh: the previous handle is released first, then a
    ///   fresh one is opened, so the read covers everything written before
    ///   this observation — a reopen failure closes the policy;
    /// - Secondary catch-up: the snapshot is pulled forward to everything
    ///   the primary has flushed, then read.
    /// The inner result is the read itself: an empty database is a
    /// legitimate `NotFound`, a record the configuration cannot interpret a
    /// `MalformedRecord`.
    pub fn observe(&mut self, engine: &EngineModel) -> (out: Result<
        Result<SelectedChainTip, ReadError>,
        ConnectionError,
    >)
        requires
            old(self).inv(),
            old(self).phase is Connected || old(self).phase is Observed,
            old(self).live_in(engine@),
        ensures
            final(self).inv(),
            final(self).strategy == old(self).strategy,
            final(self).limit == old(self).limit,
            final(self).config == old(self).config,
            final(self).tick_millis == old(self).tick_millis,
            match old(self).strategy {
                Strategy::StaticSnapshot => {
                    &&& out == Ok::<Result<SelectedChainTip, ReadError>, ConnectionError>(
                        old(self).view->Some_0.handle.spec_read(engine@),
                    )
                    &&& *final(self) == (FreshnessPolicy { phase: PolicyPhase::Observed, ..*old(self) })
                    &&& final(self).live_in(engine@)
                },
                Strategy::ReconnectRefresh => {
                    match open_failure(engine@, ConnectionMode::PrimaryReadonly, old(self).limit) {
                        None => {
                            &&& out == Ok::<Result<SelectedChainTip, ReadError>, ConnectionError>(
                                fresh_source_handle(
                                    engine@,
                                    ConnectionMode::PrimaryReadonly,
                                    old(self).limit,
                                ).spec_read(engine@),
                            )
                            &&& final(self).phase is Observed
                            &&& final(self).view == Some(
                                StorageView {
                                    handle: fresh_source_handle(
                                        engine@,
                                        ConnectionMode::PrimaryReadonly,
                                        old(self).limit,
                                    ),
                                    config: old(self).config,
                                },
                            )
                            &&& final(self).live_in(engine@)
                        },
                        Some(k) => {
                            &&& out == Err::<Result<SelectedChainTip, ReadError>, ConnectionError>(
                                ConnectionError { mode: ConnectionMode::PrimaryReadonly, kind: k },
                            )
                            &&& final(self).phase is Closed
                            &&& final(self).view is None
                        },
                    }
                },
                Strategy::SecondaryCatchUp => {
                    &&& out == Ok::<Result<SelectedChainTip, ReadError>, ConnectionError>(
                        caught_up(old(self).view->Some_0.handle, engine@).spec_read(engine@),
                    )
                    &&& final(self).phase is Observed
                    &&& final(self).view == Some(
                        StorageView {
                            handle: caught_up(old(self).view->Some_0.handle, engine@),
                            config: old(self).config,
                        },
                    )
                    &&& final(self).live_in(engine@)
                },
            },
    {
        match self.strategy {
            Strategy::StaticSnapshot => {
                let v = self.view.unwrap();
                let r = v.read_tip(engine);
                self.phase = PolicyPhase::Observed;
                Ok(r)
            },
            Strategy::ReconnectRefresh => {
                let mut h = self.view.unwrap().handle;
                close_readonly(&mut h);
                self.view = None;
                match open_readonly(engine, self.limit) {
                    Ok(nh) => {
                        let v = StorageView::new(nh, self.config);
                        self.view = Some(v);
                        self.phase = PolicyPhase::Observed;
                        Ok(v.read_tip(engine))
                    },
                    Err(e) => {
                        self.phase = PolicyPhase::Closed;
                        Err(e)
                    },
                }
            },
            Strategy::SecondaryCatchUp => {
                let mut h = self.view.unwrap().handle;
                let _outcome = catch_up(engine, &mut h);
                let v = StorageView::new(h, self.config);
                self.view = Some(v);
                self.phase = PolicyPhase::Observed;
                Ok(v.read_tip(engine))
            },
        }
    }

    /// `-> Closed`, from any phase: release whatever is held. A secondary
    /// gives the replica directory back; anything else leaves the engine
    /// untouched. Closing is terminal and idempotent.
    pub fn close(&mut self, engine: &mut EngineModel)
        requires
            old(self).inv(),
        ensures
            final(self).inv(),
            final(self).phase is Closed,
            final(self).view is None,
            final(self).strategy == old(self).strategy,
            final(self).limit == old(self).limit,
            final(self).config == old(self).config,
            final(self).tick_millis == old(self).tick_millis,
            ((old(self).phase is Connected || old(self).phase is Observed) && old(
                self,
            ).strategy is SecondaryCatchUp) ==> final(engine)@ == detached(old(engine)@),
            !((old(self).phase is Connected || old(self).phase is Observed) && old(
                self,
            ).strategy is SecondaryCatchUp) ==> final(engine)@ == old(engine)@,
    {
        let had = self.view;
        self.view = None;
        self.phase = PolicyPhase::Closed;
        match had {
            Some(v) => {
                let mut h = v.handle;
                match h.mode {
                    ConnectionMode::Secondary => detach_secondary(engine, &mut h),
                    _ => close_readonly(&mut h),
                }
            },
            None => {},
        }
    }
}

/// Decide whether a catch-up outcome is the known silent failure mode: the
/// call reported success with no new data although the caller knew the
/// writer had committed new records (wrong directory permissions, a primary
/// that is not flushing, or misuse of the engine's interface). Detected and
/// reported, never ignored.
pub fn classify_catch_up(outcome: CatchUpOutcome, writes_expected: bool) -> (out: Result<
    CatchUpOutcome,
    CatchUpError,
>)
    ensures
        out == (if writes_expected && outcome is NoNewData {
            Err::<CatchUpOutcome, CatchUpError>(CatchUpError::NoProgress)
        } else {
            Ok::<CatchUpOutcome, CatchUpError>(outcome)
        }),
{
    if writes_expected {
        match outcome {
            CatchUpOutcome::NoNewData => Err(CatchUpError::NoProgress),
            CatchUpOutcome::Advanced => Ok(outcome),
        }
    } else {
        Ok(outcome)
    }
}

/// Law (static snapshot): a source handle's read is untouched by a write
/// that lands after it was opened — two reads separated by an intervening
/// external write return identical results, and the handle stays
/// consistent.
pub proof fn lemma_static_view_frozen(e: EngineV, h: ConnectionHandle, t: SelectedChainTip)
    requires
        h.live_in(e),
        h.target is Source,
    ensures
        h.live_in(written(e, t)),
        h.spec_read(written(e, t)) == h.spec_read(e),
{
    let r0 = e.source.records;
    let r1 = written(e, t).source.records;
    assert(r1 == r0.push(tip_record(t)));
    if h.snapshot_len > 0 {
        assert(r1[h.snapshot_len - 1] == r0[h.snapshot_len - 1]);
    }
}

/// Law (reconnect refresh): a read through a handle opened after an
/// external write reflects that write: it returns exactly the tip the
/// writer committed last.
pub proof fn lemma_reconnect_reflects_write(e: EngineV, t: SelectedChainTip, limit: FilesLimit)
    requires
        e.source.records.len() < usize::MAX,
    ensures
        fresh_source_handle(written(e, t), ConnectionMode::PrimaryReadonly, limit).spec_read(
            written(e, t),
        ) == Ok::<SelectedChainTip, ReadError>(t),
{
    let e1 = written(e, t);
    let h = fresh_source_handle(e1, ConnectionMode::PrimaryReadonly, limit);
    assert(e1.source.records.len() == e.source.records.len() + 1);
    assert(h.snapshot_len == e1.source.records.len());
    assert(e1.source.records[h.snapshot_len - 1] == tip_record(t));
    lemma_tip_record_round_trip(t);
}

/// Law (secondary catch-up): catching up against a flushing primary pulls
/// the snapshot forward so that the next read reflects every record flushed
/// before the call — it equals a read over the whole log as of that moment —
/// and when no new records were flushed, the catch-up changes nothing at
/// all.
pub proof fn lemma_catch_up_fresh(e: EngineV, h: ConnectionHandle)
    requires
        h.live_in(e),
        h.mode is Secondary,
        e.primary_flushing,
        e.source.records.len() <= usize::MAX,
    ensures
        caught_up(h, e).spec_read(e) == snapshot_tip(
            e.source.records,
            e.source.records.len() as int,
        ),
        h.snapshot_len == e.source.records.len() ==> caught_up(h, e) == h,
        caught_up(h, e).live_in(e),
{
}

} // verus!
