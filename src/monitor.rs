//! The orchestrator: owns the session's counters and the rate limiter of the
//! notifier, decides what each sample is fanned out to, and plans teardown.
//! The caller performs the I/O that each decision names.

use vstd::prelude::*;
use crate::config::{Config, SourceConfig, selected_source, option_view};
use crate::payload::is_valid_bpm;
use crate::thresholds::heart_rate_text;

verus! {

/// Minimum interval, in milliseconds, between two notifications.
pub const RATE_LIMIT_WINDOW_MS: u64 = 1500;

/// Interval, in milliseconds, of the liveness timer.
pub const LIVENESS_INTERVAL_MS: u64 = 5000;

/// Whether a notification may go out at `now`, given when the last one did.
/// A clock that reads earlier than the last dispatch keeps the window shut.
pub open spec fn window_open(last_dispatch_at: Option<u64>, now: u64) -> bool {
    match last_dispatch_at {
        Some(t) => t <= now && now - t >= RATE_LIMIT_WINDOW_MS,
        None => true,
    }
}

/// When the last notification went out, in milliseconds of the session clock.
pub struct RateLimiter {
    pub last_dispatch_at: Option<u64>,
}

impl RateLimiter {
    /// A limiter that lets the first notification through at once.
    pub fn new() -> (r: RateLimiter)
        ensures
            r.last_dispatch_at is None,
    {
        RateLimiter { last_dispatch_at: None }
    }

    /// Whether a notification may go out at `now`.
    pub fn is_open(&self, now: u64) -> (r: bool)
        ensures
            r == window_open(self.last_dispatch_at, now),
    {
        match self.last_dispatch_at {
            Some(t) => t <= now && now - t >= RATE_LIMIT_WINDOW_MS,
            None => true,
        }
    }

    /// Records a notification that went out at `now`.
    pub fn record_dispatch(&mut self, now: u64)
        ensures
            final(self).last_dispatch_at == Some(now),
    {
        self.last_dispatch_at = Some(now);
    }
}

/// The orchestrator's life cycle.
#[derive(PartialEq, Eq, Structural, Clone, Copy, Debug)]
pub enum Phase {
    Starting,
    Running,
    Draining,
    Stopped,
}

/// Why a run could not start.
#[derive(PartialEq, Eq, Structural, Clone, Copy, Debug)]
pub enum StartError {
    /// The run has already left `Starting`.
    AlreadyStarted,
    StoreUnavailable,
    NotifierUnavailable,
}

/// The classes of failure that a run meets.
#[derive(PartialEq, Eq, Structural, Clone, Copy, Debug)]
pub enum SessionError {
    /// No transport to operate on.
    AdapterUnavailable,
    /// The device was not found in time.
    DiscoveryTimeout,
    /// The connected device went away.
    ConnectionLost,
    /// Service discovery failed on every attempt.
    ServiceDiscoveryFailed,
    /// A payload did not decode; the sample is dropped.
    ParseError,
    /// One sink failed; dispatch goes on.
    SinkError,
    /// The configuration is unusable.
    ConfigValidationError,
}

/// Whether a failure ends sample acquisition: parse and sink failures are
/// recovered where they occur; all others end the session.
pub open spec fn is_fatal(e: SessionError) -> bool {
    !(e is ParseError || e is SinkError)
}

impl SessionError {
    pub fn is_fatal(&self) -> (r: bool)
        ensures
            r == is_fatal(*self),
    {
        match self {
            SessionError::ParseError | SessionError::SinkError => false,
            _ => true,
        }
    }
}

/// One step of teardown; each is attempted whether or not the others fail.
#[derive(PartialEq, Eq, Structural, Clone, Copy, Debug)]
pub enum TeardownStep {
    ReleaseSleepGuard,
    StopDriver,
    CloseStore,
}

/// The steps of teardown, in order.
pub open spec fn teardown_plan(driver_running: bool, store_open: bool) -> Seq<TeardownStep> {
    seq![TeardownStep::ReleaseSleepGuard] + (if driver_running {
        seq![TeardownStep::StopDriver]
    } else {
        Seq::empty()
    }) + (if store_open {
        seq![TeardownStep::CloseStore]
    } else {
        Seq::empty()
    })
}

/// Where one sample goes.
pub struct SampleActions {
    /// The heart rate for the live display.
    pub ui: Option<u32>,
    /// The heart rate for the persistent store.
    pub store: Option<u32>,
    /// The text for the notifier, when the rate limit lets one through.
    pub notify: Option<String>,
}

/// Which of the run's collaborators are up.
#[derive(PartialEq, Eq, Structural, Clone, Copy, Debug)]
pub struct ConnectionStatus {
    pub bluetooth_connected: bool,
    pub osc_connected: bool,
    pub database_connected: bool,
    pub apple_watch_server_running: bool,
}

/// Counters of the session, times in milliseconds of the session clock.
#[derive(PartialEq, Eq, Structural, Clone, Copy, Debug)]
pub struct SessionStats {
    pub total_heart_rates: u64,
    pub heart_rate_sum: u64,
    pub session_duration_ms: u64,
    pub last_heart_rate_time: Option<u64>,
}

/// The orchestrator of one run.
pub struct HeartRateMonitor {
    pub config: Config,
    pub phase: Phase,
    pub store_open: bool,
    pub notifier_open: bool,
    pub driver_running: bool,
    pub limiter: RateLimiter,
    pub start_time: u64,
    pub last_receive_time: Option<u64>,
    pub heart_rate_count: u64,
    pub heart_rate_sum: u64,
}

/// Whether the source chosen by `c` is a connected Bluetooth device.
pub open spec fn uses_bluetooth(c: Config) -> bool {
    !c.xiaomi_band && !c.apple_watch
}

impl HeartRateMonitor {
    /// A monitor for one run, started at `now` on the session clock.
    pub fn new(config: Config, now: u64) -> (r: HeartRateMonitor)
        ensures
            r.config == config,
            r.phase == Phase::Starting,
            !r.store_open && !r.notifier_open && !r.driver_running,
            r.limiter.last_dispatch_at is None,
            r.start_time == now,
            r.last_receive_time is None,
            r.heart_rate_count == 0,
            r.heart_rate_sum == 0,
    {
        HeartRateMonitor {
            config,
            phase: Phase::Starting,
            store_open: false,
            notifier_open: false,
            driver_running: false,
            limiter: RateLimiter::new(),
            start_time: now,
            last_receive_time: None,
            heart_rate_count: 0,
            heart_rate_sum: 0,
        }
    }

    /// Leaves `Starting` once the store and the notifier have been opened:
    /// on success the run goes on with the configured source; a sink that
    /// failed to open stops the run. Outside `Starting` nothing changes.
    pub fn start(&mut self, store_ok: bool, notifier_ok: bool) -> (r: Result<SourceConfig, StartError>)
        ensures
            old(self).phase != Phase::Starting ==> r == Err::<SourceConfig, StartError>(
                StartError::AlreadyStarted,
            ) && *final(self) == *old(self),
            final(self).config == old(self).config,
            final(self).limiter == old(self).limiter,
            final(self).heart_rate_count == old(self).heart_rate_count,
            final(self).heart_rate_sum == old(self).heart_rate_sum,
            final(self).start_time == old(self).start_time,
            final(self).last_receive_time == old(self).last_receive_time,
            old(self).phase == Phase::Starting && !store_ok ==> r == Err::<SourceConfig, StartError>(
                StartError::StoreUnavailable,
            ),
            old(self).phase == Phase::Starting && store_ok && !notifier_ok ==> r == Err::<SourceConfig, StartError>(
                StartError::NotifierUnavailable,
            ),
            old(self).phase == Phase::Starting && store_ok && notifier_ok ==> (r matches Ok(s) && s@ == selected_source(
                old(self).config.xiaomi_band,
                old(self).config.apple_watch,
                option_view(old(self).config.heart_rate_device_name),
                option_view(old(self).config.heart_rate_device_address),
            )),
            r is Ok ==> final(self).phase == Phase::Running && final(self).store_open
                && final(self).notifier_open && final(self).driver_running,
            old(self).phase == Phase::Starting && r is Err ==> final(self).phase == Phase::Stopped && final(self).store_open == store_ok
                && !final(self).notifier_open && !final(self).driver_running,
    {
        if self.phase != Phase::Starting {
            return Err(StartError::AlreadyStarted);
        }
        self.notifier_open = false;
        self.driver_running = false;
        self.store_open = false;
        if !store_ok {
            self.phase = Phase::Stopped;
            return Err(StartError::StoreUnavailable);
        }
        self.store_open = true;
        if !notifier_ok {
            self.phase = Phase::Stopped;
            return Err(StartError::NotifierUnavailable);
        }
        self.notifier_open = true;
        self.driver_running = true;
        self.phase = Phase::Running;
        Ok(self.config.source())
    }

    /// Handles one sample from the active source, received at `now`: counts
    /// it, hands it to the display and the store, and, when the rate limit
    /// lets a notification through, names the text to send. Samples outside
    /// the valid range, or that arrive outside `Running`, are dropped.
    pub fn process_heart_rate(&mut self, bpm: u32, now: u64) -> (r: SampleActions)
        ensures
            final(self).config == old(self).config,
            final(self).phase == old(self).phase,
            final(self).store_open == old(self).store_open,
            final(self).notifier_open == old(self).notifier_open,
            final(self).driver_running == old(self).driver_running,
            final(self).limiter == old(self).limiter,
            final(self).start_time == old(self).start_time,
            !(old(self).phase == Phase::Running && is_valid_bpm(bpm as int)) ==> {
                &&& r.ui is None
                &&& r.store is None
                &&& r.notify is None
                &&& final(self).last_receive_time == old(self).last_receive_time
                &&& final(self).heart_rate_count == old(self).heart_rate_count
                &&& final(self).heart_rate_sum == old(self).heart_rate_sum
            },
            old(self).phase == Phase::Running && is_valid_bpm(bpm as int) ==> {
                &&& r.ui == Some(bpm)
                &&& r.store == (if old(self).store_open {
                    Some(bpm)
                } else {
                    None
                })
                &&& final(self).last_receive_time == Some(now)
                &&& (old(self).heart_rate_count < u64::MAX && old(self).heart_rate_sum
                    <= u64::MAX - bpm) ==> final(self).heart_rate_count == old(self).heart_rate_count
                    + 1 && final(self).heart_rate_sum == old(self).heart_rate_sum + bpm
                &&& !(old(self).heart_rate_count < u64::MAX && old(self).heart_rate_sum
                    <= u64::MAX - bpm) ==> final(self).heart_rate_count == old(self).heart_rate_count
                    && final(self).heart_rate_sum == old(self).heart_rate_sum
                &&& (r.notify is Some <==> old(self).notifier_open && window_open(
                    old(self).limiter.last_dispatch_at,
                    now,
                ) && heart_rate_text(old(self).config.heart_rate_label@, bpm, 0) is Some)
                &&& r.notify matches Some(t) ==> exists|c: int|
                    0 <= c && heart_rate_text(old(self).config.heart_rate_label@, bpm, c) == Some(
                        t@,
                    )
            },
    {
        if self.phase != Phase::Running || bpm == 0 || bpm >= 300 {
            return SampleActions { ui: None, store: None, notify: None };
        }
        self.last_receive_time = Some(now);
        if self.heart_rate_count < u64::MAX && self.heart_rate_sum <= u64::MAX - bpm as u64 {
            self.heart_rate_count = self.heart_rate_count + 1;
            self.heart_rate_sum = self.heart_rate_sum + bpm as u64;
        }
        let store = if self.store_open {
            Some(bpm)
        } else {
            None
        };
        let notify = if self.notifier_open && self.limiter.is_open(now) {
            self.config.get_heart_rate_text(bpm)
        } else {
            None
        };
        SampleActions { ui: Some(bpm), store, notify }
    }

    /// Records the outcome of a notification handed out for the sample
    /// received at `sent_at`: a success closes the window from then on; a
    /// failure leaves it as it was, so the next sample may try again.
    pub fn notification_result(&mut self, sent_at: u64, ok: bool)
        ensures
            ok ==> final(self).limiter.last_dispatch_at == Some(sent_at),
            !ok ==> final(self).limiter == old(self).limiter,
            final(self).config == old(self).config,
            final(self).phase == old(self).phase,
            final(self).store_open == old(self).store_open,
            final(self).notifier_open == old(self).notifier_open,
            final(self).driver_running == old(self).driver_running,
            final(self).start_time == old(self).start_time,
            final(self).last_receive_time == old(self).last_receive_time,
            final(self).heart_rate_count == old(self).heart_rate_count,
            final(self).heart_rate_sum == old(self).heart_rate_sum,
    {
        if ok {
            self.limiter.record_dispatch(sent_at);
        }
    }

    /// The active source ended, by closing its stream or by an error: the
    /// run goes on to teardown.
    pub fn driver_finished(&mut self)
        ensures
            old(self).phase == Phase::Running ==> final(self).phase == Phase::Draining,
            old(self).phase != Phase::Running ==> final(self).phase == old(self).phase,
            final(self).config == old(self).config,
            final(self).store_open == old(self).store_open,
            final(self).notifier_open == old(self).notifier_open,
            final(self).driver_running == old(self).driver_running,
            final(self).limiter == old(self).limiter,
            final(self).start_time == old(self).start_time,
            final(self).last_receive_time == old(self).last_receive_time,
            final(self).heart_rate_count == old(self).heart_rate_count,
            final(self).heart_rate_sum == old(self).heart_rate_sum,
    {
        if self.phase == Phase::Running {
            self.phase = Phase::Draining;
        }
    }

    /// A failure was met: a fatal one sends a running session to teardown;
    /// any other leaves the session as it is.
    pub fn report_error(&mut self, error: SessionError)
        ensures
            is_fatal(error) && old(self).phase == Phase::Running ==> final(self).phase
                == Phase::Draining,
            !(is_fatal(error) && old(self).phase == Phase::Running) ==> final(self).phase == old(
                self,
            ).phase,
            final(self).config == old(self).config,
            final(self).store_open == old(self).store_open,
            final(self).notifier_open == old(self).notifier_open,
            final(self).driver_running == old(self).driver_running,
            final(self).limiter == old(self).limiter,
            final(self).start_time == old(self).start_time,
            final(self).last_receive_time == old(self).last_receive_time,
            final(self).heart_rate_count == old(self).heart_rate_count,
            final(self).heart_rate_sum == old(self).heart_rate_sum,
    {
        if error.is_fatal() && self.phase == Phase::Running {
            self.phase = Phase::Draining;
        }
    }

    /// Ends the run, whatever its phase: names the teardown steps still owed,
    /// in order, and stops. A second call owes nothing.
    pub fn shutdown(&mut self) -> (r: Vec<TeardownStep>)
        ensures
            old(self).phase != Phase::Stopped ==> r@ == teardown_plan(
                old(self).driver_running,
                old(self).store_open,
            ),
            old(self).phase == Phase::Stopped ==> r@ == teardown_plan(
                old(self).driver_running,
                old(self).store_open,
            ).drop_first(),
            final(self).phase == Phase::Stopped,
            !final(self).driver_running && !final(self).store_open && !final(self).notifier_open,
            final(self).config == old(self).config,
            final(self).limiter == old(self).limiter,
            final(self).start_time == old(self).start_time,
            final(self).last_receive_time == old(self).last_receive_time,
            final(self).heart_rate_count == old(self).heart_rate_count,
            final(self).heart_rate_sum == old(self).heart_rate_sum,
    {
        let mut steps: Vec<TeardownStep> = Vec::new();
        if self.phase != Phase::Stopped {
            steps.push(TeardownStep::ReleaseSleepGuard);
        }
        if self.driver_running {
            steps.push(TeardownStep::StopDriver);
        }
        if self.store_open {
            steps.push(TeardownStep::CloseStore);
        }
        self.phase = Phase::Stopped;
        self.driver_running = false;
        self.store_open = false;
        self.notifier_open = false;
        proof {
            let plan = teardown_plan(old(self).driver_running, old(self).store_open);
            assert(steps@ =~= plan || steps@ =~= plan.drop_first());
        }
        steps
    }

    /// Which collaborators are up.
    pub fn get_connection_status(&self) -> (r: ConnectionStatus)
        ensures
            r.bluetooth_connected == (self.driver_running && uses_bluetooth(self.config)),
            r.osc_connected == self.notifier_open,
            r.database_connected == self.store_open,
            r.apple_watch_server_running == (self.config.apple_watch || self.config.xiaomi_band),
    {
        ConnectionStatus {
            bluetooth_connected: self.driver_running && !self.config.xiaomi_band
                && !self.config.apple_watch,
            osc_connected: self.notifier_open,
            database_connected: self.store_open,
            apple_watch_server_running: self.config.apple_watch || self.config.xiaomi_band,
        }
    }

    /// The session's counters at `now`.
    pub fn get_stats(&self, now: u64) -> (r: SessionStats)
        ensures
            r.total_heart_rates == self.heart_rate_count,
            r.heart_rate_sum == self.heart_rate_sum,
            r.session_duration_ms == (if now >= self.start_time {
                now - self.start_time
            } else {
                0
            }),
            r.last_heart_rate_time == self.last_receive_time,
    {
        SessionStats {
            total_heart_rates: self.heart_rate_count,
            heart_rate_sum: self.heart_rate_sum,
            session_duration_ms: if now >= self.start_time {
                now - self.start_time
            } else {
                0
            },
            last_heart_rate_time: self.last_receive_time,
        }
    }
}

/// Rate limiting of three dispatch attempts at `t0`, `t0 + 1000` and
/// `t0 + 1600` ms from a fresh limiter: the first goes out and, once it is
/// recorded, the second falls inside the window and the third outside it.
pub proof fn lemma_rate_limit_schedule(t0: u64)
    requires
        t0 <= u64::MAX - 1600,
    ensures
        window_open(None, t0),
        !window_open(Some(t0), (t0 + 1000) as u64),
        window_open(Some(t0), (t0 + 1600) as u64),
{
}

} // verus!
