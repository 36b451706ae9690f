//! The monitor's decisions: how much memory is free, when a warning is due,
//! what the user's answer to a warning means, and the texts the monitor
//! shows. The polling loop, the notifications and the signals that stop a
//! process are driven from outside; each step of that loop hands its
//! observations to the functions here and acts on what they return.

use vstd::prelude::*;
use vstd::string::*;
use std::sync::Arc;
use std::sync::Mutex;
use std::sync::atomic::AtomicU64;
use sysinfo::{Pid, System};
use crate::config::{Config, KillableApp};
use crate::process::{
    lemma_matching_no_repeats, memory_total, no_repeats, pids_matching, process_snapshot,
    rank_processes, select_target,
};
use crate::text::{decimal, push_decimal, str_equals};

verus! {

/// std's `Mutex`, carried through opaque.
#[verifier::external_type_specification]
#[verifier::external_body]
#[verifier::reject_recursive_types(T)]
pub struct ExMutex<T: ?Sized>(Mutex<T>);

/// Trusted: `std::sync::Mutex::new` makes an unlocked mutex holding `t`.
/// Nothing is stated of the result: a mutex's contents are shared state.
pub assume_specification<T>[ Mutex::<T>::new ](t: T) -> Mutex<T>;

/// Free RAM in MB, shared between the monitor and the tray.
pub type SharedRamMb = Arc<AtomicU64>;

/// The processes using the most memory, shared with the tray.
pub type SharedTopProcs = Arc<Mutex<Vec<(String, u64)>>>;

/// The latest memory-pressure reading (bit pattern of an `f64`), shared with
/// the tray.
pub type SharedPressure = Arc<AtomicU64>;

/// A fresh shared free-RAM cell, holding 0.
pub fn new_shared_ram() -> SharedRamMb {
    Arc::new(AtomicU64::new(0))
}

/// A fresh shared list of top processes, empty.
pub fn new_shared_top_procs() -> SharedTopProcs {
    Arc::new(Mutex::new(Vec::new()))
}

/// A fresh shared pressure cell, holding the bit pattern 0 (that is, 0.0).
pub fn new_shared_pressure() -> SharedPressure {
    Arc::new(AtomicU64::new(0))
}

/// Bytes in a mebibyte.
pub const BYTES_PER_MB: u64 = 1_048_576;

/// Whole mebibytes in `bytes` (rounded down).
pub fn mb_from_bytes(bytes: u64) -> (r: u64)
    ensures
        r == bytes / BYTES_PER_MB,
{
    bytes / BYTES_PER_MB
}

/// The RAM available for (re)use, in bytes.
///
/// Trusted: calls `sysinfo::System::available_memory`. Nothing is stated of
/// the result: it is what the last refresh read from the machine.
#[verifier::external_body]
fn available_memory(sys: &System) -> u64 {
    sys.available_memory()
}

/// The RAM size, in bytes.
///
/// Trusted: calls `sysinfo::System::total_memory`. Nothing is stated of the
/// result: it is what the machine reported.
#[verifier::external_body]
fn total_memory(sys: &System) -> u64 {
    sys.total_memory()
}

/// Free (available) RAM in whole MB, as of the last refresh of `sys`.
pub fn free_ram_mb(sys: &System) -> (r: u64)
    ensures
        r <= u64::MAX / BYTES_PER_MB,
{
    mb_from_bytes(available_memory(sys))
}

/// Total RAM in whole MB.
pub fn total_ram_mb(sys: &System) -> (r: u64)
    ensures
        r <= u64::MAX / BYTES_PER_MB,
{
    mb_from_bytes(total_memory(sys))
}

/// The `n` process names of `sys` using the most memory (summed over the
/// processes of each name, threads left out), largest first, in bytes. Empty
/// in the one case where the memory of all processes together does not fit
/// in a `u64`.
pub fn top_processes(sys: &System, n: usize) -> (top: Vec<(String, u64)>)
    ensures
        top@.len() <= n,
        forall|t: int, u: int| 0 <= t < u < top@.len() ==> #[trigger] top@[t].0@ != #[trigger] top@[u].0@,
        forall|t: int, u: int| 0 <= t < u < top@.len() ==> #[trigger] top@[t].1 >= #[trigger] top@[u].1,
{
    let procs = process_snapshot(sys);
    match memory_total(&procs) {
        Some(_) => rank_processes(&procs, n),
        None => Vec::new(),
    }
}

/// The ids of the processes of `sys` whose name contains `app_name`,
/// ignoring case, each once.
pub fn find_all_matching(sys: &System, app_name: &str) -> (r: Vec<Pid>)
    ensures
        no_repeats(r@),
{
    let procs = process_snapshot(sys);
    proof {
        lemma_matching_no_repeats(procs@, app_name@);
    }
    pids_matching(&procs, app_name)
}

/// The target on `sys`: the first enabled application of `apps` with a
/// running process, with the ids of all its processes.
pub fn find_target<'a>(sys: &System, apps: &'a [KillableApp]) -> (r: Option<(Vec<Pid>, &'a KillableApp)>)
    ensures
        r matches Some((pids, app)) ==> {
            &&& app.enabled
            &&& pids@.len() > 0
            &&& no_repeats(pids@)
            &&& exists|i: int| 0 <= i < apps@.len() && apps@[i] == *app
        },
        (forall|i: int| 0 <= i < apps@.len() ==> !(#[trigger] apps@[i]).enabled) ==> r is None,
{
    let procs = process_snapshot(sys);
    match select_target(&procs, apps) {
        Some((pids, i)) => {
            proof {
                crate::process::lemma_matching_nonempty(procs@, apps@[i as int].name@);
                lemma_matching_no_repeats(procs@, apps@[i as int].name@);
            }
            Some((pids, &apps[i]))
        },
        None => None,
    }
}


/// Seconds the monitor pauses after a kill before it polls again.
pub const POST_KILL_PAUSE_SECS: u64 = 3;

/// Seconds the monitor waits for the user's answer beyond the countdown
/// before it takes the warning as expired.
pub const VERDICT_GRACE_SECS: u64 = 2;

/// The user's call on a pending kill.
#[derive(Debug, Clone, Copy, PartialEq, Eq)]
pub enum Verdict {
    /// The user hit "Stand Down": spare the target and snooze.
    Spared,
    /// The user hit "Waste It Now": skip the countdown and kill immediately.
    KillNow,
    /// The countdown ran out (or the warning was dismissed): the target is
    /// killed.
    Expired,
}

/// The verdict a notification action stands for: `"cancel"` spares the
/// target, `"kill_now"` kills it at once, anything else (the popup closed
/// without an action) lets the countdown run out.
pub fn verdict_from_action(action: &str) -> (v: Verdict)
    ensures
        v == (if action@ == "cancel"@ {
            Verdict::Spared
        } else if action@ == "kill_now"@ {
            Verdict::KillNow
        } else {
            Verdict::Expired
        }),
{
    if str_equals(action, "cancel") {
        Verdict::Spared
    } else if str_equals(action, "kill_now") {
        Verdict::KillNow
    } else {
        Verdict::Expired
    }
}

/// What the monitor makes of one reading.
#[derive(Debug, Clone, Copy, PartialEq, Eq)]
pub struct Check {
    /// Free RAM is below the threshold (or Test Mode forces it).
    pub ram_trigger: bool,
    /// Memory pressure is at or above its threshold, and pressure monitoring
    /// is on.
    pub pressure_trigger: bool,
    /// The monitor looks for a target and warns: a trigger fired and the
    /// monitor is not snoozing.
    pub hunt: bool,
}

/// The monitor's state between polls: until when warnings are snoozed, in
/// milliseconds on the monitor's monotonic clock.
#[derive(Debug, Clone, Copy, PartialEq, Eq)]
pub struct MonitorState {
    /// The end of the current snooze, if any.
    pub snooze_until_ms: Option<u64>,
}

/// The monitor snoozes at time `now` in state `s`.
pub open spec fn snoozing_at(s: MonitorState, now: u64) -> bool {
    match s.snooze_until_ms {
        Some(t) => now < t,
        None => false,
    }
}

/// The check the monitor makes of a reading of `free_mb` MB free RAM, a
/// pressure reading that is (`pressure_reached`) or is not at or above the
/// configured threshold, at time `now`.
pub open spec fn check_of(s: MonitorState, cfg: Config, free_mb: u64, pressure_reached: bool, now: u64) -> Check {
    let ram = cfg.test_override || free_mb < cfg.threshold_mb;
    let pressure = cfg.use_memory_pressure && pressure_reached;
    Check { ram_trigger: ram, pressure_trigger: pressure, hunt: (ram || pressure) && !snoozing_at(s, now) }
}

/// The state after the user's verdict at time `now`: sparing the target
/// snoozes warnings for `snooze_seconds` from `now`; any other verdict
/// leaves the state as it is.
pub open spec fn after_verdict(s: MonitorState, v: Verdict, now: u64, snooze_seconds: u64) -> MonitorState {
    match v {
        Verdict::Spared => MonitorState { snooze_until_ms: Some(snooze_end(now, snooze_seconds)) },
        _ => s,
    }
}

/// The end of a snooze of `snooze_seconds` that starts at `now`, in
/// milliseconds, held at the end of the clock's range.
pub open spec fn snooze_end(now: u64, snooze_seconds: u64) -> u64 {
    if now + snooze_seconds * 1000 <= u64::MAX {
        (now + snooze_seconds * 1000) as u64
    } else {
        u64::MAX
    }
}

impl MonitorState {
    /// The state the monitor starts in: not snoozing.
    pub fn new() -> (s: MonitorState)
        ensures
            s.snooze_until_ms is None,
    {
        MonitorState { snooze_until_ms: None }
    }

    /// Whether warnings are snoozed at time `now_ms`.
    pub fn is_snoozing(&self, now_ms: u64) -> (r: bool)
        ensures
            r == snoozing_at(*self, now_ms),
    {
        match self.snooze_until_ms {
            Some(t) => now_ms < t,
            None => false,
        }
    }

    /// The check of one poll: which triggers fire for `free_mb` MB of free
    /// RAM and a pressure reading that has (`pressure_reached`) or has not
    /// reached the configured threshold, and whether the monitor hunts for a
    /// target at time `now_ms`.
    pub fn check(&self, cfg: &Config, free_mb: u64, pressure_reached: bool, now_ms: u64) -> (c: Check)
        ensures
            c == check_of(*self, *cfg, free_mb, pressure_reached, now_ms),
            !cfg.test_override ==> (c.ram_trigger <==> free_mb < cfg.threshold_mb),
            cfg.test_override ==> c.ram_trigger,
            c.pressure_trigger <==> (cfg.use_memory_pressure && pressure_reached),
            c.hunt <==> ((c.ram_trigger || c.pressure_trigger) && !snoozing_at(*self, now_ms)),
            free_mb < cfg.threshold_mb && !snoozing_at(*self, now_ms) ==> c.hunt,
    {
        let ram = cfg.test_override || free_mb < cfg.threshold_mb;
        let pressure = cfg.use_memory_pressure && pressure_reached;
        let snoozing = self.is_snoozing(now_ms);
        Check { ram_trigger: ram, pressure_trigger: pressure, hunt: (ram || pressure) && !snoozing }
    }

    /// Takes in the user's verdict at time `now_ms` and says whether the
    /// target is to be killed: sparing it snoozes warnings for
    /// `snooze_seconds`; killing it now or letting the countdown run out
    /// kills it and leaves the state as it was.
    pub fn apply_verdict(&mut self, verdict: Verdict, now_ms: u64, snooze_seconds: u64) -> (kill: bool)
        ensures
            kill == (verdict != Verdict::Spared),
            *final(self) == after_verdict(*old(self), verdict, now_ms, snooze_seconds),
    {
        match verdict {
            Verdict::Spared => {
                let end = if snooze_seconds <= (u64::MAX - now_ms) / 1000 {
                    now_ms + snooze_seconds * 1000
                } else {
                    u64::MAX
                };
                self.snooze_until_ms = Some(end);
                false
            },
            _ => true,
        }
    }
}

/// How long the monitor waits for the user's verdict on a warning with a
/// countdown of `countdown_secs` seconds.
pub fn verdict_timeout_secs(countdown_secs: u64) -> (r: u64)
    requires
        countdown_secs + VERDICT_GRACE_SECS <= u64::MAX,
    ensures
        r == countdown_secs + VERDICT_GRACE_SECS,
{
    countdown_secs + VERDICT_GRACE_SECS
}

/// The display timeout of a warning popup showing `secs` seconds, in
/// milliseconds, cut to 32 bits as the notification protocol takes it.
pub fn notification_timeout_ms(secs: u64) -> (r: u32)
    requires
        secs * 1000 <= u64::MAX,
    ensures
        r == (secs * 1000) % 0x1_0000_0000,
{
    let ms: u64 = secs * 1000;
    let r = (ms % 0x1_0000_0000) as u32;
    r
}

/// The text of the warning popup.
pub open spec fn warning_text(app_label: Seq<char>, free_mb: nat, remaining: nat) -> Seq<char> {
    "Memory's bleeding out — only "@ + decimal(free_mb) + " MB left.\n\""@ + app_label
        + "\" gets wasted in "@ + decimal(remaining) + "s. Nothing personal."@
}

/// The body of the warning popup: how much RAM is left, which application
/// will be killed and in how many seconds.
pub fn warning_body(app_label: &str, free_mb: u64, remaining: u64) -> (r: String)
    ensures
        r@ == warning_text(app_label@, free_mb as nat, remaining as nat),
{
    let mut s = String::new();
    s.append("Memory's bleeding out — only ");
    push_decimal(&mut s, free_mb);
    s.append(" MB left.\n\"");
    s.append(app_label);
    s.append("\" gets wasted in ");
    push_decimal(&mut s, remaining);
    s.append("s. Nothing personal.");
    s
}

/// How a kill went: of `targeted` processes, `still_running` were left after
/// the grace period (so the others exited on SIGTERM) and `force_killed` of
/// those were then killed. Returns the number that exited gracefully and the
/// number taken down in all.
pub fn kill_counts(targeted: usize, still_running: usize, force_killed: usize) -> (r: (usize, usize))
    requires
        still_running <= targeted,
        force_killed <= still_running,
    ensures
        r.0 == targeted - still_running,
        r.1 == targeted - still_running + force_killed,
{
    let graceful = targeted - still_running;
    (graceful, graceful + force_killed)
}

/// The text of the popup reporting a kill.
pub open spec fn kill_report_text(total: nat, app_label: Seq<char>) -> Seq<char> {
    "Took down "@ + decimal(total) + " \""@ + app_label + "\" process(es). Memory reclaimed. Move out."@
}

/// The body of the popup reporting that `total` processes of the
/// application were taken down.
pub fn kill_report_body(total: usize, app_label: &str) -> (r: String)
    ensures
        r@ == kill_report_text(total as nat, app_label@),
{
    let mut s = String::new();
    s.append("Took down ");
    push_decimal(&mut s, total as u64);
    s.append(" \"");
    s.append(app_label);
    s.append("\" process(es). Memory reclaimed. Move out.");
    s
}


/// After the user spares a target at time `now`, no warning is due for
/// `snooze_seconds`, whatever the readings and the configuration.
pub proof fn law_spared_snoozes(
    s: MonitorState,
    now: u64,
    snooze_seconds: u64,
    t: u64,
    cfg: Config,
    free_mb: u64,
    pressure_reached: bool,
)
    requires
        now <= t < now + snooze_seconds * 1000,
        t < u64::MAX,
    ensures
        snoozing_at(after_verdict(s, Verdict::Spared, now, snooze_seconds), t),
        !check_of(after_verdict(s, Verdict::Spared, now, snooze_seconds), cfg, free_mb, pressure_reached, t).hunt,
{
}

/// The snooze ends: from `snooze_seconds` after the user spared a target on,
/// a trigger leads to a warning again.
pub proof fn law_snooze_ends(
    s: MonitorState,
    now: u64,
    snooze_seconds: u64,
    t: u64,
    cfg: Config,
    free_mb: u64,
    pressure_reached: bool,
)
    requires
        t >= now + snooze_seconds * 1000,
    ensures
        !snoozing_at(after_verdict(s, Verdict::Spared, now, snooze_seconds), t),
        check_of(after_verdict(s, Verdict::Spared, now, snooze_seconds), cfg, free_mb, pressure_reached, t).hunt
            == (check_of(s, cfg, free_mb, pressure_reached, t).ram_trigger || check_of(s, cfg, free_mb, pressure_reached, t).pressure_trigger),
{
}

/// Killing a target (at once or when the countdown runs out) does not snooze
/// warnings: the state is left as it was.
pub proof fn law_kill_keeps_state(s: MonitorState, v: Verdict, now: u64, snooze_seconds: u64)
    requires
        v != Verdict::Spared,
    ensures
        after_verdict(s, v, now, snooze_seconds) == s,
{
}

/// Test Mode forces the kill logic to trigger regardless of free RAM, and
/// leaves the configured threshold alone.
pub proof fn law_test_mode_triggers(s: MonitorState, cfg: Config, free_mb: u64, pressure_reached: bool, now: u64)
    requires
        cfg.test_override,
    ensures
        check_of(s, cfg, free_mb, pressure_reached, now).ram_trigger,
        check_of(s, cfg, free_mb, pressure_reached, now).hunt == !snoozing_at(s, now),
{
}

/// A warning is due exactly when free RAM is below the threshold (or memory
/// pressure has reached its threshold with pressure monitoring on) and the
/// monitor is not snoozing; without Test Mode, pressure monitoring or a
/// snooze, it is due exactly when free RAM is below the threshold.
pub proof fn law_warning_due(s: MonitorState, cfg: Config, free_mb: u64, pressure_reached: bool, now: u64)
    requires
        !cfg.test_override,
        !cfg.use_memory_pressure,
        !snoozing_at(s, now),
    ensures
        check_of(s, cfg, free_mb, pressure_reached, now).hunt == (free_mb < cfg.threshold_mb),
{
}

/// Free RAM below the threshold always triggers, whatever the other
/// settings: outside Test Mode the RAM trigger fires exactly when free RAM
/// is below the threshold (pressure monitoring on or off), and while the
/// monitor is not snoozing such a reading always makes a warning due. A
/// pressure reading only adds warnings: it never takes one away.
pub proof fn law_low_ram_always_triggers(
    s: MonitorState,
    cfg: Config,
    free_mb: u64,
    pressure_reached: bool,
    now: u64,
)
    ensures
        !cfg.test_override ==> (check_of(s, cfg, free_mb, pressure_reached, now).ram_trigger
            <==> free_mb < cfg.threshold_mb),
        free_mb < cfg.threshold_mb && !snoozing_at(s, now) ==> check_of(s, cfg, free_mb, pressure_reached, now).hunt,
        check_of(s, cfg, free_mb, false, now).hunt ==> check_of(s, cfg, free_mb, true, now).hunt,
        check_of(s, cfg, free_mb, pressure_reached, now).ram_trigger == check_of(
            s,
            cfg,
            free_mb,
            !pressure_reached,
            now,
        ).ram_trigger,
{
}

/// Less free RAM never takes a warning away: if a reading triggers, any
/// reading with less free RAM (same configuration, pressure and time)
/// triggers too.
pub proof fn law_less_free_ram_still_triggers(
    s: MonitorState,
    cfg: Config,
    f1: u64,
    f2: u64,
    pressure_reached: bool,
    now: u64,
)
    requires
        f1 <= f2,
    ensures
        check_of(s, cfg, f2, pressure_reached, now).ram_trigger ==> check_of(s, cfg, f1, pressure_reached, now).ram_trigger,
        check_of(s, cfg, f2, pressure_reached, now).hunt ==> check_of(s, cfg, f1, pressure_reached, now).hunt,
{
}

/// How long stopped processes get to exit after SIGTERM, in milliseconds.
pub const TERM_GRACE_MS: u64 = 5000;

/// How often the processes are checked during the grace period, in
/// milliseconds.
pub const TERM_POLL_MS: u64 = 500;

/// What comes next while a target is being stopped.
#[derive(Debug, Clone, Copy, PartialEq, Eq)]
pub enum KillStep {
    /// Some processes still run and the grace period is not over: poll again.
    Wait,
    /// The grace period is over: send SIGKILL to the processes still running.
    ForceKill,
    /// Every process is gone: report.
    Report,
}

/// The entries of `remaining` whose flag in `alive` is set, in order.
pub open spec fn still_running(remaining: Seq<Pid>, alive: Seq<bool>) -> Seq<Pid>
    decreases remaining.len(),
{
    if remaining.len() == 0 {
        Seq::empty()
    } else {
        let rest = still_running(remaining.drop_last(), alive.subrange(0, remaining.len() - 1));
        if alive[remaining.len() - 1] {
            rest.push(remaining.last())
        } else {
            rest
        }
    }
}

/// The step after a poll of the grace period: which of the `remaining`
/// processes still run (`alive` says, entry by entry), and whether to poll
/// again, force-kill the survivors once `TERM_GRACE_MS` have passed since
/// SIGTERM, or report because none is left.
pub fn kill_step(remaining: &Vec<Pid>, alive: &Vec<bool>, elapsed_ms: u64) -> (r: (Vec<Pid>, KillStep))
    requires
        alive@.len() == remaining@.len(),
    ensures
        r.0@ == still_running(remaining@, alive@),
        r.1 == (if r.0@.len() == 0 {
            KillStep::Report
        } else if elapsed_ms >= TERM_GRACE_MS {
            KillStep::ForceKill
        } else {
            KillStep::Wait
        }),
{
    let n = remaining.len();
    let mut out: Vec<Pid> = Vec::new();
    let mut i: usize = 0;
    while i < n
        invariant
            n == remaining@.len(),
            n == alive@.len(),
            i <= n,
            out@ == still_running(remaining@.take(i as int), alive@.take(i as int)),
        decreases n - i,
    {
        assert(remaining@.take(i + 1).drop_last() =~= remaining@.take(i as int));
        assert(alive@.take(i + 1).subrange(0, i as int) =~= alive@.take(i as int));
        if alive[i] {
            out.push(remaining[i]);
        }
        i = i + 1;
    }
    assert(remaining@.take(n as int) =~= remaining@);
    assert(alive@.take(n as int) =~= alive@);
    let step = if out.len() == 0 {
        KillStep::Report
    } else if elapsed_ms >= TERM_GRACE_MS {
        KillStep::ForceKill
    } else {
        KillStep::Wait
    };
    (out, step)
}

/// Whether the kill is reported (notice and sound): only when some process
/// was taken down.
pub fn report_due(total: usize) -> (r: bool)
    ensures
        r == (total > 0),
{
    total > 0
}

/// The remaining seconds that the warning popup shows after it first
/// appears, one per second: `countdown_secs - 1` down to 1. After the last
/// one the popup is closed a second later, unless the user acted.
pub fn countdown_ticks(countdown_secs: u64) -> (r: Vec<u64>)
    ensures
        r@.len() == (if countdown_secs > 0 { countdown_secs - 1 } else { 0 }),
        forall|k: int| 0 <= k < r@.len() ==> #[trigger] r@[k] == countdown_secs - 1 - k,
{
    let mut r: Vec<u64> = Vec::new();
    if countdown_secs == 0 {
        return r;
    }
    let mut remaining: u64 = countdown_secs - 1;
    while remaining >= 1
        invariant
            countdown_secs > 0,
            remaining < countdown_secs,
            r@.len() == countdown_secs - 1 - remaining,
            forall|k: int| 0 <= k < r@.len() ==> #[trigger] r@[k] == countdown_secs - 1 - k,
        decreases remaining,
    {
        r.push(remaining);
        remaining = remaining - 1;
    }
    r
}

} // verus!
