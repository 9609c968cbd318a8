//! Noticing a transfer that makes no progress, so that its connection can be
//! cut and made anew.

use vstd::prelude::*;

use crate::text::same;

verus! {

/// How often the watchdog looks.
pub const WATCHDOG_POLL_MS: u64 = 2_000;

/// How long an upload may stand still.
pub const UPLOAD_STALL_TIMEOUT_SECS: u64 = 45;

/// How long a download may stand still.
pub const DOWNLOAD_STALL_TIMEOUT_SECS: u64 = 45;

/// The latest sign of life of a transfer. Times are in nanoseconds since some
/// fixed moment.
#[derive(Debug)]
pub struct ProgressHeartbeat {
    uploaded_bytes: u64,
    last_change: u128,
    active: bool,
}

/// What a heartbeat says.
pub struct Pulse {
    pub bytes: u64,
    pub last_change: u128,
    pub active: bool,
}

impl View for ProgressHeartbeat {
    type V = Pulse;

    closed spec fn view(&self) -> Pulse {
        Pulse {
            bytes: self.uploaded_bytes,
            last_change: self.last_change,
            active: self.active,
        }
    }
}

/// The time since the latest sign of life.
pub open spec fn silence(pulse: Pulse, now: u128) -> int {
    if now >= pulse.last_change {
        now - pulse.last_change
    } else {
        0
    }
}

/// Where a transfer stands still, if it has for as long as `threshold`.
pub open spec fn stalled_at(pulse: Pulse, threshold: u128, now: u128) -> Option<u64> {
    if pulse.active && silence(pulse, now) >= threshold {
        Some(pulse.bytes)
    } else {
        None
    }
}

/// A pulse after watching was switched on or off; switching on is a sign of
/// life.
pub open spec fn switched(pulse: Pulse, active: bool, now: u128) -> Pulse {
    Pulse {
        active,
        last_change: if active {
            now
        } else {
            pulse.last_change
        },
        ..pulse
    }
}

/// A pulse after a number of bytes was reported.
pub open spec fn touched(pulse: Pulse, bytes: u64, now: u128) -> Pulse {
    Pulse { bytes, last_change: now, ..pulse }
}

/// A pulse after the next check was put off.
pub open spec fn deferred(pulse: Pulse, now: u128) -> Pulse {
    Pulse { last_change: now, ..pulse }
}

impl ProgressHeartbeat {
    /// A transfer that starts now, with some bytes already in place.
    pub fn new(initial_bytes: u64, now: u128) -> (r: Self)
        ensures
            r@ == (Pulse { bytes: initial_bytes, last_change: now, active: true }),
    {
        ProgressHeartbeat { uploaded_bytes: initial_bytes, last_change: now, active: true }
    }

    /// Switches watching on or off.
    pub fn set_active(&mut self, active: bool, now: u128)
        ensures
            final(self)@ == switched(old(self)@, active, now),
    {
        self.active = active;
        if active {
            self.last_change = now;
        }
    }

    /// Reports how far the transfer has come.
    pub fn touch(&mut self, uploaded_bytes: u64, now: u128)
        ensures
            final(self)@ == touched(old(self)@, uploaded_bytes, now),
    {
        if uploaded_bytes != self.uploaded_bytes {
            self.uploaded_bytes = uploaded_bytes;
        }
        self.last_change = now;
    }

    /// Puts off the next check.
    pub fn defer_next_check(&mut self, now: u128)
        ensures
            final(self)@ == deferred(old(self)@, now),
    {
        self.last_change = now;
    }

    /// Where the transfer stands still, if it has for as long as `threshold`.
    pub fn stalled_for(&self, threshold: u128, now: u128) -> (r: Option<u64>)
        ensures
            r == stalled_at(self@, threshold, now),
    {
        if !self.active {
            return None;
        }
        let elapsed: u128 = if now >= self.last_change {
            now - self.last_change
        } else {
            0
        };
        if elapsed >= threshold {
            Some(self.uploaded_bytes)
        } else {
            None
        }
    }
}

/// The pulse after a progress report: while whole files are compared nothing is
/// watched; while a chunk is compared the check is put off.
pub open spec fn reported(pulse: Pulse, bytes: u64, status: Seq<char>, now: u128) -> Pulse {
    if status == "verifying"@ {
        switched(pulse, false, now)
    } else if status == "chunk_verifying"@ {
        deferred(switched(pulse, true, now), now)
    } else {
        touched(switched(pulse, true, now), bytes, now)
    }
}

/// Lets a progress report show in the heartbeat.
pub fn sync_transfer_heartbeat(
    heartbeat: &mut ProgressHeartbeat,
    bytes: u64,
    status: &str,
    now: u128,
)
    ensures
        final(heartbeat)@ == reported(old(heartbeat)@, bytes, status@, now),
{
    if same(status, "verifying") {
        heartbeat.set_active(false, now);
    } else if same(status, "chunk_verifying") {
        heartbeat.set_active(true, now);
        heartbeat.defer_next_check(now);
    } else {
        heartbeat.set_active(true, now);
        heartbeat.touch(bytes, now);
    }
}

/// What the watchdog has found.
#[derive(Debug, Clone, Copy, PartialEq, Eq, Structural)]
pub enum Finding {
    /// There is nothing left to watch.
    Quit,
    /// The transfer is alive, or is not being watched.
    Quiet,
    /// The transfer stands still: its connection has to be cut.
    Stalled { bytes: u64 },
}

/// Watches a transfer until it is stopped.
#[derive(Debug)]
pub struct StallWatchdog {
    stopped: bool,
}

impl StallWatchdog {
    /// Whether watching has been stopped.
    pub closed spec fn is_stopped(&self) -> bool {
        self.stopped
    }

    /// Starts to watch.
    pub fn new() -> (r: Self)
        ensures
            !r.is_stopped(),
    {
        StallWatchdog { stopped: false }
    }

    /// Stops watching.
    pub fn stop(&mut self)
        ensures
            final(self).is_stopped(),
    {
        self.stopped = true;
    }

    /// Looks at a transfer. One that stands still gets the whole threshold
    /// again before it is found to stand still once more.
    pub fn poll(
        &self,
        heartbeat: &mut ProgressHeartbeat,
        cancelled: bool,
        threshold: u128,
        now: u128,
    ) -> (r: Finding)
        ensures
            r == if self.is_stopped() || cancelled {
                Finding::Quit
            } else {
                match stalled_at(old(heartbeat)@, threshold, now) {
                    Some(bytes) => Finding::Stalled { bytes },
                    None => Finding::Quiet,
                }
            },
            final(heartbeat)@ == if r is Stalled {
                deferred(old(heartbeat)@, now)
            } else {
                old(heartbeat)@
            },
    {
        if cancelled || self.stopped {
            return Finding::Quit;
        }
        match heartbeat.stalled_for(threshold, now) {
            Some(bytes) => {
                heartbeat.defer_next_check(now);
                Finding::Stalled { bytes }
            },
            None => Finding::Quiet,
        }
    }
}

/// Before the threshold has passed since the latest sign of life, a transfer
/// is never found to stand still.
pub proof fn no_early_alarm(pulse: Pulse, threshold: u128, now: u128)
    requires
        silence(pulse, now) < threshold,
    ensures
        stalled_at(pulse, threshold, now) is None,
{
}

/// Any report of progress puts the alarm off for the whole threshold.
pub proof fn progress_puts_off_the_alarm(
    pulse: Pulse,
    bytes: u64,
    status: Seq<char>,
    threshold: u128,
    now: u128,
    later: u128,
)
    requires
        now <= later < now + threshold,
    ensures
        stalled_at(reported(pulse, bytes, status, now), threshold, later) is None,
{
}

/// While whole files are compared no transfer is found to stand still, however
/// long that takes.
pub proof fn comparing_is_no_stall(
    pulse: Pulse,
    bytes: u64,
    threshold: u128,
    now: u128,
    later: u128,
)
    ensures
        stalled_at(reported(pulse, bytes, "verifying"@, now), threshold, later) is None,
{
}

/// A transfer that is watched and says nothing for the whole threshold is
/// found to stand still, where it last was.
pub proof fn silence_is_noticed(pulse: Pulse, bytes: u64, threshold: u128, now: u128, later: u128)
    requires
        pulse.active,
        later >= now + threshold,
    ensures
        stalled_at(touched(pulse, bytes, now), threshold, later) == Some(bytes),
{
}

/// A transfer is found to stand still exactly if it is watched and its latest
/// sign of life lies back by the threshold or more; what is found is where it
/// was then.
pub proof fn only_watched_silence_is_a_stall(pulse: Pulse, threshold: u128, now: u128)
    ensures
        now >= pulse.last_change ==> (stalled_at(pulse, threshold, now) is Some <==> pulse.active
            && pulse.last_change + threshold <= now),
        now < pulse.last_change && threshold > 0 ==> stalled_at(pulse, threshold, now) is None,
        stalled_at(pulse, threshold, now) matches Some(bytes) ==> bytes == pulse.bytes,
{
}

/// Whatever the state was before, silence after a progress report is noticed once
/// it has lasted for the threshold, and not before, unless the report says that
/// whole files are being compared. What is found is the number of bytes reported;
/// while a chunk is compared, the number reported last.
pub proof fn silence_after_a_report_is_noticed(
    pulse: Pulse,
    bytes: u64,
    status: Seq<char>,
    threshold: u128,
    now: u128,
    later: u128,
)
    requires
        status != "verifying"@,
        now <= later,
    ensures
        ({
            let found = stalled_at(reported(pulse, bytes, status, now), threshold, later);
            &&& found is Some <==> now + threshold <= later
            &&& found is Some && status != "chunk_verifying"@ ==> found == Some(bytes)
            &&& found is Some && status == "chunk_verifying"@ ==> found == Some(pulse.bytes)
        }),
{
}

/// A report that says that whole files are being compared switches watching off;
/// the next report of any other kind switches it on again, and counts from then.
pub proof fn watching_resumes_after_comparing(
    pulse: Pulse,
    bytes: u64,
    status: Seq<char>,
    threshold: u128,
    t1: u128,
    t2: u128,
    later: u128,
)
    requires
        status != "verifying"@,
        t2 <= later,
    ensures
        ({
            let comparing = reported(pulse, bytes, "verifying"@, t1);
            &&& !comparing.active && comparing.bytes == pulse.bytes
            &&& stalled_at(reported(comparing, bytes, status, t2), threshold, later) is Some
                <==> t2 + threshold <= later
        }),
{
}

/// After an alarm a transfer gets the whole threshold again: it is not found to
/// stand still before that has passed, and it is after that, at the same place.
pub proof fn alarms_come_one_threshold_apart(
    pulse: Pulse,
    threshold: u128,
    now: u128,
    later: u128,
)
    requires
        stalled_at(pulse, threshold, now) is Some,
        now <= later,
    ensures
        stalled_at(deferred(pulse, now), threshold, later) is Some <==> now + threshold <= later,
        stalled_at(deferred(pulse, now), threshold, later) is Some ==> stalled_at(
            deferred(pulse, now),
            threshold,
            later,
        ) == stalled_at(pulse, threshold, now),
{
}

/// A transfer that is not being watched is never found to stand still. Switching
/// watching on gives it the whole threshold from then on; switching it on or off
/// does not change where the transfer is.
pub proof fn switching_decides_what_is_watched(
    pulse: Pulse,
    threshold: u128,
    now: u128,
    later: u128,
)
    requires
        now <= later,
    ensures
        stalled_at(switched(pulse, false, now), threshold, later) is None,
        stalled_at(switched(pulse, true, now), threshold, later) is Some <==> now + threshold
            <= later,
        switched(pulse, true, now).bytes == pulse.bytes,
        switched(pulse, false, now).bytes == pulse.bytes,
        touched(pulse, pulse.bytes, now) == deferred(pulse, now),
        touched(pulse, pulse.bytes, now).active == pulse.active,
{
}

/// Whatever was watched before, a report other than that whole files are being
/// compared has the transfer watched, from then on. The number of bytes is taken
/// over unless something is being compared.
pub proof fn synced_heartbeats_are_watched(
    heartbeat: &mut ProgressHeartbeat,
    bytes: u64,
    status: &str,
    now: u128,
)
    requires
        call_ensures(sync_transfer_heartbeat, (heartbeat, bytes, status, now), ()),
    ensures
        final(heartbeat)@.active <==> status@ != "verifying"@,
        status@ != "verifying"@ ==> final(heartbeat)@.last_change == now,
        status@ == "verifying"@ || status@ == "chunk_verifying"@ ==> final(heartbeat)@.bytes
            == old(heartbeat)@.bytes,
        status@ != "verifying"@ && status@ != "chunk_verifying"@ ==> final(heartbeat)@.bytes
            == bytes,
{
}

/// A watchdog that was stopped, and one whose transfer was cancelled, has nothing
/// left to watch. Any other raises an alarm exactly if the transfer is watched and
/// has been silent for the threshold; the alarm says where the transfer is, and
/// puts off the next one. Without an alarm nothing changes.
pub proof fn alarms_are_raised_for_watched_silence(
    watchdog: StallWatchdog,
    heartbeat: &mut ProgressHeartbeat,
    cancelled: bool,
    threshold: u128,
    now: u128,
    finding: Finding,
)
    requires
        call_ensures(
            StallWatchdog::poll,
            (&watchdog, heartbeat, cancelled, threshold, now),
            finding,
        ),
        old(heartbeat)@.last_change <= now,
    ensures
        finding is Quit <==> watchdog.is_stopped() || cancelled,
        finding is Stalled <==> !watchdog.is_stopped() && !cancelled && old(heartbeat)@.active
            && old(heartbeat)@.last_change + threshold <= now,
        finding matches Finding::Stalled { bytes } ==> bytes == old(heartbeat)@.bytes,
        finding is Stalled ==> final(heartbeat)@.last_change == now,
        !(finding is Stalled) ==> final(heartbeat)@ == old(heartbeat)@,
        final(heartbeat)@.bytes == old(heartbeat)@.bytes,
        final(heartbeat)@.active == old(heartbeat)@.active,
{
}

} // verus!
