//! Connection-level statistics.

use vstd::prelude::*;

use crate::span;

verus! {

/// Smoothed RTT and congestion window of a connection, as its recovery events last reported them.
#[derive(Clone, Copy)]
pub struct RecoveryContext {
    pub smoothed_rtt: Option<std::time::Duration>,
    pub congestion_window: Option<u32>,
}

impl Default for RecoveryContext {
    fn default() -> (r: Self)
        ensures
            r.smoothed_rtt is None,
            r.congestion_window is None,
    {
        RecoveryContext { smoothed_rtt: None, congestion_window: None }
    }
}

impl RecoveryContext {
    /// Notes down what a recovery event reports.
    pub fn on_recovery_metrics(&mut self, smoothed_rtt: std::time::Duration, congestion_window: u32)
        ensures
            final(self).smoothed_rtt == Some(smoothed_rtt),
            final(self).congestion_window == Some(congestion_window),
    {
        self.smoothed_rtt = Some(smoothed_rtt);
        self.congestion_window = Some(congestion_window);
    }
}

/// Connection-level statistics for a session. Byte and packet counters are not tracked.
pub struct SessionStats {
    pub rtt: Option<std::time::Duration>,
    pub congestion_window: Option<u32>,
}

impl SessionStats {
    /// The statistics of a connection; nothing is known of one that reported nothing or has gone away.
    pub fn new(recovery: Option<RecoveryContext>) -> (r: Self)
        ensures
            (match recovery {
                Some(context) => r.rtt == context.smoothed_rtt && r.congestion_window
                    == context.congestion_window,
                None => r.rtt is None && r.congestion_window is None,
            }),
    {
        match recovery {
            Some(context) => SessionStats {
                rtt: context.smoothed_rtt,
                congestion_window: context.congestion_window,
            },
            None => SessionStats { rtt: None, congestion_window: None },
        }
    }

    /// The smoothed round trip time, if known.
    pub fn rtt(&self) -> (r: Option<std::time::Duration>)
        ensures
            r == self.rtt,
    {
        self.rtt
    }

    /// The congestion window and the round trip time over which it can be sent, from which the send rate
    /// is estimated; `None` where one of them is unknown or zero.
    pub fn send_window(&self) -> (r: Option<(u32, std::time::Duration)>)
        ensures
            r == (match (self.rtt, self.congestion_window) {
                (Some(rtt), Some(window)) if window > 0 && span::nanos(rtt) > 0 => Some(
                    (window, rtt),
                ),
                _ => None,
            }),
    {
        match (self.rtt, self.congestion_window) {
            (Some(rtt), Some(window)) => if window > 0 && !rtt.is_zero() {
                Some((window, rtt))
            } else {
                None
            },
            _ => None,
        }
    }
}

/// The statistics are those of the last recovery event, and nothing is known of a connection that reported
/// nothing or is gone.
pub proof fn law_statistics_are_the_last_reported(
    context: &mut RecoveryContext,
    rtt: std::time::Duration,
    window: u32,
    last: SessionStats,
    gone: SessionStats,
    fresh: RecoveryContext,
    unreported: SessionStats,
    told: Option<std::time::Duration>,
    untold: Option<std::time::Duration>,
)
    requires
        call_ensures(RecoveryContext::on_recovery_metrics, (context, rtt, window), ()),
        call_ensures(SessionStats::new, (Some(*final(context)),), last),
        call_ensures(SessionStats::new, (None,), gone),
        call_ensures(RecoveryContext::default, (), fresh),
        call_ensures(SessionStats::new, (Some(fresh),), unreported),
        call_ensures(SessionStats::rtt, (&last,), told),
        call_ensures(SessionStats::rtt, (&unreported,), untold),
    ensures
        told == Some(rtt),
        last.congestion_window == Some(window),
        untold is None,
        gone.rtt is None && gone.congestion_window is None,
        unreported.congestion_window is None,
{
}

/// There is something to estimate the send rate from exactly if the round trip time and the congestion window
/// are both known and both more than zero, and then it is these two.
pub proof fn law_send_window_needs_both(stats: SessionStats, r: Option<(u32, std::time::Duration)>)
    requires
        call_ensures(SessionStats::send_window, (&stats,), r),
    ensures
        r is Some <==> stats.rtt is Some && stats.congestion_window is Some && span::nanos(
            stats.rtt->0,
        ) > 0 && stats.congestion_window->0 > 0,
        r matches Some((window, rtt)) ==> stats.congestion_window == Some(window) && stats.rtt == Some(
            rtt,
        ),
{
}

} // verus!
