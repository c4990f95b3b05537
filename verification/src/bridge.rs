//! The bitrate bridge: setup decisions and per-notification handling.
//!
//! The bridge subscribes once to change notifications for the
//! congestion-control element's current-max-bitrate property.  Setup needs
//! a named rate-source element and a named target encoder; if either name
//! is missing or does not resolve, the bridge logs a diagnostic and
//! subscribes to nothing — the sender then runs without adaptive bitrate.
//! On each notification the bridge pushes the new rate into the encoder's
//! bitrate property and feeds the observation to the debouncer; both the
//! decision and the state update happen under one exclusive access to the
//! shared state, and the caller emits the log line, if any, before
//! releasing it.

use vstd::prelude::*;
use vstd::string::StringExecFns;

use crate::debounce::LogRecord;
use crate::debounce::RateDebounceState;
use crate::debounce::RateObservation;
use crate::debounce::Timestamp;
use crate::decimal::dec_pad_seq;
use crate::decimal::dec_seq;
use crate::decimal::u64_to_dec;
use crate::decimal::u64_to_dec_pad;

verus! {

/// What bridge setup does, given which names were configured and which
/// elements resolved.
#[derive(Clone, Copy, PartialEq, Eq, Structural, Debug)]
pub enum BridgePlan {
    /// No target encoder name was configured.
    MissingEncoderName,
    /// The named target encoder is not in the pipeline.
    EncoderNotFound,
    /// No rate-source element name was configured.
    MissingSourceName,
    /// The named rate-source element is not in the pipeline.
    SourceNotFound,
    /// Subscribe to the rate-source's current-max-bitrate notifications.
    Subscribe,
}

pub open spec fn bridge_plan_spec(
    have_encoder_name: bool,
    encoder_resolved: bool,
    have_source_name: bool,
    source_resolved: bool,
) -> BridgePlan {
    if !have_encoder_name {
        BridgePlan::MissingEncoderName
    } else if !encoder_resolved {
        BridgePlan::EncoderNotFound
    } else if !have_source_name {
        BridgePlan::MissingSourceName
    } else if !source_resolved {
        BridgePlan::SourceNotFound
    } else {
        BridgePlan::Subscribe
    }
}

/// Decides whether the bridge subscribes.  Every outcome but
/// [`BridgePlan::Subscribe`] is non-fatal: the caller logs the diagnostic
/// once and registers no subscription.
pub fn plan_bridge(
    have_encoder_name: bool,
    encoder_resolved: bool,
    have_source_name: bool,
    source_resolved: bool,
) -> (p: BridgePlan)
    ensures
        p == bridge_plan_spec(
            have_encoder_name,
            encoder_resolved,
            have_source_name,
            source_resolved,
        ),
        p == BridgePlan::Subscribe <==> (have_encoder_name && encoder_resolved && have_source_name
            && source_resolved),
{
    if !have_encoder_name {
        BridgePlan::MissingEncoderName
    } else if !encoder_resolved {
        BridgePlan::EncoderNotFound
    } else if !have_source_name {
        BridgePlan::MissingSourceName
    } else if !source_resolved {
        BridgePlan::SourceNotFound
    } else {
        BridgePlan::Subscribe
    }
}

impl BridgePlan {
    /// The diagnostic logged for a plan that subscribes to nothing; empty
    /// for [`BridgePlan::Subscribe`].
    pub open spec fn diagnostic_spec(self) -> Seq<char> {
        match self {
            BridgePlan::MissingEncoderName => "no encoder name"@,
            BridgePlan::EncoderNotFound => "no encoder"@,
            BridgePlan::MissingSourceName => "no rate-source name"@,
            BridgePlan::SourceNotFound => "no rate-source element"@,
            BridgePlan::Subscribe => ""@,
        }
    }

    pub fn diagnostic(&self) -> (m: &'static str)
        ensures
            m@ == self.diagnostic_spec(),
    {
        match self {
            BridgePlan::MissingEncoderName => "no encoder name",
            BridgePlan::EncoderNotFound => "no encoder",
            BridgePlan::MissingSourceName => "no rate-source name",
            BridgePlan::SourceNotFound => "no rate-source element",
            BridgePlan::Subscribe => "",
        }
    }
}

/// What one notification asks the caller to do: set the encoder's bitrate
/// property to `encoder_bitrate`, and, if `log` is set, emit that record's
/// line while still holding the state's exclusive access.
#[derive(Clone, Copy, Debug)]
pub struct NotificationOutcome {
    pub encoder_bitrate: u32,
    pub log: Option<LogRecord>,
}

/// The bridge's shared state: the debouncer memory.  One instance lives
/// for the process and is protected by a mutual-exclusion lock; the
/// notification callback may run on any streaming thread.
pub struct BitrateBridge {
    pub debounce: RateDebounceState,
}

impl BitrateBridge {
    pub open spec fn wf(self) -> bool {
        self.debounce.wf()
    }

    pub fn new() -> (b: BitrateBridge)
        ensures
            b.debounce == RateDebounceState::init_spec(),
            b.wf(),
    {
        BitrateBridge { debounce: RateDebounceState::init() }
    }

    /// Handles one current-max-bitrate notification: the new rate is
    /// always pushed to the encoder, and the observation runs through the
    /// debouncer in the same step.
    pub fn on_rate_change(&mut self, rate: u32, now: Timestamp) -> (out: NotificationOutcome)
        requires
            old(self).wf(),
            now.wf(),
        ensures
            final(self).wf(),
            out.encoder_bitrate == rate,
            final(self).debounce == old(self).debounce.next(
                (RateObservation { rate, observed_at: now }),
            ),
            out.log is Some <==> old(self).debounce.logs(
                (RateObservation { rate, observed_at: now }),
            ),
            out.log matches Some(rec) ==> rec == old(self).debounce.record_of(
                (RateObservation { rate, observed_at: now }),
            ),
    {
        let obs = RateObservation { rate, observed_at: now };
        let log = self.debounce.observe(obs);
        NotificationOutcome { encoder_bitrate: rate, log }
    }
}

/// The rate-change log line for a record, with the sub-second parts
/// zero-padded to six digits and the rates to five.
pub open spec fn log_line(rec: LogRecord) -> Seq<char> {
    "notif: "@ + dec_seq(rec.at.secs as nat) + "."@ + dec_pad_seq(rec.at.micros as nat, 6)
        + " rate "@ + dec_pad_seq(rec.rate as nat, 5) + " rate_prev "@ + dec_pad_seq(
        rec.prev_rate as nat,
        5,
    ) + " time_prev "@ + dec_seq(rec.prev_at.secs as nat) + "."@ + dec_pad_seq(
        rec.prev_at.micros as nat,
        6,
    ) + " diff "@ + dec_seq(rec.elapsed_secs as nat) + " count "@ + dec_seq(rec.suppressed as nat)
}

impl LogRecord {
    /// Renders the log line for this record.
    pub fn render(&self) -> (s: String)
        ensures
            s@ == log_line(*self),
    {
        let mut s = String::from_str("notif: ");
        s.append(u64_to_dec(self.at.secs).as_str());
        s.append(".");
        s.append(u64_to_dec_pad(self.at.micros as u64, 6).as_str());
        s.append(" rate ");
        s.append(u64_to_dec_pad(self.rate as u64, 5).as_str());
        s.append(" rate_prev ");
        s.append(u64_to_dec_pad(self.prev_rate as u64, 5).as_str());
        s.append(" time_prev ");
        s.append(u64_to_dec(self.prev_at.secs).as_str());
        s.append(".");
        s.append(u64_to_dec_pad(self.prev_at.micros as u64, 6).as_str());
        s.append(" diff ");
        s.append(u64_to_dec(self.elapsed_secs).as_str());
        s.append(" count ");
        s.append(u64_to_dec(self.suppressed as u64).as_str());
        s
    }
}

} // verus!
