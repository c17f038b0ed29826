//! The periodic reporter: after a fixed warm-up delay it formats, once
//! per tick of the report interval, a snapshot of the cumulative
//! statistics into a small JSON message for the external report sink.
//!
//! The caller owns the clock and the transport: it sleeps through the
//! warm-up delay, signals [`Reporter::complete_warmup`] once, and on
//! every later tick sends whatever [`Reporter::on_tick`] hands it. Send
//! failures are logged by the caller and never abort the schedule.

use vstd::prelude::*;
use vstd::string::StringSliceAdditionalSpecFns;

use crate::encode;
use crate::metrics::{trunc_div, Gauge, GaugeModel};

verus! {

/// The fixed warm-up delay, in seconds, before the first report.
pub const WARMUP_SECS: u64 = 60;

/// The average field of a report: the truncating mean when samples
/// exist, an explicit "no data" otherwise — the zero-sample average is
/// undefined and is never computed.
pub open spec fn avg_field(g: GaugeModel) -> Seq<u8> {
    if g.count > 0 {
        encode::dec_i64(trunc_div(g.total, g.count)) + "ms".spec_bytes()
    } else {
        "no data".spec_bytes()
    }
}

/// The report body: a JSON message with a title and the four labeled
/// fields — count, best, average and worst — of one snapshot.
pub open spec fn report_body_spec(g: GaugeModel) -> Seq<u8> {
    "{\"embeds\":[{\"title\":\"Webhook Benchmark Metrics\",\"color\":32768,\"fields\":[{\"name\":\"Count\",\"value\":\"".spec_bytes()
        + encode::dec_i64(g.count) + " times\"},{\"name\":\"Best\",\"value\":\"".spec_bytes()
        + encode::dec_i64(g.best) + "ms\",\"inline\":true},{\"name\":\"Average\",\"value\":\"".spec_bytes()
        + avg_field(g) + "\",\"inline\":true},{\"name\":\"Worst\",\"value\":\"".spec_bytes()
        + encode::dec_i64(g.worst) + "ms\",\"inline\":true}]}]}".spec_bytes()
}

/// Formats one snapshot into the report body.
pub fn report_body(gauge: &Gauge) -> (r: Vec<u8>)
    ensures
        r@ == report_body_spec(gauge@),
{
    let mut out: Vec<u8> = Vec::new();
    encode::push_str_bytes(
        &mut out,
        "{\"embeds\":[{\"title\":\"Webhook Benchmark Metrics\",\"color\":32768,\"fields\":[{\"name\":\"Count\",\"value\":\"",
    );
    encode::push_dec_i64(&mut out, gauge.count());
    encode::push_str_bytes(&mut out, " times\"},{\"name\":\"Best\",\"value\":\"");
    encode::push_dec_i64(&mut out, gauge.best_ms());
    encode::push_str_bytes(&mut out, "ms\",\"inline\":true},{\"name\":\"Average\",\"value\":\"");
    if gauge.count() > 0 {
        encode::push_dec_i64(&mut out, gauge.avg_ms());
        encode::push_str_bytes(&mut out, "ms");
    } else {
        encode::push_str_bytes(&mut out, "no data");
    }
    encode::push_str_bytes(&mut out, "\",\"inline\":true},{\"name\":\"Worst\",\"value\":\"");
    encode::push_dec_i64(&mut out, gauge.worst_ms());
    encode::push_str_bytes(&mut out, "ms\",\"inline\":true}]}]}");
    proof {
        assert(out@ =~= report_body_spec(gauge@));
    }
    out
}

/// One observation of the reporter's schedule: the end of the warm-up
/// delay, a tick of the report interval, or the outcome of a send.
pub enum ReporterEvent {
    WarmupDone,
    Tick,
    SendResult { ok: bool },
}

/// How many reports the schedule issues over a run of events, starting
/// warmed up or not.
pub open spec fn reports_issued(warmed: bool, events: Seq<ReporterEvent>) -> nat
    decreases events.len(),
{
    if events.len() == 0 {
        0
    } else {
        let rest = events.drop_first();
        match events[0] {
            ReporterEvent::WarmupDone => reports_issued(true, rest),
            ReporterEvent::Tick => (if warmed { 1nat } else { 0nat }) + reports_issued(warmed, rest),
            ReporterEvent::SendResult { .. } => reports_issued(warmed, rest),
        }
    }
}

/// How many interval ticks a run of events holds.
pub open spec fn tick_count(events: Seq<ReporterEvent>) -> nat
    decreases events.len(),
{
    if events.len() == 0 {
        0
    } else {
        (if events[0] is Tick {
            1nat
        } else {
            0nat
        }) + tick_count(events.drop_first())
    }
}

/// No report is issued before the warm-up delay has elapsed: a run that
/// never observes the end of warm-up issues nothing.
pub proof fn lemma_no_report_before_warmup(events: Seq<ReporterEvent>)
    requires
        forall|i: int| 0 <= i < events.len() ==> !(#[trigger] events[i] is WarmupDone),
    ensures
        reports_issued(false, events) == 0,
    decreases events.len(),
{
    if events.len() > 0 {
        lemma_no_report_before_warmup(events.drop_first());
    }
}

/// Once warmed up, the schedule issues exactly one report per interval
/// tick, regardless of how any earlier send turned out.
pub proof fn lemma_one_report_per_tick(events: Seq<ReporterEvent>)
    ensures
        reports_issued(true, events) == tick_count(events),
    decreases events.len(),
{
    if events.len() > 0 {
        lemma_one_report_per_tick(events.drop_first());
    }
}

/// The two together: a run that warms up at some point issues exactly
/// one report for each tick after the warm-up, and none for the ticks
/// before it.
pub proof fn lemma_reports_follow_warmup(pre: Seq<ReporterEvent>, post: Seq<ReporterEvent>)
    requires
        forall|i: int| 0 <= i < pre.len() ==> !(#[trigger] pre[i] is WarmupDone),
    ensures
        reports_issued(false, pre + seq![ReporterEvent::WarmupDone] + post) == tick_count(post),
    decreases pre.len(),
{
    let events = pre + seq![ReporterEvent::WarmupDone] + post;
    if pre.len() == 0 {
        assert(events[0] is WarmupDone);
        assert(events.drop_first() =~= post);
        lemma_one_report_per_tick(post);
    } else {
        assert(events[0] == pre[0]);
        assert(events.drop_first() =~= pre.drop_first() + seq![ReporterEvent::WarmupDone] + post);
        lemma_reports_follow_warmup(pre.drop_first(), post);
    }
}

/// Schedule state of the periodic reporter: whether the warm-up delay
/// has elapsed.
pub struct Reporter {
    warmed: bool,
}

impl Reporter {
    /// A reporter that has not warmed up yet: it issues nothing.
    pub fn new() -> (r: Reporter)
        ensures
            !r.warmed_up(),
    {
        Reporter { warmed: false }
    }

    pub closed spec fn warmed_up(&self) -> bool {
        self.warmed
    }

    /// The warm-up delay has elapsed; every tick from now on produces a
    /// report.
    pub fn complete_warmup(&mut self)
        ensures
            final(self).warmed_up(),
    {
        self.warmed = true;
    }

    /// One tick of the report interval: exactly one report — the
    /// formatted snapshot — once warmed up, and none before.
    pub fn on_tick(&self, gauge: &Gauge) -> (r: Option<Vec<u8>>)
        ensures
            match r {
                Some(body) => self.warmed_up() && body@ == report_body_spec(gauge@),
                None => !self.warmed_up(),
            },
    {
        if self.warmed {
            Some(report_body(gauge))
        } else {
            None
        }
    }

    /// A send outcome changes nothing of the schedule: a failure is the
    /// caller's to log, and the next tick reports again.
    pub fn on_send_result(&mut self, ok: bool)
        ensures
            *final(self) == *old(self),
    {
        let _ = ok;
    }
}

} // verus!
