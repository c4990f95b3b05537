//! Periodic stats sampling: configuration, enablement, and the exact
//! shape of the output file.
//!
//! On start the sampler reads the source element's stats-header property
//! and writes `"time-ns, <header>"` as the file's first line; on every
//! tick it reads the stats property and the pipeline clock and appends
//! `"<time-ns>,<stats>"`.  [`StatsSink`] is the verified image of that
//! file: it holds every line handed to the writer, in order, and its
//! contract pins each line down.  A zero period, a missing source element
//! name, or a source element that does not resolve disables sampling
//! entirely; [`plan_sampler`] makes that decision.

use vstd::prelude::*;
use vstd::string::StringExecFns;

use crate::decimal::dec_seq;
use crate::decimal::u64_to_dec;

verus! {

/// The sampler's immutable configuration: the tick period (zero
/// disables sampling), the output file path, and the name of the element
/// whose stats are sampled.
#[derive(Clone, Debug)]
pub struct SamplerConfig {
    pub period_ms: u64,
    pub output_path: String,
    pub source_name: Option<String>,
}

impl SamplerConfig {
    /// Sampling runs only with a nonzero period and a named source.
    pub open spec fn enabled(self) -> bool {
        self.period_ms != 0 && self.source_name is Some
    }

    /// Builds the configuration from the recognized options, filling in
    /// the defaults: a one-second period and a fixed output file name.
    pub fn build(
        period_ms: Option<u64>,
        output_path: Option<String>,
        source_name: Option<String>,
    ) -> (c: SamplerConfig)
        ensures
            c.period_ms == (match period_ms {
                Some(p) => p,
                None => 1000u64,
            }),
            c.output_path@ == (match output_path {
                Some(p) => p@,
                None => "sender_scream_stats.csv"@,
            }),
            c.source_name == source_name,
    {
        let period: u64 = match period_ms {
            Some(p) => p,
            None => 1000,
        };
        let path: String = match output_path {
            Some(p) => p,
            None => String::from_str("sender_scream_stats.csv"),
        };
        SamplerConfig { period_ms: period, output_path: path, source_name }
    }

    /// The plan for this configuration, given whether the named source
    /// element resolved.
    pub fn plan(&self, source_resolved: bool) -> (p: SamplerPlan)
        ensures
            p == sampler_plan_spec(self.period_ms, self.source_name is Some, source_resolved),
            p == SamplerPlan::Run <==> self.enabled() && source_resolved,
    {
        plan_sampler(self.period_ms, self.source_name.is_some(), source_resolved)
    }
}

/// What the sampler does at start, given the configuration and whether
/// the named source element resolved.
#[derive(Clone, Copy, PartialEq, Eq, Structural, Debug)]
pub enum SamplerPlan {
    /// A zero period disables sampling: no file, no header, no timer.
    DisabledZeroPeriod,
    /// No source element name was configured.
    DisabledNoSourceName,
    /// The named source element is not in the pipeline.
    DisabledSourceNotFound,
    /// Write the header and arm the timer.
    Run,
}

pub open spec fn sampler_plan_spec(
    period_ms: u64,
    have_source_name: bool,
    source_resolved: bool,
) -> SamplerPlan {
    if period_ms == 0 {
        SamplerPlan::DisabledZeroPeriod
    } else if !have_source_name {
        SamplerPlan::DisabledNoSourceName
    } else if !source_resolved {
        SamplerPlan::DisabledSourceNotFound
    } else {
        SamplerPlan::Run
    }
}

/// Decides whether sampling starts.  Every disabled outcome is a no-op
/// configuration, not an error: the caller logs it once and skips the
/// sampler, creating no file and arming no timer.
pub fn plan_sampler(period_ms: u64, have_source_name: bool, source_resolved: bool) -> (p:
    SamplerPlan)
    ensures
        p == sampler_plan_spec(period_ms, have_source_name, source_resolved),
        p == SamplerPlan::Run <==> (period_ms != 0 && have_source_name && source_resolved),
{
    if period_ms == 0 {
        SamplerPlan::DisabledZeroPeriod
    } else if !have_source_name {
        SamplerPlan::DisabledNoSourceName
    } else if !source_resolved {
        SamplerPlan::DisabledSourceNotFound
    } else {
        SamplerPlan::Run
    }
}

/// The header line: `"time-ns, "` followed by the stats-header property.
pub open spec fn header_line(header: Seq<char>) -> Seq<char> {
    "time-ns, "@ + header
}

/// One data row: the clock time in nanoseconds, a comma, and the stats
/// property.
pub open spec fn row_line(time_ns: nat, stats: Seq<char>) -> Seq<char> {
    dec_seq(time_ns) + seq![','] + stats
}

/// Renders the header line.
pub fn header_line_of(header: &str) -> (line: String)
    ensures
        line@ == header_line(header@),
{
    let mut line = String::from_str("time-ns, ");
    line.append(header);
    line
}

/// Renders one data row.
pub fn row_line_of(time_ns: u64, stats: &str) -> (line: String)
    ensures
        line@ == row_line(time_ns as nat, stats@),
{
    let mut line = u64_to_dec(time_ns);
    line.append(",");
    line.append(stats);
    proof {
        reveal_strlit(",");
        assert(line@ =~= row_line(time_ns as nat, stats@));
    }
    line
}

/// The whole file after the given ticks: the header line first, then one
/// row per tick, in order.
pub open spec fn file_model(header: Seq<char>, ticks: Seq<(u64, Seq<char>)>) -> Seq<Seq<char>> {
    seq![header_line(header)] + ticks.map_values(|t: (u64, Seq<char>)| row_line(t.0 as nat, t.1))
}

/// Law: however many ticks follow, the file keeps the header as its first
/// line, holds exactly one data row per tick, and the row of each tick is
/// its clock value and stats string.
pub proof fn lemma_file_shape(header: Seq<char>, ticks: Seq<(u64, Seq<char>)>)
    ensures
        file_model(header, ticks).len() == ticks.len() + 1,
        file_model(header, ticks)[0] == header_line(header),
        forall|i: int|
            0 <= i < ticks.len() ==> file_model(header, ticks)[i + 1] == row_line(
                ticks[i].0 as nat,
                ticks[i].1,
            ),
{
}

/// The verified image of the output file: every line handed to the
/// writer, in order.  The header line is written once, at construction;
/// each tick appends one row.
pub struct StatsSink {
    lines: Vec<String>,
    header: Ghost<Seq<char>>,
    ticks: Ghost<Seq<(u64, Seq<char>)>>,
}

impl View for StatsSink {
    type V = Seq<Seq<char>>;

    closed spec fn view(&self) -> Seq<Seq<char>> {
        self.lines@.map_values(|l: String| l@)
    }
}

impl StatsSink {
    /// The header the sink was started with.
    pub closed spec fn header_spec(self) -> Seq<char> {
        self.header@
    }

    /// The ticks appended so far, oldest first.
    pub closed spec fn ticks_spec(self) -> Seq<(u64, Seq<char>)> {
        self.ticks@
    }

    /// The sink's lines are exactly the file model of its ticks.
    pub closed spec fn wf(self) -> bool {
        self@ == file_model(self.header@, self.ticks@)
    }

    /// Starts the sink for a stats-header property value.  Returns the
    /// sink and the header line, which the caller writes as the file's
    /// first line before any tick runs.
    pub fn start(header: &str) -> (r: (StatsSink, String))
        ensures
            r.0.wf(),
            r.0.header_spec() == header@,
            r.0.ticks_spec() == Seq::<(u64, Seq<char>)>::empty(),
            r.0@.len() == 1,
            r.0@[0] == header_line(header@),
            r.1@ == header_line(header@),
    {
        let line = header_line_of(header);
        let first = line.clone();
        let mut lines: Vec<String> = Vec::new();
        lines.push(line);
        let sink = StatsSink {
            lines,
            header: Ghost(header@),
            ticks: Ghost(Seq::empty()),
        };
        proof {
            assert(sink@ =~= file_model(header@, Seq::<(u64, Seq<char>)>::empty()));
        }
        (sink, first)
    }

    /// Appends the row for one tick and returns it; the caller writes the
    /// returned line to the file.
    pub fn append_row(&mut self, time_ns: u64, stats: &str) -> (line: String)
        ensures
            line@ == row_line(time_ns as nat, stats@),
            final(self)@ == old(self)@.push(line@),
            final(self).header_spec() == old(self).header_spec(),
            final(self).ticks_spec() == old(self).ticks_spec().push((time_ns, stats@)),
            old(self).wf() ==> final(self).wf(),
    {
        let line = row_line_of(time_ns, stats);
        let row = line.clone();
        self.lines.push(line);
        proof {
            self.ticks@ = self.ticks@.push((time_ns, stats@));
            assert(self@ =~= old(self)@.push(row@));
            if old(self).wf() {
                assert(self@ =~= file_model(self.header@, self.ticks@));
            }
        }
        row
    }

    /// How many lines the sink holds, the header included.
    pub fn line_count(&self) -> (n: usize)
        ensures
            n == self@.len(),
    {
        self.lines.len()
    }

    /// How many data rows the sink holds: one per processed tick.
    pub fn row_count(&self) -> (n: usize)
        ensures
            n == if self@.len() >= 1 {
                self@.len() - 1
            } else {
                0
            },
            self.wf() ==> n == self.ticks_spec().len(),
    {
        let len = self.lines.len();
        proof {
            if self.wf() {
                lemma_file_shape(self.header@, self.ticks@);
            }
        }
        if len == 0 {
            0
        } else {
            len - 1
        }
    }

    /// One line of the file image.
    pub fn line(&self, i: usize) -> (l: &String)
        requires
            i < self@.len(),
        ensures
            l@ == self@[i as int],
    {
        &self.lines[i]
    }
}

} // verus!
