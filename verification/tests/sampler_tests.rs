use gstscream::sampler::header_line_of;
use gstscream::sampler::plan_sampler;
use gstscream::sampler::row_line_of;
use gstscream::sampler::SamplerConfig;
use gstscream::sampler::SamplerPlan;
use gstscream::sampler::StatsSink;

#[test]
fn three_ticks_yield_header_then_three_rows() {
    // Period 1000 ms, three ticks with clock values 100, 1100, 2100 and
    // stats "a", "b", "c".
    let plan = plan_sampler(1000, true, true);
    assert_eq!(plan, SamplerPlan::Run);

    let (mut sink, first) = StatsSink::start("x");
    assert_eq!(first.as_str(), "time-ns, x");
    let r1 = sink.append_row(100, "a");
    let r2 = sink.append_row(1100, "b");
    let r3 = sink.append_row(2100, "c");
    assert_eq!(r1.as_str(), "100,a");
    assert_eq!(r2.as_str(), "1100,b");
    assert_eq!(r3.as_str(), "2100,c");
    assert_eq!(sink.line_count(), 4);
    assert_eq!(sink.row_count(), 3);
    assert_eq!(sink.line(0).as_str(), "time-ns, x");
    assert_eq!(sink.line(1).as_str(), "100,a");
    assert_eq!(sink.line(2).as_str(), "1100,b");
    assert_eq!(sink.line(3).as_str(), "2100,c");
}

#[test]
fn first_line_stays_the_header_line() {
    let (mut sink, _) = StatsSink::start("rate,queue");
    for i in 0..50u64 {
        sink.append_row(i, "s");
        assert_eq!(sink.line(0).as_str(), "time-ns, rate,queue");
    }
    assert_eq!(sink.row_count(), 50);
}

#[test]
fn zero_period_disables_sampling() {
    // With period 0 the sampler never starts: no sink exists, so no file
    // is created and no header is written.
    let plan = plan_sampler(0, true, true);
    assert_eq!(plan, SamplerPlan::DisabledZeroPeriod);
    assert_ne!(plan, SamplerPlan::Run);
}

#[test]
fn missing_name_or_element_disables_sampling() {
    assert_eq!(plan_sampler(1000, false, false), SamplerPlan::DisabledNoSourceName);
    assert_eq!(plan_sampler(1000, true, false), SamplerPlan::DisabledSourceNotFound);
}

#[test]
fn config_plan_follows_enablement() {
    let c = SamplerConfig::build(Some(0), None, Some("screamtx".to_string()));
    assert_eq!(c.plan(true), SamplerPlan::DisabledZeroPeriod);
    let c = SamplerConfig::build(Some(10), None, None);
    assert_eq!(c.plan(false), SamplerPlan::DisabledNoSourceName);
    let c = SamplerConfig::build(Some(10), None, Some("screamtx".to_string()));
    assert_eq!(c.plan(false), SamplerPlan::DisabledSourceNotFound);
    assert_eq!(c.plan(true), SamplerPlan::Run);
}

#[test]
fn config_defaults() {
    let c = SamplerConfig::build(None, None, Some("screamtx".to_string()));
    assert_eq!(c.period_ms, 1000);
    assert_eq!(c.output_path.as_str(), "sender_scream_stats.csv");
    assert_eq!(c.source_name.as_deref(), Some("screamtx"));
}

#[test]
fn config_explicit_values() {
    let c = SamplerConfig::build(Some(250), Some("out.csv".to_string()), None);
    assert_eq!(c.period_ms, 250);
    assert_eq!(c.output_path.as_str(), "out.csv");
    assert_eq!(c.source_name, None);
}

#[test]
fn header_line_shape() {
    assert_eq!(header_line_of("").as_str(), "time-ns, ");
    assert_eq!(header_line_of("a,b,c").as_str(), "time-ns, a,b,c");
}

#[test]
fn row_line_shape() {
    assert_eq!(row_line_of(0, "").as_str(), "0,");
    assert_eq!(row_line_of(7, "x").as_str(), "7,x");
    assert_eq!(row_line_of(123456789, "a b").as_str(), "123456789,a b");
    assert_eq!(
        row_line_of(u64::MAX, "s").as_str(),
        "18446744073709551615,s"
    );
}
