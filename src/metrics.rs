use vstd::prelude::*;

verus! {

/// Every metric whose name ends in this suffix is a latency histogram.
pub const LATENCY_SUFFIX: &'static str = "latency_ms";

/// The bucket boundaries, in milliseconds, of every latency histogram.
pub open spec fn latency_bucket_bounds() -> Seq<u64> {
    seq![1, 3, 5, 10, 25, 50, 75, 100, 250, 500, 1000, 2500, 5000, 10000, 20000]
}

/// Whether `s` ends in `suffix`.
pub open spec fn ends_with(s: Seq<char>, suffix: Seq<char>) -> bool {
    suffix.len() <= s.len() && s.subrange(s.len() - suffix.len(), s.len() as int) == suffix
}

/// The bucket boundaries of every latency histogram, in milliseconds.
pub fn latency_buckets_ms() -> (r: Vec<u64>)
    ensures
        r@ == latency_bucket_bounds(),
{
    let r: Vec<u64> = vec![1, 3, 5, 10, 25, 50, 75, 100, 250, 500, 1000, 2500, 5000, 10000, 20000];
    assert(r@ =~= latency_bucket_bounds());
    r
}

/// Whether `name` ends in `suffix`.
pub fn name_ends_with(name: &str, suffix: &str) -> (r: bool)
    ensures
        r == ends_with(name@, suffix@),
{
    let n = name.unicode_len();
    let m = suffix.unicode_len();
    if m > n {
        return false;
    }
    let off = n - m;
    let mut i: usize = 0;
    while i < m
        invariant
            n == name@.len(),
            m == suffix@.len(),
            m <= n,
            off == n - m,
            i <= m,
            forall|j: int| 0 <= j < i ==> name@[off + j] == suffix@[j],
        decreases m - i,
    {
        if name.get_char(off + i) != suffix.get_char(i) {
            assert(name@.subrange(off as int, n as int)[i as int] != suffix@[i as int]);
            return false;
        }
        i += 1;
    }
    assert(name@.subrange(off as int, n as int) =~= suffix@);
    true
}

/// Whether the metric `name` is a latency histogram.
pub fn is_latency_metric(name: &str) -> (r: bool)
    ensures
        r == ends_with(name@, LATENCY_SUFFIX@),
{
    name_ends_with(name, LATENCY_SUFFIX)
}

/// The bucket boundaries that the exporter installs for the metric `name`:
/// the fixed latency set for a latency histogram, none otherwise.
pub fn buckets_for_metric(name: &str) -> (r: Option<Vec<u64>>)
    ensures
        r is Some <==> ends_with(name@, LATENCY_SUFFIX@),
        r is Some ==> r->0@ == latency_bucket_bounds(),
{
    if is_latency_metric(name) {
        Some(latency_buckets_ms())
    } else {
        None
    }
}

/// What a metric is.
#[derive(Clone, Copy, Debug, PartialEq, Eq, Structural)]
pub enum MetricKind {
    Counter,
    Histogram,
}

/// One metric that the server describes to the recorder before serving.
pub struct MetricDescription {
    pub name: &'static str,
    pub kind: MetricKind,
    /// Whether the metric is measured in milliseconds.
    pub in_milliseconds: bool,
    pub description: &'static str,
}

/// The metrics the server describes: name, kind, whether the unit is
/// milliseconds, and description, in registration order.
pub open spec fn described_metrics() -> Seq<(Seq<char>, MetricKind, bool, Seq<char>)> {
    seq![
        ("requests"@, MetricKind::Counter, false, "Incoming requests by FlightSQL endpoint"@),
        (
            "get_flight_info_latency_ms"@,
            MetricKind::Histogram,
            true,
            "Get flight info latency ms"@,
        ),
        (
            "do_get_fallback_latency_ms"@,
            MetricKind::Histogram,
            true,
            "Do get fallback latency ms"@,
        ),
    ]
}

/// The metrics the server describes before it accepts any traffic: the
/// `requests` counter and the two latency histograms.
pub fn metric_descriptions() -> (r: Vec<MetricDescription>)
    ensures
        r@.len() == described_metrics().len(),
        forall|i: int|
            0 <= i < r@.len() ==> (
                #[trigger] r@[i].name@,
                r@[i].kind,
                r@[i].in_milliseconds,
                r@[i].description@,
            ) == described_metrics()[i],
{
    let r: Vec<MetricDescription> = vec![
        MetricDescription {
            name: "requests",
            kind: MetricKind::Counter,
            in_milliseconds: false,
            description: "Incoming requests by FlightSQL endpoint",
        },
        MetricDescription {
            name: "get_flight_info_latency_ms",
            kind: MetricKind::Histogram,
            in_milliseconds: true,
            description: "Get flight info latency ms",
        },
        MetricDescription {
            name: "do_get_fallback_latency_ms",
            kind: MetricKind::Histogram,
            in_milliseconds: true,
            description: "Do get fallback latency ms",
        },
    ];
    assert forall|i: int|
        0 <= i < r@.len() implies (
            #[trigger] r@[i].name@,
            r@[i].kind,
            r@[i].in_milliseconds,
            r@[i].description@,
        ) == described_metrics()[i] by {}
    r
}

/// Once the metrics are described and the exporter installed, the scrape
/// lists the `requests` counter and both latency histograms, and every
/// described histogram gets the fixed latency bucket boundaries.
pub proof fn lemma_histograms_get_latency_buckets()
    ensures
        described_metrics()[0] == (
            "requests"@,
            MetricKind::Counter,
            false,
            "Incoming requests by FlightSQL endpoint"@,
        ),
        described_metrics()[1].0 == "get_flight_info_latency_ms"@,
        described_metrics()[2].0 == "do_get_fallback_latency_ms"@,
        forall|i: int|
            0 <= i < described_metrics().len() ==> (#[trigger] described_metrics()[i].1
                == MetricKind::Histogram <==> ends_with(described_metrics()[i].0, LATENCY_SUFFIX@)),
{
    reveal_strlit("latency_ms");
    reveal_strlit("requests");
    reveal_strlit("get_flight_info_latency_ms");
    reveal_strlit("do_get_fallback_latency_ms");
    let d = described_metrics();
    assert(d[1].0.subrange(d[1].0.len() - 10, d[1].0.len() as int) =~= LATENCY_SUFFIX@);
    assert(d[2].0.subrange(d[2].0.len() - 10, d[2].0.len() as int) =~= LATENCY_SUFFIX@);
}

} // verus!
