//! Tunnels as the agent reports them, and how they are read from a document.

use vstd::prelude::*;
use crate::error::DecodeError;
use crate::json::{holds, lemma_first_named, lemma_held_member, Json, JsonValue};
use crate::text::{decimal_text, lemma_decimal_text_round_trip};

verus! {

/// What a decoder makes of a member that may be missing.
fn required<T>(member: Option<T>) -> (r: Result<T, DecodeError>)
    ensures
        match member {
            Some(value) => r == Ok::<T, DecodeError>(value),
            None => r == Err::<T, DecodeError>(DecodeError::ShapeMismatch),
        },
{
    match member {
        Some(value) => Ok(value),
        None => Err(DecodeError::ShapeMismatch),
    }
}

/// Counters and latencies of one kind of traffic.
///
/// Rates and percentiles are kept as decimal text, as a document holds them.
#[derive(Clone, Debug, PartialEq, Eq)]
pub struct BaseMetric {
    pub count: u64,
    pub rate1: String,
    pub rate5: String,
    pub rate15: String,
    pub p50: String,
    pub p90: String,
    pub p95: String,
    pub p99: String,
}

/// The content of a [`BaseMetric`].
pub struct BaseMetricView {
    pub count: u64,
    pub rate1: Seq<char>,
    pub rate5: Seq<char>,
    pub rate15: Seq<char>,
    pub p50: Seq<char>,
    pub p90: Seq<char>,
    pub p95: Seq<char>,
    pub p99: Seq<char>,
}

impl View for BaseMetric {
    type V = BaseMetricView;

    open spec fn view(&self) -> BaseMetricView {
        BaseMetricView {
            count: self.count,
            rate1: self.rate1@,
            rate5: self.rate5@,
            rate15: self.rate15@,
            p50: self.p50@,
            p90: self.p90@,
            p95: self.p95@,
            p99: self.p99@,
        }
    }
}

/// The metric that a document describes: an object with a whole `count` and
/// the numbers `rate1`, `rate5`, `rate15`, `p50`, `p90`, `p95` and `p99`.
pub open spec fn base_metric_of(json: JsonValue) -> Option<BaseMetricView> {
    if json.count_member("count"@) is Some && json.number_member("rate1"@) is Some
        && json.number_member("rate5"@) is Some && json.number_member("rate15"@) is Some
        && json.number_member("p50"@) is Some && json.number_member("p90"@) is Some
        && json.number_member("p95"@) is Some && json.number_member("p99"@) is Some {
        Some(
            BaseMetricView {
                count: json.count_member("count"@).unwrap(),
                rate1: json.number_member("rate1"@).unwrap(),
                rate5: json.number_member("rate5"@).unwrap(),
                rate15: json.number_member("rate15"@).unwrap(),
                p50: json.number_member("p50"@).unwrap(),
                p90: json.number_member("p90"@).unwrap(),
                p95: json.number_member("p95"@).unwrap(),
                p99: json.number_member("p99"@).unwrap(),
            },
        )
    } else {
        None
    }
}

impl BaseMetric {
    /// Reads a metric from a document.
    pub fn from_json(json: &Json) -> (r: Result<BaseMetric, DecodeError>)
        ensures
            match r {
                Ok(metric) => base_metric_of(json@) == Some(metric@),
                Err(e) => e == DecodeError::ShapeMismatch && base_metric_of(json@) is None,
            },
    {
        let count = required(json.count_member("count"))?;
        let rate1 = required(json.number_member("rate1"))?;
        let rate5 = required(json.number_member("rate5"))?;
        let rate15 = required(json.number_member("rate15"))?;
        let p50 = required(json.number_member("p50"))?;
        let p90 = required(json.number_member("p90"))?;
        let p95 = required(json.number_member("p95"))?;
        let p99 = required(json.number_member("p99"))?;
        Ok(BaseMetric { count, rate1, rate5, rate15, p50, p90, p95, p99 })
    }
}

/// The document that describes a metric.
pub open spec fn base_metric_json(metric: BaseMetricView) -> JsonValue {
    JsonValue::Object(
        seq![
            ("count"@, JsonValue::Number(decimal_text(metric.count as nat))),
            ("rate1"@, JsonValue::Number(metric.rate1)),
            ("rate5"@, JsonValue::Number(metric.rate5)),
            ("rate15"@, JsonValue::Number(metric.rate15)),
            ("p50"@, JsonValue::Number(metric.p50)),
            ("p90"@, JsonValue::Number(metric.p90)),
            ("p95"@, JsonValue::Number(metric.p95)),
            ("p99"@, JsonValue::Number(metric.p99)),
        ],
    )
}

/// The names of the members of a metric differ from one another: in length,
/// or in the letter given here.
proof fn lemma_metric_names()
    ensures
        "count"@.len() == 5 && "count"@[0] == 'c',
        "gauge"@.len() == 5 && "gauge"@[0] == 'g',
        "rate1"@.len() == 5 && "rate1"@[0] == 'r' && "rate1"@[4] == '1',
        "rate5"@.len() == 5 && "rate5"@[0] == 'r' && "rate5"@[4] == '5',
        "rate15"@.len() == 6,
        "p50"@.len() == 3 && "p50"@[1] == '5' && "p50"@[2] == '0',
        "p90"@.len() == 3 && "p90"@[1] == '9' && "p90"@[2] == '0',
        "p95"@.len() == 3 && "p95"@[1] == '9' && "p95"@[2] == '5',
        "p99"@.len() == 3 && "p99"@[1] == '9' && "p99"@[2] == '9',
{
    reveal_strlit("count");
    reveal_strlit("gauge");
    reveal_strlit("rate1");
    reveal_strlit("rate5");
    reveal_strlit("rate15");
    reveal_strlit("p50");
    reveal_strlit("p90");
    reveal_strlit("p95");
    reveal_strlit("p99");
}

/// Reading the document of a metric gives the metric back.
pub proof fn lemma_base_metric_round_trip(metric: BaseMetricView)
    ensures
        base_metric_of(base_metric_json(metric)) == Some(metric),
{
    lemma_metric_names();
    lemma_decimal_text_round_trip(metric.count as nat);
    let members = base_metric_json(metric)->Object_0;
    lemma_first_named(members, 0);
    lemma_first_named(members, 1);
    lemma_first_named(members, 2);
    lemma_first_named(members, 3);
    lemma_first_named(members, 4);
    lemma_first_named(members, 5);
    lemma_first_named(members, 6);
    lemma_first_named(members, 7);
}

/// A document that holds the document of a metric reads as that metric,
/// whatever the order of its members and whatever else it holds.
pub proof fn lemma_base_metric_held(json: JsonValue, metric: BaseMetricView)
    requires
        holds(json, base_metric_json(metric)),
    ensures
        base_metric_of(json) == Some(metric),
{
    let pattern = base_metric_json(metric);
    lemma_decimal_text_round_trip(metric.count as nat);
    lemma_held_member(json, pattern, 0);
    lemma_held_member(json, pattern, 1);
    lemma_held_member(json, pattern, 2);
    lemma_held_member(json, pattern, 3);
    lemma_held_member(json, pattern, 4);
    lemma_held_member(json, pattern, 5);
    lemma_held_member(json, pattern, 6);
    lemma_held_member(json, pattern, 7);
}

/// Counters and latencies of the connections, with the number of those that
/// are open.
///
/// Rates, percentiles and the gauge are kept as decimal text, as a document
/// holds them.
#[derive(Clone, Debug, PartialEq, Eq)]
pub struct GaugeMetric {
    pub count: u64,
    pub rate1: String,
    pub rate5: String,
    pub rate15: String,
    pub p50: String,
    pub p90: String,
    pub p95: String,
    pub p99: String,
    pub gauge: String,
}

/// The content of a [`GaugeMetric`].
pub struct GaugeMetricView {
    pub count: u64,
    pub rate1: Seq<char>,
    pub rate5: Seq<char>,
    pub rate15: Seq<char>,
    pub p50: Seq<char>,
    pub p90: Seq<char>,
    pub p95: Seq<char>,
    pub p99: Seq<char>,
    pub gauge: Seq<char>,
}

impl View for GaugeMetric {
    type V = GaugeMetricView;

    open spec fn view(&self) -> GaugeMetricView {
        GaugeMetricView {
            count: self.count,
            rate1: self.rate1@,
            rate5: self.rate5@,
            rate15: self.rate15@,
            p50: self.p50@,
            p90: self.p90@,
            p95: self.p95@,
            p99: self.p99@,
            gauge: self.gauge@,
        }
    }
}

/// The metric that a document describes: an object with the members of a
/// [`BaseMetric`] and the number `gauge`.
pub open spec fn gauge_metric_of(json: JsonValue) -> Option<GaugeMetricView> {
    match (base_metric_of(json), json.number_member("gauge"@)) {
        (Some(base), Some(gauge)) => Some(
            GaugeMetricView {
                count: base.count,
                rate1: base.rate1,
                rate5: base.rate5,
                rate15: base.rate15,
                p50: base.p50,
                p90: base.p90,
                p95: base.p95,
                p99: base.p99,
                gauge,
            },
        ),
        _ => None,
    }
}

/// The document that describes a metric with a gauge.
pub open spec fn gauge_metric_json(metric: GaugeMetricView) -> JsonValue {
    JsonValue::Object(
        seq![
            ("count"@, JsonValue::Number(decimal_text(metric.count as nat))),
            ("rate1"@, JsonValue::Number(metric.rate1)),
            ("rate5"@, JsonValue::Number(metric.rate5)),
            ("rate15"@, JsonValue::Number(metric.rate15)),
            ("p50"@, JsonValue::Number(metric.p50)),
            ("p90"@, JsonValue::Number(metric.p90)),
            ("p95"@, JsonValue::Number(metric.p95)),
            ("p99"@, JsonValue::Number(metric.p99)),
            ("gauge"@, JsonValue::Number(metric.gauge)),
        ],
    )
}

/// Reading the document of a metric with a gauge gives the metric back.
pub proof fn lemma_gauge_metric_round_trip(metric: GaugeMetricView)
    ensures
        gauge_metric_of(gauge_metric_json(metric)) == Some(metric),
{
    lemma_metric_names();
    lemma_decimal_text_round_trip(metric.count as nat);
    let members = gauge_metric_json(metric)->Object_0;
    lemma_first_named(members, 0);
    lemma_first_named(members, 1);
    lemma_first_named(members, 2);
    lemma_first_named(members, 3);
    lemma_first_named(members, 4);
    lemma_first_named(members, 5);
    lemma_first_named(members, 6);
    lemma_first_named(members, 7);
    lemma_first_named(members, 8);
}

/// A document that holds the document of a metric with a gauge reads as that
/// metric, whatever the order of its members and whatever else it holds.
pub proof fn lemma_gauge_metric_held(json: JsonValue, metric: GaugeMetricView)
    requires
        holds(json, gauge_metric_json(metric)),
    ensures
        gauge_metric_of(json) == Some(metric),
{
    let pattern = gauge_metric_json(metric);
    lemma_decimal_text_round_trip(metric.count as nat);
    lemma_held_member(json, pattern, 0);
    lemma_held_member(json, pattern, 1);
    lemma_held_member(json, pattern, 2);
    lemma_held_member(json, pattern, 3);
    lemma_held_member(json, pattern, 4);
    lemma_held_member(json, pattern, 5);
    lemma_held_member(json, pattern, 6);
    lemma_held_member(json, pattern, 7);
    lemma_held_member(json, pattern, 8);
}

impl GaugeMetric {
    /// Reads a metric with a gauge from a document.
    pub fn from_json(json: &Json) -> (r: Result<GaugeMetric, DecodeError>)
        ensures
            match r {
                Ok(metric) => gauge_metric_of(json@) == Some(metric@),
                Err(e) => e == DecodeError::ShapeMismatch && gauge_metric_of(json@) is None,
            },
    {
        let base = BaseMetric::from_json(json)?;
        let gauge = required(json.number_member("gauge"))?;
        Ok(
            GaugeMetric {
                count: base.count,
                rate1: base.rate1,
                rate5: base.rate5,
                rate15: base.rate15,
                p50: base.p50,
                p90: base.p90,
                p95: base.p95,
                p99: base.p99,
                gauge,
            },
        )
    }
}

/// The traffic of a tunnel: its connections and the HTTP requests on them.
#[derive(Clone, Debug, PartialEq, Eq)]
pub struct Metrics {
    pub conns: GaugeMetric,
    pub http: BaseMetric,
}

/// The content of a [`Metrics`].
pub struct MetricsView {
    pub conns: GaugeMetricView,
    pub http: BaseMetricView,
}

impl View for Metrics {
    type V = MetricsView;

    open spec fn view(&self) -> MetricsView {
        MetricsView { conns: self.conns@, http: self.http@ }
    }
}

/// The metrics that a document describes: an object whose member `conns` is
/// a metric with a gauge and whose member `http` is a metric.
pub open spec fn metrics_of(json: JsonValue) -> Option<MetricsView> {
    match (json.member("conns"@), json.member("http"@)) {
        (Some(conns), Some(http)) => match (gauge_metric_of(conns), base_metric_of(http)) {
            (Some(conns), Some(http)) => Some(MetricsView { conns, http }),
            _ => None,
        },
        _ => None,
    }
}

/// The document that describes the metrics of a tunnel.
pub open spec fn metrics_json(metrics: MetricsView) -> JsonValue {
    JsonValue::Object(
        seq![
            ("conns"@, gauge_metric_json(metrics.conns)),
            ("http"@, base_metric_json(metrics.http)),
        ],
    )
}

/// Reading the document of the metrics of a tunnel gives the metrics back.
pub proof fn lemma_metrics_round_trip(metrics: MetricsView)
    ensures
        metrics_of(metrics_json(metrics)) == Some(metrics),
{
    reveal_strlit("conns");
    reveal_strlit("http");
    assert("conns"@.len() == 5 && "http"@.len() == 4);
    lemma_gauge_metric_round_trip(metrics.conns);
    lemma_base_metric_round_trip(metrics.http);
    let members = metrics_json(metrics)->Object_0;
    lemma_first_named(members, 0);
    lemma_first_named(members, 1);
}

/// A document that holds the document of the metrics of a tunnel reads as
/// those metrics, whatever the order of its members and whatever else it
/// holds, at either level.
pub proof fn lemma_metrics_held(json: JsonValue, metrics: MetricsView)
    requires
        holds(json, metrics_json(metrics)),
    ensures
        metrics_of(json) == Some(metrics),
{
    let pattern = metrics_json(metrics);
    lemma_held_member(json, pattern, 0);
    lemma_held_member(json, pattern, 1);
    lemma_gauge_metric_held(json.member("conns"@).unwrap(), metrics.conns);
    lemma_base_metric_held(json.member("http"@).unwrap(), metrics.http);
}

impl Metrics {
    /// Reads the metrics of a tunnel from a document.
    pub fn from_json(json: &Json) -> (r: Result<Metrics, DecodeError>)
        ensures
            match r {
                Ok(metrics) => metrics_of(json@) == Some(metrics@),
                Err(e) => e == DecodeError::ShapeMismatch && metrics_of(json@) is None,
            },
    {
        let conns = GaugeMetric::from_json(required(json.member("conns"))?)?;
        let http = BaseMetric::from_json(required(json.member("http"))?)?;
        Ok(Metrics { conns, http })
    }
}

/// How a tunnel reaches the local service.
#[derive(Clone, Debug, PartialEq, Eq)]
pub struct TunnelConfig {
    pub addr: String,
    pub inspect: bool,
}

/// The content of a [`TunnelConfig`].
pub struct TunnelConfigView {
    pub addr: Seq<char>,
    pub inspect: bool,
}

impl View for TunnelConfig {
    type V = TunnelConfigView;

    open spec fn view(&self) -> TunnelConfigView {
        TunnelConfigView { addr: self.addr@, inspect: self.inspect }
    }
}

/// The configuration that a document describes: an object with the string
/// `addr` and the flag `inspect`.
pub open spec fn tunnel_config_of(json: JsonValue) -> Option<TunnelConfigView> {
    match (json.text_member("addr"@), json.flag_member("inspect"@)) {
        (Some(addr), Some(inspect)) => Some(TunnelConfigView { addr, inspect }),
        _ => None,
    }
}

/// The document that describes a configuration.
pub open spec fn tunnel_config_json(config: TunnelConfigView) -> JsonValue {
    JsonValue::Object(
        seq![
            ("addr"@, JsonValue::Text(config.addr)),
            ("inspect"@, JsonValue::Bool(config.inspect)),
        ],
    )
}

/// Reading the document of a configuration gives the configuration back.
pub proof fn lemma_tunnel_config_round_trip(config: TunnelConfigView)
    ensures
        tunnel_config_of(tunnel_config_json(config)) == Some(config),
{
    reveal_strlit("addr");
    reveal_strlit("inspect");
    assert("addr"@.len() == 4 && "inspect"@.len() == 7);
    let members = tunnel_config_json(config)->Object_0;
    lemma_first_named(members, 0);
    lemma_first_named(members, 1);
}

/// A document that holds the document of a configuration reads as that
/// configuration, whatever the order of its members and whatever else it
/// holds.
pub proof fn lemma_tunnel_config_held(json: JsonValue, config: TunnelConfigView)
    requires
        holds(json, tunnel_config_json(config)),
    ensures
        tunnel_config_of(json) == Some(config),
{
    let pattern = tunnel_config_json(config);
    lemma_held_member(json, pattern, 0);
    lemma_held_member(json, pattern, 1);
}

impl TunnelConfig {
    /// Reads a configuration from a document.
    pub fn from_json(json: &Json) -> (r: Result<TunnelConfig, DecodeError>)
        ensures
            match r {
                Ok(config) => tunnel_config_of(json@) == Some(config@),
                Err(e) => e == DecodeError::ShapeMismatch && tunnel_config_of(json@) is None,
            },
    {
        let addr = required(json.text_member("addr"))?;
        let inspect = required(json.flag_member("inspect"))?;
        Ok(TunnelConfig { addr, inspect })
    }
}

/// One forwarding rule of the agent, with its traffic so far.
#[derive(Clone, Debug, PartialEq, Eq)]
pub struct Tunnel {
    pub name: String,
    pub uri: String,
    pub public_url: String,
    pub proto: String,
    pub config: TunnelConfig,
    pub metrics: Metrics,
}

/// The content of a [`Tunnel`].
pub struct TunnelView {
    pub name: Seq<char>,
    pub uri: Seq<char>,
    pub public_url: Seq<char>,
    pub proto: Seq<char>,
    pub config: TunnelConfigView,
    pub metrics: MetricsView,
}

impl View for Tunnel {
    type V = TunnelView;

    open spec fn view(&self) -> TunnelView {
        TunnelView {
            name: self.name@,
            uri: self.uri@,
            public_url: self.public_url@,
            proto: self.proto@,
            config: self.config@,
            metrics: self.metrics@,
        }
    }
}

/// The strings of a tunnel, in the order `name`, `uri`, `public_url`, `proto`,
/// where the document is an object that has all four.
pub open spec fn tunnel_texts_of(json: JsonValue) -> Option<
    (Seq<char>, Seq<char>, Seq<char>, Seq<char>),
> {
    match (
        json.text_member("name"@),
        json.text_member("uri"@),
        json.text_member("public_url"@),
        json.text_member("proto"@),
    ) {
        (Some(name), Some(uri), Some(public_url), Some(proto)) => Some(
            (name, uri, public_url, proto),
        ),
        _ => None,
    }
}

/// The tunnel that a document describes: an object with the strings `name`,
/// `uri`, `public_url` and `proto`, a configuration under `config` and
/// metrics under `metrics`. Further members are passed over.
pub open spec fn tunnel_of(json: JsonValue) -> Option<TunnelView> {
    match (tunnel_texts_of(json), json.member("config"@), json.member("metrics"@)) {
        (Some(texts), Some(config), Some(metrics)) => match (
            tunnel_config_of(config),
            metrics_of(metrics),
        ) {
            (Some(config), Some(metrics)) => Some(
                TunnelView {
                    name: texts.0,
                    uri: texts.1,
                    public_url: texts.2,
                    proto: texts.3,
                    config,
                    metrics,
                },
            ),
            _ => None,
        },
        _ => None,
    }
}

/// The document that describes a tunnel.
pub open spec fn tunnel_json(tunnel: TunnelView) -> JsonValue {
    JsonValue::Object(
        seq![
            ("name"@, JsonValue::Text(tunnel.name)),
            ("uri"@, JsonValue::Text(tunnel.uri)),
            ("public_url"@, JsonValue::Text(tunnel.public_url)),
            ("proto"@, JsonValue::Text(tunnel.proto)),
            ("config"@, tunnel_config_json(tunnel.config)),
            ("metrics"@, metrics_json(tunnel.metrics)),
        ],
    )
}

/// Reading the document of a tunnel gives the tunnel back.
pub proof fn lemma_tunnel_round_trip(tunnel: TunnelView)
    ensures
        tunnel_of(tunnel_json(tunnel)) == Some(tunnel),
{
    reveal_strlit("name");
    reveal_strlit("uri");
    reveal_strlit("public_url");
    reveal_strlit("proto");
    reveal_strlit("config");
    reveal_strlit("metrics");
    assert("name"@.len() == 4 && "uri"@.len() == 3 && "public_url"@.len() == 10);
    assert("proto"@.len() == 5 && "config"@.len() == 6 && "metrics"@.len() == 7);
    lemma_tunnel_config_round_trip(tunnel.config);
    lemma_metrics_round_trip(tunnel.metrics);
    let members = tunnel_json(tunnel)->Object_0;
    lemma_first_named(members, 0);
    lemma_first_named(members, 1);
    lemma_first_named(members, 2);
    lemma_first_named(members, 3);
    lemma_first_named(members, 4);
    lemma_first_named(members, 5);
}

/// A document that holds the document of a tunnel reads as that tunnel,
/// whatever the order of its members and whatever else it holds, at every
/// level.
pub proof fn lemma_tunnel_held(json: JsonValue, tunnel: TunnelView)
    requires
        holds(json, tunnel_json(tunnel)),
    ensures
        tunnel_of(json) == Some(tunnel),
{
    let pattern = tunnel_json(tunnel);
    lemma_held_member(json, pattern, 0);
    lemma_held_member(json, pattern, 1);
    lemma_held_member(json, pattern, 2);
    lemma_held_member(json, pattern, 3);
    lemma_held_member(json, pattern, 4);
    lemma_held_member(json, pattern, 5);
    lemma_tunnel_config_held(json.member("config"@).unwrap(), tunnel.config);
    lemma_metrics_held(json.member("metrics"@).unwrap(), tunnel.metrics);
}

impl Tunnel {
    /// Reads a tunnel from a document.
    pub fn from_json(json: &Json) -> (r: Result<Tunnel, DecodeError>)
        ensures
            match r {
                Ok(tunnel) => tunnel_of(json@) == Some(tunnel@),
                Err(e) => e == DecodeError::ShapeMismatch && tunnel_of(json@) is None,
            },
    {
        let name = required(json.text_member("name"))?;
        let uri = required(json.text_member("uri"))?;
        let public_url = required(json.text_member("public_url"))?;
        let proto = required(json.text_member("proto"))?;
        let config = TunnelConfig::from_json(required(json.member("config"))?)?;
        let metrics = Metrics::from_json(required(json.member("metrics"))?)?;
        Ok(Tunnel { name, uri, public_url, proto, config, metrics })
    }
}

/// The tunnels of the agent at the time they were asked for, in its order.
#[derive(Clone, Debug, PartialEq, Eq)]
pub struct Tunnels {
    pub tunnels: Vec<Tunnel>,
}

/// The content of a [`Tunnels`].
pub struct TunnelsView {
    pub tunnels: Seq<TunnelView>,
}

impl View for Tunnels {
    type V = TunnelsView;

    open spec fn view(&self) -> TunnelsView {
        TunnelsView { tunnels: self.tunnels@.map_values(|tunnel: Tunnel| tunnel@) }
    }
}

/// The collection that a document describes: an object whose member
/// `tunnels` is an array of tunnels. Further members are passed over.
pub open spec fn tunnels_of(json: JsonValue) -> Option<TunnelsView> {
    match json.member("tunnels"@) {
        Some(JsonValue::Array(items)) => if forall|i: int|
            0 <= i < items.len() ==> tunnel_of(#[trigger] items[i]) is Some {
            Some(
                TunnelsView {
                    tunnels: Seq::new(items.len(), |i: int| tunnel_of(items[i]).unwrap()),
                },
            )
        } else {
            None
        },
        _ => None,
    }
}

/// The document that describes a collection of tunnels.
pub open spec fn tunnels_json(tunnels: TunnelsView) -> JsonValue {
    JsonValue::Object(
        seq![
            (
                "tunnels"@,
                JsonValue::Array(
                    Seq::new(tunnels.tunnels.len(), |i: int| tunnel_json(tunnels.tunnels[i])),
                ),
            ),
        ],
    )
}

/// Reading the document of a collection gives the collection back: the same
/// tunnels in the same order, each with the same value in every field.
pub proof fn lemma_tunnels_round_trip(tunnels: TunnelsView)
    ensures
        tunnels_of(tunnels_json(tunnels)) == Some(tunnels),
{
    let members = tunnels_json(tunnels)->Object_0;
    lemma_first_named(members, 0);
    let items = Seq::new(tunnels.tunnels.len(), |i: int| tunnel_json(tunnels.tunnels[i]));
    assert forall|i: int| 0 <= i < items.len() implies tunnel_of(#[trigger] items[i]) == Some(
        tunnels.tunnels[i],
    ) by {
        lemma_tunnel_round_trip(tunnels.tunnels[i]);
    }
    let read = Seq::new(items.len(), |i: int| tunnel_of(items[i]).unwrap());
    assert(read =~= tunnels.tunnels);
}

/// A document that holds the document of a collection reads as that
/// collection: the same tunnels in the same order, each with the same value
/// in every field, whatever the order of the members of its objects and
/// whatever else they hold.
pub proof fn lemma_tunnels_held(json: JsonValue, tunnels: TunnelsView)
    requires
        holds(json, tunnels_json(tunnels)),
    ensures
        tunnels_of(json) == Some(tunnels),
{
    let pattern = tunnels_json(tunnels);
    lemma_held_member(json, pattern, 0);
    let wanted = Seq::new(tunnels.tunnels.len(), |i: int| tunnel_json(tunnels.tunnels[i]));
    let items = json.member("tunnels"@).unwrap()->Array_0;
    assert forall|i: int| 0 <= i < items.len() implies tunnel_of(#[trigger] items[i]) == Some(
        tunnels.tunnels[i],
    ) by {
        assert(holds(items[i], wanted[i]));
        lemma_tunnel_held(items[i], tunnels.tunnels[i]);
    }
    let read = Seq::new(items.len(), |i: int| tunnel_of(items[i]).unwrap());
    assert(read =~= tunnels.tunnels);
}

impl Tunnels {
    /// Reads a collection of tunnels from a document.
    pub fn from_json(json: &Json) -> (r: Result<Tunnels, DecodeError>)
        ensures
            match r {
                Ok(tunnels) => tunnels_of(json@) == Some(tunnels@),
                Err(e) => e == DecodeError::ShapeMismatch && tunnels_of(json@) is None,
            },
    {
        let items = required(required(json.member("tunnels"))?.items())?;
        let ghost values = json@.member("tunnels"@).unwrap()->Array_0;
        let mut tunnels: Vec<Tunnel> = Vec::new();
        let mut i: usize = 0;
        while i < items.len()
            invariant
                i <= items.len(),
                tunnels@.len() == i,
                values.len() == items@.len(),
                forall|k: int| 0 <= k < values.len() ==> #[trigger] values[k] == items@[k]@,
                forall|k: int| 0 <= k < i ==> tunnel_of(#[trigger] values[k]) == Some(tunnels@[k]@),
                json@.member("tunnels"@) == Some(JsonValue::Array(values)),
            decreases items.len() - i,
        {
            match Tunnel::from_json(&items[i]) {
                Ok(tunnel) => {
                    tunnels.push(tunnel);
                },
                Err(e) => {
                    assert(tunnel_of(values[i as int]) is None);
                    return Err(e);
                },
            }
            i += 1;
        }
        let r = Tunnels { tunnels };
        proof {
            let read = Seq::new(values.len(), |k: int| tunnel_of(values[k]).unwrap());
            assert(read =~= r@.tunnels);
        }
        Ok(r)
    }
}

} // verus!
