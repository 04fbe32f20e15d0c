use ngrok_api::error::DecodeError;
use ngrok_api::json::{parse, Json, Member};
use ngrok_api::tunnel::{BaseMetric, GaugeMetric, Metrics, Tunnel, TunnelConfig, Tunnels};

fn member(name: &str, value: Json) -> Member {
    Member { name: name.to_string(), value }
}

fn number(text: &str) -> Json {
    Json::Number(text.to_string())
}

fn text(text: &str) -> Json {
    Json::Text(text.to_string())
}

fn sample_base() -> BaseMetric {
    BaseMetric {
        count: 12,
        rate1: "0.5".to_string(),
        rate5: "0.25".to_string(),
        rate15: "0.125".to_string(),
        p50: "1200000.0".to_string(),
        p90: "1500000.0".to_string(),
        p95: "1600000.0".to_string(),
        p99: "1700000.0".to_string(),
    }
}

fn sample_gauge() -> GaugeMetric {
    GaugeMetric {
        count: 3,
        rate1: "0".to_string(),
        rate5: "0".to_string(),
        rate15: "0".to_string(),
        p50: "0".to_string(),
        p90: "0".to_string(),
        p95: "0".to_string(),
        p99: "0".to_string(),
        gauge: "2".to_string(),
    }
}

fn sample_tunnel(name: &str) -> Tunnel {
    Tunnel {
        name: name.to_string(),
        uri: format!("/api/tunnels/{}", name),
        public_url: "https://0a1b2c3d.ngrok.io".to_string(),
        proto: "https".to_string(),
        config: TunnelConfig { addr: "http://localhost:8069".to_string(), inspect: true },
        metrics: Metrics { conns: sample_gauge(), http: sample_base() },
    }
}

fn base_members(metric: &BaseMetric) -> Vec<Member> {
    vec![
        member("count", number(&metric.count.to_string())),
        member("rate1", number(&metric.rate1)),
        member("rate5", number(&metric.rate5)),
        member("rate15", number(&metric.rate15)),
        member("p50", number(&metric.p50)),
        member("p90", number(&metric.p90)),
        member("p95", number(&metric.p95)),
        member("p99", number(&metric.p99)),
    ]
}

fn gauge_document(metric: &GaugeMetric) -> Json {
    Json::Object(vec![
        member("count", number(&metric.count.to_string())),
        member("rate1", number(&metric.rate1)),
        member("rate5", number(&metric.rate5)),
        member("rate15", number(&metric.rate15)),
        member("p50", number(&metric.p50)),
        member("p90", number(&metric.p90)),
        member("p95", number(&metric.p95)),
        member("p99", number(&metric.p99)),
        member("gauge", number(&metric.gauge)),
    ])
}

fn tunnel_document(tunnel: &Tunnel) -> Json {
    Json::Object(vec![
        member("name", text(&tunnel.name)),
        member("uri", text(&tunnel.uri)),
        member("public_url", text(&tunnel.public_url)),
        member("proto", text(&tunnel.proto)),
        member(
            "config",
            Json::Object(vec![
                member("addr", text(&tunnel.config.addr)),
                member("inspect", Json::Bool(tunnel.config.inspect)),
            ]),
        ),
        member(
            "metrics",
            Json::Object(vec![
                member("conns", gauge_document(&tunnel.metrics.conns)),
                member("http", Json::Object(base_members(&tunnel.metrics.http))),
            ]),
        ),
    ])
}

fn tunnels_document(tunnels: &Tunnels) -> Json {
    Json::Object(vec![member(
        "tunnels",
        Json::Array(tunnels.tunnels.iter().map(tunnel_document).collect()),
    )])
}

fn without(document: &Json, name: &str) -> Json {
    match document {
        Json::Object(members) => Json::Object(
            members
                .iter()
                .filter(|m| m.name != name)
                .map(|m| member(&m.name, copy(&m.value)))
                .collect(),
        ),
        other => copy(other),
    }
}

fn with(document: &Json, name: &str, value: Json) -> Json {
    match without(document, name) {
        Json::Object(mut members) => {
            members.push(member(name, value));
            Json::Object(members)
        }
        other => other,
    }
}

fn copy(document: &Json) -> Json {
    match document {
        Json::Null => Json::Null,
        Json::Bool(flag) => Json::Bool(*flag),
        Json::Number(digits) => Json::Number(digits.clone()),
        Json::Text(text) => Json::Text(text.clone()),
        Json::Array(items) => Json::Array(items.iter().map(copy).collect()),
        Json::Object(members) => {
            Json::Object(members.iter().map(|m| member(&m.name, copy(&m.value))).collect())
        }
    }
}

#[test]
fn base_metric_round_trips() {
    let metric = sample_base();
    let document = Json::Object(base_members(&metric));
    assert_eq!(BaseMetric::from_json(&document), Ok(metric));
}

#[test]
fn base_metric_reads_the_largest_count() {
    let mut metric = sample_base();
    metric.count = u64::MAX;
    let document = Json::Object(base_members(&metric));
    assert_eq!(BaseMetric::from_json(&document), Ok(metric));
}

#[test]
fn base_metric_needs_every_member() {
    let document = Json::Object(base_members(&sample_base()));
    for name in ["count", "rate1", "rate5", "rate15", "p50", "p90", "p95", "p99"] {
        assert_eq!(
            BaseMetric::from_json(&without(&document, name)),
            Err(DecodeError::ShapeMismatch),
            "without {}",
            name
        );
    }
}

#[test]
fn base_metric_needs_a_whole_count() {
    let document = Json::Object(base_members(&sample_base()));
    for count in [number("1.5"), number("-1"), number("18446744073709551616"), text("12"), Json::Null]
    {
        assert_eq!(
            BaseMetric::from_json(&with(&document, "count", count)),
            Err(DecodeError::ShapeMismatch)
        );
    }
}

#[test]
fn base_metric_needs_numbers_for_rates() {
    let document = Json::Object(base_members(&sample_base()));
    assert_eq!(
        BaseMetric::from_json(&with(&document, "rate5", text("0.25"))),
        Err(DecodeError::ShapeMismatch)
    );
    assert_eq!(
        BaseMetric::from_json(&with(&document, "p99", Json::Bool(true))),
        Err(DecodeError::ShapeMismatch)
    );
}

#[test]
fn base_metric_is_not_read_from_other_kinds() {
    assert_eq!(BaseMetric::from_json(&Json::Null), Err(DecodeError::ShapeMismatch));
    assert_eq!(BaseMetric::from_json(&Json::Array(vec![])), Err(DecodeError::ShapeMismatch));
    assert_eq!(BaseMetric::from_json(&text("metric")), Err(DecodeError::ShapeMismatch));
}

#[test]
fn gauge_metric_round_trips() {
    let metric = sample_gauge();
    assert_eq!(GaugeMetric::from_json(&gauge_document(&metric)), Ok(metric));
}

#[test]
fn gauge_metric_needs_its_gauge() {
    let document = gauge_document(&sample_gauge());
    assert_eq!(
        GaugeMetric::from_json(&without(&document, "gauge")),
        Err(DecodeError::ShapeMismatch)
    );
    assert_eq!(
        GaugeMetric::from_json(&without(&document, "p50")),
        Err(DecodeError::ShapeMismatch)
    );
    assert_eq!(
        GaugeMetric::from_json(&with(&document, "gauge", text("2"))),
        Err(DecodeError::ShapeMismatch)
    );
}

#[test]
fn tunnel_config_round_trips() {
    let document = Json::Object(vec![
        member("addr", text("http://localhost:1999")),
        member("inspect", Json::Bool(false)),
    ]);
    assert_eq!(
        TunnelConfig::from_json(&document),
        Ok(TunnelConfig { addr: "http://localhost:1999".to_string(), inspect: false })
    );
}

#[test]
fn tunnel_config_rejects_other_shapes() {
    let document = Json::Object(vec![
        member("addr", number("8069")),
        member("inspect", Json::Bool(true)),
    ]);
    assert_eq!(TunnelConfig::from_json(&document), Err(DecodeError::ShapeMismatch));
    let document = Json::Object(vec![
        member("addr", text("http://localhost:8069")),
        member("inspect", text("true")),
    ]);
    assert_eq!(TunnelConfig::from_json(&document), Err(DecodeError::ShapeMismatch));
    let document = Json::Object(vec![member("addr", text("http://localhost:8069"))]);
    assert_eq!(TunnelConfig::from_json(&document), Err(DecodeError::ShapeMismatch));
}

#[test]
fn metrics_round_trip() {
    let metrics = Metrics { conns: sample_gauge(), http: sample_base() };
    let document = Json::Object(vec![
        member("conns", gauge_document(&metrics.conns)),
        member("http", Json::Object(base_members(&metrics.http))),
    ]);
    assert_eq!(Metrics::from_json(&document), Ok(metrics));
}

#[test]
fn metrics_need_both_kinds_of_traffic() {
    let conns = gauge_document(&sample_gauge());
    let http = Json::Object(base_members(&sample_base()));
    assert_eq!(
        Metrics::from_json(&Json::Object(vec![member("conns", conns)])),
        Err(DecodeError::ShapeMismatch)
    );
    assert_eq!(
        Metrics::from_json(&Json::Object(vec![member("http", http)])),
        Err(DecodeError::ShapeMismatch)
    );
    let base_only = Json::Object(base_members(&sample_base()));
    let http = Json::Object(base_members(&sample_base()));
    assert_eq!(
        Metrics::from_json(&Json::Object(vec![member("conns", base_only), member("http", http)])),
        Err(DecodeError::ShapeMismatch)
    );
}

#[test]
fn tunnel_round_trips() {
    let tunnel = sample_tunnel("erp");
    assert_eq!(Tunnel::from_json(&tunnel_document(&tunnel)), Ok(tunnel));
}

#[test]
fn tunnel_passes_over_further_members() {
    let tunnel = sample_tunnel("ota");
    let document = with(&tunnel_document(&tunnel), "bind_tls", text("both"));
    assert_eq!(Tunnel::from_json(&document), Ok(tunnel));
}

#[test]
fn tunnel_needs_every_member() {
    let document = tunnel_document(&sample_tunnel("erp"));
    for name in ["name", "uri", "public_url", "proto", "config", "metrics"] {
        assert_eq!(
            Tunnel::from_json(&without(&document, name)),
            Err(DecodeError::ShapeMismatch),
            "without {}",
            name
        );
    }
}

#[test]
fn tunnel_needs_strings_for_its_texts() {
    let document = tunnel_document(&sample_tunnel("erp"));
    assert_eq!(
        Tunnel::from_json(&with(&document, "name", number("8069"))),
        Err(DecodeError::ShapeMismatch)
    );
    assert_eq!(
        Tunnel::from_json(&with(&document, "config", text("none"))),
        Err(DecodeError::ShapeMismatch)
    );
    assert_eq!(
        Tunnel::from_json(&with(&document, "metrics", Json::Array(vec![]))),
        Err(DecodeError::ShapeMismatch)
    );
}

#[test]
fn tunnels_round_trip_in_order() {
    let tunnels = Tunnels {
        tunnels: vec![sample_tunnel("erp"), sample_tunnel("ota"), sample_tunnel("erp (http)")],
    };
    let decoded = Tunnels::from_json(&tunnels_document(&tunnels));
    assert_eq!(decoded, Ok(tunnels));
}

#[test]
fn tunnels_may_be_none() {
    let document = Json::Object(vec![
        member("tunnels", Json::Array(vec![])),
        member("uri", text("/api/tunnels")),
    ]);
    match Tunnels::from_json(&document) {
        Ok(tunnels) => assert_eq!(tunnels.tunnels.len(), 0),
        Err(e) => panic!("empty collection rejected: {:?}", e),
    }
}

#[test]
fn tunnels_reject_other_shapes() {
    assert_eq!(Tunnels::from_json(&Json::Null), Err(DecodeError::ShapeMismatch));
    assert_eq!(Tunnels::from_json(&Json::Array(vec![])), Err(DecodeError::ShapeMismatch));
    assert_eq!(Tunnels::from_json(&Json::Object(vec![])), Err(DecodeError::ShapeMismatch));
    assert_eq!(
        Tunnels::from_json(&Json::Object(vec![member("tunnels", Json::Object(vec![]))])),
        Err(DecodeError::ShapeMismatch)
    );
}

#[test]
fn tunnels_reject_a_collection_with_one_bad_tunnel() {
    let good = tunnel_document(&sample_tunnel("erp"));
    let bad = without(&tunnel_document(&sample_tunnel("ota")), "proto");
    let document = Json::Object(vec![member("tunnels", Json::Array(vec![good, bad]))]);
    assert_eq!(Tunnels::from_json(&document), Err(DecodeError::ShapeMismatch));
}

#[test]
fn tunnels_are_read_from_the_text_of_a_reply() {
    let reply = "{\"tunnels\":[{\"name\":\"erp\",\"uri\":\"/api/tunnels/erp\",\
        \"public_url\":\"https://0a1b2c3d.ngrok.io\",\"proto\":\"https\",\
        \"config\":{\"addr\":\"http://localhost:8069\",\"inspect\":true},\
        \"metrics\":{\"conns\":{\"count\":3,\"gauge\":2,\"rate1\":0,\"rate5\":0,\"rate15\":0,\
        \"p50\":0,\"p90\":0,\"p95\":0,\"p99\":0},\
        \"http\":{\"count\":12,\"rate1\":0.5,\"rate5\":0.25,\"rate15\":0.125,\
        \"p50\":1200000.0,\"p90\":1500000.0,\"p95\":1600000.0,\"p99\":1700000.0}}}],\
        \"uri\":\"/api/tunnels\"}";
    let document = parse(reply).expect("the reply is a document");
    let expected = Tunnels { tunnels: vec![sample_tunnel("erp")] };
    assert_eq!(Tunnels::from_json(&document), Ok(expected));
}

fn reversed(document: &Json) -> Json {
    match document {
        Json::Object(members) => Json::Object(
            members.iter().rev().map(|m| member(&m.name, reversed(&m.value))).collect(),
        ),
        Json::Array(items) => Json::Array(items.iter().map(reversed).collect()),
        other => copy(other),
    }
}

fn sorted_with_more(document: &Json) -> Json {
    match document {
        Json::Object(members) => {
            let mut all: Vec<Member> =
                members.iter().map(|m| member(&m.name, sorted_with_more(&m.value))).collect();
            all.push(member("id", text("0a1b2c3d")));
            all.push(member("zone", Json::Null));
            all.sort_by(|a, b| a.name.cmp(&b.name));
            Json::Object(all)
        }
        Json::Array(items) => Json::Array(items.iter().map(sorted_with_more).collect()),
        other => copy(other),
    }
}

#[test]
fn tunnels_are_read_whatever_the_order_of_the_members() {
    let tunnels = Tunnels { tunnels: vec![sample_tunnel("erp"), sample_tunnel("ota")] };
    let document = tunnels_document(&tunnels);
    assert_eq!(Tunnels::from_json(&reversed(&document)), Ok(tunnels));
}

#[test]
fn tunnels_are_read_from_sorted_documents_with_further_members() {
    let tunnels = Tunnels { tunnels: vec![sample_tunnel("erp"), sample_tunnel("ota")] };
    let document = sorted_with_more(&tunnels_document(&tunnels));
    match &document {
        Json::Object(members) => {
            let names: Vec<&str> = members.iter().map(|m| m.name.as_str()).collect();
            assert_eq!(names, vec!["id", "tunnels", "zone"]);
        }
        other => panic!("no object: {:?}", other),
    }
    assert_eq!(Tunnels::from_json(&document), Ok(tunnels));
}
