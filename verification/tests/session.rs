use ngrok_api::bootstrap::{Action, Event};
use ngrok_api::client::{Method, Ngrok, Outcome, Request, Response};
use ngrok_api::error::ClientError;
use ngrok_api::json::{Json, Member};
use ngrok_api::platform::Platform;
use ngrok_api::tunnel::{Tunnel, Tunnels};

fn member(name: &str, value: Json) -> Member {
    Member { name: name.to_string(), value }
}

fn text(text: &str) -> Json {
    Json::Text(text.to_string())
}

fn number(digits: &str) -> Json {
    Json::Number(digits.to_string())
}

fn tunnel_text(name: &str, proto: &str, port: u16) -> String {
    format!(
        "{{\"name\":\"{name}\",\"uri\":\"/api/tunnels/{uri}\",\
         \"public_url\":\"{proto}://0a1b2c3d.ngrok.io\",\"proto\":\"{proto}\",\
         \"config\":{{\"addr\":\"http://localhost:{port}\",\"inspect\":true}},\
         \"metrics\":{{\"conns\":{{\"count\":0,\"gauge\":0,\"rate1\":0,\"rate5\":0,\"rate15\":0,\
         \"p50\":0,\"p90\":0,\"p95\":0,\"p99\":0}},\
         \"http\":{{\"count\":0,\"rate1\":0,\"rate5\":0,\"rate15\":0,\
         \"p50\":0,\"p90\":0,\"p95\":0,\"p99\":0}}}}}}",
        name = name,
        uri = name.replace(' ', "%20"),
        proto = proto,
        port = port
    )
}

fn reply(status: u16, status_text: &str, body: String) -> Outcome {
    Outcome::Answered(Response {
        status,
        status_text: status_text.to_string(),
        content_length: Some(body.len().to_string()),
        body: body.into_bytes(),
    })
}

/// A stand-in for the agent: it keeps tunnels and answers requests.
struct Agent {
    tunnels: Vec<(String, String, u16)>,
}

impl Agent {
    fn answer(&mut self, request: &Request) -> Outcome {
        let base = "http://127.0.0.1:4040/api/tunnels";
        match request.method {
            Method::Get if request.url == base => {
                let listed: Vec<String> =
                    self.tunnels.iter().map(|(n, p, a)| tunnel_text(n, p, *a)).collect();
                reply(
                    200,
                    "OK",
                    format!("{{\"tunnels\":[{}],\"uri\":\"/api/tunnels\"}}", listed.join(",")),
                )
            }
            Method::Post if request.url == base => {
                let data = request.body.as_ref().expect("a document to create a tunnel from");
                let name = data.text_member("name").expect("a name");
                let port = data.count_member("addr").expect("a port") as u16;
                let both = data.text_member("bind_tls") == Some("both".to_string());
                if both {
                    self.tunnels.push((format!("{} (http)", name), "http".to_string(), port));
                    self.tunnels.push((name.clone(), "https".to_string(), port));
                    reply(201, "Created", tunnel_text(&name, "https", port))
                } else {
                    self.tunnels.push((name.clone(), "https".to_string(), port));
                    reply(201, "Created", tunnel_text(&name, "https", port))
                }
            }
            Method::Delete => {
                let before = self.tunnels.len();
                self.tunnels.retain(|(n, _, _)| {
                    format!("{}/{}", base, n.replace(' ', "%20")) != request.url
                });
                if self.tunnels.len() < before {
                    reply(204, "No Content", String::new())
                } else {
                    reply(404, "Not Found", "{\"error_code\":100}".to_string())
                }
            }
            _ => reply(404, "Not Found", "{\"error_code\":100}".to_string()),
        }
    }
}

fn get_listed(ngrok: &Ngrok, agent: &mut Agent) -> Result<Tunnels, ClientError> {
    let request = ngrok.get("api/tunnels")?;
    request.tunnels(agent.answer(&request))
}

fn post_document(ngrok: &Ngrok, agent: &mut Agent, data: Json) -> Result<Json, ClientError> {
    let request = ngrok.post("api/tunnels", data)?;
    request.document(agent.answer(&request))
}

fn delete(ngrok: &Ngrok, agent: &mut Agent, path: &str) -> Result<(), ClientError> {
    let request = ngrok.delete(path)?;
    request.accept(agent.answer(&request)).map(|_| ())
}

#[test]
fn get_tunnels() {
    let ngrok = Ngrok::new(Platform::new("x86_64", "linux", ""));
    let mut agent = Agent { tunnels: vec![] };

    let (mut state, mut action) = ngrok.start::<u32>();
    let started = loop {
        let event = match action {
            Action::Probe { .. } => Event::Probed(get_listed(&ngrok, &mut agent)),
            Action::Launch => Event::Launched(None),
            Action::Finish(result) => break result,
            Action::Rejected => panic!("event rejected"),
        };
        let next = state.step(event);
        state = next.0;
        action = next.1;
    };
    let (tunnels, child) = started.expect("the agent answers");
    assert_eq!(tunnels.tunnels.len(), 0);
    assert_eq!(child, None);

    let erp_tunnel = Json::Object(vec![
        member("name", text("erp")),
        member("addr", number("8069")),
        member("proto", text("http")),
        member("bind_tls", text("both")),
        member("inspect", Json::Bool(true)),
    ]);
    let ota_tunnel = Json::Object(vec![
        member("name", text("ota")),
        member("addr", number("1999")),
        member("proto", text("http")),
        member("bind_tls", Json::Bool(true)),
        member("inspect", Json::Bool(true)),
    ]);

    let created = post_document(&ngrok, &mut agent, erp_tunnel).expect("a document");
    let tunnel = Tunnel::from_json(&created).expect("a tunnel");
    assert_eq!(tunnel.name, "erp");
    assert_eq!(tunnel.config.addr, "http://localhost:8069");
    let created = post_document(&ngrok, &mut agent, ota_tunnel).expect("a document");
    let tunnel = Tunnel::from_json(&created).expect("a tunnel");
    assert_eq!(tunnel.name, "ota");
    assert_eq!(tunnel.config.addr, "http://localhost:1999");

    let tunnels = get_listed(&ngrok, &mut agent).expect("the tunnels");
    assert_eq!(tunnels.tunnels.len(), 3);
    for tun in tunnels.tunnels {
        assert_eq!(delete(&ngrok, &mut agent, &format!("api/tunnels/{}", tun.name)), Ok(()));
    }
    let tunnels = get_listed(&ngrok, &mut agent).expect("the tunnels");
    assert_eq!(tunnels.tunnels.len(), 0);

    match delete(&ngrok, &mut agent, &format!("api/tunnels/{}", "erp")) {
        Err(ClientError::ServerError { status, text }) => {
            assert_eq!(status, 404);
            assert_eq!(text, "Not Found");
        }
        other => panic!("unexpected result: {:?}", other),
    }
}
