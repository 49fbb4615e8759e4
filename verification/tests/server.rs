use winkit::config::Config;
use winkit::errors::{ErrorKind, WinkitError};
use winkit::json::Json;
use winkit::permissions::{Capability, PermissionMode};
use winkit::providers::applications::{unsupported, ApplicationRegistry, ApplicationRequest};
use winkit::providers::registry::{
    info_of, Provider, ProviderAvailability, ProviderRegistry, WindowsProvider,
};
use winkit::server::lifecycle::Lifecycle;
use winkit::server::profiles::ToolProfile;
use winkit::server::protocol::{complete_call, Handled, McpServer, PendingCall};
use winkit::server::registry::map_protocol_error;
use winkit::server::state::AppState;
use winkit::server::transport::{read_frame, Frame};
use winkit::tools::apps::{chrome_provider, list_applications, wanted_application, AppAnswer};
use winkit::tools::toolset::{CallTerms, ToolRegistry};

#[test]
fn profile_names_round_trip() {
    for p in [
        ToolProfile::Core,
        ToolProfile::Developer,
        ToolProfile::Full,
    ] {
        assert_eq!(p.to_string().parse::<ToolProfile>().unwrap(), p);
        assert_eq!(p.as_str(), p.to_string());
    }
    assert!("nonsense".parse::<ToolProfile>().is_err());
    assert!("browser".parse::<ToolProfile>().is_err());
    assert_eq!("FULL".parse::<ToolProfile>().unwrap(), ToolProfile::Full);
}

#[test]
fn developer_is_the_default() {
    assert_eq!(ToolProfile::default_profile(), ToolProfile::Developer);
}

fn server() -> McpServer {
    let terms = CallTerms {
        mode: PermissionMode::ReadOnly,
        operation_timeout_ms: 15_000,
    };
    McpServer::new(ToolRegistry::build(&Config::default()), terms)
}

fn reply(h: Handled) -> Json {
    match h {
        Handled::Reply(text) => Json::parse(&text).unwrap(),
        _ => panic!("expected a reply"),
    }
}

fn code(r: &Json) -> i64 {
    match r.member("error").get("code") {
        Some(Json::NegInt(n)) => *n,
        _ => panic!("expected an error"),
    }
}

fn opened() -> McpServer {
    let mut s = server();
    let first = "{\"jsonrpc\":\"2.0\",\"id\":1,\"method\":\"initialize\",\"params\":{\"protocolVersion\":\"2025-06-18\",\"clientInfo\":{\"name\":\"agent\",\"version\":\"2\"}}}";
    let r = reply(s.handle_message(first));
    assert_eq!(
        r.member("result").text_at("protocolVersion").as_deref(),
        Some("2025-06-18")
    );
    s
}

#[test]
fn requests_before_the_handshake_are_refused() {
    let mut s = server();
    for method in ["ping", "tools/list", "tools/call"] {
        let frame = format!("{{\"id\":7,\"method\":\"{method}\"}}");
        let r = reply(s.handle_message(&frame));
        assert_eq!(code(&r), -32002);
        assert_eq!(r.uint_at("id"), Some(7));
        assert_eq!(
            r.member("error").text_at("message").as_deref(),
            Some("server not initialized")
        );
    }
    assert!(matches!(
        s.handle_message("{\"method\":\"notifications/initialized\"}"),
        Handled::Silent
    ));
    let still = reply(s.handle_message("{\"id\":8,\"method\":\"ping\"}"));
    assert_eq!(code(&still), -32002);
}

#[test]
fn the_handshake_names_the_client_and_the_version() {
    let mut s = opened();
    assert_eq!(s.client_name().as_deref(), Some("agent"));
    s.handle_message("{\"method\":\"notifications/initialized\"}");
    assert_eq!(s.client_name().as_deref(), Some("agent"));
    let pong = s.handle_message("{\"id\":\"a\",\"method\":\"ping\"}");
    match pong {
        Handled::Reply(text) => {
            assert_eq!(text, "{\"id\":\"a\",\"jsonrpc\":\"2.0\",\"result\":{}}")
        }
        _ => panic!("expected a reply"),
    }
    let mut old = server();
    let r = reply(old.handle_message(
        "{\"id\":1,\"method\":\"initialize\",\"params\":{\"protocolVersion\":\"1999-01-01\"}}",
    ));
    let result = r.member("result");
    assert_eq!(
        result.text_at("protocolVersion").as_deref(),
        Some("2024-11-05")
    );
    assert_eq!(
        result.member("serverInfo").text_at("name").as_deref(),
        Some("winkit")
    );
}

#[test]
fn tools_are_listed_in_order() {
    let mut s = opened();
    let r = reply(s.handle_message("{\"id\":2,\"method\":\"tools/list\"}"));
    let result = r.member("result");
    let tools = result.array_at("tools").unwrap();
    assert_eq!(tools.len(), 51);
    assert_eq!(tools[0].text_at("name").as_deref(), Some("audit_path_env"));
    assert!(tools[0].get("inputSchema").unwrap().is_object());
}

#[test]
fn malformed_frames_get_errors() {
    let mut s = opened();
    let bad = reply(s.handle_message("{"));
    assert_eq!(code(&bad), -32700);
    assert!(bad.get("id").unwrap().is_null());
    let message = bad.member("error").text_at("message").unwrap();
    assert!(message.starts_with("parse error: EOF"));
    let none = reply(s.handle_message("{\"id\":3}"));
    assert_eq!(code(&none), -32600);
    let unknown = reply(s.handle_message("{\"id\":4,\"method\":\"nope\"}"));
    assert_eq!(code(&unknown), -32601);
    assert_eq!(
        unknown.member("error").text_at("message").as_deref(),
        Some("method not found: nope")
    );
}

#[test]
fn notifications_are_not_answered() {
    let mut s = opened();
    for method in ["ping", "tools/list", "shutdown", "nope"] {
        let frame = format!("{{\"method\":\"{method}\"}}");
        assert!(matches!(s.handle_message(&frame), Handled::Silent));
    }
    assert!(matches!(
        s.handle_message("{\"method\":\"exit\"}"),
        Handled::Ended
    ));
}

fn call_of(s: &mut McpServer, params: &str) -> Handled {
    s.handle_message(&format!(
        "{{\"id\":9,\"method\":\"tools/call\",\"params\":{params}}}"
    ))
}

#[test]
fn calls_are_checked_and_completed() {
    let mut s = opened();
    let missing = reply(call_of(&mut s, "{}"));
    assert_eq!(code(&missing), -32602);
    let odd = reply(call_of(&mut s, "{\"name\":\"snapshot\",\"arguments\":[1]}"));
    assert_eq!(
        odd.member("error").text_at("message").as_deref(),
        Some("tools/call 'arguments' must be an object")
    );
    let unknown = reply(call_of(&mut s, "{\"name\":\"nope\"}"));
    assert_eq!(
        unknown.member("error").member("data").text_at("winkit_code").as_deref(),
        Some("invalid_argument")
    );
    let call = match call_of(&mut s, "{\"name\":\"snapshot\",\"arguments\":{\"a\":1}}") {
        Handled::Call(c) => c,
        _ => panic!("expected a call"),
    };
    assert_eq!((call.name.as_str(), call.timeout_ms), ("snapshot", 15_000));
    assert_eq!(call.args.uint_at("a"), Some(1));
    let done = reply(complete_call(call, Some(Ok(Json::Bool(true))), 100));
    assert_eq!(
        done.render(),
        "{\"id\":9,\"jsonrpc\":\"2.0\",\"result\":{\"content\":[{\"text\":\"true\",\"type\":\"text\"}],\"isError\":false}}"
    );
}

fn pending() -> PendingCall {
    PendingCall {
        id: Some(Json::UInt(9)),
        name: "snapshot".to_string(),
        args: Json::object(),
        timeout_ms: 20,
    }
}

#[test]
fn late_failed_and_large_results_are_errors() {
    let late = reply(complete_call(pending(), None, 100));
    assert_eq!(code(&late), -32603);
    assert_eq!(
        late.member("error").text_at("message").as_deref(),
        Some("tool 'snapshot' exceeded the 20 ms timeout")
    );
    let failed = WinkitError::provider_unavailable("gone");
    let failed = reply(complete_call(pending(), Some(Err(failed)), 100));
    assert_eq!(code(&failed), -32001);
    let large = reply(complete_call(pending(), Some(Ok(Json::text("0123456789"))), 11));
    assert_eq!(
        large.member("error").text_at("message").as_deref(),
        Some("tool result of 12 bytes exceeds the 11 byte limit")
    );
}

#[test]
fn error_kinds_have_their_codes() {
    for (kind, expected) in [
        (ErrorKind::InvalidArgument, -32602),
        (ErrorKind::ProviderUnavailable, -32001),
        (ErrorKind::ApplicationUnavailable, -32002),
        (ErrorKind::FeatureDisabled, -32003),
        (ErrorKind::EndpointUnavailable, -32004),
        (ErrorKind::BrowserExited, -32005),
        (ErrorKind::Timeout, -32603),
    ] {
        let e = WinkitError::new(kind, "words".to_string());
        let (code, data) = map_protocol_error(&e);
        assert_eq!(code, expected);
        assert_eq!(data.text_at("winkit_code").as_deref(), Some(kind.code()));
    }
}

#[test]
fn lines_become_frames() {
    assert!(matches!(read_frame("  \r"), Frame::Blank));
    match read_frame("{\"id\":1}  \r") {
        Frame::Message(m) => assert_eq!(m, "{\"id\":1}"),
        _ => panic!("expected a message"),
    }
    let long = "x".repeat(8 * 1024 * 1024 + 1);
    match read_frame(&long) {
        Frame::Refused(text) => assert!(text.contains("frame exceeds the 8 MiB limit")),
        _ => panic!("expected a refusal"),
    }
    let fits = "x".repeat(8 * 1024 * 1024);
    assert!(matches!(read_frame(&fits), Frame::Message(_)));
}

#[test]
fn sessions_begin_closed() {
    let mut l = Lifecycle::new();
    assert!(!l.is_initialized());
    l.mark_initialized(&Json::parse("{\"clientInfo\":{\"version\":\"3\"}}").unwrap());
    assert!(l.is_initialized());
    assert_eq!(l.client_name(), None);
    assert_eq!(l.client_version().as_deref(), Some("3"));
}

#[test]
fn the_state_follows_the_configuration() {
    let s = AppState::with_backend(Config::default(), 5u8).unwrap();
    assert_eq!(s.permissions, PermissionMode::ReadOnly);
    assert!(s.providers.is_enabled("windows"));
    assert_eq!(s.providers.all().len(), 1);
    let mut config = Config::default();
    config.providers.enabled = vec!["other".to_string()];
    let s = AppState::with_backend(config, 5u8).unwrap();
    assert!(!s.providers.is_enabled("windows"));
    let mut config = Config::default();
    config.permissions.mode = "everything".to_string();
    assert!(AppState::with_backend(config, 5u8).is_err());
}

#[test]
fn providers_describe_themselves() {
    let mut r = ProviderRegistry::new();
    r.register(&WindowsProvider::new());
    let p = r.get("windows").unwrap();
    assert_eq!(p.name, "Windows Provider");
    assert_eq!(p.availability, ProviderAvailability::Ready);
    assert_eq!(p.capabilities.len(), 7);
    assert_eq!(info_of(&WindowsProvider::new()).capabilities[0], "system.read");
    assert!(r.get("other").is_none());
}

struct Named(&'static str, &'static str);

impl Provider for Named {
    fn id(&self) -> &'static str {
        self.0
    }
    fn name(&self) -> &'static str {
        self.1
    }
    fn version(&self) -> &'static str {
        "1"
    }
    fn availability(&self) -> ProviderAvailability {
        ProviderAvailability::Ready
    }
    fn capabilities(&self) -> Vec<Capability> {
        vec![Capability::EventRead]
    }
}

#[test]
fn the_last_registration_counts() {
    let mut r = ProviderRegistry::new();
    for p in [Named("b", "one"), Named("a", "two"), Named("c", "three"), Named("b", "four")] {
        r.register(&p);
    }
    let all: Vec<(&str, &str)> = r
        .all()
        .iter()
        .map(|p| (p.id.as_str(), p.name.as_str()))
        .collect();
    assert_eq!(all, vec![("a", "two"), ("b", "four"), ("c", "three")]);
    assert!(r.is_enabled("c"));
}

#[test]
fn applications_are_found_by_id() {
    let mut r: ApplicationRegistry<u8> = ApplicationRegistry::new();
    assert_eq!(
        chrome_provider(&r).unwrap_err().kind,
        ErrorKind::ProviderUnavailable
    );
    r.register("edge", 2);
    r.register("chrome", 1);
    r.register("edge", 3);
    assert_eq!(r.all(), [&1, &3]);
    assert!(r.is_registered("edge"));
    assert_eq!(*chrome_provider(&r).unwrap(), 1);
    let args = Json::parse("{\"id\":\"firefox\"}").unwrap();
    assert_eq!(wanted_application(&r, &args).unwrap_err().kind, ErrorKind::NotFound);
    let none = list_applications(&Vec::new(), &vec!["windows".to_string()]);
    assert!(none.text_at("hint").unwrap().starts_with("No application adapters"));
    let failed = AppAnswer::Failed("a".to_string(), "A".to_string(), unsupported(ApplicationRequest::ListTabs));
    let one = list_applications(&vec![failed], &Vec::new());
    assert_eq!(
        one.array_at("applications").unwrap()[0].text_at("error").as_deref(),
        Some("this application provider does not implement tab listing")
    );
}
