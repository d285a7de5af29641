use nekoshare_transport::client::{
    parse_auth_response, AuthReply, HeartbeatStep, SocketClient, CONNECT_TIMEOUT_SECS,
    HEARTBEAT_INTERVAL_SECS,
};
use nekoshare_transport::config::{SocketClientConfig, TransferConfig};
use nekoshare_transport::connection::{Connection, UserInfo};
use nekoshare_transport::error::SocketError;
use nekoshare_transport::ids::{LinkKey, PairKey, RouteKind};
use nekoshare_transport::manager::{
    link_from_ids, resolve_link, ConnectPlan, ServerConnectPlan, SocketClientManager,
    SocketServerManager,
};
use nekoshare_transport::protocol::PacketType;
use nekoshare_transport::server::{
    data_received_event, disconnected_event, AcceptPlan, AcceptResult, ConnectionEvent,
    ConnectionServerConfig, SocketServer, StartPlan, DISPLAY_PAYLOAD_LIMIT,
    TLS_HANDSHAKE_TIMEOUT_SECS,
};

type Conn = Connection<(), ()>;
type Client = SocketClient<Conn>;
type Server = SocketServer<Conn>;

const PIN: &str = "ba7816bf8f01cfea414140de5dae2223b00361a396177a9cb410ff61f20015ad";
const ID_A: &str = "00000000-0000-4000-8000-000000000001";
const ID_B: &str = "a1a2a3a4-b1b2-41c2-91d2-d3d4d5d6d7d8";
const U_A: u128 = 0x0000_0000_0000_4000_8000_0000_0000_0001;
const U_B: u128 = 0xa1a2_a3a4_b1b2_41c2_91d2_d3d4_d5d6_d7d8;

fn open_connection() -> Conn {
    Connection::new("c".to_string(), TransferConfig::lan_optimized())
}

fn closed_connection() -> Conn {
    let mut c = open_connection();
    c.close();
    c
}

fn authenticated_connection() -> Conn {
    let mut c = open_connection();
    c.set_authenticated(UserInfo { id: "u".into(), name: "n".into() });
    c
}

fn client_config(device: &str, target: Option<&str>) -> SocketClientConfig {
    let c = SocketClientConfig::new(device.to_string(), "192.168.1.20:7000".to_string());
    match target {
        Some(t) => c.with_target_id(t.to_string()),
        None => c,
    }
}

fn connected_client(device: &str, target: &str) -> Client {
    let mut client = SocketClient::new(client_config(device, Some(target)));
    client.connected(open_connection());
    client
}

fn parse_error(e: SocketError) -> String {
    match e {
        SocketError::ParseError(m) => m,
        other => panic!("unexpected: {:?}", other),
    }
}

#[test]
fn server_config_defaults() {
    let c = ConnectionServerConfig::default();
    assert_eq!(c.connection_timeout_secs, 30);
    assert_eq!(c.idle_timeout_secs, 300);
    assert_eq!(c.bind_address, "0.0.0.0:0");
    assert_eq!(TLS_HANDSHAKE_TIMEOUT_SECS, 5);
    assert_eq!(DISPLAY_PAYLOAD_LIMIT, 1024);
    assert_eq!(CONNECT_TIMEOUT_SECS, 10);
    assert_eq!(HEARTBEAT_INTERVAL_SECS, 15);
}

#[test]
fn a_server_serves_one_connection() {
    let mut server: Server = SocketServer::new(PIN.to_uppercase());
    assert!(!server.is_running());
    assert_eq!(server.port(), 0);
    assert_eq!(server.listening_port(), 0);
    assert!(!server.has_active_connection());
    assert_eq!(server.connection_timeout_secs(), 30);
    assert_eq!(server.idle_timeout_secs(), 300);
    assert_eq!(server.client_verifier().as_ref().unwrap().expected_fingerprint, PIN);
    assert!(matches!(server.send(), Err(SocketError::NotConnected)));
    match server.start() {
        StartPlan::Bind { address } => assert_eq!(address, "0.0.0.0:0"),
        other => panic!("unexpected: {:?}", other),
    }
    server.listening(40_123);
    assert!(server.is_running());
    assert_eq!(server.port(), 40_123);
    assert!(matches!(server.start(), StartPlan::AlreadyRunning { port: 40_123 }));
    let plan = server.accept_finished(AcceptResult::Accepted);
    assert_eq!(plan, AcceptPlan::Handshake { timeout_secs: 5 });
    assert!(!server.is_running());
    assert_eq!(server.listening_port(), 0);
    server.connection_established(open_connection());
    assert!(server.has_active_connection());
    assert!(server.send().is_ok());
    let connection = server.stop().unwrap();
    assert_eq!(connection.id(), "c");
    assert!(!server.has_active_connection());
    assert!(server.stop().is_none());
}

#[test]
fn a_server_without_a_peer() {
    let mut server: Server = SocketServer::new(PIN.to_string());
    server.listening(1);
    assert_eq!(server.accept_finished(AcceptResult::TimedOut), AcceptPlan::Abandon);
    assert!(!server.is_running());
    assert_eq!(server.port(), 0);
    server.listening(2);
    assert_eq!(server.accept_finished(AcceptResult::Failed), AcceptPlan::Abandon);
    assert!(!server.is_running());
}

#[test]
fn a_server_without_a_pin_goes_without_tls() {
    let config = ConnectionServerConfig {
        connection_timeout_secs: 1,
        idle_timeout_secs: 2,
        bind_address: "127.0.0.1:9".to_string(),
    };
    let mut server: Server = SocketServer::with_config("not a fingerprint".to_string(), config);
    assert!(server.client_verifier().is_none());
    assert_eq!(server.connection_timeout_secs(), 1);
    assert_eq!(server.idle_timeout_secs(), 2);
    match server.start() {
        StartPlan::Bind { address } => assert_eq!(address, "127.0.0.1:9"),
        other => panic!("unexpected: {:?}", other),
    }
    assert_eq!(server.accept_finished(AcceptResult::Accepted), AcceptPlan::Plain);
}

#[test]
fn a_closing_connection_is_not_active() {
    let mut server: Server = SocketServer::new(PIN.to_string());
    server.connection_established(closed_connection());
    assert!(!server.has_active_connection());
    assert!(server.send().is_ok());
}

#[test]
fn received_packets_are_shown_except_chunks() {
    match data_received_event("c1", PacketType::TextMessage, b"hello") {
        Some(ConnectionEvent::DataReceived { id, packet_type, data }) => {
            assert_eq!(id, "c1");
            assert_eq!(packet_type, PacketType::TextMessage);
            assert_eq!(data, b"hello");
        }
        other => panic!("unexpected: {:?}", other),
    }
    assert!(data_received_event("c1", PacketType::FileChunk, b"hello").is_none());
    assert!(data_received_event("c1", PacketType::FileChunk, &[]).is_none());
    match data_received_event("c1", PacketType::FileOffer, &[7u8; 1024]) {
        Some(ConnectionEvent::DataReceived { data, .. }) => assert_eq!(data.len(), 1024),
        other => panic!("unexpected: {:?}", other),
    }
    match data_received_event("c1", PacketType::FileOffer, &[7u8; 1025]) {
        Some(ConnectionEvent::DataReceived { data, .. }) => assert!(data.is_empty()),
        other => panic!("unexpected: {:?}", other),
    }
}

#[test]
fn the_end_of_a_session_is_announced() {
    match disconnected_event("c9") {
        ConnectionEvent::Disconnected { id, reason } => {
            assert_eq!(id, "c9");
            assert_eq!(reason, "Session ended");
        }
        other => panic!("unexpected: {:?}", other),
    }
}

#[test]
fn a_client_dials_with_tls_and_a_pin() {
    let config = client_config(ID_A, Some(ID_B)).with_fingerprint(PIN.to_string());
    let client: Client = SocketClient::new(config);
    assert!(!client.is_connected());
    assert!(!client.is_authenticated());
    assert_eq!(client.config().device_id, ID_A);
    let plan = client.connect().unwrap();
    assert_eq!(plan.address, "192.168.1.20:7000");
    assert_eq!(plan.timeout_secs, 10);
    let tls = plan.tls.unwrap();
    assert_eq!(tls.domain, "192.168.1.20");
    assert_eq!(tls.fingerprint.as_deref(), Some(PIN));
}

#[test]
fn a_client_dials_without_a_pin_or_without_tls() {
    let client: Client = SocketClient::new(client_config(ID_A, None));
    let tls = client.connect().unwrap().tls.unwrap();
    assert_eq!(tls.domain, "192.168.1.20");
    assert!(tls.fingerprint.is_none());
    let client: Client = SocketClient::new(client_config(ID_A, None).with_tls(false));
    assert!(client.connect().unwrap().tls.is_none());
    let config = SocketClientConfig::new(ID_A.to_string(), "example.org".to_string());
    let client: Client = SocketClient::new(config);
    assert_eq!(client.connect().unwrap().tls.unwrap().domain, "example.org");
    let config = SocketClientConfig::new(ID_A.to_string(), ":80".to_string());
    let client: Client = SocketClient::new(config);
    assert_eq!(client.connect().unwrap().tls.unwrap().domain, "");
}

#[test]
fn a_connected_client_does_not_connect_again() {
    let mut client: Client = SocketClient::new(client_config(ID_A, None));
    assert!(matches!(client.get_connection(), Err(SocketError::NotConnected)));
    client.connected(open_connection());
    assert!(client.is_connected());
    assert!(client.get_connection().is_ok());
    assert!(matches!(client.connect(), Err(SocketError::AlreadyConnected)));
    let connection = client.disconnect().unwrap();
    assert_eq!(connection.id(), "c");
    assert!(!client.is_connected());
    assert!(client.connect().is_ok());
    assert!(client.disconnect().is_none());
    // A connection that is closing does not count.
    client.connected(closed_connection());
    assert!(!client.is_connected());
    assert!(client.connect().is_ok());
}

#[test]
fn a_client_notes_the_loss_of_its_connection() {
    let mut client: Client = SocketClient::new(client_config(ID_A, None));
    assert!(!client.connection_lost());
    client.connected(open_connection());
    assert!(client.connection_lost());
    assert!(!client.is_connected());
    assert!(!client.connection_lost());
    client.connected(open_connection());
    client.disconnect();
    assert!(!client.connection_lost());
}

#[test]
fn heartbeats_go_out_once_authenticated() {
    let mut client: Client = SocketClient::new(client_config(ID_A, None));
    assert!(matches!(client.heartbeat_step(), HeartbeatStep::Stop));
    client.connected(open_connection());
    assert!(matches!(client.heartbeat_step(), HeartbeatStep::Skip));
    client.disconnect();
    client.connected(authenticated_connection());
    assert!(client.is_authenticated());
    assert!(matches!(client.heartbeat_step(), HeartbeatStep::Send(c) if c.id() == "c"));
    client.disconnect();
    assert!(matches!(client.heartbeat_step(), HeartbeatStep::Stop));
}

#[test]
fn the_client_reads_login_answers_itself() {
    assert!(Client::handles_itself(PacketType::AuthLoginResponse));
    assert!(!Client::handles_itself(PacketType::AuthLoginRequest));
    assert!(!Client::handles_itself(PacketType::FileChunk));
}

#[test]
fn login_answers() {
    match parse_auth_response(&[1, 2, 0, b'{', b'}']) {
        AuthReply::Accepted { user_json } => assert_eq!(user_json, "{}"),
        other => panic!("unexpected: {:?}", other),
    }
    match parse_auth_response(&[1]) {
        AuthReply::Accepted { user_json } => assert_eq!(user_json, ""),
        other => panic!("unexpected: {:?}", other),
    }
    match parse_auth_response(&[0, 3, 0, b'b', b'a', b'd']) {
        AuthReply::Rejected { reason } => assert_eq!(reason, "bad"),
        other => panic!("unexpected: {:?}", other),
    }
    match parse_auth_response(&[2, 3, 0, b'b']) {
        AuthReply::Rejected { reason } => assert_eq!(reason, "Unknown error"),
        other => panic!("unexpected: {:?}", other),
    }
    match parse_auth_response(&[]) {
        AuthReply::Rejected { reason } => assert_eq!(reason, "Unknown error"),
        other => panic!("unexpected: {:?}", other),
    }
}

#[test]
fn links_are_named_by_two_uuids() {
    assert_eq!(link_from_ids(Some(1), Some(Some(2))).unwrap(), LinkKey::direct(1, 2));
    assert_eq!(
        parse_error(link_from_ids(None, Some(Some(2))).unwrap_err()),
        "device_id must be a valid UUID"
    );
    assert_eq!(parse_error(link_from_ids(None, None).unwrap_err()), "device_id must be a valid UUID");
    assert_eq!(parse_error(link_from_ids(Some(1), None).unwrap_err()), "target_id is required");
    assert_eq!(
        parse_error(link_from_ids(Some(1), Some(None)).unwrap_err()),
        "target_id must be a valid UUID"
    );
    assert_eq!(resolve_link(&client_config(ID_A, Some(ID_B))).unwrap(), LinkKey::direct(U_A, U_B));
    assert_eq!(
        parse_error(resolve_link(&client_config("x", Some(ID_B))).unwrap_err()),
        "device_id must be a valid UUID"
    );
    assert_eq!(
        parse_error(resolve_link(&client_config(ID_A, None)).unwrap_err()),
        "target_id is required"
    );
    assert_eq!(
        parse_error(resolve_link(&client_config(ID_A, Some("y"))).unwrap_err()),
        "target_id must be a valid UUID"
    );
}

#[test]
fn a_link_has_one_session() {
    let mut manager: SocketClientManager<Client> = SocketClientManager::new();
    let key = PairKey { a: U_A, b: U_B, route: RouteKind::Direct };
    assert!(manager.get_client(&key).is_none());
    match manager.connect_to(&client_config(ID_A, Some(ID_B))).unwrap() {
        ConnectPlan::Dial(k) => assert_eq!(k, key),
        ConnectPlan::Reuse(_) => panic!("nothing to reuse"),
    }
    assert!(manager.register_client(key, connected_client(ID_A, ID_B)).is_none());
    assert!(manager.get_client(&key).is_some());
    // The same link seen from either end is served by the same session.
    assert!(matches!(
        manager.connect_to(&client_config(ID_A, Some(ID_B))).unwrap(),
        ConnectPlan::Reuse(_)
    ));
    assert!(matches!(
        manager.connect_to(&client_config(ID_B, Some(ID_A))).unwrap(),
        ConnectPlan::Reuse(_)
    ));
    // Another link has none.
    let other = "11111111-1111-4111-8111-111111111111";
    assert!(matches!(
        manager.connect_to(&client_config(ID_A, Some(other))).unwrap(),
        ConnectPlan::Dial(_)
    ));
    assert!(matches!(
        manager.connect_to(&client_config("bad", Some(ID_B))),
        Err(SocketError::ParseError(_))
    ));
}

#[test]
fn a_session_that_is_closing_is_dialled_anew() {
    let mut manager: SocketClientManager<Client> = SocketClientManager::new();
    let key = LinkKey::direct(U_A, U_B).pair_key();
    let mut stale: Client = SocketClient::new(client_config(ID_A, Some(ID_B)));
    stale.connected(closed_connection());
    manager.register_client(key, stale);
    match manager.connect_to(&client_config(ID_A, Some(ID_B))).unwrap() {
        ConnectPlan::Dial(k) => assert_eq!(k, key),
        ConnectPlan::Reuse(_) => panic!("a closing session was reused"),
    }
    let previous = manager.register_client(key, connected_client(ID_A, ID_B));
    assert!(previous.is_some());
    assert!(matches!(
        manager.connect_to(&client_config(ID_A, Some(ID_B))).unwrap(),
        ConnectPlan::Reuse(_)
    ));
}

#[test]
fn a_session_that_ends_leaves_the_table() {
    let mut manager: SocketClientManager<Client> = SocketClientManager::new();
    let key = LinkKey::direct(U_A, U_B).pair_key();
    let other = LinkKey::relay(U_A, U_B).pair_key();
    manager.register_client(key, connected_client(ID_A, ID_B));
    manager.register_client(other, connected_client(ID_A, ID_B));
    assert!(manager.disconnect(&key).is_ok());
    assert!(manager.get_client(&key).is_none());
    assert!(manager.get_client(&other).is_some());
    assert!(matches!(manager.disconnect(&key), Err(SocketError::NotConnected)));
    assert!(matches!(
        manager.connect_to(&client_config(ID_A, Some(ID_B))).unwrap(),
        ConnectPlan::Dial(_)
    ));
}

#[test]
fn the_connection_to_the_signalling_server() {
    let mut manager: SocketClientManager<Client> = SocketClientManager::new();
    assert!(!manager.is_connected_to_server());
    assert!(matches!(manager.connect(), ServerConnectPlan::Dial));
    assert!(manager.set_server_client(connected_client(ID_A, ID_B)).is_none());
    assert!(!manager.is_connected_to_server());
    assert!(matches!(manager.connect(), ServerConnectPlan::Authenticate(_)));
    let mut authenticated: Client = SocketClient::new(client_config(ID_A, None));
    authenticated.connected(authenticated_connection());
    assert!(manager.set_server_client(authenticated).is_some());
    assert!(manager.is_connected_to_server());
    assert!(matches!(manager.connect(), ServerConnectPlan::RevokeToken(_)));
    assert!(manager.disconnect_from_server().is_some());
    assert!(manager.disconnect_from_server().is_none());
    assert!(matches!(manager.connect(), ServerConnectPlan::Dial));
    let mut lost: Client = SocketClient::new(client_config(ID_A, None));
    lost.connected(closed_connection());
    manager.set_server_client(lost);
    assert!(matches!(manager.connect(), ServerConnectPlan::Dial));
}

#[test]
fn a_refused_login_is_an_authentication_failure() {
    assert!(SocketClientManager::<Client>::authentication_result(true).is_ok());
    match SocketClientManager::<Client>::authentication_result(false) {
        Err(SocketError::AuthenticationFailed(m)) => assert_eq!(m, "invalid token"),
        other => panic!("unexpected: {:?}", other),
    }
}

#[test]
fn servers_are_kept_while_in_use() {
    let mut manager: SocketServerManager<Server> = SocketServerManager::new();
    assert!(!manager.has_active_server_connection());
    let mut listening: Server = SocketServer::new(PIN.to_string());
    listening.listening(5000);
    let mut serving: Server = SocketServer::new(PIN.to_string());
    serving.connection_established(open_connection());
    let mut winding_down: Server = SocketServer::new(PIN.to_string());
    winding_down.connection_established(closed_connection());
    let idle: Server = SocketServer::new(PIN.to_string());
    assert!(manager.create_server("listening".into(), listening).is_none());
    assert!(manager.create_server("serving".into(), serving).is_none());
    assert!(manager.create_server("winding-down".into(), winding_down).is_none());
    assert!(manager.create_server("idle".into(), idle).is_none());
    assert!(manager.has_active_server_connection());
    let dropped = manager.prune();
    assert_eq!(dropped.len(), 1);
    assert!(!dropped[0].is_running());
    assert!(manager.stop_server("idle").is_none());
    assert!(manager.prune().is_empty());
    let server = manager.stop_server("serving").unwrap();
    assert!(server.has_active_connection());
    assert!(!manager.has_active_server_connection());
    assert!(manager.stop_server("serving").is_none());
    assert!(manager.stop_server("listening").unwrap().is_running());
    assert!(manager.stop_server("winding-down").is_some());
    assert!(manager.prune().is_empty());
}

#[test]
fn a_server_id_names_one_server() {
    let mut manager: SocketServerManager<Server> = SocketServerManager::new();
    let mut first: Server = SocketServer::new(PIN.to_string());
    first.listening(1);
    let mut second: Server = SocketServer::new(PIN.to_string());
    second.listening(2);
    assert!(manager.create_server("s".into(), first).is_none());
    let previous = manager.create_server("s".into(), second).unwrap();
    assert_eq!(previous.port(), 1);
    assert_eq!(manager.stop_server("s").unwrap().port(), 2);
    assert!(manager.stop_server("s").is_none());
}
