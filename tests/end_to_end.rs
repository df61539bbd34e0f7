use futures::{SinkExt, StreamExt};
use tungstenite::Message;
use ws_peer::client::{ClientAction, ClientLoop};
use ws_peer::handshake::build_handshake;
use ws_peer::server::{ServerAction, ServerEvent, ServerLoop};

async fn serve_one(inner: tokio::io::DuplexStream) -> Vec<ServerAction> {
    let mut stream = tokio_tungstenite::accept_async(inner).await.unwrap();
    let mut state = ServerLoop::new();
    let mut actions = Vec::new();
    while !state.finished() {
        let event = match stream.next().await {
            Some(Ok(m)) => ServerEvent::Frame(m),
            Some(Err(e)) => ServerEvent::Failed(e),
            None => ServerEvent::EndOfStream,
        };
        actions.push(state.on_event(event));
    }
    actions
}

#[test]
fn acceptor_sees_frame_then_clean_end() {
    let rt = tokio::runtime::Builder::new_multi_thread().enable_all().build().unwrap();
    rt.block_on(async {
        let (client_end, server_end) = tokio::io::duplex(4096);
        let server = tokio::spawn(serve_one(server_end));

        let req = build_handshake("ws://127.0.0.1:1337/").unwrap().to_http_request().unwrap();
        let (mut ws, response) = tokio_tungstenite::client_async(req, client_end).await.unwrap();
        assert_eq!(response.status(), 101);

        let mut client = ClientLoop::new();
        let payload = client.next_payload();
        assert_eq!(payload, "0");
        let sent = ws.send(Message::Text(payload)).await;
        assert!(matches!(client.on_send_result(sent), ClientAction::Wait(_)));
        ws.close(None).await.unwrap();

        let actions = server.await.unwrap();
        assert!(matches!(&actions[0], ServerAction::Report(Message::Text(t)) if t == "0"));
        assert!(matches!(actions.last(), Some(ServerAction::Closed)));
        assert!(actions.iter().all(|a| !matches!(a, ServerAction::Fail(_))));
    });
}
