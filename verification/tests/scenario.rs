use std::sync::mpsc;
use std::time::Duration;

use spacewire::proto::Packet;
use spacewire::relay::{Connection, HandshakeState};
use spacewire::{Error, Identity, Link};
use tokio::io::{AsyncRead, AsyncReadExt, AsyncWriteExt};

/// The read loop around the verified buffer logic: try to parse, read more
/// when the decoder wants more data, and judge a closed stream.
async fn read_packet<S: AsyncRead + Unpin>(
    conn: &mut Connection,
    stream: &mut S,
) -> Result<Option<Packet>, Error> {
    loop {
        match conn.parse_packet() {
            Ok(Some(packet)) => return Ok(Some(packet)),
            Ok(None) => {}
            Err(e) => return Err(e),
        }
        let mut chunk = vec![0u8; 4096];
        let n = stream.read(&mut chunk).await.map_err(Error::IoError)?;
        if n == 0 {
            return conn.on_stream_closed();
        }
        chunk.truncate(n);
        conn.feed(&chunk);
    }
}

#[test]
fn relay_handshake_scenario() {
    let rt = tokio::runtime::Runtime::new().unwrap();
    rt.block_on(async {
        let (mut client_side, mut relay_side) = tokio::io::duplex(1024);

        let client = tokio::spawn(async move {
            let identity = Identity::new().unwrap();
            let key = *identity.public_key();
            let link =
                Link::new_with_identity(String::from("localhost:6200"), identity).unwrap();
            let bytes = link.introduction().encode();
            client_side.write_all(&bytes).await.unwrap();
            client_side.flush().await.unwrap();
            key
        });

        let mut conn = Connection::new();
        let packet = read_packet(&mut conn, &mut relay_side).await.unwrap();
        let mut state = HandshakeState::new();
        state.on_packet(packet).unwrap();
        assert!(!state.must_close());

        let key = client.await.unwrap();
        match state {
            HandshakeState::Done { proto_ver, public_key } => {
                assert_eq!(proto_ver, 0);
                assert_eq!(public_key, key);
            }
            _ => panic!("expected the handshake to be done"),
        }
    });
}

#[test]
fn sub_header_fragment_then_close() {
    let rt = tokio::runtime::Runtime::new().unwrap();
    rt.block_on(async {
        let (mut client_side, mut relay_side) = tokio::io::duplex(1024);

        let client = tokio::spawn(async move {
            // Nine bytes: one short of the minimum header, then close.
            client_side.write_all(&[0u8; 9]).await.unwrap();
            client_side.flush().await.unwrap();
            drop(client_side);
        });

        let mut conn = Connection::new();
        // Policy: bytes were left buffered when the peer closed, so this is
        // a reset, not a clean end of stream.
        let result = read_packet(&mut conn, &mut relay_side).await;
        assert!(matches!(result, Err(Error::ConnectionReset)));
        client.await.unwrap();
    });
}

#[test]
fn clean_close_without_any_bytes() {
    let rt = tokio::runtime::Runtime::new().unwrap();
    rt.block_on(async {
        let (client_side, mut relay_side) = tokio::io::duplex(1024);
        drop(client_side);

        let mut conn = Connection::new();
        let result = read_packet(&mut conn, &mut relay_side).await;
        assert!(matches!(result, Ok(None)));
    });
}

#[test]
fn fast_client_not_blocked_by_slow_client() {
    let rt = tokio::runtime::Runtime::new().unwrap();
    rt.block_on(async {
        let (tx, rx) = mpsc::channel();

        let (mut slow_writer, slow_stream) = tokio::io::duplex(1024);
        let (mut fast_writer, fast_stream) = tokio::io::duplex(1024);

        // The relay side: each connection's handshake runs as its own task,
        // as the accept loop only hands streams off and never does stream
        // I/O itself.
        for mut stream in [slow_stream, fast_stream] {
            let tx = tx.clone();
            tokio::spawn(async move {
                let mut conn = Connection::new();
                let packet = read_packet(&mut conn, &mut stream).await.unwrap();
                let mut state = HandshakeState::new();
                state.on_packet(packet).unwrap();
                if let HandshakeState::Done { public_key, .. } = state {
                    tx.send(public_key).unwrap();
                }
            });
        }
        drop(tx);

        let slow_bytes =
            Packet::ClientIntroduction { proto_ver: 0, pub_key: [1u8; 32] }.encode();
        let slow = tokio::spawn(async move {
            for b in slow_bytes {
                slow_writer.write_all(&[b]).await.unwrap();
                slow_writer.flush().await.unwrap();
                tokio::time::sleep(Duration::from_millis(25)).await;
            }
        });

        // Let the slow client get mid-packet before the fast one starts.
        tokio::time::sleep(Duration::from_millis(200)).await;

        let fast_bytes =
            Packet::ClientIntroduction { proto_ver: 0, pub_key: [2u8; 32] }.encode();
        let fast = tokio::spawn(async move {
            fast_writer.write_all(&fast_bytes).await.unwrap();
            fast_writer.flush().await.unwrap();
        });

        let mut results: Vec<[u8; 32]> = Vec::new();
        while results.len() < 2 {
            match rx.try_recv() {
                Ok(key) => results.push(key),
                Err(_) => tokio::time::sleep(Duration::from_millis(5)).await,
            }
        }

        // The fast client's handshake completed first, while the slow
        // client was still trickling its bytes.
        assert_eq!(results[0], [2u8; 32]);
        assert_eq!(results[1], [1u8; 32]);

        fast.await.unwrap();
        slow.await.unwrap();
    });
}
