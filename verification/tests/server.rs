//! End-to-end exercises: the library's handler driven over real async
//! byte streams, one task per connection, with an in-memory resource
//! store, so that delay and concurrency behaviour is observable.

use std::time::{Duration, Instant};
use tinyserve::conn::{initial_phase, step, Action, Event};
use tokio::io::{AsyncBufReadExt, AsyncRead, AsyncReadExt, AsyncWrite, AsyncWriteExt, BufReader};
use tokio::io::DuplexStream;
use tokio::runtime::Runtime;

fn hello_body() -> Vec<u8> {
    b"<html><body>Hello!</body></html>\n".to_vec()
}

fn missing_body() -> Vec<u8> {
    b"<html><body>Oops!</body></html>\n".to_vec()
}

async fn handle<S: AsyncRead + AsyncWrite + Unpin>(stream: S) {
    let mut reader = BufReader::new(stream);
    let mut phase = initial_phase();
    let mut line = String::new();
    let ev = match reader.read_line(&mut line).await {
        Ok(0) => Event::IoFailed,
        Ok(_) if !line.ends_with('\n') => Event::IoFailed,
        Ok(_) => Event::LineRead(line.into_bytes()),
        Err(_) => Event::IoFailed,
    };
    let (p, a) = step(phase, ev);
    phase = p;
    let mut act = a;
    loop {
        match act {
            Action::Delay(ms) => {
                tokio::time::sleep(Duration::from_millis(ms)).await;
                let (p, a) = step(phase, Event::DelayElapsed);
                phase = p;
                act = a;
            }
            Action::LoadFile(name) => {
                let body = if name == b"hello.html".to_vec() {
                    hello_body()
                } else {
                    missing_body()
                };
                let (p, a) = step(phase, Event::FileLoaded(body));
                phase = p;
                act = a;
            }
            Action::WriteResponse(buf) => {
                let ev = match reader.write_all(&buf).await {
                    Ok(()) => match reader.flush().await {
                        Ok(()) => Event::WriteCompleted,
                        Err(_) => Event::IoFailed,
                    },
                    Err(_) => Event::IoFailed,
                };
                let (p, a) = step(phase, ev);
                phase = p;
                act = a;
            }
            Action::Close => break,
        }
    }
}

/// Opens a fresh connection to the server: the peer half is handed to a
/// newly spawned handler task, as the listener loop would do.
async fn connect() -> DuplexStream {
    let (client, server) = tokio::io::duplex(1 << 16);
    tokio::spawn(handle(server));
    client
}

async fn request(req: &[u8]) -> Vec<u8> {
    let mut c = connect().await;
    c.write_all(req).await.unwrap();
    let mut buf = Vec::new();
    c.read_to_end(&mut buf).await.unwrap();
    buf
}

#[test]
fn root_route_end_to_end() {
    let rt = Runtime::new().unwrap();
    rt.block_on(async {
        let resp = request(b"GET / HTTP/1.1\r\n\r\n").await;
        assert!(resp.starts_with(b"HTTP/1.1 200 OK"));
        let expected = [
            b"HTTP/1.1 200 OK\r\nContent-Length: ".as_ref(),
            format!("{}", hello_body().len()).as_bytes(),
            b"\r\n\r\n",
            &hello_body(),
        ]
        .concat();
        assert_eq!(resp, expected);
    });
}

#[test]
fn missing_route_end_to_end() {
    let rt = Runtime::new().unwrap();
    rt.block_on(async {
        let resp = request(b"GET /missing HTTP/1.1\r\n\r\n").await;
        assert!(resp.starts_with(b"HTTP/1.1 404 NOT FOUND"));
        let expected = [
            b"HTTP/1.1 404 NOT FOUND\r\nContent-Length: ".as_ref(),
            format!("{}", missing_body().len()).as_bytes(),
            b"\r\n\r\n",
            &missing_body(),
        ]
        .concat();
        assert_eq!(resp, expected);
    });
}

#[test]
fn slow_route_waits_for_the_delay() {
    let rt = Runtime::new().unwrap();
    rt.block_on(async {
        let start = Instant::now();
        let resp = request(b"GET /sleep HTTP/1.1\r\n\r\n").await;
        assert!(start.elapsed() >= Duration::from_secs(5));
        assert!(resp.starts_with(b"HTTP/1.1 200 OK"));
    });
}

#[test]
fn slow_request_does_not_block_a_root_request() {
    let rt = Runtime::new().unwrap();
    rt.block_on(async {
        let slow = tokio::spawn(async {
            let resp = request(b"GET /sleep HTTP/1.1\r\n\r\n").await;
            (Instant::now(), resp)
        });
        tokio::time::sleep(Duration::from_millis(200)).await;
        let root = tokio::spawn(async {
            let resp = request(b"GET / HTTP/1.1\r\n\r\n").await;
            (Instant::now(), resp)
        });
        let (slow_done, slow_resp) = slow.await.unwrap();
        let (root_done, root_resp) = root.await.unwrap();
        assert!(root_done < slow_done);
        assert!(root_resp.starts_with(b"HTTP/1.1 200 OK"));
        assert!(slow_resp.starts_with(b"HTTP/1.1 200 OK"));
    });
}

#[test]
fn incomplete_line_gets_no_response_and_later_connections_are_served() {
    let rt = Runtime::new().unwrap();
    rt.block_on(async {
        let mut c = connect().await;
        c.write_all(b"GET / HT").await.unwrap();
        c.shutdown().await.unwrap();
        let mut buf = Vec::new();
        c.read_to_end(&mut buf).await.unwrap();
        assert!(buf.is_empty());
        let resp = request(b"GET / HTTP/1.1\r\n\r\n").await;
        assert!(resp.starts_with(b"HTTP/1.1 200 OK"));
    });
}
