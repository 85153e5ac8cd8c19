use std::convert::Infallible;
use std::future::Future;

use deno_http_worker::error::DenoWorkerError;
use deno_http_worker::launch::fresh_socket_path;
use deno_http_worker::options::DenoWorkerOptions;
use deno_http_worker::request::PreparedRequest;
use deno_http_worker::response::decode_json;
use deno_http_worker::worker::DenoHTTPWorker;
use deno_http_worker::worker::Startup;
use deno_http_worker::worker::WorkerState;
use http_body_util::BodyExt;
use http_body_util::Full;
use hyper::body::Bytes;
use hyper::body::Incoming;
use hyper::service::service_fn;
use hyper::Method;
use hyper::Request;
use hyper::Response;
use hyper_util::client::legacy::Client;
use hyper_util::rt::TokioExecutor;
use hyper_util::rt::TokioIo;
use hyperlocal::UnixConnector;
use serde_json::Value;
use tokio::io::AsyncReadExt;
use tokio::io::AsyncWriteExt;
use tokio::net::UnixListener;

fn run<F: Future<Output = ()>>(scenario: F) {
    tokio::runtime::Builder::new_current_thread()
        .enable_all()
        .build()
        .unwrap()
        .block_on(scenario);
}

fn header(name: &str, value: &str) -> (String, String) {
    (name.to_string(), value.to_string())
}

/// Stands for the runtime and its script: answers every request with what it
/// saw of it, as JSON.
async fn echo(request: Request<Incoming>) -> Result<Response<Full<Bytes>>, Infallible> {
    let mut seen = serde_json::Map::new();
    seen.insert("method".to_string(), Value::String(request.method().as_str().to_string()));
    let mut headers = serde_json::Map::new();
    for (name, value) in request.headers() {
        let value = value.to_str().unwrap_or("").to_string();
        headers.insert(name.as_str().to_string(), Value::String(value));
    }
    let url = headers.get("x-deno-worker-url").cloned().unwrap_or(Value::Null);
    seen.insert("url".to_string(), url);
    seen.insert("headers".to_string(), Value::Object(headers));
    seen.insert("target".to_string(), Value::String(request.uri().to_string()));
    let body = request.into_body().collect().await.unwrap().to_bytes();
    seen.insert("body".to_string(), Value::String(String::from_utf8_lossy(&body).to_string()));
    let text = serde_json::to_vec(&Value::Object(seen)).unwrap();
    Ok(Response::new(Full::new(Bytes::from(text))))
}

fn serve(listener: UnixListener) {
    tokio::spawn(async move {
        loop {
            let (stream, _) = listener.accept().await.unwrap();
            tokio::spawn(async move {
                let _ = hyper::server::conn::http1::Builder::new()
                    .serve_connection(TokioIo::new(stream), service_fn(echo))
                    .await;
            });
        }
    });
}

fn client() -> Client<UnixConnector, Full<Bytes>> {
    Client::builder(TokioExecutor::new()).build(UnixConnector)
}

async fn send(
    client: &Client<UnixConnector, Full<Bytes>>,
    request: PreparedRequest,
) -> Result<Response<Incoming>, DenoWorkerError> {
    let mut builder = Request::builder().uri(request.uri);
    if let Some(method) = request.method {
        builder = builder.method(method);
    }
    for (name, value) in request.headers {
        builder = builder.header(name, value);
    }
    let body = Full::new(Bytes::from(request.body.unwrap_or_default()));
    let request = builder.body(body)?;
    Ok(client.request(request).await?)
}

async fn send_for_json(
    client: &Client<UnixConnector, Full<Bytes>>,
    request: PreparedRequest,
) -> Result<Value, DenoWorkerError> {
    let response = send(client, request).await?;
    let body = response.collect().await?.to_bytes();
    decode_json(&body)
}

/// Brings a worker up against a runtime that is played by `echo`.
async fn started_worker(client: &Client<UnixConnector, Full<Bytes>>) -> DenoHTTPWorker {
    let socket_file = fresh_socket_path("/tmp");
    let mut worker = DenoHTTPWorker::with_socket(
        socket_file.clone(),
        "export default {}",
        DenoWorkerOptions::default(),
    );
    worker.process_started();

    let seen = tokio::fs::try_exists(&socket_file).await.unwrap();
    assert!(matches!(worker.socket_polled(seen, 0), Startup::Sleep(20)));
    serve(UnixListener::bind(&socket_file).unwrap());
    let seen = tokio::fs::try_exists(&socket_file).await.unwrap();
    assert!(matches!(worker.socket_polled(seen, 20), Startup::Proceed));

    let warm = send(client, worker.warm_request()).await;
    let warm = match warm {
        Ok(response) => response.collect().await.map(|_| ()).map_err(DenoWorkerError::from),
        Err(error) => Err(error),
    };
    assert!(worker.warmed_up(warm).is_ok());
    assert_eq!(worker.state(), WorkerState::Ready);
    worker
}

async fn stop(mut worker: DenoHTTPWorker) {
    let cleanup = worker.terminate();
    assert!(cleanup.kill_process);
    assert!(cleanup.remove_socket);
    let _ = tokio::fs::remove_file(worker.socket_path()).await;
    assert!(!tokio::fs::try_exists(worker.socket_path()).await.unwrap());
}

#[test]
fn first_request_of_a_ready_worker_comes_back() {
    run(async {
        let client = client();
        let worker = started_worker(&client).await;
        let request = worker.request("https://localhost/first", Method::GET, Vec::new(), None);
        let json = send_for_json(&client, request).await.unwrap();
        assert_eq!(json["url"], "https://localhost/first");
        assert_eq!(json["method"], "GET");
        assert_eq!(json["target"], "/");
        stop(worker).await;
    });
}

#[test]
fn post_with_body_comes_back_whole() {
    run(async {
        let client = client();
        let worker = started_worker(&client).await;
        let request = worker.request(
            "https://example.com/api/test",
            Method::POST,
            vec![header("content-type", "application/json")],
            Some("Hello".to_string()),
        );
        let json = send_for_json(&client, request).await.unwrap();
        assert_eq!(json["url"], "https://example.com/api/test");
        assert_eq!(json["method"], "POST");
        assert_eq!(json["body"], "Hello");
        assert_eq!(json["headers"]["content-type"], "application/json");
        stop(worker).await;
    });
}

#[test]
fn ten_requests_over_one_client_come_back_alike() {
    run(async {
        let client = client();
        let worker = started_worker(&client).await;
        for _ in 0..10 {
            let request = worker.request(
                "https://localhost/hello?isee=you",
                Method::GET,
                vec![header("accept", "application/json")],
                None,
            );
            let json = send_for_json(&client, request).await.unwrap();
            assert_eq!(json["url"], "https://localhost/hello?isee=you");
            assert_eq!(json["headers"]["accept"], "application/json");
        }
        stop(worker).await;
    });
}

#[test]
fn each_request_gets_its_own_answer() {
    run(async {
        let client = client();
        let worker = started_worker(&client).await;
        for n in 0..6 {
            let url = format!("https://localhost/item/{}", n);
            let body = format!("body {}", n);
            let request = worker.request(
                &url,
                Method::PUT,
                vec![header("x-n", &n.to_string())],
                Some(body.clone()),
            );
            let json = send_for_json(&client, request).await.unwrap();
            assert_eq!(json["url"], url.as_str());
            assert_eq!(json["body"], body.as_str());
            assert_eq!(json["headers"]["x-n"], n.to_string().as_str());
        }
        stop(worker).await;
    });
}

#[test]
fn host_and_connection_arrive_under_their_other_names() {
    run(async {
        let client = client();
        let worker = started_worker(&client).await;
        let request = worker.request(
            "https://localhost/",
            Method::GET,
            vec![header("connection", "happy"), header("Host", "fish")],
            None,
        );
        let json = send_for_json(&client, request).await.unwrap();
        assert_eq!(json["headers"]["x-deno-worker-connection"], "happy");
        assert_eq!(json["headers"]["x-deno-worker-host"], "fish");
        assert_ne!(json["headers"]["host"], "fish");
        assert_ne!(json["headers"]["connection"], "happy");
        stop(worker).await;
    });
}

#[test]
fn request_without_a_listener_is_a_client_error() {
    run(async {
        let client = client();
        let socket_file = fresh_socket_path("/tmp");
        let request =
            PreparedRequest::build(&socket_file, "https://a.test/", Method::GET, Vec::new(), None);
        match send(&client, request).await {
            Err(DenoWorkerError::HttpClient(_)) => {}
            other => panic!("another result: {:?}", other.map(|_| ())),
        }
    });
}

#[test]
fn header_that_is_no_header_is_a_request_error() {
    run(async {
        let client = client();
        let socket_file = fresh_socket_path("/tmp");
        let request = PreparedRequest::build(
            &socket_file,
            "https://a.test/",
            Method::GET,
            vec![header("bad name", "v")],
            None,
        );
        match send(&client, request).await {
            Err(DenoWorkerError::HttpRequest(_)) => {}
            other => panic!("another result: {:?}", other.map(|_| ())),
        }
    });
}

#[test]
fn answer_that_breaks_off_is_an_http_error() {
    run(async {
        let client = client();
        let socket_file = fresh_socket_path("/tmp");
        let listener = UnixListener::bind(&socket_file).unwrap();
        tokio::spawn(async move {
            let (mut stream, _) = listener.accept().await.unwrap();
            let mut asked = [0u8; 1024];
            let _ = stream.read(&mut asked).await;
            let _ = stream.write_all(b"HTTP/1.1 200 OK\r\ncontent-length: 10\r\n\r\nabc").await;
            let _ = stream.shutdown().await;
        });
        let request =
            PreparedRequest::build(&socket_file, "https://a.test/", Method::GET, Vec::new(), None);
        match send_for_json(&client, request).await {
            Err(DenoWorkerError::Http(_)) => {}
            other => panic!("another result: {:?}", other),
        }
        let _ = tokio::fs::remove_file(&socket_file).await;
    });
}

#[test]
fn answer_that_is_no_json_is_a_parse_error() {
    run(async {
        let client = client();
        let socket_file = fresh_socket_path("/tmp");
        let listener = UnixListener::bind(&socket_file).unwrap();
        tokio::spawn(async move {
            let (mut stream, _) = listener.accept().await.unwrap();
            let mut asked = [0u8; 1024];
            let _ = stream.read(&mut asked).await;
            let _ = stream.write_all(b"HTTP/1.1 200 OK\r\ncontent-length: 5\r\n\r\nhello").await;
            let _ = stream.shutdown().await;
        });
        let request =
            PreparedRequest::build(&socket_file, "https://a.test/", Method::GET, Vec::new(), None);
        match send_for_json(&client, request).await {
            Err(DenoWorkerError::ParseResponse(_)) => {}
            other => panic!("another result: {:?}", other),
        }
        let _ = tokio::fs::remove_file(&socket_file).await;
    });
}
