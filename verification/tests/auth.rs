use base64::Engine;
use kalshi_core::auth::{message_to_sign, sealed, unescape_newlines, KalshiAuth};
use kalshi_core::error::Error;
use kalshi_core::stream::{handshake_from, handshake_target, AddressParts};
use rsa::pkcs1::EncodeRsaPrivateKey;
use rsa::pkcs8::EncodePrivateKey;
use rsa::signature::Verifier;
use rsa::sha2::Sha256;
use rsa::RsaPrivateKey;

fn fresh_key() -> RsaPrivateKey {
    RsaPrivateKey::new(&mut rand::thread_rng(), 2048).expect("keygen failed")
}

fn decode(signature: &str) -> Vec<u8> {
    base64::engine::general_purpose::STANDARD
        .decode(signature)
        .expect("signature should be valid base64")
}

#[test]
fn test_sign_request_format() {
    let private_key = fresh_key();
    let pem = rsa::pkcs1::EncodeRsaPrivateKey::to_pkcs1_pem(&private_key, rsa::pkcs1::LineEnding::LF)
        .expect("pem encode failed");

    let auth = KalshiAuth::new("test-key-id", pem.as_ref()).expect("auth init failed");

    let (ts, sig) = auth
        .sign_request("GET", "/trade-api/v2/portfolio/balance?foo=bar")
        .expect("signing failed");

    assert!(ts.parse::<i64>().is_ok(), "timestamp should be numeric");

    let decoded = decode(&sig);
    assert!(!decoded.is_empty(), "signature should not be empty");
    assert_eq!(decoded.len(), 256, "RSA-2048 PSS sig should be 256 bytes");
}

#[test]
fn test_sign_strips_query_params() {
    let private_key = fresh_key();
    let pem = rsa::pkcs1::EncodeRsaPrivateKey::to_pkcs1_pem(&private_key, rsa::pkcs1::LineEnding::LF)
        .expect("pem encode failed");

    let auth = KalshiAuth::new("test-key-id", pem.as_ref()).expect("auth init failed");

    let (_, sig1) = auth.sign_request("GET", "/trade-api/v2/portfolio/orders").expect("signing failed");
    let (_, sig2) =
        auth.sign_request("GET", "/trade-api/v2/portfolio/orders?limit=5").expect("signing failed");

    let d1 = decode(&sig1);
    let d2 = decode(&sig2);
    assert_eq!(d1.len(), 256);
    assert_eq!(d2.len(), 256);
}

#[test]
fn signature_covers_time_method_and_path_without_query() {
    let private_key = fresh_key();
    let pem = private_key.to_pkcs8_pem(rsa::pkcs8::LineEnding::LF).expect("pem encode failed");
    let escaped = format!("  {}  ", pem.replace('\n', "\\n"));
    let auth = KalshiAuth::new("key-7", &escaped).expect("a PKCS#8 key with escaped breaks is taken");
    assert_eq!(auth.api_key, "key-7");

    let now_ms = 1_700_000_000_123;
    let (ts, sig) = auth
        .sign_request_at("POST", "/trade-api/v2/portfolio/orders?limit=5", now_ms)
        .expect("signing failed");
    assert_eq!(ts, "1700000000123");

    let verifier = rsa::pss::VerifyingKey::<Sha256>::new(private_key.to_public_key());
    let signature = rsa::pss::Signature::try_from(decode(&sig).as_slice()).expect("a signature");
    let message = "1700000000123POST/trade-api/v2/portfolio/orders";
    assert!(verifier.verify(message.as_bytes(), &signature).is_ok());
    assert!(verifier.verify("1700000000123POST/other".as_bytes(), &signature).is_err());

    let headers = auth.headers("GET", "/trade-api/v2/portfolio/balance").expect("signing failed");
    assert_eq!(headers.key, "key-7");
    assert!(headers.timestamp.parse::<i64>().is_ok());
    assert_eq!(decode(&headers.signature).len(), 256);
    let _ = private_key.to_pkcs1_pem(rsa::pkcs1::LineEnding::LF).expect("pem encode failed");
}

#[test]
fn a_text_without_a_key_is_refused() {
    match KalshiAuth::new("id", "not a key") {
        Err(Error::Auth(m)) => assert!(m.starts_with("Failed to parse RSA private key: ")),
        _ => panic!("a text without a key is refused"),
    }
    match KalshiAuth::from_env(None, Some("x")) {
        Err(Error::Auth(m)) => assert_eq!(m, "KALSHI_API_KEY not set"),
        _ => panic!("the identifier is required"),
    }
    match KalshiAuth::from_env(Some("id"), None) {
        Err(Error::Auth(m)) => assert_eq!(m, "KALSHI_SECRET_KEY not set"),
        _ => panic!("the key is required"),
    }
    match KalshiAuth::from_env(Some("id"), Some("")) {
        Err(Error::Auth(m)) => assert!(m.starts_with("Failed to parse RSA private key: ")),
        _ => panic!("an empty text holds no key"),
    }
}

#[test]
fn requests_are_sealed_with_time_and_base64() {
    match sealed(5, Some(vec![1, 2, 3])) {
        Ok((ts, sig)) => {
            assert_eq!(ts, "5");
            assert_eq!(sig, "AQID");
        }
        Err(_) => panic!("a signature seals the request"),
    }
    match sealed(-12, Some(vec![255])) {
        Ok((ts, sig)) => {
            assert_eq!(ts, "-12");
            assert_eq!(sig, "/w==");
        }
        Err(_) => panic!("a signature seals the request"),
    }
    match sealed(5, None) {
        Err(Error::Auth(m)) => assert_eq!(m, "Failed to sign request"),
        _ => panic!("no signature, no seal"),
    }
}

#[test]
fn signed_message_and_escapes() {
    assert_eq!(message_to_sign(1700, "GET", "/x/y?limit=5&cursor=a"), "1700GET/x/y");
    assert_eq!(message_to_sign(0, "DELETE", "/orders/1"), "0DELETE/orders/1");
    assert_eq!(unescape_newlines("a\\nb\\n"), "a\nb\n");
    assert_eq!(unescape_newlines("a\\\\nb"), "a\\\nb");
    assert_eq!(unescape_newlines("plain\\"), "plain\\");
    assert_eq!(unescape_newlines("\\"), "\\");
    assert_eq!(unescape_newlines(""), "");
}

#[test]
fn handshake_reads_host_port_and_path() {
    let h = handshake_target("wss://api.elections.kalshi.com/trade-api/ws/v2").expect("an address");
    assert_eq!(h.host_header, "api.elections.kalshi.com");
    assert_eq!(h.path, "/trade-api/ws/v2");

    let h = handshake_target("ws://localhost:8080").expect("an address");
    assert_eq!(h.host_header, "localhost:8080");
    assert_eq!(h.path, "/");

    let h = handshake_target("ws://LOCALHOST:9001/feed?x=1").expect("an address");
    assert_eq!(h.host_header, "localhost:9001");
    assert_eq!(h.path, "/feed");

    match handshake_target("not an address") {
        Err(Error::WebSocket(m)) => assert_eq!(m, "relative URL without a base"),
        _ => panic!("a text that is no address is refused"),
    }
    match handshake_target("mailto:someone@example.com") {
        Err(Error::WebSocket(m)) => {
            assert_eq!(m, "WebSocket URL missing host: mailto:someone@example.com")
        }
        _ => panic!("an address without a host is refused"),
    }
}

#[test]
fn handshake_from_parts() {
    let parts = AddressParts { host: Some("h".to_string()), port: Some(65535), path: String::new() };
    let h = handshake_from("ws://h:65535", Ok(parts)).expect("parts with a host");
    assert_eq!(h.host_header, "h:65535");
    assert_eq!(h.path, "/");

    let parts = AddressParts { host: None, port: Some(1), path: "/p".to_string() };
    match handshake_from("x", Ok(parts)) {
        Err(Error::WebSocket(m)) => assert_eq!(m, "WebSocket URL missing host: x"),
        _ => panic!("no host, no handshake"),
    }
    match handshake_from("x", Err("bad".to_string())) {
        Err(Error::WebSocket(m)) => assert_eq!(m, "bad"),
        _ => panic!("a complaint is passed on"),
    }
}
