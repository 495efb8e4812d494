use base64::Engine as _;
use hmac::{Hmac, Mac};
use sha2::{Digest, Sha256};
use cbc::cipher::{BlockEncryptMut, KeyIvInit};

use larkstack::kit::card::{card, link_button, md_div, message, CardElement};
use larkstack::kit::config::{LarkConfig, ServerConfig, TomlLark};
use larkstack::kit::event::{classify, classify_decrypted, classify_value, decrypt, Callback, Envelope, Opened};
use larkstack::kit::slot::Live;
use larkstack::kit::utils::{verify_hmac_sha256, verify_standard_webhook};
use larkstack::lark::LarkApp;
use larkstack::text::truncate;

const B64: base64::engine::GeneralPurpose = base64::engine::general_purpose::STANDARD;

#[test]
fn truncate_appends_ellipsis_only_when_needed() {
    assert_eq!(truncate("hello", 10), "hello");
    assert_eq!(truncate("hello", 3), "hel…");
    // Counts characters, not bytes.
    assert_eq!(truncate("héllo", 4), "héll…");
}

/// Signs like a Standard Webhooks sender: `whsec_<b64key>` secret, signature
/// = base64(HMAC-SHA256(key, "{id}.{ts}.{body}")), header `v1,<sig>`.
fn sign(secret: &str, id: &str, ts: &str, body: &[u8]) -> String {
    let raw = secret.strip_prefix("whsec_").unwrap_or(secret);
    let key = B64.decode(raw).unwrap();
    let mut mac = Hmac::<Sha256>::new_from_slice(&key).unwrap();
    mac.update(format!("{id}.{ts}.").as_bytes());
    mac.update(body);
    format!("v1,{}", B64.encode(mac.finalize().into_bytes()))
}

#[test]
fn accepts_valid_signature_within_window() {
    let secret = format!("whsec_{}", B64.encode(b"super-secret-key"));
    let (id, ts, body) = ("msg_1", "1000", br#"{"object_kind":"push"}"#.as_slice());
    let header = sign(&secret, id, ts, body);
    // Pick any later entry too — accept if any matches.
    let multi = format!("v1,bogus {header}");
    assert!(verify_standard_webhook(&secret, id, ts, body, &multi, 1100, 300));
}

#[test]
fn rejects_wrong_secret_tampered_body_and_stale_timestamp() {
    let secret = format!("whsec_{}", B64.encode(b"super-secret-key"));
    let (id, ts, body) = ("msg_1", "1000", br#"{"object_kind":"push"}"#.as_slice());
    let header = sign(&secret, id, ts, body);

    // Wrong secret.
    let other = format!("whsec_{}", B64.encode(b"different-key"));
    assert!(!verify_standard_webhook(&other, id, ts, body, &header, 1100, 300));
    // Tampered body.
    assert!(!verify_standard_webhook(&secret, id, ts, b"tampered", &header, 1100, 300));
    // Stale timestamp (outside tolerance).
    assert!(!verify_standard_webhook(&secret, id, ts, body, &header, 9999, 300));
    // Non-numeric timestamp.
    assert!(!verify_standard_webhook(&secret, id, "nope", body, &header, 1100, 300));
}

#[test]
fn standard_webhook_accepts_unprefixed_secret_and_edge_of_window() {
    let secret = B64.encode(b"k2");
    let header = sign(&secret, "id", "500", b"x");
    assert!(verify_standard_webhook(&secret, "id", "500", b"x", &header, 800, 300));
    assert!(!verify_standard_webhook(&secret, "id", "500", b"x", &header, 801, 300));
    assert!(verify_standard_webhook(&secret, "id", "500", b"x", &header, 200, 300));
    // An entry without the `v1,` prefix does not count.
    let bare = header.trim_start_matches("v1,").to_string();
    assert!(!verify_standard_webhook(&secret, "id", "500", b"x", &bare, 500, 300));
}

#[test]
fn hmac_hex_signature_checks_body_and_secret() {
    let mut mac = Hmac::<Sha256>::new_from_slice(b"s3cret").unwrap();
    mac.update(b"payload");
    let sig = hex::encode(mac.finalize().into_bytes());
    assert!(verify_hmac_sha256("s3cret", b"payload", &sig));
    assert!(!verify_hmac_sha256("other", b"payload", &sig));
    assert!(!verify_hmac_sha256("s3cret", b"payload!", &sig));
    assert!(!verify_hmac_sha256("s3cret", b"payload", &sig.to_uppercase()));
}

fn encrypt(encrypt_key: &str, plaintext: &[u8]) -> String {
    let key = Sha256::digest(encrypt_key.as_bytes());
    let iv = [7u8; 16];
    let mut buf = vec![0u8; plaintext.len() + 16];
    let ct = cbc::Encryptor::<aes::Aes256>::new_from_slices(&key, &iv)
        .unwrap()
        .encrypt_padded_b2b_mut::<cbc::cipher::block_padding::Pkcs7>(plaintext, &mut buf)
        .unwrap();
    let mut out = iv.to_vec();
    out.extend_from_slice(ct);
    B64.encode(out)
}

fn parse(bytes: &[u8]) -> Option<serde_json::Value> {
    serde_json::from_slice(bytes).ok()
}

fn text_at(v: &serde_json::Value, path: &str) -> Option<String> {
    v.pointer(path).and_then(|x| x.as_str()).map(|s| s.to_string())
}

/// Reads the fields classification looks at, as the HTTP edge does.
fn envelope(v: &serde_json::Value) -> Envelope {
    Envelope {
        encrypt: text_at(v, "/encrypt"),
        kind: text_at(v, "/type"),
        challenge: text_at(v, "/challenge"),
        token: text_at(v, "/header/token"),
        event_type: text_at(v, "/header/event_type"),
        context_url: text_at(v, "/event/context/url"),
        event_url: text_at(v, "/event/url"),
        body_url: text_at(v, "/event/body/url"),
    }
}

fn classify_body(body: &[u8], token: Option<&str>, key: Option<&str>) -> Callback {
    let raw = parse(body).map(|v| envelope(&v));
    match classify(raw, token, key) {
        Opened::Done(c) => c,
        Opened::Decrypted(plain) => classify_decrypted(parse(&plain).map(|v| envelope(&v)), token),
    }
}

#[test]
fn decrypt_round_trips() {
    let enc = encrypt("k", br#"{"hello":"world"}"#);
    let plain = decrypt("k", &enc).expect("decrypts");
    let v = parse(&plain).expect("json");
    assert_eq!(v["hello"], "world");
}

#[test]
fn decrypt_rejects_wrong_key_and_garbage() {
    let enc = encrypt("right", br#"{"a":1}"#);
    assert!(decrypt("wrong", &enc).map(|p| parse(&p)).flatten().is_none());
    assert!(decrypt("k", "not-base64-!!").is_none());
    assert!(decrypt("k", "c2hvcnQ=").is_none()); // < 16 bytes
}

#[test]
fn classify_handles_challenge_and_token() {
    let challenge = br#"{"type":"url_verification","challenge":"xyz"}"#;
    assert!(matches!(
        classify_body(challenge, Some("tok"), None),
        Callback::Challenge(c) if c == "xyz"
    ));

    let event = br#"{"header":{"token":"tok","event_type":"url.preview.get"},"event":{"context":{"url":"https://x.com/a/status/1"}}}"#;
    assert!(matches!(
        classify_body(event, Some("tok"), None),
        Callback::Preview { url } if url == "https://x.com/a/status/1"
    ));
    assert!(matches!(classify_body(event, Some("nope"), None), Callback::Unauthorized));
}

#[test]
fn classify_decrypts_then_classifies() {
    let plain = br#"{"header":{"event_type":"url.preview.get"},"event":{"url":"https://linear.app/x/issue/AB-1/y"}}"#;
    let enc = encrypt("ek", plain);
    let body = format!(r#"{{"encrypt":"{enc}"}}"#);
    assert!(matches!(
        classify_body(body.as_bytes(), None, Some("ek")),
        Callback::Preview { url } if url.contains("AB-1")
    ));
    // Encrypted body but no key configured → unauthorized.
    assert!(matches!(classify_body(body.as_bytes(), None, None), Callback::Unauthorized));
}

#[test]
fn classify_rejects_bad_json_and_ignores_other_events() {
    assert!(matches!(classify_body(b"not json", None, None), Callback::BadRequest));
    let other = br#"{"header":{"event_type":"im.message.receive_v1"}}"#;
    assert!(matches!(classify_body(other, None, None), Callback::Ignored));
    // A wrong key decrypts to garbage (or fails): unauthorized either way.
    let enc = encrypt("ek", br#"{"type":"url_verification","challenge":"c"}"#);
    let body = format!(r#"{{"encrypt":"{enc}"}}"#);
    assert!(matches!(classify_body(body.as_bytes(), None, Some("other")), Callback::Unauthorized));
    // Challenge without a challenge string echoes "".
    let v = Envelope { kind: Some("url_verification".into()), ..Envelope::default() };
    assert!(matches!(classify_value(&v, Some("t")), Callback::Challenge(c) if c.is_empty()));
}

#[test]
fn preview_url_falls_back_through_shapes() {
    let mk = |ctx: Option<&str>, ev: Option<&str>, body: Option<&str>| Envelope {
        event_type: Some("url.preview.get".into()),
        context_url: ctx.map(String::from),
        event_url: ev.map(String::from),
        body_url: body.map(String::from),
        ..Envelope::default()
    };
    let url = |e: Envelope| match classify_value(&e, None) {
        Callback::Preview { url } => url,
        _ => panic!("not a preview"),
    };
    assert_eq!(url(mk(Some("a"), Some("b"), Some("c"))), "a");
    assert_eq!(url(mk(None, Some("b"), Some("c"))), "b");
    assert_eq!(url(mk(None, None, Some("c"))), "c");
    assert_eq!(url(mk(None, None, None)), "");
}

#[test]
fn lark_config_overlay_and_app_binding() {
    let mut c = LarkConfig::default();
    assert_eq!(c.base_url, "https://open.larksuite.com");
    c.overlay(TomlLark { webhook_url: Some("https://hook".into()), app_id: Some("id".into()), ..TomlLark::default() });
    assert_eq!(c.webhook_url, "https://hook");
    assert_eq!(c.app_id.as_deref(), Some("id"));
    assert!(c.bot_credentials().is_none());
    let app = LarkApp { app_id: "cli".into(), app_secret: "sec".into(), base_url: "https://open.feishu.cn".into() };
    c.apply_lark_app(&app);
    let creds = c.bot_credentials().expect("both set");
    assert_eq!(creds.app_id, "cli");
    assert_eq!(creds.app_secret, "sec");
    assert_eq!(creds.base_url, "https://open.feishu.cn");
    assert_eq!(c.webhook_url, "https://hook");
    assert_eq!(ServerConfig::default().port, 3000);
}

#[test]
fn cards_are_built_from_elements() {
    let c = card("blue", "Title".to_string(), vec![md_div("**x**".to_string()), link_button("https://u".to_string(), "Open".to_string())]);
    assert_eq!(c.header.template, "blue");
    assert_eq!(c.header.title.content, "Title");
    assert_eq!(c.header.title.tag, "plain_text");
    assert!(matches!(&c.elements[1], CardElement::Button { label, url } if label == "Open" && url == "https://u"));
    let m = message(c);
    assert_eq!(m.msg_type, "interactive");
}

#[test]
fn live_hands_out_the_published_state() {
    let live = Live(std::sync::Arc::new(41u32));
    assert_eq!(*live.get(), 41);
}

#[test]
fn standard_webhook_timestamps_parse_as_i64() {
    let secret = B64.encode(b"k3");
    let body = b"x";
    for ts in ["+500", "-5", "-9223372036854775808", "9223372036854775807"] {
        let header = sign(&secret, "id", ts, body);
        let now: i64 = ts.parse().unwrap();
        assert!(verify_standard_webhook(&secret, "id", ts, body, &header, now, 0), "{ts}");
    }
    for ts in ["", "+", "-", " 500", "500 ", "9223372036854775808", "5_0"] {
        let header = sign(&secret, "id", ts, body);
        assert!(!verify_standard_webhook(&secret, "id", ts, body, &header, 500, i64::MAX), "{ts}");
    }
}
