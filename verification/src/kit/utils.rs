//! Webhook signature verification (HMAC-SHA256, hex or Standard Webhooks).

use vstd::prelude::*;
use vstd::utf8::encode_utf8;
use vstd::string::StringSliceAdditionalSpecFns;
use crate::text::{chars_of, digit_run_value, signed_decimal_value};
use base64::Engine;
use hmac::Mac;

verus! {

/// The HMAC-SHA256 tag of `msg` under `key` (RFC 2104 over SHA-256).
pub uninterp spec fn hmac_sha256(key: Seq<u8>, msg: Seq<u8>) -> Seq<u8>;

/// The padded standard-alphabet base64 text of `data`.
pub uninterp spec fn base64_encode(data: Seq<u8>) -> Seq<char>;

/// The bytes the padded standard-alphabet base64 text `text` decodes to, or
/// `None` when it is not valid base64.
pub uninterp spec fn base64_decode(text: Seq<char>) -> Option<Seq<u8>>;

/// The value `str::parse::<i64>` gives `text`: an optional sign and ASCII
/// digits whose value fits `i64`, else `None`.
pub open spec fn parse_i64(text: Seq<char>) -> Option<i64> {
    match signed_decimal_value(text) {
        Some(v) => if i64::MIN <= v <= i64::MAX { Some(v as i64) } else { None },
        None => None,
    }
}

/// The lowercase hex digit for `n < 16`.
pub open spec fn hex_digit(n: int) -> char {
    if n < 10 {
        ((n + 48) as u8) as char
    } else {
        ((n + 87) as u8) as char
    }
}

/// Lowercase hex: two digits per byte, high nibble first.
pub open spec fn hex_lower(data: Seq<u8>) -> Seq<char>
    decreases data.len(),
{
    if data.len() == 0 {
        Seq::empty()
    } else {
        hex_lower(data.drop_last()) + seq![hex_digit((data.last() / 16) as int), hex_digit((data.last() % 16) as int)]
    }
}

/// Computes HMAC-SHA256 with `hmac::Hmac<sha2::Sha256>`: keying with
/// `new_from_slice`, then `update(msg)` and `finalize`. `new_from_slice`
/// accepts keys of every length (it hashes long keys and pads short ones), so
/// the result is always `Some`; the tag is named [`hmac_sha256`] of the key and
/// message bytes.
#[verifier::external_body]
fn hmac_sha256_tag(key: &[u8], msg: &[u8]) -> (tag: Option<Vec<u8>>)
    ensures
        tag is Some,
        tag is Some ==> tag->0@ == hmac_sha256(key@, msg@),
        tag is Some ==> tag->0@.len() == 32,
{
    let Ok(mut mac) = hmac::Hmac::<sha2::Sha256>::new_from_slice(key) else {
        return None;
    };
    mac.update(msg);
    Some(mac.finalize().into_bytes().to_vec())
}

/// Hex text has two digits per byte.
pub proof fn lemma_hex_lower_len(data: Seq<u8>)
    ensures
        hex_lower(data).len() == 2 * data.len(),
    decreases data.len(),
{
    if data.len() > 0 {
        lemma_hex_lower_len(data.drop_last());
    }
}

/// The one-character string of lowercase hex digit `n`.
fn hex_digit_str(n: u8) -> (out: &'static str)
    requires
        n < 16,
    ensures
        out@ == seq![hex_digit(n as int)],
{
    proof {
        reveal_strlit("0"); reveal_strlit("1"); reveal_strlit("2"); reveal_strlit("3");
        reveal_strlit("4"); reveal_strlit("5"); reveal_strlit("6"); reveal_strlit("7");
        reveal_strlit("8"); reveal_strlit("9"); reveal_strlit("a"); reveal_strlit("b");
        reveal_strlit("c"); reveal_strlit("d"); reveal_strlit("e"); reveal_strlit("f");
    }
    if n == 0 { "0" }
    else if n == 1 { "1" }
    else if n == 2 { "2" }
    else if n == 3 { "3" }
    else if n == 4 { "4" }
    else if n == 5 { "5" }
    else if n == 6 { "6" }
    else if n == 7 { "7" }
    else if n == 8 { "8" }
    else if n == 9 { "9" }
    else if n == 10 { "a" }
    else if n == 11 { "b" }
    else if n == 12 { "c" }
    else if n == 13 { "d" }
    else if n == 14 { "e" }
    else { "f" }
}

/// `hex::encode`: lowercase hex, two digits per byte.
fn hex_encode(data: &[u8]) -> (text: String)
    ensures
        text@ == hex_lower(data@),
{
    let mut out = String::new();
    let mut i: usize = 0;
    while i < data.len()
        invariant
            i <= data@.len(),
            out@ == hex_lower(data@.take(i as int)),
        decreases data@.len() - i,
    {
        let b = data[i];
        assert(data@.take(i as int + 1).drop_last() =~= data@.take(i as int));
        out.append(hex_digit_str(b / 16));
        out.append(hex_digit_str(b % 16));
        i = i + 1;
    }
    assert(data@.take(data@.len() as int) =~= data@);
    out
}

/// `base64::engine::general_purpose::STANDARD.encode`. The result is named
/// [`base64_encode`] of the input bytes. The crate panics when the padded
/// output length `4 * ceil(len / 3)` overflows `usize`, and when a buffer of
/// that length exceeds `isize::MAX` bytes; the bound leaves out both.
#[verifier::external_body]
fn base64_encode_bytes(data: &[u8]) -> (text: String)
    requires
        4 * ((data@.len() + 2) / 3) <= isize::MAX,
    ensures
        text@ == base64_encode(data@),
{
    base64::engine::general_purpose::STANDARD.encode(data)
}

/// `base64::engine::general_purpose::STANDARD.decode` of `text`'s bytes; the
/// outcome is named [`base64_decode`] of `text`, the error mapped to `None`.
#[verifier::external_body]
pub(crate) fn base64_decode_str(text: &str) -> (data: Option<Vec<u8>>)
    ensures
        match data {
            Some(d) => base64_decode(text@) == Some(d@),
            None => base64_decode(text@) is None,
        },
{
    base64::engine::general_purpose::STANDARD.decode(text).ok()
}

/// `text.parse::<i64>().ok()`: an optional sign, then decimal digits whose
/// value fits `i64`.
fn parse_i64_str(text: &str) -> (v: Option<i64>)
    ensures
        v == parse_i64(text@),
{
    let cs = chars_of(text);
    let signed = cs.len() > 0 && (cs[0] == '+' || cs[0] == '-');
    let negative = cs.len() > 0 && cs[0] == '-';
    let start: usize = if signed { 1 } else { 0 };
    let cap: u64 = if negative { 0x8000_0000_0000_0000 } else { 0x7fff_ffff_ffff_ffff };
    match digit_run_value(&cs, start, cap) {
        None => {
            proof {
                if signed {
                    assert(cs@.skip(1) =~= text@.skip(1));
                } else {
                    assert(cs@.skip(0) =~= text@);
                }
            }
            None
        },
        Some(m) => {
            proof {
                if signed {
                    assert(cs@.skip(1) =~= text@.skip(1));
                } else {
                    assert(cs@.skip(0) =~= text@);
                }
            }
            if negative {
                if m == 0x8000_0000_0000_0000 {
                    Some(i64::MIN)
                } else {
                    Some(0 - (m as i64))
                }
            } else {
                Some(m as i64)
            }
        },
    }
}

/// Whether HMAC-SHA256 of `body` under `secret`, in lowercase hex, is `hex_sig`.
pub open spec fn hmac_hex_matches(secret: Seq<char>, body: Seq<u8>, hex_sig: Seq<char>) -> bool {
    hex_lower(hmac_sha256(encode_utf8(secret), body)) == hex_sig
}

/// Verifies an HMAC-SHA256 hex signature over `body` keyed by `secret`, as
/// Linear (`linear-signature`) and GitHub (`X-Hub-Signature-256`) send it.
pub fn verify_hmac_sha256(secret: &str, body: &[u8], hex_sig: &str) -> (ok: bool)
    ensures
        ok == hmac_hex_matches(secret@, body@, hex_sig@),
        ok ==> hex_sig@.len() == 64,
{
    let tag = match hmac_sha256_tag(secret.as_bytes(), body) {
        Some(t) => t,
        None => return false,
    };
    let expected = hex_encode(tag.as_slice());
    proof {
        lemma_hex_lower_len(tag@);
    }
    crate::text::str_eq(expected.as_str(), hex_sig)
}

/// Whether `header[a..b]` is one of the entries `header.split(' ')` yields.
pub open spec fn is_entry(header: Seq<char>, a: int, b: int) -> bool {
    &&& 0 <= a <= b <= header.len()
    &&& (a == 0 || header[a - 1] == ' ')
    &&& (b == header.len() || header[b] == ' ')
    &&& forall|k: int| a <= k < b ==> header[k] != ' '
}

/// Whether some space-separated entry of `header` is `v1,` followed by `sig`.
pub open spec fn lists_v1_signature(header: Seq<char>, sig: Seq<char>) -> bool {
    exists|a: int, b: int| is_entry(header, a, b) && header.subrange(a, b) == seq!['v', '1', ','] + sig
}

/// The message Standard Webhooks signs: `"{id}.{timestamp}.{body}"`.
pub open spec fn signed_content(id: Seq<char>, timestamp: Seq<char>, body: Seq<u8>) -> Seq<u8> {
    encode_utf8(id) + seq![46u8] + encode_utf8(timestamp) + seq![46u8] + body
}

/// The secret with a leading `whsec_` removed.
pub open spec fn strip_whsec(secret: Seq<char>) -> Seq<char> {
    let p = seq!['w', 'h', 's', 'e', 'c', '_'];
    if p.len() <= secret.len() && secret.take(6) == p {
        secret.skip(6)
    } else {
        secret
    }
}

/// When a Standard Webhooks delivery is accepted: the timestamp parses and
/// lies within `tolerance_secs` of `now_unix`, the secret (minus `whsec_`)
/// base64-decodes to the key, and some `v1,` entry of the header carries the
/// base64 HMAC-SHA256 of `"{id}.{timestamp}.{body}"` under that key.
pub open spec fn standard_webhook_ok(
    secret: Seq<char>,
    id: Seq<char>,
    timestamp: Seq<char>,
    body: Seq<u8>,
    sig_header: Seq<char>,
    now_unix: i64,
    tolerance_secs: i64,
) -> bool {
    &&& parse_i64(timestamp) is Some
    &&& abs_diff(now_unix as int, parse_i64(timestamp)->0 as int) <= tolerance_secs
    &&& base64_decode(strip_whsec(secret)) is Some
    &&& lists_v1_signature(
        sig_header,
        base64_encode(hmac_sha256(base64_decode(strip_whsec(secret))->0, signed_content(id, timestamp, body))),
    )
}

/// `|a - b|`.
pub open spec fn abs_diff(a: int, b: int) -> int {
    if a >= b { a - b } else { b - a }
}

/// Whether `v[start..end]` equals `target`.
fn range_eq(v: &Vec<char>, start: usize, end: usize, target: &Vec<char>) -> (r: bool)
    requires
        start <= end <= v@.len(),
    ensures
        r == (v@.subrange(start as int, end as int) == target@),
{
    if end - start != target.len() {
        return false;
    }
    let mut k: usize = 0;
    while k < target.len()
        invariant
            start <= end <= v@.len(),
            end - start == target@.len(),
            k <= target@.len(),
            forall|j: int| 0 <= j < k ==> v@[start + j] == target@[j],
        decreases target@.len() - k,
    {
        if v[start + k] != target[k] {
            assert(v@.subrange(start as int, end as int)[k as int] != target@[k as int]);
            return false;
        }
        k = k + 1;
    }
    assert(v@.subrange(start as int, end as int) =~= target@);
    true
}

/// Whether some space-separated entry of `header` is `v1,` + `sig`.
fn header_lists(header: &str, sig: &str) -> (r: bool)
    ensures
        r == lists_v1_signature(header@, sig@),
{
    let v = chars_of(header);
    let mut target: Vec<char> = Vec::new();
    target.push('v');
    target.push('1');
    target.push(',');
    let s = chars_of(sig);
    let mut t: usize = 0;
    while t < s.len()
        invariant
            t <= s@.len(),
            target@ == seq!['v', '1', ','] + s@.take(t as int),
        decreases s@.len() - t,
    {
        target.push(s[t]);
        t = t + 1;
        assert(target@ =~= seq!['v', '1', ','] + s@.take(t as int));
    }
    assert(s@.take(t as int) =~= s@);
    let n = v.len();
    let mut found = false;
    let mut start: usize = 0;
    let mut i: usize = 0;
    while i < n
        invariant
            v@ == header@,
            n == v@.len(),
            target@ == seq!['v', '1', ','] + sig@,
            start <= i <= n,
            start == 0 || v@[start - 1] == ' ',
            forall|k: int| start <= k < i ==> v@[k] != ' ',
            found ==> lists_v1_signature(header@, sig@),
            forall|a: int, b: int|
                #![trigger is_entry(header@, a, b)]
                is_entry(header@, a, b) && b < i && header@.subrange(a, b) == target@ ==> found,
        decreases n - i,
    {
        if v[i] == ' ' {
            let hit = range_eq(&v, start, i, &target);
            proof {
                assert(is_entry(header@, start as int, i as int));
                assert forall|a: int, b: int|
                    #![trigger is_entry(header@, a, b)]
                    is_entry(header@, a, b) && b < i + 1 && header@.subrange(a, b) == target@ implies found || hit by {
                    if b == i {
                        if a < start {
                            assert(v@[start - 1] == ' ');
                        } else if a > start {
                            assert(v@[a - 1] == ' ');
                        }
                    }
                }
            }
            if hit {
                found = true;
            }
            start = i + 1;
        }
        i = i + 1;
    }
    let hit = range_eq(&v, start, n, &target);
    proof {
        assert(is_entry(header@, start as int, n as int));
        assert forall|a: int, b: int|
            #![trigger is_entry(header@, a, b)]
            is_entry(header@, a, b) && header@.subrange(a, b) == target@ implies found || hit by {
            if b == n {
                if a < start {
                    assert(v@[start - 1] == ' ');
                } else if a > start {
                    assert(v@[a - 1] == ' ');
                }
            }
        }
    }
    found || hit
}

/// Verifies a Standard Webhooks signature, the scheme GitLab 19.1+ uses for
/// its webhook signing token.
///
/// `secret` is the configured signing token (`whsec_<base64>`, prefix
/// optional); `id` / `timestamp` are the `webhook-id` / `webhook-timestamp`
/// header values; `sig_header` is the raw `webhook-signature` value, a
/// space-separated list of `v1,<base64>` entries. The timestamp must also lie
/// within `tolerance_secs` of `now_unix` (replay defense).
pub fn verify_standard_webhook(
    secret: &str,
    id: &str,
    timestamp: &str,
    body: &[u8],
    sig_header: &str,
    now_unix: i64,
    tolerance_secs: i64,
) -> (ok: bool)
    ensures
        ok == standard_webhook_ok(secret@, id@, timestamp@, body@, sig_header@, now_unix, tolerance_secs),
{
    let ts = match parse_i64_str(timestamp) {
        Some(t) => t,
        None => return false,
    };
    let diff: i128 = (now_unix as i128) - (ts as i128);
    let dist: i128 = if diff >= 0 { diff } else { -diff };
    if dist > tolerance_secs as i128 {
        return false;
    }
    proof {
        reveal_strlit("whsec_");
        assert("whsec_"@ =~= seq!['w', 'h', 's', 'e', 'c', '_']);
    }
    let raw_string = if crate::text::starts_with(secret, "whsec_") {
        let n = secret.unicode_len();
        let r = String::from_str(vstd::string::StrSliceExecFns::substring_char(secret, 6, n));
        assert(r@ =~= secret@.skip(6));
        r
    } else {
        String::from_str(secret)
    };
    assert(raw_string@ == strip_whsec(secret@));
    let key = match base64_decode_str(raw_string.as_str()) {
        Some(k) => k,
        None => return false,
    };
    let mut content: Vec<u8> = Vec::new();
    content.extend_from_slice(id.as_bytes());
    content.push(46u8);
    content.extend_from_slice(timestamp.as_bytes());
    content.push(46u8);
    content.extend_from_slice(body);
    assert(content@ =~= signed_content(id@, timestamp@, body@));
    let tag = match hmac_sha256_tag(key.as_slice(), content.as_slice()) {
        Some(t) => t,
        None => return false,
    };
    let expected = base64_encode_bytes(tag.as_slice());
    header_lists(sig_header, expected.as_str())
}

/// A body signed with the secret, as the sender computes the signature,
/// verifies.
pub proof fn law_own_signature_verifies(secret: Seq<char>, body: Seq<u8>)
    ensures
        hmac_hex_matches(secret, body, hex_lower(hmac_sha256(encode_utf8(secret), body))),
{
}

/// Replay defense: a delivery whose timestamp does not parse, or lies more
/// than `tolerance_secs` from `now_unix`, is refused whatever its signature.
pub proof fn law_stale_or_unparsed_timestamps_refused(
    secret: Seq<char>,
    id: Seq<char>,
    timestamp: Seq<char>,
    body: Seq<u8>,
    sig_header: Seq<char>,
    now_unix: i64,
    tolerance_secs: i64,
)
    requires
        parse_i64(timestamp) is None || abs_diff(now_unix as int, parse_i64(timestamp)->0 as int) > tolerance_secs,
    ensures
        !standard_webhook_ok(secret, id, timestamp, body, sig_header, now_unix, tolerance_secs),
{
}

} // verus!
