//! Request signing.
//!
//! Every authenticated request carries a hash computed from the session's
//! credential and the current HTTP-date timestamp: the concatenation is
//! encoded in the legacy Windows-1252 single-byte charset (a deliberate
//! wire-compatibility requirement of the server), digested with MD5, and
//! rendered as lowercase hexadecimal. The timestamp that went into the hash
//! is reported verbatim alongside it, so that the declared timestamp can
//! never desynchronize from the hash.

use vstd::prelude::*;

use crate::decimal::digit_char;

verus! {

/// The Windows-1252 encoding of a character sequence, as
/// `encoding_rs::WINDOWS_1252.encode` computes it (lossy: unmappable
/// characters become replacement sequences, never an error).
pub uninterp spec fn win1252_of(s: Seq<char>) -> Seq<u8>;

/// Relies on `encoding_rs::WINDOWS_1252.encode`: the lossy Windows-1252
/// encoding of the input, a function of the input alone. ASCII characters
/// encode to their own byte values, and an empty input yields empty output.
#[verifier::external_body]
fn encode_windows_1252(s: &str) -> (r: Vec<u8>)
    ensures
        r@ == win1252_of(s@),
        s@.len() == 0 ==> r@.len() == 0,
        vstd::utf8::is_ascii_chars(s@) ==> r@ == Seq::new(s@.len(), |i: int| s@[i] as u8),
{
    let (bytes, _encoding_used, _had_errors) = encoding_rs::WINDOWS_1252.encode(s);
    bytes.into_owned()
}

/// The MD5 digest of a byte sequence.
pub uninterp spec fn md5_of(data: Seq<u8>) -> Seq<u8>;

/// Relies on `md5::compute`: the 16-byte MD5 digest of the input, a
/// function of the input alone.
#[verifier::external_body]
fn md5_digest(data: &Vec<u8>) -> (r: Vec<u8>)
    ensures
        r@ == md5_of(data@),
        r@.len() == 16,
{
    md5::compute(data.as_slice()).0.to_vec()
}

/// Relies on `httpdate::fmt_http_date` and `std::time::SystemTime::now`:
/// the current wall-clock time formatted as an IMF-fixdate, e.g.
/// `Tue, 15 Nov 1994 08:12:31 GMT` — always 29 ASCII characters. The result
/// depends on the clock, so nothing more is assumed of it. A clock before
/// 1970 or past the year 9999 aborts, as a fatal environment failure.
#[verifier::external_body]
pub(crate) fn now_http_date() -> (r: String)
    ensures
        r@.len() == 29,
        vstd::utf8::is_ascii_chars(r@),
{
    httpdate::fmt_http_date(std::time::SystemTime::now())
}

/// The lowercase hexadecimal digit character for a value below sixteen.
pub open spec fn hex_char(d: nat) -> char {
    if d < 10 {
        digit_char(d)
    } else if d == 10 {
        'a'
    } else if d == 11 {
        'b'
    } else if d == 12 {
        'c'
    } else if d == 13 {
        'd'
    } else if d == 14 {
        'e'
    } else {
        'f'
    }
}

/// The lowercase hexadecimal rendering of a byte sequence: two digits per
/// byte, high nibble first.
pub open spec fn spec_hex_lower(data: Seq<u8>) -> Seq<char>
    decreases data.len(),
{
    if data.len() == 0 {
        Seq::empty()
    } else {
        seq![
            hex_char((data.first() / 16) as nat),
            hex_char((data.first() % 16) as nat),
        ] + spec_hex_lower(data.drop_first())
    }
}

/// Hexadecimal renderings consist of ASCII characters only.
pub proof fn lemma_hex_lower_ascii(data: Seq<u8>)
    ensures
        vstd::utf8::is_ascii_chars(spec_hex_lower(data)),
        spec_hex_lower(data).len() == 2 * data.len(),
    decreases data.len(),
{
    if data.len() > 0 {
        lemma_hex_lower_ascii(data.drop_first());
    }
}

/// The lowercase hexadecimal digit string for a value below sixteen.
fn hex_digit_str(d: u8) -> (r: &'static str)
    requires
        d < 16,
    ensures
        r@ =~= seq![hex_char(d as nat)],
{
    proof {
        reveal_strlit("0");
        reveal_strlit("1");
        reveal_strlit("2");
        reveal_strlit("3");
        reveal_strlit("4");
        reveal_strlit("5");
        reveal_strlit("6");
        reveal_strlit("7");
        reveal_strlit("8");
        reveal_strlit("9");
        reveal_strlit("a");
        reveal_strlit("b");
        reveal_strlit("c");
        reveal_strlit("d");
        reveal_strlit("e");
        reveal_strlit("f");
    }
    match d {
        0 => "0",
        1 => "1",
        2 => "2",
        3 => "3",
        4 => "4",
        5 => "5",
        6 => "6",
        7 => "7",
        8 => "8",
        9 => "9",
        10 => "a",
        11 => "b",
        12 => "c",
        13 => "d",
        14 => "e",
        _ => "f",
    }
}

/// Renders a byte sequence as lowercase hexadecimal.
pub fn to_hex_lower(data: &Vec<u8>) -> (r: String)
    ensures
        r@ == spec_hex_lower(data@),
        r@.len() == 2 * data@.len(),
        vstd::utf8::is_ascii_chars(r@),
{
    let mut out = String::new();
    let len = data.len();
    let mut i: usize = 0;
    proof {
        assert(data@.skip(0) =~= data@);
    }
    while i < len
        invariant
            i <= len,
            len == data@.len(),
            out@ + spec_hex_lower(data@.skip(i as int)) =~= spec_hex_lower(data@),
            out@.len() == 2 * i,
        decreases len - i,
    {
        let b = data[i];
        let hi = b / 16;
        let lo = b % 16;
        proof {
            let rest = data@.skip(i as int);
            assert(rest.first() == data@[i as int]);
            assert(rest.drop_first() =~= data@.skip(i as int + 1));
            assert(spec_hex_lower(rest) =~= seq![
                hex_char((b / 16) as nat),
                hex_char((b % 16) as nat),
            ] + spec_hex_lower(data@.skip(i as int + 1)));
        }
        out.append(hex_digit_str(hi));
        out.append(hex_digit_str(lo));
        i = i + 1;
    }
    proof {
        assert(data@.skip(len as int) =~= Seq::<u8>::empty());
        assert(out@ =~= spec_hex_lower(data@));
        lemma_hex_lower_ascii(data@);
    }
    out
}

/// The per-request signature hash: lowercase hex of the MD5 digest of the
/// Windows-1252 encoding of credential followed by timestamp.
pub open spec fn signature_hash(credential: Seq<char>, timestamp: Seq<char>) -> Seq<char> {
    spec_hex_lower(md5_of(win1252_of(credential + timestamp)))
}

/// Represents a request hash object, used for securing requests.
pub struct AppHash {
    /// The used request ID.
    pub request_id: u32,
    /// The resulting hash as String.
    pub hash: String,
    /// The current date, formatted as IMF-fixdate.
    pub date_formatted: String,
}

/// What it means for `h` to be the signature derived from a request id, a
/// credential and a timestamp: the id advanced by exactly one, the hash is
/// the signature hash of credential and timestamp, and that very timestamp
/// is reported unchanged.
pub open spec fn is_signature_of(
    h: AppHash,
    request_id: u32,
    credential: Seq<char>,
    timestamp: Seq<char>,
) -> bool {
    &&& h.request_id == request_id + 1
    &&& h.hash@ == signature_hash(credential, timestamp)
    &&& h.date_formatted@ == timestamp
}

impl AppHash {
    /// Computes the signature for one request from the last-used request id,
    /// the credential bound into the hash, and the timestamp to sign.
    pub fn from_parts(request_id: u32, app_secret: &str, timestamp: String) -> (r: AppHash)
        requires
            request_id < u32::MAX,
        ensures
            is_signature_of(r, request_id, app_secret@, timestamp@),
            r.hash@.len() == 32,
            vstd::utf8::is_ascii_chars(r.hash@),
    {
        let combined = app_secret.to_owned().concat(timestamp.as_str());
        let encoded = encode_windows_1252(combined.as_str());
        let digest = md5_digest(&encoded);
        let hex = to_hex_lower(&digest);
        AppHash { request_id: request_id + 1, hash: hex, date_formatted: timestamp }
    }

    /// Returns a new `AppHash` from the current request ID and the
    /// application secret of a client, signing the current wall-clock time.
    pub fn new(request_id: u32, app_secret: &str) -> (r: AppHash)
        requires
            request_id < u32::MAX,
        ensures
            is_signature_of(r, request_id, app_secret@, r.date_formatted@),
            r.hash@.len() == 32,
            vstd::utf8::is_ascii_chars(r.hash@),
            r.date_formatted@.len() == 29,
            vstd::utf8::is_ascii_chars(r.date_formatted@),
    {
        let now = now_http_date();
        AppHash::from_parts(request_id, app_secret, now)
    }
}

/// Law: signing is deterministic once the timestamp is fixed, and advances
/// the request id by exactly one whatever the hash came out as. Two
/// signatures computed from the same request id, credential and timestamp
/// agree in every field; signing with a different timestamp still advances
/// the id the same way.
pub proof fn lemma_signing_deterministic(
    a: AppHash,
    b: AppHash,
    request_id: u32,
    credential: Seq<char>,
    timestamp: Seq<char>,
)
    requires
        is_signature_of(a, request_id, credential, timestamp),
        is_signature_of(b, request_id, credential, timestamp),
    ensures
        a.request_id == b.request_id,
        a.request_id == request_id + 1,
        a.hash@ == b.hash@,
        a.date_formatted@ == b.date_formatted@,
{
}

} // verus!
