//! Request planning for every Box API operation, response error mapping, and the retry rule.
//!
//! A `BoxApi` turns each operation into an `ApiRequest`: method, URL, query, headers, body,
//! timeout and the number of attempts allowed. Sending it is the transport's job.
use vstd::prelude::*;
use vstd::string::*;
use vstd::utf8::*;

use crate::config::{command_http_timeout, trim_end_slashes, trim_trailing_slashes, Configuration};
use crate::duration::Duration;
use crate::error::{retryable, Error};
use crate::text::{
    blank, chars_of, decimal, is_blank, joined, lemma_encode_utf8_append,
    lemma_encode_utf8_single, lemma_encode_utf8_take_next, owned, push_char, push_chars,
    push_decimal, utf8_width,
};
use crate::types::{
    boxes_query_params, opt_pair, opt_view, pairs_view, ApiErrorBody, BoxesQuery,
    CommandRequest, CreateBoxRequest, FileReadQuery, FileWriteRequest, HostPortRequest,
    ResumeRequest, SshKeyRequest, StopRequest, UpdateBoxRequest,
};

verus! {

/// Length of the part of a box id after `bx_`.
pub const BOX_ID_BODY_LEN: usize = 8;

/// Retries allowed for an idempotent (GET) request after its first attempt.
pub const GET_MAX_RETRIES: u32 = 3;

/// Attempts allowed for an idempotent (GET) request: the first one and its retries.
pub const GET_MAX_ATTEMPTS: u32 = 4;

/// First retry delay, in milliseconds; it doubles with each further attempt.
pub const GET_RETRY_BASE_MILLIS: u64 = 200;

/// Largest number of bytes of a response body kept in an error.
pub const ERROR_BODY_MAX: usize = 2_048;

// --- Box ids ---
/// The characters allowed after `bx_`: `23456789abcdefghjkmnpqrstuvwxyz`.
pub open spec fn box_id_char(c: char) -> bool {
    ||| ('2' as u32) <= (c as u32) <= ('9' as u32)
    ||| (('a' as u32) <= (c as u32) <= ('z' as u32) && c != 'i' && c != 'l' && c != 'o')
}

/// A box id is `bx_` followed by exactly eight characters of the box id alphabet.
pub open spec fn valid_box_id(s: Seq<char>) -> bool {
    &&& s.len() == 3 + BOX_ID_BODY_LEN
    &&& s[0] == 'b'
    &&& s[1] == 'x'
    &&& s[2] == '_'
    &&& forall|i: int| 3 <= i < s.len() ==> #[trigger] box_id_char(s[i])
}

/// A valid box id holds no `/`, `.`, `?`, `#`, `%` or whitespace, so it can stand in a URL
/// path as a single segment and cannot reach another path.
pub proof fn lemma_box_id_is_one_path_segment(s: Seq<char>)
    requires
        valid_box_id(s),
    ensures
        forall|i: int|
            0 <= i < s.len() ==> {
                let c = #[trigger] s[i];
                c != '/' && c != '.' && c != '?' && c != '#' && c != '%' && c != ' '
            },
{
    assert forall|i: int| 0 <= i < s.len() implies {
        let c = #[trigger] s[i];
        c != '/' && c != '.' && c != '?' && c != '#' && c != '%' && c != ' '
    } by {
        if i >= 3 {
            assert(box_id_char(s[i]));
        }
    }
}

/// The box id alphabet, character by character: a character may follow `bx_` exactly when
/// it is one of `23456789abcdefghjkmnpqrstuvwxyz`.
pub proof fn lemma_box_id_char_alphabet(c: char)
    ensures
        box_id_char(c) <==> "23456789abcdefghjkmnpqrstuvwxyz"@.contains(c),
{
    reveal_strlit("23456789abcdefghjkmnpqrstuvwxyz");
    let a = "23456789abcdefghjkmnpqrstuvwxyz"@;
    assert(a.len() == 31);
    if box_id_char(c) {
        if c == '2' {
            assert(a[0] == c);
        } else if c == '3' {
            assert(a[1] == c);
        } else if c == '4' {
            assert(a[2] == c);
        } else if c == '5' {
            assert(a[3] == c);
        } else if c == '6' {
            assert(a[4] == c);
        } else if c == '7' {
            assert(a[5] == c);
        } else if c == '8' {
            assert(a[6] == c);
        } else if c == '9' {
            assert(a[7] == c);
        } else if c == 'a' {
            assert(a[8] == c);
        } else if c == 'b' {
            assert(a[9] == c);
        } else if c == 'c' {
            assert(a[10] == c);
        } else if c == 'd' {
            assert(a[11] == c);
        } else if c == 'e' {
            assert(a[12] == c);
        } else if c == 'f' {
            assert(a[13] == c);
        } else if c == 'g' {
            assert(a[14] == c);
        } else if c == 'h' {
            assert(a[15] == c);
        } else if c == 'j' {
            assert(a[16] == c);
        } else if c == 'k' {
            assert(a[17] == c);
        } else if c == 'm' {
            assert(a[18] == c);
        } else if c == 'n' {
            assert(a[19] == c);
        } else if c == 'p' {
            assert(a[20] == c);
        } else if c == 'q' {
            assert(a[21] == c);
        } else if c == 'r' {
            assert(a[22] == c);
        } else if c == 's' {
            assert(a[23] == c);
        } else if c == 't' {
            assert(a[24] == c);
        } else if c == 'u' {
            assert(a[25] == c);
        } else if c == 'v' {
            assert(a[26] == c);
        } else if c == 'w' {
            assert(a[27] == c);
        } else if c == 'x' {
            assert(a[28] == c);
        } else if c == 'y' {
            assert(a[29] == c);
        } else if c == 'z' {
            assert(a[30] == c);
        } else {
            assert(false);
        }
    }
    if a.contains(c) {
        let i = choose|i: int| 0 <= i < a.len() && a[i] == c;
        if i == 0 {
            assert(c == '2');
        } else if i == 1 {
            assert(c == '3');
        } else if i == 2 {
            assert(c == '4');
        } else if i == 3 {
            assert(c == '5');
        } else if i == 4 {
            assert(c == '6');
        } else if i == 5 {
            assert(c == '7');
        } else if i == 6 {
            assert(c == '8');
        } else if i == 7 {
            assert(c == '9');
        } else if i == 8 {
            assert(c == 'a');
        } else if i == 9 {
            assert(c == 'b');
        } else if i == 10 {
            assert(c == 'c');
        } else if i == 11 {
            assert(c == 'd');
        } else if i == 12 {
            assert(c == 'e');
        } else if i == 13 {
            assert(c == 'f');
        } else if i == 14 {
            assert(c == 'g');
        } else if i == 15 {
            assert(c == 'h');
        } else if i == 16 {
            assert(c == 'j');
        } else if i == 17 {
            assert(c == 'k');
        } else if i == 18 {
            assert(c == 'm');
        } else if i == 19 {
            assert(c == 'n');
        } else if i == 20 {
            assert(c == 'p');
        } else if i == 21 {
            assert(c == 'q');
        } else if i == 22 {
            assert(c == 'r');
        } else if i == 23 {
            assert(c == 's');
        } else if i == 24 {
            assert(c == 't');
        } else if i == 25 {
            assert(c == 'u');
        } else if i == 26 {
            assert(c == 'v');
        } else if i == 27 {
            assert(c == 'w');
        } else if i == 28 {
            assert(c == 'x');
        } else if i == 29 {
            assert(c == 'y');
        } else if i == 30 {
            assert(c == 'z');
        }
        assert(box_id_char(c));
    }
}

/// A box id is exactly `bx_` followed by eight characters, each one of
/// `23456789abcdefghjkmnpqrstuvwxyz`.
pub proof fn lemma_valid_box_id_alphabet(s: Seq<char>)
    ensures
        valid_box_id(s) <==> {
            &&& s.len() == 11
            &&& s.take(3) == "bx_"@
            &&& forall|i: int| 3 <= i < 11 ==> "23456789abcdefghjkmnpqrstuvwxyz"@.contains(#[trigger] s[i])
        },
{
    reveal_strlit("bx_");
    assert forall|i: int| 3 <= i < s.len() implies box_id_char(#[trigger] s[i]) <==> "23456789abcdefghjkmnpqrstuvwxyz"@.contains(
        s[i],
    ) by {
        lemma_box_id_char_alphabet(s[i]);
    }
    if s.len() >= 3 {
        assert(s.take(3) == "bx_"@ <==> (s[0] == 'b' && s[1] == 'x' && s[2] == '_')) by {
            if s[0] == 'b' && s[1] == 'x' && s[2] == '_' {
                assert(s.take(3) =~= "bx_"@);
            }
            if s.take(3) == "bx_"@ {
                assert(s.take(3)[0] == 'b' && s.take(3)[1] == 'x' && s.take(3)[2] == '_');
            }
        }
    }
}

fn is_box_id_char(c: char) -> (r: bool)
    ensures
        r == box_id_char(c),
{
    let v = c as u32;
    (('2' as u32) <= v && v <= ('9' as u32)) || (('a' as u32) <= v && v <= ('z' as u32) && c
        != 'i' && c != 'l' && c != 'o')
}

/// Checks that `box_id` is `bx_` plus eight characters of the box id alphabet, and gives it back.
pub fn validate_box_id(box_id: &str) -> (r: Result<&str, Error>)
    ensures
        valid_box_id(box_id@) ==> r == Ok::<&str, Error>(box_id),
        !valid_box_id(box_id@) ==> (r matches Err(Error::InvalidBoxId(s)) && s@ == box_id@),
{
    let cs = chars_of(box_id);
    if cs.len() != 3 + BOX_ID_BODY_LEN || cs[0] != 'b' || cs[1] != 'x' || cs[2] != '_' {
        return Err(Error::InvalidBoxId(owned(box_id)));
    }
    let mut i: usize = 3;
    while i < cs.len()
        invariant
            cs@ == box_id@,
            3 <= i <= cs@.len(),
            forall|j: int| 3 <= j < i ==> #[trigger] box_id_char(cs@[j]),
        decreases cs.len() - i,
    {
        if !is_box_id_char(cs[i]) {
            return Err(Error::InvalidBoxId(owned(box_id)));
        }
        i = i + 1;
    }
    Ok(box_id)
}

/// Rejects a file path that is empty or whitespace only.
pub fn validate_file_path(path: &str) -> (r: Result<(), Error>)
    ensures
        !blank(path@) ==> r is Ok,
        blank(path@) ==> (r matches Err(Error::Config(m)) && m@ == "file path must not be empty"@),
{
    if is_blank(path) {
        return Err(Error::Config(owned("file path must not be empty")));
    }
    Ok(())
}

// --- Error bodies ---
/// Names what `String::from_utf8_lossy` makes of a byte string: the decoded text, with each
/// invalid sequence replaced by U+FFFD.
pub uninterp spec fn utf8_lossy(bytes: Seq<u8>) -> Seq<char>;

/// std `String::from_utf8_lossy`. Valid UTF-8 decodes as it is.
#[verifier::external_body]
fn from_utf8_lossy(bytes: &[u8]) -> (r: String)
    ensures
        r@ == utf8_lossy(bytes@),
        valid_utf8(bytes@) ==> r@ == decode_utf8(bytes@),
{
    String::from_utf8_lossy(bytes).into_owned()
}

/// The text of a body decoded leniently: valid UTF-8 as it is, anything else as
/// `String::from_utf8_lossy` makes of it.
pub open spec fn lossy_text(bytes: Seq<u8>) -> Seq<char> {
    if valid_utf8(bytes) {
        decode_utf8(bytes)
    } else {
        utf8_lossy(bytes)
    }
}

/// How many leading characters of `s` fit in `budget` bytes of UTF-8.
pub open spec fn fitting_prefix_len(s: Seq<char>, budget: int) -> nat
    decreases s.len(),
{
    if s.len() == 0 {
        0
    } else if encode_scalar(s[0] as u32).len() <= budget {
        1 + fitting_prefix_len(s.drop_first(), budget - encode_scalar(s[0] as u32).len())
    } else {
        0
    }
}

/// A body text as kept in an error: whole when its UTF-8 fits in `ERROR_BODY_MAX` bytes,
/// else the longest prefix that fits, followed by `…`.
pub open spec fn truncated_body(s: Seq<char>) -> Seq<char> {
    if encode_utf8(s).len() <= ERROR_BODY_MAX {
        s
    } else {
        s.take(fitting_prefix_len(s, ERROR_BODY_MAX as int) as int).push('…')
    }
}

proof fn lemma_encode_utf8_split(s: Seq<char>, k: int)
    requires
        0 <= k <= s.len(),
    ensures
        encode_utf8(s) == encode_utf8(s.take(k)) + encode_utf8(s.skip(k)),
{
    assert(s =~= s.take(k) + s.skip(k));
    lemma_encode_utf8_append(s.take(k), s.skip(k));
}

/// The cut keeps at most `ERROR_BODY_MAX` bytes, and keeping one more character would not fit.
pub proof fn lemma_truncation_cut(s: Seq<char>, budget: int)
    requires
        budget >= 0,
    ensures
        fitting_prefix_len(s, budget) <= s.len(),
        encode_utf8(s.take(fitting_prefix_len(s, budget) as int)).len() <= budget,
        fitting_prefix_len(s, budget) < s.len() ==> encode_utf8(
            s.take(fitting_prefix_len(s, budget) + 1int),
        ).len() > budget,
    decreases s.len(),
{
    let k = fitting_prefix_len(s, budget);
    if s.len() == 0 {
        assert(s.take(0) =~= Seq::<char>::empty());
    } else {
        let w = encode_scalar(s[0] as u32).len() as int;
        if w <= budget {
            let t = s.drop_first();
            lemma_truncation_cut(t, budget - w);
            let kt = fitting_prefix_len(t, budget - w);
            assert(s.take(k as int) =~= seq![s[0]] + t.take(kt as int));
            lemma_encode_utf8_append(seq![s[0]], t.take(kt as int));
            lemma_encode_utf8_single(s[0]);
            if k < s.len() {
                assert(s.take(k + 1int) =~= seq![s[0]] + t.take(kt + 1int));
                lemma_encode_utf8_append(seq![s[0]], t.take(kt + 1int));
            }
        } else {
            assert(s.take(0) =~= Seq::<char>::empty());
            assert(s.take(1) =~= seq![s[0]]);
            lemma_encode_utf8_single(s[0]);
        }
    }
}

proof fn lemma_fitting_step(s: Seq<char>, i: int, budget: int)
    requires
        0 <= i < s.len(),
    ensures
        fitting_prefix_len(s.skip(i), budget) == if encode_scalar(s[i] as u32).len() <= budget {
            1 + fitting_prefix_len(s.skip(i + 1), budget - encode_scalar(s[i] as u32).len())
        } else {
            0
        },
{
    assert(s.skip(i).drop_first() =~= s.skip(i + 1));
    assert(s.skip(i)[0] == s[i]);
}

/// Decodes a response body leniently and keeps at most `ERROR_BODY_MAX` bytes of it,
/// cutting on a character boundary and marking the cut with `…`.
pub fn truncate_lossy(bytes: &[u8]) -> (r: String)
    ensures
        r@ == truncated_body(lossy_text(bytes@)),
{
    let s = from_utf8_lossy(bytes);
    let cs = chars_of(s.as_str());
    let ghost t = cs@;
    let mut used: usize = 0;
    let mut i: usize = 0;
    assert(t.skip(0) =~= t);
    assert(t.take(0) =~= Seq::<char>::empty());
    while i < cs.len()
        invariant
            t == cs@,
            t == lossy_text(bytes@),
            i <= t.len(),
            used == encode_utf8(t.take(i as int)).len(),
            used <= ERROR_BODY_MAX,
            fitting_prefix_len(t, ERROR_BODY_MAX as int) == i + fitting_prefix_len(
                t.skip(i as int),
                ERROR_BODY_MAX - used,
            ),
        decreases cs.len() - i,
    {
        let w = utf8_width(cs[i]);
        proof {
            lemma_fitting_step(t, i as int, ERROR_BODY_MAX - used);
            lemma_encode_utf8_take_next(t, i as int);
        }
        if w > ERROR_BODY_MAX - used {
            proof {
                lemma_encode_utf8_split(t, i + 1);
            }
            let mut r = String::new();
            push_chars(&mut r, &cs, 0, i);
            push_char(&mut r, '…');
            assert(t.subrange(0, i as int) =~= t.take(i as int));
            assert(t == lossy_text(bytes@));
            assert(encode_utf8(t).len() > ERROR_BODY_MAX);
            assert(fitting_prefix_len(t, ERROR_BODY_MAX as int) == i);
            assert(r@ =~= t.take(i as int).push('…'));
            return r;
        }
        used = used + w;
        i = i + 1;
    }
    assert(t.take(i as int) =~= t);
    s
}

// --- Status lines ---
/// Names `http::StatusCode::canonical_reason` for a code in `100..=999`.
pub uninterp spec fn canonical_reason(code: u16) -> Option<Seq<char>>;

/// The canonical reason phrase of a status code, as `http::StatusCode::canonical_reason`
/// gives it (`None` for a code the table does not list).
#[verifier::external_body]
fn status_reason(code: u16) -> (r: Option<&'static str>)
    requires
        100 <= code <= 999,
    ensures
        match r {
            Some(t) => canonical_reason(code) == Some(t@),
            None => canonical_reason(code) is None,
        },
{
    match reqwest::StatusCode::from_u16(code) {
        Ok(s) => s.canonical_reason(),
        Err(_) => None,
    }
}

/// A status as `Display` for `http::StatusCode` writes it: the code, a space, and the
/// canonical reason (or `<unknown status code>`).
pub open spec fn status_text(code: u16) -> Seq<char> {
    decimal(code as nat) + " "@ + match canonical_reason(code) {
        Some(t) => t,
        None => "<unknown status code>"@,
    }
}

/// Whether a status code reports success (`200..=299`).
pub fn is_success(status: u16) -> (r: bool)
    ensures
        r == (200 <= status <= 299),
{
    200 <= status && status <= 299
}

/// The first present text of two.
pub open spec fn first_text(a: Option<Seq<char>>, b: Option<Seq<char>>) -> Option<Seq<char>> {
    match a {
        Some(x) => Some(x),
        None => b,
    }
}

/// The error code of an envelope: the nested `error.code`, else the top-level `code`,
/// else `unknown`.
pub open spec fn envelope_code(b: ApiErrorBody) -> Seq<char> {
    let nested = match b.error {
        Some(e) => opt_view(e.code),
        None => None,
    };
    match first_text(nested, opt_view(b.code)) {
        Some(c) => c,
        None => "unknown"@,
    }
}

/// The message of an envelope: the nested `error.message`, else the top-level `message`,
/// else the kept body text.
pub open spec fn envelope_message(b: ApiErrorBody, body: Seq<u8>) -> Seq<char> {
    let nested = match b.error {
        Some(e) => opt_view(e.message),
        None => None,
    };
    match first_text(nested, opt_view(b.message)) {
        Some(m) => m,
        None => truncated_body(lossy_text(body)),
    }
}

/// The request id of an envelope, empty when absent.
pub open spec fn envelope_request_id(b: ApiErrorBody) -> Seq<char> {
    match opt_view(b.request_id) {
        Some(r) => r,
        None => Seq::empty(),
    }
}

/// Where an error's code and message come from: the nested `error` object first, then the
/// envelope's top-level field; the code falls back to `unknown`, the message to the kept
/// body text, only when neither level has one.
pub proof fn lemma_envelope_precedence(b: ApiErrorBody, body: Seq<u8>)
    ensures
        b.error matches Some(d) ==> (d.message matches Some(m) ==> envelope_message(b, body)
            == m@),
        b.error matches Some(d) ==> (d.message is None && b.message is Some
            ==> envelope_message(b, body) == b.message->0@),
        b.error is None && b.message is Some ==> envelope_message(b, body) == b.message->0@,
        ((b.error is None || b.error->0.message is None) && b.message is None)
            ==> envelope_message(b, body) == truncated_body(lossy_text(body)),
        b.error matches Some(d) ==> (d.code matches Some(c) ==> envelope_code(b) == c@),
        b.error matches Some(d) ==> (d.code is None && b.code is Some ==> envelope_code(b)
            == b.code->0@),
        b.error is None && b.code is Some ==> envelope_code(b) == b.code->0@,
        ((b.error is None || b.error->0.code is None) && b.code is None) ==> envelope_code(b)
            == "unknown"@,
        b.request_id is Some ==> envelope_request_id(b) == b.request_id->0@,
        b.request_id is None ==> envelope_request_id(b).len() == 0,
{
}

fn first_present(a: Option<String>, b: Option<String>) -> (r: Option<String>)
    ensures
        opt_view(r) == first_text(opt_view(a), opt_view(b)),
{
    match a {
        Some(x) => Some(x),
        None => b,
    }
}

/// Maps a failure response to an error. `envelope` is the body decoded as the API's error
/// envelope, or `None` when it does not decode as one; `bytes` is the raw body.
pub fn map_error(status: u16, envelope: Option<ApiErrorBody>, bytes: &[u8]) -> (r: Error)
    requires
        100 <= status <= 999,
    ensures
        match envelope {
            Some(b) => match r {
                Error::Api { status: s, code, message, request_id, details } => {
                    &&& s == status
                    &&& code@ == envelope_code(b)
                    &&& message@ == envelope_message(b, bytes@)
                    &&& request_id@ == envelope_request_id(b)
                    &&& details == match b.error {
                        Some(e) => e.details,
                        None => None,
                    }
                },
                _ => false,
            },
            None => match r {
                Error::Unexpected(t) => t@ == "HTTP "@ + status_text(status) + " — "@
                    + truncated_body(lossy_text(bytes@)),
                _ => false,
            },
        },
{
    match envelope {
        Some(b) => {
            let ghost gb = b;
            let (nested_code, nested_message, details) = match b.error {
                Some(e) => (e.code, e.message, e.details),
                None => (None, None, None),
            };
            let code = match first_present(nested_code, b.code) {
                Some(c) => c,
                None => owned("unknown"),
            };
            let message = match first_present(nested_message, b.message) {
                Some(m) => m,
                None => truncate_lossy(bytes),
            };
            let request_id = match b.request_id {
                Some(r) => r,
                None => String::new(),
            };
            assert(code@ == envelope_code(gb));
            Error::Api { status, code, message, request_id, details }
        },
        None => {
            let mut t = owned("HTTP ");
            push_decimal(&mut t, status as u64);
            t.append(" ");
            match status_reason(status) {
                Some(reason) => t.append(reason),
                None => t.append("<unknown status code>"),
            }
            t.append(" — ");
            let kept = truncate_lossy(bytes);
            t.append(kept.as_str());
            Error::Unexpected(t)
        },
    }
}

// --- Retries ---
/// The delay before retry number `attempt` (1-based), in nanoseconds: 200 ms, doubling.
pub open spec fn backoff_nanos(attempt: u32) -> nat
    decreases attempt,
{
    if attempt <= 1 {
        200_000_000
    } else {
        2 * backoff_nanos((attempt - 1) as u32)
    }
}

/// After attempt number `attempt` of a request allowed `max_attempts` attempts failed with
/// `e`: the delay before trying again, or `None` to give up.
pub open spec fn retry_after(max_attempts: u32, attempt: u32, e: Error) -> Option<nat> {
    if retryable(e) && attempt < max_attempts {
        Some(backoff_nanos(attempt))
    } else {
        None
    }
}

/// The retry rule: after attempt `attempt` failed with `err`, wait the returned delay and try
/// again, or (`None`) give up and report `err`.
pub fn retry_delay(max_attempts: u32, attempt: u32, err: &Error) -> (r: Option<Duration>)
    requires
        1 <= attempt,
        max_attempts <= GET_MAX_ATTEMPTS,
    ensures
        match retry_after(max_attempts, attempt, *err) {
            Some(n) => r matches Some(d) && d@ == n,
            None => r is None,
        },
{
    if err.is_retryable() && attempt < max_attempts {
        let mut millis: u64 = GET_RETRY_BASE_MILLIS;
        let mut k: u32 = 1;
        while k < attempt
            invariant
                1 <= k <= attempt,
                attempt < GET_MAX_ATTEMPTS,
                millis as nat * 1_000_000 == backoff_nanos(k),
                (k == 1 && millis == 200) || (k == 2 && millis == 400) || (k == 3 && millis
                    == 800),
            decreases attempt - k,
        {
            millis = millis * 2;
            k = k + 1;
        }
        Some(Duration::from_millis(millis))
    } else {
        None
    }
}

/// No request is sent more often than it is allowed: once attempt `max_attempts` has failed,
/// the rule gives up.
pub proof fn lemma_attempts_bounded(max_attempts: u32, attempt: u32, e: Error)
    requires
        attempt >= max_attempts,
    ensures
        retry_after(max_attempts, attempt, e) is None,
{
}

/// A request allowed a single attempt is never retried, whatever the failure.
pub proof fn lemma_single_attempt_never_retried(attempt: u32, e: Error)
    requires
        attempt >= 1,
    ensures
        retry_after(1, attempt, e) is None,
{
}

/// Only errors that `retryable` accepts are retried.
pub proof fn lemma_only_retryable_retried(max_attempts: u32, attempt: u32, e: Error)
    requires
        !retryable(e),
    ensures
        retry_after(max_attempts, attempt, e) is None,
{
}

// --- Request plans ---
/// HTTP methods the API uses.
#[derive(Clone, Copy, Debug, PartialEq, Eq, Structural)]
pub enum HttpMethod {
    Get,
    Post,
    Patch,
}

/// The JSON body a request carries.
pub enum RequestBody {
    Empty,
    CreateBox(CreateBoxRequest),
    UpdateBox(UpdateBoxRequest),
    Stop(StopRequest),
    Resume(ResumeRequest),
    Command(CommandRequest),
    WriteFile(FileWriteRequest),
    HostPort(HostPortRequest),
    SshKey(SshKeyRequest),
}

/// One API call, ready to send: `bearer_token` goes in `Authorization: Bearer`, `headers`
/// are sent as they are, `query` is appended to the URL, `body` is sent as JSON, `timeout`
/// (when set) replaces the client's request timeout, and the call is attempted at most
/// `max_attempts` times under `retry_delay`.
pub struct ApiRequest {
    pub method: HttpMethod,
    pub url: String,
    pub bearer_token: String,
    pub headers: Vec<(String, String)>,
    pub query: Vec<(String, String)>,
    pub body: RequestBody,
    pub timeout: Option<Duration>,
    pub max_attempts: u32,
}

/// The headers every call carries besides authorization: `Accept: application/json`, and
/// `X-Box-Org` when an org is configured.
pub open spec fn base_headers(c: Configuration) -> Seq<(Seq<char>, Seq<char>)> {
    seq![("Accept"@, "application/json"@)] + opt_pair("X-Box-Org"@, opt_view(c.org))
}

/// Ascii Box API client: plans each operation as an `ApiRequest`.
pub struct BoxApi {
    config: Configuration,
    base: String,
}

/// `r` calls `path` under the client's base URL with `method`, the client's credentials
/// and base headers, no query and no timeout override, attempted at most `attempts` times.
pub open spec fn plain_call(
    r: ApiRequest,
    api: BoxApi,
    method: HttpMethod,
    path: Seq<char>,
    attempts: u32,
) -> bool {
    &&& r.method == method
    &&& r.url@ == api.base_url() + path
    &&& r.bearer_token@ == api.configuration().access_token@
    &&& pairs_view(r.headers@) == base_headers(api.configuration())
    &&& pairs_view(r.query@) == Seq::<(Seq<char>, Seq<char>)>::empty()
    &&& r.timeout is None
    &&& r.max_attempts == attempts
}

/// The path of a box: `/boxes/` and its id.
pub open spec fn box_path(box_id: Seq<char>) -> Seq<char> {
    "/boxes/"@ + box_id
}

/// `q` runs a command in box `box_id`: `POST /boxes/{id}/commands`, with the HTTP timeout
/// raised to cover the in-box timeout plus slack, attempted once.
pub open spec fn command_call(
    q: ApiRequest,
    api: BoxApi,
    box_id: Seq<char>,
    timeout_seconds: Option<u32>,
) -> bool {
    &&& q.method == HttpMethod::Post
    &&& q.url@ == api.base_url() + box_path(box_id) + "/commands"@
    &&& q.bearer_token@ == api.configuration().access_token@
    &&& pairs_view(q.headers@) == base_headers(api.configuration())
    &&& pairs_view(q.query@) == Seq::<(Seq<char>, Seq<char>)>::empty()
    &&& q.timeout matches Some(t) && t@ == command_http_timeout(
        api.configuration(),
        timeout_seconds,
    )
    &&& q.max_attempts == 1
}

/// `q` reads file `path` of box `box_id`: `GET /boxes/{id}/files` with the path, and the
/// encoding when given, as query parameters; retried like any idempotent call.
pub open spec fn file_read_call(
    q: ApiRequest,
    api: BoxApi,
    box_id: Seq<char>,
    path: Seq<char>,
    encoding: Option<Seq<char>>,
) -> bool {
    &&& q.method == HttpMethod::Get
    &&& q.url@ == api.base_url() + box_path(box_id) + "/files"@
    &&& q.bearer_token@ == api.configuration().access_token@
    &&& pairs_view(q.headers@) == base_headers(api.configuration())
    &&& pairs_view(q.query@) == seq![("path"@, path)] + opt_pair("encoding"@, encoding)
    &&& q.timeout is None
    &&& q.max_attempts == GET_MAX_ATTEMPTS
    &&& q.body is Empty
}

impl BoxApi {
    /// The client's configuration.
    pub closed spec fn configuration(self) -> Configuration {
        self.config
    }

    /// The base URL calls go to: the configured base path without trailing slashes.
    pub closed spec fn base_url(self) -> Seq<char> {
        self.base@
    }

    /// A client for `config`.
    pub fn new(config: Configuration) -> (r: BoxApi)
        ensures
            r.configuration() == config,
            r.base_url() == trim_end_slashes(config.base_path@),
    {
        let base = trim_trailing_slashes(config.base_path.as_str());
        BoxApi { config, base }
    }

    /// The client's configuration.
    pub fn config(&self) -> (r: &Configuration)
        ensures
            *r == self.configuration(),
    {
        &self.config
    }

    /// A call of `path` with the client's credentials and base headers.
    fn call(&self, method: HttpMethod, path: &str, attempts: u32) -> (r: ApiRequest)
        ensures
            plain_call(r, *self, method, path@, attempts),
            r.body is Empty,
    {
        let mut headers: Vec<(String, String)> = Vec::new();
        headers.push((owned("Accept"), owned("application/json")));
        match &self.config.org {
            Some(org) => {
                headers.push((owned("X-Box-Org"), org.clone()));
            },
            None => {},
        }
        assert(pairs_view(headers@) =~= base_headers(self.config));
        let query: Vec<(String, String)> = Vec::new();
        assert(pairs_view(query@) =~= Seq::<(Seq<char>, Seq<char>)>::empty());
        ApiRequest {
            method,
            url: joined(self.base.as_str(), path),
            bearer_token: self.config.access_token.clone(),
            headers,
            query,
            body: RequestBody::Empty,
            timeout: None,
            max_attempts: attempts,
        }
    }

    // --- Account ---
    /// `GET /me`.
    pub fn me(&self) -> (r: ApiRequest)
        ensures
            plain_call(r, *self, HttpMethod::Get, "/me"@, GET_MAX_ATTEMPTS),
            r.body is Empty,
    {
        self.call(HttpMethod::Get, "/me", GET_MAX_ATTEMPTS)
    }

    /// `GET /limits`.
    pub fn limits(&self) -> (r: ApiRequest)
        ensures
            plain_call(r, *self, HttpMethod::Get, "/limits"@, GET_MAX_ATTEMPTS),
            r.body is Empty,
    {
        self.call(HttpMethod::Get, "/limits", GET_MAX_ATTEMPTS)
    }

    // --- Lifecycle ---
    /// `GET /boxes`, with the query's parameters when one is given.
    pub fn boxes(&self, query: Option<&BoxesQuery>) -> (r: ApiRequest)
        ensures
            r.method == HttpMethod::Get,
            r.url@ == self.base_url() + "/boxes"@,
            r.bearer_token@ == self.configuration().access_token@,
            pairs_view(r.headers@) == base_headers(self.configuration()),
            pairs_view(r.query@) == match query {
                Some(q) => boxes_query_params(*q),
                None => Seq::empty(),
            },
            r.timeout is None,
            r.max_attempts == GET_MAX_ATTEMPTS,
            r.body is Empty,
    {
        let mut r = self.call(HttpMethod::Get, "/boxes", GET_MAX_ATTEMPTS);
        match query {
            Some(q) => {
                r.query = q.query_params();
            },
            None => {},
        }
        r
    }

    /// `POST /boxes`. Not retried automatically (creation is billed).
    pub fn create(&self, request: CreateBoxRequest) -> (r: ApiRequest)
        ensures
            plain_call(r, *self, HttpMethod::Post, "/boxes"@, 1),
            r.body == RequestBody::CreateBox(request),
    {
        self.create_with_idempotency(request, None)
    }

    /// `POST /boxes` with an `Idempotency-Key` header when a non-empty key is given, so a
    /// lost response can be retried safely by the caller. Not retried automatically.
    pub fn create_with_idempotency(
        &self,
        request: CreateBoxRequest,
        idempotency_key: Option<&str>,
    ) -> (r: ApiRequest)
        ensures
            r.method == HttpMethod::Post,
            r.url@ == self.base_url() + "/boxes"@,
            r.bearer_token@ == self.configuration().access_token@,
            pairs_view(r.headers@) == base_headers(self.configuration()) + match idempotency_key {
                Some(k) => if k@.len() > 0 {
                    seq![("Idempotency-Key"@, k@)]
                } else {
                    Seq::empty()
                },
                None => Seq::empty(),
            },
            pairs_view(r.query@) == Seq::<(Seq<char>, Seq<char>)>::empty(),
            r.timeout is None,
            r.max_attempts == 1,
            r.body == RequestBody::CreateBox(request),
    {
        let mut r = self.call(HttpMethod::Post, "/boxes", 1);
        let ghost h = pairs_view(r.headers@);
        match idempotency_key {
            Some(key) => {
                if !key.is_empty() {
                    r.headers.push((owned("Idempotency-Key"), owned(key)));
                    assert(pairs_view(r.headers@) =~= h + seq![("Idempotency-Key"@, key@)]);
                } else {
                    assert(pairs_view(r.headers@) =~= h + Seq::empty());
                }
            },
            None => {
                assert(pairs_view(r.headers@) =~= h + Seq::empty());
            },
        }
        r.body = RequestBody::CreateBox(request);
        r
    }

    /// `GET /boxes/{id}`.
    pub fn get(&self, box_id: &str) -> (r: Result<ApiRequest, Error>)
        ensures
            !valid_box_id(box_id@) ==> (r matches Err(Error::InvalidBoxId(s)) && s@ == box_id@),
            valid_box_id(box_id@) ==> (r matches Ok(q) && plain_call(
                q,
                *self,
                HttpMethod::Get,
                box_path(box_id@),
                GET_MAX_ATTEMPTS,
            ) && q.body is Empty),
    {
        let id = validate_box_id(box_id)?;
        let path = joined("/boxes/", id);
        Ok(self.call(HttpMethod::Get, path.as_str(), GET_MAX_ATTEMPTS))
    }

    /// `PATCH /boxes/{id}`.
    pub fn update(&self, box_id: &str, request: UpdateBoxRequest) -> (r: Result<
        ApiRequest,
        Error,
    >)
        ensures
            !valid_box_id(box_id@) ==> (r matches Err(Error::InvalidBoxId(s)) && s@ == box_id@),
            valid_box_id(box_id@) ==> (r matches Ok(q) && plain_call(
                q,
                *self,
                HttpMethod::Patch,
                box_path(box_id@),
                1,
            ) && q.body == RequestBody::UpdateBox(request)),
    {
        let id = validate_box_id(box_id)?;
        let path = joined("/boxes/", id);
        let mut r = self.call(HttpMethod::Patch, path.as_str(), 1);
        r.body = RequestBody::UpdateBox(request);
        Ok(r)
    }

    /// `POST /boxes/{id}/stop`, with an empty stop request when none is given.
    pub fn stop(&self, box_id: &str, request: Option<StopRequest>) -> (r: Result<
        ApiRequest,
        Error,
    >)
        ensures
            !valid_box_id(box_id@) ==> (r matches Err(Error::InvalidBoxId(s)) && s@ == box_id@),
            valid_box_id(box_id@) ==> (r matches Ok(q) && plain_call(
                q,
                *self,
                HttpMethod::Post,
                box_path(box_id@) + "/stop"@,
                1,
            ) && match request {
                Some(s) => q.body == RequestBody::Stop(s),
                None => q.body matches RequestBody::Stop(s) && s.force is None,
            }),
    {
        let id = validate_box_id(box_id)?;
        let path = joined(joined("/boxes/", id).as_str(), "/stop");
        let mut r = self.call(HttpMethod::Post, path.as_str(), 1);
        let body = match request {
            Some(s) => s,
            None => StopRequest::default(),
        };
        r.body = RequestBody::Stop(body);
        Ok(r)
    }

    /// `POST /boxes/{id}/resume`, with an empty resume request when none is given.
    pub fn resume(&self, box_id: &str, request: Option<ResumeRequest>) -> (r: Result<
        ApiRequest,
        Error,
    >)
        ensures
            !valid_box_id(box_id@) ==> (r matches Err(Error::InvalidBoxId(s)) && s@ == box_id@),
            valid_box_id(box_id@) ==> (r matches Ok(q) && plain_call(
                q,
                *self,
                HttpMethod::Post,
                box_path(box_id@) + "/resume"@,
                1,
            ) && match request {
                Some(s) => q.body == RequestBody::Resume(s),
                None => q.body matches RequestBody::Resume(s) && s.type_ is None && s.env is None
                    && s.environment is None && s.no_env is None && s.ttl_seconds is None,
            }),
    {
        let id = validate_box_id(box_id)?;
        let path = joined(joined("/boxes/", id).as_str(), "/resume");
        let mut r = self.call(HttpMethod::Post, path.as_str(), 1);
        let body = match request {
            Some(s) => s,
            None => ResumeRequest::default(),
        };
        r.body = RequestBody::Resume(body);
        Ok(r)
    }

    // --- In-box ops ---
    /// `POST /boxes/{id}/commands`. Detached commands are refused. The HTTP timeout is raised
    /// to cover the command's own timeout plus slack. Commands are never retried
    /// automatically: the command may already be running.
    pub fn command(&self, box_id: &str, request: CommandRequest) -> (r: Result<
        ApiRequest,
        Error,
    >)
        ensures
            request.detached == Some(true) ==> (r matches Err(Error::Config(m)) && m@
                == "detached commands are not supported in box_client v0.1"@),
            request.detached != Some(true) && !valid_box_id(box_id@) ==> (r matches Err(
                Error::InvalidBoxId(s),
            ) && s@ == box_id@),
            request.detached != Some(true) && valid_box_id(box_id@) ==> (r matches Ok(q)
                && command_call(q, *self, box_id@, request.timeout_seconds) && q.body
                == RequestBody::Command(request)),
    {
        if matches!(request.detached, Some(true)) {
            return Err(Error::Config(owned("detached commands are not supported in box_client v0.1")));
        }
        let id = validate_box_id(box_id)?;
        let path = joined(joined("/boxes/", id).as_str(), "/commands");
        let mut r = self.call(HttpMethod::Post, path.as_str(), 1);
        r.timeout = Some(self.config.http_timeout_for_command(request.timeout_seconds));
        r.body = RequestBody::Command(request);
        assert(r.url@ =~= self.base_url() + box_path(box_id@) + "/commands"@);
        Ok(r)
    }

    /// A synchronous shell command with a 30 second in-box timeout.
    pub fn exec(&self, box_id: &str, command: &str) -> (r: Result<ApiRequest, Error>)
        ensures
            !valid_box_id(box_id@) ==> (r matches Err(Error::InvalidBoxId(s)) && s@ == box_id@),
            valid_box_id(box_id@) ==> (r matches Ok(q) && command_call(
                q,
                *self,
                box_id@,
                Some(30u32),
            ) && (q.body matches RequestBody::Command(c) && c.command@ == command@ && c.cwd is None
                && c.timeout_seconds == Some(30u32) && c.detached is None)),
    {
        self.command(box_id, CommandRequest::new(command).with_timeout_seconds(30))
    }

    /// `GET /boxes/{id}/files?path=…&encoding=…`. The path must not be blank.
    pub fn read_file(&self, box_id: &str, path: &str, encoding: Option<&str>) -> (r: Result<
        ApiRequest,
        Error,
    >)
        ensures
            blank(path@) ==> (r matches Err(Error::Config(m)) && m@
                == "file path must not be empty"@),
            !blank(path@) && !valid_box_id(box_id@) ==> (r matches Err(Error::InvalidBoxId(s))
                && s@ == box_id@),
            !blank(path@) && valid_box_id(box_id@) ==> (r matches Ok(q) && file_read_call(
                q,
                *self,
                box_id@,
                path@,
                match encoding {
                    Some(e) => Some(e@),
                    None => None,
                },
            )),
    {
        validate_file_path(path)?;
        let id = validate_box_id(box_id)?;
        let api_path = joined(joined("/boxes/", id).as_str(), "/files");
        let mut r = self.call(HttpMethod::Get, api_path.as_str(), GET_MAX_ATTEMPTS);
        let q = FileReadQuery {
            path: owned(path),
            encoding: match encoding {
                Some(e) => Some(owned(e)),
                None => None,
            },
        };
        r.query = q.query_params();
        assert(opt_view(q.encoding) == match encoding {
            Some(e) => Some(e@),
            None => None::<Seq<char>>,
        });
        assert(r.url@ =~= self.base_url() + box_path(box_id@) + "/files"@);
        Ok(r)
    }

    /// `POST /boxes/{id}/files`. The path must not be blank.
    pub fn write_file(&self, box_id: &str, request: FileWriteRequest) -> (r: Result<
        ApiRequest,
        Error,
    >)
        ensures
            blank(request.path@) ==> (r matches Err(Error::Config(m)) && m@
                == "file path must not be empty"@),
            !blank(request.path@) && !valid_box_id(box_id@) ==> (r matches Err(
                Error::InvalidBoxId(s),
            ) && s@ == box_id@),
            !blank(request.path@) && valid_box_id(box_id@) ==> (r matches Ok(q) && plain_call(
                q,
                *self,
                HttpMethod::Post,
                box_path(box_id@) + "/files"@,
                1,
            ) && q.body == RequestBody::WriteFile(request)),
    {
        validate_file_path(request.path.as_str())?;
        let id = validate_box_id(box_id)?;
        let path = joined(joined("/boxes/", id).as_str(), "/files");
        let mut r = self.call(HttpMethod::Post, path.as_str(), 1);
        r.body = RequestBody::WriteFile(request);
        Ok(r)
    }

    /// `POST /boxes/{id}/host` exposing `port`.
    pub fn host_port(&self, box_id: &str, port: u16) -> (r: Result<ApiRequest, Error>)
        ensures
            !valid_box_id(box_id@) ==> (r matches Err(Error::InvalidBoxId(s)) && s@ == box_id@),
            valid_box_id(box_id@) ==> (r matches Ok(q) && plain_call(
                q,
                *self,
                HttpMethod::Post,
                box_path(box_id@) + "/host"@,
                1,
            ) && (q.body matches RequestBody::HostPort(h) && h.port == port)),
    {
        let id = validate_box_id(box_id)?;
        let path = joined(joined("/boxes/", id).as_str(), "/host");
        let mut r = self.call(HttpMethod::Post, path.as_str(), 1);
        r.body = RequestBody::HostPort(HostPortRequest { port });
        Ok(r)
    }

    /// `POST /boxes/{id}/sshkey` installing `public_key`.
    pub fn ssh_key(&self, box_id: &str, public_key: &str) -> (r: Result<ApiRequest, Error>)
        ensures
            !valid_box_id(box_id@) ==> (r matches Err(Error::InvalidBoxId(s)) && s@ == box_id@),
            valid_box_id(box_id@) ==> (r matches Ok(q) && plain_call(
                q,
                *self,
                HttpMethod::Post,
                box_path(box_id@) + "/sshkey"@,
                1,
            ) && (q.body matches RequestBody::SshKey(k) && k.public_key@ == public_key@)),
    {
        let id = validate_box_id(box_id)?;
        let path = joined(joined("/boxes/", id).as_str(), "/sshkey");
        let mut r = self.call(HttpMethod::Post, path.as_str(), 1);
        r.body = RequestBody::SshKey(SshKeyRequest { public_key: owned(public_key) });
        Ok(r)
    }
}

/// Commands are never retried automatically: a planned command call is sent once, whatever
/// its first attempt fails with.
pub proof fn lemma_commands_never_retried(
    q: ApiRequest,
    api: BoxApi,
    box_id: Seq<char>,
    timeout_seconds: Option<u32>,
    attempt: u32,
    e: Error,
)
    requires
        command_call(q, api, box_id, timeout_seconds),
        attempt >= 1,
    ensures
        retry_after(q.max_attempts, attempt, e) is None,
{
}

/// An idempotent read is retried at most three times after its first attempt, so sent at
/// most four times, waiting 200 ms, 400 ms, then 800 ms between tries.
pub proof fn lemma_reads_retried_at_most_three_times(attempt: u32, e: Error)
    requires
        retryable(e),
    ensures
        attempt >= GET_MAX_RETRIES + 1 ==> retry_after(GET_MAX_ATTEMPTS, attempt, e) is None,
        retry_after(GET_MAX_ATTEMPTS, 1, e) == Some(200_000_000nat),
        retry_after(GET_MAX_ATTEMPTS, 2, e) == Some(400_000_000nat),
        retry_after(GET_MAX_ATTEMPTS, 3, e) == Some(800_000_000nat),
{
    assert(backoff_nanos(2) == 2 * backoff_nanos(1));
    assert(backoff_nanos(3) == 2 * backoff_nanos(2));
}

/// A read that fails transiently is retried, on the schedule of `backoff_nanos`: a transport
/// error that timed out or failed to connect, and an API error with status 429, 502, 503 or
/// 504, or 409 `box_starting` / `box_securing`, each get a first retry after 200 ms. A
/// transport error that did neither, and an API error with any other status, are not retried.
pub proof fn lemma_transient_read_failures_retried(e: Error)
    ensures
        e matches Error::Http(h) ==> (retry_after(GET_MAX_ATTEMPTS, 1, e) == if h.is_timeout
            || h.is_connect {
            Some(200_000_000nat)
        } else {
            None
        }),
        e matches Error::Api { status, .. } && (status == 429 || status == 502 || status == 503
            || status == 504) ==> retry_after(GET_MAX_ATTEMPTS, 1, e) == Some(200_000_000nat),
        e matches Error::Api { status, code, .. } && status == 409 && (code@ == "box_starting"@
            || code@ == "box_securing"@) ==> retry_after(GET_MAX_ATTEMPTS, 1, e) == Some(
            200_000_000nat,
        ),
        e matches Error::Api { status, .. } && status != 429 && status != 409 && !(502 <= status
            <= 504) ==> retry_after(GET_MAX_ATTEMPTS, 1, e) is None,
{
    crate::error::lemma_transient_failures(e);
}

/// The kept body text: the whole body when it fits, else a prefix of it that fits in
/// `ERROR_BODY_MAX` bytes followed by `…`, so never more than three bytes over the limit.
pub proof fn lemma_truncated_body_shape(s: Seq<char>)
    ensures
        encode_utf8(s).len() <= ERROR_BODY_MAX ==> truncated_body(s) == s,
        encode_utf8(s).len() > ERROR_BODY_MAX ==> {
            let k = fitting_prefix_len(s, ERROR_BODY_MAX as int);
            &&& k < s.len()
            &&& truncated_body(s) == s.take(k as int).push('…')
            &&& encode_utf8(s.take(k as int)).len() <= ERROR_BODY_MAX
            &&& encode_utf8(s.take(k + 1int)).len() > ERROR_BODY_MAX
            &&& encode_utf8(truncated_body(s)).len() <= ERROR_BODY_MAX + 3
        },
{
    lemma_truncation_cut(s, ERROR_BODY_MAX as int);
    let k = fitting_prefix_len(s, ERROR_BODY_MAX as int);
    if encode_utf8(s).len() > ERROR_BODY_MAX {
        if k == s.len() {
            assert(s.take(k as int) =~= s);
        }
        let p = s.take(k as int);
        assert(p.push('…') =~= p + seq!['…']);
        lemma_encode_utf8_append(p, seq!['…']);
        lemma_encode_utf8_single('…');
        assert(encode_scalar('…' as u32).len() == 3);
    }
}

} // verus!
