//! Codec for the persisted metadata blob: a JSON object with the six
//! optional state keys, written in one canonical compact form and read back
//! from exactly that form. The blob's layout is owned by this module; the
//! orchestrator persists it opaquely.

use vstd::prelude::*;
use crate::errors::ConnectorError;
use crate::metadata::MetaDataView;
use crate::metadata::NexixpayConnectorMetaData;
use crate::metadata::NexixpayPaymentIntent;
use crate::metadata::ThreeDSAuthResult;
use crate::metadata::ThreeDSAuthResultView;

verus! {

/// Relies on `alloc::string::String::push`: appends exactly the given
/// character at the end of the string.
pub assume_specification[ String::push ](s: &mut String, c: char)
    ensures
        final(s)@ == old(s)@.push(c),
;

/// The lowercase hexadecimal digit for a value below sixteen.
pub open spec fn spec_hex_digit(n: int) -> char {
    if n == 0 {
        '0'
    } else if n == 1 {
        '1'
    } else if n == 2 {
        '2'
    } else if n == 3 {
        '3'
    } else if n == 4 {
        '4'
    } else if n == 5 {
        '5'
    } else if n == 6 {
        '6'
    } else if n == 7 {
        '7'
    } else if n == 8 {
        '8'
    } else if n == 9 {
        '9'
    } else if n == 10 {
        'a'
    } else if n == 11 {
        'b'
    } else if n == 12 {
        'c'
    } else if n == 13 {
        'd'
    } else if n == 14 {
        'e'
    } else {
        'f'
    }
}

/// Whether a character is a lowercase hexadecimal digit.
pub open spec fn spec_is_hex(c: char) -> bool {
    ('0' <= c && c <= '9') || ('a' <= c && c <= 'f')
}

/// The value of a lowercase hexadecimal digit.
pub open spec fn spec_hex_val(c: char) -> int {
    if '0' <= c && c <= '9' {
        c as int - '0' as int
    } else {
        c as int - 'a' as int + 10
    }
}

/// How one character is written inside a JSON string: quote and backslash
/// get a backslash escape, control characters a `\u00` escape, everything
/// else stands as itself.
pub open spec fn spec_escape_char(c: char) -> Seq<char> {
    if c == '"' {
        seq!['\\', '"']
    } else if c == '\\' {
        seq!['\\', '\\']
    } else if (c as u32) < 32 {
        seq!['\\', 'u', '0', '0', spec_hex_digit(c as int / 16), spec_hex_digit(c as int % 16)]
    } else {
        seq![c]
    }
}

/// A whole character sequence written inside a JSON string.
pub open spec fn spec_escape(s: Seq<char>) -> Seq<char>
    decreases s.len(),
{
    if s.len() == 0 {
        Seq::empty()
    } else {
        spec_escape_char(s[0]) + spec_escape(s.skip(1))
    }
}

/// Escaping distributes over concatenation.
pub proof fn lemma_escape_concat(a: Seq<char>, b: Seq<char>)
    ensures
        spec_escape(a + b) == spec_escape(a) + spec_escape(b),
    decreases a.len(),
{
    if a.len() == 0 {
        assert(a + b =~= b);
        assert(spec_escape(a) + spec_escape(b) =~= spec_escape(b));
    } else {
        assert((a + b).skip(1) =~= a.skip(1) + b);
        lemma_escape_concat(a.skip(1), b);
        assert(spec_escape(a + b) =~= spec_escape(a) + spec_escape(b));
    }
}

/// Escaping a single character is that character's escape form.
pub proof fn lemma_escape_singleton(c: char)
    ensures
        spec_escape(seq![c]) == spec_escape_char(c),
{
    let s = seq![c];
    assert(s.len() == 1);
    assert(s[0] == c);
    assert(s.skip(1) =~= Seq::<char>::empty());
    assert(spec_escape(s.skip(1)) == Seq::<char>::empty());
    assert(spec_escape(s) == spec_escape_char(c) + spec_escape(s.skip(1)));
    assert(spec_escape_char(c) + Seq::<char>::empty() =~= spec_escape_char(c));
}

/// A quoted, escaped JSON string.
pub open spec fn spec_json_string(s: Seq<char>) -> Seq<char> {
    seq!['"'] + spec_escape(s) + seq!['"']
}

/// An optional string as a JSON value: `null` where absent.
pub open spec fn spec_json_opt_string(o: Option<Seq<char>>) -> Seq<char> {
    match o {
        Some(s) => spec_json_string(s),
        None => "null"@,
    }
}

/// The wire spelling of a sync-flow hint.
pub open spec fn spec_intent_name(i: NexixpayPaymentIntent) -> Seq<char> {
    match i {
        NexixpayPaymentIntent::Capture => "Capture"@,
        NexixpayPaymentIntent::Cancel => "Cancel"@,
        NexixpayPaymentIntent::Authorize => "Authorize"@,
    }
}

/// An optional 3-D-Secure authentication result as a JSON value.
pub open spec fn spec_json_auth_result(o: Option<ThreeDSAuthResultView>) -> Seq<char> {
    match o {
        Some(r) => "{\"authenticationValue\":"@ + spec_json_opt_string(r.authentication_value)
            + "}"@,
        None => "null"@,
    }
}

/// The canonical blob for a metadata value: one compact JSON object with the
/// six state keys, in this fixed order.
pub open spec fn spec_encode_metadata(m: MetaDataView) -> Seq<char> {
    "{\"threeDSAuthResult\":"@ + spec_json_auth_result(m.three_d_s_auth_result)
        + ",\"threeDSAuthResponse\":"@ + spec_json_opt_string(m.three_d_s_auth_response)
        + ",\"authorizationOperationId\":"@ + spec_json_opt_string(m.authorization_operation_id)
        + ",\"captureOperationId\":"@ + spec_json_opt_string(m.capture_operation_id)
        + ",\"cancelOperationId\":"@ + spec_json_opt_string(m.cancel_operation_id)
        + ",\"psyncFlow\":"@ + spec_json_string(spec_intent_name(m.psync_flow)) + "}"@
}

/// The lowercase hexadecimal digit character for a value below sixteen.
fn hex_digit(n: u32) -> (c: char)
    requires
        n < 16,
    ensures
        c == spec_hex_digit(n as int),
{
    if n == 0 {
        '0'
    } else if n == 1 {
        '1'
    } else if n == 2 {
        '2'
    } else if n == 3 {
        '3'
    } else if n == 4 {
        '4'
    } else if n == 5 {
        '5'
    } else if n == 6 {
        '6'
    } else if n == 7 {
        '7'
    } else if n == 8 {
        '8'
    } else if n == 9 {
        '9'
    } else if n == 10 {
        'a'
    } else if n == 11 {
        'b'
    } else if n == 12 {
        'c'
    } else if n == 13 {
        'd'
    } else if n == 14 {
        'e'
    } else {
        'f'
    }
}

/// Appends one character in its JSON-escaped form.
fn push_escaped_char(out: &mut String, c: char)
    ensures
        final(out)@ == old(out)@ + spec_escape_char(c),
{
    if c == '"' {
        out.push('\\');
        out.push('"');
        assert(final(out)@ =~= old(out)@ + spec_escape_char(c));
    } else if c == '\\' {
        out.push('\\');
        out.push('\\');
        assert(final(out)@ =~= old(out)@ + spec_escape_char(c));
    } else if (c as u32) < 32 {
        let n = c as u32;
        out.push('\\');
        out.push('u');
        out.push('0');
        out.push('0');
        out.push(hex_digit(n / 16));
        out.push(hex_digit(n % 16));
        assert(n as int == c as int);
        assert(final(out)@ =~= old(out)@ + spec_escape_char(c));
    } else {
        out.push(c);
        assert(final(out)@ =~= old(out)@ + spec_escape_char(c));
    }
}

/// Appends a whole string in its JSON-escaped form.
fn append_escaped(out: &mut String, s: &str)
    ensures
        final(out)@ == old(out)@ + spec_escape(s@),
{
    let n = s.unicode_len();
    let mut i: usize = 0;
    while i < n
        invariant
            i <= n,
            n == s@.len(),
            out@ == old(out)@ + spec_escape(s@.take(i as int)),
        decreases n - i,
    {
        let c = s.get_char(i);
        proof {
            assert(s@.take(i as int + 1) =~= s@.take(i as int) + seq![s@[i as int]]);
            lemma_escape_concat(s@.take(i as int), seq![s@[i as int]]);
            lemma_escape_singleton(s@[i as int]);
            assert(spec_escape(s@.take(i as int + 1)) =~= spec_escape(s@.take(i as int))
                + spec_escape_char(s@[i as int]));
        }
        push_escaped_char(out, c);
        i = i + 1;
    }
    proof {
        assert(s@.take(n as int) =~= s@);
    }
}

/// Appends a quoted, escaped JSON string.
fn append_json_string(out: &mut String, s: &str)
    ensures
        final(out)@ == old(out)@ + spec_json_string(s@),
{
    out.push('"');
    append_escaped(out, s);
    out.push('"');
    assert(final(out)@ =~= old(out)@ + spec_json_string(s@));
}

/// Appends an optional string as a JSON value.
fn append_opt_string(out: &mut String, o: &Option<String>)
    ensures
        final(out)@ == old(out)@ + spec_json_opt_string(crate::metadata::opt_str_view(*o)),
{
    match o {
        Some(s) => append_json_string(out, s.as_str()),
        None => {
            out.append("null");
            assert(final(out)@ =~= old(out)@ + "null"@);
        },
    }
}

/// Appends an optional 3-D-Secure authentication result as a JSON value.
fn append_auth_result(out: &mut String, o: &Option<ThreeDSAuthResult>)
    ensures
        final(out)@ == old(out)@ + spec_json_auth_result(
            match *o {
                Some(r) => Some(r@),
                None => None,
            },
        ),
{
    match o {
        Some(r) => {
            out.append("{\"authenticationValue\":");
            append_opt_string(out, &r.authentication_value);
            out.append("}");
            assert(final(out)@ =~= old(out)@ + spec_json_auth_result(Some(r@)));
        },
        None => {
            out.append("null");
            assert(final(out)@ =~= old(out)@ + "null"@);
        },
    }
}

/// Writes a metadata value as its canonical blob.
pub fn encode_metadata(m: &NexixpayConnectorMetaData) -> (r: String)
    ensures
        r@ == spec_encode_metadata(m@),
{
    let mut out = String::new();
    out.append("{\"threeDSAuthResult\":");
    append_auth_result(&mut out, &m.three_d_s_auth_result);
    out.append(",\"threeDSAuthResponse\":");
    append_opt_string(&mut out, &m.three_d_s_auth_response);
    out.append(",\"authorizationOperationId\":");
    append_opt_string(&mut out, &m.authorization_operation_id);
    out.append(",\"captureOperationId\":");
    append_opt_string(&mut out, &m.capture_operation_id);
    out.append(",\"cancelOperationId\":");
    append_opt_string(&mut out, &m.cancel_operation_id);
    out.append(",\"psyncFlow\":");
    match m.psync_flow {
        NexixpayPaymentIntent::Capture => append_json_string(&mut out, "Capture"),
        NexixpayPaymentIntent::Cancel => append_json_string(&mut out, "Cancel"),
        NexixpayPaymentIntent::Authorize => append_json_string(&mut out, "Authorize"),
    }
    out.append("}");
    proof {
        assert(out@ =~= spec_encode_metadata(m@));
    }
    out
}

/// The characters of a string, in order.
fn str_chars(s: &str) -> (r: Vec<char>)
    ensures
        r@ == s@,
{
    let n = s.unicode_len();
    let mut r: Vec<char> = Vec::new();
    let mut i: usize = 0;
    while i < n
        invariant
            i <= n,
            n == s@.len(),
            r@ == s@.take(i as int),
        decreases n - i,
    {
        let c = s.get_char(i);
        r.push(c);
        proof {
            assert(s@.take(i as int + 1) =~= s@.take(i as int).push(s@[i as int]));
        }
        i = i + 1;
    }
    proof {
        assert(s@.take(n as int) =~= s@);
    }
    r
}

/// Consumes an exact literal from the front of the input; yields the rest.
pub open spec fn spec_parse_lit(s: Seq<char>, lit: Seq<char>) -> Option<Seq<char>> {
    if lit.len() <= s.len() && s.take(lit.len() as int) == lit {
        Some(s.skip(lit.len() as int))
    } else {
        None
    }
}

/// The character a control escape stands for.
pub open spec fn spec_char_of_code(n: int) -> char {
    (n as u8) as char
}

/// Consumes the body of a JSON string up to and including the closing quote;
/// yields the unescaped content and the rest. Accepts exactly what the
/// encoder writes: backslash escapes for quote and backslash, `\u00` escapes
/// for control characters, raw characters otherwise.
pub open spec fn spec_parse_string_body(s: Seq<char>) -> Option<(Seq<char>, Seq<char>)>
    decreases s.len(),
{
    if s.len() == 0 {
        None
    } else if s[0] == '"' {
        Some((Seq::empty(), s.skip(1)))
    } else if s[0] == '\\' {
        if s.len() >= 2 && (s[1] == '"' || s[1] == '\\') {
            match spec_parse_string_body(s.skip(2)) {
                Some((t, r)) => Some((seq![s[1]] + t, r)),
                None => None,
            }
        } else if s.len() >= 6 && s[1] == 'u' && s[2] == '0' && s[3] == '0' && spec_is_hex(s[4])
            && spec_is_hex(s[5]) && spec_hex_val(s[4]) * 16 + spec_hex_val(s[5]) < 32 {
            match spec_parse_string_body(s.skip(6)) {
                Some((t, r)) => Some(
                    (seq![spec_char_of_code(spec_hex_val(s[4]) * 16 + spec_hex_val(s[5]))] + t, r),
                ),
                None => None,
            }
        } else {
            None
        }
    } else if 32 <= s[0] as u32 {
        match spec_parse_string_body(s.skip(1)) {
            Some((t, r)) => Some((seq![s[0]] + t, r)),
            None => None,
        }
    } else {
        None
    }
}

/// Consumes a quoted JSON string; yields the unescaped content and the rest.
pub open spec fn spec_parse_json_string(s: Seq<char>) -> Option<(Seq<char>, Seq<char>)> {
    if s.len() >= 1 && s[0] == '"' {
        spec_parse_string_body(s.skip(1))
    } else {
        None
    }
}

/// Consumes a JSON string or `null`; yields the optional content and the
/// rest.
pub open spec fn spec_parse_opt_string(s: Seq<char>) -> Option<(Option<Seq<char>>, Seq<char>)> {
    match spec_parse_lit(s, "null"@) {
        Some(r) => Some((None, r)),
        None => match spec_parse_json_string(s) {
            Some((t, r)) => Some((Some(t), r)),
            None => None,
        },
    }
}

/// Consumes a 3-D-Secure authentication result object or `null`.
pub open spec fn spec_parse_auth_result(s: Seq<char>) -> Option<
    (Option<ThreeDSAuthResultView>, Seq<char>),
> {
    match spec_parse_lit(s, "null"@) {
        Some(r) => Some((None, r)),
        None => match spec_parse_lit(s, "{\"authenticationValue\":"@) {
            Some(r1) => match spec_parse_opt_string(r1) {
                Some((v, r2)) => match spec_parse_lit(r2, "}"@) {
                    Some(r3) => Some(
                        (Some(ThreeDSAuthResultView { authentication_value: v }), r3),
                    ),
                    None => None,
                },
                None => None,
            },
            None => None,
        },
    }
}

/// Consumes a sync-flow hint written as a JSON string.
pub open spec fn spec_parse_intent(s: Seq<char>) -> Option<(NexixpayPaymentIntent, Seq<char>)> {
    match spec_parse_json_string(s) {
        Some((t, r)) => if t == "Capture"@ {
            Some((NexixpayPaymentIntent::Capture, r))
        } else if t == "Cancel"@ {
            Some((NexixpayPaymentIntent::Cancel, r))
        } else if t == "Authorize"@ {
            Some((NexixpayPaymentIntent::Authorize, r))
        } else {
            None
        },
        None => None,
    }
}

/// The metadata value a blob stands for, where the blob is exactly one
/// canonical encoding; nothing otherwise.
pub open spec fn spec_decode_metadata(s: Seq<char>) -> Option<MetaDataView> {
    match spec_parse_lit(s, "{\"threeDSAuthResult\":"@) {
        Some(r1) => match spec_parse_auth_result(r1) {
            Some((auth_result, r2)) => match spec_parse_lit(r2, ",\"threeDSAuthResponse\":"@) {
                Some(r3) => match spec_parse_opt_string(r3) {
                    Some((auth_response, r4)) => match spec_parse_lit(
                        r4,
                        ",\"authorizationOperationId\":"@,
                    ) {
                        Some(r5) => match spec_parse_opt_string(r5) {
                            Some((authorization_id, r6)) => match spec_parse_lit(
                                r6,
                                ",\"captureOperationId\":"@,
                            ) {
                                Some(r7) => match spec_parse_opt_string(r7) {
                                    Some((capture_id, r8)) => match spec_parse_lit(
                                        r8,
                                        ",\"cancelOperationId\":"@,
                                    ) {
                                        Some(r9) => match spec_parse_opt_string(r9) {
                                            Some((cancel_id, r10)) => match spec_parse_lit(
                                                r10,
                                                ",\"psyncFlow\":"@,
                                            ) {
                                                Some(r11) => match spec_parse_intent(r11) {
                                                    Some((intent, r12)) => match spec_parse_lit(
                                                        r12,
                                                        "}"@,
                                                    ) {
                                                        Some(r13) => if r13.len() == 0 {
                                                            Some(
                                                                MetaDataView {
                                                                    three_d_s_auth_result:
                                                                        auth_result,
                                                                    three_d_s_auth_response:
                                                                        auth_response,
                                                                    authorization_operation_id:
                                                                        authorization_id,
                                                                    capture_operation_id:
                                                                        capture_id,
                                                                    cancel_operation_id: cancel_id,
                                                                    psync_flow: intent,
                                                                },
                                                            )
                                                        } else {
                                                            None
                                                        },
                                                        None => None,
                                                    },
                                                    None => None,
                                                },
                                                None => None,
                                            },
                                            None => None,
                                        },
                                        None => None,
                                    },
                                    None => None,
                                },
                                None => None,
                            },
                            None => None,
                        },
                        None => None,
                    },
                    None => None,
                },
                None => None,
            },
            None => None,
        },
        None => None,
    }
}

/// The two logical fields of a redirect-callback payload, where the payload
/// is exactly one canonical encoding: the authentication response token and
/// the operation id; nothing otherwise.
pub open spec fn spec_decode_redirect(s: Seq<char>) -> Option<
    (Option<Seq<char>>, Option<Seq<char>>),
> {
    match spec_parse_lit(s, "{\"PaRes\":"@) {
        Some(r1) => match spec_parse_opt_string(r1) {
            Some((pa_res, r2)) => match spec_parse_lit(r2, ",\"paymentId\":"@) {
                Some(r3) => match spec_parse_opt_string(r3) {
                    Some((payment_id, r4)) => match spec_parse_lit(r4, "}"@) {
                        Some(r5) => if r5.len() == 0 {
                            Some((pa_res, payment_id))
                        } else {
                            None
                        },
                        None => None,
                    },
                    None => None,
                },
                None => None,
            },
            None => None,
        },
        None => None,
    }
}

/// Whether a character is a lowercase hexadecimal digit.
fn is_hex(c: char) -> (r: bool)
    ensures
        r == spec_is_hex(c),
{
    ('0' <= c && c <= '9') || ('a' <= c && c <= 'f')
}

/// The value of a lowercase hexadecimal digit.
fn hex_val(c: char) -> (r: u32)
    requires
        spec_is_hex(c),
    ensures
        r as int == spec_hex_val(c),
        r < 16,
{
    if '0' <= c && c <= '9' {
        (c as u32) - ('0' as u32)
    } else {
        (c as u32) - ('a' as u32) + 10
    }
}

/// Consumes an exact literal at a position of the input.
fn parse_lit(v: &Vec<char>, i: usize, lit: &str) -> (r: Option<usize>)
    requires
        i <= v@.len(),
    ensures
        match r {
            Some(j) => {
                &&& i <= j <= v@.len()
                &&& spec_parse_lit(v@.skip(i as int), lit@) == Some(v@.skip(j as int))
            },
            None => spec_parse_lit(v@.skip(i as int), lit@) is None,
        },
{
    let n = lit.unicode_len();
    if v.len() - i < n {
        assert(v@.skip(i as int).len() < lit@.len());
        return None;
    }
    let mut j: usize = 0;
    while j < n
        invariant
            j <= n,
            n == lit@.len(),
            i <= v@.len(),
            n <= v@.len() - i,
            v@.len() <= usize::MAX,
            forall|k: int| 0 <= k < j ==> v@[i + k] == lit@[k],
        decreases n - j,
    {
        let c = v[i + j];
        let l = lit.get_char(j);
        if c != l {
            proof {
                let s = v@.skip(i as int);
                assert(s[j as int] == v@[i + j]);
                assert(s.take(n as int) != lit@) by {
                    assert(s.take(n as int)[j as int] != lit@[j as int]);
                }
            }
            return None;
        }
        j = j + 1;
    }
    proof {
        let s = v@.skip(i as int);
        assert(s.take(n as int) =~= lit@);
        assert(s.skip(n as int) =~= v@.skip(i as int + n as int));
    }
    Some(i + n)
}

/// Consumes the body of a JSON string up to and including the closing quote.
fn parse_string_body(v: &Vec<char>, i: usize) -> (r: Option<(String, usize)>)
    requires
        i <= v@.len(),
    ensures
        match r {
            Some((t, j)) => {
                &&& i <= j <= v@.len()
                &&& spec_parse_string_body(v@.skip(i as int)) == Some((t@, v@.skip(j as int)))
            },
            None => spec_parse_string_body(v@.skip(i as int)) is None,
        },
    decreases v@.len() - i,
{
    let ghost s = v@.skip(i as int);
    if i == v.len() {
        return None;
    }
    assert(s[0] == v@[i as int]);
    let c = v[i];
    if c == '"' {
        proof {
            assert(s.skip(1) =~= v@.skip(i as int + 1));
        }
        Some((String::new(), i + 1))
    } else if c == '\\' {
        if v.len() - i >= 2 && (v[i + 1] == '"' || v[i + 1] == '\\') {
            assert(s.len() >= 2 && s[1] == v@[i as int + 1]);
            proof {
                assert(s.skip(2) =~= v@.skip(i as int + 2));
            }
            let e = v[i + 1];
            match parse_string_body(v, i + 2) {
                Some((t, j)) => {
                    let mut out = String::new();
                    out.push(e);
                    out.append(t.as_str());
                    proof {
                        assert(out@ =~= seq![s[1]] + t@);
                    }
                    Some((out, j))
                },
                None => None,
            }
        } else if v.len() - i >= 6 && v[i + 1] == 'u' && v[i + 2] == '0' && v[i + 3] == '0'
            && is_hex(v[i + 4]) && is_hex(v[i + 5]) && hex_val(v[i + 4]) * 16 + hex_val(v[i + 5])
            < 32 {
            assert(s.len() >= 6);
            assert(s[1] == v@[i as int + 1] && s[2] == v@[i as int + 2] && s[3] == v@[i as int + 3]
                && s[4] == v@[i as int + 4] && s[5] == v@[i as int + 5]);
            proof {
                assert(s.skip(6) =~= v@.skip(i as int + 6));
            }
            let code = hex_val(v[i + 4]) * 16 + hex_val(v[i + 5]);
            let ch = (code as u8) as char;
            match parse_string_body(v, i + 6) {
                Some((t, j)) => {
                    let mut out = String::new();
                    out.push(ch);
                    out.append(t.as_str());
                    proof {
                        assert(out@ =~= seq![spec_char_of_code(spec_hex_val(s[4]) * 16
                            + spec_hex_val(s[5]))] + t@);
                    }
                    Some((out, j))
                },
                None => None,
            }
        } else {
            assert(spec_parse_string_body(s) is None) by {
                if s.len() >= 2 && (s[1] == '"' || s[1] == '\\') {
                    assert(v@[i as int + 1] == s[1]);
                }
            }
            None
        }
    } else if 32 <= c as u32 {
        proof {
            assert(s.skip(1) =~= v@.skip(i as int + 1));
        }
        match parse_string_body(v, i + 1) {
            Some((t, j)) => {
                let mut out = String::new();
                out.push(c);
                out.append(t.as_str());
                proof {
                    assert(out@ =~= seq![s[0]] + t@);
                }
                Some((out, j))
            },
            None => None,
        }
    } else {
        None
    }
}

/// Consumes a quoted JSON string.
fn parse_json_string(v: &Vec<char>, i: usize) -> (r: Option<(String, usize)>)
    requires
        i <= v@.len(),
    ensures
        match r {
            Some((t, j)) => {
                &&& i <= j <= v@.len()
                &&& spec_parse_json_string(v@.skip(i as int)) == Some((t@, v@.skip(j as int)))
            },
            None => spec_parse_json_string(v@.skip(i as int)) is None,
        },
{
    let ghost s = v@.skip(i as int);
    if i < v.len() && v[i] == '"' {
        assert(s[0] == v@[i as int]);
        proof {
            assert(s.skip(1) =~= v@.skip(i as int + 1));
        }
        parse_string_body(v, i + 1)
    } else {
        None
    }
}

/// Consumes a JSON string or `null`.
fn parse_opt_string(v: &Vec<char>, i: usize) -> (r: Option<(Option<String>, usize)>)
    requires
        i <= v@.len(),
    ensures
        match r {
            Some((t, j)) => {
                &&& i <= j <= v@.len()
                &&& spec_parse_opt_string(v@.skip(i as int)) == Some(
                    (crate::metadata::opt_str_view(t), v@.skip(j as int)),
                )
            },
            None => spec_parse_opt_string(v@.skip(i as int)) is None,
        },
{
    match parse_lit(v, i, "null") {
        Some(j) => Some((None, j)),
        None => match parse_json_string(v, i) {
            Some((t, j)) => Some((Some(t), j)),
            None => None,
        },
    }
}

/// Consumes a 3-D-Secure authentication result object or `null`.
fn parse_auth_result(v: &Vec<char>, i: usize) -> (r: Option<(Option<ThreeDSAuthResult>, usize)>)
    requires
        i <= v@.len(),
    ensures
        match r {
            Some((t, j)) => {
                &&& i <= j <= v@.len()
                &&& spec_parse_auth_result(v@.skip(i as int)) == Some(
                    (
                        match t {
                            Some(a) => Some(a@),
                            None => None,
                        },
                        v@.skip(j as int),
                    ),
                )
            },
            None => spec_parse_auth_result(v@.skip(i as int)) is None,
        },
{
    match parse_lit(v, i, "null") {
        Some(j) => Some((None, j)),
        None => match parse_lit(v, i, "{\"authenticationValue\":") {
            Some(j1) => match parse_opt_string(v, j1) {
                Some((val, j2)) => match parse_lit(v, j2, "}") {
                    Some(j3) => Some(
                        (Some(ThreeDSAuthResult { authentication_value: val }), j3),
                    ),
                    None => None,
                },
                None => None,
            },
            None => None,
        },
    }
}

/// Consumes a sync-flow hint written as a JSON string.
fn parse_intent(v: &Vec<char>, i: usize) -> (r: Option<(NexixpayPaymentIntent, usize)>)
    requires
        i <= v@.len(),
    ensures
        match r {
            Some((t, j)) => {
                &&& i <= j <= v@.len()
                &&& spec_parse_intent(v@.skip(i as int)) == Some((t, v@.skip(j as int)))
            },
            None => spec_parse_intent(v@.skip(i as int)) is None,
        },
{
    match parse_json_string(v, i) {
        Some((t, j)) => {
            if t == "Capture".to_owned() {
                Some((NexixpayPaymentIntent::Capture, j))
            } else if t == "Cancel".to_owned() {
                Some((NexixpayPaymentIntent::Cancel, j))
            } else if t == "Authorize".to_owned() {
                Some((NexixpayPaymentIntent::Authorize, j))
            } else {
                None
            }
        },
        None => None,
    }
}

/// Reads a metadata value back from its blob; fails with a parsing error on
/// anything but a canonical encoding.
pub fn decode_metadata(s: &str) -> (r: Result<NexixpayConnectorMetaData, ConnectorError>)
    ensures
        match r {
            Ok(m) => spec_decode_metadata(s@) == Some(m@),
            Err(e) => spec_decode_metadata(s@) is None && e matches
                ConnectorError::ParsingFailed,
        },
{
    let v = str_chars(s);
    proof {
        assert(v@.skip(0) =~= s@);
    }
    let j1 = match parse_lit(&v, 0, "{\"threeDSAuthResult\":") {
        Some(j) => j,
        None => {
            return Err(ConnectorError::ParsingFailed);
        },
    };
    let (auth_result, j2) = match parse_auth_result(&v, j1) {
        Some(p) => p,
        None => {
            return Err(ConnectorError::ParsingFailed);
        },
    };
    let j3 = match parse_lit(&v, j2, ",\"threeDSAuthResponse\":") {
        Some(j) => j,
        None => {
            return Err(ConnectorError::ParsingFailed);
        },
    };
    let (auth_response, j4) = match parse_opt_string(&v, j3) {
        Some(p) => p,
        None => {
            return Err(ConnectorError::ParsingFailed);
        },
    };
    let j5 = match parse_lit(&v, j4, ",\"authorizationOperationId\":") {
        Some(j) => j,
        None => {
            return Err(ConnectorError::ParsingFailed);
        },
    };
    let (authorization_id, j6) = match parse_opt_string(&v, j5) {
        Some(p) => p,
        None => {
            return Err(ConnectorError::ParsingFailed);
        },
    };
    let j7 = match parse_lit(&v, j6, ",\"captureOperationId\":") {
        Some(j) => j,
        None => {
            return Err(ConnectorError::ParsingFailed);
        },
    };
    let (capture_id, j8) = match parse_opt_string(&v, j7) {
        Some(p) => p,
        None => {
            return Err(ConnectorError::ParsingFailed);
        },
    };
    let j9 = match parse_lit(&v, j8, ",\"cancelOperationId\":") {
        Some(j) => j,
        None => {
            return Err(ConnectorError::ParsingFailed);
        },
    };
    let (cancel_id, j10) = match parse_opt_string(&v, j9) {
        Some(p) => p,
        None => {
            return Err(ConnectorError::ParsingFailed);
        },
    };
    let j11 = match parse_lit(&v, j10, ",\"psyncFlow\":") {
        Some(j) => j,
        None => {
            return Err(ConnectorError::ParsingFailed);
        },
    };
    let (intent, j12) = match parse_intent(&v, j11) {
        Some(p) => p,
        None => {
            return Err(ConnectorError::ParsingFailed);
        },
    };
    let j13 = match parse_lit(&v, j12, "}") {
        Some(j) => j,
        None => {
            return Err(ConnectorError::ParsingFailed);
        },
    };
    if j13 != v.len() {
        assert(v@.skip(j13 as int).len() > 0);
        return Err(ConnectorError::ParsingFailed);
    }
    assert(v@.skip(j13 as int).len() == 0);
    Ok(
        NexixpayConnectorMetaData {
            three_d_s_auth_result: auth_result,
            three_d_s_auth_response: auth_response,
            authorization_operation_id: authorization_id,
            capture_operation_id: capture_id,
            cancel_operation_id: cancel_id,
            psync_flow: intent,
        },
    )
}

/// Reads the two logical fields back from a redirect-callback payload;
/// yields nothing on anything but a canonical encoding.
pub fn decode_redirect_payload(s: &str) -> (r: Option<(Option<String>, Option<String>)>)
    ensures
        match r {
            Some((pa_res, payment_id)) => spec_decode_redirect(s@) == Some(
                (
                    crate::metadata::opt_str_view(pa_res),
                    crate::metadata::opt_str_view(payment_id),
                ),
            ),
            None => spec_decode_redirect(s@) is None,
        },
{
    let v = str_chars(s);
    proof {
        assert(v@.skip(0) =~= s@);
    }
    let j1 = match parse_lit(&v, 0, "{\"PaRes\":") {
        Some(j) => j,
        None => {
            return None;
        },
    };
    let (pa_res, j2) = match parse_opt_string(&v, j1) {
        Some(p) => p,
        None => {
            return None;
        },
    };
    let j3 = match parse_lit(&v, j2, ",\"paymentId\":") {
        Some(j) => j,
        None => {
            return None;
        },
    };
    let (payment_id, j4) = match parse_opt_string(&v, j3) {
        Some(p) => p,
        None => {
            return None;
        },
    };
    let j5 = match parse_lit(&v, j4, "}") {
        Some(j) => j,
        None => {
            return None;
        },
    };
    if j5 != v.len() {
        assert(v@.skip(j5 as int).len() > 0);
        return None;
    }
    assert(v@.skip(j5 as int).len() == 0);
    Some((pa_res, payment_id))
}

/// A literal at the front of the input is consumed exactly.
proof fn lemma_parse_lit_prefix(lit: Seq<char>, rest: Seq<char>)
    ensures
        spec_parse_lit(lit + rest, lit) == Some(rest),
{
    let s = lit + rest;
    assert(s.take(lit.len() as int) =~= lit);
    assert(s.skip(lit.len() as int) =~= rest);
}

/// A hexadecimal digit written by the encoder reads back as its value.
proof fn lemma_hex_digit_val(n: int)
    requires
        0 <= n < 16,
    ensures
        spec_is_hex(spec_hex_digit(n)),
        spec_hex_val(spec_hex_digit(n)) == n,
{
}

/// A control character's scalar value is below thirty-two and survives the
/// trip through its escape code.
proof fn lemma_control_char_code(c: char)
    requires
        (c as u32) < 32,
    ensures
        0 <= (c as int) && (c as int) < 32,
        spec_char_of_code(c as int) == c,
{
}

/// The string-body parser inverts the escaper: an escaped content followed
/// by the closing quote and anything else reads back as that content, with
/// the rest untouched.
proof fn lemma_parse_string_body_escape(s: Seq<char>, rest: Seq<char>)
    ensures
        spec_parse_string_body(spec_escape(s) + seq!['"'] + rest) == Some((s, rest)),
    decreases s.len(),
{
    let input = spec_escape(s) + seq!['"'] + rest;
    if s.len() == 0 {
        assert(spec_escape(s) =~= Seq::<char>::empty());
        assert(input =~= seq!['"'] + rest);
        assert(input[0] == '"');
        assert(input.skip(1) =~= rest);
        assert(s =~= Seq::<char>::empty());
    } else {
        let c = s[0];
        let tail = s.skip(1);
        lemma_parse_string_body_escape(tail, rest);
        let tail_input = spec_escape(tail) + seq!['"'] + rest;
        assert(input =~= spec_escape_char(c) + tail_input);
        assert(seq![c] + tail =~= s);
        if c == '"' {
            assert(input[0] == '\\' && input[1] == '"');
            assert(input.skip(2) =~= tail_input);
            assert(spec_parse_string_body(input) == Some((seq![input[1]] + tail, rest)));
        } else if c == '\\' {
            assert(input[0] == '\\' && input[1] == '\\');
            assert(input.skip(2) =~= tail_input);
            assert(spec_parse_string_body(input) == Some((seq![input[1]] + tail, rest)));
        } else if (c as u32) < 32 {
            let n = c as int;
            lemma_control_char_code(c);
            lemma_hex_digit_val(n / 16);
            lemma_hex_digit_val(n % 16);
            assert(input[0] == '\\' && input[1] == 'u' && input[2] == '0' && input[3] == '0');
            assert(input[4] == spec_hex_digit(n / 16) && input[5] == spec_hex_digit(n % 16));
            assert(input.skip(6) =~= tail_input);
            assert(spec_hex_val(input[4]) * 16 + spec_hex_val(input[5]) == n);
            assert(spec_char_of_code(n) == c);
            assert(spec_parse_string_body(input) == Some((seq![c] + tail, rest)));
        } else {
            assert(input[0] == c);
            assert(input.skip(1) =~= tail_input);
            assert(spec_parse_string_body(input) == Some((seq![c] + tail, rest)));
        }
    }
}

/// The quoted-string parser inverts the string encoder.
proof fn lemma_parse_json_string_encode(s: Seq<char>, rest: Seq<char>)
    ensures
        spec_parse_json_string(spec_json_string(s) + rest) == Some((s, rest)),
{
    let input = spec_json_string(s) + rest;
    assert(input[0] == '"');
    assert(input.skip(1) =~= spec_escape(s) + seq!['"'] + rest);
    lemma_parse_string_body_escape(s, rest);
}

/// An input that does not start with `n` is no `null` literal.
proof fn lemma_parse_lit_null_mismatch(s: Seq<char>)
    requires
        s.len() > 0,
        s[0] != 'n',
    ensures
        spec_parse_lit(s, "null"@) is None,
{
    reveal_strlit("null");
    if "null"@.len() <= s.len() && s.take("null"@.len() as int) == "null"@ {
        assert(s.take(4)[0] == s[0]);
        assert(false);
    }
}

/// The optional-string parser inverts the optional-string encoder.
proof fn lemma_parse_opt_string_encode(o: Option<Seq<char>>, rest: Seq<char>)
    ensures
        spec_parse_opt_string(spec_json_opt_string(o) + rest) == Some((o, rest)),
{
    let input = spec_json_opt_string(o) + rest;
    match o {
        None => {
            reveal_strlit("null");
            lemma_parse_lit_prefix("null"@, rest);
        },
        Some(s) => {
            assert(input[0] == '"');
            lemma_parse_lit_null_mismatch(input);
            lemma_parse_json_string_encode(s, rest);
            assert(spec_json_string(s) + rest =~= input);
        },
    }
}

/// The authentication-result parser inverts its encoder.
proof fn lemma_parse_auth_result_encode(o: Option<ThreeDSAuthResultView>, rest: Seq<char>)
    ensures
        spec_parse_auth_result(spec_json_auth_result(o) + rest) == Some((o, rest)),
{
    let input = spec_json_auth_result(o) + rest;
    match o {
        None => {
            reveal_strlit("null");
            lemma_parse_lit_prefix("null"@, rest);
        },
        Some(r) => {
            let key = "{\"authenticationValue\":"@;
            reveal_strlit("{\"authenticationValue\":");
            assert(input[0] == '{');
            lemma_parse_lit_null_mismatch(input);
            let mid = spec_json_opt_string(r.authentication_value) + ("}"@ + rest);
            assert(input =~= key + mid);
            lemma_parse_lit_prefix(key, mid);
            lemma_parse_opt_string_encode(r.authentication_value, "}"@ + rest);
            lemma_parse_lit_prefix("}"@, rest);
        },
    }
}

/// The three sync-flow spellings are pairwise distinct.
proof fn lemma_intent_names_distinct()
    ensures
        "Capture"@ != "Cancel"@,
        "Capture"@ != "Authorize"@,
        "Cancel"@ != "Authorize"@,
{
    reveal_strlit("Capture");
    reveal_strlit("Cancel");
    reveal_strlit("Authorize");
    assert("Capture"@.len() == 7);
    assert("Cancel"@.len() == 6);
    assert("Authorize"@.len() == 9);
}

/// The sync-flow parser inverts its encoder.
proof fn lemma_parse_intent_encode(i: NexixpayPaymentIntent, rest: Seq<char>)
    ensures
        spec_parse_intent(spec_json_string(spec_intent_name(i)) + rest) == Some((i, rest)),
{
    lemma_parse_json_string_encode(spec_intent_name(i), rest);
    lemma_intent_names_distinct();
}

/// Concatenation of character sequences is associative.
proof fn lemma_concat_assoc(a: Seq<char>, b: Seq<char>, c: Seq<char>)
    ensures
        a + (b + c) == (a + b) + c,
{
    assert(a + (b + c) =~= (a + b) + c);
}

/// Decoding inverts encoding: every metadata value reads back unchanged
/// from its canonical blob.
#[verifier::rlimit(100)]
#[verifier::spinoff_prover]
pub proof fn lemma_metadata_round_trip(m: MetaDataView)
    ensures
        spec_decode_metadata(spec_encode_metadata(m)) == Some(m),
{
    let k1 = "{\"threeDSAuthResult\":"@;
    let k2 = ",\"threeDSAuthResponse\":"@;
    let k3 = ",\"authorizationOperationId\":"@;
    let k4 = ",\"captureOperationId\":"@;
    let k5 = ",\"cancelOperationId\":"@;
    let k6 = ",\"psyncFlow\":"@;
    let k7 = "}"@;
    let v1 = spec_json_auth_result(m.three_d_s_auth_result);
    let v2 = spec_json_opt_string(m.three_d_s_auth_response);
    let v3 = spec_json_opt_string(m.authorization_operation_id);
    let v4 = spec_json_opt_string(m.capture_operation_id);
    let v5 = spec_json_opt_string(m.cancel_operation_id);
    let v6 = spec_json_string(spec_intent_name(m.psync_flow));
    let r13 = Seq::<char>::empty();
    let r12 = k7 + r13;
    let r11 = v6 + r12;
    let r10 = k6 + r11;
    let r9 = v5 + r10;
    let r8 = k5 + r9;
    let r7 = v4 + r8;
    let r6 = k4 + r7;
    let r5 = v3 + r6;
    let r4 = k3 + r5;
    let r3 = v2 + r4;
    let r2 = k2 + r3;
    let r1 = v1 + r2;
    let input = k1 + r1;
    let e1 = k1 + v1;
    let e2 = e1 + k2;
    let e3 = e2 + v2;
    let e4 = e3 + k3;
    let e5 = e4 + v3;
    let e6 = e5 + k4;
    let e7 = e6 + v4;
    let e8 = e7 + k5;
    let e9 = e8 + v5;
    let e10 = e9 + k6;
    let e11 = e10 + v6;
    let e12 = e11 + k7;
    assert(input == e12) by {
        lemma_concat_assoc(k1, v1, r2);
        lemma_concat_assoc(e1, k2, r3);
        lemma_concat_assoc(e2, v2, r4);
        lemma_concat_assoc(e3, k3, r5);
        lemma_concat_assoc(e4, v3, r6);
        lemma_concat_assoc(e5, k4, r7);
        lemma_concat_assoc(e6, v4, r8);
        lemma_concat_assoc(e7, k5, r9);
        lemma_concat_assoc(e8, v5, r10);
        lemma_concat_assoc(e9, k6, r11);
        lemma_concat_assoc(e10, v6, r12);
        lemma_concat_assoc(e11, k7, r13);
        assert(e12 + r13 =~= e12);
    }
    assert(spec_encode_metadata(m) == e12);
    assert(spec_parse_lit(input, k1) == Some(r1)) by {
        lemma_parse_lit_prefix(k1, r1);
    }
    assert(spec_parse_auth_result(r1) == Some((m.three_d_s_auth_result, r2))) by {
        lemma_parse_auth_result_encode(m.three_d_s_auth_result, r2);
    }
    assert(spec_parse_lit(r2, k2) == Some(r3)) by {
        lemma_parse_lit_prefix(k2, r3);
    }
    assert(spec_parse_opt_string(r3) == Some((m.three_d_s_auth_response, r4))) by {
        lemma_parse_opt_string_encode(m.three_d_s_auth_response, r4);
    }
    assert(spec_parse_lit(r4, k3) == Some(r5)) by {
        lemma_parse_lit_prefix(k3, r5);
    }
    assert(spec_parse_opt_string(r5) == Some((m.authorization_operation_id, r6))) by {
        lemma_parse_opt_string_encode(m.authorization_operation_id, r6);
    }
    assert(spec_parse_lit(r6, k4) == Some(r7)) by {
        lemma_parse_lit_prefix(k4, r7);
    }
    assert(spec_parse_opt_string(r7) == Some((m.capture_operation_id, r8))) by {
        lemma_parse_opt_string_encode(m.capture_operation_id, r8);
    }
    assert(spec_parse_lit(r8, k5) == Some(r9)) by {
        lemma_parse_lit_prefix(k5, r9);
    }
    assert(spec_parse_opt_string(r9) == Some((m.cancel_operation_id, r10))) by {
        lemma_parse_opt_string_encode(m.cancel_operation_id, r10);
    }
    assert(spec_parse_lit(r10, k6) == Some(r11)) by {
        lemma_parse_lit_prefix(k6, r11);
    }
    assert(spec_parse_intent(r11) == Some((m.psync_flow, r12))) by {
        lemma_parse_intent_encode(m.psync_flow, r12);
    }
    assert(spec_parse_lit(r12, k7) == Some(r13)) by {
        lemma_parse_lit_prefix(k7, r13);
    }
    assert(r13.len() == 0);
}

} // verus!
