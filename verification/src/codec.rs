//! The envelope's wire format: a fixed JSON shape
//! `{"success":B,"message":"M","data":D}` with `D` either `null` or a JSON
//! string. Rendering and parsing are inverse to each other, proved below.
//! Inside strings the quote, the backslash, newline, carriage return and tab
//! are escaped; other characters pass through unchanged.

use vstd::prelude::*;

use crate::envelope::ApiResponse;

verus! {

use vstd::string::StrSliceExecFns;
use vstd::string::StringExecFns;

/// Relies on `String::push`: appends exactly one character.
#[verifier::external_body]
fn push_char(s: &mut String, c: char)
    ensures
        final(s)@ == old(s)@.push(c),
{
    s.push(c);
}

/// The escape sequence a character is written as inside a JSON string.
pub open spec fn esc_char(c: char) -> Seq<char> {
    if c == '"' {
        seq!['\\', '"']
    } else if c == '\\' {
        seq!['\\', '\\']
    } else if c == '\n' {
        seq!['\\', 'n']
    } else if c == '\r' {
        seq!['\\', 'r']
    } else if c == '\t' {
        seq!['\\', 't']
    } else {
        seq![c]
    }
}

/// A string's characters, each escaped.
pub open spec fn spec_escape(s: Seq<char>) -> Seq<char>
    decreases s.len(),
{
    if s.len() == 0 {
        Seq::empty()
    } else {
        esc_char(s[0]) + spec_escape(s.skip(1))
    }
}

fn escape(s: &str) -> (r: String)
    ensures
        r@ == spec_escape(s@),
{
    let n = s.unicode_len();
    let mut out = String::new();
    let mut i: usize = 0;
    proof {
        assert(s@.skip(0) =~= s@);
        assert(Seq::<char>::empty() + spec_escape(s@) =~= spec_escape(s@));
    }
    while i < n
        invariant
            i <= n,
            n == s@.len(),
            spec_escape(s@) == out@ + spec_escape(s@.skip(i as int)),
        decreases n - i,
    {
        let ghost out0 = out@;
        let c = s.get_char(i);
        proof {
            assert(s@.skip(i as int)[0] == c);
            assert(s@.skip(i as int).skip(1) =~= s@.skip(i + 1));
            assert(spec_escape(s@.skip(i as int)) == esc_char(c) + spec_escape(s@.skip(i + 1)));
        }
        if c == '"' {
            push_char(&mut out, '\\');
            push_char(&mut out, '"');
        } else if c == '\\' {
            push_char(&mut out, '\\');
            push_char(&mut out, '\\');
        } else if c == '\n' {
            push_char(&mut out, '\\');
            push_char(&mut out, 'n');
        } else if c == '\r' {
            push_char(&mut out, '\\');
            push_char(&mut out, 'r');
        } else if c == '\t' {
            push_char(&mut out, '\\');
            push_char(&mut out, 't');
        } else {
            push_char(&mut out, c);
        }
        proof {
            assert(out@ =~= out0 + esc_char(c));
            assert(out0 + (esc_char(c) + spec_escape(s@.skip(i + 1))) =~= (out0 + esc_char(c))
                + spec_escape(s@.skip(i + 1)));
        }
        i += 1;
    }
    proof {
        assert(s@.skip(n as int) =~= Seq::<char>::empty());
        assert(out@ =~= spec_escape(s@));
    }
    out
}

/// Parse the body of a JSON string up to and including its closing quote:
/// the unescaped content and how many characters were consumed.
pub open spec fn spec_parse_string_body(t: Seq<char>) -> Option<(Seq<char>, int)>
    decreases t.len(),
{
    if t.len() == 0 {
        None
    } else if t[0] == '"' {
        Some((Seq::empty(), 1))
    } else if t[0] == '\\' {
        if t.len() < 2 {
            None
        } else {
            let u = unesc_char(t[1]);
            match u {
                Some(c) => match spec_parse_string_body(t.skip(2)) {
                    Some((content, n)) => Some((seq![c] + content, n + 2)),
                    None => None,
                },
                None => None,
            }
        }
    } else {
        match spec_parse_string_body(t.skip(1)) {
            Some((content, n)) => Some((seq![t[0]] + content, n + 1)),
            None => None,
        }
    }
}

/// The character an escape sequence `\x` stands for, if `x` is accepted.
pub open spec fn unesc_char(x: char) -> Option<char> {
    if x == '"' {
        Some('"')
    } else if x == '\\' {
        Some('\\')
    } else if x == 'n' {
        Some('\n')
    } else if x == 'r' {
        Some('\r')
    } else if x == 't' {
        Some('\t')
    } else {
        None
    }
}

fn parse_string_body(s: &str, i: usize) -> (r: Option<(String, usize)>)
    requires
        i <= s@.len(),
    ensures
        match r {
            Some(p) => i < p.1 <= s@.len() && spec_parse_string_body(s@.skip(i as int)) == Some(
                (p.0@, p.1 - i),
            ),
            None => spec_parse_string_body(s@.skip(i as int)) is None,
        },
    decreases s@.len() - i,
{
    let n = s.unicode_len();
    if i == n {
        return None;
    }
    let c0 = s.get_char(i);
    proof {
        assert(s@.skip(i as int)[0] == c0);
    }
    if c0 == '"' {
        return Some((String::new(), i + 1));
    }
    if c0 == '\\' {
        if i + 1 == n {
            return None;
        }
        let c1 = s.get_char(i + 1);
        proof {
            assert(s@.skip(i as int)[1] == c1);
        }
        let u: char = if c1 == '"' {
            '"'
        } else if c1 == '\\' {
            '\\'
        } else if c1 == 'n' {
            '\n'
        } else if c1 == 'r' {
            '\r'
        } else if c1 == 't' {
            '\t'
        } else {
            return None;
        };
        proof {
            assert(unesc_char(c1) == Some(u));
            assert(s@.skip(i as int).skip(2) =~= s@.skip(i + 2));
        }
        match parse_string_body(s, i + 2) {
            Some((rest, j)) => {
                let mut out = String::new();
                push_char(&mut out, u);
                out.append(rest.as_str());
                proof {
                    assert(out@ =~= seq![u] + rest@);
                }
                Some((out, j))
            },
            None => None,
        }
    } else {
        proof {
            assert(s@.skip(i as int).skip(1) =~= s@.skip(i + 1));
        }
        match parse_string_body(s, i + 1) {
            Some((rest, j)) => {
                let mut out = String::new();
                push_char(&mut out, c0);
                out.append(rest.as_str());
                proof {
                    assert(out@ =~= seq![c0] + rest@);
                }
                Some((out, j))
            },
            None => None,
        }
    }
}

/// `t` begins with `p`.
pub open spec fn starts_with(t: Seq<char>, p: Seq<char>) -> bool {
    p.len() <= t.len() && t.subrange(0, p.len() as int) == p
}

fn match_at(s: &str, i: usize, pat: &str) -> (r: bool)
    requires
        i <= s@.len(),
    ensures
        r == starts_with(s@.skip(i as int), pat@),
{
    let n = s.unicode_len();
    let plen = pat.unicode_len();
    if n - i < plen {
        return false;
    }
    let mut k: usize = 0;
    while k < plen
        invariant
            k <= plen,
            i + plen <= n,
            n == s@.len(),
            plen == pat@.len(),
            forall|m: int| 0 <= m < k ==> s@[i + m] == pat@[m],
        decreases plen - k,
    {
        if s.get_char(i + k) != pat.get_char(k) {
            proof {
                if starts_with(s@.skip(i as int), pat@) {
                    assert(s@.skip(i as int).subrange(0, plen as int)[k as int]
                        == pat@[k as int]);
                    assert(s@.skip(i as int)[k as int] == s@[i + k]);
                }
            }
            return false;
        }
        k += 1;
    }
    proof {
        assert(s@.skip(i as int).subrange(0, plen as int) =~= pat@);
    }
    true
}

/// Escaping then reading a string body back is the identity: the parser,
/// started on the escaped text followed by the closing quote and anything
/// after it, recovers exactly the original characters and stops right past
/// the quote.
pub proof fn lemma_escape_round_trip(s: Seq<char>, tail: Seq<char>)
    ensures
        spec_parse_string_body(spec_escape(s) + seq!['"'] + tail) == Some(
            (s, spec_escape(s).len() + 1 as int),
        ),
    decreases s.len(),
{
    let t = spec_escape(s) + seq!['"'] + tail;
    if s.len() == 0 {
        assert(spec_escape(s) =~= Seq::<char>::empty());
        assert(t[0] == '"');
    } else {
        let c = s[0];
        let rest = spec_escape(s.skip(1)) + seq!['"'] + tail;
        lemma_escape_round_trip(s.skip(1), tail);
        assert(spec_escape(s) == esc_char(c) + spec_escape(s.skip(1)));
        if c == '"' || c == '\\' || c == '\n' || c == '\r' || c == '\t' {
            let e: char = if c == '"' {
                '"'
            } else if c == '\\' {
                '\\'
            } else if c == '\n' {
                'n'
            } else if c == '\r' {
                'r'
            } else {
                't'
            };
            assert(esc_char(c) =~= seq!['\\', e]);
            assert(t[0] == '\\' && t[1] == e);
            assert(unesc_char(e) == Some(c));
            assert(t.skip(2) =~= rest);
            assert(seq![c] + s.skip(1) =~= s);
        } else {
            assert(esc_char(c) =~= seq![c]);
            assert(t[0] == c);
            assert(t.skip(1) =~= rest);
            assert(seq![c] + s.skip(1) =~= s);
        }
    }
}

/// `{"success":` — the envelope's opening.
pub open spec fn seg_success() -> Seq<char> {
    seq!['{', '"', 's', 'u', 'c', 'c', 'e', 's', 's', '"', ':']
}

pub open spec fn lit_true() -> Seq<char> {
    seq!['t', 'r', 'u', 'e']
}

pub open spec fn lit_false() -> Seq<char> {
    seq!['f', 'a', 'l', 's', 'e']
}

/// `,"message":"` — up to and including the message's opening quote.
pub open spec fn seg_message() -> Seq<char> {
    seq![',', '"', 'm', 'e', 's', 's', 'a', 'g', 'e', '"', ':', '"']
}

/// `,"data":` — what follows the message's closing quote.
pub open spec fn seg_data() -> Seq<char> {
    seq![',', '"', 'd', 'a', 't', 'a', '"', ':']
}

pub open spec fn lit_null() -> Seq<char> {
    seq!['n', 'u', 'l', 'l']
}

pub open spec fn flag(success: bool) -> Seq<char> {
    if success {
        lit_true()
    } else {
        lit_false()
    }
}

/// The exact text an envelope is written as.
pub open spec fn spec_render_envelope(
    success: bool,
    message: Seq<char>,
    data: Option<Seq<char>>,
) -> Seq<char> {
    match data {
        None => seg_success() + flag(success) + seg_message() + spec_escape(message) + seq!['"']
            + seg_data() + lit_null() + seq!['}'],
        Some(d) => seg_success() + flag(success) + seg_message() + spec_escape(message)
            + seq!['"'] + seg_data() + seq!['"'] + spec_escape(d) + seq!['"'] + seq!['}'],
    }
}

/// What an envelope text means, if it has the shape at all: the flag, the
/// message, and the payload.
pub open spec fn spec_parse_envelope(t: Seq<char>) -> Option<(bool, Seq<char>, Option<Seq<char>>)> {
    if !starts_with(t, seg_success()) {
        None
    } else {
        let t1 = t.skip(seg_success().len() as int);
        if starts_with(t1, lit_true()) {
            spec_parse_after_flag(t1.skip(lit_true().len() as int), true)
        } else if starts_with(t1, lit_false()) {
            spec_parse_after_flag(t1.skip(lit_false().len() as int), false)
        } else {
            None
        }
    }
}

pub open spec fn spec_parse_after_flag(t: Seq<char>, success: bool) -> Option<
    (bool, Seq<char>, Option<Seq<char>>),
> {
    if !starts_with(t, seg_message()) {
        None
    } else {
        match spec_parse_string_body(t.skip(seg_message().len() as int)) {
            Some((msg, n)) => spec_parse_after_message(
                t.skip(seg_message().len() as int).skip(n),
                success,
                msg,
            ),
            None => None,
        }
    }
}

pub open spec fn spec_parse_after_message(t: Seq<char>, success: bool, msg: Seq<char>) -> Option<
    (bool, Seq<char>, Option<Seq<char>>),
> {
    if !starts_with(t, seg_data()) {
        None
    } else {
        let t2 = t.skip(seg_data().len() as int);
        if starts_with(t2, lit_null()) {
            if t2.skip(lit_null().len() as int) == seq!['}'] {
                Some((success, msg, None))
            } else {
                None
            }
        } else if t2.len() >= 1 && t2[0] == '"' {
            match spec_parse_string_body(t2.skip(1)) {
                Some((d, n)) => if t2.skip(1).skip(n) == seq!['}'] {
                    Some((success, msg, Some(d)))
                } else {
                    None
                },
                None => None,
            }
        } else {
            None
        }
    }
}

/// The payload as the parser reports it.
pub open spec fn spec_opt_view(d: Option<String>) -> Option<Seq<char>> {
    match d {
        Some(x) => Some(x@),
        None => None,
    }
}

/// Write an envelope with string payload as its wire text.
pub fn render_envelope(e: &ApiResponse<String>) -> (r: String)
    ensures
        r@ == spec_render_envelope(e.success, e.message@, spec_opt_view(e.data)),
{
    proof {
        reveal_strlit("{\"success\":");
        reveal_strlit("true");
        reveal_strlit("false");
        reveal_strlit(",\"message\":\"");
        reveal_strlit("\"");
        reveal_strlit(",\"data\":");
        reveal_strlit("null");
        reveal_strlit("}");
    }
    let mut out = String::new();
    out.append("{\"success\":");
    proof {
        assert(out@ =~= seg_success());
    }
    if e.success {
        out.append("true");
        proof {
            assert(out@ =~= seg_success() + flag(e.success));
        }
    } else {
        out.append("false");
        proof {
            assert(out@ =~= seg_success() + flag(e.success));
        }
    }
    out.append(",\"message\":\"");
    proof {
        assert(out@ =~= seg_success() + flag(e.success) + seg_message());
    }
    let escaped_msg = escape(e.message.as_str());
    out.append(escaped_msg.as_str());
    out.append("\"");
    proof {
        assert(out@ =~= seg_success() + flag(e.success) + seg_message() + spec_escape(e.message@)
            + seq!['"']);
    }
    out.append(",\"data\":");
    let ghost head = seg_success() + flag(e.success) + seg_message() + spec_escape(e.message@)
        + seq!['"'] + seg_data();
    proof {
        assert(out@ =~= head);
    }
    match &e.data {
        None => {
            out.append("null");
            out.append("}");
            proof {
                assert(out@ =~= head + lit_null() + seq!['}']);
            }
        },
        Some(d) => {
            out.append("\"");
            let escaped_d = escape(d.as_str());
            out.append(escaped_d.as_str());
            out.append("\"");
            out.append("}");
            proof {
                assert(out@ =~= head + seq!['"'] + spec_escape(d@) + seq!['"'] + seq!['}']);
            }
        },
    }
    out
}

/// Read an envelope with string payload back from its wire text: exactly the
/// texts of the envelope shape are accepted.
#[verifier::rlimit(100)]
pub fn parse_envelope(s: &str) -> (r: Option<ApiResponse<String>>)
    ensures
        match r {
            Some(e) => spec_parse_envelope(s@) == Some(
                (e.success, e.message@, spec_opt_view(e.data)),
            ),
            None => spec_parse_envelope(s@) is None,
        },
{
    proof {
        reveal_strlit("{\"success\":");
        reveal_strlit("true");
        reveal_strlit("false");
        reveal_strlit(",\"message\":\"");
        reveal_strlit(",\"data\":");
        reveal_strlit("null");
        assert(s@.skip(0) =~= s@);
        assert("{\"success\":"@ =~= seg_success());
        assert("true"@ =~= lit_true());
        assert("false"@ =~= lit_false());
        assert(",\"message\":\""@ =~= seg_message());
        assert(",\"data\":"@ =~= seg_data());
        assert("null"@ =~= lit_null());
    }
    let n = s.unicode_len();
    if !match_at(s, 0, "{\"success\":") {
        return None;
    }
    let success: bool;
    let mut i: usize;
    if match_at(s, 11, "true") {
        success = true;
        i = 15;
        proof {
            assert(s@.skip(11).skip(4) =~= s@.skip(15));
        }
    } else if match_at(s, 11, "false") {
        success = false;
        i = 16;
        proof {
            assert(s@.skip(11).skip(5) =~= s@.skip(16));
        }
    } else {
        return None;
    }
    proof {
        assert(spec_parse_envelope(s@) == spec_parse_after_flag(s@.skip(i as int), success));
    }
    if !match_at(s, i, ",\"message\":\"") {
        return None;
    }
    proof {
        assert(s@.skip(i as int).skip(12) =~= s@.skip(i + 12));
    }
    let msg = match parse_string_body(s, i + 12) {
        Some(p) => p,
        None => {
            return None;
        },
    };
    let j = msg.1;
    proof {
        assert(s@.skip(i + 12).skip((j - (i + 12)) as int) =~= s@.skip(j as int));
        assert(spec_parse_after_flag(s@.skip(i as int), success) == spec_parse_after_message(
            s@.skip(j as int),
            success,
            msg.0@,
        ));
    }
    if !match_at(s, j, ",\"data\":") {
        return None;
    }
    let k = j + 8;
    proof {
        assert(s@.skip(j as int).skip(8) =~= s@.skip(k as int));
    }
    if match_at(s, k, "null") {
        proof {
            assert(s@.skip(k as int).skip(4) =~= s@.skip(k + 4));
            if s@.skip(k + 4) == seq!['}'] {
                assert(s@.len() == k + 5);
                assert(s@.skip(k + 4)[0] == s@[k + 4]);
            }
        }
        if n - k == 5 && s.get_char(k + 4) == '}' {
            proof {
                assert(s@.skip(k + 4) =~= seq!['}']);
            }
            return Some(ApiResponse { success, message: msg.0, data: None });
        }
        return None;
    }
    if k < n && s.get_char(k) == '"' {
        proof {
            assert(s@.skip(k as int)[0] == s@[k as int]);
            assert(s@.skip(k as int).skip(1) =~= s@.skip(k + 1));
        }
        let d = match parse_string_body(s, k + 1) {
            Some(p) => p,
            None => {
                return None;
            },
        };
        let j2 = d.1;
        proof {
            assert(s@.skip(k + 1).skip((j2 - (k + 1)) as int) =~= s@.skip(j2 as int));
            if s@.skip(j2 as int) == seq!['}'] {
                assert(s@.len() == j2 + 1);
                assert(s@.skip(j2 as int)[0] == s@[j2 as int]);
            }
        }
        if n - j2 == 1 && s.get_char(j2) == '}' {
            proof {
                assert(s@.skip(j2 as int) =~= seq!['}']);
            }
            return Some(ApiResponse { success, message: msg.0, data: Some(d.0) });
        }
        return None;
    }
    proof {
        if s@.skip(k as int).len() >= 1 {
            assert(s@.skip(k as int)[0] == s@[k as int]);
        }
    }
    None
}

/// Splitting a concatenation back apart: the whole begins with its first
/// part, and skipping that part leaves exactly the second.
proof fn lemma_peel(prefix: Seq<char>, rest: Seq<char>)
    ensures
        starts_with(prefix + rest, prefix),
        (prefix + rest).skip(prefix.len() as int) == rest,
{
    assert((prefix + rest).subrange(0, prefix.len() as int) =~= prefix);
    assert((prefix + rest).skip(prefix.len() as int) =~= rest);
}

/// Reading back a text that opens as a rendered envelope does — the fixed
/// prefix, the flag, the message key, the escaped message and its closing
/// quote — comes down to reading what follows the message.
#[verifier::rlimit(100)]
proof fn lemma_parse_front(success: bool, message: Seq<char>, rest: Seq<char>)
    ensures
        spec_parse_envelope(
            seg_success() + flag(success) + seg_message() + spec_escape(message) + seq!['"']
                + rest,
        ) == spec_parse_after_message(rest, success, message),
{
    let t = seg_success() + flag(success) + seg_message() + spec_escape(message) + seq!['"']
        + rest;
    let msg_part = spec_escape(message) + seq!['"'] + rest;
    let after_flag = seg_message() + msg_part;
    let r1 = flag(success) + after_flag;
    assert(t =~= seg_success() + r1);
    lemma_peel(seg_success(), r1);
    let t1 = t.skip(seg_success().len() as int);
    assert(t1 == r1);
    if success {
        lemma_peel(lit_true(), after_flag);
        assert(!starts_with(t1, lit_false())) by {
            if starts_with(t1, lit_false()) {
                assert(t1.subrange(0, 5)[0] == t1[0]);
            }
        }
    } else {
        lemma_peel(lit_false(), after_flag);
        assert(!starts_with(t1, lit_true())) by {
            if starts_with(t1, lit_true()) {
                assert(t1.subrange(0, 4)[0] == t1[0]);
            }
        }
    }
    let tf = t1.skip(flag(success).len() as int);
    assert(tf == after_flag);
    lemma_peel(seg_message(), msg_part);
    let tm = tf.skip(seg_message().len() as int);
    assert(tm == msg_part);
    lemma_escape_round_trip(message, rest);
    assert(tm =~= (spec_escape(message) + seq!['"']) + rest);
    assert(spec_parse_string_body(tm) == Some((message, spec_escape(message).len() + 1 as int)));
    let ta = tm.skip(spec_escape(message).len() + 1 as int);
    assert(ta =~= rest) by {
        lemma_peel(spec_escape(message) + seq!['"'], rest);
    }
    assert(spec_parse_after_flag(tf, success) == spec_parse_after_message(ta, success, message));
}

/// An envelope written and read back is recovered exactly: the flag, the
/// message and the payload all survive the round trip, for every message and
/// every payload.
#[verifier::rlimit(100)]
pub proof fn lemma_envelope_round_trip(success: bool, message: Seq<char>, data: Option<Seq<char>>)
    ensures
        spec_parse_envelope(spec_render_envelope(success, message, data)) == Some(
            (success, message, data),
        ),
{
    match data {
        None => {
            let dpart = lit_null() + seq!['}'];
            let rest = seg_data() + dpart;
            assert(spec_render_envelope(success, message, data) =~= seg_success() + flag(success)
                + seg_message() + spec_escape(message) + seq!['"'] + rest);
            lemma_parse_front(success, message, rest);
            lemma_peel(seg_data(), dpart);
            let t2 = rest.skip(seg_data().len() as int);
            assert(t2 == dpart);
            lemma_peel(lit_null(), seq!['}']);
            assert(t2.skip(lit_null().len() as int) == seq!['}']);
        },
        Some(d) => {
            let dpart = seq!['"'] + spec_escape(d) + seq!['"'] + seq!['}'];
            let rest = seg_data() + dpart;
            assert(spec_render_envelope(success, message, data) =~= seg_success() + flag(success)
                + seg_message() + spec_escape(message) + seq!['"'] + rest);
            lemma_parse_front(success, message, rest);
            lemma_peel(seg_data(), dpart);
            let t2 = rest.skip(seg_data().len() as int);
            assert(t2 == dpart);
            assert(!starts_with(t2, lit_null())) by {
                if starts_with(t2, lit_null()) {
                    assert(t2.subrange(0, 4)[0] == t2[0]);
                }
            }
            assert(t2[0] == '"');
            let dbody = spec_escape(d) + seq!['"'] + seq!['}'];
            assert(t2.skip(1) =~= dbody) by {
                assert(t2 =~= seq!['"'] + dbody);
                lemma_peel(seq!['"'], dbody);
            }
            lemma_escape_round_trip(d, seq!['}']);
            assert(spec_parse_string_body(t2.skip(1)) == Some(
                (d, spec_escape(d).len() + 1 as int),
            ));
            assert(t2.skip(1).skip(spec_escape(d).len() + 1 as int) =~= seq!['}']) by {
                assert(dbody =~= (spec_escape(d) + seq!['"']) + seq!['}']);
                lemma_peel(spec_escape(d) + seq!['"'], seq!['}']);
            }
        },
    }
}

} // verus!
