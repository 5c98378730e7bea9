//! The address the command server is probed at, and the HTTP exchange with
//! it.

use vstd::prelude::*;
use crate::text::{
    chars_of, contains_seq, decimal, matches_at, occurs_at, owned, push_char, push_chars, push_decimal,
    push_str, starts_with, starts_with_seq, str_contains,
};

verus! {

/// The loopback address for a server bound to `bind`: a wildcard IPv4 bind
/// is reached at `127.0.0.1`, a wildcard IPv6 bind at `[::1]`, anything else
/// as it is.
pub open spec fn probe_addr(bind: Seq<char>) -> Seq<char> {
    if starts_with_seq(bind, "0.0.0.0:"@) {
        "127.0.0.1:"@ + bind.subrange("0.0.0.0:"@.len() as int, bind.len() as int)
    } else if starts_with_seq(bind, "[::]:"@) {
        "[::1]:"@ + bind.subrange("[::]:"@.len() as int, bind.len() as int)
    } else {
        bind
    }
}

/// `prefix`, then `s` from index `from` on.
fn replace_prefix(s: &Vec<char>, from: usize, prefix: &str) -> (out: String)
    requires
        from <= s.len(),
    ensures
        out@ == prefix@ + s@.subrange(from as int, s@.len() as int),
{
    let mut out = String::new();
    push_str(&mut out, prefix);
    let mut i: usize = from;
    while i < s.len()
        invariant
            from <= i <= s.len(),
            out@ == prefix@ + s@.subrange(from as int, i as int),
        decreases s.len() - i,
    {
        crate::text::push_char(&mut out, s[i]);
        proof {
            assert(s@.subrange(from as int, i + 1) =~= s@.subrange(from as int, i as int).push(s@[i as int]));
        }
        i = i + 1;
    }
    proof {
        assert(out@ =~= prefix@ + s@.subrange(from as int, s@.len() as int));
    }
    out
}

/// The address at which the command server bound to `bind_addr` is probed.
pub fn command_probe_addr(bind_addr: &str) -> (r: String)
    ensures
        r@ == probe_addr(bind_addr@),
{
    let s = chars_of(bind_addr);
    let any4 = chars_of("0.0.0.0:");
    if starts_with(&s, &any4) {
        return replace_prefix(&s, any4.len(), "127.0.0.1:");
    }
    let any6 = chars_of("[::]:");
    if starts_with(&s, &any6) {
        return replace_prefix(&s, any6.len(), "[::1]:");
    }
    let mut out = String::new();
    push_chars(&mut out, &s);
    proof {
        assert(out@ =~= bind_addr@);
    }
    out
}


/// `pat` occurs in `s` at `i`, and nowhere before.
pub open spec fn is_first_at(s: Seq<char>, pat: Seq<char>, i: int) -> bool {
    occurs_at(s, pat, i) && forall|j: int| 0 <= j < i ==> !occurs_at(s, pat, j)
}

/// The first position of `pat` in `s` (meaningful when it occurs).
pub open spec fn first_index(s: Seq<char>, pat: Seq<char>) -> int {
    choose|i: int| is_first_at(s, pat, i)
}

/// Two first positions are the same position.
proof fn lemma_first_unique(s: Seq<char>, pat: Seq<char>, i: int)
    requires
        is_first_at(s, pat, i),
    ensures
        first_index(s, pat) == i,
{
    let k = first_index(s, pat);
    assert(is_first_at(s, pat, k));
    if k < i {
        assert(!occurs_at(s, pat, k));
    } else if i < k {
        assert(!occurs_at(s, pat, i));
    }
}

/// The first position of `pat` in `s`, if it occurs.
fn find_seq(s: &Vec<char>, pat: &Vec<char>) -> (r: Option<usize>)
    ensures
        match r {
            Some(i) => is_first_at(s@, pat@, i as int) && first_index(s@, pat@) == i,
            None => !contains_seq(s@, pat@),
        },
{
    let mut i: usize = 0;
    while i < s.len()
        invariant
            i <= s.len(),
            forall|j: int| 0 <= j < i ==> !occurs_at(s@, pat@, j),
        decreases s.len() - i,
    {
        if matches_at(s, pat, i) {
            proof { lemma_first_unique(s@, pat@, i as int); }
            return Some(i);
        }
        i = i + 1;
    }
    if matches_at(s, pat, i) {
        proof { lemma_first_unique(s@, pat@, i as int); }
        return Some(i);
    }
    proof {
        assert forall|j: int| !occurs_at(s@, pat@, j) by {
            if 0 <= j && j < i {
            } else if j > i && occurs_at(s@, pat@, j) {
                assert(j + pat@.len() <= s@.len());
            }
        }
    }
    None
}

/// The separator between the head and the body of an HTTP message.
pub open spec fn blank_line() -> Seq<char> {
    seq!['\r', '\n', '\r', '\n']
}

/// The head and the body of an HTTP message: split at the first blank
/// line, the body empty when there is none.
pub open spec fn head_and_body(s: Seq<char>) -> (Seq<char>, Seq<char>) {
    if contains_seq(s, blank_line()) {
        let i = first_index(s, blank_line());
        (s.take(i), s.skip(i + 4))
    } else {
        (s, Seq::empty())
    }
}

/// The first line of a head (`str::lines`): up to the first line feed,
/// without a carriage return before it; `HTTP/1.1 000` for an empty head.
pub open spec fn status_line_of(head: Seq<char>) -> Seq<char> {
    if head.len() == 0 {
        "HTTP/1.1 000"@
    } else if contains_seq(head, seq!['\n']) {
        let line = head.take(first_index(head, seq!['\n']));
        if line.len() > 0 && line.last() == '\r' {
            line.drop_last()
        } else {
            line
        }
    } else {
        head
    }
}

/// What an HTTP reply of the command server yields: its body when the
/// status line holds ` 200 `, else the error naming the status line.
pub open spec fn reply_outcome(response: Seq<char>) -> Result<Seq<char>, Seq<char>> {
    let (head, body) = head_and_body(response);
    let status = status_line_of(head);
    if contains_seq(status, " 200 "@) {
        Ok(body)
    } else {
        Err("Migrated server returned non-200 status: "@ + status + "; body="@ + body)
    }
}

/// `s` from `from` to `to`.
fn slice_string(s: &Vec<char>, from: usize, to: usize) -> (out: String)
    requires
        from <= to <= s.len(),
    ensures
        out@ == s@.subrange(from as int, to as int),
{
    let mut out = String::new();
    let mut k: usize = from;
    while k < to
        invariant
            from <= k <= to <= s.len(),
            out@ == s@.subrange(from as int, k as int),
        decreases to - k,
    {
        push_char(&mut out, s[k]);
        proof {
            assert(s@.subrange(from as int, k + 1) =~= s@.subrange(from as int, k as int).push(s@[k as int]));
        }
        k = k + 1;
    }
    out
}

/// The status line of a head.
fn status_line(head: &Vec<char>) -> (r: String)
    ensures
        r@ == status_line_of(head@),
{
    if head.len() == 0 {
        return owned("HTTP/1.1 000");
    }
    let mut nl: Vec<char> = Vec::new();
    nl.push('\n');
    proof { assert(nl@ =~= seq!['\n']); }
    match find_seq(head, &nl) {
        Some(i) => {
            if i > 0 && head[i - 1] == '\r' {
                let r = slice_string(head, 0, i - 1);
                proof {
                    assert(head@.take(i as int).drop_last() =~= head@.subrange(0, i - 1));
                }
                r
            } else {
                let r = slice_string(head, 0, i);
                proof {
                    assert(head@.take(i as int) =~= head@.subrange(0, i as int));
                }
                r
            }
        },
        None => {
            let r = slice_string(head, 0, head.len());
            proof {
                assert(head@.subrange(0, head@.len() as int) =~= head@);
            }
            r
        },
    }
}

/// Reads an HTTP reply of the command server (see [`reply_outcome`]).
pub fn read_http_reply(response: &str) -> (r: Result<String, String>)
    ensures
        match r {
            Ok(body) => reply_outcome(response@) == Ok::<Seq<char>, Seq<char>>(body@),
            Err(e) => reply_outcome(response@) == Err::<Seq<char>, Seq<char>>(e@),
        },
{
    let s = chars_of(response);
    let mut sep: Vec<char> = Vec::new();
    sep.push('\r');
    sep.push('\n');
    sep.push('\r');
    sep.push('\n');
    proof { assert(sep@ =~= blank_line()); }
    let (head, body) = match find_seq(&s, &sep) {
        Some(i) => {
            let head = slice_string(&s, 0, i);
            let body = slice_string(&s, i + 4, s.len());
            proof {
                assert(head@ =~= s@.take(i as int));
                assert(body@ =~= s@.skip(i + 4));
            }
            (head, body)
        },
        None => {
            let head = slice_string(&s, 0, s.len());
            proof { assert(head@ =~= s@); }
            (head, String::new())
        },
    };
    let head_chars = chars_of(head.as_str());
    let status = status_line(&head_chars);
    if str_contains(status.as_str(), " 200 ") {
        Ok(body)
    } else {
        let mut m = owned("Migrated server returned non-200 status: ");
        push_str(&mut m, status.as_str());
        push_str(&mut m, "; body=");
        push_str(&mut m, body.as_str());
        Err(m)
    }
}

/// The HTTP request sent to the command server: `method` on `path` for
/// `host`, a JSON body with its length in bytes, and the connection closed
/// after the reply.
pub open spec fn request_text(method: Seq<char>, path: Seq<char>, host: Seq<char>, body: Seq<char>, body_bytes: nat) -> Seq<char> {
    method + seq![' '] + path + " HTTP/1.1\r\nHost: "@ + host
        + "\r\nContent-Type: application/json\r\nContent-Length: "@ + decimal(body_bytes)
        + "\r\nConnection: close\r\n\r\n"@ + body
}

/// The HTTP request for `method` on `path` at `host` with `body`.
pub fn http_request_text(method: &str, path: &str, host: &str, body: &str) -> (r: String)
    ensures
        r@ == request_text(method@, path@, host@, body@, body.len() as nat),
{
    let mut r = owned(method);
    push_char(&mut r, ' ');
    push_str(&mut r, path);
    push_str(&mut r, " HTTP/1.1\r\nHost: ");
    push_str(&mut r, host);
    push_str(&mut r, "\r\nContent-Type: application/json\r\nContent-Length: ");
    push_decimal(&mut r, body.len() as u64);
    push_str(&mut r, "\r\nConnection: close\r\n\r\n");
    push_str(&mut r, body);
    r
}

} // verus!
