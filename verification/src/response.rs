//! KBS response handling: pulling the one string member the protocol needs
//! out of a response body. The KBS emits compact JSON objects whose members
//! are plain strings, so the value of a member is the byte run between the
//! `"name":"` marker and the next quote; a body where the marker never
//! occurs, or the value never closes, is malformed.

use vstd::prelude::*;
use crate::encode::append_bytes;

verus! {

/// `pat` occurs in `s` at position `i`.
pub open spec fn spec_match_at(s: Seq<u8>, pat: Seq<u8>, i: int) -> bool {
    0 <= i && i + pat.len() <= s.len() && s.subrange(i, i + pat.len()) == pat
}

/// No occurrence of `pat` in `s` starts before position `i`.
pub open spec fn spec_no_match_before(s: Seq<u8>, pat: Seq<u8>, i: int) -> bool {
    forall|j: int| 0 <= j < i ==> !spec_match_at(s, pat, j)
}

/// The first occurrence of `pat` in `s`, if any: the position where it
/// starts, and the position just past it.
fn find_pattern(s: &Vec<u8>, pat: &Vec<u8>) -> (r: Option<(usize, usize)>)
    requires
        pat@.len() > 0,
    ensures
        match r {
            Some(p) => p.1 == p.0 + pat@.len() && spec_match_at(s@, pat@, p.0 as int)
                && spec_no_match_before(s@, pat@, p.0 as int),
            None => spec_no_match_before(s@, pat@, s@.len() as int + 1),
        },
{
    if pat.len() > s.len() {
        return None;
    }
    let end: usize = s.len() - pat.len();
    let mut i: usize = 0;
    while i <= end
        invariant
            0 < pat@.len() <= s@.len(),
            s@.len() <= usize::MAX,
            end == s@.len() - pat@.len(),
            i <= end + 1,
            spec_no_match_before(s@, pat@, i as int),
        decreases end - i + 1,
    {
        let mut k: usize = 0;
        let mut matched = true;
        while k < pat.len()
            invariant
                i + pat@.len() <= s@.len(),
                s@.len() <= usize::MAX,
                k <= pat@.len(),
                matched ==> forall|m: int| 0 <= m < k ==> s@[i + m] == pat@[m],
                !matched ==> !spec_match_at(s@, pat@, i as int),
            decreases pat.len() - k,
        {
            if s[i + k] != pat[k] {
                proof {
                    assert(s@.subrange(i as int, i + pat@.len())[k as int] == s@[i + k]);
                }
                matched = false;
                k = pat.len();
            } else {
                k = k + 1;
            }
        }
        if matched {
            proof {
                assert(s@.subrange(i as int, i + pat@.len()) =~= pat@);
            }
            return Some((i, i + pat.len()));
        }
        i = i + 1;
    }
    None
}

/// No quote stands in `s` at positions `from` up to `i`.
pub open spec fn spec_no_quote_between(s: Seq<u8>, from: int, i: int) -> bool {
    forall|j: int| from <= j < i ==> s[j] != '"' as u8
}

/// The first quote at or after `from`, if any.
fn find_quote_from(s: &Vec<u8>, from: usize) -> (r: Option<usize>)
    requires
        from <= s@.len(),
    ensures
        match r {
            Some(j) => from <= j < s@.len() && s@[j as int] == '"' as u8 && spec_no_quote_between(
                s@,
                from as int,
                j as int,
            ),
            None => spec_no_quote_between(s@, from as int, s@.len() as int),
        },
{
    let mut j: usize = from;
    while j < s.len()
        invariant
            from <= j <= s@.len(),
            spec_no_quote_between(s@, from as int, j as int),
        decreases s.len() - j,
    {
        if s[j] == '"' as u8 {
            return Some(j);
        }
        j = j + 1;
    }
    None
}

/// The marker whose first occurrence opens the value of the member `key`.
pub open spec fn spec_member_marker(key: Seq<u8>) -> Seq<u8> {
    seq!['"' as u8] + key + seq!['"' as u8, ':' as u8, '"' as u8]
}

/// Builds the `"key":"` marker for a member name.
fn member_marker(key: &Vec<u8>) -> (r: Vec<u8>)
    ensures
        r@ == spec_member_marker(key@),
{
    let mut out: Vec<u8> = Vec::new();
    out.push('"' as u8);
    append_bytes(&mut out, key);
    out.push('"' as u8);
    out.push(':' as u8);
    out.push('"' as u8);
    proof {
        assert(out@ =~= spec_member_marker(key@));
    }
    out
}

/// The value `v` of the string member `key` opens at position `i` of
/// `body`: the first `"key":"` marker starts there, `v` follows it, and the
/// next quote closes it.
pub open spec fn spec_member_value_at(body: Seq<u8>, key: Seq<u8>, i: int, v: Seq<u8>) -> bool {
    let marker = spec_member_marker(key);
    let start = i + marker.len();
    &&& spec_match_at(body, marker, i)
    &&& spec_no_match_before(body, marker, i)
    &&& start + v.len() < body.len()
    &&& body[start + v.len()] == '"' as u8
    &&& spec_no_quote_between(body, start, start + v.len())
    &&& v == body.subrange(start, start + v.len())
}

/// The first `"key":"` marker starts at position `i` of `body` and no quote
/// ever closes the value after it.
pub open spec fn spec_member_unclosed_at(body: Seq<u8>, key: Seq<u8>, i: int) -> bool {
    let marker = spec_member_marker(key);
    let start = i + marker.len();
    &&& spec_match_at(body, marker, i)
    &&& spec_no_match_before(body, marker, i)
    &&& spec_no_quote_between(body, start, body.len() as int)
}

/// `body` carries the string member `key` with value `v`.
pub open spec fn spec_has_member_value(body: Seq<u8>, key: Seq<u8>, v: Seq<u8>) -> bool {
    exists|i: int| #[trigger] spec_member_value_at(body, key, i, v)
}

/// The first `"key":"` marker of `body` opens a value that never closes.
pub open spec fn spec_has_unclosed_member(body: Seq<u8>, key: Seq<u8>) -> bool {
    exists|i: int| #[trigger] spec_member_unclosed_at(body, key, i)
}

/// The value a body carries for a member is a function of the body: two
/// values that both open at the first marker and close at the next quote are
/// the same value.
pub proof fn lemma_member_value_unique(
    body: Seq<u8>,
    key: Seq<u8>,
    i1: int,
    v1: Seq<u8>,
    i2: int,
    v2: Seq<u8>,
)
    requires
        spec_member_value_at(body, key, i1, v1),
        spec_member_value_at(body, key, i2, v2),
    ensures
        i1 == i2,
        v1 == v2,
{
    let marker = spec_member_marker(key);
    if i1 < i2 {
        assert(!spec_match_at(body, marker, i1));
    }
    if i2 < i1 {
        assert(!spec_match_at(body, marker, i2));
    }
    let start = i1 + marker.len();
    if v1.len() < v2.len() {
        assert(body[start + v1.len()] == '"' as u8);
        assert(false);
    }
    if v2.len() < v1.len() {
        assert(body[start + v2.len()] == '"' as u8);
        assert(false);
    }
    assert(v1 =~= v2);
}

/// Extracts the string member `key` from a compact JSON object body: the
/// bytes between the first `"key":"` marker and the next quote. `None`
/// exactly when the marker never occurs or the value never closes; such a
/// body is malformed for this protocol, whose member values carry neither
/// escapes nor embedded quotes.
pub fn json_string_member(body: &Vec<u8>, key: &Vec<u8>) -> (r: Option<Vec<u8>>)
    ensures
        r is Some ==> spec_has_member_value(body@, key@, r.unwrap()@),
        r is None ==> spec_no_match_before(body@, spec_member_marker(key@), body@.len() as int + 1)
            || spec_has_unclosed_member(body@, key@),
{
    let marker = member_marker(key);
    let (i, start) = match find_pattern(body, &marker) {
        Some(p) => p,
        None => {
            return None;
        },
    };
    let close = match find_quote_from(body, start) {
        Some(j) => j,
        None => {
            proof {
                assert(spec_member_unclosed_at(body@, key@, i as int));
                assert(spec_has_unclosed_member(body@, key@));
            }
            return None;
        },
    };
    let mut value: Vec<u8> = Vec::new();
    let mut j: usize = start;
    while j < close
        invariant
            start <= j <= close,
            close < body@.len(),
            marker@ == spec_member_marker(key@),
            spec_match_at(body@, marker@, i as int),
            spec_no_match_before(body@, marker@, i as int),
            start == i + marker@.len(),
            body@[close as int] == '"' as u8,
            spec_no_quote_between(body@, start as int, close as int),
            value@ == body@.subrange(start as int, j as int),
        decreases close - j,
    {
        value.push(body[j]);
        j = j + 1;
        proof {
            assert(value@ =~= body@.subrange(start as int, j as int));
        }
    }
    proof {
        assert(spec_member_value_at(body@, key@, i as int, value@));
        assert(spec_has_member_value(body@, key@, value@));
    }
    Some(value)
}

} // verus!
