use vstd::prelude::*;
use crate::errors::ParseError;
use crate::model::UserJson;
use crate::strutil::{push_char, str_eq, chars_vec};

verus! {

/// The value of a hexadecimal digit character, or -1.
pub open spec fn hex_val(c: char) -> int {
    let u = c as u32;
    if 48 <= u && u <= 57 {
        u - 48
    } else if 65 <= u && u <= 70 {
        u - 55
    } else if 97 <= u && u <= 102 {
        u - 87
    } else {
        -1
    }
}

/// Prepends a character to a decode result, keeping failure.
pub open spec fn decode_cons(c: char, rest: Option<Seq<char>>) -> Option<Seq<char>> {
    match rest {
        Some(r) => Some(seq![c] + r),
        None => None,
    }
}

/// Decoding of one form token: '+' stands for a space, and a percent sign
/// followed by two hexadecimal digits stands for the character with that
/// code. An escape that is cut short, not hexadecimal, or beyond the
/// 7-bit range is rejected.
pub open spec fn spec_decode(s: Seq<char>) -> Option<Seq<char>>
    decreases s.len(),
{
    if s.len() == 0 {
        Some(Seq::empty())
    } else if s[0] == '+' {
        decode_cons(' ', spec_decode(s.skip(1)))
    } else if s[0] == '%' {
        if s.len() >= 3 && hex_val(s[1]) >= 0 && hex_val(s[2]) >= 0 && hex_val(s[1]) * 16
            + hex_val(s[2]) < 128 {
            decode_cons(((hex_val(s[1]) * 16 + hex_val(s[2])) as u8) as char, spec_decode(s.skip(3)))
        } else {
            None
        }
    } else {
        decode_cons(s[0], spec_decode(s.skip(1)))
    }
}

/// The index of the first occurrence of a character, or -1.
pub open spec fn find_char(s: Seq<char>, c: char) -> int
    decreases s.len(),
{
    if s.len() == 0 {
        -1
    } else if s[0] == c {
        0
    } else {
        let r = find_char(s.skip(1), c);
        if r < 0 {
            -1
        } else {
            r + 1
        }
    }
}

proof fn lemma_find_char_at(s: Seq<char>, c: char, j: int)
    requires
        0 <= j < s.len(),
        s[j] == c,
        forall|k: int| 0 <= k < j ==> s[k] != c,
    ensures
        find_char(s, c) == j,
    decreases s.len(),
{
    if j > 0 {
        assert(forall|k: int| 0 <= k < j - 1 ==> s.skip(1)[k] == s[k + 1]);
        lemma_find_char_at(s.skip(1), c, j - 1);
    }
}

proof fn lemma_find_char_none(s: Seq<char>, c: char)
    requires
        forall|k: int| 0 <= k < s.len() ==> s[k] != c,
    ensures
        find_char(s, c) == -1,
    decreases s.len(),
{
    if s.len() > 0 {
        assert(forall|k: int| 0 <= k < s.skip(1).len() ==> s.skip(1)[k] == s[k + 1]);
        lemma_find_char_none(s.skip(1), c);
    }
}

/// One `key=value` segment: the first '=' splits it; both sides are decoded.
/// A segment without '=' is malformed; a side that does not decode is a bad
/// escape.
pub open spec fn spec_pair(seg: Seq<char>) -> Result<(Seq<char>, Seq<char>), ParseError> {
    let e = find_char(seg, '=');
    if e < 0 {
        Err(ParseError::MalformedPair)
    } else {
        match (spec_decode(seg.take(e)), spec_decode(seg.skip(e + 1))) {
            (Some(k), Some(v)) => Ok((k, v)),
            _ => Err(ParseError::BadEscape),
        }
    }
}

/// The outcome once every segment is consumed: both fields must have
/// appeared.
pub open spec fn spec_finish(em: Option<Seq<char>>, pw: Option<Seq<char>>) -> Result<
    (Seq<char>, Seq<char>),
    ParseError,
> {
    match (em, pw) {
        (Some(e), Some(p)) => Ok((e, p)),
        _ => Err(ParseError::MissingField),
    }
}

/// Walks the '&'-separated segments left to right, collecting the `email`
/// and `password` values, rejecting a repeated field and ignoring unknown
/// keys.
pub open spec fn spec_walk(s: Seq<char>, em: Option<Seq<char>>, pw: Option<Seq<char>>) -> Result<
    (Seq<char>, Seq<char>),
    ParseError,
>
    decreases s.len(),
{
    if s.len() == 0 {
        Err(ParseError::MalformedPair)
    } else {
        let a = find_char(s, '&');
        let seg = if a < 0 {
            s
        } else {
            s.take(a)
        };
        let rest = if 0 <= a + 1 <= s.len() {
            s.skip(a + 1)
        } else {
            Seq::<char>::empty()
        };
        match spec_pair(seg) {
            Err(e) => Err(e),
            Ok(kv) => if kv.0 == "email"@ {
                if em is Some {
                    Err(ParseError::DuplicateField)
                } else if a < 0 {
                    spec_finish(Some(kv.1), pw)
                } else {
                    spec_walk(rest, Some(kv.1), pw)
                }
            } else if kv.0 == "password"@ {
                if pw is Some {
                    Err(ParseError::DuplicateField)
                } else if a < 0 {
                    spec_finish(em, Some(kv.1))
                } else {
                    spec_walk(rest, em, Some(kv.1))
                }
            } else {
                if a < 0 {
                    spec_finish(em, pw)
                } else {
                    spec_walk(rest, em, pw)
                }
            },
        }
    }
}

/// What parsing a form body yields: the submitted email and password, or
/// the first error, reading segments left to right.
pub open spec fn spec_parse_form(s: Seq<char>) -> Result<(Seq<char>, Seq<char>), ParseError> {
    spec_walk(s, None, None)
}

/// The abstract value of an optional collected field.
pub open spec fn opt_view(o: Option<String>) -> Option<Seq<char>> {
    match o {
        Some(s) => Some(s@),
        None => None,
    }
}

/// The value of one hexadecimal digit character, or -1.
fn hex_digit(c: char) -> (r: i32)
    ensures
        r == hex_val(c),
{
    let u = c as u32;
    if 48 <= u && u <= 57 {
        (u - 48) as i32
    } else if 65 <= u && u <= 70 {
        (u - 55) as i32
    } else if 97 <= u && u <= 102 {
        (u - 87) as i32
    } else {
        -1
    }
}

/// The first position of `c` in `v[lo..hi)`, if any.
fn find_range(v: &Vec<char>, lo: usize, hi: usize, c: char) -> (r: Option<usize>)
    requires
        lo <= hi <= v@.len(),
    ensures
        match r {
            Some(j) => lo <= j < hi && v@[j as int] == c && (forall|k: int|
                lo <= k < j ==> v@[k] != c),
            None => forall|k: int| lo <= k < hi ==> v@[k] != c,
        },
{
    let mut p: usize = lo;
    while p < hi
        invariant
            lo <= p <= hi <= v@.len(),
            forall|k: int| lo <= k < p ==> v@[k] != c,
        decreases hi - p,
    {
        if v[p] == c {
            return Some(p);
        }
        p = p + 1;
    }
    None
}

/// Decodes `v[lo..hi)` as a form token, per [`spec_decode`].
fn decode_range(v: &Vec<char>, lo: usize, hi: usize) -> (r: Option<String>)
    requires
        lo <= hi <= v@.len(),
    ensures
        match r {
            Some(s) => spec_decode(v@.subrange(lo as int, hi as int)) == Some(s@),
            None => spec_decode(v@.subrange(lo as int, hi as int)) is None,
        },
{
    let ghost whole = v@.subrange(lo as int, hi as int);
    let mut out = String::new();
    let mut p: usize = lo;
    while p < hi
        invariant
            lo <= p <= hi <= v@.len(),
            whole == v@.subrange(lo as int, hi as int),
            spec_decode(whole) == decode_app(out@, spec_decode(v@.subrange(p as int, hi as int))),
        decreases hi - p,
    {
        let ghost before = v@.subrange(p as int, hi as int);
        proof {
            assert(before[0] == v@[p as int]);
        }
        let c = v[p];
        if c == '+' {
            proof {
                assert(before.skip(1) =~= v@.subrange(p as int + 1, hi as int));
                lemma_decode_app_step(out@, ' ', spec_decode(before.skip(1)));
            }
            push_char(&mut out, ' ');
            p = p + 1;
        } else if c == '%' {
            if hi - p > 3 || hi - p == 3 {
                proof {
                    assert(before.len() >= 3);
                    assert(before[1] == v@[p as int + 1]);
                    assert(before[2] == v@[p as int + 2]);
                }
                let h1 = hex_digit(v[p + 1]);
                let h2 = hex_digit(v[p + 2]);
                if h1 >= 0 && h2 >= 0 && h1 * 16 + h2 < 128 {
                    let b = h1 * 16 + h2;
                    let ch = (b as u8) as char;
                    proof {
                        assert(before.skip(3) =~= v@.subrange(p as int + 3, hi as int));
                        lemma_decode_app_step(out@, ch, spec_decode(before.skip(3)));
                    }
                    push_char(&mut out, ch);
                    p = p + 3;
                } else {
                    proof {
                        assert(spec_decode(before) is None);
                    }
                    return None;
                }
            } else {
                proof {
                    assert(before.len() < 3);
                    assert(spec_decode(before) is None);
                }
                return None;
            }
        } else {
            proof {
                assert(before.skip(1) =~= v@.subrange(p as int + 1, hi as int));
                lemma_decode_app_step(out@, c, spec_decode(before.skip(1)));
            }
            push_char(&mut out, c);
            p = p + 1;
        }
    }
    proof {
        assert(v@.subrange(p as int, hi as int) =~= Seq::<char>::empty());
        assert(spec_decode(whole) == decode_app(out@, Some(Seq::<char>::empty())));
        assert(out@ + Seq::<char>::empty() =~= out@);
    }
    Some(out)
}

/// A decoded prefix joined with the decoding of the rest.
pub open spec fn decode_app(pre: Seq<char>, rest: Option<Seq<char>>) -> Option<Seq<char>> {
    match rest {
        Some(r) => Some(pre + r),
        None => None,
    }
}

proof fn lemma_decode_app_step(pre: Seq<char>, c: char, rest: Option<Seq<char>>)
    ensures
        decode_app(pre, decode_cons(c, rest)) == decode_app(pre.push(c), rest),
{
    match rest {
        Some(r) => {
            assert(pre + (seq![c] + r) =~= pre.push(c) + r);
        },
        None => {},
    }
}

/// Walks the remaining body `v[i..]`, per [`spec_walk`].
fn walk_from(v: &Vec<char>, i: usize, em: Option<String>, pw: Option<String>) -> (r: Result<
    UserJson,
    ParseError,
>)
    requires
        i <= v@.len(),
    ensures
        ({
            let sw = spec_walk(v@.skip(i as int), opt_view(em), opt_view(pw));
            match r {
                Ok(u) => sw is Ok && u.email@ == sw->Ok_0.0 && u.password@ == sw->Ok_0.1,
                Err(e) => sw is Err && e == sw->Err_0,
            }
        }),
    decreases v@.len() - i,
{
    let ghost s = v@.skip(i as int);
    let hi = v.len();
    if i == hi {
        return Err(ParseError::MalformedPair);
    }
    let amp = find_range(v, i, hi, '&');
    let j: usize = match amp {
        Some(a) => a,
        None => hi,
    };
    proof {
        match amp {
            Some(a) => {
                assert(s[a - i] == v@[a as int]);
                assert(forall|k: int| 0 <= k < a - i ==> s[k] == v@[i + k] && v@[i + k] != '&');
                lemma_find_char_at(s, '&', a - i);
                assert(s.take(j - i) =~= v@.subrange(i as int, j as int));
            },
            None => {
                assert(forall|k: int| 0 <= k < s.len() ==> s[k] == v@[i + k] && v@[i + k] != '&');
                lemma_find_char_none(s, '&');
                assert(s =~= v@.subrange(i as int, j as int));
            },
        }
    }
    let ghost seg = v@.subrange(i as int, j as int);
    let eq = find_range(v, i, j, '=');
    match eq {
        None => {
            proof {
                assert(forall|k: int| 0 <= k < seg.len() ==> seg[k] == v@[i + k] && v@[i + k] != '=');
                lemma_find_char_none(seg, '=');
            }
            Err(ParseError::MalformedPair)
        },
        Some(e) => {
            proof {
                assert(seg[e - i] == v@[e as int]);
                assert(forall|k: int| 0 <= k < e - i ==> seg[k] == v@[i + k] && v@[i + k] != '=');
                lemma_find_char_at(seg, '=', e - i);
                assert(seg.take(e - i) =~= v@.subrange(i as int, e as int));
                assert(seg.skip(e - i + 1) =~= v@.subrange(e as int + 1, j as int));
            }
            let key = decode_range(v, i, e);
            let val = decode_range(v, e + 1, j);
            match (key, val) {
                (Some(k), Some(w)) => {
                    let is_email = str_eq(k.as_str(), "email");
                    let is_password = str_eq(k.as_str(), "password");
                    if is_email && em.is_some() {
                        return Err(ParseError::DuplicateField);
                    }
                    if !is_email && is_password && pw.is_some() {
                        return Err(ParseError::DuplicateField);
                    }
                    let (em2, pw2) = if is_email {
                        (Some(w), pw)
                    } else if is_password {
                        (em, Some(w))
                    } else {
                        (em, pw)
                    };
                    match amp {
                        Some(_) => {
                            proof {
                                assert(s.skip(j - i + 1) =~= v@.skip(j as int + 1));
                            }
                            walk_from(v, j + 1, em2, pw2)
                        },
                        None => {
                            match (em2, pw2) {
                                (Some(e2), Some(p2)) => Ok(UserJson { email: e2, password: p2 }),
                                _ => Err(ParseError::MissingField),
                            }
                        },
                    }
                },
                _ => Err(ParseError::BadEscape),
            }
        },
    }
}

/// Parses an `application/x-www-form-urlencoded` body into a signup
/// submission, per [`spec_parse_form`]: returns the submitted credentials,
/// or the first error met reading left to right.
pub fn parse_form(body: &str) -> (r: Result<UserJson, ParseError>)
    ensures
        ({
            let sw = spec_parse_form(body@);
            match r {
                Ok(u) => sw is Ok && u.email@ == sw->Ok_0.0 && u.password@ == sw->Ok_0.1,
                Err(e) => sw is Err && e == sw->Err_0,
            }
        }),
{
    let v = chars_vec(body);
    proof {
        assert(v@.skip(0) =~= body@);
    }
    walk_from(&v, 0, None, None)
}

} // verus!
