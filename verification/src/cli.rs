//! Validation of the already-collected command-line inputs: the listen host
//! as four dot-separated octets, the port with its forbidden values, and the
//! pass-through name and log path.  Collecting the raw strings from the
//! process's arguments is the surrounding process's work; the rules on them
//! live here.

use vstd::prelude::*;
use vstd::string::StrSliceExecFns;
use vstd::string::StringExecFns;

verus! {

/// A decimal digit.
pub open spec fn is_digit(c: char) -> bool {
    48 <= c as int <= 57
}

/// The numeric value of a decimal digit.
pub open spec fn digit_val(c: char) -> int {
    c as int - 48
}

/// Every character of `s` is a decimal digit.
pub open spec fn all_digits(s: Seq<char>) -> bool {
    forall|i: int| 0 <= i < s.len() ==> is_digit(#[trigger] s[i])
}

/// The number that a string of decimal digits denotes, most significant
/// digit first.
pub open spec fn digits_val(s: Seq<char>) -> int
    decreases s.len(),
{
    if s.len() == 0 {
        0
    } else {
        digits_val(s.drop_last()) * 10 + digit_val(s.last())
    }
}

/// The digits of an unsigned decimal literal: what remains after the
/// optional leading plus sign that integer parsing accepts.
pub open spec fn u8_literal(s: Seq<char>) -> Seq<char> {
    if s.len() > 0 && s[0] == '+' {
        s.subrange(1, s.len() as int)
    } else {
        s
    }
}

/// Whether `s` parses as a `u8`: an optional plus sign, then at least one
/// digit, denoting a value of at most 255.
pub open spec fn parses_as_u8(s: Seq<char>) -> bool {
    let d = u8_literal(s);
    d.len() > 0 && all_digits(d) && digits_val(d) <= 255
}

/// A digit string denotes a non-negative number.
proof fn lemma_digits_val_nonneg(s: Seq<char>)
    requires
        all_digits(s),
    ensures
        digits_val(s) >= 0,
    decreases s.len(),
{
    if s.len() > 0 {
        assert(all_digits(s.drop_last()));
        lemma_digits_val_nonneg(s.drop_last());
    }
}

/// Parse one host octet, with exactly the acceptance of `u8` parsing: the
/// octet's value, or nothing for a string that is not a `u8` literal.
pub fn parse_octet(part: &str) -> (r: Option<u8>)
    ensures
        r matches Some(v) ==> parses_as_u8(part@) && v as int == digits_val(u8_literal(part@)),
        r is None ==> !parses_as_u8(part@),
{
    let n = part.unicode_len();
    let plus = n > 0 && part.get_char(0) == '+';
    let start: usize = if plus { 1 } else { 0 };
    proof {
        assert(u8_literal(part@) =~= part@.subrange(start as int, n as int));
    }
    if start == n {
        return Option::None;
    }
    let mut acc: u32 = 0;
    let mut i: usize = start;
    while i < n
        invariant
            start <= i <= n,
            n == part@.len(),
            u8_literal(part@) == part@.subrange(start as int, n as int),
            acc < 3000,
            all_digits(part@.subrange(start as int, i as int)),
            digits_val(part@.subrange(start as int, i as int)) <= 255 ==> acc == digits_val(
                part@.subrange(start as int, i as int),
            ),
            digits_val(part@.subrange(start as int, i as int)) > 255 ==> acc > 255,
        decreases n - i,
    {
        let c = part.get_char(i);
        let u = c as u32;
        if u < 48 || u > 57 {
            proof {
                let lit = part@.subrange(start as int, n as int);
                assert(!all_digits(lit)) by {
                    assert(0 <= i - start < lit.len());
                    assert(lit[i - start] == part@[i as int]);
                    assert(!is_digit(lit[i - start]));
                }
                assert(u8_literal(part@) == lit);
                assert(!all_digits(u8_literal(part@)));
                assert(!parses_as_u8(part@));
            }
            return Option::None;
        }
        let d = u - 48;
        proof {
            let seen = part@.subrange(start as int, i as int);
            let seen2 = part@.subrange(start as int, i + 1 as int);
            assert(seen2.drop_last() =~= seen);
            assert(seen2.last() == part@[i as int]);
            assert(digits_val(seen2) == digits_val(seen) * 10 + digit_val(part@[i as int]));
            assert(all_digits(seen2));
            lemma_digits_val_nonneg(seen);
        }
        if acc > 255 {
            acc = 256;
        } else {
            acc = acc * 10 + d;
        }
        i = i + 1;
    }
    proof {
        let lit = part@.subrange(start as int, n as int);
        lemma_digits_val_nonneg(lit);
    }
    if acc > 255 {
        Option::None
    } else {
        Some(acc as u8)
    }
}

/// The position of the first dot in `s`, or `s.len()` if there is none.
pub open spec fn first_dot(s: Seq<char>) -> nat
    decreases s.len(),
{
    if s.len() == 0 {
        0
    } else if s[0] == '.' {
        0
    } else {
        1 + first_dot(s.drop_first())
    }
}

/// What [`first_dot`] finds: an in-range index of a dot preceded by no dot,
/// or the length when the string has no dot at all.
pub proof fn lemma_first_dot(s: Seq<char>)
    ensures
        first_dot(s) <= s.len(),
        first_dot(s) < s.len() ==> s[first_dot(s) as int] == '.',
        forall|j: int| 0 <= j < first_dot(s) ==> s[j] != '.',
    decreases s.len(),
{
    if s.len() > 0 && s[0] != '.' {
        lemma_first_dot(s.drop_first());
        assert forall|j: int| 0 <= j < first_dot(s) implies s[j] != '.' by {
            if j > 0 {
                assert(s.drop_first()[j - 1] != '.');
            }
        }
    }
}

/// The dot-separated pieces of `s`, in order: one more piece than there are
/// dots, pieces may be empty.
pub open spec fn split_dots(s: Seq<char>) -> Seq<Seq<char>>
    decreases s.len(),
{
    let d = first_dot(s);
    if d >= s.len() {
        seq![s]
    } else {
        seq![s.subrange(0, d as int)] + split_dots(s.subrange(d as int + 1, s.len() as int))
    }
}

/// The host is well-formed exactly when it has four dot-separated pieces and
/// each piece parses as a `u8`.
pub open spec fn all_octets_ok(parts: Seq<Seq<char>>) -> bool {
    &&& parses_as_u8(parts[0])
    &&& parses_as_u8(parts[1])
    &&& parses_as_u8(parts[2])
    &&& parses_as_u8(parts[3])
}

/// The rejection text for the first of the four pieces that is no `u8`.
pub open spec fn octet_error_text(parts: Seq<Seq<char>>) -> Seq<char> {
    if !parses_as_u8(parts[0]) {
        "Uncorrect part of host: "@ + parts[0]
    } else if !parses_as_u8(parts[1]) {
        "Uncorrect part of host: "@ + parts[1]
    } else if !parses_as_u8(parts[2]) {
        "Uncorrect part of host: "@ + parts[2]
    } else {
        "Uncorrect part of host: "@ + parts[3]
    }
}

/// The rejection text for one host piece.
fn octet_error(part: &str) -> (e: String)
    ensures
        e@ == "Uncorrect part of host: "@ + part@,
{
    let mut e = String::from_str("Uncorrect part of host: ");
    e.append(part);
    e
}

/// Split `host` at its dots.
fn split_host(host: &str) -> (parts: Vec<&str>)
    ensures
        parts.deep_view() == split_dots(host@),
{
    let n = host.unicode_len();
    let mut parts: Vec<&str> = Vec::new();
    let mut seg_start: usize = 0;
    let mut i: usize = 0;
    proof {
        assert(host@.subrange(0, n as int) =~= host@);
        assert(parts.deep_view() =~~= Seq::<Seq<char>>::empty());
        assert(split_dots(host@) =~~= parts.deep_view() + split_dots(
            host@.subrange(0, n as int),
        ));
    }
    while i < n
        invariant
            seg_start <= i <= n,
            n == host@.len(),
            forall|j: int| seg_start <= j < i ==> host@[j] != '.',
            split_dots(host@) == parts.deep_view() + split_dots(
                host@.subrange(seg_start as int, n as int),
            ),
        decreases n - i,
    {
        let c = host.get_char(i);
        if c == '.' {
            let ghost prev_parts = parts.deep_view();
            let piece = host.substring_char(seg_start, i);
            parts.push(piece);
            proof {
                let rem = host@.subrange(seg_start as int, n as int);
                let rel = i - seg_start;
                lemma_first_dot(rem);
                assert(rem[rel] == host@[i as int]);
                assert forall|j: int| 0 <= j < rel implies rem[j] != '.' by {
                    assert(rem[j] == host@[seg_start + j]);
                }
                assert(first_dot(rem) == rel) by {
                    if first_dot(rem) < rel {
                        assert(rem[first_dot(rem) as int] == '.');
                    }
                    if first_dot(rem) > rel {
                        assert(rem[rel] != '.');
                    }
                }
                assert(rem.subrange(0, rel) =~= host@.subrange(seg_start as int, i as int));
                assert(rem.subrange(rel + 1, rem.len() as int) =~= host@.subrange(
                    i + 1,
                    n as int,
                ));
                assert(split_dots(rem) == seq![host@.subrange(seg_start as int, i as int)]
                    + split_dots(host@.subrange(i + 1, n as int)));
                assert(piece@ == host@.subrange(seg_start as int, i as int));
                assert(parts.deep_view() =~~= prev_parts.push(piece@));
                assert(split_dots(host@) =~~= parts.deep_view() + split_dots(
                    host@.subrange(i + 1, n as int),
                ));
            }
            seg_start = i + 1;
        }
        i = i + 1;
    }
    let last = host.substring_char(seg_start, n);
    parts.push(last);
    proof {
        let rem = host@.subrange(seg_start as int, n as int);
        lemma_first_dot(rem);
        assert forall|j: int| 0 <= j < rem.len() implies rem[j] != '.' by {
            assert(rem[j] == host@[seg_start + j]);
        }
        assert(first_dot(rem) == rem.len());
        assert(split_dots(rem) == seq![rem]);
        assert(parts.deep_view() =~~= split_dots(host@));
    }
    parts
}

/// The four octet values of a well-formed host, in order.
pub open spec fn octet_vals(parts: Seq<Seq<char>>) -> Seq<u8> {
    seq![
        digits_val(u8_literal(parts[0])) as u8,
        digits_val(u8_literal(parts[1])) as u8,
        digits_val(u8_literal(parts[2])) as u8,
        digits_val(u8_literal(parts[3])) as u8,
    ]
}

/// Validate the collected command-line inputs and assemble the
/// configuration: the pass-through name, the host as four octets, the port,
/// and the log file path.  The host must be four dot-separated `u8` pieces;
/// the port must be neither zero nor a bound system port; the first rule
/// violated, in this order, names the rejection.
pub fn parse(name: String, host: &str, port: u16, log_file_path: String) -> (r: Result<
    (String, [u8; 4], u16, String),
    String,
>)
    ensures
        ({
            let parts = split_dots(host@);
            &&& parts.len() != 4 ==> (r matches Err(e) && e@
                == "Host must be an octets splieted by dots like 0.0.0.0"@)
            &&& parts.len() == 4 && port == 0 ==> (r matches Err(e) && e@
                == "Port mustn't be zero"@)
            &&& parts.len() == 4 && port != 0 && (port == 8080 || port == 80) ==> (r matches Err(e)
                && e@ == "Cann't bind system port"@)
            &&& parts.len() == 4 && port != 0 && port != 8080 && port != 80 && !all_octets_ok(
                parts,
            ) ==> (r matches Err(e) && e@ == octet_error_text(parts))
            &&& parts.len() == 4 && port != 0 && port != 8080 && port != 80 && all_octets_ok(
                parts,
            ) ==> (r matches Ok(t) && t.0@ == name@ && t.1@ == octet_vals(parts) && t.2 == port
                && t.3@ == log_file_path@)
        }),
{
    let parts = split_host(host);
    if parts.len() != 4 {
        return Err(String::from_str("Host must be an octets splieted by dots like 0.0.0.0"));
    }
    if port == 0 {
        return Err(String::from_str("Port mustn't be zero"));
    }
    if port == 8080 || port == 80 {
        return Err(String::from_str("Cann't bind system port"));
    }
    let p0 = parts[0];
    let p1 = parts[1];
    let p2 = parts[2];
    let p3 = parts[3];
    proof {
        assert(p0@ == split_dots(host@)[0]);
        assert(p1@ == split_dots(host@)[1]);
        assert(p2@ == split_dots(host@)[2]);
        assert(p3@ == split_dots(host@)[3]);
    }
    let v0 = match parse_octet(p0) {
        Some(v) => v,
        _ => { return Err(octet_error(p0)) },
    };
    let v1 = match parse_octet(p1) {
        Some(v) => v,
        _ => { return Err(octet_error(p1)) },
    };
    let v2 = match parse_octet(p2) {
        Some(v) => v,
        _ => { return Err(octet_error(p2)) },
    };
    let v3 = match parse_octet(p3) {
        Some(v) => v,
        _ => { return Err(octet_error(p3)) },
    };
    let octets: [u8; 4] = [v0, v1, v2, v3];
    proof {
        assert(octets@ =~= octet_vals(split_dots(host@)));
    }
    Ok((name, octets, port, log_file_path))
}

} // verus!
