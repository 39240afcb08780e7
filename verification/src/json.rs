//! JSON serialization of the entity and of lists of entities.
//!
//! The wire format is pinned down by spec functions: `json_of_user` gives
//! the exact character sequence for one record, `json_of_users` for a list.
//! Text fields are escaped as JSON requires: quote, backslash, and every
//! control character below space.

use vstd::prelude::*;

use crate::models::{User, UserView, views_of};

verus! {

/// The decimal digit character for `d` (digits ten and above never arise).
pub open spec fn digit(d: nat) -> char {
    if d == 0 { '0' }
    else if d == 1 { '1' }
    else if d == 2 { '2' }
    else if d == 3 { '3' }
    else if d == 4 { '4' }
    else if d == 5 { '5' }
    else if d == 6 { '6' }
    else if d == 7 { '7' }
    else if d == 8 { '8' }
    else { '9' }
}

/// The lower-case hexadecimal digit character for `d` (sixteen and above
/// never arise).
pub open spec fn hex_digit(d: nat) -> char {
    if d < 10 { digit(d) }
    else if d == 10 { 'a' }
    else if d == 11 { 'b' }
    else if d == 12 { 'c' }
    else if d == 13 { 'd' }
    else if d == 14 { 'e' }
    else { 'f' }
}

/// The decimal digits of `n`, most significant first, no sign and no
/// leading zero (except for `n == 0` itself).
pub open spec fn dec_of(n: nat) -> Seq<char>
    decreases n,
{
    if n < 10 {
        seq![digit(n)]
    } else {
        dec_of(n / 10).push(digit(n % 10))
    }
}

/// A JSON integer: the decimal digits, with a leading minus sign when
/// negative.
pub open spec fn json_int(i: int) -> Seq<char> {
    if i >= 0 {
        dec_of(i as nat)
    } else {
        seq!['-'] + dec_of((-i) as nat)
    }
}

/// What one character contributes to a JSON string body: quote and
/// backslash get a backslash escape, the named control characters their
/// short escape, every other control character a `\u00..` escape, and any
/// other character stands for itself.
pub open spec fn json_escape_char(c: char) -> Seq<char> {
    if c == '"' { seq!['\\', '"'] }
    else if c == '\\' { seq!['\\', '\\'] }
    else if c == '\n' { seq!['\\', 'n'] }
    else if c == '\r' { seq!['\\', 'r'] }
    else if c == '\t' { seq!['\\', 't'] }
    else if (c as u32) < 32 {
        seq!['\\', 'u', '0', '0', hex_digit((c as u32 / 16) as nat), hex_digit((c as u32 % 16) as nat)]
    } else {
        seq![c]
    }
}

/// The JSON string body for `s`: each character's contribution in order.
pub open spec fn json_escaped(s: Seq<char>) -> Seq<char>
    decreases s.len(),
{
    if s.len() == 0 {
        Seq::<char>::empty()
    } else {
        json_escaped(s.drop_last()) + json_escape_char(s.last())
    }
}

/// A JSON string: the escaped body between double quotes.
pub open spec fn json_string(s: Seq<char>) -> Seq<char> {
    seq!['"'] + json_escaped(s) + seq!['"']
}

/// The JSON object for one record: the five fields in a fixed order,
/// `id` first.
pub open spec fn json_of_user(u: UserView) -> Seq<char> {
    "{\"id\":"@ + json_int(u.id)
        + ",\"email\":"@ + json_string(u.email)
        + ",\"first_name\":"@ + json_string(u.first_name)
        + ",\"last_name\":"@ + json_string(u.last_name)
        + ",\"username\":"@ + json_string(u.username)
        + "}"@
}

/// The comma-separated objects of a list, no brackets.
pub open spec fn json_users_inner(us: Seq<UserView>) -> Seq<char>
    decreases us.len(),
{
    if us.len() == 0 {
        Seq::<char>::empty()
    } else if us.len() == 1 {
        json_of_user(us[0])
    } else {
        json_users_inner(us.drop_last()) + ","@ + json_of_user(us.last())
    }
}

/// The JSON array for a list of records, in the list's order.
pub open spec fn json_of_users(us: Seq<UserView>) -> Seq<char> {
    "["@ + json_users_inner(us) + "]"@
}

/// Relies on String::push: appends exactly the given character.
#[verifier::external_body]
fn push_char(s: &mut String, c: char)
    ensures
        final(s)@ == old(s)@.push(c),
{
    s.push(c);
}

/// The decimal digit character for `d`, executable.
fn digit_char(d: u64) -> (c: char)
    requires
        d < 10,
    ensures
        c == digit(d as nat),
{
    if d == 0 { '0' }
    else if d == 1 { '1' }
    else if d == 2 { '2' }
    else if d == 3 { '3' }
    else if d == 4 { '4' }
    else if d == 5 { '5' }
    else if d == 6 { '6' }
    else if d == 7 { '7' }
    else if d == 8 { '8' }
    else { '9' }
}

/// The lower-case hexadecimal digit character for `d`, executable.
fn hex_digit_char(d: u32) -> (c: char)
    requires
        d < 16,
    ensures
        c == hex_digit(d as nat),
{
    if d < 10 { digit_char(d as u64) }
    else if d == 10 { 'a' }
    else if d == 11 { 'b' }
    else if d == 12 { 'c' }
    else if d == 13 { 'd' }
    else if d == 14 { 'e' }
    else { 'f' }
}

/// The decimal digits of `m` as a string.
fn dec_string(m: u64) -> (r: String)
    ensures
        r@ == dec_of(m as nat),
    decreases m,
{
    if m < 10 {
        let mut s = String::new();
        push_char(&mut s, digit_char(m));
        proof {
            assert(s@ =~= dec_of(m as nat));
        }
        s
    } else {
        let mut s = dec_string(m / 10);
        push_char(&mut s, digit_char(m % 10));
        s
    }
}

/// A signed decimal as a string: `json_int` of the value.
fn int_string(v: i64) -> (r: String)
    ensures
        r@ == json_int(v as int),
{
    if v >= 0 {
        dec_string(v as u64)
    } else {
        let mut s = String::new();
        push_char(&mut s, '-');
        let m: u64 = ((-(v + 1)) as u64) + 1;
        proof {
            assert(m as nat == (-(v as int)) as nat);
        }
        let d = dec_string(m);
        s.append(d.as_str());
        proof {
            assert(s@ =~= seq!['-'] + dec_of((-(v as int)) as nat));
        }
        s
    }
}

/// The escaped JSON string body for `s`.
fn escaped_string(s: &str) -> (r: String)
    ensures
        r@ == json_escaped(s@),
{
    let n = s.unicode_len();
    let mut out = String::new();
    let mut i: usize = 0;
    proof {
        assert(out@ =~= json_escaped(s@.subrange(0, 0)));
    }
    while i < n
        invariant
            i <= n,
            n == s@.len(),
            out@ == json_escaped(s@.subrange(0, i as int)),
        decreases n - i,
    {
        let c = s.get_char(i);
        if c == '"' {
            push_char(&mut out, '\\');
            push_char(&mut out, '"');
        } else if c == '\\' {
            push_char(&mut out, '\\');
            push_char(&mut out, '\\');
        } else if c == '\n' {
            push_char(&mut out, '\\');
            push_char(&mut out, 'n');
        } else if c == '\r' {
            push_char(&mut out, '\\');
            push_char(&mut out, 'r');
        } else if c == '\t' {
            push_char(&mut out, '\\');
            push_char(&mut out, 't');
        } else {
            let code = c as u32;
            if code < 32 {
                push_char(&mut out, '\\');
                push_char(&mut out, 'u');
                push_char(&mut out, '0');
                push_char(&mut out, '0');
                push_char(&mut out, hex_digit_char(code / 16));
                push_char(&mut out, hex_digit_char(code % 16));
            } else {
                push_char(&mut out, c);
            }
        }
        proof {
            let pre = s@.subrange(0, i as int);
            let cur = s@.subrange(0, i + 1 as int);
            assert(cur.drop_last() =~= pre);
            assert(cur.last() == s@[i as int]);
            assert(out@ =~= json_escaped(pre) + json_escape_char(s@[i as int]));
        }
        i = i + 1;
    }
    proof {
        assert(s@.subrange(0, n as int) =~= s@);
    }
    out
}

/// A JSON string for `s`: the escaped body between double quotes.
fn quoted_string(s: &str) -> (r: String)
    ensures
        r@ == json_string(s@),
{
    let mut out = String::new();
    push_char(&mut out, '"');
    let body = escaped_string(s);
    out.append(body.as_str());
    push_char(&mut out, '"');
    proof {
        assert(out@ =~= json_string(s@));
    }
    out
}

/// The JSON object for one record, exactly `json_of_user` of its view.
pub fn user_json(u: &User) -> (r: String)
    ensures
        r@ == json_of_user(u@),
{
    let mut out = String::new();
    out.append("{\"id\":");
    let idp = int_string(u.id);
    out.append(idp.as_str());
    out.append(",\"email\":");
    let p1 = quoted_string(u.email.as_str());
    out.append(p1.as_str());
    out.append(",\"first_name\":");
    let p2 = quoted_string(u.first_name.as_str());
    out.append(p2.as_str());
    out.append(",\"last_name\":");
    let p3 = quoted_string(u.last_name.as_str());
    out.append(p3.as_str());
    out.append(",\"username\":");
    let p4 = quoted_string(u.username.as_str());
    out.append(p4.as_str());
    out.append("}");
    proof {
        assert(out@ =~= json_of_user(u@));
    }
    out
}

/// The JSON array for a list of records, exactly `json_of_users` of their
/// views, in the list's order. An empty list gives the empty array.
pub fn users_json(v: &Vec<User>) -> (r: String)
    ensures
        r@ == json_of_users(views_of(v@)),
{
    let ghost vs = views_of(v@);
    let mut out = String::new();
    out.append("[");
    let n = v.len();
    proof {
        assert(vs.len() == v@.len());
        assert(out@ =~= "["@ + json_users_inner(vs.subrange(0, 0)));
    }
    let mut i: usize = 0;
    while i < n
        invariant
            i <= n,
            n == v@.len(),
            vs == views_of(v@),
            vs.len() == n,
            out@ == "["@ + json_users_inner(vs.subrange(0, i as int)),
        decreases n - i,
    {
        if i > 0 {
            out.append(",");
        }
        let uj = user_json(&v[i]);
        out.append(uj.as_str());
        proof {
            let pre = vs.subrange(0, i as int);
            let cur = vs.subrange(0, i + 1 as int);
            assert(vs[i as int] == v@[i as int]@);
            if i == 0 {
                assert(cur.len() == 1);
                assert(cur[0] == vs[0]);
                assert(out@ =~= "["@ + json_users_inner(cur));
            } else {
                assert(cur.len() >= 2);
                assert(cur.drop_last() =~= pre);
                assert(cur.last() == vs[i as int]);
                assert(out@ =~= "["@ + (json_users_inner(pre) + ","@ + json_of_user(vs[i as int])));
                assert(out@ =~= "["@ + json_users_inner(cur));
            }
        }
        i = i + 1;
    }
    out.append("]");
    proof {
        assert(vs.subrange(0, n as int) =~= vs);
        assert(out@ =~= json_of_users(vs));
    }
    out
}

} // verus!
