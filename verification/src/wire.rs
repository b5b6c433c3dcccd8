//! The wire form of a request: the exact JSON text that one HTTP POST
//! carries. The body is built here, character by character, so that the
//! envelope a peer sees is pinned down to the last quote; only the HTTP
//! transport itself lives outside the crate.

use vstd::prelude::*;

use crate::rpc::JsonRpcRequest;

verus! {

/// The character for one decimal digit.
pub open spec fn dec_digit(d: int) -> char {
    if d == 0 {
        '0'
    } else if d == 1 {
        '1'
    } else if d == 2 {
        '2'
    } else if d == 3 {
        '3'
    } else if d == 4 {
        '4'
    } else if d == 5 {
        '5'
    } else if d == 6 {
        '6'
    } else if d == 7 {
        '7'
    } else if d == 8 {
        '8'
    } else {
        '9'
    }
}

/// The decimal digits of `n`, most significant first, no leading zeros.
pub open spec fn dec_digits(n: int) -> Seq<char>
    decreases n,
{
    if n < 10 {
        seq![dec_digit(n)]
    } else {
        dec_digits(n / 10).push(dec_digit(n % 10))
    }
}

/// The character for one hexadecimal digit.
pub open spec fn hex_digit(d: int) -> char {
    if d < 10 {
        dec_digit(d)
    } else if d == 10 {
        'a'
    } else if d == 11 {
        'b'
    } else if d == 12 {
        'c'
    } else if d == 13 {
        'd'
    } else if d == 14 {
        'e'
    } else {
        'f'
    }
}

/// How one character appears inside a JSON string: quotes, backslashes
/// and control characters are escaped, everything else stands as itself.
pub open spec fn esc_char(c: char) -> Seq<char> {
    if c == '"' {
        seq!['\\', '"']
    } else if c == '\\' {
        seq!['\\', '\\']
    } else if c == '\n' {
        seq!['\\', 'n']
    } else if c == '\r' {
        seq!['\\', 'r']
    } else if c == '\t' {
        seq!['\\', 't']
    } else if (c as u32) < 0x20 {
        seq!['\\', 'u', '0', '0', hex_digit(c as u32 as int / 16), hex_digit(c as u32 as int % 16)]
    } else {
        seq![c]
    }
}

/// The JSON-escaped form of a whole character sequence.
pub open spec fn json_escaped(s: Seq<char>) -> Seq<char>
    decreases s.len(),
{
    if s.len() == 0 {
        Seq::empty()
    } else {
        json_escaped(s.drop_last()) + esc_char(s.last())
    }
}

/// The parameter values as the inside of a JSON array of strings:
/// comma-separated, each value escaped and quoted.
pub open spec fn params_wire(params: Seq<String>) -> Seq<char>
    decreases params.len(),
{
    if params.len() == 0 {
        Seq::empty()
    } else if params.len() == 1 {
        "\""@ + json_escaped(params[0]@) + "\""@
    } else {
        params_wire(params.drop_last()) + ",\""@ + json_escaped(params.last()@) + "\""@
    }
}

/// The full request body: a JSON object with exactly the keys `jsonrpc`
/// (the literal "2.0"), `method`, `params` (an array of strings) and `id`
/// (a non-negative integer), in that order.
pub open spec fn request_wire(method: Seq<char>, params: Seq<String>, id: u64) -> Seq<char> {
    "{\"jsonrpc\":\"2.0\",\"method\":\""@ + json_escaped(method) + "\",\"params\":["@
        + params_wire(params) + "],\"id\":"@ + dec_digits(id as int) + "}"@
}

/// Writes one decimal digit.
fn push_dec_digit(out: &mut String, d: u64)
    ensures
        final(out)@ == old(out)@.push(dec_digit(d as int)),
{
    if d == 0 {
        out.push('0');
    } else if d == 1 {
        out.push('1');
    } else if d == 2 {
        out.push('2');
    } else if d == 3 {
        out.push('3');
    } else if d == 4 {
        out.push('4');
    } else if d == 5 {
        out.push('5');
    } else if d == 6 {
        out.push('6');
    } else if d == 7 {
        out.push('7');
    } else if d == 8 {
        out.push('8');
    } else {
        out.push('9');
    }
}

/// Writes the decimal form of `n`, most significant digit first.
fn push_dec(out: &mut String, n: u64)
    ensures
        final(out)@ == old(out)@ + dec_digits(n as int),
    decreases n,
{
    if n < 10 {
        push_dec_digit(out, n);
        proof {
            assert(old(out)@.push(dec_digit(n as int)) =~= old(out)@ + dec_digits(n as int));
        }
    } else {
        push_dec(out, n / 10);
        push_dec_digit(out, n % 10);
        proof {
            assert((old(out)@ + dec_digits(n as int / 10)).push(dec_digit(n as int % 10)) =~= old(
                out,
            )@ + dec_digits(n as int));
        }
    }
}

/// Writes one hexadecimal digit.
fn push_hex_digit(out: &mut String, d: u32)
    ensures
        final(out)@ == old(out)@.push(hex_digit(d as int)),
{
    if d < 10 {
        push_dec_digit(out, d as u64);
    } else if d == 10 {
        out.push('a');
    } else if d == 11 {
        out.push('b');
    } else if d == 12 {
        out.push('c');
    } else if d == 13 {
        out.push('d');
    } else if d == 14 {
        out.push('e');
    } else {
        out.push('f');
    }
}

/// Writes one character in its escaped JSON-string form.
fn push_escaped_char(out: &mut String, c: char)
    ensures
        final(out)@ == old(out)@ + esc_char(c),
{
    if c == '"' {
        out.push('\\');
        out.push('"');
    } else if c == '\\' {
        out.push('\\');
        out.push('\\');
    } else if c == '\n' {
        out.push('\\');
        out.push('n');
    } else if c == '\r' {
        out.push('\\');
        out.push('r');
    } else if c == '\t' {
        out.push('\\');
        out.push('t');
    } else if (c as u32) < 0x20 {
        out.push('\\');
        out.push('u');
        out.push('0');
        out.push('0');
        push_hex_digit(out, (c as u32) / 16);
        push_hex_digit(out, (c as u32) % 16);
    } else {
        out.push(c);
    }
    proof {
        assert(final(out)@ =~= old(out)@ + esc_char(c));
    }
}

/// Writes the JSON-escaped form of a whole string.
fn push_escaped(out: &mut String, s: &str)
    ensures
        final(out)@ == old(out)@ + json_escaped(s@),
{
    let len = s.unicode_len();
    let mut i: usize = 0;
    while i < len
        invariant
            i <= len,
            len == s@.len(),
            out@ == old(out)@ + json_escaped(s@.take(i as int)),
        decreases len - i,
    {
        let c = s.get_char(i);
        push_escaped_char(out, c);
        proof {
            assert(s@.take(i as int + 1).drop_last() =~= s@.take(i as int));
            assert((old(out)@ + json_escaped(s@.take(i as int))) + esc_char(c) =~= old(out)@
                + json_escaped(s@.take(i as int + 1)));
        }
        i = i + 1;
    }
    proof {
        assert(s@.take(len as int) =~= s@);
    }
}

/// Builds the exact JSON text that carries `req` over the wire.
pub fn request_body(req: &JsonRpcRequest) -> (r: String)
    ensures
        r@ == request_wire(req.method@, req.params@, req.id),
{
    let mut r = "{\"jsonrpc\":\"2.0\",\"method\":\"".to_owned();
    push_escaped(&mut r, req.method.as_str());
    r.append("\",\"params\":[");
    let ghost prefix = "{\"jsonrpc\":\"2.0\",\"method\":\""@ + json_escaped(req.method@)
        + "\",\"params\":["@;
    proof {
        assert(r@ =~= prefix);
    }
    let mut i: usize = 0;
    while i < req.params.len()
        invariant
            i <= req.params@.len(),
            r@ == prefix + params_wire(req.params@.take(i as int)),
        decreases req.params@.len() - i,
    {
        if i > 0 {
            r.append(",\"");
        } else {
            r.append("\"");
        }
        push_escaped(&mut r, req.params[i].as_str());
        r.append("\"");
        proof {
            assert(req.params@.take(i as int + 1).drop_last() =~= req.params@.take(i as int));
            assert(req.params@.take(i as int + 1).last() == req.params@[i as int]);
            assert(r@ =~= prefix + params_wire(req.params@.take(i as int + 1)));
        }
        i = i + 1;
    }
    proof {
        assert(req.params@.take(req.params@.len() as int) =~= req.params@);
    }
    r.append("],\"id\":");
    push_dec(&mut r, req.id);
    r.append("}");
    proof {
        assert(r@ =~= request_wire(req.method@, req.params@, req.id));
    }
    r
}

} // verus!
