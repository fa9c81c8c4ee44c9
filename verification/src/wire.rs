use vstd::prelude::*;

use crate::errors::ObsError;

verus! {

/// Decimal digit bytes of `n`, most significant first.
pub open spec fn dec_digits(n: nat) -> Seq<u8>
    decreases n,
{
    if n < 10 {
        seq![(48 + n) as u8]
    } else {
        dec_digits((n / 10) as nat).push((48 + n % 10) as u8)
    }
}

/// The decimal spelling of a signed 32-bit value, as bytes.
pub open spec fn dec_i32(n: i32) -> Seq<u8> {
    if n >= 0 {
        dec_digits(n as nat)
    } else {
        seq![45u8] + dec_digits((0 - n as int) as nat)
    }
}

/// The bytes of `{"cmd":`.
pub open spec fn open_cmd_bytes() -> Seq<u8> {
    seq![123u8, 34u8, 99u8, 109u8, 100u8, 34u8, 58u8]
}

/// The bytes of `,"identifier":`.
pub open spec fn ident_key_bytes() -> Seq<u8> {
    seq![44u8, 34u8, 105u8, 100u8, 101u8, 110u8, 116u8, 105u8, 102u8, 105u8, 101u8, 114u8, 34u8, 58u8]
}

/// The one JSON line that carries a command: `{"cmd":C}`, with
/// `,"identifier":I` when an identifier is given, and with the
/// command-specific members spliced in at the top level.
pub open spec fn encoded_command(cmd: i32, identifier: Option<i32>, members: Seq<u8>) -> Seq<u8> {
    open_cmd_bytes() + dec_i32(cmd) + (match identifier {
        Option::Some(id) => ident_key_bytes() + dec_i32(id),
        Option::None => Seq::empty(),
    }) + (if members.len() == 0 {
        Seq::empty()
    } else {
        seq![44u8] + members
    }) + seq![125u8]
}

/// Whether `b` has the outer shape of a JSON object: at least `{` and `}`,
/// with those braces first and last.
pub open spec fn is_object_shaped(b: Seq<u8>) -> bool {
    b.len() >= 2 && b[0] == 123u8 && b[b.len() - 1] == 125u8
}

/// Appends the decimal digits of `n`.
fn push_dec_u32(v: &mut Vec<u8>, n: u32)
    ensures
        final(v)@ == old(v)@ + dec_digits(n as nat),
    decreases n,
{
    if n >= 10 {
        push_dec_u32(v, n / 10);
    }
    let d: u8 = (n % 10) as u8;
    v.push(48 + d);
    assert(v@ =~= old(v)@ + dec_digits(n as nat));
}

/// Appends the decimal spelling of `n`, with a leading minus sign when
/// `n` is negative.
fn push_dec_i32(v: &mut Vec<u8>, n: i32)
    ensures
        final(v)@ == old(v)@ + dec_i32(n),
{
    if n < 0 {
        v.push(45);
        let m: u32 = (-(n as i64)) as u32;
        push_dec_u32(v, m);
        assert(v@ =~= old(v)@ + dec_i32(n));
    } else {
        push_dec_u32(v, n as u32);
    }
}

/// Encodes a command that has no payload of its own.
pub fn encode_simple_command(cmd: i32, identifier: Option<i32>) -> (r: Vec<u8>)
    ensures
        r@ == encoded_command(cmd, identifier, Seq::empty()),
{
    let mut v = encode_simple_command_open(cmd, identifier);
    v.push(125);
    assert(v@ =~= encoded_command(cmd, identifier, Seq::empty()));
    v
}

/// Encodes a command whose payload is the serialized JSON object
/// `payload`; the payload's members are flattened into the command
/// object itself.
///
/// A payload that does not have the outer shape of a JSON object is
/// rejected with a `Serialization` error.
pub fn encode_command(cmd: i32, identifier: Option<i32>, payload: &[u8]) -> (r: Result<
    Vec<u8>,
    ObsError,
>)
    ensures
        r is Ok <==> is_object_shaped(payload@),
        (r matches Ok(v) ==> v@ == encoded_command(
            cmd,
            identifier,
            payload@.subrange(1, payload@.len() - 1),
        )),
        (r matches Err(e) ==> e matches ObsError::Serialization(_)),
{
    let n = payload.len();
    if n < 2 || payload[0] != 123 || payload[n - 1] != 125 {
        return Result::Err(
            ObsError::Serialization(String::from_str("command payload is not a JSON object")),
        );
    }
    let mut v = encode_simple_command_open(cmd, identifier);
    let members = vstd::slice::slice_subrange(payload, 1, n - 1);
    if members.len() > 0 {
        v.push(44);
        v.extend_from_slice(members);
    }
    v.push(125);
    assert(v@ =~= encoded_command(cmd, identifier, payload@.subrange(1, payload@.len() - 1)));
    Result::Ok(v)
}

/// Encodes the opening of a command object, up to but not including the
/// closing brace.
fn encode_simple_command_open(cmd: i32, identifier: Option<i32>) -> (r: Vec<u8>)
    ensures
        r@ == open_cmd_bytes() + dec_i32(cmd) + (match identifier {
            Option::Some(id) => ident_key_bytes() + dec_i32(id),
            Option::None => Seq::empty(),
        }),
{
    let mut v: Vec<u8> = Vec::new();
    v.extend_from_slice(&[123, 34, 99, 109, 100, 34, 58]);
    push_dec_i32(&mut v, cmd);
    match identifier {
        Option::Some(id) => {
            v.extend_from_slice(&[44, 34, 105, 100, 101, 110, 116, 105, 102, 105, 101, 114, 34, 58]);
            push_dec_i32(&mut v, id);
        },
        Option::None => {},
    }
    assert(v@ =~= open_cmd_bytes() + dec_i32(cmd) + (match identifier {
        Option::Some(id) => ident_key_bytes() + dec_i32(id),
        Option::None => Seq::<u8>::empty(),
    }));
    v
}

/// `b`, guaranteed to end with a newline byte: unchanged when it already
/// does, with one appended when it does not.
pub open spec fn with_newline(b: Seq<u8>) -> Seq<u8> {
    if b.len() > 0 && b[b.len() - 1] == 10u8 {
        b
    } else {
        b.push(10u8)
    }
}

/// Normalizes a command line to end with exactly the newline the wire
/// format asks for.
pub fn ensure_trailing_newline(line: &mut Vec<u8>)
    ensures
        final(line)@ == with_newline(old(line)@),
{
    let n = line.len();
    if n == 0 || line[n - 1] != 10 {
        line.push(10);
    }
}

} // verus!
