//! The value codec of the wire: a self-delimiting binary encoding for the
//! restricted capability set, with its decoder and the round-trip proof.
//!
//! Encodings: `Unit` occupies no bytes; `Boolean` is one byte, `1` or `0`;
//! `Unsigned` is eight bytes, little endian; `Text` is an eight-byte little
//! endian length prefix followed by the payload bytes.

use vstd::prelude::*;
use vstd::bytes::*;
use vstd::slice::slice_subrange;
use vstd::slice::slice_to_vec;

use crate::errors::RpcError;
use crate::schema::WireType;
use crate::value::Value;
use crate::value::ValueModel;
use crate::value::value_has_type;

verus! {

/// The bytes that encode one value.
pub open spec fn encoding(v: ValueModel) -> Seq<u8> {
    match v {
        ValueModel::Unit => Seq::<u8>::empty(),
        ValueModel::Boolean(b) => seq![if b { 1u8 } else { 0u8 }],
        ValueModel::Unsigned(n) => spec_u64_to_le_bytes(n),
        ValueModel::Text(bs) => spec_u64_to_le_bytes(bs.len() as u64) + bs,
    }
}

/// What decoding one value of the expected wire type from the front of a
/// byte stream yields: the value and the number of bytes consumed, or
/// nothing where the stream is malformed or ends too early.
pub open spec fn decode_spec(t: WireType, s: Seq<u8>) -> Option<(ValueModel, int)> {
    match t {
        WireType::Unit => Some((ValueModel::Unit, 0int)),
        WireType::Boolean => if s.len() < 1 {
            None
        } else if s[0] == 1u8 {
            Some((ValueModel::Boolean(true), 1int))
        } else if s[0] == 0u8 {
            Some((ValueModel::Boolean(false), 1int))
        } else {
            None
        },
        WireType::Unsigned => if s.len() < 8 {
            None
        } else {
            Some((ValueModel::Unsigned(spec_u64_from_le_bytes(s.take(8))), 8int))
        },
        WireType::Text => if s.len() < 8 {
            None
        } else {
            let n = spec_u64_from_le_bytes(s.take(8)) as int;
            if s.len() - 8 < n {
                None
            } else {
                Some((ValueModel::Text(s.subrange(8, 8 + n)), 8 + n))
            }
        },
    }
}

/// A successful decode consumes a prefix of the stream and yields a value of
/// the expected type.
pub proof fn lemma_decode_spec_bounds(t: WireType, s: Seq<u8>)
    ensures
        decode_spec(t, s) matches Some(p) ==> 0 <= p.1 <= s.len() && value_has_type(p.0, t),
{
}

/// Canonicity: whatever a decode accepts is the encoding of the value it
/// yields — each value has exactly one wire representation, so an encoder
/// and a decoder built from this codec cannot drift apart.
pub proof fn lemma_encoding_canonical(t: WireType, s: Seq<u8>)
    ensures
        decode_spec(t, s) matches Some(p) ==> s.take(p.1) == encoding(p.0),
{
    lemma_auto_spec_u64_to_from_le_bytes();
    match t {
        WireType::Unit => {
            if let Some(p) = decode_spec(t, s) {
                assert(s.take(0) =~= encoding(p.0));
            }
        },
        WireType::Boolean => {
            if let Some(p) = decode_spec(t, s) {
                assert(s.take(1) =~= encoding(p.0));
            }
        },
        WireType::Unsigned => {
            if let Some(p) = decode_spec(t, s) {
                assert(s.take(8).take(8) =~= s.take(8));
                assert(s.take(8) =~= encoding(p.0));
            }
        },
        WireType::Text => {
            if s.len() >= 8 {
                let n = spec_u64_from_le_bytes(s.take(8)) as int;
                if s.len() - 8 >= n {
                    let bs = s.subrange(8, 8 + n);
                    assert(bs.len() as u64 == spec_u64_from_le_bytes(s.take(8)));
                    assert(s.take(8).take(8) =~= s.take(8));
                    assert(s.take(8 + n) =~= spec_u64_to_le_bytes(bs.len() as u64) + bs);
                }
            }
        },
    }
}

/// Round trip: a well-typed value's encoding, whatever follows it on the
/// stream, decodes back to exactly that value, consuming exactly the
/// encoding's bytes.
pub proof fn lemma_decode_encoding(v: ValueModel, t: WireType, rest: Seq<u8>)
    requires
        value_has_type(v, t),
    ensures
        decode_spec(t, encoding(v) + rest) == Some((v, encoding(v).len() as int)),
{
    lemma_auto_spec_u64_to_from_le_bytes();
    match v {
        ValueModel::Unit => {
            assert(encoding(v) + rest =~= rest);
        },
        ValueModel::Boolean(b) => {
            let s = encoding(v) + rest;
            assert(s[0] == (if b { 1u8 } else { 0u8 }));
        },
        ValueModel::Unsigned(n) => {
            let s = encoding(v) + rest;
            assert(s.take(8) =~= spec_u64_to_le_bytes(n));
        },
        ValueModel::Text(bs) => {
            let len64 = bs.len() as u64;
            let s = encoding(v) + rest;
            assert(s.take(8) =~= spec_u64_to_le_bytes(len64));
            assert(spec_u64_from_le_bytes(s.take(8)) == len64);
            assert(len64 as int == bs.len() as int);
            assert(s.subrange(8, 8 + bs.len() as int) =~= bs);
        },
    }
}

/// Appends the bytes of `src` to `out`.
fn push_bytes(out: &mut Vec<u8>, src: &Vec<u8>)
    ensures
        final(out)@ == old(out)@ + src@,
{
    let mut i: usize = 0;
    while i < src.len()
        invariant
            i <= src@.len(),
            out@ == old(out)@ + src@.take(i as int),
        decreases src@.len() - i,
    {
        let b: u8 = src[i];
        out.push(b);
        proof {
            assert(old(out)@ + src@.take(i + 1) =~= (old(out)@ + src@.take(i as int)).push(
                src@[i as int],
            ));
        }
        i = i + 1;
    }
    proof {
        assert(src@.take(src@.len() as int) =~= src@);
    }
}

/// Encodes one value, appending its bytes to the sink.
pub fn encode_value(v: &Value, out: &mut Vec<u8>)
    ensures
        final(out)@ == old(out)@ + encoding(v@),
{
    match v {
        Value::Unit => {
            proof {
                assert(old(out)@ + encoding(v@) =~= old(out)@);
            }
        },
        Value::Boolean(b) => {
            out.push(if *b { 1u8 } else { 0u8 });
            proof {
                assert(old(out)@ + encoding(v@) =~= old(out)@.push(if *b { 1u8 } else { 0u8 }));
            }
        },
        Value::Unsigned(n) => {
            let bytes = u64_to_le_bytes(*n);
            push_bytes(out, &bytes);
        },
        Value::Text(bs) => {
            let len64: u64 = bs.len() as u64;
            let prefix = u64_to_le_bytes(len64);
            push_bytes(out, &prefix);
            push_bytes(out, bs);
            proof {
                assert((old(out)@ + spec_u64_to_le_bytes(len64)) + bs@ =~= old(out)@ + (
                spec_u64_to_le_bytes(len64) + bs@));
            }
        },
    }
}

/// Decodes one value of the expected wire type from `buf`, starting at
/// `pos`.  Returns the value and the position just past its encoding, or a
/// decoding failure where the bytes are malformed or run out; bytes after
/// the encoding are left for the caller.
pub fn decode_value(t: WireType, buf: &Vec<u8>, pos: usize) -> (r: Result<(Value, usize), RpcError>)
    requires
        pos <= buf@.len(),
    ensures
        match decode_spec(t, buf@.skip(pos as int)) {
            Some(p) => {
                &&& r matches Ok(q)
                &&& q.0@ == p.0
                &&& q.1 as int == pos + p.1
                &&& pos + p.1 <= buf@.len()
            },
            None => r == Err::<(Value, usize), RpcError>(RpcError::DecodingFailure),
        },
{
    let ghost s = buf@.skip(pos as int);
    match t {
        WireType::Unit => Ok((Value::Unit, pos)),
        WireType::Boolean => {
            if buf.len() - pos < 1 {
                Err(RpcError::DecodingFailure)
            } else {
                let b: u8 = buf[pos];
                assert(b == s[0]);
                if b == 1u8 {
                    Ok((Value::Boolean(true), pos + 1))
                } else if b == 0u8 {
                    Ok((Value::Boolean(false), pos + 1))
                } else {
                    Err(RpcError::DecodingFailure)
                }
            }
        },
        WireType::Unsigned => {
            if buf.len() - pos < 8 {
                Err(RpcError::DecodingFailure)
            } else {
                let bytes = slice_subrange(buf.as_slice(), pos, pos + 8);
                let n = u64_from_le_bytes(bytes);
                proof {
                    assert(bytes@ =~= s.take(8));
                }
                Ok((Value::Unsigned(n), pos + 8))
            }
        },
        WireType::Text => {
            if buf.len() - pos < 8 {
                Err(RpcError::DecodingFailure)
            } else {
                let bytes = slice_subrange(buf.as_slice(), pos, pos + 8);
                let n = u64_from_le_bytes(bytes);
                proof {
                    assert(bytes@ =~= s.take(8));
                }
                let remaining: usize = buf.len() - pos - 8;
                if n > remaining as u64 {
                    Err(RpcError::DecodingFailure)
                } else {
                    let nn: usize = n as usize;
                    let payload = slice_to_vec(slice_subrange(buf.as_slice(), pos + 8, pos + 8 + nn));
                    proof {
                        assert(payload@ =~= s.subrange(8, 8 + n as int));
                    }
                    Ok((Value::Text(payload), pos + 8 + nn))
                }
            }
        },
    }
}

} // verus!
