//! The client-side half of the convention: encoding one call as request
//! bytes and decoding the single reply.  A call is one write-then-read round
//! trip on a binding that is consumed by the call; the transport that carries
//! the bytes is the harness's concern.

use vstd::prelude::*;
use vstd::bytes::u64_to_le_bytes;

use crate::codec::decode_spec;
use crate::codec::decode_value;
use crate::codec::encode_value;
use crate::errors::RpcError;
use crate::schema::InterfaceSpecification;
use crate::schema::Param;
use crate::schema::params_model;
use crate::schema::param_types;
use crate::schema::WireType;
use crate::value::Value;
use crate::value::args_match;
use crate::value::vals_model;
use crate::value::value_has_type_exec;
use crate::wire::encode_args;
use crate::wire::request_encoding;

verus! {

/// Decides whether an argument list fits a method's declared parameters.
pub fn args_match_exec(args: &Vec<Value>, params: &Vec<Param>) -> (b: bool)
    ensures
        b == args_match(vals_model(args@), params_model(params@)),
{
    let ghost vs = vals_model(args@);
    let ghost tys = param_types(params_model(params@));
    if args.len() != params.len() {
        return false;
    }
    let mut i: usize = 0;
    while i < args.len()
        invariant
            i <= args@.len(),
            args@.len() == params@.len(),
            vs == vals_model(args@),
            tys == param_types(params_model(params@)),
            forall|j: int| 0 <= j < i ==> crate::value::value_has_type(#[trigger] vs[j], tys[j]),
        decreases args@.len() - i,
    {
        let ok = value_has_type_exec(&args[i], params[i].ty);
        if !ok {
            proof {
                assert(vs[i as int] == args@[i as int]@);
                assert(tys[i as int] == params@[i as int]@.ty);
            }
            return false;
        }
        proof {
            assert(vs[i as int] == args@[i as int]@);
            assert(tys[i as int] == params@[i as int]@.ty);
        }
        i = i + 1;
    }
    true
}

/// Appends the encodings of `args[idx..]`, in order, to the sink.
pub fn encode_args_from(args: &Vec<Value>, idx: usize, out: &mut Vec<u8>)
    requires
        idx <= args@.len(),
    ensures
        final(out)@ == old(out)@ + encode_args(vals_model(args@).skip(idx as int)),
    decreases args@.len() - idx,
{
    let ghost vs = vals_model(args@);
    if idx == args.len() {
        proof {
            assert(old(out)@ + encode_args(vs.skip(idx as int)) =~= old(out)@);
        }
    } else {
        encode_value(&args[idx], out);
        proof {
            assert(vs.skip(idx as int)[0] == vs[idx as int]);
            assert(vs[idx as int] == args@[idx as int]@);
        }
        encode_args_from(args, idx + 1, out);
        proof {
            assert(vs.skip(idx as int).drop_first() =~= vs.skip(idx as int + 1));
            assert((old(out)@ + crate::codec::encoding(vs[idx as int])) + encode_args(
                vs.skip(idx as int + 1),
            ) =~= old(out)@ + (crate::codec::encoding(vs.skip(idx as int)[0]) + encode_args(
                vs.skip(idx as int).drop_first(),
            )));
        }
    }
}

/// Encodes one complete request for the method with the given ordinal: the
/// ordinal's encoding, then each argument's encoding by reference, in
/// declaration order.  An ordinal outside the interface is reported as an
/// unknown selector; arguments that do not fit the method's declared
/// parameter types cannot be put on the wire and are an encoding failure.
pub fn encode_call(iface: &InterfaceSpecification, ordinal: usize, args: &Vec<Value>) -> (r: Result<
    Vec<u8>,
    RpcError,
>)
    ensures
        ({
            let ms = iface@.methods;
            let vs = vals_model(args@);
            if ordinal as int >= ms.len() {
                r == Err::<Vec<u8>, RpcError>(RpcError::UnknownSelector(ordinal as u64))
            } else if !args_match(vs, ms[ordinal as int].params) {
                r == Err::<Vec<u8>, RpcError>(RpcError::EncodingFailure)
            } else {
                r matches Ok(req) && req@ == request_encoding(ordinal as u64, vs)
            }
        }),
{
    let ghost ms = iface@.methods;
    if ordinal >= iface.methods.len() {
        return Err(RpcError::UnknownSelector(ordinal as u64));
    }
    let m = &iface.methods[ordinal];
    proof {
        assert(m@ == ms[ordinal as int]);
    }
    if !args_match_exec(args, &m.params) {
        return Err(RpcError::EncodingFailure);
    }
    let mut out = u64_to_le_bytes(ordinal as u64);
    encode_args_from(args, 0, &mut out);
    proof {
        assert(vals_model(args@).skip(0) =~= vals_model(args@));
    }
    Ok(out)
}

/// Decodes the single reply of one call: exactly one value of the method's
/// declared return type, read from the front of the response bytes.
pub fn decode_reply(ret: WireType, response: &Vec<u8>) -> (r: Result<Value, RpcError>)
    ensures
        match decode_spec(ret, response@) {
            Some(p) => r matches Ok(v) && v@ == p.0,
            None => r == Err::<Value, RpcError>(RpcError::DecodingFailure),
        },
{
    proof {
        assert(response@.skip(0) =~= response@);
    }
    match decode_value(ret, response, 0) {
        Ok((v, _consumed)) => Ok(v),
        Err(e) => Err(e),
    }
}

} // verus!
