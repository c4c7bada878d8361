//! The wire calling convention: a request is the ordinal's encoding followed
//! by each parameter's encoding in declaration order; a response is the
//! single return value's encoding alone, with no status envelope.

use vstd::prelude::*;
use vstd::bytes::*;

use crate::codec::decode_spec;
use crate::codec::encoding;
use crate::codec::lemma_decode_encoding;
use crate::codec::lemma_decode_spec_bounds;
use crate::schema::MethodModel;
use crate::schema::WireType;
use crate::schema::param_types;
use crate::value::ValueModel;
use crate::value::args_typed;

verus! {

/// The bytes that encode an argument list: each argument's encoding, in
/// order.
pub open spec fn encode_args(args: Seq<ValueModel>) -> Seq<u8>
    decreases args.len(),
{
    if args.len() == 0 {
        Seq::<u8>::empty()
    } else {
        encoding(args[0]) + encode_args(args.drop_first())
    }
}

/// The bytes that encode one complete request: the ordinal, then the
/// arguments in declaration order.
pub open spec fn request_encoding(ordinal: u64, args: Seq<ValueModel>) -> Seq<u8> {
    spec_u64_to_le_bytes(ordinal) + encode_args(args)
}

/// What decoding one value per expected wire type, in order, from the front
/// of a byte stream yields: the values and the bytes consumed, or nothing
/// where any decode fails.
pub open spec fn decode_args(tys: Seq<WireType>, s: Seq<u8>) -> Option<(Seq<ValueModel>, int)>
    decreases tys.len(),
{
    if tys.len() == 0 {
        Some((Seq::<ValueModel>::empty(), 0int))
    } else {
        match decode_spec(tys[0], s) {
            None => None,
            Some((v, k)) => match decode_args(tys.drop_first(), s.skip(k)) {
                None => None,
                Some((vs, m)) => Some((seq![v] + vs, k + m)),
            },
        }
    }
}

/// A successful argument decode consumes a prefix of the stream and yields
/// one well-typed value per expected wire type.
pub proof fn lemma_decode_args_props(tys: Seq<WireType>, s: Seq<u8>)
    ensures
        decode_args(tys, s) matches Some(p) ==> 0 <= p.1 <= s.len() && args_typed(p.0, tys),
    decreases tys.len(),
{
    if tys.len() == 0 {
    } else {
        match decode_spec(tys[0], s) {
            None => {},
            Some((v, k)) => {
                lemma_decode_spec_bounds(tys[0], s);
                lemma_decode_args_props(tys.drop_first(), s.skip(k));
                match decode_args(tys.drop_first(), s.skip(k)) {
                    None => {},
                    Some((vs, m)) => {
                        let all = seq![v] + vs;
                        assert forall|i: int| 0 <= i < all.len() implies crate::value::value_has_type(
                            #[trigger] all[i],
                            tys[i],
                        ) by {
                            if i > 0 {
                                assert(all[i] == vs[i - 1]);
                                assert(tys.drop_first()[i - 1] == tys[i]);
                            }
                        }
                    },
                }
            },
        }
    }
}

/// Round trip for argument lists: the encoding of a well-typed argument
/// list, whatever follows it, decodes back to exactly those arguments.
pub proof fn lemma_decode_encode_args(args: Seq<ValueModel>, tys: Seq<WireType>, rest: Seq<u8>)
    requires
        args_typed(args, tys),
    ensures
        decode_args(tys, encode_args(args) + rest) == Some(
            (args, encode_args(args).len() as int),
        ),
    decreases tys.len(),
{
    if tys.len() == 0 {
        assert(encode_args(args) + rest =~= rest);
        assert(args =~= Seq::<ValueModel>::empty());
    } else {
        let s = encode_args(args) + rest;
        let tail = encode_args(args.drop_first());
        assert(crate::value::value_has_type(args[0], tys[0]));
        lemma_decode_encoding(args[0], tys[0], tail + rest);
        assert(s =~= encoding(args[0]) + (tail + rest));
        let k = encoding(args[0]).len() as int;
        assert(decode_spec(tys[0], s) == Some((args[0], k)));
        assert(s.skip(k) =~= tail + rest);
        assert forall|i: int| 0 <= i < args.drop_first().len() implies crate::value::value_has_type(
            #[trigger] args.drop_first()[i],
            tys.drop_first()[i],
        ) by {
            assert(args.drop_first()[i] == args[i + 1]);
            assert(tys.drop_first()[i] == tys[i + 1]);
        }
        lemma_decode_encode_args(args.drop_first(), tys.drop_first(), rest);
        assert(seq![args[0]] + args.drop_first() =~= args);
    }
}

/// How the dispatcher reads one request.
pub enum RequestParse {
    /// The ordinal selects a known method and every parameter decoded: the
    /// call to route.
    Call { ordinal: int, args: Seq<ValueModel> },
    /// The decoded ordinal lies outside `[0, methodCount)`: a protocol
    /// violation by the peer.
    Unknown { selector: u64 },
    /// The ordinal or a parameter could not be decoded.
    Malformed,
}

/// What one request's bytes mean against an interface's method table: the
/// routed call, an unknown selector, or a malformed stream.
pub open spec fn dispatch_parse(methods: Seq<MethodModel>, s: Seq<u8>) -> RequestParse {
    if s.len() < 8 {
        RequestParse::Malformed
    } else {
        let o = spec_u64_from_le_bytes(s.take(8));
        if o as int >= methods.len() {
            RequestParse::Unknown { selector: o }
        } else {
            match decode_args(param_types(methods[o as int].params), s.skip(8)) {
                None => RequestParse::Malformed,
                Some((args, k)) => RequestParse::Call { ordinal: o as int, args },
            }
        }
    }
}

/// A request the proxy encodes for a known method with well-typed arguments
/// parses on the dispatcher to exactly that call.
pub proof fn lemma_request_round_trip(methods: Seq<MethodModel>, ordinal: u64, args: Seq<ValueModel>)
    requires
        (ordinal as int) < methods.len(),
        crate::value::args_match(args, methods[ordinal as int].params),
    ensures
        dispatch_parse(methods, request_encoding(ordinal, args)) == (RequestParse::Call {
            ordinal: ordinal as int,
            args,
        }),
{
    lemma_auto_spec_u64_to_from_le_bytes();
    let s = request_encoding(ordinal, args);
    assert(s.take(8) =~= spec_u64_to_le_bytes(ordinal));
    assert(s.skip(8) =~= encode_args(args));
    let tys = param_types(methods[ordinal as int].params);
    lemma_decode_encode_args(args, tys, Seq::<u8>::empty());
    assert(encode_args(args) + Seq::<u8>::empty() =~= encode_args(args));
}

/// Round trip of the convention: a request the proxy encodes for a known
/// method with well-typed arguments parses on the dispatcher to exactly
/// that call, and a well-typed reply's encoding decodes on the proxy to
/// exactly that reply.
pub proof fn lemma_wire_round_trip(
    methods: Seq<MethodModel>,
    ordinal: u64,
    args: Seq<ValueModel>,
    reply: ValueModel,
)
    requires
        (ordinal as int) < methods.len(),
        crate::value::args_match(args, methods[ordinal as int].params),
        crate::value::value_has_type(reply, methods[ordinal as int].ret),
    ensures
        dispatch_parse(methods, request_encoding(ordinal, args)) == (RequestParse::Call {
            ordinal: ordinal as int,
            args,
        }),
        decode_spec(methods[ordinal as int].ret, encoding(reply)) == Some(
            (reply, encoding(reply).len() as int),
        ),
{
    lemma_request_round_trip(methods, ordinal, args);
    lemma_decode_encoding(reply, methods[ordinal as int].ret, Seq::<u8>::empty());
    assert(encoding(reply) + Seq::<u8>::empty() =~= encoding(reply));
}

/// Unknown selector: a request that carries an ordinal outside the method
/// table, whatever bytes follow it, parses to `Unknown` with that ordinal.
pub proof fn lemma_unknown_selector(methods: Seq<MethodModel>, ordinal: u64, tail: Seq<u8>)
    requires
        methods.len() <= ordinal as int,
    ensures
        dispatch_parse(methods, spec_u64_to_le_bytes(ordinal) + tail) == (RequestParse::Unknown {
            selector: ordinal,
        }),
{
    lemma_auto_spec_u64_to_from_le_bytes();
    let s = spec_u64_to_le_bytes(ordinal) + tail;
    assert(s.take(8) =~= spec_u64_to_le_bytes(ordinal));
}

} // verus!
