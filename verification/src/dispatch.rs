//! The server-side half of the convention: routing one request's ordinal to
//! the bound implementation, decoding its parameters in declaration order,
//! invoking it, and encoding the single reply.  The dispatcher handles
//! exactly one logical call per invocation and retains no cross-call state
//! of its own.

use vstd::prelude::*;
use vstd::bytes::u64_from_le_bytes;
use vstd::slice::slice_subrange;

use crate::codec::decode_value;
use crate::codec::encode_value;
use crate::codec::encoding;
use crate::errors::RpcError;
use crate::schema::InterfaceSpecification;
use crate::schema::MethodModel;
use crate::schema::Param;
use crate::schema::params_model;
use crate::schema::param_types;
use crate::value::Value;
use crate::value::ValueModel;
use crate::value::args_match;
use crate::value::value_has_type;
use crate::value::vals_model;
use crate::wire::RequestParse;
use crate::wire::decode_args;
use crate::wire::dispatch_parse;
use crate::wire::lemma_decode_args_props;
use crate::proxy::decode_reply;
use crate::proxy::encode_call;

verus! {

/// The capability interface every remote service implements: the dispatcher
/// holds one implementation per connection and routes each decoded call to
/// it.  `interface_model` is the implementation's view of the one canonical
/// interface it serves; `result_of` is what it computes; `serves` limits the
/// arguments for which a reply can be produced and encoded (most services
/// serve every well-typed argument list).
pub trait Service {
    /// The method table of the canonical interface this service implements.
    spec fn interface_model(&self) -> Seq<MethodModel>;

    /// The arguments, per method, for which the implementation can produce
    /// an encodable reply.
    spec fn serves(&self, ordinal: int, args: Seq<ValueModel>) -> bool;

    /// The value the implementation computes for one call.
    spec fn result_of(&self, ordinal: int, args: Seq<ValueModel>) -> ValueModel;

    /// The implementation's reply always has the method's declared return
    /// type, so it can be put on the wire.
    proof fn lemma_result_typed(&self, ordinal: int, args: Seq<ValueModel>)
        requires
            0 <= ordinal < self.interface_model().len(),
            args_match(args, self.interface_model()[ordinal].params),
            self.serves(ordinal, args),
        ensures
            value_has_type(self.result_of(ordinal, args), self.interface_model()[ordinal].ret),
    ;

    /// Decides `serves` for one decoded call.
    fn accepts(&self, ordinal: usize, args: &Vec<Value>) -> (b: bool)
        requires
            (ordinal as int) < self.interface_model().len(),
            args_match(vals_model(args@), self.interface_model()[ordinal as int].params),
        ensures
            b == self.serves(ordinal as int, vals_model(args@)),
    ;

    /// Invokes the bound implementation with the decoded arguments.
    fn invoke(&self, ordinal: usize, args: &Vec<Value>) -> (r: Value)
        requires
            (ordinal as int) < self.interface_model().len(),
            args_match(vals_model(args@), self.interface_model()[ordinal as int].params),
            self.serves(ordinal as int, vals_model(args@)),
        ensures
            r@ == self.result_of(ordinal as int, vals_model(args@)),
    ;
}

/// Decodes one value per declared parameter of `params[idx..]`, in order,
/// from `buf` starting at `pos`.
fn decode_params_from(params: &Vec<Param>, idx: usize, buf: &Vec<u8>, pos: usize) -> (r: Result<
    (Vec<Value>, usize),
    RpcError,
>)
    requires
        idx <= params@.len(),
        pos <= buf@.len(),
    ensures
        ({
            let tys = param_types(params_model(params@)).skip(idx as int);
            match decode_args(tys, buf@.skip(pos as int)) {
                Some(p) => {
                    &&& r matches Ok(q)
                    &&& vals_model(q.0@) == p.0
                    &&& q.1 as int == pos + p.1
                    &&& pos + p.1 <= buf@.len()
                },
                None => r == Err::<(Vec<Value>, usize), RpcError>(RpcError::DecodingFailure),
            }
        }),
    decreases params@.len() - idx,
{
    let ghost tys = param_types(params_model(params@)).skip(idx as int);
    if idx == params.len() {
        let out: Vec<Value> = Vec::new();
        proof {
            assert(vals_model(out@) =~= Seq::<ValueModel>::empty());
        }
        Ok((out, pos))
    } else {
        proof {
            assert(tys[0] == params@[idx as int]@.ty);
        }
        match decode_value(params[idx].ty, buf, pos) {
            Err(e) => Err(e),
            Ok((v, next)) => {
                proof {
                    assert(param_types(params_model(params@)).skip(idx as int + 1) =~= tys.drop_first());
                    assert(buf@.skip(next as int) =~= buf@.skip(pos as int).skip(
                        next as int - pos as int,
                    ));
                }
                match decode_params_from(params, idx + 1, buf, next) {
                    Err(e) => Err(e),
                    Ok((mut rest, end)) => {
                        let ghost restm = vals_model(rest@);
                        rest.insert(0, v);
                        proof {
                            assert(vals_model(rest@) =~= seq![v@] + restm);
                        }
                        Ok((rest, end))
                    },
                }
            },
        }
    }
}

/// Handles exactly one request against the canonical interface: decodes the
/// ordinal, routes it to the matching method, decodes each parameter in
/// declaration order, invokes the bound implementation, and returns the
/// encoded reply.  Every protocol violation — an unknown selector, a
/// malformed or truncated request, an unservable argument list — is returned
/// as a value, never by terminating the host; the caller decides whether to
/// abort the connection.  Bytes after the request's end are ignored, as a
/// stream reader would leave them unread.
pub fn handle_request<S: Service>(
    iface: &InterfaceSpecification,
    service: &S,
    request: &Vec<u8>,
) -> (r: Result<Vec<u8>, RpcError>)
    requires
        service.interface_model() == iface@.methods,
    ensures
        match dispatch_parse(iface@.methods, request@) {
            RequestParse::Call { ordinal, args } => {
                if service.serves(ordinal, args) {
                    r matches Ok(resp) && resp@ == encoding(service.result_of(ordinal, args))
                } else {
                    r == Err::<Vec<u8>, RpcError>(RpcError::EncodingFailure)
                }
            },
            RequestParse::Unknown { selector } => r == Err::<Vec<u8>, RpcError>(
                RpcError::UnknownSelector(selector),
            ),
            RequestParse::Malformed => r == Err::<Vec<u8>, RpcError>(RpcError::DecodingFailure),
        },
{
    let ghost ms = iface@.methods;
    if request.len() < 8 {
        return Err(RpcError::DecodingFailure);
    }
    let header = slice_subrange(request.as_slice(), 0, 8);
    let ord = u64_from_le_bytes(header);
    proof {
        assert(header@ =~= request@.take(8));
    }
    if ord >= iface.methods.len() as u64 {
        return Err(RpcError::UnknownSelector(ord));
    }
    let index: usize = ord as usize;
    let m = &iface.methods[index];
    proof {
        assert(m@ == ms[ord as int]);
    }
    let ghost tys = param_types(ms[ord as int].params);
    proof {
        assert(param_types(params_model(m.params@)).skip(0) =~= tys);
        lemma_decode_args_props(tys, request@.skip(8));
    }
    match decode_params_from(&m.params, 0, request, 8) {
        Err(e) => Err(e),
        Ok((args, _end)) => {
            if !service.accepts(index, &args) {
                return Err(RpcError::EncodingFailure);
            }
            let result = service.invoke(index, &args);
            let mut response: Vec<u8> = Vec::new();
            encode_value(&result, &mut response);
            proof {
                assert(Seq::<u8>::empty() + encoding(result@) =~= encoding(result@));
            }
            Ok(response)
        },
    }
}

/// One complete in-memory round trip over the convention: the proxy encodes
/// the call, the dispatcher handles the request bytes, and the proxy decodes
/// the reply — exactly the exchange one connection carries.  Success is owed
/// precisely for a known ordinal, arguments that fit the method's declared
/// parameters, and a reply the implementation can produce; the returned
/// value is then exactly what the bound implementation computed.
pub fn run_call<S: Service>(
    iface: &InterfaceSpecification,
    service: &S,
    ordinal: usize,
    args: &Vec<Value>,
) -> (r: Result<Value, RpcError>)
    requires
        service.interface_model() == iface@.methods,
    ensures
        ({
            let ms = iface@.methods;
            let vs = vals_model(args@);
            &&& ((ordinal as int) >= ms.len() ==> r == Err::<Value, RpcError>(
                RpcError::UnknownSelector(ordinal as u64),
            ))
            &&& ((ordinal as int) < ms.len() && !args_match(vs, ms[ordinal as int].params) ==> r
                == Err::<Value, RpcError>(RpcError::EncodingFailure))
            &&& ((ordinal as int) < ms.len() && args_match(vs, ms[ordinal as int].params)
                && !service.serves(ordinal as int, vs) ==> r == Err::<Value, RpcError>(
                RpcError::EncodingFailure,
            ))
            &&& ((ordinal as int) < ms.len() && args_match(vs, ms[ordinal as int].params)
                && service.serves(ordinal as int, vs) ==> (r matches Ok(v) && v@
                == service.result_of(ordinal as int, vs)))
        }),
{
    let ghost ms = iface@.methods;
    let ghost vs = vals_model(args@);
    let request = match encode_call(iface, ordinal, args) {
        Ok(b) => b,
        Err(e) => {
            return Err(e);
        },
    };
    proof {
        crate::wire::lemma_request_round_trip(ms, ordinal as u64, vs);
        if service.serves(ordinal as int, vs) {
            service.lemma_result_typed(ordinal as int, vs);
            crate::codec::lemma_decode_encoding(
                service.result_of(ordinal as int, vs),
                ms[ordinal as int].ret,
                Seq::<u8>::empty(),
            );
            assert(encoding(service.result_of(ordinal as int, vs)) + Seq::<u8>::empty()
                =~= encoding(service.result_of(ordinal as int, vs)));
        }
    }
    let response = match handle_request(iface, service, &request) {
        Ok(b) => b,
        Err(e) => {
            return Err(e);
        },
    };
    let ret = iface.methods[ordinal].ret;
    proof {
        assert(ret == ms[ordinal as int].ret);
    }
    decode_reply(ret, &response)
}

/// The outcomes of a batch of connections served against one interface:
/// each connection's request is parsed against the same canonical method
/// table, with no state carried from one connection to the next.
pub open spec fn serve_sequentially(methods: Seq<MethodModel>, requests: Seq<Seq<u8>>) -> Seq<
    RequestParse,
> {
    requests.map_values(|q: Seq<u8>| dispatch_parse(methods, q))
}

/// Connection isolation: in a batch of connections, each connection's
/// outcome is a function of its own request bytes alone — replacing every
/// other connection's bytes leaves it unchanged, and no connection observes
/// another's partially consumed stream.
pub proof fn lemma_connection_isolation(
    methods: Seq<MethodModel>,
    requests: Seq<Seq<u8>>,
    others: Seq<Seq<u8>>,
    i: int,
)
    requires
        0 <= i < requests.len(),
        0 <= i < others.len(),
        requests[i] == others[i],
    ensures
        serve_sequentially(methods, requests)[i] == serve_sequentially(methods, others)[i],
        serve_sequentially(methods, requests)[i] == dispatch_parse(methods, requests[i]),
{
}

} // verus!
