//! Runtime values of the calling convention and their typing judgement.

use vstd::prelude::*;

use crate::schema::ParamModel;
use crate::schema::WireType;
use crate::schema::param_types;

verus! {

/// A runtime value of the restricted capability set.  `Text` holds UTF-8
/// bytes; the convention treats them as opaque octets.
pub enum Value {
    Unit,
    Boolean(bool),
    Unsigned(u64),
    Text(Vec<u8>),
}

/// Mathematical model of a [`Value`].
pub enum ValueModel {
    Unit,
    Boolean(bool),
    Unsigned(u64),
    Text(Seq<u8>),
}

impl View for Value {
    type V = ValueModel;

    open spec fn view(&self) -> ValueModel {
        match self {
            Value::Unit => ValueModel::Unit,
            Value::Boolean(b) => ValueModel::Boolean(*b),
            Value::Unsigned(n) => ValueModel::Unsigned(*n),
            Value::Text(bs) => ValueModel::Text(bs@),
        }
    }
}

/// Model of a sequence of runtime values.
pub open spec fn vals_model(s: Seq<Value>) -> Seq<ValueModel> {
    s.map_values(|v: Value| v@)
}

/// The typing judgement of the wire: which values inhabit which wire type.
/// A text value is only encodable while its length fits the length prefix.
pub open spec fn value_has_type(v: ValueModel, t: WireType) -> bool {
    match v {
        ValueModel::Unit => t == WireType::Unit,
        ValueModel::Boolean(_) => t == WireType::Boolean,
        ValueModel::Unsigned(_) => t == WireType::Unsigned,
        ValueModel::Text(bs) => t == WireType::Text && bs.len() <= u64::MAX,
    }
}

/// Pointwise typing of an argument list against a list of wire types.
pub open spec fn args_typed(args: Seq<ValueModel>, tys: Seq<WireType>) -> bool {
    &&& args.len() == tys.len()
    &&& forall|i: int| 0 <= i < args.len() ==> value_has_type(#[trigger] args[i], tys[i])
}

/// Typing of an argument list against a method's declared parameters.
pub open spec fn args_match(args: Seq<ValueModel>, params: Seq<ParamModel>) -> bool {
    args_typed(args, param_types(params))
}

/// Decides the typing judgement for one value.
pub fn value_has_type_exec(v: &Value, t: WireType) -> (b: bool)
    ensures
        b == value_has_type(v@, t),
{
    match (v, t) {
        (Value::Unit, WireType::Unit) => true,
        (Value::Boolean(_), WireType::Boolean) => true,
        (Value::Unsigned(_), WireType::Unsigned) => true,
        (Value::Text(bs), WireType::Text) => {
            let n: usize = bs.len();
            proof {
                assert(bs@.len() == n as int);
                assert(bs@.len() <= u64::MAX);
            }
            true
        },
        _ => false,
    }
}

} // verus!
