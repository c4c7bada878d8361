//! The demonstration service: an interface with one method,
//! `ping(num: unsigned-integer) -> text`, whose implementation replies with
//! the text `"pong "` repeated `num` times.

use vstd::prelude::*;

use crate::dispatch::Service;
use crate::schema::InterfaceSpecification;
use crate::schema::MethodModel;
use crate::schema::MethodSignature;
use crate::schema::Param;
use crate::schema::ParamModel;
use crate::schema::WireType;
use crate::validate::InterfaceDecl;
use crate::validate::InterfaceMember;
use crate::validate::MemberModel;
use crate::validate::MethodDecl;
use crate::validate::valid_signatures;
use crate::value::Value;
use crate::value::ValueModel;

verus! {

/// The five bytes of the text `"pong "`.
pub open spec fn pong_unit() -> Seq<u8> {
    seq![112u8, 111u8, 110u8, 103u8, 32u8]
}

/// The text `"pong "` repeated `n` times, as bytes.
pub open spec fn pong_repeat(n: nat) -> Seq<u8>
    decreases n,
{
    if n == 0 {
        Seq::<u8>::empty()
    } else {
        pong_repeat((n - 1) as nat) + pong_unit()
    }
}

/// The reply to `ping(n)` is five bytes per repetition.
pub proof fn lemma_pong_len(n: nat)
    ensures
        pong_repeat(n).len() == 5 * n,
    decreases n,
{
    if n > 0 {
        lemma_pong_len((n - 1) as nat);
    }
}

/// The method table of the demonstration interface: one method, ordinal 0,
/// one unsigned parameter, a text reply.
pub open spec fn world_methods() -> Seq<MethodModel> {
    seq![
        MethodModel {
            name: "ping"@,
            ordinal: 0,
            params: seq![ParamModel { name: "num"@, ty: WireType::Unsigned }],
            ret: WireType::Text,
        },
    ]
}

/// The raw declaration of the demonstration interface, as a user would state
/// it: one plain method `ping` with a receiver and one unsigned parameter.
pub fn world_declaration() -> (r: InterfaceDecl)
    ensures
        r@.name == "World"@,
        r@.members == world_declaration_members(),
{
    let mut params: Vec<Param> = Vec::new();
    params.push(Param { name: "num".to_owned(), ty: WireType::Unsigned });
    proof {
        assert(crate::schema::params_model(params@) =~= seq![
            ParamModel { name: "num"@, ty: WireType::Unsigned },
        ]);
    }
    let decl = MethodDecl {
        name: "ping".to_owned(),
        has_receiver: true,
        is_const: false,
        is_async: false,
        has_generics: false,
        params,
        ret: Some(WireType::Text),
    };
    let mut members: Vec<InterfaceMember> = Vec::new();
    members.push(InterfaceMember::Method(decl));
    let r = InterfaceDecl { name: "World".to_owned(), members };
    proof {
        assert(r@.members =~= world_declaration_members());
    }
    r
}

/// Validating the demonstration declaration yields exactly the canonical
/// method table `world_methods()`: the one method is valid and gets
/// ordinal 0.
pub proof fn lemma_world_generation()
    ensures
        valid_signatures(world_declaration_members()) == world_methods(),
{
    let members = world_declaration_members();
    assert(members.drop_last() =~= Seq::<MemberModel>::empty());
    assert(valid_signatures(Seq::<MemberModel>::empty()) =~= Seq::<MethodModel>::empty());
    assert(valid_signatures(members) =~= world_methods());
}

/// The members of the demonstration declaration, for stating facts about
/// its validation.
pub open spec fn world_declaration_members() -> Seq<MemberModel> {
    seq![
        MemberModel::Method(
            crate::validate::DeclModel {
                name: "ping"@,
                has_receiver: true,
                is_const: false,
                is_async: false,
                has_generics: false,
                params: seq![ParamModel { name: "num"@, ty: WireType::Unsigned }],
                ret: Some(WireType::Text),
            },
        ),
    ]
}

/// The canonical specification of the demonstration interface, as exec data.
pub fn world_interface() -> (r: InterfaceSpecification)
    ensures
        r@.name == "World"@,
        r@.methods == world_methods(),
{
    let mut params: Vec<Param> = Vec::new();
    params.push(Param { name: "num".to_owned(), ty: WireType::Unsigned });
    proof {
        assert(crate::schema::params_model(params@) =~= seq![
            ParamModel { name: "num"@, ty: WireType::Unsigned },
        ]);
    }
    let sig = MethodSignature { name: "ping".to_owned(), ordinal: 0, params, ret: WireType::Text };
    let mut methods: Vec<MethodSignature> = Vec::new();
    methods.push(sig);
    let r = InterfaceSpecification { name: "World".to_owned(), methods };
    proof {
        assert(r@.methods =~= world_methods());
    }
    r
}

/// The number `ping` was called with, read from a decoded argument list.
pub open spec fn ping_arg(args: Seq<ValueModel>) -> nat {
    match args[0] {
        ValueModel::Unsigned(n) => n as nat,
        _ => 0,
    }
}

/// The implementation bound to the demonstration dispatcher.
pub struct ConcreteWorld;

impl ConcreteWorld {
    /// Builds the reply to one ping: `"pong "` repeated `num` times.
    pub fn ping(&self, num: u64) -> (r: Vec<u8>)
        ensures
            r@ == pong_repeat(num as nat),
    {
        let mut out: Vec<u8> = Vec::new();
        let mut i: u64 = 0;
        while i < num
            invariant
                i <= num,
                out@ == pong_repeat(i as nat),
            decreases num - i,
        {
            out.push(112u8);
            out.push(111u8);
            out.push(110u8);
            out.push(103u8);
            out.push(32u8);
            proof {
                assert(out@ =~= pong_repeat(i as nat) + pong_unit());
            }
            i = i + 1;
        }
        out
    }
}

impl Service for ConcreteWorld {
    open spec fn interface_model(&self) -> Seq<MethodModel> {
        world_methods()
    }

    /// A reply exists on the wire only while its length fits the text
    /// length prefix: five bytes per repetition.
    open spec fn serves(&self, ordinal: int, args: Seq<ValueModel>) -> bool {
        5 * ping_arg(args) <= u64::MAX
    }

    open spec fn result_of(&self, ordinal: int, args: Seq<ValueModel>) -> ValueModel {
        ValueModel::Text(pong_repeat(ping_arg(args)))
    }

    proof fn lemma_result_typed(&self, ordinal: int, args: Seq<ValueModel>) {
        lemma_pong_len(ping_arg(args));
    }

    fn accepts(&self, ordinal: usize, args: &Vec<Value>) -> (b: bool) {
        let a = &args[0];
        proof {
            assert(crate::value::vals_model(args@)[0] == args@[0]@);
        }
        match a {
            Value::Unsigned(n) => *n <= u64::MAX / 5,
            _ => false,
        }
    }

    fn invoke(&self, ordinal: usize, args: &Vec<Value>) -> (r: Value) {
        let a = &args[0];
        proof {
            assert(crate::value::vals_model(args@)[0] == args@[0]@);
        }
        match a {
            Value::Unsigned(n) => Value::Text(self.ping(*n)),
            _ => {
                proof {
                    assert(false);
                }
                Value::Unit
            },
        }
    }
}

} // verus!
