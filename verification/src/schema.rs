//! The canonical interface schema: wire types, method signatures, and the
//! interface specification that both generated halves are derived from.

use vstd::prelude::*;

verus! {

/// The restricted capability set of the calling convention: every parameter
/// and every return value has one of these wire types.  `Text` carries UTF-8
/// bytes; the convention itself treats them as opaque octets.
#[derive(Clone, Copy, Debug, PartialEq, Eq, Structural)]
pub enum WireType {
    Unit,
    Boolean,
    Unsigned,
    Text,
}

/// One declared parameter: its name and its wire type.
pub struct Param {
    pub name: String,
    pub ty: WireType,
}

/// Mathematical model of a [`Param`].
pub struct ParamModel {
    pub name: Seq<char>,
    pub ty: WireType,
}

impl View for Param {
    type V = ParamModel;

    open spec fn view(&self) -> ParamModel {
        ParamModel { name: self.name@, ty: self.ty }
    }
}

/// A validated method signature: name, stable ordinal, parameters in
/// declaration order (the receiver excluded), and the return type (`Unit`
/// where none was declared).
pub struct MethodSignature {
    pub name: String,
    pub ordinal: usize,
    pub params: Vec<Param>,
    pub ret: WireType,
}

/// Mathematical model of a [`MethodSignature`].
pub struct MethodModel {
    pub name: Seq<char>,
    pub ordinal: nat,
    pub params: Seq<ParamModel>,
    pub ret: WireType,
}

impl View for MethodSignature {
    type V = MethodModel;

    open spec fn view(&self) -> MethodModel {
        MethodModel {
            name: self.name@,
            ordinal: self.ordinal as nat,
            params: params_model(self.params@),
            ret: self.ret,
        }
    }
}

/// Model of a sequence of parameters.
pub open spec fn params_model(ps: Seq<Param>) -> Seq<ParamModel> {
    ps.map_values(|p: Param| p@)
}

/// The wire types of a parameter list, in declaration order.
pub open spec fn param_types(ps: Seq<ParamModel>) -> Seq<WireType> {
    ps.map_values(|p: ParamModel| p.ty)
}

/// The canonical specification of one interface: its name and its validated
/// methods.  It is computed once and shared by both generated sides, so their
/// ordinal tables agree by construction.
pub struct InterfaceSpecification {
    pub name: String,
    pub methods: Vec<MethodSignature>,
}

/// Mathematical model of an [`InterfaceSpecification`].
pub struct InterfaceModel {
    pub name: Seq<char>,
    pub methods: Seq<MethodModel>,
}

impl View for InterfaceSpecification {
    type V = InterfaceModel;

    open spec fn view(&self) -> InterfaceModel {
        InterfaceModel { name: self.name@, methods: methods_model(self.methods@) }
    }
}

/// Model of a sequence of method signatures.
pub open spec fn methods_model(ms: Seq<MethodSignature>) -> Seq<MethodModel> {
    ms.map_values(|m: MethodSignature| m@)
}

/// The specification's invariant: ordinals are contiguous, start at zero and
/// equal each method's position among the valid methods in declaration order.
pub open spec fn ordinals_contiguous(methods: Seq<MethodModel>) -> bool {
    forall|i: int| 0 <= i < methods.len() ==> #[trigger] methods[i].ordinal == i
}

} // verus!
