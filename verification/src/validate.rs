//! The interface validator and ordinal assignment: raw member declarations
//! go in, a canonical [`InterfaceSpecification`] and a list of diagnostics
//! come out.  Validation accumulates every violation rather than failing
//! fast, so a single run surfaces every problem at once; a nonempty
//! diagnostic list means the overall build must fail, while the valid
//! methods are still usable for inspection.
//!
//! Ordinals are assigned over the valid methods only: the ordinal of the
//! i-th valid method, in declaration order, is i.  Excluding an invalid
//! method therefore shifts the ordinals of the valid methods after it; this
//! is deliberate and both generated sides share the one table, so they can
//! never disagree.

use vstd::prelude::*;

use crate::schema::InterfaceSpecification;
use crate::schema::MethodModel;
use crate::schema::MethodSignature;
use crate::schema::Param;
use crate::schema::ParamModel;
use crate::schema::WireType;
use crate::schema::methods_model;
use crate::schema::ordinals_contiguous;
use crate::schema::params_model;

verus! {

/// One raw method declaration, before validation: the shape of the declared
/// signature, its parameters (the receiver excluded), and its optional
/// return type.
pub struct MethodDecl {
    pub name: String,
    /// Whether the first parameter is some receiver form of the
    /// implementing instance.
    pub has_receiver: bool,
    /// Whether the method is declared compile-time-evaluable.
    pub is_const: bool,
    /// Whether the method is declared suspending or asynchronous.
    pub is_async: bool,
    /// Whether the method declares generic type parameters.
    pub has_generics: bool,
    pub params: Vec<Param>,
    pub ret: Option<WireType>,
}

/// Mathematical model of a [`MethodDecl`].
pub struct DeclModel {
    pub name: Seq<char>,
    pub has_receiver: bool,
    pub is_const: bool,
    pub is_async: bool,
    pub has_generics: bool,
    pub params: Seq<ParamModel>,
    pub ret: Option<WireType>,
}

impl View for MethodDecl {
    type V = DeclModel;

    open spec fn view(&self) -> DeclModel {
        DeclModel {
            name: self.name@,
            has_receiver: self.has_receiver,
            is_const: self.is_const,
            is_async: self.is_async,
            has_generics: self.has_generics,
            params: params_model(self.params@),
            ret: self.ret,
        }
    }
}

/// One declared member of an interface: a plain method, or anything else
/// (named, so the diagnostic can point at it).
pub enum InterfaceMember {
    Method(MethodDecl),
    Other(String),
}

/// Mathematical model of an [`InterfaceMember`].
pub enum MemberModel {
    Method(DeclModel),
    Other(Seq<char>),
}

impl View for InterfaceMember {
    type V = MemberModel;

    open spec fn view(&self) -> MemberModel {
        match self {
            InterfaceMember::Method(d) => MemberModel::Method(d@),
            InterfaceMember::Other(n) => MemberModel::Other(n@),
        }
    }
}

/// The declarative input of one generation run: an interface name and its
/// members in declaration order.
pub struct InterfaceDecl {
    pub name: String,
    pub members: Vec<InterfaceMember>,
}

/// Mathematical model of an [`InterfaceDecl`].
pub struct InterfaceDeclModel {
    pub name: Seq<char>,
    pub members: Seq<MemberModel>,
}

impl View for InterfaceDecl {
    type V = InterfaceDeclModel;

    open spec fn view(&self) -> InterfaceDeclModel {
        InterfaceDeclModel { name: self.name@, members: members_model(self.members@) }
    }
}

/// Model of a sequence of interface members.
pub open spec fn members_model(ms: Seq<InterfaceMember>) -> Seq<MemberModel> {
    ms.map_values(|m: InterfaceMember| m@)
}

/// The kinds of validation failure.
#[derive(Clone, Copy, Debug, PartialEq, Eq, Structural)]
pub enum DiagnosticKind {
    /// The first parameter is not a receiver of the implementing instance.
    UnsupportedReceiver,
    /// The method declares generic type parameters.
    GenericsUnsupported,
    /// The method is declared compile-time-evaluable.
    ConstUnsupported,
    /// The method is declared suspending or asynchronous.
    AsyncUnsupported,
    /// The declared member is not a plain method.
    NonMethodMember,
}

/// One validation failure: its kind and the name of the offending construct.
pub struct Diagnostic {
    pub kind: DiagnosticKind,
    pub construct: String,
}

/// Mathematical model of a [`Diagnostic`].
pub struct DiagModel {
    pub kind: DiagnosticKind,
    pub construct: Seq<char>,
}

impl View for Diagnostic {
    type V = DiagModel;

    open spec fn view(&self) -> DiagModel {
        DiagModel { kind: self.kind, construct: self.construct@ }
    }
}

/// Model of a sequence of diagnostics.
pub open spec fn diags_model(ds: Seq<Diagnostic>) -> Seq<DiagModel> {
    ds.map_values(|d: Diagnostic| d@)
}

/// The first constraint one member violates, if any; checked in the order
/// the validator reports them.  A member with no violation is a valid
/// method.
pub open spec fn violation_of(m: MemberModel) -> Option<DiagnosticKind> {
    match m {
        MemberModel::Other(_) => Some(DiagnosticKind::NonMethodMember),
        MemberModel::Method(d) => if d.is_const {
            Some(DiagnosticKind::ConstUnsupported)
        } else if d.is_async {
            Some(DiagnosticKind::AsyncUnsupported)
        } else if d.has_generics {
            Some(DiagnosticKind::GenericsUnsupported)
        } else if !d.has_receiver {
            Some(DiagnosticKind::UnsupportedReceiver)
        } else {
            None
        },
    }
}

/// The name of the construct a member declares.
pub open spec fn member_name(m: MemberModel) -> Seq<char> {
    match m {
        MemberModel::Method(d) => d.name,
        MemberModel::Other(n) => n,
    }
}

/// The declared return type, with `Unit` where none was declared.
pub open spec fn ret_or_unit(ret: Option<WireType>) -> WireType {
    match ret {
        Some(t) => t,
        None => WireType::Unit,
    }
}

/// The diagnostics of one member list: one per violating member, in
/// declaration order.
pub open spec fn diagnostics_of(ms: Seq<MemberModel>) -> Seq<DiagModel>
    decreases ms.len(),
{
    if ms.len() == 0 {
        Seq::<DiagModel>::empty()
    } else {
        let init = diagnostics_of(ms.drop_last());
        match violation_of(ms.last()) {
            Some(k) => init.push(DiagModel { kind: k, construct: member_name(ms.last()) }),
            None => init,
        }
    }
}

/// The validated method signatures of one member list, each carrying its
/// ordinal: its position among the valid methods in declaration order.
pub open spec fn valid_signatures(ms: Seq<MemberModel>) -> Seq<MethodModel>
    decreases ms.len(),
{
    if ms.len() == 0 {
        Seq::<MethodModel>::empty()
    } else {
        let init = valid_signatures(ms.drop_last());
        if violation_of(ms.last()) is None {
            match ms.last() {
                MemberModel::Method(d) => init.push(
                    MethodModel {
                        name: d.name,
                        ordinal: init.len(),
                        params: d.params,
                        ret: ret_or_unit(d.ret),
                    },
                ),
                MemberModel::Other(_) => init,
            }
        } else {
            init
        }
    }
}

/// Ordinal stability: the ordinal of the i-th valid method is i, a pure
/// function of declaration order, so re-validating the same declaration
/// always yields the same selector table.
pub proof fn lemma_ordinal_stability(ms: Seq<MemberModel>)
    ensures
        ordinals_contiguous(valid_signatures(ms)),
    decreases ms.len(),
{
    if ms.len() == 0 {
    } else {
        lemma_ordinal_stability(ms.drop_last());
    }
}

/// Validation completeness: every declared member yields exactly one of a
/// diagnostic or a usable method, so of N members with K violations a single
/// pass yields exactly K diagnostics and N - K methods, wherever the invalid
/// ones stand.
pub proof fn lemma_validation_completeness(ms: Seq<MemberModel>)
    ensures
        valid_signatures(ms).len() + diagnostics_of(ms).len() == ms.len(),
    decreases ms.len(),
{
    if ms.len() == 0 {
    } else {
        lemma_validation_completeness(ms.drop_last());
    }
}

/// Copies one parameter.
fn clone_param(p: &Param) -> (r: Param)
    ensures
        r@ == p@,
{
    Param { name: p.name.clone(), ty: p.ty }
}

/// Copies a parameter list.
fn clone_params(ps: &Vec<Param>) -> (r: Vec<Param>)
    ensures
        params_model(r@) == params_model(ps@),
{
    let mut out: Vec<Param> = Vec::new();
    let mut i: usize = 0;
    while i < ps.len()
        invariant
            i <= ps@.len(),
            out@.len() == i,
            forall|j: int| 0 <= j < i ==> (#[trigger] out@[j])@ == ps@[j]@,
        decreases ps@.len() - i,
    {
        out.push(clone_param(&ps[i]));
        i = i + 1;
    }
    proof {
        assert(params_model(out@) =~= params_model(ps@));
    }
    out
}

/// Validates every declared member against the calling convention's
/// constraints and assigns ordinals: the canonical specification both
/// generated sides are derived from, plus one diagnostic per violating
/// member.  Validation never stops at the first error, and the result is a
/// pure function of the declaration, so generating the two halves from one
/// call of this function keeps their ordinal tables identical.
pub fn generate(decl: &InterfaceDecl) -> (r: (InterfaceSpecification, Vec<Diagnostic>))
    ensures
        r.0@.name == decl@.name,
        r.0@.methods == valid_signatures(decl@.members),
        diags_model(r.1@) == diagnostics_of(decl@.members),
        ordinals_contiguous(r.0@.methods),
{
    let ghost mems = decl@.members;
    let mut methods: Vec<MethodSignature> = Vec::new();
    let mut diags: Vec<Diagnostic> = Vec::new();
    let mut i: usize = 0;
    while i < decl.members.len()
        invariant
            i <= decl.members@.len(),
            mems == members_model(decl.members@),
            methods_model(methods@) == valid_signatures(mems.take(i as int)),
            diags_model(diags@) == diagnostics_of(mems.take(i as int)),
        decreases decl.members@.len() - i,
    {
        let ghost prefix = mems.take(i as int);
        proof {
            assert(mems.take(i as int + 1).drop_last() =~= prefix);
            assert(mems.take(i as int + 1).last() == mems[i as int]);
            assert(mems[i as int] == decl.members@[i as int]@);
        }
        let member = &decl.members[i];
        match member {
            InterfaceMember::Other(name) => {
                diags.push(
                    Diagnostic { kind: DiagnosticKind::NonMethodMember, construct: name.clone() },
                );
                proof {
                    assert(diags_model(diags@) =~= diagnostics_of(mems.take(i as int + 1)));
                    assert(methods_model(methods@) =~= valid_signatures(mems.take(i as int + 1)));
                }
            },
            InterfaceMember::Method(d) => {
                if d.is_const {
                    diags.push(
                        Diagnostic {
                            kind: DiagnosticKind::ConstUnsupported,
                            construct: d.name.clone(),
                        },
                    );
                } else if d.is_async {
                    diags.push(
                        Diagnostic {
                            kind: DiagnosticKind::AsyncUnsupported,
                            construct: d.name.clone(),
                        },
                    );
                } else if d.has_generics {
                    diags.push(
                        Diagnostic {
                            kind: DiagnosticKind::GenericsUnsupported,
                            construct: d.name.clone(),
                        },
                    );
                } else if !d.has_receiver {
                    diags.push(
                        Diagnostic {
                            kind: DiagnosticKind::UnsupportedReceiver,
                            construct: d.name.clone(),
                        },
                    );
                } else {
                    let ret: WireType = match &d.ret {
                        Some(t) => *t,
                        None => WireType::Unit,
                    };
                    let sig = MethodSignature {
                        name: d.name.clone(),
                        ordinal: methods.len(),
                        params: clone_params(&d.params),
                        ret,
                    };
                    methods.push(sig);
                }
                proof {
                    assert(diags_model(diags@) =~= diagnostics_of(mems.take(i as int + 1)));
                    assert(methods_model(methods@) =~= valid_signatures(mems.take(i as int + 1)));
                }
            },
        }
        i = i + 1;
    }
    proof {
        assert(mems.take(mems.len() as int) =~= mems);
        lemma_ordinal_stability(mems);
    }
    (InterfaceSpecification { name: decl.name.clone(), methods }, diags)
}

} // verus!
