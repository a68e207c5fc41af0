//! The declaration surface of a service and its analysis.
//!
//! A service declaration is a named collection of method signatures. A
//! method may carry attributes; an attribute whose path ends in `post`
//! selects the transport mode of the named parameters: `post(x)` carries
//! `x` out-of-band by value, `post(transfer(x))` carries `x` out-of-band
//! and moves its ownership to the receiver, and naming `return` selects the
//! mode of the method's return value. Every other parameter is serialized
//! into the payload.
//!
//! Analysis turns one [`MethodDecl`] into an [`RpcMethod`]: the post and
//! transfer sets are collected from the `post` attributes, and the argument
//! list is checked. Malformed `post` arguments, parameters bound by a
//! pattern rather than a plain identifier, and receiver parameters are
//! declaration errors: analysis reports all of them and produces nothing
//! partial.

use vstd::prelude::*;

verus! {

/// An argument of a `post` attribute nested one level down, as in
/// `post(transfer(channel))`.
#[derive(Debug)]
pub enum GroupItem {
    /// A plain path: the name it ends in.
    Name(Vec<u8>),
    /// Anything else: a literal, a name-value pair, a deeper list.
    Other,
}

/// An argument of a `post` attribute.
#[derive(Debug)]
pub enum AnnItem {
    /// A plain path: `post(channel)`.
    Name(Vec<u8>),
    /// A nested list: `post(transfer(channel))`.
    Group { path: Vec<u8>, items: Vec<GroupItem> },
    /// Anything else: a literal or a name-value pair.
    Other,
}

/// An attribute on a declared method: the last segment of its path and,
/// for `post` attributes, its parsed arguments.
#[derive(Debug)]
pub struct AttrDecl {
    pub path: Vec<u8>,
    pub items: Vec<AnnItem>,
}

/// The pattern binding a declared parameter.
#[derive(Debug)]
pub enum ArgPat {
    /// A plain identifier.
    Ident(Vec<u8>),
    /// Any other pattern: not allowed in a service declaration.
    Other,
}

/// One parameter of a declared method.
#[derive(Debug)]
pub enum ArgDecl {
    /// A receiver such as `self`: not allowed in a service declaration.
    Receiver,
    /// An ordinary `pattern: type` parameter; the type is kept as its
    /// source text.
    Typed { pat: ArgPat, ty: Vec<u8> },
}

/// One method of a service declaration.
#[derive(Debug)]
pub struct MethodDecl {
    pub attrs: Vec<AttrDecl>,
    pub is_async: bool,
    pub name: Vec<u8>,
    pub args: Vec<ArgDecl>,
    /// The declared return type's source text, or `None` for no return.
    pub output: Option<Vec<u8>>,
}

/// A whole service declaration.
#[derive(Debug)]
pub struct ServiceDecl {
    /// The attributes on the trait itself, kept for the generated
    /// interface.
    pub attrs: Vec<AttrDecl>,
    pub name: Vec<u8>,
    pub methods: Vec<MethodDecl>,
}

/// A declaration error. All are compile-time failures of the declaration,
/// never of a running endpoint.
#[derive(Clone, Copy, PartialEq, Eq, Structural, Debug)]
pub enum DeclError {
    /// A malformed argument of a `post` attribute.
    PostSyntax,
    /// A parameter bound by a pattern rather than a plain identifier.
    PatternNotAllowed,
    /// A receiver parameter.
    ReceiverNotAllowed,
}

/// A checked parameter: its name and its type's source text.
#[derive(Debug)]
pub struct Param {
    pub name: Vec<u8>,
    pub ty: Vec<u8>,
}

/// A checked method: the analysis of one [`MethodDecl`].
#[derive(Debug)]
pub struct RpcMethod {
    pub is_async: bool,
    /// The attributes other than `post`, kept for the generated items.
    pub attrs: Vec<AttrDecl>,
    pub name: Vec<u8>,
    pub args: Vec<Param>,
    /// Names carried out-of-band (including `return` for the return value).
    pub post: Vec<Vec<u8>>,
    /// The subset of `post` whose ownership is transferred.
    pub transfer: Vec<Vec<u8>>,
    pub output: Option<Vec<u8>>,
}

// ===================== views =====================

pub struct GroupItemV {
    pub is_name: bool,
    pub name: Seq<u8>,
}

pub enum AnnItemV {
    Name(Seq<u8>),
    Group { path: Seq<u8>, items: Seq<GroupItemV> },
    Other,
}

pub struct AttrDeclV {
    pub path: Seq<u8>,
    pub items: Seq<AnnItemV>,
}

pub enum ArgDeclV {
    Receiver,
    Typed { is_ident: bool, name: Seq<u8>, ty: Seq<u8> },
}

pub struct MethodDeclV {
    pub attrs: Seq<AttrDeclV>,
    pub is_async: bool,
    pub name: Seq<u8>,
    pub args: Seq<ArgDeclV>,
    pub output: Option<Seq<u8>>,
}

pub struct ParamV {
    pub name: Seq<u8>,
    pub ty: Seq<u8>,
}

pub struct RpcMethodV {
    pub is_async: bool,
    pub attrs: Seq<AttrDeclV>,
    pub name: Seq<u8>,
    pub args: Seq<ParamV>,
    pub post: Seq<Seq<u8>>,
    pub transfer: Seq<Seq<u8>>,
    pub output: Option<Seq<u8>>,
}

impl View for GroupItem {
    type V = GroupItemV;

    open spec fn view(&self) -> GroupItemV {
        match self {
            GroupItem::Name(n) => GroupItemV { is_name: true, name: n@ },
            GroupItem::Other => GroupItemV { is_name: false, name: Seq::empty() },
        }
    }
}

impl View for AnnItem {
    type V = AnnItemV;

    open spec fn view(&self) -> AnnItemV {
        match self {
            AnnItem::Name(n) => AnnItemV::Name(n@),
            AnnItem::Group { path, items } => AnnItemV::Group {
                path: path@,
                items: Seq::new(items@.len(), |i: int| items@[i]@),
            },
            AnnItem::Other => AnnItemV::Other,
        }
    }
}

impl View for AttrDecl {
    type V = AttrDeclV;

    open spec fn view(&self) -> AttrDeclV {
        AttrDeclV { path: self.path@, items: Seq::new(self.items@.len(), |i: int| self.items@[i]@) }
    }
}

impl View for ArgDecl {
    type V = ArgDeclV;

    open spec fn view(&self) -> ArgDeclV {
        match self {
            ArgDecl::Receiver => ArgDeclV::Receiver,
            ArgDecl::Typed { pat, ty } => match pat {
                ArgPat::Ident(n) => ArgDeclV::Typed { is_ident: true, name: n@, ty: ty@ },
                ArgPat::Other => ArgDeclV::Typed {
                    is_ident: false,
                    name: Seq::empty(),
                    ty: ty@,
                },
            },
        }
    }
}

/// The views of a sequence of attributes.
pub open spec fn attr_views(v: Seq<AttrDecl>) -> Seq<AttrDeclV> {
    Seq::new(v.len(), |i: int| v[i]@)
}

/// The views of a sequence of parameters.
pub open spec fn param_views(v: Seq<Param>) -> Seq<ParamV> {
    Seq::new(v.len(), |i: int| v[i]@)
}

impl View for MethodDecl {
    type V = MethodDeclV;

    open spec fn view(&self) -> MethodDeclV {
        MethodDeclV {
            attrs: attr_views(self.attrs@),
            is_async: self.is_async,
            name: self.name@,
            args: Seq::new(self.args@.len(), |i: int| self.args@[i]@),
            output: match self.output {
                Some(t) => Some(t@),
                None => None,
            },
        }
    }
}

impl View for Param {
    type V = ParamV;

    open spec fn view(&self) -> ParamV {
        ParamV { name: self.name@, ty: self.ty@ }
    }
}

impl View for RpcMethod {
    type V = RpcMethodV;

    open spec fn view(&self) -> RpcMethodV {
        RpcMethodV {
            is_async: self.is_async,
            attrs: attr_views(self.attrs@),
            name: self.name@,
            args: param_views(self.args@),
            post: crate::names::byte_views(self.post@),
            transfer: crate::names::byte_views(self.transfer@),
            output: match self.output {
                Some(t) => Some(t@),
                None => None,
            },
        }
    }
}

// ===================== the meaning of a declaration =====================

/// The byte string `post`.
pub open spec fn post_path() -> Seq<u8> {
    seq![112u8, 111u8, 115u8, 116u8]
}

/// The byte string `transfer`.
pub open spec fn transfer_path() -> Seq<u8> {
    seq![116u8, 114u8, 97u8, 110u8, 115u8, 102u8, 101u8, 114u8]
}

/// The byte string `return`: the name standing for the return value inside
/// a `post` attribute.
pub open spec fn return_name() -> Seq<u8> {
    seq![114u8, 101u8, 116u8, 117u8, 114u8, 110u8]
}

/// The errors one argument of a `post` attribute contributes: a plain name
/// is fine; a nested list must be `transfer(one_name)`; anything else is
/// malformed.
pub open spec fn item_errors(it: AnnItemV) -> Seq<DeclError> {
    match it {
        AnnItemV::Name(_) => Seq::empty(),
        AnnItemV::Group { path, items } => {
            if path == transfer_path() {
                (if items.len() != 1 {
                    seq![DeclError::PostSyntax]
                } else {
                    Seq::empty()
                }) + (if items.len() == 0 {
                    seq![DeclError::PostSyntax]
                } else if items[0].is_name {
                    Seq::empty()
                } else {
                    seq![DeclError::PostSyntax]
                })
            } else {
                seq![DeclError::PostSyntax]
            }
        },
        AnnItemV::Other => seq![DeclError::PostSyntax],
    }
}

/// The names one argument of a `post` attribute adds to the post set: a
/// plain name adds itself; a `transfer(name)` list adds the name (also when
/// the list carries extra arguments, which are reported as errors).
pub open spec fn item_post_names(it: AnnItemV) -> Seq<Seq<u8>> {
    match it {
        AnnItemV::Name(n) => seq![n],
        AnnItemV::Group { path, items } => {
            if path == transfer_path() && items.len() >= 1 && items[0].is_name {
                seq![items[0].name]
            } else {
                Seq::empty()
            }
        },
        AnnItemV::Other => Seq::empty(),
    }
}

/// The names one argument of a `post` attribute adds to the transfer set:
/// only a `transfer(name)` list adds its name.
pub open spec fn item_transfer_names(it: AnnItemV) -> Seq<Seq<u8>> {
    match it {
        AnnItemV::Group { path, items } => {
            if path == transfer_path() && items.len() >= 1 && items[0].is_name {
                seq![items[0].name]
            } else {
                Seq::empty()
            }
        },
        _ => Seq::empty(),
    }
}

pub open spec fn items_errors(items: Seq<AnnItemV>) -> Seq<DeclError>
    decreases items.len(),
{
    if items.len() == 0 {
        Seq::empty()
    } else {
        items_errors(items.drop_last()) + item_errors(items.last())
    }
}

pub open spec fn items_post_names(items: Seq<AnnItemV>) -> Seq<Seq<u8>>
    decreases items.len(),
{
    if items.len() == 0 {
        Seq::empty()
    } else {
        items_post_names(items.drop_last()) + item_post_names(items.last())
    }
}

pub open spec fn items_transfer_names(items: Seq<AnnItemV>) -> Seq<Seq<u8>>
    decreases items.len(),
{
    if items.len() == 0 {
        Seq::empty()
    } else {
        items_transfer_names(items.drop_last()) + item_transfer_names(items.last())
    }
}

/// True of an attribute whose path ends in `post`.
pub open spec fn is_post_attr(a: AttrDeclV) -> bool {
    a.path == post_path()
}

pub open spec fn attrs_errors(attrs: Seq<AttrDeclV>) -> Seq<DeclError>
    decreases attrs.len(),
{
    if attrs.len() == 0 {
        Seq::empty()
    } else {
        attrs_errors(attrs.drop_last()) + (if is_post_attr(attrs.last()) {
            items_errors(attrs.last().items)
        } else {
            Seq::empty()
        })
    }
}

pub open spec fn attrs_post_names(attrs: Seq<AttrDeclV>) -> Seq<Seq<u8>>
    decreases attrs.len(),
{
    if attrs.len() == 0 {
        Seq::empty()
    } else {
        attrs_post_names(attrs.drop_last()) + (if is_post_attr(attrs.last()) {
            items_post_names(attrs.last().items)
        } else {
            Seq::empty()
        })
    }
}

pub open spec fn attrs_transfer_names(attrs: Seq<AttrDeclV>) -> Seq<Seq<u8>>
    decreases attrs.len(),
{
    if attrs.len() == 0 {
        Seq::empty()
    } else {
        attrs_transfer_names(attrs.drop_last()) + (if is_post_attr(attrs.last()) {
            items_transfer_names(attrs.last().items)
        } else {
            Seq::empty()
        })
    }
}

/// The attributes that are not `post` attributes, in order: they are kept
/// on the generated service interface and client methods.
pub open spec fn other_attrs(attrs: Seq<AttrDeclV>) -> Seq<AttrDeclV>
    decreases attrs.len(),
{
    if attrs.len() == 0 {
        Seq::empty()
    } else {
        other_attrs(attrs.drop_last()) + (if is_post_attr(attrs.last()) {
            Seq::empty()
        } else {
            seq![attrs.last()]
        })
    }
}

/// The errors the argument list contributes: a pattern or a receiver is
/// not allowed.
pub open spec fn args_errors(args: Seq<ArgDeclV>) -> Seq<DeclError>
    decreases args.len(),
{
    if args.len() == 0 {
        Seq::empty()
    } else {
        args_errors(args.drop_last()) + (match args.last() {
            ArgDeclV::Receiver => seq![DeclError::ReceiverNotAllowed],
            ArgDeclV::Typed { is_ident, .. } => if is_ident {
                Seq::<DeclError>::empty()
            } else {
                seq![DeclError::PatternNotAllowed]
            },
        })
    }
}

/// The checked parameters: the identifier-bound arguments, in declaration
/// order.
pub open spec fn params_of(args: Seq<ArgDeclV>) -> Seq<ParamV>
    decreases args.len(),
{
    if args.len() == 0 {
        Seq::empty()
    } else {
        params_of(args.drop_last()) + (match args.last() {
            ArgDeclV::Typed { is_ident, name, ty } => if is_ident {
                seq![ParamV { name, ty }]
            } else {
                Seq::<ParamV>::empty()
            },
            ArgDeclV::Receiver => Seq::empty(),
        })
    }
}

/// Every error of a method declaration, in the order analysis reports
/// them: first the `post` attributes, then the arguments.
pub open spec fn method_errors(d: MethodDeclV) -> Seq<DeclError> {
    attrs_errors(d.attrs) + args_errors(d.args)
}

/// The analysis of a well-formed method declaration.
pub open spec fn rpc_model(d: MethodDeclV) -> RpcMethodV {
    RpcMethodV {
        is_async: d.is_async,
        attrs: other_attrs(d.attrs),
        name: d.name,
        args: params_of(d.args),
        post: attrs_post_names(d.attrs),
        transfer: attrs_transfer_names(d.attrs),
        output: d.output,
    }
}

// ===================== analysis =====================

/// The byte string `post` as a value.
pub fn post_path_bytes() -> (r: Vec<u8>)
    ensures
        r@ == post_path(),
{
    let mut v: Vec<u8> = Vec::new();
    v.push(112);
    v.push(111);
    v.push(115);
    v.push(116);
    proof {
        assert(v@ =~= post_path());
    }
    v
}

/// The byte string `transfer` as a value.
pub fn transfer_path_bytes() -> (r: Vec<u8>)
    ensures
        r@ == transfer_path(),
{
    let mut v: Vec<u8> = Vec::new();
    v.push(116);
    v.push(114);
    v.push(97);
    v.push(110);
    v.push(115);
    v.push(102);
    v.push(101);
    v.push(114);
    proof {
        assert(v@ =~= transfer_path());
    }
    v
}

/// The byte string `return` as a value.
pub fn return_name_bytes() -> (r: Vec<u8>)
    ensures
        r@ == return_name(),
{
    let mut v: Vec<u8> = Vec::new();
    v.push(114);
    v.push(101);
    v.push(116);
    v.push(117);
    v.push(114);
    v.push(110);
    proof {
        assert(v@ =~= return_name());
    }
    v
}

/// Copies one nested argument of a `post` attribute.
pub fn clone_group(g: &GroupItem) -> (r: GroupItem)
    ensures
        r@ == g@,
{
    match g {
        GroupItem::Name(n) => GroupItem::Name(crate::names::copy_bytes(n.as_slice())),
        GroupItem::Other => GroupItem::Other,
    }
}

/// Copies one argument of a `post` attribute.
pub fn clone_item(it: &AnnItem) -> (r: AnnItem)
    ensures
        r@ == it@,
{
    match it {
        AnnItem::Name(n) => AnnItem::Name(crate::names::copy_bytes(n.as_slice())),
        AnnItem::Group { path, items } => {
            let mut out: Vec<GroupItem> = Vec::new();
            let mut i: usize = 0;
            while i < items.len()
                invariant
                    i <= items@.len(),
                    out@.len() == i,
                    forall|k: int| 0 <= k < i ==> out@[k]@ == items@[k]@,
                decreases items@.len() - i,
            {
                out.push(clone_group(&items[i]));
                i = i + 1;
            }
            let r = AnnItem::Group { path: crate::names::copy_bytes(path.as_slice()), items: out };
            proof {
                assert(Seq::new(out@.len(), |i: int| out@[i]@) =~= Seq::new(
                    items@.len(),
                    |i: int| items@[i]@,
                ));
            }
            r
        },
        AnnItem::Other => AnnItem::Other,
    }
}

/// Copies one attribute.
pub fn clone_attr(a: &AttrDecl) -> (r: AttrDecl)
    ensures
        r@ == a@,
{
    let mut out: Vec<AnnItem> = Vec::new();
    let mut i: usize = 0;
    while i < a.items.len()
        invariant
            i <= a.items@.len(),
            out@.len() == i,
            forall|k: int| 0 <= k < i ==> out@[k]@ == a.items@[k]@,
        decreases a.items@.len() - i,
    {
        out.push(clone_item(&a.items[i]));
        i = i + 1;
    }
    let r = AttrDecl { path: crate::names::copy_bytes(a.path.as_slice()), items: out };
    proof {
        assert(Seq::new(out@.len(), |i: int| out@[i]@) =~= Seq::new(
            a.items@.len(),
            |i: int| a.items@[i]@,
        ));
    }
    r
}

impl RpcMethod {
    /// Checks one method declaration: collects the post and transfer sets
    /// from its `post` attributes, keeps the other attributes, and checks
    /// every parameter. Returns the checked method exactly when the
    /// declaration is free of errors, and otherwise every error in the
    /// order encountered: the `post` attributes first, then the arguments.
    pub fn from_decl(d: &MethodDecl) -> (r: Result<RpcMethod, Vec<DeclError>>)
        ensures
            match r {
                Ok(m) => method_errors(d@).len() == 0 && m@ == rpc_model(d@),
                Err(e) => e@ == method_errors(d@) && e@.len() > 0,
            },
    {
        let mut errors: Vec<DeclError> = Vec::new();
        let mut post: Vec<Vec<u8>> = Vec::new();
        let mut transfer: Vec<Vec<u8>> = Vec::new();
        let mut attrs: Vec<AttrDecl> = Vec::new();
        let post_kw = post_path_bytes();
        let transfer_kw = transfer_path_bytes();
        let ghost dav = attr_views(d.attrs@);
        let mut i: usize = 0;
        while i < d.attrs.len()
            invariant
                i <= d.attrs@.len(),
                dav == attr_views(d.attrs@),
                post_kw@ == post_path(),
                transfer_kw@ == transfer_path(),
                errors@ == attrs_errors(dav.take(i as int)),
                crate::names::byte_views(post@) == attrs_post_names(dav.take(i as int)),
                crate::names::byte_views(transfer@) == attrs_transfer_names(dav.take(i as int)),
                attr_views(attrs@) == other_attrs(dav.take(i as int)),
            decreases d.attrs@.len() - i,
        {
            let a = &d.attrs[i];
            proof {
                assert(dav.take(i as int + 1).drop_last() =~= dav.take(i as int));
                assert(dav.take(i as int + 1).last() == a@);
            }
            if crate::names::bytes_eq(a.path.as_slice(), post_kw.as_slice()) {
                let ghost items_v = a@.items;
                let ghost errors0 = errors@;
                let ghost post0 = crate::names::byte_views(post@);
                let ghost transfer0 = crate::names::byte_views(transfer@);
                let mut j: usize = 0;
                while j < a.items.len()
                    invariant
                        j <= a.items@.len(),
                        items_v == a@.items,
                        items_v.len() == a.items@.len(),
                        forall|k: int| 0 <= k < items_v.len() ==> items_v[k] == a.items@[k]@,
                        transfer_kw@ == transfer_path(),
                        errors@ == errors0 + items_errors(items_v.take(j as int)),
                        crate::names::byte_views(post@) == post0 + items_post_names(
                            items_v.take(j as int),
                        ),
                        crate::names::byte_views(transfer@) == transfer0 + items_transfer_names(
                            items_v.take(j as int),
                        ),
                    decreases a.items@.len() - j,
                {
                    proof {
                        assert(items_v.take(j as int + 1).drop_last() =~= items_v.take(j as int));
                        assert(items_v.take(j as int + 1).last() == items_v[j as int]);
                    }
                    let ghost errs_before = errors@;
                    let ghost post_before = crate::names::byte_views(post@);
                    let ghost transfer_before = crate::names::byte_views(transfer@);
                    match &a.items[j] {
                        AnnItem::Name(n) => {
                            post.push(crate::names::copy_bytes(n.as_slice()));
                            proof {
                                assert(crate::names::byte_views(post@) =~= post_before.push(n@));
                            }
                        },
                        AnnItem::Group { path, items } => {
                            if crate::names::bytes_eq(path.as_slice(), transfer_kw.as_slice()) {
                                if items.len() != 1 {
                                    errors.push(DeclError::PostSyntax);
                                }
                                if items.len() == 0 {
                                    errors.push(DeclError::PostSyntax);
                                } else {
                                    match &items[0] {
                                        GroupItem::Name(n) => {
                                            post.push(crate::names::copy_bytes(n.as_slice()));
                                            transfer.push(crate::names::copy_bytes(n.as_slice()));
                                            proof {
                                                assert(crate::names::byte_views(post@)
                                                    =~= post_before.push(n@));
                                                assert(crate::names::byte_views(transfer@)
                                                    =~= transfer_before.push(n@));
                                            }
                                        },
                                        GroupItem::Other => {
                                            errors.push(DeclError::PostSyntax);
                                        },
                                    }
                                }
                            } else {
                                errors.push(DeclError::PostSyntax);
                            }
                        },
                        AnnItem::Other => {
                            errors.push(DeclError::PostSyntax);
                        },
                    }
                    proof {
                        assert(errors@ =~= errs_before + item_errors(items_v[j as int]));
                        assert(crate::names::byte_views(post@) =~= post_before + item_post_names(
                            items_v[j as int],
                        ));
                        assert(crate::names::byte_views(transfer@) =~= transfer_before
                            + item_transfer_names(items_v[j as int]));
                        assert(errors@ =~= errors0 + items_errors(items_v.take(j as int + 1)));
                        assert(crate::names::byte_views(post@) =~= post0 + items_post_names(
                            items_v.take(j as int + 1),
                        ));
                        assert(crate::names::byte_views(transfer@) =~= transfer0
                            + items_transfer_names(items_v.take(j as int + 1)));
                    }
                    j = j + 1;
                }
                proof {
                    assert(items_v.take(items_v.len() as int) =~= items_v);
                    assert(errors@ =~= attrs_errors(dav.take(i as int + 1)));
                    assert(crate::names::byte_views(post@) =~= attrs_post_names(
                        dav.take(i as int + 1),
                    ));
                    assert(crate::names::byte_views(transfer@) =~= attrs_transfer_names(
                        dav.take(i as int + 1),
                    ));
                    assert(attr_views(attrs@) =~= other_attrs(dav.take(i as int + 1)));
                }
            } else {
                let ghost attrs_before = attr_views(attrs@);
                attrs.push(clone_attr(a));
                proof {
                    assert(attr_views(attrs@) =~= attrs_before.push(a@));
                    assert(errors@ =~= attrs_errors(dav.take(i as int + 1)));
                    assert(crate::names::byte_views(post@) =~= attrs_post_names(
                        dav.take(i as int + 1),
                    ));
                    assert(crate::names::byte_views(transfer@) =~= attrs_transfer_names(
                        dav.take(i as int + 1),
                    ));
                }
            }
            i = i + 1;
        }
        proof {
            assert(dav.take(dav.len() as int) =~= dav);
        }
        let ghost arg_views = Seq::new(d.args@.len(), |i: int| d.args@[i]@);
        let ghost errors1 = errors@;
        let mut args: Vec<Param> = Vec::new();
        let mut k: usize = 0;
        while k < d.args.len()
            invariant
                k <= d.args@.len(),
                arg_views == Seq::new(d.args@.len(), |i: int| d.args@[i]@),
                errors@ == errors1 + args_errors(arg_views.take(k as int)),
                param_views(args@) == params_of(arg_views.take(k as int)),
            decreases d.args@.len() - k,
        {
            proof {
                assert(arg_views.take(k as int + 1).drop_last() =~= arg_views.take(k as int));
                assert(arg_views.take(k as int + 1).last() == arg_views[k as int]);
            }
            let ghost errs_before = errors@;
            let ghost params_before = param_views(args@);
            match &d.args[k] {
                ArgDecl::Typed { pat, ty } => {
                    match pat {
                        ArgPat::Ident(n) => {
                            args.push(
                                Param {
                                    name: crate::names::copy_bytes(n.as_slice()),
                                    ty: crate::names::copy_bytes(ty.as_slice()),
                                },
                            );
                            proof {
                                assert(param_views(args@) =~= params_before.push(
                                    ParamV { name: n@, ty: ty@ },
                                ));
                            }
                        },
                        ArgPat::Other => {
                            errors.push(DeclError::PatternNotAllowed);
                        },
                    }
                },
                ArgDecl::Receiver => {
                    errors.push(DeclError::ReceiverNotAllowed);
                },
            }
            proof {
                assert(errors@ =~= errors1 + args_errors(arg_views.take(k as int + 1)));
                assert(param_views(args@) =~= params_of(arg_views.take(k as int + 1)));
            }
            k = k + 1;
        }
        proof {
            assert(arg_views.take(arg_views.len() as int) =~= arg_views);
        }
        if errors.len() > 0 {
            proof {
                assert(errors@ =~= method_errors(d@));
            }
            return Err(errors);
        }
        let m = RpcMethod {
            is_async: d.is_async,
            attrs,
            name: crate::names::copy_bytes(d.name.as_slice()),
            args,
            post,
            transfer,
            output: match &d.output {
                Some(t) => Some(crate::names::copy_bytes(t.as_slice())),
                None => None,
            },
        };
        proof {
            assert(errors@ =~= method_errors(d@));
            assert(m@ == rpc_model(d@));
        }
        Ok(m)
    }
}

// ===================== the whole declaration =====================

/// A checked service: its attributes, its name and its checked methods.
#[derive(Debug)]
pub struct Service {
    pub attrs: Vec<AttrDecl>,
    pub name: Vec<u8>,
    pub rpcs: Vec<RpcMethod>,
}

pub struct ServiceV {
    pub attrs: Seq<AttrDeclV>,
    pub name: Seq<u8>,
    pub rpcs: Seq<RpcMethodV>,
}

pub struct ServiceDeclV {
    pub attrs: Seq<AttrDeclV>,
    pub name: Seq<u8>,
    pub methods: Seq<MethodDeclV>,
}

impl View for ServiceDecl {
    type V = ServiceDeclV;

    open spec fn view(&self) -> ServiceDeclV {
        ServiceDeclV {
            attrs: attr_views(self.attrs@),
            name: self.name@,
            methods: Seq::new(self.methods@.len(), |i: int| self.methods@[i]@),
        }
    }
}

/// Copies a list of attributes.
pub fn clone_attrs(v: &Vec<AttrDecl>) -> (r: Vec<AttrDecl>)
    ensures
        attr_views(r@) == attr_views(v@),
{
    let mut out: Vec<AttrDecl> = Vec::new();
    let mut i: usize = 0;
    while i < v.len()
        invariant
            i <= v@.len(),
            out@.len() == i,
            forall|k: int| 0 <= k < i ==> out@[k]@ == v@[k]@,
        decreases v@.len() - i,
    {
        out.push(clone_attr(&v[i]));
        i = i + 1;
    }
    proof {
        assert(attr_views(out@) =~= attr_views(v@));
    }
    out
}

/// The views of a sequence of checked methods.
pub open spec fn rpc_views(v: Seq<RpcMethod>) -> Seq<RpcMethodV> {
    Seq::new(v.len(), |i: int| v[i]@)
}

impl View for Service {
    type V = ServiceV;

    open spec fn view(&self) -> ServiceV {
        ServiceV { attrs: attr_views(self.attrs@), name: self.name@, rpcs: rpc_views(self.rpcs@) }
    }
}

/// True of a method declaration that is free of errors.
pub open spec fn method_ok(d: MethodDeclV) -> bool {
    method_errors(d).len() == 0
}

impl Service {
    /// Checks a whole service declaration, method by method in order,
    /// stopping at the first method that carries errors. Returns the
    /// checked service exactly when every method is well-formed.
    pub fn from_decl(d: &ServiceDecl) -> (r: Result<Service, Vec<DeclError>>)
        ensures
            match r {
                Ok(s) => {
                    &&& forall|i: int|
                        0 <= i < d@.methods.len() ==> #[trigger] method_ok(d@.methods[i])
                    &&& s@.attrs == d@.attrs
                    &&& s@.name == d@.name
                    &&& s@.rpcs == Seq::new(d@.methods.len(), |i: int| rpc_model(d@.methods[i]))
                },
                Err(e) => exists|i: int|
                    {
                        &&& 0 <= i < d@.methods.len()
                        &&& !#[trigger] method_ok(d@.methods[i])
                        &&& forall|k: int| 0 <= k < i ==> #[trigger] method_ok(d@.methods[k])
                        &&& e@ == method_errors(d@.methods[i])
                    },
            },
    {
        let mut rpcs: Vec<RpcMethod> = Vec::new();
        let mut i: usize = 0;
        while i < d.methods.len()
            invariant
                i <= d.methods@.len(),
                forall|k: int| 0 <= k < i ==> #[trigger] method_ok(d@.methods[k]),
                rpc_views(rpcs@) == Seq::new(i as nat, |k: int| rpc_model(d@.methods[k])),
            decreases d.methods@.len() - i,
        {
            let ghost before = rpc_views(rpcs@);
            match RpcMethod::from_decl(&d.methods[i]) {
                Ok(m) => {
                    rpcs.push(m);
                    proof {
                        assert(d@.methods[i as int] == d.methods@[i as int]@);
                        assert(rpc_views(rpcs@) =~= before.push(rpc_model(d@.methods[i as int])));
                        assert(rpc_views(rpcs@) =~= Seq::new(
                            (i + 1) as nat,
                            |k: int| rpc_model(d@.methods[k]),
                        ));
                    }
                },
                Err(e) => {
                    proof {
                        assert(d@.methods[i as int] == d.methods@[i as int]@);
                        assert(!method_ok(d@.methods[i as int]));
                    }
                    return Err(e);
                },
            }
            i = i + 1;
        }
        let s = Service {
            attrs: clone_attrs(&d.attrs),
            name: crate::names::copy_bytes(d.name.as_slice()),
            rpcs,
        };
        Ok(s)
    }
}

} // verus!
