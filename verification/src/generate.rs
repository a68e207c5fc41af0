//! The code generator: from a checked service declaration to the shapes of
//! the generated items.
//!
//! [`service`] deterministically produces, for a service named `S`:
//! a request variant set `SRequest` and a response variant set `SResponse`
//! (one variant per method, named by the PascalCase form of the method
//! name), the service interface `S` (what a server implementation must
//! provide), the client stub `SClient`, and the server dispatch table
//! `SServer`. A request variant holds exactly the serialized-mode
//! parameters in declaration order; posted parameters travel out-of-band in
//! declaration order. A response variant holds the serialized return type
//! unless the return is itself posted, in which case the variant is empty
//! and the value travels out-of-band.

use vstd::prelude::*;

use crate::decl::{
    attr_views, param_views, AttrDecl, DeclError, Param, ParamV, RpcMethod, RpcMethodV, Service,
    ServiceDecl, method_ok, return_name, return_name_bytes, rpc_model, rpc_views,
};
use crate::names::{byte_views, camel_of, contains_name, copy_bytes, snake_to_camel, suffixed};

verus! {

// ===================== generated shapes =====================

/// One variant of the request enum: named fields, one per serialized
/// parameter, in declaration order.
pub struct VariantDef {
    pub name: Vec<u8>,
    pub fields: Vec<Param>,
}

pub struct VariantV {
    pub name: Seq<u8>,
    pub fields: Seq<ParamV>,
}

impl View for VariantDef {
    type V = VariantV;

    open spec fn view(&self) -> VariantV {
        VariantV { name: self.name@, fields: param_views(self.fields@) }
    }
}

/// The request enum of a service.
pub struct RequestEnumDef {
    pub name: Vec<u8>,
    pub variants: Vec<VariantDef>,
}

pub struct RequestEnumV {
    pub name: Seq<u8>,
    pub variants: Seq<VariantV>,
}

impl View for RequestEnumDef {
    type V = RequestEnumV;

    open spec fn view(&self) -> RequestEnumV {
        RequestEnumV {
            name: self.name@,
            variants: Seq::new(self.variants@.len(), |i: int| self.variants@[i]@),
        }
    }
}

/// One variant of the response enum: it carries the serialized return type,
/// or nothing when the return value is posted out-of-band (or the method
/// returns nothing).
pub struct ResponseVariantDef {
    pub name: Vec<u8>,
    pub payload: Option<Vec<u8>>,
}

pub struct ResponseVariantV {
    pub name: Seq<u8>,
    pub payload: Option<Seq<u8>>,
}

impl View for ResponseVariantDef {
    type V = ResponseVariantV;

    open spec fn view(&self) -> ResponseVariantV {
        ResponseVariantV {
            name: self.name@,
            payload: match self.payload {
                Some(t) => Some(t@),
                None => None,
            },
        }
    }
}

/// The response enum of a service.
pub struct ResponseEnumDef {
    pub name: Vec<u8>,
    pub variants: Vec<ResponseVariantDef>,
}

pub struct ResponseEnumV {
    pub name: Seq<u8>,
    pub variants: Seq<ResponseVariantV>,
}

impl View for ResponseEnumDef {
    type V = ResponseEnumV;

    open spec fn view(&self) -> ResponseEnumV {
        ResponseEnumV {
            name: self.name@,
            variants: Seq::new(self.variants@.len(), |i: int| self.variants@[i]@),
        }
    }
}

/// One method of the service interface: the declared signature, taken by
/// value as declared.
pub struct SigDef {
    pub attrs: Vec<AttrDecl>,
    pub is_async: bool,
    pub name: Vec<u8>,
    pub params: Vec<Param>,
    pub ret: Vec<u8>,
}

pub struct SigV {
    pub attrs: Seq<crate::decl::AttrDeclV>,
    pub is_async: bool,
    pub name: Seq<u8>,
    pub params: Seq<ParamV>,
    pub ret: Seq<u8>,
}

impl View for SigDef {
    type V = SigV;

    open spec fn view(&self) -> SigV {
        SigV {
            attrs: attr_views(self.attrs@),
            is_async: self.is_async,
            name: self.name@,
            params: param_views(self.params@),
            ret: self.ret@,
        }
    }
}

/// The service interface: what a server implementation must provide.
pub struct TraitDef {
    /// The attributes of the declared trait, carried over.
    pub attrs: Vec<AttrDecl>,
    pub name: Vec<u8>,
    pub methods: Vec<SigDef>,
}

pub struct TraitV {
    pub attrs: Seq<crate::decl::AttrDeclV>,
    pub name: Seq<u8>,
    pub methods: Seq<SigV>,
}

impl View for TraitDef {
    type V = TraitV;

    open spec fn view(&self) -> TraitV {
        TraitV {
            attrs: attr_views(self.attrs@),
            name: self.name@,
            methods: Seq::new(self.methods@.len(), |i: int| self.methods@[i]@),
        }
    }
}

/// One client stub method: how a call partitions its arguments.
pub struct ClientMethodDef {
    pub attrs: Vec<AttrDecl>,
    pub name: Vec<u8>,
    /// The request and response variant the method uses.
    pub variant: Vec<u8>,
    pub params: Vec<Param>,
    pub ret: Vec<u8>,
    /// Names of the arguments placed in the request variant, in order.
    pub serialized: Vec<Vec<u8>>,
    /// Names of the arguments posted out-of-band, in declaration order.
    pub posted: Vec<Vec<u8>>,
    /// Names of the posted arguments whose ownership is transferred.
    pub transferred: Vec<Vec<u8>>,
    /// Whether the return value arrives out-of-band rather than in the
    /// response variant.
    pub return_posted: bool,
}

pub struct ClientMethodV {
    pub attrs: Seq<crate::decl::AttrDeclV>,
    pub name: Seq<u8>,
    pub variant: Seq<u8>,
    pub params: Seq<ParamV>,
    pub ret: Seq<u8>,
    pub serialized: Seq<Seq<u8>>,
    pub posted: Seq<Seq<u8>>,
    pub transferred: Seq<Seq<u8>>,
    pub return_posted: bool,
}

impl View for ClientMethodDef {
    type V = ClientMethodV;

    open spec fn view(&self) -> ClientMethodV {
        ClientMethodV {
            attrs: attr_views(self.attrs@),
            name: self.name@,
            variant: self.variant@,
            params: param_views(self.params@),
            ret: self.ret@,
            serialized: byte_views(self.serialized@),
            posted: byte_views(self.posted@),
            transferred: byte_views(self.transferred@),
            return_posted: self.return_posted,
        }
    }
}

/// The client stub of a service.
pub struct ClientDef {
    pub name: Vec<u8>,
    pub request_enum: Vec<u8>,
    pub response_enum: Vec<u8>,
    pub methods: Vec<ClientMethodDef>,
}

pub struct ClientV {
    pub name: Seq<u8>,
    pub request_enum: Seq<u8>,
    pub response_enum: Seq<u8>,
    pub methods: Seq<ClientMethodV>,
}

impl View for ClientDef {
    type V = ClientV;

    open spec fn view(&self) -> ClientV {
        ClientV {
            name: self.name@,
            request_enum: self.request_enum@,
            response_enum: self.response_enum@,
            methods: Seq::new(self.methods@.len(), |i: int| self.methods@[i]@),
        }
    }
}

/// Where a method's return value travels.
#[derive(Clone, Copy, PartialEq, Eq, Structural, Debug)]
pub enum ReturnDisposition {
    /// In the response variant's payload.
    Serialized,
    /// Out-of-band, by value.
    Posted,
    /// Out-of-band, ownership moved to the receiver.
    Transferred,
}

/// One entry of the server dispatch table.
pub struct ServerMethodDef {
    /// The request variant the entry matches.
    pub variant: Vec<u8>,
    /// The serialized parameters destructured from the variant.
    pub serialized: Vec<Param>,
    /// The posted parameters, shifted off the inbound out-of-band sequence
    /// in declaration order.
    pub extracted: Vec<Param>,
    /// All parameter names in declaration order: the arguments of the call
    /// into the service implementation.
    pub call_args: Vec<Vec<u8>>,
    /// Whether the call must be awaited.
    pub is_async: bool,
    pub ret: ReturnDisposition,
}

pub struct ServerMethodV {
    pub variant: Seq<u8>,
    pub serialized: Seq<ParamV>,
    pub extracted: Seq<ParamV>,
    pub call_args: Seq<Seq<u8>>,
    pub is_async: bool,
    pub ret: ReturnDisposition,
}

impl View for ServerMethodDef {
    type V = ServerMethodV;

    open spec fn view(&self) -> ServerMethodV {
        ServerMethodV {
            variant: self.variant@,
            serialized: param_views(self.serialized@),
            extracted: param_views(self.extracted@),
            call_args: byte_views(self.call_args@),
            is_async: self.is_async,
            ret: self.ret,
        }
    }
}

/// The server dispatch table of a service.
pub struct ServerDef {
    pub name: Vec<u8>,
    /// The service interface the wrapped implementation provides.
    pub service: Vec<u8>,
    pub methods: Vec<ServerMethodDef>,
}

pub struct ServerV {
    pub name: Seq<u8>,
    pub service: Seq<u8>,
    pub methods: Seq<ServerMethodV>,
}

impl View for ServerDef {
    type V = ServerV;

    open spec fn view(&self) -> ServerV {
        ServerV {
            name: self.name@,
            service: self.service@,
            methods: Seq::new(self.methods@.len(), |i: int| self.methods@[i]@),
        }
    }
}

/// Everything generated from one service declaration.
pub struct GeneratedService {
    pub request_enum: RequestEnumDef,
    pub response_enum: ResponseEnumDef,
    pub service_trait: TraitDef,
    pub client: ClientDef,
    pub server: ServerDef,
}

// ===================== the meaning of generation =====================

/// The byte string `Server`.
pub open spec fn server_suffix() -> Seq<u8> {
    seq![83u8, 101u8, 114u8, 118u8, 101u8, 114u8]
}

/// The byte string `Client`.
pub open spec fn client_suffix() -> Seq<u8> {
    seq![67u8, 108u8, 105u8, 101u8, 110u8, 116u8]
}

/// The byte string `Request`.
pub open spec fn request_suffix() -> Seq<u8> {
    seq![82u8, 101u8, 113u8, 117u8, 101u8, 115u8, 116u8]
}

/// The byte string `Response`.
pub open spec fn response_suffix() -> Seq<u8> {
    seq![82u8, 101u8, 115u8, 112u8, 111u8, 110u8, 115u8, 101u8]
}

/// The byte string `()`: the return type of a method declared without one.
pub open spec fn unit_ty() -> Seq<u8> {
    seq![40u8, 41u8]
}

/// The parameters whose membership of `set` equals `keep_in`, in order:
/// with a method's post set and `keep_in == false` these are the serialized
/// parameters, with `keep_in == true` the posted ones.
pub open spec fn params_with(args: Seq<ParamV>, set: Seq<Seq<u8>>, keep_in: bool) -> Seq<ParamV>
    decreases args.len(),
{
    if args.len() == 0 {
        Seq::empty()
    } else {
        params_with(args.drop_last(), set, keep_in) + (if set.contains(args.last().name)
            == keep_in {
            seq![args.last()]
        } else {
            Seq::<ParamV>::empty()
        })
    }
}

/// The names of a parameter list, in order.
pub open spec fn names_of(params: Seq<ParamV>) -> Seq<Seq<u8>> {
    Seq::new(params.len(), |i: int| params[i].name)
}

/// True when the method's return value is posted out-of-band.
pub open spec fn return_posted(m: RpcMethodV) -> bool {
    m.post.contains(return_name())
}

/// True when the method's return value is posted with ownership transfer.
pub open spec fn return_transferred(m: RpcMethodV) -> bool {
    m.transfer.contains(return_name())
}

/// The declared return type, or `()` when none was declared.
pub open spec fn ret_ty(m: RpcMethodV) -> Seq<u8> {
    match m.output {
        Some(t) => t,
        None => unit_ty(),
    }
}

/// The request variant of one method: exactly the serialized parameters,
/// in declaration order.
pub open spec fn request_variant(m: RpcMethodV, camel: Seq<u8>) -> VariantV {
    VariantV { name: camel, fields: params_with(m.args, m.post, false) }
}

/// The response variant of one method: the return type, unless the method
/// returns nothing or the return is posted.
pub open spec fn response_variant(m: RpcMethodV, camel: Seq<u8>) -> ResponseVariantV {
    ResponseVariantV {
        name: camel,
        payload: match m.output {
            Some(t) => if !return_posted(m) {
                Some(t)
            } else {
                None
            },
            None => None,
        },
    }
}

/// The interface signature of one method: the declared signature itself.
pub open spec fn sig_of(m: RpcMethodV) -> SigV {
    SigV { attrs: m.attrs, is_async: m.is_async, name: m.name, params: m.args, ret: ret_ty(m) }
}

/// The client stub of one method: the argument partition a call performs.
pub open spec fn client_method(m: RpcMethodV, camel: Seq<u8>) -> ClientMethodV {
    ClientMethodV {
        attrs: m.attrs,
        name: m.name,
        variant: camel,
        params: m.args,
        ret: ret_ty(m),
        serialized: names_of(params_with(m.args, m.post, false)),
        posted: names_of(params_with(m.args, m.post, true)),
        transferred: names_of(params_with(m.args, m.transfer, true)),
        return_posted: return_posted(m),
    }
}

/// The dispatch entry of one method.
pub open spec fn server_method(m: RpcMethodV, camel: Seq<u8>) -> ServerMethodV {
    ServerMethodV {
        variant: camel,
        serialized: params_with(m.args, m.post, false),
        extracted: params_with(m.args, m.post, true),
        call_args: names_of(m.args),
        is_async: m.is_async,
        ret: if !return_posted(m) {
            ReturnDisposition::Serialized
        } else if !return_transferred(m) {
            ReturnDisposition::Posted
        } else {
            ReturnDisposition::Transferred
        },
    }
}

/// The whole request enum of a service named `rpcs`-wise by `camels`.
pub open spec fn request_enum_model(
    name: Seq<u8>,
    rpcs: Seq<RpcMethodV>,
    camels: Seq<Seq<u8>>,
) -> RequestEnumV {
    RequestEnumV { name, variants: Seq::new(rpcs.len(), |i: int| request_variant(rpcs[i], camels[i])) }
}

/// The whole response enum.
pub open spec fn response_enum_model(
    name: Seq<u8>,
    rpcs: Seq<RpcMethodV>,
    camels: Seq<Seq<u8>>,
) -> ResponseEnumV {
    ResponseEnumV {
        name,
        variants: Seq::new(rpcs.len(), |i: int| response_variant(rpcs[i], camels[i])),
    }
}

/// The whole service interface.
pub open spec fn trait_model(
    attrs: Seq<crate::decl::AttrDeclV>,
    name: Seq<u8>,
    rpcs: Seq<RpcMethodV>,
) -> TraitV {
    TraitV { attrs, name, methods: Seq::new(rpcs.len(), |i: int| sig_of(rpcs[i])) }
}

/// The whole client stub.
pub open spec fn client_model(
    name: Seq<u8>,
    request_enum: Seq<u8>,
    response_enum: Seq<u8>,
    rpcs: Seq<RpcMethodV>,
    camels: Seq<Seq<u8>>,
) -> ClientV {
    ClientV {
        name,
        request_enum,
        response_enum,
        methods: Seq::new(rpcs.len(), |i: int| client_method(rpcs[i], camels[i])),
    }
}

/// The whole server dispatch table.
pub open spec fn server_model(
    name: Seq<u8>,
    service: Seq<u8>,
    rpcs: Seq<RpcMethodV>,
    camels: Seq<Seq<u8>>,
) -> ServerV {
    ServerV {
        name,
        service,
        methods: Seq::new(rpcs.len(), |i: int| server_method(rpcs[i], camels[i])),
    }
}

// ===================== generation =====================

/// The byte string `Server` as a value.
pub fn server_suffix_bytes() -> (r: Vec<u8>)
    ensures
        r@ == server_suffix(),
{
    let mut v: Vec<u8> = Vec::new();
    v.push(83);
    v.push(101);
    v.push(114);
    v.push(118);
    v.push(101);
    v.push(114);
    proof {
        assert(v@ =~= server_suffix());
    }
    v
}

/// The byte string `Client` as a value.
pub fn client_suffix_bytes() -> (r: Vec<u8>)
    ensures
        r@ == client_suffix(),
{
    let mut v: Vec<u8> = Vec::new();
    v.push(67);
    v.push(108);
    v.push(105);
    v.push(101);
    v.push(110);
    v.push(116);
    proof {
        assert(v@ =~= client_suffix());
    }
    v
}

/// The byte string `Request` as a value.
pub fn request_suffix_bytes() -> (r: Vec<u8>)
    ensures
        r@ == request_suffix(),
{
    let mut v: Vec<u8> = Vec::new();
    v.push(82);
    v.push(101);
    v.push(113);
    v.push(117);
    v.push(101);
    v.push(115);
    v.push(116);
    proof {
        assert(v@ =~= request_suffix());
    }
    v
}

/// The byte string `Response` as a value.
pub fn response_suffix_bytes() -> (r: Vec<u8>)
    ensures
        r@ == response_suffix(),
{
    let mut v: Vec<u8> = Vec::new();
    v.push(82);
    v.push(101);
    v.push(115);
    v.push(112);
    v.push(111);
    v.push(110);
    v.push(115);
    v.push(101);
    proof {
        assert(v@ =~= response_suffix());
    }
    v
}

/// The byte string `()` as a value.
pub fn unit_ty_bytes() -> (r: Vec<u8>)
    ensures
        r@ == unit_ty(),
{
    let mut v: Vec<u8> = Vec::new();
    v.push(40);
    v.push(41);
    proof {
        assert(v@ =~= unit_ty());
    }
    v
}

/// Copies one parameter.
pub fn clone_param(p: &Param) -> (r: Param)
    ensures
        r@ == p@,
{
    Param { name: copy_bytes(p.name.as_slice()), ty: copy_bytes(p.ty.as_slice()) }
}

/// Copies a parameter list.
pub fn clone_params(v: &Vec<Param>) -> (r: Vec<Param>)
    ensures
        param_views(r@) == param_views(v@),
{
    let mut out: Vec<Param> = Vec::new();
    let mut i: usize = 0;
    while i < v.len()
        invariant
            i <= v@.len(),
            out@.len() == i,
            forall|k: int| 0 <= k < i ==> out@[k]@ == v@[k]@,
        decreases v@.len() - i,
    {
        out.push(clone_param(&v[i]));
        i = i + 1;
    }
    proof {
        assert(param_views(out@) =~= param_views(v@));
    }
    out
}

/// The parameters whose membership of `set` equals `keep_in`, in
/// declaration order.
pub fn params_filter(args: &Vec<Param>, set: &Vec<Vec<u8>>, keep_in: bool) -> (r: Vec<Param>)
    ensures
        param_views(r@) == params_with(param_views(args@), byte_views(set@), keep_in),
{
    let ghost avs = param_views(args@);
    let mut out: Vec<Param> = Vec::new();
    let mut i: usize = 0;
    while i < args.len()
        invariant
            i <= args@.len(),
            avs == param_views(args@),
            param_views(out@) == params_with(avs.take(i as int), byte_views(set@), keep_in),
        decreases args@.len() - i,
    {
        proof {
            assert(avs.take(i as int + 1).drop_last() =~= avs.take(i as int));
            assert(avs.take(i as int + 1).last() == avs[i as int]);
        }
        let ghost before = param_views(out@);
        if contains_name(set, args[i].name.as_slice()) == keep_in {
            out.push(clone_param(&args[i]));
            proof {
                assert(param_views(out@) =~= before.push(avs[i as int]));
            }
        }
        proof {
            assert(param_views(out@) =~= params_with(
                avs.take(i as int + 1),
                byte_views(set@),
                keep_in,
            ));
        }
        i = i + 1;
    }
    proof {
        assert(avs.take(avs.len() as int) =~= avs);
    }
    out
}

/// The names of a parameter list, in declaration order.
pub fn param_names(params: &Vec<Param>) -> (r: Vec<Vec<u8>>)
    ensures
        byte_views(r@) == names_of(param_views(params@)),
{
    let mut out: Vec<Vec<u8>> = Vec::new();
    let mut i: usize = 0;
    while i < params.len()
        invariant
            i <= params@.len(),
            out@.len() == i,
            forall|k: int| 0 <= k < i ==> out@[k]@ == params@[k].name@,
        decreases params@.len() - i,
    {
        out.push(copy_bytes(params[i].name.as_slice()));
        i = i + 1;
    }
    proof {
        assert(byte_views(out@) =~= names_of(param_views(params@)));
    }
    out
}

/// The generator: a checked service together with the derived names of the
/// items to generate.
pub struct ServiceGenerator {
    pub service_ident: Vec<u8>,
    pub server_ident: Vec<u8>,
    pub client_ident: Vec<u8>,
    pub request_ident: Vec<u8>,
    pub response_ident: Vec<u8>,
    pub attrs: Vec<AttrDecl>,
    pub rpcs: Vec<RpcMethod>,
    pub camel_case_idents: Vec<Vec<u8>>,
}

impl ServiceGenerator {
    /// One camel-case variant name per method.
    pub open spec fn paired(&self) -> bool {
        self.camel_case_idents@.len() == self.rpcs@.len()
    }

    /// The request enum: one variant per method, holding exactly the
    /// serialized parameters in declaration order.
    pub fn enum_request(&self) -> (r: RequestEnumDef)
        requires
            self.paired(),
        ensures
            r@ == request_enum_model(
                self.request_ident@,
                rpc_views(self.rpcs@),
                byte_views(self.camel_case_idents@),
            ),
    {
        let ghost rv = rpc_views(self.rpcs@);
        let ghost cv = byte_views(self.camel_case_idents@);
        let mut variants: Vec<VariantDef> = Vec::new();
        let mut i: usize = 0;
        while i < self.rpcs.len()
            invariant
                self.paired(),
                i <= self.rpcs@.len(),
                rv == rpc_views(self.rpcs@),
                cv == byte_views(self.camel_case_idents@),
                variants@.len() == i,
                forall|k: int| 0 <= k < i ==> variants@[k]@ == request_variant(rv[k], cv[k]),
            decreases self.rpcs@.len() - i,
        {
            let m = &self.rpcs[i];
            let v = VariantDef {
                name: copy_bytes(self.camel_case_idents[i].as_slice()),
                fields: params_filter(&m.args, &m.post, false),
            };
            proof {
                assert(v@ == request_variant(rv[i as int], cv[i as int]));
            }
            variants.push(v);
            i = i + 1;
        }
        let r = RequestEnumDef { name: copy_bytes(self.request_ident.as_slice()), variants };
        proof {
            assert(r@.variants =~= Seq::new(rv.len(), |k: int| request_variant(rv[k], cv[k])));
        }
        r
    }

    /// The response enum: one variant per method, carrying the return type
    /// unless the method returns nothing or posts its return value.
    pub fn enum_response(&self) -> (r: ResponseEnumDef)
        requires
            self.paired(),
        ensures
            r@ == response_enum_model(
                self.response_ident@,
                rpc_views(self.rpcs@),
                byte_views(self.camel_case_idents@),
            ),
    {
        let ghost rv = rpc_views(self.rpcs@);
        let ghost cv = byte_views(self.camel_case_idents@);
        let ret_kw = return_name_bytes();
        let mut variants: Vec<ResponseVariantDef> = Vec::new();
        let mut i: usize = 0;
        while i < self.rpcs.len()
            invariant
                self.paired(),
                i <= self.rpcs@.len(),
                rv == rpc_views(self.rpcs@),
                cv == byte_views(self.camel_case_idents@),
                ret_kw@ == return_name(),
                variants@.len() == i,
                forall|k: int| 0 <= k < i ==> variants@[k]@ == response_variant(rv[k], cv[k]),
            decreases self.rpcs@.len() - i,
        {
            let m = &self.rpcs[i];
            let payload: Option<Vec<u8>> = match &m.output {
                Some(t) => if !contains_name(&m.post, ret_kw.as_slice()) {
                    Some(copy_bytes(t.as_slice()))
                } else {
                    None
                },
                None => None,
            };
            let v = ResponseVariantDef {
                name: copy_bytes(self.camel_case_idents[i].as_slice()),
                payload,
            };
            variants.push(v);
            proof {
                assert(variants@[i as int]@ == response_variant(rv[i as int], cv[i as int]));
            }
            i = i + 1;
        }
        let r = ResponseEnumDef { name: copy_bytes(self.response_ident.as_slice()), variants };
        proof {
            assert(r@.variants =~= Seq::new(rv.len(), |k: int| response_variant(rv[k], cv[k])));
        }
        r
    }

    /// The service interface: one method per declaration entry, with the
    /// declared signature, to be implemented by the server-side logic.
    pub fn trait_service(&self) -> (r: TraitDef)
        ensures
            r@ == trait_model(attr_views(self.attrs@), self.service_ident@, rpc_views(self.rpcs@)),
    {
        let ghost rv = rpc_views(self.rpcs@);
        let mut methods: Vec<SigDef> = Vec::new();
        let mut i: usize = 0;
        while i < self.rpcs.len()
            invariant
                i <= self.rpcs@.len(),
                rv == rpc_views(self.rpcs@),
                methods@.len() == i,
                forall|k: int| 0 <= k < i ==> methods@[k]@ == sig_of(rv[k]),
            decreases self.rpcs@.len() - i,
        {
            let m = &self.rpcs[i];
            let ret = match &m.output {
                Some(t) => copy_bytes(t.as_slice()),
                None => unit_ty_bytes(),
            };
            let sig = SigDef {
                attrs: crate::decl::clone_attrs(&m.attrs),
                is_async: m.is_async,
                name: copy_bytes(m.name.as_slice()),
                params: clone_params(&m.args),
                ret,
            };
            proof {
                assert(sig@ == sig_of(rv[i as int]));
            }
            methods.push(sig);
            i = i + 1;
        }
        let r = TraitDef {
            attrs: crate::decl::clone_attrs(&self.attrs),
            name: copy_bytes(self.service_ident.as_slice()),
            methods,
        };
        proof {
            assert(r@.methods =~= Seq::new(rv.len(), |k: int| sig_of(rv[k])));
        }
        r
    }

    /// The client stub: one async method per declaration entry; each call
    /// builds the request variant from the serialized arguments and the
    /// out-of-band sequence from the posted arguments, in declaration
    /// order.
    pub fn struct_client(&self) -> (r: ClientDef)
        requires
            self.paired(),
        ensures
            r@ == client_model(
                self.client_ident@,
                self.request_ident@,
                self.response_ident@,
                rpc_views(self.rpcs@),
                byte_views(self.camel_case_idents@),
            ),
    {
        let ghost rv = rpc_views(self.rpcs@);
        let ghost cv = byte_views(self.camel_case_idents@);
        let ret_kw = return_name_bytes();
        let mut methods: Vec<ClientMethodDef> = Vec::new();
        let mut i: usize = 0;
        while i < self.rpcs.len()
            invariant
                self.paired(),
                i <= self.rpcs@.len(),
                rv == rpc_views(self.rpcs@),
                cv == byte_views(self.camel_case_idents@),
                ret_kw@ == return_name(),
                methods@.len() == i,
                forall|k: int| 0 <= k < i ==> methods@[k]@ == client_method(rv[k], cv[k]),
            decreases self.rpcs@.len() - i,
        {
            let m = &self.rpcs[i];
            let ret = match &m.output {
                Some(t) => copy_bytes(t.as_slice()),
                None => unit_ty_bytes(),
            };
            let ser = params_filter(&m.args, &m.post, false);
            let posted = params_filter(&m.args, &m.post, true);
            let transferred = params_filter(&m.args, &m.transfer, true);
            let cm = ClientMethodDef {
                attrs: crate::decl::clone_attrs(&m.attrs),
                name: copy_bytes(m.name.as_slice()),
                variant: copy_bytes(self.camel_case_idents[i].as_slice()),
                params: clone_params(&m.args),
                ret,
                serialized: param_names(&ser),
                posted: param_names(&posted),
                transferred: param_names(&transferred),
                return_posted: contains_name(&m.post, ret_kw.as_slice()),
            };
            methods.push(cm);
            proof {
                assert(methods@[i as int]@ == client_method(rv[i as int], cv[i as int]));
            }
            i = i + 1;
        }
        let r = ClientDef {
            name: copy_bytes(self.client_ident.as_slice()),
            request_enum: copy_bytes(self.request_ident.as_slice()),
            response_enum: copy_bytes(self.response_ident.as_slice()),
            methods,
        };
        proof {
            assert(r@.methods =~= Seq::new(rv.len(), |k: int| client_method(rv[k], cv[k])));
        }
        r
    }

    /// The server dispatch table: one entry per declaration entry; the
    /// entry destructures the serialized parameters from the request
    /// variant, shifts the posted parameters off the inbound out-of-band
    /// sequence in declaration order, and packages the result per the
    /// return-value annotation.
    pub fn struct_server(&self) -> (r: ServerDef)
        requires
            self.paired(),
        ensures
            r@ == server_model(
                self.server_ident@,
                self.service_ident@,
                rpc_views(self.rpcs@),
                byte_views(self.camel_case_idents@),
            ),
    {
        let ghost rv = rpc_views(self.rpcs@);
        let ghost cv = byte_views(self.camel_case_idents@);
        let ret_kw = return_name_bytes();
        let mut methods: Vec<ServerMethodDef> = Vec::new();
        let mut i: usize = 0;
        while i < self.rpcs.len()
            invariant
                self.paired(),
                i <= self.rpcs@.len(),
                rv == rpc_views(self.rpcs@),
                cv == byte_views(self.camel_case_idents@),
                ret_kw@ == return_name(),
                methods@.len() == i,
                forall|k: int| 0 <= k < i ==> methods@[k]@ == server_method(rv[k], cv[k]),
            decreases self.rpcs@.len() - i,
        {
            let m = &self.rpcs[i];
            let ret = if !contains_name(&m.post, ret_kw.as_slice()) {
                ReturnDisposition::Serialized
            } else if !contains_name(&m.transfer, ret_kw.as_slice()) {
                ReturnDisposition::Posted
            } else {
                ReturnDisposition::Transferred
            };
            let sm = ServerMethodDef {
                variant: copy_bytes(self.camel_case_idents[i].as_slice()),
                serialized: params_filter(&m.args, &m.post, false),
                extracted: params_filter(&m.args, &m.post, true),
                call_args: param_names(&m.args),
                is_async: m.is_async,
                ret,
            };
            methods.push(sm);
            proof {
                assert(methods@[i as int]@ == server_method(rv[i as int], cv[i as int]));
            }
            i = i + 1;
        }
        let r = ServerDef {
            name: copy_bytes(self.server_ident.as_slice()),
            service: copy_bytes(self.service_ident.as_slice()),
            methods,
        };
        proof {
            assert(r@.methods =~= Seq::new(rv.len(), |k: int| server_method(rv[k], cv[k])));
        }
        r
    }

    /// All five generated items of a service, in the order they are
    /// emitted.
    pub fn generate(&self) -> (r: GeneratedService)
        requires
            self.paired(),
        ensures
            r.request_enum@ == request_enum_model(
                self.request_ident@,
                rpc_views(self.rpcs@),
                byte_views(self.camel_case_idents@),
            ),
            r.response_enum@ == response_enum_model(
                self.response_ident@,
                rpc_views(self.rpcs@),
                byte_views(self.camel_case_idents@),
            ),
            r.service_trait@ == trait_model(
                attr_views(self.attrs@),
                self.service_ident@,
                rpc_views(self.rpcs@),
            ),
            r.client@ == client_model(
                self.client_ident@,
                self.request_ident@,
                self.response_ident@,
                rpc_views(self.rpcs@),
                byte_views(self.camel_case_idents@),
            ),
            r.server@ == server_model(
                self.server_ident@,
                self.service_ident@,
                rpc_views(self.rpcs@),
                byte_views(self.camel_case_idents@),
            ),
    {
        GeneratedService {
            request_enum: self.enum_request(),
            response_enum: self.enum_response(),
            service_trait: self.trait_service(),
            client: self.struct_client(),
            server: self.struct_server(),
        }
    }
}

/// The checked methods of a declaration, in order.
pub open spec fn rpcs_model(d: crate::decl::ServiceDeclV) -> Seq<RpcMethodV> {
    Seq::new(d.methods.len(), |i: int| rpc_model(d.methods[i]))
}

/// The camel-case variant names of a declaration's methods, in order.
pub open spec fn camels_model(d: crate::decl::ServiceDeclV) -> Seq<Seq<u8>> {
    Seq::new(d.methods.len(), |i: int| camel_of(d.methods[i].name))
}

/// Generates everything for one service declaration: checks the
/// declaration, derives the camel-case variant names and the names of the
/// companion items, and produces the five generated items. Fails exactly
/// when the declaration carries errors, with the errors of its first
/// malformed method.
pub fn service(decl: &ServiceDecl) -> (r: Result<GeneratedService, Vec<DeclError>>)
    ensures
        match r {
            Ok(g) => {
                &&& forall|i: int|
                    0 <= i < decl@.methods.len() ==> #[trigger] method_ok(decl@.methods[i])
                &&& g.request_enum@ == request_enum_model(
                    decl@.name + request_suffix(),
                    rpcs_model(decl@),
                    camels_model(decl@),
                )
                &&& g.response_enum@ == response_enum_model(
                    decl@.name + response_suffix(),
                    rpcs_model(decl@),
                    camels_model(decl@),
                )
                &&& g.service_trait@ == trait_model(decl@.attrs, decl@.name, rpcs_model(decl@))
                &&& g.client@ == client_model(
                    decl@.name + client_suffix(),
                    decl@.name + request_suffix(),
                    decl@.name + response_suffix(),
                    rpcs_model(decl@),
                    camels_model(decl@),
                )
                &&& g.server@ == server_model(
                    decl@.name + server_suffix(),
                    decl@.name,
                    rpcs_model(decl@),
                    camels_model(decl@),
                )
            },
            Err(e) => exists|i: int|
                {
                    &&& 0 <= i < decl@.methods.len()
                    &&& !#[trigger] method_ok(decl@.methods[i])
                    &&& forall|k: int| 0 <= k < i ==> #[trigger] method_ok(decl@.methods[k])
                    &&& e@ == crate::decl::method_errors(decl@.methods[i])
                },
        },
{
    let s = match Service::from_decl(decl) {
        Ok(s) => s,
        Err(e) => {
            return Err(e);
        },
    };
    let mut camels: Vec<Vec<u8>> = Vec::new();
    let mut i: usize = 0;
    while i < s.rpcs.len()
        invariant
            i <= s.rpcs@.len(),
            camels@.len() == i,
            forall|k: int| 0 <= k < i ==> camels@[k]@ == camel_of(rpc_views(s.rpcs@)[k].name),
        decreases s.rpcs@.len() - i,
    {
        camels.push(snake_to_camel(s.rpcs[i].name.as_slice()));
        i = i + 1;
    }
    let generator = ServiceGenerator {
        service_ident: copy_bytes(s.name.as_slice()),
        server_ident: suffixed(s.name.as_slice(), server_suffix_bytes().as_slice()),
        client_ident: suffixed(s.name.as_slice(), client_suffix_bytes().as_slice()),
        request_ident: suffixed(s.name.as_slice(), request_suffix_bytes().as_slice()),
        response_ident: suffixed(s.name.as_slice(), response_suffix_bytes().as_slice()),
        attrs: s.attrs,
        rpcs: s.rpcs,
        camel_case_idents: camels,
    };
    let g = generator.generate();
    proof {
        assert(rpc_views(generator.rpcs@) =~= rpcs_model(decl@));
        assert(byte_views(generator.camel_case_idents@) =~= camels_model(decl@));
        assert(attr_views(generator.attrs@) =~= decl@.attrs);
    }
    Ok(g)
}

} // verus!
