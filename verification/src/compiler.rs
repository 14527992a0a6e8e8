//! From a schema to the artifacts of a service: the request and response
//! message shapes, the contract of the server and the contract of the client.
//! Each is a function of the schema alone.

use crate::schema::{
    lemma_views_push, views, Argument, ArgumentView, Link, LinkView, Method, MethodView,
    ReturnKind, ReturnKindView,
};
use vstd::prelude::*;

verus! {

/// The name of a message variant for a method name: the method name in
/// Pascal case, as the case converter gives it.
pub uninterp spec fn pascal_case_of(name: Seq<char>) -> Seq<char>;

/// Calls `convert_case::Converter::convert` on a converter set to
/// `Case::Pascal`. The contract only names the result: the conversion is a
/// function of the text alone.
#[verifier::external_body]
fn pascal_case(name: &str) -> (converted: String)
    ensures
        converted@ == pascal_case_of(name@),
{
    convert_case::Converter::new().to_case(convert_case::Case::Pascal).convert(name)
}

/// The type of one field of a message variant.
#[derive(Debug, Clone, PartialEq, Eq)]
pub enum FieldType {
    /// A type as it is written in the schema
    Plain(String),
    /// The request of the named sub-service
    Request(String),
    /// The response of the named sub-service
    Response(String),
}

/// The contents of [`FieldType`], with its texts as sequences of characters.
pub enum FieldTypeView {
    Plain(Seq<char>),
    Request(Seq<char>),
    Response(Seq<char>),
}

impl View for FieldType {
    type V = FieldTypeView;

    open spec fn view(&self) -> FieldTypeView {
        match self {
            FieldType::Plain(ty) => FieldTypeView::Plain(ty@),
            FieldType::Request(service) => FieldTypeView::Request(service@),
            FieldType::Response(service) => FieldTypeView::Response(service@),
        }
    }
}

/// One variant of a message: its name, its tag on the wire and its fields.
#[derive(Debug, Clone, PartialEq, Eq)]
pub struct Variant {
    /// The variant's name
    pub name: String,
    /// The discriminant that the wire carries: the method's name
    pub tag: String,
    /// The types of the fields, in order
    pub fields: Vec<FieldType>,
}

/// The contents of [`Variant`], with its texts as sequences of characters.
pub struct VariantView {
    pub name: Seq<char>,
    pub tag: Seq<char>,
    pub fields: Seq<FieldTypeView>,
}

impl View for Variant {
    type V = VariantView;

    open spec fn view(&self) -> VariantView {
        VariantView { name: self.name@, tag: self.tag@, fields: views(self.fields@) }
    }
}

/// A message shape: a closed set of variants, one per method.
#[derive(Debug, Clone, PartialEq, Eq)]
pub struct EnumDecl {
    /// The name of the message type
    pub name: String,
    /// The variants, in the order of the methods
    pub variants: Vec<Variant>,
}

/// The contents of [`EnumDecl`], with its texts as sequences of characters.
pub struct EnumDeclView {
    pub name: Seq<char>,
    pub variants: Seq<VariantView>,
}

impl View for EnumDecl {
    type V = EnumDeclView;

    open spec fn view(&self) -> EnumDeclView {
        EnumDeclView { name: self.name@, variants: views(self.variants@) }
    }
}

/// What the implementor of a method hands back to the server.
#[derive(Debug, Clone, PartialEq, Eq)]
pub enum ServerResult {
    /// A value of the named type
    Value(String),
    /// Something that becomes a handler of the named sub-service
    Handler(String),
    /// Nothing: the method is given a sink for items of the named type and
    /// reports when it is done
    Sink(String),
}

/// The contents of [`ServerResult`], with its texts as sequences of characters.
pub enum ServerResultView {
    Value(Seq<char>),
    Handler(Seq<char>),
    Sink(Seq<char>),
}

impl View for ServerResult {
    type V = ServerResultView;

    open spec fn view(&self) -> ServerResultView {
        match self {
            ServerResult::Value(ty) => ServerResultView::Value(ty@),
            ServerResult::Handler(service) => ServerResultView::Handler(service@),
            ServerResult::Sink(item) => ServerResultView::Sink(item@),
        }
    }
}

/// One operation that the implementor of a service provides.
#[derive(Debug, Clone, PartialEq, Eq)]
pub struct ServerMethod {
    /// The method's name
    pub name: String,
    /// The arguments, in order
    pub args: Vec<Argument>,
    /// What the operation hands back
    pub result: ServerResult,
}

/// The contents of [`ServerMethod`], with its texts as sequences of characters.
pub struct ServerMethodView {
    pub name: Seq<char>,
    pub args: Seq<ArgumentView>,
    pub result: ServerResultView,
}

impl View for ServerMethod {
    type V = ServerMethodView;

    open spec fn view(&self) -> ServerMethodView {
        ServerMethodView { name: self.name@, args: views(self.args@), result: self.result@ }
    }
}

/// The contract of the server: the operations to provide.
#[derive(Debug, Clone, PartialEq, Eq)]
pub struct TraitDecl {
    /// The service's name
    pub name: String,
    /// The operations, in the order of the methods
    pub methods: Vec<ServerMethod>,
}

/// The contents of [`TraitDecl`], with its texts as sequences of characters.
pub struct TraitDeclView {
    pub name: Seq<char>,
    pub methods: Seq<ServerMethodView>,
}

impl View for TraitDecl {
    type V = TraitDeclView;

    open spec fn view(&self) -> TraitDeclView {
        TraitDeclView { name: self.name@, methods: views(self.methods@) }
    }
}

/// What a client does when one of its operations is called.
#[derive(Debug, Clone, PartialEq, Eq)]
pub enum ClientAction {
    /// Send the request and unwrap the matching response to a value of the
    /// named type
    Call(String),
    /// Send nothing yet: hand out a client of the named sub-service that
    /// carries the arguments and goes through this client
    Scope(String),
    /// Send the request and open a sequence of items of the named type
    Open(String),
}

/// The contents of [`ClientAction`], with its texts as sequences of characters.
pub enum ClientActionView {
    Call(Seq<char>),
    Scope(Seq<char>),
    Open(Seq<char>),
}

impl View for ClientAction {
    type V = ClientActionView;

    open spec fn view(&self) -> ClientActionView {
        match self {
            ClientAction::Call(ty) => ClientActionView::Call(ty@),
            ClientAction::Scope(service) => ClientActionView::Scope(service@),
            ClientAction::Open(item) => ClientActionView::Open(item@),
        }
    }
}

/// One operation of a client.
#[derive(Debug, Clone, PartialEq, Eq)]
pub struct ClientMethod {
    /// The method's name
    pub name: String,
    /// The variant that the operation builds and expects back
    pub variant: String,
    /// The arguments, in order
    pub args: Vec<Argument>,
    /// What the operation does
    pub action: ClientAction,
}

/// The contents of [`ClientMethod`], with its texts as sequences of characters.
pub struct ClientMethodView {
    pub name: Seq<char>,
    pub variant: Seq<char>,
    pub args: Seq<ArgumentView>,
    pub action: ClientActionView,
}

impl View for ClientMethod {
    type V = ClientMethodView;

    open spec fn view(&self) -> ClientMethodView {
        ClientMethodView {
            name: self.name@,
            variant: self.variant@,
            args: views(self.args@),
            action: self.action@,
        }
    }
}

/// The contract of the client: one operation per method.
#[derive(Debug, Clone, PartialEq, Eq)]
pub struct ClientDecl {
    /// The name of the client type
    pub name: String,
    /// The operations, in the order of the methods
    pub methods: Vec<ClientMethod>,
}

/// The contents of [`ClientDecl`], with its texts as sequences of characters.
pub struct ClientDeclView {
    pub name: Seq<char>,
    pub methods: Seq<ClientMethodView>,
}

impl View for ClientDecl {
    type V = ClientDeclView;

    open spec fn view(&self) -> ClientDeclView {
        ClientDeclView { name: self.name@, methods: views(self.methods@) }
    }
}

/// The entry point of the handler that a request variant goes to.
#[derive(Debug, Clone, Copy, PartialEq, Eq, Structural)]
pub enum Entry {
    /// The method is called and its value is the response
    Handle,
    /// The method gives a handler, which handles the embedded request
    Recurse,
    /// The method is called with the sink for its items
    Stream,
}

/// One case of the dispatcher: which method a request variant calls.
#[derive(Debug, Clone, PartialEq, Eq)]
pub struct Arm {
    /// The request variant, which is also the response variant
    pub variant: String,
    /// The method to call
    pub method: String,
    /// How many arguments the variant hands to the method
    pub arity: usize,
    /// The entry point that serves the variant
    pub entry: Entry,
}

/// The contents of [`Arm`], with its texts as sequences of characters.
pub struct ArmView {
    pub variant: Seq<char>,
    pub method: Seq<char>,
    pub arity: nat,
    pub entry: Entry,
}

impl View for Arm {
    type V = ArmView;

    open spec fn view(&self) -> ArmView {
        ArmView {
            variant: self.variant@,
            method: self.method@,
            arity: self.arity as nat,
            entry: self.entry,
        }
    }
}

/// The dispatcher of a service: one case per method.
#[derive(Debug, Clone, PartialEq, Eq)]
pub struct ServerDecl {
    /// The name of the dispatcher type
    pub name: String,
    /// The cases, in the order of the methods
    pub arms: Vec<Arm>,
}

/// The contents of [`ServerDecl`], with its texts as sequences of characters.
pub struct ServerDeclView {
    pub name: Seq<char>,
    pub arms: Seq<ArmView>,
}

impl View for ServerDecl {
    type V = ServerDeclView;

    open spec fn view(&self) -> ServerDeclView {
        ServerDeclView { name: self.name@, arms: views(self.arms@) }
    }
}

/// The types of the arguments as plain fields, in order.
pub open spec fn plain_fields(args: Seq<ArgumentView>) -> Seq<FieldTypeView> {
    Seq::new(args.len(), |i: int| FieldTypeView::Plain(args[i].ty))
}

/// The fields of a method's request variant: one per argument in order; for
/// a nested method the request of the sub-service follows them.
pub open spec fn request_fields(method: MethodView) -> Seq<FieldTypeView> {
    match method.ret {
        ReturnKindView::Nested(service) => plain_fields(method.args).push(
            FieldTypeView::Request(service),
        ),
        _ => plain_fields(method.args),
    }
}

/// The field of a method's response variant: the value, the response of the
/// sub-service, or one item of the stream.
pub open spec fn response_fields(method: MethodView) -> Seq<FieldTypeView> {
    match method.ret {
        ReturnKindView::Simple(ty) => seq![FieldTypeView::Plain(ty)],
        ReturnKindView::Nested(service) => seq![FieldTypeView::Response(service)],
        ReturnKindView::Streaming(item) => seq![FieldTypeView::Plain(item)],
    }
}

/// The request variant of a method whose variant name is `name`.
pub open spec fn request_variant_of(method: MethodView, name: Seq<char>) -> VariantView {
    VariantView { name, tag: method.name, fields: request_fields(method) }
}

/// The response variant of a method whose variant name is `name`.
pub open spec fn response_variant_of(method: MethodView, name: Seq<char>) -> VariantView {
    VariantView { name, tag: method.name, fields: response_fields(method) }
}

/// What the server's operation for a method hands back.
pub open spec fn server_result_of(ret: ReturnKindView) -> ServerResultView {
    match ret {
        ReturnKindView::Simple(ty) => ServerResultView::Value(ty),
        ReturnKindView::Nested(service) => ServerResultView::Handler(service),
        ReturnKindView::Streaming(item) => ServerResultView::Sink(item),
    }
}

/// The server's operation for a method.
pub open spec fn server_method_of(method: MethodView) -> ServerMethodView {
    ServerMethodView {
        name: method.name,
        args: method.args,
        result: server_result_of(method.ret),
    }
}

/// What the client's operation for a method does.
pub open spec fn client_action_of(ret: ReturnKindView) -> ClientActionView {
    match ret {
        ReturnKindView::Simple(ty) => ClientActionView::Call(ty),
        ReturnKindView::Nested(service) => ClientActionView::Scope(service),
        ReturnKindView::Streaming(item) => ClientActionView::Open(item),
    }
}

/// The client's operation for a method whose variant name is `name`.
pub open spec fn client_method_of(method: MethodView, name: Seq<char>) -> ClientMethodView {
    ClientMethodView {
        name: method.name,
        variant: name,
        args: method.args,
        action: client_action_of(method.ret),
    }
}

/// The entry point that serves a method.
pub open spec fn entry_of(ret: ReturnKindView) -> Entry {
    match ret {
        ReturnKindView::Simple(_) => Entry::Handle,
        ReturnKindView::Nested(_) => Entry::Recurse,
        ReturnKindView::Streaming(_) => Entry::Stream,
    }
}

/// The dispatcher's case for a method whose variant name is `name`.
pub open spec fn arm_of(method: MethodView, name: Seq<char>) -> ArmView {
    ArmView {
        variant: name,
        method: method.name,
        arity: method.args.len(),
        entry: entry_of(method.ret),
    }
}

/// The suffix of the name of a request type.
pub open spec fn request_suffix() -> Seq<char> {
    seq!['R', 'e', 'q', 'u', 'e', 's', 't']
}

/// The suffix of the name of a response type.
pub open spec fn response_suffix() -> Seq<char> {
    seq!['R', 'e', 's', 'p', 'o', 'n', 's', 'e']
}

/// The suffix of the name of a client type.
pub open spec fn client_suffix() -> Seq<char> {
    seq!['C', 'l', 'i', 'e', 'n', 't']
}

/// The suffix of the name of a dispatcher type.
pub open spec fn server_suffix() -> Seq<char> {
    seq!['S', 'e', 'r', 'v', 'e', 'r']
}

/// A copy of the arguments.
pub fn clone_args(args: &Vec<Argument>) -> (copy: Vec<Argument>)
    ensures
        views(copy@) == views(args@),
{
    let mut copy: Vec<Argument> = Vec::new();
    let mut i: usize = 0;
    while i < args.len()
        invariant
            i <= args@.len(),
            copy@.len() == i,
            forall|k: int| 0 <= k < i ==> (#[trigger] copy@[k])@ == args@[k]@,
        decreases args@.len() - i,
    {
        copy.push(Argument { name: args[i].name.clone(), ty: args[i].ty.clone() });
        i += 1;
    }
    assert(views(copy@) =~= views(args@));
    copy
}

impl Method {
    /// The types of the arguments as plain fields, in order.
    fn arg_fields(&self) -> (fields: Vec<FieldType>)
        ensures
            views(fields@) == plain_fields(self@.args),
    {
        let mut fields: Vec<FieldType> = Vec::new();
        let mut i: usize = 0;
        while i < self.args.len()
            invariant
                i <= self.args@.len(),
                fields@.len() == i,
                forall|k: int|
                    0 <= k < i ==> (#[trigger] fields@[k])@ == FieldTypeView::Plain(
                        self.args@[k].ty@,
                    ),
            decreases self.args@.len() - i,
        {
            fields.push(FieldType::Plain(self.args[i].ty.clone()));
            i += 1;
        }
        assert(views(fields@) =~= plain_fields(self@.args));
        fields
    }

    /// The name of the method's variant in both message shapes.
    pub fn variant_name(&self) -> (name: String)
        ensures
            name@ == pascal_case_of(self@.name),
    {
        pascal_case(self.name.as_str())
    }

    /// The method's request variant under the given variant name.
    pub fn request_variant_named(&self, name: String) -> (variant: Variant)
        ensures
            variant@ == request_variant_of(self@, name@),
    {
        let mut fields = self.arg_fields();
        match &self.ret {
            ReturnKind::Nested(service) => {
                let inner = FieldType::Request(service.clone());
                proof {
                    lemma_views_push(fields@, inner);
                }
                fields.push(inner);
            },
            _ => {},
        }
        Variant { name, tag: self.name.clone(), fields }
    }

    /// The method's request variant.
    pub fn request_variant(&self) -> (variant: Variant)
        ensures
            variant@ == request_variant_of(self@, pascal_case_of(self@.name)),
    {
        self.request_variant_named(self.variant_name())
    }

    /// The method's response variant under the given variant name.
    pub fn response_variant_named(&self, name: String) -> (variant: Variant)
        ensures
            variant@ == response_variant_of(self@, name@),
    {
        let field = match &self.ret {
            ReturnKind::Simple(ty) => FieldType::Plain(ty.clone()),
            ReturnKind::Nested(service) => FieldType::Response(service.clone()),
            ReturnKind::Streaming(item) => FieldType::Plain(item.clone()),
        };
        let mut fields: Vec<FieldType> = Vec::new();
        fields.push(field);
        assert(views(fields@) =~= response_fields(self@));
        Variant { name, tag: self.name.clone(), fields }
    }

    /// The method's response variant.
    pub fn response_variant(&self) -> (variant: Variant)
        ensures
            variant@ == response_variant_of(self@, pascal_case_of(self@.name)),
    {
        self.response_variant_named(self.variant_name())
    }

    /// What the server's operation for the method hands back.
    pub fn return_type(&self) -> (result: ServerResult)
        ensures
            result@ == server_result_of(self@.ret),
    {
        match &self.ret {
            ReturnKind::Simple(ty) => ServerResult::Value(ty.clone()),
            ReturnKind::Nested(service) => ServerResult::Handler(service.clone()),
            ReturnKind::Streaming(item) => ServerResult::Sink(item.clone()),
        }
    }

    /// The operation that the implementor provides for the method.
    pub fn to_trait_item(&self) -> (item: ServerMethod)
        ensures
            item@ == server_method_of(self@),
    {
        ServerMethod {
            name: self.name.clone(),
            args: clone_args(&self.args),
            result: self.return_type(),
        }
    }

    /// The client's operation for the method under the given variant name.
    pub fn client_fn_named(&self, name: String) -> (stub: ClientMethod)
        ensures
            stub@ == client_method_of(self@, name@),
    {
        let action = match &self.ret {
            ReturnKind::Simple(ty) => ClientAction::Call(ty.clone()),
            ReturnKind::Nested(service) => ClientAction::Scope(service.clone()),
            ReturnKind::Streaming(item) => ClientAction::Open(item.clone()),
        };
        ClientMethod {
            name: self.name.clone(),
            variant: name,
            args: clone_args(&self.args),
            action,
        }
    }

    /// The client's operation for the method.
    pub fn client_fn(&self) -> (stub: ClientMethod)
        ensures
            stub@ == client_method_of(self@, pascal_case_of(self@.name)),
    {
        self.client_fn_named(self.variant_name())
    }

    /// The dispatcher's case for the method under the given variant name.
    pub fn rpc_case_named(&self, name: String) -> (arm: Arm)
        ensures
            arm@ == arm_of(self@, name@),
    {
        let entry = match &self.ret {
            ReturnKind::Simple(_) => Entry::Handle,
            ReturnKind::Nested(_) => Entry::Recurse,
            ReturnKind::Streaming(_) => Entry::Stream,
        };
        Arm { variant: name, method: self.name.clone(), arity: self.args.len(), entry }
    }

    /// The dispatcher's case for the method.
    pub fn rpc_case(&self) -> (arm: Arm)
        ensures
            arm@ == arm_of(self@, pascal_case_of(self@.name)),
    {
        self.rpc_case_named(self.variant_name())
    }
}

/// The request shape of a schema.
pub open spec fn request_enum_of(link: LinkView) -> EnumDeclView {
    EnumDeclView {
        name: link.name + request_suffix(),
        variants: Seq::new(
            link.methods.len(),
            |i: int| request_variant_of(link.methods[i], pascal_case_of(link.methods[i].name)),
        ),
    }
}

/// The response shape of a schema.
pub open spec fn response_enum_of(link: LinkView) -> EnumDeclView {
    EnumDeclView {
        name: link.name + response_suffix(),
        variants: Seq::new(
            link.methods.len(),
            |i: int| response_variant_of(link.methods[i], pascal_case_of(link.methods[i].name)),
        ),
    }
}

/// The server contract of a schema.
pub open spec fn trait_decl_of(link: LinkView) -> TraitDeclView {
    TraitDeclView {
        name: link.name,
        methods: Seq::new(link.methods.len(), |i: int| server_method_of(link.methods[i])),
    }
}

/// The client contract of a schema.
pub open spec fn client_of(link: LinkView) -> ClientDeclView {
    ClientDeclView {
        name: link.name + client_suffix(),
        methods: Seq::new(
            link.methods.len(),
            |i: int| client_method_of(link.methods[i], pascal_case_of(link.methods[i].name)),
        ),
    }
}

/// The dispatcher of a schema.
pub open spec fn server_of(link: LinkView) -> ServerDeclView {
    ServerDeclView {
        name: link.name + server_suffix(),
        arms: Seq::new(
            link.methods.len(),
            |i: int| arm_of(link.methods[i], pascal_case_of(link.methods[i].name)),
        ),
    }
}

impl Link {
    /// The name of the request type: the service's name and `Request`.
    pub fn request_name(&self) -> (name: String)
        ensures
            name@ == self@.name + request_suffix(),
    {
        proof {
            reveal_strlit("Request");
        }
        let name = self.name.clone().concat("Request");
        assert(name@ =~= self@.name + request_suffix());
        name
    }

    /// The name of the response type: the service's name and `Response`.
    pub fn response_name(&self) -> (name: String)
        ensures
            name@ == self@.name + response_suffix(),
    {
        proof {
            reveal_strlit("Response");
        }
        let name = self.name.clone().concat("Response");
        assert(name@ =~= self@.name + response_suffix());
        name
    }

    /// The name of the client type: the service's name and `Client`.
    pub fn client_name(&self) -> (name: String)
        ensures
            name@ == self@.name + client_suffix(),
    {
        proof {
            reveal_strlit("Client");
        }
        let name = self.name.clone().concat("Client");
        assert(name@ =~= self@.name + client_suffix());
        name
    }

    /// The name of the dispatcher type: the service's name and `Server`.
    pub fn server_name(&self) -> (name: String)
        ensures
            name@ == self@.name + server_suffix(),
    {
        proof {
            reveal_strlit("Server");
        }
        let name = self.name.clone().concat("Server");
        assert(name@ =~= self@.name + server_suffix());
        name
    }

    /// The request shape: one variant per method, in order.
    pub fn request_enum(&self) -> (decl: EnumDecl)
        ensures
            decl@ == request_enum_of(self@),
    {
        let mut variants: Vec<Variant> = Vec::new();
        let mut i: usize = 0;
        while i < self.methods.len()
            invariant
                i <= self.methods@.len(),
                variants@.len() == i,
                forall|k: int|
                    0 <= k < i ==> (#[trigger] variants@[k])@ == request_variant_of(
                        self.methods@[k]@,
                        pascal_case_of(self.methods@[k]@.name),
                    ),
            decreases self.methods@.len() - i,
        {
            variants.push(self.methods[i].request_variant());
            i += 1;
        }
        assert(views(variants@) =~= request_enum_of(self@).variants);
        EnumDecl { name: self.request_name(), variants }
    }

    /// The response shape: one variant per method, in order.
    pub fn response_enum(&self) -> (decl: EnumDecl)
        ensures
            decl@ == response_enum_of(self@),
    {
        let mut variants: Vec<Variant> = Vec::new();
        let mut i: usize = 0;
        while i < self.methods.len()
            invariant
                i <= self.methods@.len(),
                variants@.len() == i,
                forall|k: int|
                    0 <= k < i ==> (#[trigger] variants@[k])@ == response_variant_of(
                        self.methods@[k]@,
                        pascal_case_of(self.methods@[k]@.name),
                    ),
            decreases self.methods@.len() - i,
        {
            variants.push(self.methods[i].response_variant());
            i += 1;
        }
        assert(views(variants@) =~= response_enum_of(self@).variants);
        EnumDecl { name: self.response_name(), variants }
    }

    /// The server contract: one operation per method, in order.
    pub fn trait_decl(&self) -> (decl: TraitDecl)
        ensures
            decl@ == trait_decl_of(self@),
    {
        let mut methods: Vec<ServerMethod> = Vec::new();
        let mut i: usize = 0;
        while i < self.methods.len()
            invariant
                i <= self.methods@.len(),
                methods@.len() == i,
                forall|k: int|
                    0 <= k < i ==> (#[trigger] methods@[k])@ == server_method_of(
                        self.methods@[k]@,
                    ),
            decreases self.methods@.len() - i,
        {
            methods.push(self.methods[i].to_trait_item());
            i += 1;
        }
        assert(views(methods@) =~= trait_decl_of(self@).methods);
        TraitDecl { name: self.name.clone(), methods }
    }

    /// The client contract: one operation per method, in order.
    pub fn client(&self) -> (decl: ClientDecl)
        ensures
            decl@ == client_of(self@),
    {
        let mut methods: Vec<ClientMethod> = Vec::new();
        let mut i: usize = 0;
        while i < self.methods.len()
            invariant
                i <= self.methods@.len(),
                methods@.len() == i,
                forall|k: int|
                    0 <= k < i ==> (#[trigger] methods@[k])@ == client_method_of(
                        self.methods@[k]@,
                        pascal_case_of(self.methods@[k]@.name),
                    ),
            decreases self.methods@.len() - i,
        {
            methods.push(self.methods[i].client_fn());
            i += 1;
        }
        assert(views(methods@) =~= client_of(self@).methods);
        ClientDecl { name: self.client_name(), methods }
    }

    /// The dispatcher: one case per method, in order.
    pub fn server(&self) -> (decl: ServerDecl)
        ensures
            decl@ == server_of(self@),
    {
        let mut arms: Vec<Arm> = Vec::new();
        let mut i: usize = 0;
        while i < self.methods.len()
            invariant
                i <= self.methods@.len(),
                arms@.len() == i,
                forall|k: int|
                    0 <= k < i ==> (#[trigger] arms@[k])@ == arm_of(
                        self.methods@[k]@,
                        pascal_case_of(self.methods@[k]@.name),
                    ),
            decreases self.methods@.len() - i,
        {
            arms.push(self.methods[i].rpc_case());
            i += 1;
        }
        assert(views(arms@) =~= server_of(self@).arms);
        ServerDecl { name: self.server_name(), arms }
    }
}

/// Whether two of the methods get the same variant name.
pub open spec fn variants_collide(methods: Seq<MethodView>) -> bool {
    exists|i: int, j: int|
        0 <= i < j < methods.len() && pascal_case_of((#[trigger] methods[i]).name)
            == pascal_case_of((#[trigger] methods[j]).name)
}

/// Whether one of the names before `upto` is the name at `upto`.
pub open spec fn seen_before(names: Seq<String>, upto: int) -> bool {
    exists|i: int| 0 <= i < upto && (#[trigger] names[i])@ == names[upto]@
}

/// Whether the name at `upto` occurs before it.
fn occurs_before(names: &Vec<String>, upto: usize) -> (seen: bool)
    requires
        upto < names@.len(),
    ensures
        seen == seen_before(names@, upto as int),
{
    let mut i: usize = 0;
    while i < upto
        invariant
            i <= upto < names@.len(),
            forall|k: int| 0 <= k < i ==> (#[trigger] names@[k])@ != names@[upto as int]@,
        decreases upto - i,
    {
        if names[i] == names[upto] {
            return true;
        }
        i += 1;
    }
    false
}

impl Link {
    /// The variant names of the methods, in order.
    pub fn variant_names(&self) -> (names: Vec<String>)
        ensures
            names@.len() == self@.methods.len(),
            forall|i: int|
                0 <= i < names@.len() ==> (#[trigger] names@[i])@ == pascal_case_of(
                    self@.methods[i].name,
                ),
    {
        let mut names: Vec<String> = Vec::new();
        let mut i: usize = 0;
        while i < self.methods.len()
            invariant
                i <= self.methods@.len(),
                names@.len() == i,
                forall|k: int|
                    0 <= k < i ==> (#[trigger] names@[k])@ == pascal_case_of(
                        self.methods@[k]@.name,
                    ),
            decreases self.methods@.len() - i,
        {
            names.push(self.methods[i].variant_name());
            i += 1;
        }
        names
    }

    /// Whether two methods of the schema get the same variant name. Such a
    /// schema has no message shapes: a variant name is also what tells the
    /// variants of a message apart.
    pub fn has_variant_collision(&self) -> (collides: bool)
        ensures
            collides == variants_collide(self@.methods),
    {
        let names = self.variant_names();
        let ghost methods = self@.methods;
        let mut j: usize = 0;
        while j < names.len()
            invariant
                j <= names@.len(),
                names@.len() == methods.len(),
                methods == self@.methods,
                forall|i: int|
                    0 <= i < names@.len() ==> (#[trigger] names@[i])@ == pascal_case_of(
                        methods[i].name,
                    ),
                forall|a: int, b: int|
                    0 <= a < b < j ==> pascal_case_of((#[trigger] methods[a]).name)
                        != pascal_case_of((#[trigger] methods[b]).name),
            decreases names@.len() - j,
        {
            if occurs_before(&names, j) {
                proof {
                    let i = choose|i: int| 0 <= i < j && (#[trigger] names@[i])@ == names@[j as int]@;
                    assert(pascal_case_of(methods[i].name) == pascal_case_of(
                        methods[j as int].name,
                    ));
                }
                return true;
            }
            proof {
                assert forall|a: int| 0 <= a < j implies pascal_case_of(
                    (#[trigger] methods[a]).name,
                ) != pascal_case_of(methods[j as int].name) by {
                    assert(names@[a]@ != names@[j as int]@);
                }
            }
            j += 1;
        }
        false
    }
}

/// Everything that a schema compiles to.
#[derive(Debug, Clone, PartialEq, Eq)]
pub struct Artifacts {
    /// The contract of the server
    pub trait_decl: TraitDecl,
    /// The request shape
    pub request: EnumDecl,
    /// The response shape
    pub response: EnumDecl,
    /// The contract of the client
    pub client: ClientDecl,
    /// The dispatcher
    pub server: ServerDecl,
}

impl Link {
    /// Compiles the schema: the server contract, the two message shapes, the
    /// client contract and the dispatcher, each from the schema alone.
    pub fn to_tokens(&self) -> (artifacts: Artifacts)
        ensures
            artifacts.trait_decl@ == trait_decl_of(self@),
            artifacts.request@ == request_enum_of(self@),
            artifacts.response@ == response_enum_of(self@),
            artifacts.client@ == client_of(self@),
            artifacts.server@ == server_of(self@),
    {
        Artifacts {
            trait_decl: self.trait_decl(),
            request: self.request_enum(),
            response: self.response_enum(),
            client: self.client(),
            server: self.server(),
        }
    }
}

/// The paths under which the artifacts find the items of the runtime.
#[derive(Debug, Clone, Copy, PartialEq, Eq)]
pub struct Names;

impl Names {
    /// The path of the transport contract
    pub fn transport(&self) -> (path: &'static str)
        ensures
            path@ == "::trait_link::Transport"@,
    {
        "::trait_link::Transport"
    }

    /// The path of the client's error type over the given transport error
    pub fn link_error(&self, transport_error: &str) -> (path: String)
        ensures
            path@ == "::trait_link::LinkError::<"@ + transport_error@ + ">"@,
    {
        String::from_str("::trait_link::LinkError::<").concat(transport_error).concat(">")
    }

    /// The path of the serialisation framework
    pub fn serde(&self) -> (path: &'static str)
        ensures
            path@ == "::trait_link::serde"@,
    {
        "::trait_link::serde"
    }

    /// The path of a future with the given output
    pub fn future(&self, output: &str) -> (path: String)
        ensures
            path@ == "::core::future::Future<Output = "@ + output@ + ">"@,
    {
        String::from_str("::core::future::Future<Output = ").concat(output).concat(">")
    }

    /// The path of the contract that a dispatcher fulfils
    pub fn rpc_trait(&self) -> (path: &'static str)
        ensures
            path@ == "::trait_link::Rpc"@,
    {
        "::trait_link::Rpc"
    }
}

} // verus!
