use trait_link::compiler::{
    clone_args, Arm, ClientAction, ClientMethod, Entry, EnumDecl, FieldType, Names, ServerMethod,
    ServerResult, Variant,
};
use trait_link::schema::{Argument, Link, Method, ReturnKind};

fn argument(name: &str, ty: &str) -> Argument {
    Argument { name: name.to_string(), ty: ty.to_string() }
}

fn simple(name: &str, args: Vec<Argument>, ty: &str) -> Method {
    Method { name: name.to_string(), args, ret: ReturnKind::Simple(ty.to_string()) }
}

fn users_service() -> Link {
    Link {
        name: "UsersService".to_string(),
        methods: vec![
            simple("new", vec![argument("user", "NewUser")], "User"),
            simple("list", vec![], "Vec<User>"),
            Method {
                name: "by_id".to_string(),
                args: vec![argument("id", "u64")],
                ret: ReturnKind::Nested("UserService".to_string()),
            },
            Method {
                name: "watch".to_string(),
                args: vec![argument("since", "u64")],
                ret: ReturnKind::Streaming("User".to_string()),
            },
        ],
    }
}

#[test]
fn variant_names_are_pascal_case() {
    assert_eq!(simple("get_todo", vec![], "u8").variant_name(), "GetTodo");
    assert_eq!(simple("by_id", vec![], "u8").variant_name(), "ById");
    assert_eq!(simple("list", vec![], "u8").variant_name(), "List");
    assert_eq!(simple("new_todo", vec![], "u8").variant_name(), "NewTodo");
}

#[test]
fn artifact_names_carry_the_service_name() {
    let link = users_service();
    assert_eq!(link.request_name(), "UsersServiceRequest");
    assert_eq!(link.response_name(), "UsersServiceResponse");
    assert_eq!(link.client_name(), "UsersServiceClient");
    assert_eq!(link.server_name(), "UsersServiceServer");
}

#[test]
fn request_enum_lays_out_the_arguments() {
    let decl = users_service().request_enum();
    assert_eq!(
        decl,
        EnumDecl {
            name: "UsersServiceRequest".to_string(),
            variants: vec![
                Variant {
                    name: "New".to_string(),
                    tag: "new".to_string(),
                    fields: vec![FieldType::Plain("NewUser".to_string())],
                },
                Variant { name: "List".to_string(), tag: "list".to_string(), fields: vec![] },
                Variant {
                    name: "ById".to_string(),
                    tag: "by_id".to_string(),
                    fields: vec![
                        FieldType::Plain("u64".to_string()),
                        FieldType::Request("UserService".to_string()),
                    ],
                },
                Variant {
                    name: "Watch".to_string(),
                    tag: "watch".to_string(),
                    fields: vec![FieldType::Plain("u64".to_string())],
                },
            ],
        }
    );
}

#[test]
fn response_enum_holds_one_field_per_variant() {
    let decl = users_service().response_enum();
    assert_eq!(decl.name, "UsersServiceResponse");
    let fields: Vec<Vec<FieldType>> = decl.variants.iter().map(|v| v.fields.clone()).collect();
    assert_eq!(
        fields,
        vec![
            vec![FieldType::Plain("User".to_string())],
            vec![FieldType::Plain("Vec<User>".to_string())],
            vec![FieldType::Response("UserService".to_string())],
            vec![FieldType::Plain("User".to_string())],
        ]
    );
    let tags: Vec<&str> = decl.variants.iter().map(|v| v.tag.as_str()).collect();
    assert_eq!(tags, vec!["new", "list", "by_id", "watch"]);
    let names: Vec<&str> = decl.variants.iter().map(|v| v.name.as_str()).collect();
    assert_eq!(names, vec!["New", "List", "ById", "Watch"]);
}

#[test]
fn variants_under_a_given_name() {
    let method = simple("get", vec![argument("id", "u64")], "Option<User>");
    assert_eq!(
        method.request_variant_named("Fetch".to_string()),
        Variant {
            name: "Fetch".to_string(),
            tag: "get".to_string(),
            fields: vec![FieldType::Plain("u64".to_string())],
        }
    );
    assert_eq!(
        method.response_variant_named("Fetch".to_string()),
        Variant {
            name: "Fetch".to_string(),
            tag: "get".to_string(),
            fields: vec![FieldType::Plain("Option<User>".to_string())],
        }
    );
    assert_eq!(method.request_variant().name, "Get");
    assert_eq!(method.response_variant().name, "Get");
}

#[test]
fn server_contract_follows_the_return_kind() {
    let decl = users_service().trait_decl();
    assert_eq!(decl.name, "UsersService");
    assert_eq!(
        decl.methods[0],
        ServerMethod {
            name: "new".to_string(),
            args: vec![argument("user", "NewUser")],
            result: ServerResult::Value("User".to_string()),
        }
    );
    assert_eq!(decl.methods[2].result, ServerResult::Handler("UserService".to_string()));
    assert_eq!(decl.methods[3].result, ServerResult::Sink("User".to_string()));
    assert_eq!(decl.methods.len(), 4);
    assert_eq!(
        users_service().methods[1].return_type(),
        ServerResult::Value("Vec<User>".to_string())
    );
    assert_eq!(users_service().methods[1].to_trait_item(), decl.methods[1]);
}

#[test]
fn client_contract_follows_the_return_kind() {
    let decl = users_service().client();
    assert_eq!(decl.name, "UsersServiceClient");
    assert_eq!(
        decl.methods[0],
        ClientMethod {
            name: "new".to_string(),
            variant: "New".to_string(),
            args: vec![argument("user", "NewUser")],
            action: ClientAction::Call("User".to_string()),
        }
    );
    assert_eq!(decl.methods[2].action, ClientAction::Scope("UserService".to_string()));
    assert_eq!(decl.methods[2].variant, "ById");
    assert_eq!(decl.methods[3].action, ClientAction::Open("User".to_string()));
    assert_eq!(users_service().methods[3].client_fn(), decl.methods[3]);
    assert_eq!(users_service().methods[3].client_fn_named("W".to_string()).variant, "W");
}

#[test]
fn dispatcher_has_one_case_per_method() {
    let decl = users_service().server();
    assert_eq!(decl.name, "UsersServiceServer");
    assert_eq!(
        decl.arms,
        vec![
            Arm {
                variant: "New".to_string(),
                method: "new".to_string(),
                arity: 1,
                entry: Entry::Handle,
            },
            Arm {
                variant: "List".to_string(),
                method: "list".to_string(),
                arity: 0,
                entry: Entry::Handle,
            },
            Arm {
                variant: "ById".to_string(),
                method: "by_id".to_string(),
                arity: 1,
                entry: Entry::Recurse,
            },
            Arm {
                variant: "Watch".to_string(),
                method: "watch".to_string(),
                arity: 1,
                entry: Entry::Stream,
            },
        ]
    );
    assert_eq!(users_service().methods[0].rpc_case(), decl.arms[0]);
    assert_eq!(users_service().methods[0].rpc_case_named("N".to_string()).variant, "N");
}

#[test]
fn compiling_gives_all_artifacts() {
    let link = users_service();
    let artifacts = link.to_tokens();
    assert_eq!(artifacts.trait_decl, link.trait_decl());
    assert_eq!(artifacts.request, link.request_enum());
    assert_eq!(artifacts.response, link.response_enum());
    assert_eq!(artifacts.client, link.client());
    assert_eq!(artifacts.server, link.server());
    assert_eq!(link.to_tokens(), artifacts);
}

#[test]
fn empty_service_compiles_to_empty_shapes() {
    let link = Link { name: "Nothing".to_string(), methods: vec![] };
    assert_eq!(
        link.request_enum(),
        EnumDecl { name: "NothingRequest".to_string(), variants: vec![] }
    );
    assert_eq!(link.server().arms, vec![]);
}

#[test]
fn arguments_are_copied_in_order() {
    let args = vec![argument("a", "u8"), argument("b", "String")];
    assert_eq!(clone_args(&args), args);
    assert_eq!(clone_args(&vec![]), vec![]);
}

#[test]
fn runtime_paths() {
    assert_eq!(Names.transport(), "::trait_link::Transport");
    assert_eq!(Names.serde(), "::trait_link::serde");
    assert_eq!(Names.rpc_trait(), "::trait_link::Rpc");
    assert_eq!(Names.link_error("T::Error"), "::trait_link::LinkError::<T::Error>");
    assert_eq!(Names.future("Vec<Todo>"), "::core::future::Future<Output = Vec<Todo>>");
}

#[test]
fn colliding_variant_names_are_found() {
    let link = users_service();
    assert_eq!(link.variant_names(), vec!["New", "List", "ById", "Watch"]);
    assert!(!link.has_variant_collision());
    let colliding = Link {
        name: "Todos".to_string(),
        methods: vec![
            simple("get_todo", vec![], "Todo"),
            simple("list", vec![], "Vec<Todo>"),
            simple("getTodo", vec![], "Todo"),
        ],
    };
    assert!(colliding.is_valid());
    assert_eq!(colliding.variant_names(), vec!["GetTodo", "List", "GetTodo"]);
    assert!(colliding.has_variant_collision());
    assert!(!Link { name: "Nothing".to_string(), methods: vec![] }.has_variant_collision());
}
