use dts_gen::document::assemble;
use dts_gen::document::Ctx;
use dts_gen::document::Document;
use dts_gen::document::GenError;
use dts_gen::document::NamedSchema;
use dts_gen::document::PathEntry;
use dts_gen::names::esapce_name;
use dts_gen::names::resolve;
use dts_gen::names::sanitize;
use dts_gen::operation::Operation;
use dts_gen::operation::Parameter;
use dts_gen::operation::ParameterData;
use dts_gen::operation::ParamLocation;
use dts_gen::operation::PathItem;
use dts_gen::operation::ReferenceOr;
use dts_gen::rewrite::rewrite;
use dts_gen::schema::Meta;
use dts_gen::schema::PrimitiveKind;
use dts_gen::schema::Property;
use dts_gen::schema::SchemaKind;
use dts_gen::schema::SchemaNode;
use dts_gen::text::pad;
use dts_gen::text::trim;

fn bare_meta() -> Meta {
    Meta { title: None, description: None, deprecated: false }
}

fn prim(p: PrimitiveKind) -> SchemaNode {
    SchemaNode { meta: bare_meta(), kind: SchemaKind::Primitive(p) }
}

fn empty_path_item() -> PathItem {
    PathItem { get: None, post: None, patch: None, delete: None }
}

#[test]
fn it_works() {
    assert!("YES" == "YES")
}

#[test]
fn sanitize_replaces_every_bad_character() {
    assert_eq!(sanitize("Pet Name"), "Pet_Name");
    assert_eq!(sanitize("a-b.c/d"), "a_b_c_d");
    assert_eq!(sanitize("Ok_09"), "Ok_09");
    assert_eq!(sanitize(""), "");
}

#[test]
fn sanitize_is_idempotent() {
    let once = sanitize("Resp«Coupon DTO»!");
    let twice = sanitize(&once);
    assert_eq!(once, twice);
}

#[test]
fn resolve_takes_last_segment_and_sanitizes() {
    let r = resolve("#/components/schemas/Pet Name");
    assert_eq!(r, "Pet_Name");
    assert!(!r.contains(' '));
    assert_eq!(resolve("Pet"), "Pet");
    assert_eq!(resolve("#/parameters/PetId"), "PetId");
}

#[test]
fn esapce_name_replaces_guillemets() {
    assert_eq!(
        esapce_name("Resp«Foo»"),
        "Resp__GENERICS_LEFT__Foo__GENERICS_RIGHT__"
    );
    assert_eq!(esapce_name("plain"), "plain");
}

#[test]
fn trim_and_pad_shape_text() {
    assert_eq!(trim(" \n a b \n"), "a b");
    assert_eq!(trim("   "), "");
    assert_eq!(pad(2, "x"), "  x");
    assert_eq!(pad(0, "x"), "x");
}

#[test]
fn primitives_translate_to_their_type_names() {
    assert_eq!(prim(PrimitiveKind::Str).to_tds(), "string");
    assert_eq!(prim(PrimitiveKind::Integer).to_tds(), "number");
    assert_eq!(prim(PrimitiveKind::Number).to_tds(), "number");
    assert_eq!(prim(PrimitiveKind::Boolean).to_tds(), "boolean");
    let not = SchemaNode { meta: bare_meta(), kind: SchemaKind::Not };
    assert_eq!(not.to_tds(), "null");
    let any = SchemaNode { meta: bare_meta(), kind: SchemaKind::Any };
    assert_eq!(any.to_tds(), "any");
}

#[test]
fn object_marks_required_fields_only() {
    let node = SchemaNode {
        meta: bare_meta(),
        kind: SchemaKind::Object {
            properties: vec![
                Property { name: "id".to_string(), schema: prim(PrimitiveKind::Str) },
                Property { name: "name".to_string(), schema: prim(PrimitiveKind::Str) },
            ],
            required: vec!["id".to_string()],
        },
    };
    let out = node.to_tds();
    assert!(out.contains("\nid: string;\n"));
    assert!(out.contains("\nname?: string;\n"));
    assert!(!out.contains("id?"));
    assert_eq!(out.matches('?').count(), 1);
}

#[test]
fn object_without_properties_is_a_record() {
    let node = SchemaNode {
        meta: bare_meta(),
        kind: SchemaKind::Object { properties: vec![], required: vec![] },
    };
    assert_eq!(node.to_tds(), "Record<string, any>");
}

#[test]
fn dotted_property_names_are_quoted() {
    let node = SchemaNode {
        meta: bare_meta(),
        kind: SchemaKind::Object {
            properties: vec![
                Property { name: "a.b".to_string(), schema: prim(PrimitiveKind::Str) },
            ],
            required: vec![],
        },
    };
    let out = node.to_tds();
    assert!(out.contains("\"a.b\"?: string;"));
}

#[test]
fn array_wraps_its_item_type() {
    let node = SchemaNode {
        meta: bare_meta(),
        kind: SchemaKind::Array { items: Box::new(prim(PrimitiveKind::Str)) },
    };
    assert!(node.to_tds().contains("Array<string>"));
    let loose = SchemaNode {
        meta: bare_meta(),
        kind: SchemaKind::Array {
            items: Box::new(SchemaNode { meta: bare_meta(), kind: SchemaKind::Any }),
        },
    };
    assert_eq!(loose.to_tds(), "Array<any>");
}

#[test]
fn compositions_join_with_their_operators() {
    let all = SchemaNode {
        meta: bare_meta(),
        kind: SchemaKind::AllOf {
            members: vec![prim(PrimitiveKind::Str), prim(PrimitiveKind::Number)],
        },
    };
    assert_eq!(all.to_tds(), "string & number");
    let one = SchemaNode {
        meta: bare_meta(),
        kind: SchemaKind::OneOf {
            members: vec![prim(PrimitiveKind::Str), prim(PrimitiveKind::Boolean)],
        },
    };
    assert_eq!(one.to_tds(), "string | boolean");
    let any_of = SchemaNode {
        meta: bare_meta(),
        kind: SchemaKind::AnyOf {
            members: vec![prim(PrimitiveKind::Number), prim(PrimitiveKind::Boolean)],
        },
    };
    assert_eq!(any_of.to_tds(), "number | boolean");
}

#[test]
fn doc_comment_lists_fields_in_fixed_order() {
    let node = SchemaNode {
        meta: Meta {
            title: Some("T".to_string()),
            description: Some("D".to_string()),
            deprecated: true,
        },
        kind: SchemaKind::Any,
    };
    assert_eq!(node.js_docs(), "\n/**\n@title T\n@description D\n@deprecated \n*/\n");
    let silent = SchemaNode { meta: bare_meta(), kind: SchemaKind::Any };
    assert_eq!(silent.js_docs(), "");
}

#[test]
fn rewrite_turns_intersections_into_extends() {
    let out = rewrite("export interface Pet Dog & Cat & { legs: number }");
    assert_eq!(out, "export interface Pet extends Dog, Cat { legs: number }");
}

#[test]
fn rewrite_keeps_single_reference_with_inline_object() {
    let out = rewrite("export interface Pet Dog & { legs: number }");
    assert_eq!(out, "export interface Pet extends Dog { legs: number }");
}

#[test]
fn rewrite_is_a_no_op_without_an_intersection() {
    let plain = "export interface Pet { legs: number }";
    assert_eq!(rewrite(plain), plain);
    let braceless = "export interface Pet Dog";
    assert_eq!(rewrite(braceless), braceless);
    let foreign = "const x = { a: 1 }";
    assert_eq!(rewrite(foreign), foreign);
}

fn path_param(name: &str) -> ReferenceOr<Parameter> {
    ReferenceOr::Item(Parameter {
        location: ParamLocation::Path,
        data: ParameterData {
            name: name.to_string(),
            required: true,
            schema: prim(PrimitiveKind::Str),
            description: None,
            deprecated: false,
        },
    })
}

#[test]
fn empty_operation_emits_no_groups() {
    let op = Operation {
        operation_id: Some("noop".to_string()),
        parameters: vec![],
        request_body: None,
        response_ok: None,
    };
    let out = op.to_tds();
    assert_eq!(out, "noop: {\n},\n");
    assert!(!out.contains("Parameters"));
    assert!(!out.contains("RequestBody"));
    assert!(!out.contains("Response"));
}

#[test]
fn operation_groups_parameters_by_location() {
    let op = Operation {
        operation_id: Some("getPet".to_string()),
        parameters: vec![
            path_param("id"),
            ReferenceOr::Item(Parameter {
                location: ParamLocation::Query,
                data: ParameterData {
                    name: "verbose".to_string(),
                    required: false,
                    schema: prim(PrimitiveKind::Boolean),
                    description: None,
                    deprecated: false,
                },
            }),
        ],
        request_body: None,
        response_ok: Some(SchemaNode {
            meta: bare_meta(),
            kind: SchemaKind::Reference { pointer: "#/components/schemas/Pet".to_string() },
        }),
    };
    let out = op.to_tds();
    assert!(out.starts_with("getPet: {\nParameters: {\n"));
    assert!(out.contains("Query: {\nverbose?: boolean;\n},\n"));
    assert!(out.contains("Path: {\nid: string;\n},\n"));
    assert!(out.contains("Response: Pet,\n"));
    let query_at = out.find("Query: {").unwrap();
    let path_at = out.find("Path: {").unwrap();
    assert!(query_at < path_at);
}

#[test]
fn shared_parameter_references_resolve_to_bare_identifiers() {
    let op = Operation {
        operation_id: Some("listPets".to_string()),
        parameters: vec![ReferenceOr::Reference {
            reference: "#/parameters/Pet Id".to_string(),
        }],
        request_body: None,
        response_ok: None,
    };
    let out = op.to_tds();
    assert!(out.contains("Query: {\nPet_Id\n},\n"));
}

#[test]
fn request_body_is_emitted_when_it_has_content() {
    let op = Operation {
        operation_id: Some("addPet".to_string()),
        parameters: vec![],
        request_body: Some(SchemaNode {
            meta: bare_meta(),
            kind: SchemaKind::Reference { pointer: "#/components/schemas/NewPet".to_string() },
        }),
        response_ok: None,
    };
    let out = op.to_tds();
    assert!(out.contains("RequestBody: NewPet,\n"));
}

fn pet_document() -> Document {
    Document {
        components: vec![NamedSchema {
            name: "Pet".to_string(),
            schema: SchemaNode {
                meta: bare_meta(),
                kind: SchemaKind::Object {
                    properties: vec![
                        Property {
                            name: "id".to_string(),
                            schema: prim(PrimitiveKind::Integer),
                        },
                        Property {
                            name: "name".to_string(),
                            schema: prim(PrimitiveKind::Str),
                        },
                    ],
                    required: vec!["id".to_string()],
                },
            },
        }],
        paths: vec![PathEntry {
            path: "/pets/{id}".to_string(),
            item: PathItem {
                get: Some(Operation {
                    operation_id: Some("getPet".to_string()),
                    parameters: vec![path_param("id")],
                    request_body: None,
                    response_ok: Some(SchemaNode {
                        meta: bare_meta(),
                        kind: SchemaKind::Reference {
                            pointer: "#/components/schemas/Pet".to_string(),
                        },
                    }),
                }),
                post: None,
                patch: None,
                delete: None,
            },
        }],
    }
}

#[test]
fn assemble_emits_schemas_then_paths() {
    let out = assemble(&pet_document()).unwrap();
    assert!(out.starts_with("declare namespace ApiDefs {\n"));
    assert!(out.contains("export interface Pet {\n"));
    assert!(out.contains("\nid: number;\n"));
    assert!(out.contains("\nname?: string;\n"));
    assert!(out.contains("export interface Paths {\n"));
    assert!(out.contains("getPet: {\nParameters: {\nPath: {\nid: string;\n},\n},\nResponse: Pet,\n},\n"));
    assert!(out.ends_with("}\n}"));
    let pet_at = out.find("export interface Pet").unwrap();
    let paths_at = out.find("export interface Paths").unwrap();
    assert!(pet_at < paths_at);
}

#[test]
fn assemble_is_deterministic() {
    let a = assemble(&pet_document()).unwrap();
    let b = assemble(&pet_document()).unwrap();
    assert_eq!(a, b);
}

#[test]
fn assemble_rewrites_an_all_of_of_references() {
    let doc = Document {
        components: vec![NamedSchema {
            name: "Pet".to_string(),
            schema: SchemaNode {
                meta: bare_meta(),
                kind: SchemaKind::AllOf {
                    members: vec![
                        SchemaNode {
                            meta: bare_meta(),
                            kind: SchemaKind::Reference {
                                pointer: "#/components/schemas/Dog".to_string(),
                            },
                        },
                        SchemaNode {
                            meta: bare_meta(),
                            kind: SchemaKind::Reference {
                                pointer: "#/components/schemas/Cat".to_string(),
                            },
                        },
                        SchemaNode {
                            meta: bare_meta(),
                            kind: SchemaKind::Object {
                                properties: vec![Property {
                                    name: "legs".to_string(),
                                    schema: prim(PrimitiveKind::Number),
                                }],
                                required: vec!["legs".to_string()],
                            },
                        },
                    ],
                },
            },
        }],
        paths: vec![],
    };
    let out = assemble(&doc).unwrap();
    assert!(out.contains("export interface Pet extends Dog, Cat {"));
    assert!(out.contains("\nlegs: number;\n"));
}

#[test]
fn assemble_reports_the_first_missing_operation_id() {
    let doc = Document {
        components: vec![],
        paths: vec![PathEntry {
            path: "/broken".to_string(),
            item: PathItem {
                get: None,
                post: Some(Operation {
                    operation_id: None,
                    parameters: vec![],
                    request_body: None,
                    response_ok: None,
                }),
                patch: None,
                delete: None,
            },
        }],
    };
    match assemble(&doc) {
        Ok(_) => panic!("a missing identifier must abort the run"),
        Err(GenError::MissingOperationId { path, method }) => {
            assert_eq!(path, "/broken");
            assert_eq!(method, "post");
        }
    }
}

#[test]
fn custom_context_changes_only_presentation() {
    let ctx = Ctx::new(0, "\n");
    let doc = pet_document();
    let out = doc.to_tds(&ctx).unwrap();
    assert!(out.contains("\ngetPet: {\n"));
}

#[test]
fn reference_cycles_are_never_expanded() {
    let refer = |target: &str| SchemaNode {
        meta: bare_meta(),
        kind: SchemaKind::Reference { pointer: format!("#/components/schemas/{target}") },
    };
    let doc = Document {
        components: vec![
            NamedSchema {
                name: "A".to_string(),
                schema: SchemaNode {
                    meta: bare_meta(),
                    kind: SchemaKind::Object {
                        properties: vec![Property { name: "b".to_string(), schema: refer("B") }],
                        required: vec![],
                    },
                },
            },
            NamedSchema {
                name: "B".to_string(),
                schema: SchemaNode {
                    meta: bare_meta(),
                    kind: SchemaKind::Object {
                        properties: vec![Property { name: "a".to_string(), schema: refer("A") }],
                        required: vec![],
                    },
                },
            },
        ],
        paths: vec![],
    };
    let out = assemble(&doc).unwrap();
    assert!(out.contains("export interface A {"));
    assert!(out.contains("export interface B {"));
    assert!(out.contains("\nb?: B;\n"));
    assert!(out.contains("\na?: A;\n"));
}

#[test]
fn first_offending_method_wins_within_a_path() {
    let nameless = Operation {
        operation_id: None,
        parameters: vec![],
        request_body: None,
        response_ok: None,
    };
    let doc = Document {
        components: vec![],
        paths: vec![
            PathEntry { path: "/fine".to_string(), item: empty_path_item() },
            PathEntry {
                path: "/bad".to_string(),
                item: PathItem {
                    get: Some(Operation { operation_id: None, ..nameless }),
                    post: None,
                    patch: None,
                    delete: Some(Operation {
                        operation_id: None,
                        parameters: vec![],
                        request_body: None,
                        response_ok: None,
                    }),
                },
            },
        ],
    };
    match assemble(&doc) {
        Ok(_) => panic!("a missing identifier must abort the run"),
        Err(GenError::MissingOperationId { path, method }) => {
            assert_eq!(path, "/bad");
            assert_eq!(method, "get");
        }
    }
}

#[test]
fn separator_is_only_presentation() {
    let ctx = Ctx::new(2, "\r\n");
    let out = pet_document().to_tds(&ctx).unwrap();
    assert!(out.contains("declare namespace ApiDefs {\r\n"));
}

#[test]
fn req_resp_info_starts_empty() {
    let info = dts_gen::swagger_v2::ReqRespInfo::new();
    assert!(info.body.is_none());
    assert!(info.query.is_none());
    assert!(info.path.is_none());
    assert!(info.form_data.is_none());
    assert!(info.header.is_none());
    assert!(info.resp.is_none());
}
