//! A typed model of the legacy (v2) document shape, as far as the generator
//! understands it. Values of these types describe a document as loaded;
//! upgrading such a document into the generator's own `Document` shape is
//! the caller's concern, as is parsing the raw text. Mappings are kept as
//! ordered name–value pairs so that a document's stored order survives.

use vstd::prelude::*;

verus! {

/// Where a legacy parameter is carried.
pub enum ParameterIn {
    Body,
    Query,
    Header,
    Path,
    FormData,
}

/// The primitive or structural kind a legacy schema names.
pub enum SchemaType {
    Integer,
    Number,
    Str,
    Boolean,
    Array,
    Object,
    Null,
}

/// The paths of a legacy document, by path string, in stored order.
pub struct PathsObject {
    pub paths: Vec<(String, PathItemObject)>,
}

/// The named definitions of a legacy document, in stored order.
pub struct DefinitionsObject {
    pub definitions: Vec<(String, SchemaObject)>,
}

/// One legacy document: its version marker, its paths and its definitions.
/// The remaining sections are carried but not consumed by the generator.
pub struct SwaggerObject {
    pub swagger: String,
    pub paths: Vec<(String, PathItemObject)>,
    pub definitions: Option<Vec<(String, SchemaObject)>>,
    pub security_definitions: Option<SecurityDefinitionsObject>,
    pub security: Option<Vec<SecurityRequirementObject>>,
    pub tags: Option<Vec<TagObject>>,
    pub external_docs: Option<ExternalDocumentationObject>,
    pub parameters: Option<ParametersDefinitionsObject>,
    pub responses: Option<ResponsesDefinitionsObject>,
    pub base_path: Option<String>,
    pub host: Option<String>,
    pub info: InfoObject,
}

/// One legacy path: up to one operation per method, or a reference.
pub struct PathItemObject {
    pub get: Option<OperationObject>,
    pub put: Option<OperationObject>,
    pub post: Option<OperationObject>,
    pub delete: Option<OperationObject>,
    pub options: Option<OperationObject>,
    pub head: Option<OperationObject>,
    pub patch: Option<OperationObject>,
    pub parameters: Option<Vec<ParameterObject>>,
    pub reference: Option<String>,
}

/// One legacy operation.
pub struct OperationObject {
    pub description: Option<String>,
    pub operation_id: Option<String>,
    pub parameters: Option<Vec<ParameterObject>>,
    pub responses: Option<Vec<(String, ResponseObject)>>,
    pub schemes: Option<Vec<String>>,
    pub deprecated: Option<bool>,
    pub produces: Option<Vec<String>>,
    pub consumes: Option<Vec<String>>,
    pub tags: Option<Vec<String>>,
    pub external_docs: Option<ExternalDocumentationObject>,
    pub summary: Option<String>,
    pub security: Option<Vec<SecurityRequirementObject>>,
}

/// One legacy parameter, inline or by reference.
pub struct ParameterObject {
    pub type_of: Option<SchemaType>,
    pub location: ParameterIn,
    pub allowed: Option<Vec<String>>,
    pub reference: Option<String>,
    pub name: String,
    pub required: Option<bool>,
    pub schema: Option<SchemaObject>,
}

/// A limited subset of a schema's items shape, used by parameters that are
/// not carried in a body.
pub struct ItemsObject {
    pub type_of: SchemaType,
    pub allowed: Option<Vec<String>>,
    pub description: Option<String>,
    pub items: Option<Box<ItemsObject>>,
}

/// The responses section of a legacy document; not consumed.
pub struct ResponsesObject {}

/// One legacy response: a description and an optional schema, or a
/// reference.
pub struct ResponseObject {
    pub reference: Option<String>,
    pub description: Option<String>,
    pub schema: Option<SchemaObject>,
    pub headers: Option<Vec<(String, HeaderObject)>>,
    pub examples: Option<Vec<(String, ExampleObject)>>,
}

/// A bare reference to a component declared elsewhere.
pub struct ReferenceObject {
    pub reference: String,
}

/// One legacy schema node, loosely typed as documents carry it.
pub struct SchemaObject {
    pub type_of: Option<SchemaType>,
    pub allowed: Option<Vec<String>>,
    pub reference: Option<String>,
    pub title: Option<String>,
    pub description: Option<String>,
    pub items: Option<Box<SchemaObject>>,
    pub properties: Option<Vec<(String, SchemaObject)>>,
    pub schema: Option<Box<SchemaObject>>,
    pub required: Option<Vec<String>>,
    pub all_of: Option<Vec<SchemaObject>>,
    pub additional_properties: Option<Box<SchemaObject>>,
}

/// XML metadata of a legacy schema; not consumed.
pub struct XMLObject {}

/// Shared parameter definitions of a legacy document; not consumed.
pub struct ParametersDefinitionsObject {}

/// Shared response definitions of a legacy document; not consumed.
pub struct ResponsesDefinitionsObject {}

/// The security definitions of a legacy document; not consumed.
pub struct SecurityDefinitionsObject {}

/// One security scheme of a legacy document; not consumed.
pub struct SecuritySchemeObject {}

/// The scopes of a security scheme; not consumed.
pub struct ScopesObject {}

/// One security requirement of a legacy document; not consumed.
pub struct SecurityRequirementObject {}

/// The headers of a legacy response; not consumed.
pub struct HeadersObject {}

/// One example of a legacy response; not consumed.
pub struct ExampleObject {}

/// One header of a legacy response; not consumed.
pub struct HeaderObject {}

/// One tag of a legacy document; not consumed.
pub struct TagObject {}

/// External documentation of a legacy document; not consumed.
pub struct ExternalDocumentationObject {}

/// The info section of a legacy document; not consumed.
pub struct InfoObject {}

/// The contact of an info section; not consumed.
pub struct ContactObject {}

/// The license of an info section; not consumed.
pub struct LicenseObject {}

/// The pieces of one legacy operation's request and response, grouped by
/// where each is carried, each rendered piece filled in as it is found.
pub struct ReqRespInfo {
    pub body: Option<String>,
    pub query: Option<String>,
    pub path: Option<String>,
    pub form_data: Option<String>,
    pub header: Option<String>,
    pub resp: Option<String>,
}

impl ReqRespInfo {
    /// An empty grouping: nothing found yet.
    pub fn new() -> (r: ReqRespInfo)
        ensures
            r.body is None,
            r.query is None,
            r.path is None,
            r.form_data is None,
            r.header is None,
            r.resp is None,
    {
        ReqRespInfo {
            body: None,
            query: None,
            path: None,
            form_data: None,
            header: None,
            resp: None,
        }
    }
}

} // verus!
