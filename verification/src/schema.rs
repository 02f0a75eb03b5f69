//! The schema data model and the schema-to-type-text translator.
//!
//! A schema is a closed sum over the structural variants a document can
//! carry: primitives, objects, arrays, references, the composition operators
//! and the two degenerate shapes `not` and `any`. A reference node carries
//! only its pointer string and is never dereferenced, so reference cycles in
//! a document are harmless: translation recurses only through the explicit
//! nesting of objects, arrays and compositions.

use vstd::prelude::*;

use crate::names::resolved;
use crate::names::resolve;
use crate::text::joined;
use crate::text::trimmed;
use crate::text::trim;
use crate::text::str_eq;

verus! {

/// A primitive schema kind.
pub enum PrimitiveKind {
    Str,
    Number,
    Integer,
    Boolean,
}

/// Optional metadata carried by a schema node, rendered as a doc comment.
pub struct Meta {
    pub title: Option<String>,
    pub description: Option<String>,
    pub deprecated: bool,
}

/// One named property of an object schema.
pub struct Property {
    pub name: String,
    pub schema: SchemaNode,
}

/// The structural variant of a schema node. Exactly one is active.
pub enum SchemaKind {
    Primitive(PrimitiveKind),
    Object { properties: Vec<Property>, required: Vec<String> },
    Array { items: Box<SchemaNode> },
    Reference { pointer: String },
    AllOf { members: Vec<SchemaNode> },
    OneOf { members: Vec<SchemaNode> },
    AnyOf { members: Vec<SchemaNode> },
    Not,
    Any,
}

/// One schema node: a structural variant plus its metadata.
pub struct SchemaNode {
    pub meta: Meta,
    pub kind: SchemaKind,
}

/// The doc-comment block for the given metadata: `@title`, `@description`
/// and `@deprecated` in that fixed order, each only when present; the whole
/// block is omitted when none is present.
pub open spec fn doc_comment_text(meta: Meta) -> Seq<char> {
    if meta.title is None && meta.description is None && !meta.deprecated {
        Seq::empty()
    } else {
        "\n/**"@ + (if meta.title is Some {
            "\n@title "@ + meta.title->0@
        } else {
            Seq::empty()
        }) + (if meta.description is Some {
            "\n@description "@ + meta.description->0@
        } else {
            Seq::empty()
        }) + (if meta.deprecated {
            "\n@deprecated "@
        } else {
            Seq::empty()
        }) + "\n*/\n"@
    }
}

/// The type text of a primitive kind.
pub open spec fn prim_text(p: PrimitiveKind) -> Seq<char> {
    match p {
        PrimitiveKind::Str => "string"@,
        PrimitiveKind::Number => "number"@,
        PrimitiveKind::Integer => "number"@,
        PrimitiveKind::Boolean => "boolean"@,
    }
}

/// Whether `name` is one of the strings of `required`.
pub open spec fn req_contains(required: Seq<String>, name: Seq<char>) -> bool {
    exists|i: int| 0 <= i < required.len() && required[i]@ == name
}

/// Whether the name holds a `.` and must be quoted as a string-literal key.
pub open spec fn has_dot(name: Seq<char>) -> bool {
    exists|i: int| 0 <= i < name.len() && name[i] == '.'
}

/// A property key as written: quoted when the name holds a `.`.
pub open spec fn key_text(name: Seq<char>) -> Seq<char> {
    if has_dot(name) {
        seq!['"'] + name + seq!['"']
    } else {
        name
    }
}

/// The type text of one schema node.
pub open spec fn translated(n: SchemaNode) -> Seq<char>
    decreases n,
{
    match n.kind {
        SchemaKind::Primitive(p) => prim_text(p),
        SchemaKind::Not => "null"@,
        SchemaKind::Any => "any"@,
        SchemaKind::Reference { pointer } => resolved(pointer@),
        SchemaKind::Array { items } => "Array<"@ + trimmed(translated(*items)) + ">"@,
        SchemaKind::Object { properties, required } => {
            if properties@.len() == 0 {
                "Record<string, any>"@
            } else {
                "{\n"@ + props_text(properties@, required@) + "}\n"@
            }
        },
        SchemaKind::AllOf { members } => joined_nodes(members@, " & "@),
        SchemaKind::OneOf { members } => joined_nodes(members@, " | "@),
        SchemaKind::AnyOf { members } => joined_nodes(members@, " | "@),
    }
}

/// The rendered field line of one object property.
pub open spec fn prop_text(p: Property, required: Seq<String>) -> Seq<char>
    decreases p,
{
    doc_comment_text(p.schema.meta) + "\n"@ + key_text(p.name@) + (if req_contains(
        required,
        p.name@,
    ) {
        Seq::<char>::empty()
    } else {
        seq!['?']
    }) + ": "@ + translated(p.schema) + ";\n"@
}

/// The rendered field lines of an object's properties, in declared order.
pub open spec fn props_text(props: Seq<Property>, required: Seq<String>) -> Seq<char>
    decreases props,
{
    if props.len() == 0 {
        Seq::empty()
    } else {
        props_text(props.drop_last(), required) + prop_text(props.last(), required)
    }
}

/// The type texts of composition members joined with the given separator.
pub open spec fn joined_nodes(members: Seq<SchemaNode>, sep: Seq<char>) -> Seq<char>
    decreases members,
{
    if members.len() == 0 {
        Seq::empty()
    } else if members.len() == 1 {
        translated(members[0])
    } else {
        joined_nodes(members.drop_last(), sep) + sep + translated(members.last())
    }
}

/// Renders a doc-comment block for the given metadata.
pub fn doc_block(meta: &Meta) -> (r: String)
    ensures
        r@ == doc_comment_text(*meta),
{
    if meta.title.is_none() && meta.description.is_none() && !meta.deprecated {
        return String::new();
    }
    let mut out = String::from_str("\n/**");
    if let Some(t) = &meta.title {
        out.append("\n@title ");
        out.append(t.as_str());
    }
    if let Some(d) = &meta.description {
        out.append("\n@description ");
        out.append(d.as_str());
    }
    if meta.deprecated {
        out.append("\n@deprecated ");
    }
    out.append("\n*/\n");
    proof {
        assert(out@ =~= doc_comment_text(*meta));
    }
    out
}

/// Whether `name` is one of the strings of `required`.
pub fn required_contains(required: &Vec<String>, name: &str) -> (r: bool)
    ensures
        r == req_contains(required@, name@),
{
    let mut i: usize = 0;
    while i < required.len()
        invariant
            i <= required@.len(),
            forall|k: int| 0 <= k < i ==> required@[k]@ != name@,
        decreases required@.len() - i,
    {
        if str_eq(required[i].as_str(), name) {
            return true;
        }
        i += 1;
    }
    false
}

fn name_has_dot(name: &str) -> (r: bool)
    ensures
        r == has_dot(name@),
{
    let n = name.unicode_len();
    let mut i: usize = 0;
    while i < n
        invariant
            n == name@.len(),
            i <= n,
            forall|k: int| 0 <= k < i ==> name@[k] != '.',
        decreases n - i,
    {
        if name.get_char(i) == '.' {
            return true;
        }
        i += 1;
    }
    false
}

/// Renders a property key, quoting it when the name holds a `.`.
pub fn render_key(name: &str) -> (r: String)
    ensures
        r@ == key_text(name@),
{
    if name_has_dot(name) {
        proof {
            reveal_strlit("\"");
        }
        let mut out = String::from_str("\"");
        out.append(name);
        out.append("\"");
        proof {
            assert(out@ =~= seq!['"'] + name@ + seq!['"']);
        }
        out
    } else {
        let mut out = String::new();
        out.append(name);
        out
    }
}

impl SchemaNode {
    /// Renders this node's metadata as a doc-comment block.
    pub fn js_docs(&self) -> (r: String)
        ensures
            r@ == doc_comment_text(self.meta),
    {
        doc_block(&self.meta)
    }

    /// Translates this node into type text, by the rules of `translated`.
    pub fn to_tds(&self) -> (r: String)
        ensures
            r@ == translated(*self),
        decreases *self,
    {
        match &self.kind {
            SchemaKind::Primitive(p) => {
                match p {
                    PrimitiveKind::Str => String::from_str("string"),
                    PrimitiveKind::Number => String::from_str("number"),
                    PrimitiveKind::Integer => String::from_str("number"),
                    PrimitiveKind::Boolean => String::from_str("boolean"),
                }
            },
            SchemaKind::Not => String::from_str("null"),
            SchemaKind::Any => String::from_str("any"),
            SchemaKind::Reference { pointer } => resolve(pointer.as_str()),
            SchemaKind::Array { items } => {
                proof {
                    assert(decreases_to!(*self => self.kind));
                    assert(decreases_to!(self.kind => self.kind->Array_items));
                }
                let inner = items.to_tds();
                let t = trim(inner.as_str());
                let mut out = String::from_str("Array<");
                out.append(t.as_str());
                out.append(">");
                out
            },
            SchemaKind::Object { properties, required } => {
                if properties.len() == 0 {
                    String::from_str("Record<string, any>")
                } else {
                    let mut body = String::new();
                    let mut i: usize = 0;
                    while i < properties.len()
                        invariant
                            i <= properties@.len(),
                            self.kind == (SchemaKind::Object {
                                properties: *properties,
                                required: *required,
                            }),
                            body@ == props_text(properties@.subrange(0, i as int), required@),
                        decreases properties@.len() - i,
                    {
                        proof {
                            assert(decreases_to!(*self => self.kind));
                            assert(decreases_to!(self.kind => self.kind->Object_properties));
                            assert(decreases_to!(
                                self.kind->Object_properties => self.kind->Object_properties@
                            ));
                            assert(self.kind->Object_properties == *properties);
                            assert(decreases_to!(properties@ => properties@[i as int]));
                            assert(decreases_to!(
                                properties@[i as int] => properties@[i as int].schema
                            ));
                        }
                        let p = &properties[i];
                        let ghost body0 = body@;
                        let docs = p.schema.js_docs();
                        let key = render_key(p.name.as_str());
                        let is_req = required_contains(required, p.name.as_str());
                        let ty = p.schema.to_tds();
                        body.append(docs.as_str());
                        body.append("\n");
                        body.append(key.as_str());
                        if !is_req {
                            body.append("?");
                        }
                        body.append(": ");
                        body.append(ty.as_str());
                        body.append(";\n");
                        proof {
                            reveal_strlit("?");
                            let pre = properties@.subrange(0, i as int);
                            let cur = properties@.subrange(0, i + 1);
                            assert(cur.drop_last() =~= pre);
                            assert(cur.last() == properties@[i as int]);
                            let q: Seq<char> = if req_contains(required@, p.name@) {
                                Seq::<char>::empty()
                            } else {
                                seq!['?']
                            };
                            let line = docs@ + "\n"@ + key@ + q + ": "@ + ty@ + ";\n"@;
                            assert(line == prop_text(cur.last(), required@));
                            assert(body@ =~= body0 + line);
                            assert(props_text(cur, required@) == props_text(pre, required@)
                                + prop_text(cur.last(), required@));
                            assert(body@ =~= props_text(cur, required@));
                        }
                        i += 1;
                    }
                    proof {
                        assert(properties@.subrange(0, properties@.len() as int) =~= properties@);
                    }
                    let mut out = String::from_str("{\n");
                    out.append(body.as_str());
                    out.append("}\n");
                    out
                }
            },
            SchemaKind::AllOf { members } => {
                proof {
                    assert(decreases_to!(*self => self.kind));
                    assert(decreases_to!(self.kind => self.kind->AllOf_members));
                    assert(decreases_to!(self.kind->AllOf_members => self.kind->AllOf_members@));
                    assert(self.kind->AllOf_members == *members);
                }
                join_members(members, " & ")
            },
            SchemaKind::OneOf { members } => {
                proof {
                    assert(decreases_to!(*self => self.kind));
                    assert(decreases_to!(self.kind => self.kind->OneOf_members));
                    assert(decreases_to!(self.kind->OneOf_members => self.kind->OneOf_members@));
                    assert(self.kind->OneOf_members == *members);
                }
                join_members(members, " | ")
            },
            SchemaKind::AnyOf { members } => {
                proof {
                    assert(decreases_to!(*self => self.kind));
                    assert(decreases_to!(self.kind => self.kind->AnyOf_members));
                    assert(decreases_to!(self.kind->AnyOf_members => self.kind->AnyOf_members@));
                    assert(self.kind->AnyOf_members == *members);
                }
                join_members(members, " | ")
            },
        }
    }
}

fn join_members(members: &Vec<SchemaNode>, sep: &str) -> (r: String)
    ensures
        r@ == joined_nodes(members@, sep@),
    decreases members@,
{
    let mut out = String::new();
    let mut i: usize = 0;
    while i < members.len()
        invariant
            i <= members@.len(),
            out@ == joined_nodes(members@.subrange(0, i as int), sep@),
        decreases members@.len() - i,
    {
        proof {
            assert(decreases_to!(members@ => members@[i as int]));
        }
        if i > 0 {
            out.append(sep);
        }
        let ty = members[i].to_tds();
        out.append(ty.as_str());
        proof {
            let pre = members@.subrange(0, i as int);
            let cur = members@.subrange(0, i + 1);
            assert(cur.drop_last() =~= pre);
            assert(cur.last() == members@[i as int]);
            assert(cur[0] == members@[0]);
            assert(out@ =~= joined_nodes(cur, sep@));
        }
        i += 1;
    }
    proof {
        assert(members@.subrange(0, members@.len() as int) =~= members@);
    }
    out
}

} // verus!
