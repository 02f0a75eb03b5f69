//! The document assembler: one namespace of named schema interfaces followed
//! by one `Paths` interface of per-operation shapes, joined into the final
//! module text.

use vstd::prelude::*;

use crate::names::sanitized;
use crate::names::sanitize;
use crate::operation::PathItem;
use crate::operation::path_item_ok;
use crate::operation::path_item_text;
use crate::rewrite::decl_head;
use crate::rewrite::rewritten;
use crate::rewrite::rewrite;
use crate::schema::SchemaNode;
use crate::schema::doc_comment_text;
use crate::schema::translated;
use crate::text::joined;
use crate::text::join_strs;
use crate::text::lemma_strs_view_push;
use crate::text::pad;
use crate::text::spaces;
use crate::text::strs_view;

verus! {

/// Presentation-only configuration: the separator put between output blocks
/// and the indentation unit put before each path's operation block. Neither
/// changes what the output means.
pub struct Ctx {
    pub indent_unit: usize,
    pub separator: String,
}

impl Ctx {
    /// Builds a configuration from an indentation unit and a separator.
    pub fn new(indent_unit: usize, separator: &str) -> (r: Ctx)
        ensures
            r.indent_unit == indent_unit,
            r.separator@ == separator@,
    {
        let mut sep = String::new();
        sep.append(separator);
        Ctx { indent_unit, separator: sep }
    }
}

/// One named component schema of a document.
pub struct NamedSchema {
    pub name: String,
    pub schema: SchemaNode,
}

/// One path of a document with its operations.
pub struct PathEntry {
    pub path: String,
    pub item: PathItem,
}

/// A whole document: its named component schemas and its paths, each in
/// stored order. Read-only for the duration of one generation run.
pub struct Document {
    pub components: Vec<NamedSchema>,
    pub paths: Vec<PathEntry>,
}

/// Why a generation run was aborted.
#[derive(Debug)]
pub enum GenError {
    /// An operation lacks `operationId`; the failing path and method are
    /// reported and the whole run is aborted.
    MissingOperationId { path: String, method: String },
}

/// The name of the method slot `m` of a path, in the fixed order the
/// generator walks: get, post, patch, delete.
pub open spec fn method_name(m: int) -> Seq<char> {
    if m == 0 {
        "get"@
    } else if m == 1 {
        "post"@
    } else if m == 2 {
        "patch"@
    } else {
        "delete"@
    }
}

/// The first method slot of a path whose operation lacks an identifier.
pub open spec fn first_bad_method(pi: PathItem) -> Option<int> {
    if pi.get is Some && pi.get->0.operation_id is None {
        Some(0int)
    } else if pi.post is Some && pi.post->0.operation_id is None {
        Some(1int)
    } else if pi.patch is Some && pi.patch->0.operation_id is None {
        Some(2int)
    } else if pi.delete is Some && pi.delete->0.operation_id is None {
        Some(3int)
    } else {
        None
    }
}

/// The first offending (path, method) pair at or after index `i`, in
/// document order, or `None` when every operation carries an identifier.
pub open spec fn first_bad_from(paths: Seq<PathEntry>, i: int) -> Option<(int, int)>
    decreases paths.len() - i,
{
    if i < 0 || i >= paths.len() {
        None
    } else if first_bad_method(paths[i].item) is Some {
        Some((i, first_bad_method(paths[i].item)->0))
    } else {
        first_bad_from(paths, i + 1)
    }
}

/// The assembled declaration block of one named component schema: its doc
/// comment, then its interface declaration after the composition rewrite.
pub open spec fn interface_block(name: Seq<char>, s: SchemaNode) -> Seq<char> {
    doc_comment_text(s.meta) + rewritten(decl_head() + sanitized(name) + " "@ + translated(s))
}

/// The declaration blocks of the component schemas, in stored order.
pub open spec fn comp_blocks(cs: Seq<NamedSchema>) -> Seq<Seq<char>> {
    cs.map_values(|c: NamedSchema| interface_block(c.name@, c.schema))
}

/// The operation blocks of the paths, in stored order, each indented one
/// unit.
pub open spec fn path_blocks(ps: Seq<PathEntry>, indent: nat) -> Seq<Seq<char>> {
    ps.map_values(|p: PathEntry| spaces(indent) + path_item_text(p.item))
}

/// The assembled module text: the schema namespace, each component's
/// interface, the `Paths` interface with every operation shape, and the
/// closing braces, joined with the configured separator.
pub open spec fn assembled_with(doc: Document, indent: nat, sep: Seq<char>) -> Seq<char> {
    let blocks = seq!["declare namespace ApiDefs {"@] + comp_blocks(doc.components@) + seq![
        "export interface Paths {"@,
    ] + path_blocks(doc.paths@, indent) + seq!["}"@, "}"@];
    joined(blocks, sep)
}

/// Renders one component schema as its declaration block.
fn render_component(c: &NamedSchema) -> (r: String)
    ensures
        r@ == interface_block(c.name@, c.schema),
{
    let docs = c.schema.js_docs();
    let mut decl = String::from_str("export interface ");
    let sname = sanitize(c.name.as_str());
    decl.append(sname.as_str());
    decl.append(" ");
    let tds = c.schema.to_tds();
    decl.append(tds.as_str());
    proof {
        assert(decl@ =~= decl_head() + sanitized(c.name@) + " "@ + translated(c.schema));
    }
    let fixed = rewrite(decl.as_str());
    let mut out = docs;
    out.append(fixed.as_str());
    out
}

impl Document {
    /// Assembles the whole module text, or reports the first operation in
    /// document order that lacks an identifier and aborts the run.
    #[verifier::loop_isolation(false)]
    pub fn to_tds(&self, ctx: &Ctx) -> (r: Result<String, GenError>)
        ensures
            r is Ok <==> first_bad_from(self.paths@, 0) is None,
            r is Ok ==> r->Ok_0@ == assembled_with(*self, ctx.indent_unit as nat, ctx.separator@),
            r is Err ==> {
                let bad = first_bad_from(self.paths@, 0)->0;
                &&& r->Err_0->MissingOperationId_path@ == self.paths@[bad.0].path@
                &&& r->Err_0->MissingOperationId_method@ == method_name(bad.1)
            },
    {
        let mut i: usize = 0;
        while i < self.paths.len()
            invariant
                i <= self.paths@.len(),
                first_bad_from(self.paths@, 0) == first_bad_from(self.paths@, i as int),
                forall|j: int| 0 <= j < i ==> path_item_ok(#[trigger] self.paths@[j].item),
            decreases self.paths@.len() - i,
        {
            let pi = &self.paths[i].item;
            if let Some(op) = &pi.get {
                if op.operation_id.is_none() {
                    return Err(
                        GenError::MissingOperationId {
                            path: self.paths[i].path.clone(),
                            method: String::from_str("get"),
                        },
                    );
                }
            }
            if let Some(op) = &pi.post {
                if op.operation_id.is_none() {
                    return Err(
                        GenError::MissingOperationId {
                            path: self.paths[i].path.clone(),
                            method: String::from_str("post"),
                        },
                    );
                }
            }
            if let Some(op) = &pi.patch {
                if op.operation_id.is_none() {
                    return Err(
                        GenError::MissingOperationId {
                            path: self.paths[i].path.clone(),
                            method: String::from_str("patch"),
                        },
                    );
                }
            }
            if let Some(op) = &pi.delete {
                if op.operation_id.is_none() {
                    return Err(
                        GenError::MissingOperationId {
                            path: self.paths[i].path.clone(),
                            method: String::from_str("delete"),
                        },
                    );
                }
            }
            proof {
                assert(first_bad_method(self.paths@[i as int].item) is None);
            }
            i += 1;
        }
        let ghost hdr = "declare namespace ApiDefs {"@;
        let ghost paths_hdr = "export interface Paths {"@;
        let ghost closer = "}"@;
        let mut blocks: Vec<String> = Vec::new();
        blocks.push(String::from_str("declare namespace ApiDefs {"));
        proof {
            lemma_strs_view_push(Seq::empty(), blocks@.last());
            assert(strs_view(blocks@) =~= seq![hdr]);
        }
        let mut c: usize = 0;
        while c < self.components.len()
            invariant
                c <= self.components@.len(),
                strs_view(blocks@) == seq![hdr] + comp_blocks(self.components@.subrange(0, c as int)),
            decreases self.components@.len() - c,
        {
            let ghost b0 = blocks@;
            let block = render_component(&self.components[c]);
            blocks.push(block);
            proof {
                lemma_strs_view_push(b0, blocks@.last());
                assert(strs_view(blocks@) =~= seq![hdr] + comp_blocks(
                    self.components@.subrange(0, c + 1),
                ));
            }
            c += 1;
        }
        proof {
            assert(self.components@.subrange(0, self.components@.len() as int)
                =~= self.components@);
        }
        let ghost b1 = blocks@;
        blocks.push(String::from_str("export interface Paths {"));
        proof {
            lemma_strs_view_push(b1, blocks@.last());
        }
        let mut p: usize = 0;
        while p < self.paths.len()
            invariant
                p <= self.paths@.len(),
                forall|j: int| 0 <= j < self.paths@.len() ==> path_item_ok(
                    #[trigger] self.paths@[j].item,
                ),
                strs_view(blocks@) == seq![hdr] + comp_blocks(self.components@) + seq![paths_hdr]
                    + path_blocks(self.paths@.subrange(0, p as int), ctx.indent_unit as nat),
            decreases self.paths@.len() - p,
        {
            let ghost b2 = blocks@;
            let t = self.paths[p].item.to_tds();
            let block = pad(ctx.indent_unit, t.as_str());
            blocks.push(block);
            proof {
                lemma_strs_view_push(b2, blocks@.last());
                assert(strs_view(blocks@) =~= seq![hdr] + comp_blocks(self.components@) + seq![
                    paths_hdr,
                ] + path_blocks(self.paths@.subrange(0, p + 1), ctx.indent_unit as nat));
            }
            p += 1;
        }
        proof {
            assert(self.paths@.subrange(0, self.paths@.len() as int) =~= self.paths@);
        }
        let ghost b3 = blocks@;
        blocks.push(String::from_str("}"));
        proof {
            lemma_strs_view_push(b3, blocks@.last());
        }
        let ghost b4 = blocks@;
        blocks.push(String::from_str("}"));
        proof {
            lemma_strs_view_push(b4, blocks@.last());
        }
        let out = join_strs(&blocks, ctx.separator.as_str());
        proof {
            assert(strs_view(blocks@) =~= seq![hdr] + comp_blocks(self.components@) + seq![
                paths_hdr,
            ] + path_blocks(self.paths@, ctx.indent_unit as nat) + seq![closer, closer]);
        }
        Ok(out)
    }
}

/// Assembles a document with the default presentation: newline separators
/// and an indentation unit of two spaces.
pub fn assemble(doc: &Document) -> (r: Result<String, GenError>)
    ensures
        r is Ok <==> first_bad_from(doc.paths@, 0) is None,
        r is Ok ==> r->Ok_0@ == assembled_with(*doc, 2, "\n"@),
        r is Err ==> {
            let bad = first_bad_from(doc.paths@, 0)->0;
            &&& r->Err_0->MissingOperationId_path@ == doc.paths@[bad.0].path@
            &&& r->Err_0->MissingOperationId_method@ == method_name(bad.1)
        },
{
    let ctx = Ctx::new(2, "\n");
    doc.to_tds(&ctx)
}

/// Assembly is deterministic: two runs over one document with one
/// configuration produce identical text.
pub proof fn lemma_assemble_deterministic(
    doc: Document,
    indent: nat,
    sep: Seq<char>,
    r1: Seq<char>,
    r2: Seq<char>,
)
    requires
        r1 == assembled_with(doc, indent, sep),
        r2 == assembled_with(doc, indent, sep),
    ensures
        r1 == r2,
{
}

} // verus!
