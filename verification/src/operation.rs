//! The operation-shape builder: one named type per API operation, grouping
//! its parameters by location, its request body, and its success response.

use vstd::prelude::*;

use crate::names::resolved;
use crate::names::resolve;
use crate::schema::SchemaNode;
use crate::schema::Meta;
use crate::schema::doc_comment_text;
use crate::schema::doc_block;
use crate::schema::key_text;
use crate::schema::render_key;
use crate::schema::translated;
use crate::text::joined;
use crate::text::join_strs;
use crate::text::strs_view;
use crate::text::lemma_strs_view_push;
use crate::text::str_eq;

verus! {

/// Either an inline item or a reference to one declared elsewhere.
pub enum ReferenceOr<T> {
    Reference { reference: String },
    Item(T),
}

/// Where an operation parameter is carried.
#[derive(PartialEq, Eq, Structural, Clone, Copy)]
pub enum ParamLocation {
    Query,
    Path,
    Header,
    Cookie,
}

/// One inline parameter: its name, whether it must be given, its schema,
/// and the metadata rendered into its doc comment.
pub struct ParameterData {
    pub name: String,
    pub required: bool,
    pub schema: SchemaNode,
    pub description: Option<String>,
    pub deprecated: bool,
}

/// A parameter together with the location it is carried in.
pub struct Parameter {
    pub location: ParamLocation,
    pub data: ParameterData,
}

/// One API operation: its identifier, its parameters in declared order, and
/// the request-body and success-response schemas, already taken from their
/// JSON media types.
pub struct Operation {
    pub operation_id: Option<String>,
    pub parameters: Vec<ReferenceOr<Parameter>>,
    pub request_body: Option<SchemaNode>,
    pub response_ok: Option<SchemaNode>,
}

/// The operations of one path, one per method the generator consumes.
pub struct PathItem {
    pub get: Option<Operation>,
    pub post: Option<Operation>,
    pub patch: Option<Operation>,
    pub delete: Option<Operation>,
}

/// The metadata of a parameter as it is rendered: parameters carry no title.
pub open spec fn param_meta(d: ParameterData) -> Meta {
    Meta { title: None, description: d.description, deprecated: d.deprecated }
}

/// The doc-comment block of one parameter.
pub open spec fn param_docs(d: ParameterData) -> Seq<char> {
    doc_comment_text(param_meta(d))
}

/// The rendered line of one inline parameter.
pub open spec fn param_line(d: ParameterData) -> Seq<char> {
    param_docs(d) + key_text(d.name@) + (if d.required {
        Seq::<char>::empty()
    } else {
        seq!['?']
    }) + ": "@ + translated(d.schema) + ";"@
}

/// Index of the first `/` at or after position `i`, or -1 if there is none.
pub open spec fn find_slash_from(s: Seq<char>, i: int) -> int
    decreases s.len() - i,
{
    if i < 0 || i >= s.len() {
        -1
    } else if s[i] == '/' {
        i
    } else {
        find_slash_from(s, i + 1)
    }
}

/// The second `/`-delimited segment of a pointer string, which names the
/// kind of component a shared parameter reference points into.
pub open spec fn second_segment(s: Seq<char>) -> Seq<char> {
    let i1 = find_slash_from(s, 0);
    if i1 < 0 {
        Seq::empty()
    } else {
        let i2 = find_slash_from(s, i1 + 1);
        s.subrange(i1 + 1, if i2 < 0 {
            s.len() as int
        } else {
            i2
        })
    }
}

/// The bucket a shared parameter reference lands in, by its second path
/// segment; a reference into an unknown component kind is dropped.
pub open spec fn ref_location(s: Seq<char>) -> Option<ParamLocation> {
    if find_slash_from(s, 0) < 0 {
        None
    } else if second_segment(s) == "parameters"@ {
        Some(ParamLocation::Query)
    } else if second_segment(s) == "paths"@ {
        Some(ParamLocation::Path)
    } else if second_segment(s) == "headers"@ {
        Some(ParamLocation::Header)
    } else if second_segment(s) == "cookies"@ {
        Some(ParamLocation::Cookie)
    } else {
        None
    }
}

/// What one parameter contributes to the given bucket: nothing, or one line.
pub open spec fn entry_for(p: ReferenceOr<Parameter>, loc: ParamLocation) -> Seq<Seq<char>> {
    match p {
        ReferenceOr::Reference { reference } => {
            if ref_location(reference@) == Some(loc) {
                seq![resolved(reference@)]
            } else {
                Seq::empty()
            }
        },
        ReferenceOr::Item(param) => {
            if param.location == loc {
                seq![param_line(param.data)]
            } else {
                Seq::empty()
            }
        },
    }
}

/// The lines of one bucket, in the order the parameters were declared.
pub open spec fn bucket_entries(ps: Seq<ReferenceOr<Parameter>>, loc: ParamLocation) -> Seq<
    Seq<char>,
>
    decreases ps,
{
    if ps.len() == 0 {
        Seq::empty()
    } else {
        bucket_entries(ps.drop_last(), loc) + entry_for(ps.last(), loc)
    }
}

/// A labelled bucket group, omitted entirely when the bucket is empty.
pub open spec fn bucket_block(label: Seq<char>, entries: Seq<Seq<char>>) -> Seq<char> {
    if entries.len() == 0 {
        Seq::empty()
    } else {
        label + ": {\n"@ + joined(entries, "\n"@) + "\n},\n"@
    }
}

/// The `Parameters` group of an operation: the four location buckets in
/// fixed order, omitted entirely when every bucket is empty.
pub open spec fn params_block(ps: Seq<ReferenceOr<Parameter>>) -> Seq<char> {
    let q = bucket_entries(ps, ParamLocation::Query);
    let p = bucket_entries(ps, ParamLocation::Path);
    let h = bucket_entries(ps, ParamLocation::Header);
    let c = bucket_entries(ps, ParamLocation::Cookie);
    if q.len() == 0 && p.len() == 0 && h.len() == 0 && c.len() == 0 {
        Seq::empty()
    } else {
        "Parameters: {\n"@ + bucket_block("Query"@, q) + bucket_block("Path"@, p) + bucket_block(
            "Header"@,
            h,
        ) + bucket_block("Cookie"@, c) + "},\n"@
    }
}

/// A labelled schema field, omitted when there is no schema or its type
/// text is empty.
pub open spec fn schema_field(label: Seq<char>, s: Option<SchemaNode>) -> Seq<char> {
    if s is Some && translated(s->0).len() > 0 {
        label + ": "@ + translated(s->0) + ",\n"@
    } else {
        Seq::empty()
    }
}

/// The named type of one operation, keyed by its identifier.
pub open spec fn op_text(op: Operation) -> Seq<char>
    recommends
        op.operation_id is Some,
{
    op.operation_id->0@ + ": {\n"@ + params_block(op.parameters@) + schema_field(
        "RequestBody"@,
        op.request_body,
    ) + schema_field("Response"@, op.response_ok) + "},\n"@
}

/// The text of one operation slot of a path: empty when absent.
pub open spec fn opt_op_text(o: Option<Operation>) -> Seq<char> {
    if o is Some {
        op_text(o->0)
    } else {
        Seq::empty()
    }
}

/// Whether every present operation of a path carries an identifier.
pub open spec fn path_item_ok(pi: PathItem) -> bool {
    &&& (pi.get is Some ==> pi.get->0.operation_id is Some)
    &&& (pi.post is Some ==> pi.post->0.operation_id is Some)
    &&& (pi.patch is Some ==> pi.patch->0.operation_id is Some)
    &&& (pi.delete is Some ==> pi.delete->0.operation_id is Some)
}

/// The operation types of one path, in method order.
pub open spec fn path_item_text(pi: PathItem) -> Seq<char>
    recommends
        path_item_ok(pi),
{
    opt_op_text(pi.get) + opt_op_text(pi.post) + opt_op_text(pi.patch) + opt_op_text(pi.delete)
}

/// An operation with no parameters, no request body and no success response
/// yields the bare named type: its body holds no `Parameters`, no
/// `RequestBody` and no `Response` group.
pub proof fn lemma_empty_operation_shape(op: Operation)
    requires
        op.operation_id is Some,
        op.parameters@.len() == 0,
        op.request_body is None,
        op.response_ok is None,
    ensures
        op_text(op) == op.operation_id->0@ + ": {\n"@ + "},\n"@,
{
    assert(params_block(op.parameters@) == Seq::<char>::empty());
    assert(op_text(op) =~= op.operation_id->0@ + ": {\n"@ + "},\n"@);
}

fn find_slash_exec(s: &str, from: usize, n: usize) -> (r: usize)
    requires
        from <= n,
        n == s@.len(),
    ensures
        from <= r <= n,
        find_slash_from(s@, from as int) < 0 <==> r == n,
        find_slash_from(s@, from as int) >= 0 ==> r as int == find_slash_from(s@, from as int),
    decreases n - from,
{
    if from >= n {
        n
    } else if s.get_char(from) == '/' {
        from
    } else {
        find_slash_exec(s, from + 1, n)
    }
}

/// Decides which bucket a shared parameter reference belongs to.
pub fn ref_location_exec(reference: &str) -> (r: Option<ParamLocation>)
    ensures
        r == ref_location(reference@),
{
    let n = reference.unicode_len();
    let i1 = find_slash_exec(reference, 0, n);
    if i1 == n {
        return None;
    }
    let i2 = find_slash_exec(reference, i1 + 1, n);
    let seg = reference.substring_char(i1 + 1, i2);
    if str_eq(seg, "parameters") {
        Some(ParamLocation::Query)
    } else if str_eq(seg, "paths") {
        Some(ParamLocation::Path)
    } else if str_eq(seg, "headers") {
        Some(ParamLocation::Header)
    } else if str_eq(seg, "cookies") {
        Some(ParamLocation::Cookie)
    } else {
        None
    }
}

impl ParameterData {
    /// Renders this parameter's metadata as a doc-comment block.
    pub fn js_docs(&self) -> (r: String)
        ensures
            r@ == param_docs(*self),
    {
        let description = match &self.description {
            Some(d) => Some(d.clone()),
            None => None,
        };
        let meta = Meta { title: None, description, deprecated: self.deprecated };
        let out = doc_block(&meta);
        proof {
            assert(meta == param_meta(*self));
        }
        out
    }

    /// Renders this parameter as one field line of its bucket.
    pub fn to_tds(&self) -> (r: String)
        ensures
            r@ == param_line(*self),
    {
        let mut out = self.js_docs();
        let key = render_key(self.name.as_str());
        out.append(key.as_str());
        if !self.required {
            out.append("?");
        }
        out.append(": ");
        let ty = self.schema.to_tds();
        out.append(ty.as_str());
        out.append(";");
        proof {
            reveal_strlit("?");
            assert(out@ =~= param_line(*self));
        }
        out
    }
}

fn append_bucket(out: &mut String, label: &str, entries: &Vec<String>)
    ensures
        final(out)@ == old(out)@ + bucket_block(label@, strs_view(entries@)),
{
    if entries.len() > 0 {
        out.append(label);
        out.append(": {\n");
        let body = join_strs(entries, "\n");
        out.append(body.as_str());
        out.append("\n},\n");
        proof {
            assert(out@ =~= old(out)@ + bucket_block(label@, strs_view(entries@)));
        }
    } else {
        proof {
            assert(strs_view(entries@).len() == 0);
            assert(out@ =~= old(out)@ + bucket_block(label@, strs_view(entries@)));
        }
    }
}

fn append_schema_field(out: &mut String, label: &str, s: &Option<SchemaNode>)
    ensures
        final(out)@ == old(out)@ + schema_field(label@, *s),
{
    match s {
        Some(node) => {
            let t = node.to_tds();
            if t.as_str().unicode_len() > 0 {
                out.append(label);
                out.append(": ");
                out.append(t.as_str());
                out.append(",\n");
                proof {
                    assert(out@ =~= old(out)@ + schema_field(label@, *s));
                }
            } else {
                proof {
                    assert(out@ =~= old(out)@ + schema_field(label@, *s));
                }
            }
        },
        None => {
            proof {
                assert(out@ =~= old(out)@ + schema_field(label@, *s));
            }
        },
    }
}

impl Operation {
    /// Builds this operation's named type. The identifier is the only
    /// stable name for the emitted type, so it must be present.
    pub fn to_tds(&self) -> (r: String)
        requires
            self.operation_id is Some,
        ensures
            r@ == op_text(*self),
    {
        let mut qs: Vec<String> = Vec::new();
        let mut ps: Vec<String> = Vec::new();
        let mut hs: Vec<String> = Vec::new();
        let mut cs: Vec<String> = Vec::new();
        let ghost f = |e: String| e@;
        let mut i: usize = 0;
        while i < self.parameters.len()
            invariant
                i <= self.parameters@.len(),
                strs_view(qs@) == bucket_entries(
                    self.parameters@.subrange(0, i as int),
                    ParamLocation::Query,
                ),
                strs_view(ps@) == bucket_entries(
                    self.parameters@.subrange(0, i as int),
                    ParamLocation::Path,
                ),
                strs_view(hs@) == bucket_entries(
                    self.parameters@.subrange(0, i as int),
                    ParamLocation::Header,
                ),
                strs_view(cs@) == bucket_entries(
                    self.parameters@.subrange(0, i as int),
                    ParamLocation::Cookie,
                ),
            decreases self.parameters@.len() - i,
        {
            let ghost q0 = qs@;
            let ghost p0 = ps@;
            let ghost h0 = hs@;
            let ghost c0 = cs@;
            let ghost cur_param = self.parameters@[i as int];
            match &self.parameters[i] {
                ReferenceOr::Reference { reference } => {
                    match ref_location_exec(reference.as_str()) {
                        Some(ParamLocation::Query) => {
                            let line = resolve(reference.as_str());
                            qs.push(line);
                        },
                        Some(ParamLocation::Path) => {
                            let line = resolve(reference.as_str());
                            ps.push(line);
                        },
                        Some(ParamLocation::Header) => {
                            let line = resolve(reference.as_str());
                            hs.push(line);
                        },
                        Some(ParamLocation::Cookie) => {
                            let line = resolve(reference.as_str());
                            cs.push(line);
                        },
                        None => {},
                    }
                },
                ReferenceOr::Item(param) => {
                    let line = param.data.to_tds();
                    match param.location {
                        ParamLocation::Query => qs.push(line),
                        ParamLocation::Path => ps.push(line),
                        ParamLocation::Header => hs.push(line),
                        ParamLocation::Cookie => cs.push(line),
                    }
                },
            }
            proof {
                let pre = self.parameters@.subrange(0, i as int);
                let cur = self.parameters@.subrange(0, i + 1);
                assert(cur.drop_last() =~= pre);
                assert(cur.last() == cur_param);
                if qs@ == q0 {
                    assert(strs_view(qs@) =~= strs_view(q0) + entry_for(
                        cur_param,
                        ParamLocation::Query,
                    ));
                } else {
                    lemma_strs_view_push(q0, qs@.last());
                    assert(strs_view(qs@) =~= strs_view(q0) + entry_for(
                        cur_param,
                        ParamLocation::Query,
                    ));
                }
                if ps@ == p0 {
                    assert(strs_view(ps@) =~= strs_view(p0) + entry_for(
                        cur_param,
                        ParamLocation::Path,
                    ));
                } else {
                    lemma_strs_view_push(p0, ps@.last());
                    assert(strs_view(ps@) =~= strs_view(p0) + entry_for(
                        cur_param,
                        ParamLocation::Path,
                    ));
                }
                if hs@ == h0 {
                    assert(strs_view(hs@) =~= strs_view(h0) + entry_for(
                        cur_param,
                        ParamLocation::Header,
                    ));
                } else {
                    lemma_strs_view_push(h0, hs@.last());
                    assert(strs_view(hs@) =~= strs_view(h0) + entry_for(
                        cur_param,
                        ParamLocation::Header,
                    ));
                }
                if cs@ == c0 {
                    assert(strs_view(cs@) =~= strs_view(c0) + entry_for(
                        cur_param,
                        ParamLocation::Cookie,
                    ));
                } else {
                    lemma_strs_view_push(c0, cs@.last());
                    assert(strs_view(cs@) =~= strs_view(c0) + entry_for(
                        cur_param,
                        ParamLocation::Cookie,
                    ));
                }
            }
            i += 1;
        }
        proof {
            assert(self.parameters@.subrange(0, self.parameters@.len() as int)
                =~= self.parameters@);
        }
        let id = self.operation_id.as_ref().unwrap();
        let mut out = String::new();
        out.append(id.as_str());
        out.append(": {\n");
        let any = qs.len() > 0 || ps.len() > 0 || hs.len() > 0 || cs.len() > 0;
        if any {
            out.append("Parameters: {\n");
            append_bucket(&mut out, "Query", &qs);
            append_bucket(&mut out, "Path", &ps);
            append_bucket(&mut out, "Header", &hs);
            append_bucket(&mut out, "Cookie", &cs);
            out.append("},\n");
        }
        append_schema_field(&mut out, "RequestBody", &self.request_body);
        append_schema_field(&mut out, "Response", &self.response_ok);
        out.append("},\n");
        proof {
            assert(out@ =~= op_text(*self));
        }
        out
    }
}

impl PathItem {
    /// Builds the operation types of this path, in method order.
    pub fn to_tds(&self) -> (r: String)
        requires
            path_item_ok(*self),
        ensures
            r@ == path_item_text(*self),
    {
        let mut out = String::new();
        if let Some(op) = &self.get {
            let t = op.to_tds();
            out.append(t.as_str());
        }
        if let Some(op) = &self.post {
            let t = op.to_tds();
            out.append(t.as_str());
        }
        if let Some(op) = &self.patch {
            let t = op.to_tds();
            out.append(t.as_str());
        }
        if let Some(op) = &self.delete {
            let t = op.to_tds();
            out.append(t.as_str());
        }
        proof {
            assert(out@ =~= path_item_text(*self));
        }
        out
    }
}

} // verus!
