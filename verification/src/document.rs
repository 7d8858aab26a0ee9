//! The API document builder: derives one serializable description of every
//! registered route, in registration order, so that repeated builds from the
//! same registry are byte-identical.

use vstd::prelude::*;
use vstd::string::StringExecFns;
use crate::message::{method_text, method_token, Method};
use crate::route::{RouteEntry, RouteEntryView, RouterError, RouterErrorView};
use crate::schema::{describable, schema_json, SchemaDescriptor, SchemaDescriptorView};

verus! {

/// Mathematical model of one operation description.
pub ghost struct OperationView {
    pub method: Method,
    pub path: Seq<char>,
    pub summary: Option<Seq<char>>,
    pub auth_required: bool,
    pub input_schema: SchemaDescriptorView,
    pub output_schema: SchemaDescriptorView,
}

/// One operation description in the API document: a registered route minus
/// its handler.
pub struct OperationDoc {
    pub method: Method,
    pub path: String,
    pub summary: Option<String>,
    pub auth_required: bool,
    pub input_schema: SchemaDescriptor,
    pub output_schema: SchemaDescriptor,
}

impl View for OperationDoc {
    type V = OperationView;

    open spec fn view(&self) -> OperationView {
        OperationView {
            method: self.method,
            path: self.path@,
            summary: self.summary.deep_view(),
            auth_required: self.auth_required,
            input_schema: self.input_schema@,
            output_schema: self.output_schema@,
        }
    }
}

/// The aggregate machine-readable description of all registered routes,
/// built once at finalize time and read-only afterward.
pub struct ApiDocument {
    pub operations: Vec<OperationDoc>,
}

impl View for ApiDocument {
    type V = Seq<OperationView>;

    open spec fn view(&self) -> Seq<OperationView> {
        self.operations@.map_values(|op: OperationDoc| op@)
    }
}

impl OperationDoc {
    /// A structural copy of the operation description.
    pub fn duplicate(&self) -> (r: OperationDoc)
        ensures
            r@ == self@,
    {
        let summary = match &self.summary {
            Some(s) => Some(s.clone()),
            None => None,
        };
        OperationDoc {
            method: self.method,
            path: self.path.clone(),
            summary,
            auth_required: self.auth_required,
            input_schema: self.input_schema.duplicate(),
            output_schema: self.output_schema.duplicate(),
        }
    }
}

impl ApiDocument {
    /// A structural copy of the document: the pipeline keeps one while the
    /// finalize caller receives the other.
    pub fn duplicate(&self) -> (r: ApiDocument)
        ensures
            r@ == self@,
    {
        let mut operations: Vec<OperationDoc> = Vec::new();
        let n = self.operations.len();
        let mut i: usize = 0;
        while i < n
            invariant
                i <= n,
                n == self.operations.len(),
                operations@.map_values(|op: OperationDoc| op@) =~= self@.take(i as int),
            decreases n - i,
        {
            operations.push(self.operations[i].duplicate());
            proof {
                assert(self@.take(i + 1) =~= self@.take(i as int).push(self@[i as int]));
            }
            i += 1;
        }
        let r = ApiDocument { operations };
        proof {
            assert(r@ =~= self@);
        }
        r
    }
}

/// Whether both declared schemas of an entry can be reflected.
pub open spec fn entry_describable(e: RouteEntryView) -> bool {
    describable(e.input_schema) && describable(e.output_schema)
}

/// The operation description derived from one route entry.
pub open spec fn operation_of(e: RouteEntryView) -> OperationView {
    OperationView {
        method: e.method,
        path: e.path,
        summary: e.metadata.summary,
        auth_required: e.metadata.auth_required,
        input_schema: e.input_schema,
        output_schema: e.output_schema,
    }
}

/// What building the document from a registry yields: one operation per
/// entry, in registration order, or the schema-generation error of the first
/// entry whose declared schemas cannot be reflected.
pub open spec fn spec_build(entries: Seq<RouteEntryView>) -> Result<
    Seq<OperationView>,
    RouterErrorView,
>
    decreases entries.len(),
{
    if entries.len() == 0 {
        Ok(Seq::empty())
    } else if !entry_describable(entries[0]) {
        Err(
            RouterErrorView::SchemaGeneration {
                method: entries[0].method,
                path: entries[0].path,
            },
        )
    } else {
        match spec_build(entries.drop_first()) {
            Ok(rest) => Ok(seq![operation_of(entries[0])] + rest),
            Err(e) => Err(e),
        }
    }
}

/// When every entry is describable, the build succeeds and maps each entry
/// to its operation.
pub proof fn lemma_build_all_describable(entries: Seq<RouteEntryView>)
    requires
        forall|k: int| 0 <= k < entries.len() ==> entry_describable(#[trigger] entries[k]),
    ensures
        spec_build(entries) == Ok::<Seq<OperationView>, RouterErrorView>(
            entries.map_values(|e: RouteEntryView| operation_of(e)),
        ),
    decreases entries.len(),
{
    let ops = entries.map_values(|e: RouteEntryView| operation_of(e));
    if entries.len() == 0 {
        assert(ops =~= Seq::<OperationView>::empty());
    } else {
        let rest = entries.drop_first();
        assert(forall|k: int| 0 <= k < rest.len() ==> entry_describable(#[trigger] rest[k]));
        lemma_build_all_describable(rest);
        assert(seq![operation_of(entries[0])] + rest.map_values(
            |e: RouteEntryView| operation_of(e),
        ) =~= ops);
    }
}

/// The build fails with the schema-generation error of the first entry that
/// is not describable.
pub proof fn lemma_build_first_bad(entries: Seq<RouteEntryView>, i: int)
    requires
        0 <= i < entries.len(),
        forall|k: int| 0 <= k < i ==> entry_describable(#[trigger] entries[k]),
        !entry_describable(entries[i]),
    ensures
        spec_build(entries) == Err::<Seq<OperationView>, RouterErrorView>(
            RouterErrorView::SchemaGeneration {
                method: entries[i].method,
                path: entries[i].path,
            },
        ),
    decreases entries.len(),
{
    if i == 0 {
    } else {
        let rest = entries.drop_first();
        assert(forall|k: int| 0 <= k < i - 1 ==> entry_describable(#[trigger] rest[k]));
        assert(rest[i - 1] == entries[i]);
        lemma_build_first_bad(rest, i - 1);
    }
}

/// Builds the API document from the registered entries: one operation per
/// entry, in registration order; fails with a schema-generation error as
/// soon as an entry's declared schemas cannot be reflected.
pub fn build_document(entries: &Vec<RouteEntry>) -> (r: Result<ApiDocument, RouterError>)
    ensures
        (match r {
            Ok(doc) => spec_build(entries@.map_values(|e: RouteEntry| e@)) == Ok::<
                Seq<OperationView>,
                RouterErrorView,
            >(doc@),
            Err(err) => spec_build(entries@.map_values(|e: RouteEntry| e@)) == Err::<
                Seq<OperationView>,
                RouterErrorView,
            >(err@),
        }),
{
    let ghost evs = entries@.map_values(|e: RouteEntry| e@);
    let mut operations: Vec<OperationDoc> = Vec::new();
    let n = entries.len();
    let mut i: usize = 0;
    while i < n
        invariant
            i <= n,
            n == entries.len(),
            evs == entries@.map_values(|e: RouteEntry| e@),
            forall|k: int| 0 <= k < i ==> entry_describable(#[trigger] evs[k]),
            operations@.map_values(|op: OperationDoc| op@) =~= evs.take(i as int).map_values(
                |e: RouteEntryView| operation_of(e),
            ),
        decreases n - i,
    {
        let e = &entries[i];
        if !e.input_schema.is_describable() || !e.output_schema.is_describable() {
            proof {
                lemma_build_first_bad(evs, i as int);
            }
            return Err(
                RouterError::SchemaGeneration { method: e.method, path: e.path.clone() },
            );
        }
        let summary = match &e.metadata.summary {
            Some(s) => Some(s.clone()),
            None => None,
        };
        operations.push(
            OperationDoc {
                method: e.method,
                path: e.path.clone(),
                summary,
                auth_required: e.metadata.auth_required,
                input_schema: e.input_schema.duplicate(),
                output_schema: e.output_schema.duplicate(),
            },
        );
        proof {
            assert(evs.take(i + 1).drop_last() =~= evs.take(i as int));
            assert(evs.take(i + 1).map_values(|e: RouteEntryView| operation_of(e)) =~= evs.take(
                i as int,
            ).map_values(|e: RouteEntryView| operation_of(e)).push(operation_of(evs[i as int])));
        }
        i += 1;
    }
    proof {
        assert(evs.take(n as int) =~= evs);
        lemma_build_all_describable(evs);
    }
    Ok(ApiDocument { operations })
}

/// The JSON rendering of an optional summary.
pub open spec fn summary_json(s: Option<Seq<char>>) -> Seq<char> {
    match s {
        Some(t) => "\""@ + t + "\""@,
        None => "null"@,
    }
}

/// The JSON rendering of a boolean.
pub open spec fn bool_json(b: bool) -> Seq<char> {
    if b {
        "true"@
    } else {
        "false"@
    }
}

/// The JSON rendering of one operation description. Paths and summaries are
/// emitted verbatim.
pub open spec fn operation_json(op: OperationView) -> Seq<char> {
    "{\"method\":\""@ + method_token(op.method) + "\",\"path\":\""@ + op.path + "\",\"summary\":"@
        + summary_json(op.summary) + ",\"authRequired\":"@ + bool_json(op.auth_required)
        + ",\"input\":"@ + schema_json(op.input_schema) + ",\"output\":"@ + schema_json(
        op.output_schema,
    ) + "}"@
}

/// The JSON rendering of a sequence of operations, comma-separated, in
/// order.
pub open spec fn operations_json(ops: Seq<OperationView>) -> Seq<char>
    decreases ops.len(),
{
    if ops.len() == 0 {
        Seq::empty()
    } else if ops.len() == 1 {
        operation_json(ops[0])
    } else {
        operations_json(ops.drop_last()) + ","@ + operation_json(ops.last())
    }
}

/// The serialized form of a whole API document.
pub open spec fn document_json(ops: Seq<OperationView>) -> Seq<char> {
    "{\"openapi\":\"3.0.0\",\"operations\":["@ + operations_json(ops) + "]}"@
}

/// Renders one operation description as JSON.
pub fn operation_to_json(op: &OperationDoc) -> (r: String)
    ensures
        r@ == operation_json(op@),
{
    let mut out = String::from_str("{\"method\":\"");
    out.append(method_text(op.method).as_str());
    out.append("\",\"path\":\"");
    out.append(op.path.as_str());
    out.append("\",\"summary\":");
    match &op.summary {
        Some(s) => {
            out.append("\"");
            out.append(s.as_str());
            out.append("\"");
        },
        None => {
            out.append("null");
        },
    }
    out.append(",\"authRequired\":");
    if op.auth_required {
        out.append("true");
    } else {
        out.append("false");
    }
    out.append(",\"input\":");
    out.append(op.input_schema.to_json().as_str());
    out.append(",\"output\":");
    out.append(op.output_schema.to_json().as_str());
    out.append("}");
    proof {
        assert(out@ =~= operation_json(op@));
    }
    out
}

/// Serializes the API document. The rendering is a function of the document
/// contents alone, so repeated serializations of documents built from the
/// same registry are byte-identical.
pub fn serialize_document(doc: &ApiDocument) -> (r: String)
    ensures
        r@ == document_json(doc@),
{
    let mut out = String::from_str("{\"openapi\":\"3.0.0\",\"operations\":[");
    let n = doc.operations.len();
    let mut i: usize = 0;
    while i < n
        invariant
            i <= n,
            n == doc.operations.len(),
            out@ == "{\"openapi\":\"3.0.0\",\"operations\":["@ + operations_json(
                doc@.take(i as int),
            ),
        decreases n - i,
    {
        if i > 0 {
            out.append(",");
        }
        let piece = operation_to_json(&doc.operations[i]);
        out.append(piece.as_str());
        proof {
            assert(doc@.take(i + 1).drop_last() =~= doc@.take(i as int));
            assert(doc@.take(i + 1).last() == doc@[i as int]);
            assert(out@ =~= "{\"openapi\":\"3.0.0\",\"operations\":["@ + operations_json(
                doc@.take(i + 1),
            ));
        }
        i += 1;
    }
    out.append("]}");
    proof {
        assert(doc@.take(n as int) =~= doc@);
        assert(out@ =~= document_json(doc@));
    }
    out
}

/// Law: document generation is deterministic — equal registry contents
/// yield equal build results, and equal documents serialize to byte-equal
/// text.
pub proof fn lemma_document_deterministic(e1: Seq<RouteEntryView>, e2: Seq<RouteEntryView>)
    requires
        e1 == e2,
    ensures
        spec_build(e1) == spec_build(e2),
        spec_build(e1) is Ok ==> document_json(spec_build(e1)->Ok_0) == document_json(
            spec_build(e2)->Ok_0,
        ),
{
}

} // verus!
