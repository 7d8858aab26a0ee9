//! The route registry: the ordered collection of declared routes that every
//! other component reads. A route is immutable once registered, and no two
//! routes may share a (method, path) key.

use vstd::prelude::*;
use crate::handler::{Handler, HandlerView};
use crate::message::Method;
use crate::schema::{SchemaDescriptor, SchemaDescriptorView};

verus! {

/// Mathematical model of a configuration error.
pub ghost enum RouterErrorView {
    DuplicateRoute { method: Method, path: Seq<char> },
    SchemaGeneration { method: Method, path: Seq<char> },
    DoubleFinalize,
}

/// A configuration error: all are detected while composing, before any
/// request is served.
#[derive(Debug)]
pub enum RouterError {
    /// A second route was declared under an occupied (method, path) key.
    DuplicateRoute { method: Method, path: String },
    /// A route declared a schema that cannot be reflected into the API
    /// document.
    SchemaGeneration { method: Method, path: String },
    /// A spent router facade was finalized or mutated again.
    DoubleFinalize,
}

impl View for RouterError {
    type V = RouterErrorView;

    open spec fn view(&self) -> RouterErrorView {
        match self {
            RouterError::DuplicateRoute { method, path } => (RouterErrorView::DuplicateRoute {
                method: *method,
                path: path@,
            }),
            RouterError::SchemaGeneration { method, path } => (RouterErrorView::SchemaGeneration {
                method: *method,
                path: path@,
            }),
            RouterError::DoubleFinalize => RouterErrorView::DoubleFinalize,
        }
    }
}

/// Mathematical model of per-route metadata.
pub ghost struct RouteMetadataView {
    pub summary: Option<Seq<char>>,
    pub auth_required: bool,
}

/// Optional per-route metadata carried into the API document.
pub struct RouteMetadata {
    pub summary: Option<String>,
    pub auth_required: bool,
}

impl View for RouteMetadata {
    type V = RouteMetadataView;

    open spec fn view(&self) -> RouteMetadataView {
        RouteMetadataView { summary: self.summary.deep_view(), auth_required: self.auth_required }
    }
}

/// Mathematical model of one registered route.
pub ghost struct RouteEntryView {
    pub method: Method,
    pub path: Seq<char>,
    pub handler: HandlerView,
    pub input_schema: SchemaDescriptorView,
    pub output_schema: SchemaDescriptorView,
    pub metadata: RouteMetadataView,
}

/// One declared (path, method, handler, schema) binding.
pub struct RouteEntry {
    pub method: Method,
    pub path: String,
    pub handler: Handler,
    pub input_schema: SchemaDescriptor,
    pub output_schema: SchemaDescriptor,
    pub metadata: RouteMetadata,
}

impl View for RouteEntry {
    type V = RouteEntryView;

    open spec fn view(&self) -> RouteEntryView {
        RouteEntryView {
            method: self.method,
            path: self.path@,
            handler: self.handler@,
            input_schema: self.input_schema@,
            output_schema: self.output_schema@,
            metadata: self.metadata@,
        }
    }
}

/// Whether some entry already occupies the (method, path) key.
pub open spec fn has_route(entries: Seq<RouteEntryView>, method: Method, path: Seq<char>) -> bool {
    exists|i: int|
        0 <= i < entries.len() && entries[i].method == method && entries[i].path == path
}

/// The registry invariant: no two entries share a (method, path) key.
pub open spec fn routes_unique(entries: Seq<RouteEntryView>) -> bool {
    forall|i: int, j: int|
        0 <= i < j < entries.len() ==> !(#[trigger] entries[i].method == #[trigger] entries[j].method
            && entries[i].path == entries[j].path)
}

/// What registering one entry does: appends it, unless its key is occupied.
pub open spec fn spec_register(entries: Seq<RouteEntryView>, e: RouteEntryView) -> Result<
    Seq<RouteEntryView>,
    RouterErrorView,
> {
    if has_route(entries, e.method, e.path) {
        Err(RouterErrorView::DuplicateRoute { method: e.method, path: e.path })
    } else {
        Ok(entries.push(e))
    }
}

/// What registering a whole sequence of entries, in order, does: the first
/// occupied key aborts the registration with its duplicate-route error.
pub open spec fn spec_register_all(base: Seq<RouteEntryView>, adds: Seq<RouteEntryView>) -> Result<
    Seq<RouteEntryView>,
    RouterErrorView,
>
    decreases adds.len(),
{
    if adds.len() == 0 {
        Ok(base)
    } else {
        match spec_register(base, adds[0]) {
            Ok(next) => spec_register_all(next, adds.drop_first()),
            Err(e) => Err(e),
        }
    }
}

/// The ordered collection of registered routes. Iteration order is
/// registration order, so everything derived from the registry is
/// deterministic.
pub struct RouteRegistry {
    pub entries: Vec<RouteEntry>,
}

impl View for RouteRegistry {
    type V = Seq<RouteEntryView>;

    open spec fn view(&self) -> Seq<RouteEntryView> {
        self.entries@.map_values(|e: RouteEntry| e@)
    }
}

impl RouteRegistry {
    /// Creates an empty registry.
    pub fn new() -> (r: RouteRegistry)
        ensures
            r@ == Seq::<RouteEntryView>::empty(),
    {
        let r = RouteRegistry { entries: Vec::new() };
        proof {
            assert(r@ =~= Seq::<RouteEntryView>::empty());
        }
        r
    }

    /// The read-only sequence of registered entries, in registration
    /// order: what the document builder reads.
    pub fn entries(&self) -> (r: &Vec<RouteEntry>)
        ensures
            r@.map_values(|e: RouteEntry| e@) == self@,
    {
        &self.entries
    }

    /// Whether the (method, path) key is already occupied.
    pub fn contains_route(&self, method: Method, path: &String) -> (r: bool)
        ensures
            r == has_route(self@, method, path@),
    {
        let n = self.entries.len();
        let mut i: usize = 0;
        while i < n
            invariant
                i <= n,
                n == self.entries.len(),
                forall|k: int|
                    0 <= k < i ==> !(#[trigger] self@[k].method == method && self@[k].path
                        == path@),
            decreases n - i,
        {
            let ent = &self.entries[i];
            if ent.method == method && ent.path == *path {
                proof {
                    assert(self@[i as int].method == method && self@[i as int].path == path@);
                }
                return true;
            }
            i += 1;
        }
        false
    }

    /// Registers one route; fails with the duplicate-route error if its
    /// (method, path) key is already occupied, leaving the registry as it
    /// was.
    pub fn register(&mut self, e: RouteEntry) -> (r: Result<(), RouterError>)
        ensures
            has_route(old(self)@, e@.method, e@.path) ==> (r matches Err(err) && err@
                == (RouterErrorView::DuplicateRoute { method: e@.method, path: e@.path })
                && final(self)@ == old(self)@),
            !has_route(old(self)@, e@.method, e@.path) ==> r is Ok && final(self)@ == old(
                self,
            )@.push(e@),
    {
        if self.contains_route(e.method, &e.path) {
            Err(RouterError::DuplicateRoute { method: e.method, path: e.path })
        } else {
            let ghost before = self@;
            self.entries.push(e);
            proof {
                assert(self@ =~= before.push(self.entries@.last()@));
            }
            Ok(())
        }
    }

}

/// Law: a second entry under an occupied (method, path) key is always
/// rejected with the duplicate-route error, whatever handler, schemas or
/// metadata the new entry carries.
pub proof fn lemma_duplicate_route_rejected(entries: Seq<RouteEntryView>, e: RouteEntryView)
    requires
        has_route(entries, e.method, e.path),
    ensures
        spec_register(entries, e) == Err::<Seq<RouteEntryView>, RouterErrorView>(
            RouterErrorView::DuplicateRoute { method: e.method, path: e.path },
        ),
{
}

/// Law: registering any sequence of routes whose keys are pairwise distinct
/// and all free succeeds, appends them in order, and keeps the registry
/// invariant.
pub proof fn lemma_distinct_routes_all_register(
    base: Seq<RouteEntryView>,
    adds: Seq<RouteEntryView>,
)
    requires
        routes_unique(base),
        routes_unique(adds),
        forall|i: int|
            0 <= i < adds.len() ==> !has_route(base, #[trigger] adds[i].method, adds[i].path),
    ensures
        spec_register_all(base, adds) == Ok::<Seq<RouteEntryView>, RouterErrorView>(base + adds),
        routes_unique(base + adds),
    decreases adds.len(),
{
    if adds.len() == 0 {
        assert(base + adds =~= base);
    } else {
        let e = adds[0];
        assert(!has_route(base, e.method, e.path));
        let next = base.push(e);
        assert(spec_register(base, e) == Ok::<Seq<RouteEntryView>, RouterErrorView>(next));
        let rest = adds.drop_first();
        assert(routes_unique(next)) by {
            assert forall|i: int, j: int| 0 <= i < j < next.len() implies !(next[i].method
                == next[j].method && next[i].path == next[j].path) by {
                if j < next.len() - 1 {
                    assert(next[i] == base[i] && next[j] == base[j]);
                } else {
                    assert(next[j] == e);
                    if next[i].method == e.method && next[i].path == e.path {
                        assert(base[i].method == e.method && base[i].path == e.path);
                        assert(has_route(base, e.method, e.path));
                    }
                }
            }
        }
        assert(routes_unique(rest)) by {
            assert forall|i: int, j: int| 0 <= i < j < rest.len() implies !(rest[i].method
                == rest[j].method && rest[i].path == rest[j].path) by {
                assert(rest[i] == adds[i + 1] && rest[j] == adds[j + 1]);
            }
        }
        assert forall|i: int| 0 <= i < rest.len() implies !has_route(
            next,
            #[trigger] rest[i].method,
            rest[i].path,
        ) by {
            assert(rest[i] == adds[i + 1]);
            if has_route(next, rest[i].method, rest[i].path) {
                let k = choose|k: int|
                    0 <= k < next.len() && next[k].method == rest[i].method && next[k].path
                        == rest[i].path;
                if k < next.len() - 1 {
                    assert(next[k] == base[k]);
                    assert(has_route(base, adds[i + 1].method, adds[i + 1].path));
                } else {
                    assert(next[k] == adds[0]);
                    assert(adds[0].method == adds[i + 1].method && adds[0].path == adds[i
                        + 1].path);
                    assert(!routes_unique(adds));
                }
            }
        }
        lemma_distinct_routes_all_register(next, rest);
        assert(next + rest =~= base + adds);
    }
}

} // verus!
