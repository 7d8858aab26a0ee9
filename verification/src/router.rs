//! The router facade: the object handlers are registered against. It
//! accumulates routes and policy, then a single finalize yields the
//! dispatchable pipeline together with the built API document. A finalized
//! facade is spent: any further finalize or mutation fails fast.

use vstd::prelude::*;
use vstd::string::StringExecFns;
use crate::document::{
    build_document, document_json, serialize_document, spec_build, ApiDocument,
};
use crate::handler::Handler;
use crate::message::Method;
use crate::pipeline::{pipeline_wf, FinalizedPipeline, PipelineView};
use crate::policy::{CorsPolicy, CorsPolicyView};
use crate::route::{
    has_route, routes_unique, spec_register_all, RouteEntry, RouteEntryView, RouteMetadata,
    RouteRegistry, RouterError, RouterErrorView,
};

verus! {

/// Mathematical model of the facade.
pub ghost struct BiyardRouterView {
    pub routes: Seq<RouteEntryView>,
    pub cors: Option<CorsPolicyView>,
    pub finalized: bool,
}

/// The router facade. Lifecycle: created empty, mutated by route and policy
/// calls, consumed exactly once by finalize.
pub struct BiyardRouter {
    pub registry: RouteRegistry,
    pub cors: Option<CorsPolicy>,
    pub finalized: bool,
}

impl View for BiyardRouter {
    type V = BiyardRouterView;

    open spec fn view(&self) -> BiyardRouterView {
        BiyardRouterView {
            routes: self.registry@,
            cors: match self.cors {
                Some(c) => Some(c@),
                None => None,
            },
            finalized: self.finalized,
        }
    }
}

/// An entry's model with the nesting prefix prepended to its path.
pub open spec fn prefixed_entry(prefix: Seq<char>, e: RouteEntryView) -> RouteEntryView {
    RouteEntryView {
        method: e.method,
        path: prefix + e.path,
        handler: e.handler,
        input_schema: e.input_schema,
        output_schema: e.output_schema,
        metadata: e.metadata,
    }
}

/// A child facade's routes with the nesting prefix prepended.
pub open spec fn prefixed_all(prefix: Seq<char>, entries: Seq<RouteEntryView>) -> Seq<
    RouteEntryView,
> {
    entries.map_values(|e: RouteEntryView| prefixed_entry(prefix, e))
}

impl BiyardRouter {
    /// The facade invariant: no two registered routes share a key.
    pub open spec fn wf(self) -> bool {
        routes_unique(self@.routes)
    }

    /// Creates an empty facade.
    pub fn new() -> (r: BiyardRouter)
        ensures
            r@.routes == Seq::<RouteEntryView>::empty(),
            r@.cors is None,
            !r@.finalized,
            r.wf(),
    {
        BiyardRouter { registry: RouteRegistry::new(), cors: None, finalized: false }
    }

    /// Decides the facade invariant at run time, for callers outside the
    /// verified world that received a facade of unknown provenance.
    pub fn is_well_formed(&self) -> (r: bool)
        ensures
            r == self.wf(),
    {
        let n = self.registry.entries.len();
        let mut i: usize = 0;
        while i < n
            invariant
                i <= n,
                n == self.registry.entries.len(),
                forall|a: int, b: int|
                    0 <= a < b < n && a < i ==> !(#[trigger] self@.routes[a].method
                        == #[trigger] self@.routes[b].method && self@.routes[a].path
                        == self@.routes[b].path),
            decreases n - i,
        {
            let mut j: usize = i + 1;
            while j < n
                invariant
                    i < j <= n,
                    i < n,
                    n == self.registry.entries.len(),
                    forall|b: int|
                        i < b < j ==> !(#[trigger] self@.routes[i as int].method
                            == self@.routes[b].method && self@.routes[i as int].path
                            == self@.routes[b].path),
                decreases n - j,
            {
                let a = &self.registry.entries[i];
                let b = &self.registry.entries[j];
                if a.method == b.method && a.path == b.path {
                    proof {
                        assert(self@.routes[i as int].method == self@.routes[j as int].method
                            && self@.routes[i as int].path == self@.routes[j as int].path);
                        assert(!routes_unique(self@.routes));
                    }
                    return false;
                }
                j += 1;
            }
            i += 1;
        }
        true
    }

    /// Declares one route. Fails with the duplicate-route error when the
    /// (method, path) key is occupied, and fails fast on a spent facade.
    pub fn route(
        self,
        method: Method,
        path: String,
        handler: Handler,
        input_schema: crate::schema::SchemaDescriptor,
        output_schema: crate::schema::SchemaDescriptor,
        metadata: RouteMetadata,
    ) -> (r: Result<BiyardRouter, RouterError>)
        requires
            self.wf(),
        ensures
            self@.finalized ==> (r matches Err(e) && e@ == RouterErrorView::DoubleFinalize),
            (!self@.finalized && has_route(self@.routes, method, path@)) ==> (r matches Err(e)
                && e@ == (RouterErrorView::DuplicateRoute { method, path: path@ })),
            (!self@.finalized && !has_route(self@.routes, method, path@)) ==> (r matches Ok(f)
                && f@ == (BiyardRouterView {
                routes: self@.routes.push(
                    (RouteEntryView {
                        method,
                        path: path@,
                        handler: handler@,
                        input_schema: input_schema@,
                        output_schema: output_schema@,
                        metadata: metadata@,
                    }),
                ),
                cors: self@.cors,
                finalized: false,
            }) && f.wf()),
    {
        if self.finalized {
            return Err(RouterError::DoubleFinalize);
        }
        let mut s = self;
        let entry = RouteEntry { method, path, handler, input_schema, output_schema, metadata };
        match s.registry.register(entry) {
            Ok(()) => Ok(s),
            Err(e) => Err(e),
        }
    }

    /// Attaches a CORS policy, applied uniformly to every route at
    /// finalize; fails fast on a spent facade.
    pub fn with_policy(self, policy: CorsPolicy) -> (r: Result<BiyardRouter, RouterError>)
        ensures
            self@.finalized ==> (r matches Err(e) && e@ == RouterErrorView::DoubleFinalize),
            !self@.finalized ==> (r matches Ok(f) && f@ == (BiyardRouterView {
                routes: self@.routes,
                cors: Some(policy@),
                finalized: false,
            })),
    {
        if self.finalized {
            return Err(RouterError::DoubleFinalize);
        }
        Ok(BiyardRouter { registry: self.registry, cors: Some(policy), finalized: false })
    }

    /// Merges a child facade's routes under a path prefix, in the child's
    /// registration order; the same uniqueness rule applies after
    /// prefixing, and the first occupied key aborts with its
    /// duplicate-route error. The child's own policy is discarded: policy
    /// belongs to the facade being finalized.
    pub fn nest(self, prefix: String, child: BiyardRouter) -> (r: Result<
        BiyardRouter,
        RouterError,
    >)
        requires
            self.wf(),
        ensures
            self@.finalized ==> (r matches Err(e) && e@ == RouterErrorView::DoubleFinalize),
            !self@.finalized ==> (match spec_register_all(
                self@.routes,
                prefixed_all(prefix@, child@.routes),
            ) {
                Ok(routes) => r matches Ok(f) && f@ == (BiyardRouterView {
                    routes,
                    cors: self@.cors,
                    finalized: false,
                }) && f.wf(),
                Err(err) => r matches Err(e) && e@ == err,
            }),
    {
        if self.finalized {
            return Err(RouterError::DoubleFinalize);
        }
        let ghost routes0 = self@.routes;
        let ghost adds = prefixed_all(prefix@, child@.routes);
        let mut s = self;
        let mut remaining = child.registry.entries;
        proof {
            assert(prefixed_all(prefix@, remaining@.map_values(|x: RouteEntry| x@)) =~= adds);
        }
        while remaining.len() > 0
            invariant
                s.wf(),
                !s@.finalized,
                !self@.finalized,
                s@.cors == self@.cors,
                routes0 == self@.routes,
                adds == prefixed_all(prefix@, child@.routes),
                spec_register_all(routes0, adds) == spec_register_all(
                    s@.routes,
                    prefixed_all(prefix@, remaining@.map_values(|x: RouteEntry| x@)),
                ),
            decreases remaining.len(),
        {
            let ghost rem_views = remaining@.map_values(|x: RouteEntry| x@);
            let ghost cur_adds = prefixed_all(prefix@, rem_views);
            let e = remaining.remove(0);
            let mut path = prefix.clone();
            path.append(e.path.as_str());
            let entry = RouteEntry {
                method: e.method,
                path,
                handler: e.handler,
                input_schema: e.input_schema,
                output_schema: e.output_schema,
                metadata: e.metadata,
            };
            proof {
                assert(cur_adds[0] == entry@);
                assert(prefixed_all(prefix@, remaining@.map_values(|x: RouteEntry| x@))
                    =~= cur_adds.drop_first());
            }
            let ghost before = s@.routes;
            match s.registry.register(entry) {
                Ok(()) => {
                    proof {
                        assert(spec_register_all(before, cur_adds) == spec_register_all(
                            s@.routes,
                            cur_adds.drop_first(),
                        ));
                    }
                },
                Err(err) => {
                    proof {
                        assert(spec_register_all(before, cur_adds) == Err::<
                            Seq<RouteEntryView>,
                            RouterErrorView,
                        >(err@));
                    }
                    return Err(err);
                },
            }
        }
        proof {
            assert(remaining@.map_values(|x: RouteEntry| x@).len() == 0);
            assert(prefixed_all(prefix@, remaining@.map_values(|x: RouteEntry| x@)).len() == 0);
            assert(spec_register_all(routes0, adds) == Ok::<Seq<RouteEntryView>, RouterErrorView>(
                s@.routes,
            ));
        }
        Ok(s)
    }

    /// Finalizes the facade: builds the API document once from the
    /// registry, serializes it, and wraps the routes and policy into the
    /// dispatchable pipeline. Single-use: a spent facade fails fast with
    /// the double-finalize error and is left unchanged, and a failed schema
    /// build leaves the facade unchanged as well. On success the facade is
    /// spent and the caller receives both the pipeline and its own copy of
    /// the document.
    pub fn finalize(&mut self) -> (r: Result<(FinalizedPipeline, ApiDocument), RouterError>)
        requires
            old(self).wf(),
        ensures
            old(self)@.finalized ==> (r matches Err(e) && e@ == RouterErrorView::DoubleFinalize
                && final(self)@ == old(self)@),
            !old(self)@.finalized ==> (match spec_build(old(self)@.routes) {
                Ok(ops) => r matches Ok(pair) && pair.0@ == (PipelineView {
                    routes: old(self)@.routes,
                    cors: old(self)@.cors,
                    document: ops,
                    document_text: document_json(ops),
                }) && pipeline_wf(pair.0@) && pair.1@ == ops && final(self)@.finalized,
                Err(err) => r matches Err(e) && e@ == err && final(self)@ == old(self)@,
            }),
    {
        if self.finalized {
            return Err(RouterError::DoubleFinalize);
        }
        match build_document(&self.registry.entries) {
            Err(e) => Err(e),
            Ok(document) => {
                self.finalized = true;
                let mut routes: Vec<RouteEntry> = Vec::new();
                core::mem::swap(&mut routes, &mut self.registry.entries);
                let mut cors: Option<CorsPolicy> = None;
                core::mem::swap(&mut cors, &mut self.cors);
                let document_text = serialize_document(&document);
                let document_copy = document.duplicate();
                let pipeline = FinalizedPipeline { routes, cors, document, document_text };
                Ok((pipeline, document_copy))
            },
        }
    }
}

/// Law: for any route set whose (method, path) keys are pairwise distinct
/// and whose schemas are describable, registering every route into an empty
/// facade succeeds, finalizing succeeds, and the resulting pipeline routes
/// each request to exactly the handler registered under the request's key.
pub proof fn lemma_compose_then_dispatch(
    entries: Seq<RouteEntryView>,
    cors: Option<CorsPolicyView>,
    req: crate::message::RequestView,
    i: int,
)
    requires
        crate::route::routes_unique(entries),
        forall|k: int|
            0 <= k < entries.len() ==> crate::document::entry_describable(#[trigger] entries[k]),
        0 <= i < entries.len(),
        req.method == entries[i].method,
        req.path == entries[i].path,
    ensures
        spec_register_all(Seq::empty(), entries) == Ok::<Seq<RouteEntryView>, RouterErrorView>(
            entries,
        ),
        spec_build(entries) is Ok,
        crate::pipeline::spec_dispatch(
            (PipelineView {
                routes: entries,
                cors,
                document: spec_build(entries)->Ok_0,
                document_text: document_json(spec_build(entries)->Ok_0),
            }),
            req,
        ) == crate::handler::handler_response(
            entries[i].handler,
            req,
            document_json(spec_build(entries)->Ok_0),
        ),
{
    let empty = Seq::<RouteEntryView>::empty();
    crate::route::lemma_distinct_routes_all_register(empty, entries);
    assert(empty + entries =~= entries);
    crate::document::lemma_build_all_describable(entries);
    let p = PipelineView {
        routes: entries,
        cors,
        document: spec_build(entries)->Ok_0,
        document_text: document_json(spec_build(entries)->Ok_0),
    };
    crate::pipeline::lemma_dispatch_reaches_registered(p, req, i);
}

} // verus!
