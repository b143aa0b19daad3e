//! An arena of spans: the read-only view of the span tree the renderers
//! work against.  Handles are indices into the arena; a span's parent
//! always sits at a smaller index, which keeps every walk to the root
//! bounded.

use vstd::prelude::*;

verus! {

use crate::fields::Field;

/// Externally assigned distributed-trace identity, attached to a span's
/// extension bag by a trace-propagation layer.  Either half may be absent.
#[derive(Clone, Copy, Debug, PartialEq, Eq)]
pub struct TraceIdentity {
    pub trace_id: Option<u128>,
    pub span_id: Option<u64>,
}

/// One span: its name, its parent handle, the trace identity its
/// extension bag currently holds (if any), and its own attributes.
#[derive(Debug)]
pub struct SpanRecord {
    pub name: String,
    pub parent: Option<usize>,
    pub identity: Option<TraceIdentity>,
    pub attrs: Vec<Field>,
}

/// The span arena.  Index `h` is the handle of span `h`; the tree's own
/// numeric identifier of that span is `h + 1` (identifiers are nonzero and
/// may be recycled by the substrate, which the model need not reproduce).
#[derive(Debug)]
pub struct SpanRegistry {
    pub spans: Vec<SpanRecord>,
}

/// The span tree's own numeric identifier for the span at index `h`.
pub open spec fn spec_native_id(h: int) -> int {
    h + 1
}

impl SpanRegistry {
    /// Every span's parent sits strictly below it in the arena.
    pub open spec fn wf(self) -> bool {
        forall|i: int|
            0 <= i < self.spans@.len() ==> ((#[trigger] self.spans@[i]).parent matches Some(p)
                ==> p < i)
    }

    pub open spec fn len(self) -> nat {
        self.spans@.len()
    }

    /// Whether `h` is the handle of a span.
    pub open spec fn valid_handle(self, h: int) -> bool {
        0 <= h < self.spans@.len()
    }

    pub fn new() -> (r: SpanRegistry)
        ensures
            r.wf(),
            r.len() == 0,
    {
        SpanRegistry { spans: Vec::new() }
    }

    pub fn span_count(&self) -> (r: usize)
        ensures
            r == self.len(),
    {
        self.spans.len()
    }

    /// Adds a span under `parent` and returns its handle.
    pub fn open_span(
        &mut self,
        name: String,
        parent: Option<usize>,
        identity: Option<TraceIdentity>,
        attrs: Vec<Field>,
    ) -> (h: usize)
        requires
            old(self).wf(),
            parent matches Some(p) ==> p < old(self).len(),
        ensures
            final(self).wf(),
            h == old(self).len(),
            final(self).len() == old(self).len() + 1,
            final(self).spans@.take(old(self).len() as int) == old(self).spans@,
            final(self).spans@[h as int].name@ == name@,
            final(self).spans@[h as int].parent == parent,
            final(self).spans@[h as int].identity == identity,
            final(self).spans@[h as int].attrs@ == attrs@,
    {
        let h = self.spans.len();
        self.spans.push(SpanRecord { name, parent, identity, attrs });
        proof {
            assert(self.spans@.take(old(self).len() as int) =~= old(self).spans@);
        }
        h
    }

    /// Replaces what the extension bag of span `h` holds; `None` models
    /// the cooperating layer having torn the identity down.
    pub fn set_identity(&mut self, h: usize, identity: Option<TraceIdentity>)
        requires
            old(self).wf(),
            h < old(self).len(),
        ensures
            final(self).wf(),
            final(self).len() == old(self).len(),
            final(self).spans@[h as int].identity == identity,
            final(self).spans@[h as int].name@ == old(self).spans@[h as int].name@,
            final(self).spans@[h as int].parent == old(self).spans@[h as int].parent,
            final(self).spans@[h as int].attrs@ == old(self).spans@[h as int].attrs@,
            forall|i: int|
                0 <= i < old(self).len() && i != h ==> final(self).spans@[i] == old(
                    self,
                ).spans@[i],
    {
        let mut rec = self.spans.remove(h);
        rec.identity = identity;
        self.spans.insert(h, rec);
        proof {
            assert(forall|i: int|
                0 <= i < old(self).len() && i != h ==> final(self).spans@[i] == old(
                    self,
                ).spans@[i]);
        }
    }

    /// Appends later-recorded fields to the attributes of span `h`.
    pub fn record_span_fields(&mut self, h: usize, fields: Vec<Field>)
        requires
            old(self).wf(),
            h < old(self).len(),
        ensures
            final(self).wf(),
            final(self).len() == old(self).len(),
            final(self).spans@[h as int].attrs@ == old(self).spans@[h as int].attrs@ + fields@,
            final(self).spans@[h as int].name@ == old(self).spans@[h as int].name@,
            final(self).spans@[h as int].parent == old(self).spans@[h as int].parent,
            final(self).spans@[h as int].identity == old(self).spans@[h as int].identity,
            forall|i: int|
                0 <= i < old(self).len() && i != h ==> final(self).spans@[i] == old(
                    self,
                ).spans@[i],
    {
        let mut rec = self.spans.remove(h);
        let mut fields = fields;
        let n = fields.len();
        let ghost added = fields@;
        let mut i: usize = 0;
        while i < n
            invariant
                n == added.len(),
                i <= n,
                fields@ == added.skip(i as int),
                rec.attrs@ == old(self).spans@[h as int].attrs@ + added.take(i as int),
                rec.name@ == old(self).spans@[h as int].name@,
                rec.parent == old(self).spans@[h as int].parent,
                rec.identity == old(self).spans@[h as int].identity,
            decreases n - i,
        {
            let f = fields.remove(0);
            rec.attrs.push(f);
            proof {
                assert(fields@ =~= added.skip(i + 1));
                assert(added.skip(i as int)[0] == added[i as int]);
                assert(rec.attrs@ =~= old(self).spans@[h as int].attrs@ + added.take(i + 1));
            }
            i += 1;
        }
        proof {
            assert(added.take(n as int) =~= added);
        }
        self.spans.insert(h, rec);
        proof {
            assert(forall|i: int|
                0 <= i < old(self).len() && i != h ==> final(self).spans@[i] == old(
                    self,
                ).spans@[i]);
        }
    }

    pub fn span_name(&self, h: usize) -> (r: &String)
        requires
            h < self.len(),
        ensures
            r@ == self.spans@[h as int].name@,
    {
        &self.spans[h].name
    }

    pub fn span_parent(&self, h: usize) -> (r: Option<usize>)
        requires
            h < self.len(),
        ensures
            r == self.spans@[h as int].parent,
    {
        match &self.spans[h].parent {
            Some(p) => Some(*p),
            None => None,
        }
    }

    /// Reads the extension bag of span `h`.
    pub fn span_identity(&self, h: usize) -> (r: Option<TraceIdentity>)
        requires
            h < self.len(),
        ensures
            r == self.spans@[h as int].identity,
    {
        match &self.spans[h].identity {
            Some(t) => Some(*t),
            None => None,
        }
    }

    pub fn span_attrs(&self, h: usize) -> (r: &Vec<Field>)
        requires
            h < self.len(),
        ensures
            r@ == self.spans@[h as int].attrs@,
    {
        &self.spans[h].attrs
    }

    /// The span tree's own identifier for span `h`.
    pub fn native_span_id(&self, h: usize) -> (r: u64)
        requires
            h < self.len(),
        ensures
            r == spec_native_id(h as int),
    {
        let n = self.spans.len();
        proof {
            assert(h < n);
        }
        let next = h + 1;
        next as u64
    }
}

} // verus!
