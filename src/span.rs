use vstd::prelude::*;

verus! {

/// A handle to one span of a [`SpanStore`].
#[derive(Clone, Copy, Debug, PartialEq, Eq, Structural)]
pub struct SharedSpan {
    pub id: usize,
}

/// A tracer that new root spans attach to in place of the production one.
#[derive(Clone, Copy, Debug, PartialEq, Eq, Structural)]
pub struct Tracer {
    pub id: u64,
}

/// A span as contracts see it: its name, the span it was created under, and
/// the tracer that was in effect.
pub type SpanView = (Seq<char>, Option<SharedSpan>, Option<Tracer>);

pub struct SpanRecord {
    pub name: String,
    pub parent: Option<SharedSpan>,
    pub tracer: Option<Tracer>,
}

/// The spans created so far, each linked to its parent, and the number of
/// test tracers handed out.
pub struct SpanStore {
    spans: Vec<SpanRecord>,
    tracers: u64,
}

impl SpanStore {
    pub closed spec fn view(&self) -> Seq<SpanView> {
        self.spans@.map_values(|s: SpanRecord| (s.name@, s.parent, s.tracer))
    }

    pub closed spec fn tracer_count(&self) -> nat {
        self.tracers as nat
    }

    pub open spec fn valid(&self, s: SharedSpan) -> bool {
        s.id < self@.len()
    }

    pub fn new() -> (r: SpanStore)
        ensures
            r@.len() == 0,
            r.tracer_count() == 0,
    {
        let r = SpanStore { spans: Vec::new(), tracers: 0 };
        assert(r@ =~= Seq::<SpanView>::empty());
        r
    }

    /// A tracer that no earlier call handed out.
    pub fn new_tracer(&mut self) -> (r: Tracer)
        requires
            old(self).tracer_count() < u64::MAX,
        ensures
            r.id == old(self).tracer_count(),
            final(self).tracer_count() == old(self).tracer_count() + 1,
            final(self)@ == old(self)@,
    {
        let t = Tracer { id: self.tracers };
        self.tracers = self.tracers + 1;
        t
    }

    /// Records a new span named `name` under `parent` (a root when absent).
    pub fn create_span(&mut self, name: &str, parent: Option<SharedSpan>, tracer: Option<Tracer>) -> (r: SharedSpan)
        ensures
            r.id == old(self)@.len(),
            final(self)@ == old(self)@.push((name@, parent, tracer)),
            final(self).tracer_count() == old(self).tracer_count(),
    {
        let rec = SpanRecord { name: name.to_owned(), parent, tracer };
        self.spans.push(rec);
        assert(self@ =~= old(self)@.push((name@, parent, tracer)));
        SharedSpan { id: self.spans.len() - 1 }
    }

    pub fn name(&self, s: SharedSpan) -> (r: &String)
        requires
            self.valid(s),
        ensures
            r@ == self@[s.id as int].0,
    {
        &self.spans[s.id].name
    }

    pub fn parent(&self, s: SharedSpan) -> (r: Option<SharedSpan>)
        requires
            self.valid(s),
        ensures
            r == self@[s.id as int].1,
    {
        self.spans[s.id].parent
    }

    pub fn tracer(&self, s: SharedSpan) -> (r: Option<Tracer>)
        requires
            self.valid(s),
        ensures
            r == self@[s.id as int].2,
    {
        self.spans[s.id].tracer
    }
}

} // verus!
