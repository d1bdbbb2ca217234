use vstd::prelude::*;

verus! {

/// A key/value annotation as contracts see it.
pub type FieldView = (Seq<char>, Seq<char>);

/// The view of a list of annotations.
pub open spec fn fields_view(f: Seq<(String, String)>) -> Seq<FieldView> {
    f.map_values(|p: (String, String)| (p.0@, p.1@))
}

/// The value under `key`: the one written last wins.
pub open spec fn lookup(f: Seq<FieldView>, key: Seq<char>) -> Option<Seq<char>>
    decreases f.len(),
{
    if f.len() == 0 {
        None
    } else if f.last().0 == key {
        Some(f.last().1)
    } else {
        lookup(f.drop_last(), key)
    }
}

pub open spec fn opt_view(o: Option<String>) -> Option<Seq<char>> {
    match o {
        Some(s) => Some(s@),
        None => None,
    }
}

/// Finds the value written last under `key`.
pub fn lookup_field(fields: &Vec<(String, String)>, key: &String) -> (r: Option<String>)
    ensures
        opt_view(r) == lookup(fields_view(fields@), key@),
{
    let mut i: usize = fields.len();
    assert(fields@.subrange(0, i as int) =~= fields@);
    while i > 0
        invariant
            i <= fields.len(),
            lookup(fields_view(fields@), key@) == lookup(fields_view(fields@.subrange(0, i as int)), key@),
        decreases i,
    {
        let ghost pre = fields_view(fields@.subrange(0, i as int));
        assert(pre.drop_last() =~= fields_view(fields@.subrange(0, i - 1)));
        if fields[i - 1].0 == *key {
            return Some(fields[i - 1].1.clone());
        }
        i = i - 1;
    }
    assert(fields_view(fields@.subrange(0, 0)) =~= Seq::<FieldView>::empty());
    None
}

/// A handle to one log sink of a [`LogStore`]. Copies alias the same sink.
#[derive(Clone, Copy, Debug, PartialEq, Eq, Structural)]
pub struct SharedLog {
    pub id: usize,
}

/// One line written through a log handle: its message and the annotations
/// that were in effect on the handle when it was written.
pub struct LogLine {
    pub message: String,
    pub fields: Vec<(String, String)>,
}

impl LogLine {
    /// The value of `key` on this line, if any.
    pub fn field(&self, key: &String) -> (r: Option<String>)
        ensures
            opt_view(r) == lookup(fields_view(self.fields@), key@),
    {
        lookup_field(&self.fields, key)
    }
}

/// The log sinks in use. Each sink holds the annotations written through its
/// handles; a fork starts a sink of its own from the static configuration.
pub struct LogStore {
    config: Vec<(String, String)>,
    sinks: Vec<Vec<(String, String)>>,
}

impl LogStore {
    /// The annotations of each sink, by handle id.
    pub closed spec fn view(&self) -> Seq<Seq<FieldView>> {
        self.sinks@.map_values(|s: Vec<(String, String)>| fields_view(s@))
    }

    /// The static configuration every fork starts from.
    pub closed spec fn config(&self) -> Seq<FieldView> {
        fields_view(self.config@)
    }

    pub open spec fn valid(&self, h: SharedLog) -> bool {
        h.id < self@.len()
    }

    fn clone_fields(f: &Vec<(String, String)>) -> (r: Vec<(String, String)>)
        ensures
            fields_view(r@) == fields_view(f@),
    {
        let mut r: Vec<(String, String)> = Vec::new();
        let mut i: usize = 0;
        while i < f.len()
            invariant
                i <= f.len(),
                fields_view(r@) =~= fields_view(f@.subrange(0, i as int)),
            decreases f.len() - i,
        {
            let k = f[i].0.clone();
            let v = f[i].1.clone();
            assert(k@ == f@[i as int].0@ && v@ == f@[i as int].1@);
            let ghost r0 = r@;
            r.push((k, v));
            assert(r@ =~= r0.push((k, v)));
            assert(f@.subrange(0, i + 1) =~= f@.subrange(0, i as int).push(f@[i as int]));
            assert(fields_view(r@) =~= fields_view(r0).push((k@, v@)));
            assert(fields_view(f@.subrange(0, i + 1)) =~= fields_view(f@.subrange(0, i as int)).push((k@, v@)));
            i = i + 1;
            assert(fields_view(r@) =~= fields_view(f@.subrange(0, i as int)));
        }
        assert(f@.subrange(0, f.len() as int) =~= f@);
        r
    }

    /// A store with one sink, the root, which starts from `config`.
    pub fn new(config: Vec<(String, String)>) -> (r: (LogStore, SharedLog))
        ensures
            r.0.config() == fields_view(config@),
            r.0@ == seq![fields_view(config@)],
            r.1.id == 0,
    {
        let root = Self::clone_fields(&config);
        let mut sinks: Vec<Vec<(String, String)>> = Vec::new();
        sinks.push(root);
        let store = LogStore { config, sinks };
        assert(store@ =~= seq![fields_view(store.config@)]);
        (store, SharedLog { id: 0 })
    }

    /// A handle to a new sink that starts from the static configuration and
    /// shares no later annotation with `h` or any other sink.
    pub fn fork(&mut self, h: SharedLog) -> (r: SharedLog)
        requires
            old(self).valid(h),
        ensures
            r.id == old(self)@.len(),
            r != h,
            final(self)@ == old(self)@.push(old(self).config()),
            final(self).config() == old(self).config(),
    {
        let fresh = Self::clone_fields(&self.config);
        self.sinks.push(fresh);
        assert(self@ =~= old(self)@.push(old(self).config()));
        SharedLog { id: self.sinks.len() - 1 }
    }

    /// A line written through `h` now: it carries the sink's annotations.
    pub fn line(&self, h: SharedLog, message: String) -> (r: LogLine)
        requires
            self.valid(h),
        ensures
            r.message@ == message@,
            fields_view(r.fields@) == self@[h.id as int],
    {
        LogLine { message, fields: Self::clone_fields(&self.sinks[h.id]) }
    }

    /// Annotates every later line of the sink behind `h` with `key` = `value`.
    pub fn set_field(&mut self, h: SharedLog, key: String, value: String)
        requires
            old(self).valid(h),
        ensures
            final(self)@ == old(self)@.update(h.id as int, old(self)@[h.id as int].push((key@, value@))),
            final(self).config() == old(self).config(),
    {
        let ghost kv = (key@, value@);
        let mut sink = Self::clone_fields(&self.sinks[h.id]);
        sink.push((key, value));
        assert(fields_view(sink@) =~= old(self)@[h.id as int].push(kv));
        self.sinks.set(h.id, sink);
        assert(self@ =~= old(self)@.update(h.id as int, old(self)@[h.id as int].push(kv)));
    }
}

} // verus!
