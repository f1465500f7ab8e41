use vstd::prelude::*;

verus! {

/// A value that may sit inside a nested mapping of the render context.
pub enum LeafValue {
    /// A single string.
    Str(String),
    /// A sequence of strings.
    Lines(Vec<String>),
}

/// The mathematical value of a [`LeafValue`].
pub enum LeafVal {
    Str(Seq<char>),
    Lines(Seq<Seq<char>>),
}

/// A value bound to a top-level key of the render context: a string, a
/// sequence of strings, or a one-level nested mapping.
pub enum ContextValue {
    /// A single string.
    Str(String),
    /// A sequence of strings.
    Lines(Vec<String>),
    /// A nested mapping, kept in insertion order.
    Nested(Vec<(String, LeafValue)>),
}

/// The mathematical value of a [`ContextValue`].
pub enum CtxVal {
    Str(Seq<char>),
    Lines(Seq<Seq<char>>),
    Nested(Seq<(Seq<char>, LeafVal)>),
}

impl View for LeafValue {
    type V = LeafVal;

    open spec fn view(&self) -> LeafVal {
        match self {
            LeafValue::Str(s) => LeafVal::Str(s@),
            LeafValue::Lines(ls) => LeafVal::Lines(ls.deep_view()),
        }
    }
}

impl View for ContextValue {
    type V = CtxVal;

    open spec fn view(&self) -> CtxVal {
        match self {
            ContextValue::Str(s) => CtxVal::Str(s@),
            ContextValue::Lines(ls) => CtxVal::Lines(ls.deep_view()),
            ContextValue::Nested(ps) => CtxVal::Nested(
                ps@.map_values(|p: (String, LeafValue)| (p.0@, p.1@)),
            ),
        }
    }
}

/// The key/value data handed to every template at render time.
///
/// Bindings are kept in insertion order; a lookup returns the most
/// recent binding of a key, so a later insertion of an existing key
/// wins. The composition engine only ever adds the keys `license` and
/// `reuse`, which a well-behaved kind does not use itself.
pub struct RenderContext {
    entries: Vec<(String, ContextValue)>,
}

/// The most recent binding of `key` in `entries`, if any.
pub open spec fn ctx_find(entries: Seq<(Seq<char>, CtxVal)>, key: Seq<char>) -> Option<CtxVal>
    decreases entries.len(),
{
    if entries.len() == 0 {
        None
    } else if entries.last().0 == key {
        Some(entries.last().1)
    } else {
        ctx_find(entries.drop_last(), key)
    }
}

impl View for RenderContext {
    type V = Seq<(Seq<char>, CtxVal)>;

    closed spec fn view(&self) -> Seq<(Seq<char>, CtxVal)> {
        self.entries@.map_values(|p: (String, ContextValue)| (p.0@, p.1@))
    }
}

impl RenderContext {
    /// An empty context.
    pub fn new() -> (r: RenderContext)
        ensures
            r@ == Seq::<(Seq<char>, CtxVal)>::empty(),
    {
        let r = RenderContext { entries: Vec::new() };
        proof {
            assert(r@ =~= Seq::<(Seq<char>, CtxVal)>::empty());
        }
        r
    }

    /// Binds `key` to `value`; a later binding of the same key wins.
    pub fn insert(&mut self, key: String, value: ContextValue)
        ensures
            final(self)@ == old(self)@.push((key@, value@)),
    {
        let ghost old_entries = self.entries@;
        let ghost pair_view = (key@, value@);
        self.entries.push((key, value));
        proof {
            assert(self@ =~= old_entries.map_values(
                |p: (String, ContextValue)| (p.0@, p.1@),
            ).push(pair_view));
        }
    }

    /// How many bindings the context holds.
    pub fn len(&self) -> (n: usize)
        ensures
            n == self@.len(),
    {
        self.entries.len()
    }

    /// The binding at position `i`, in insertion order.
    pub fn entry_at(&self, i: usize) -> (p: &(String, ContextValue))
        requires
            i < self@.len(),
        ensures
            (self@[i as int] == (p.0@, p.1@)),
    {
        &self.entries[i]
    }

    /// The most recent binding of `key`, if any.
    pub fn get(&self, key: &String) -> (r: Option<&ContextValue>)
        ensures
            (match r {
                Some(v) => ctx_find(self@, key@) == Some(v@),
                None => ctx_find(self@, key@) is None,
            }),
    {
        let mut j: usize = self.entries.len();
        proof {
            assert(self@.subrange(0, j as int) =~= self@);
        }
        while j > 0
            invariant
                j <= self.entries.len(),
                self@.len() == self.entries.len(),
                ctx_find(self@, key@) == ctx_find(self@.subrange(0, j as int), key@),
            decreases j,
        {
            let ghost prefix = self@.subrange(0, j as int);
            proof {
                assert(prefix.last() == self@[j - 1]);
                assert(self@[j - 1].0 == self.entries@[j - 1].0@);
                assert(prefix.drop_last() =~= self@.subrange(0, j as int - 1));
            }
            if self.entries[j - 1].0.eq(key) {
                return Some(&self.entries[j - 1].1);
            }
            j -= 1;
        }
        proof {
            assert(self@.subrange(0, 0) =~= Seq::<(Seq<char>, CtxVal)>::empty());
        }
        None
    }
}

} // verus!
