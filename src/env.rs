//! The environment model: an ordered mapping from variable names to values,
//! and the modifications that layers contribute to it.
use vstd::prelude::*;
use vstd::string::StringExecFns;

verus! {

/// An environment as a sequence of (name, value) pairs in insertion order.
pub type EnvView = Seq<(Seq<char>, Seq<char>)>;

pub open spec fn has_key(e: EnvView, k: Seq<char>) -> bool {
    exists|i: int| 0 <= i < e.len() && (#[trigger] e[i]).0 == k
}

/// The position of `k` in `e`; meaningful only where `has_key(e, k)`.
pub open spec fn key_index(e: EnvView, k: Seq<char>) -> int {
    choose|i: int| 0 <= i < e.len() && (#[trigger] e[i]).0 == k
}

/// No name occurs twice.
pub open spec fn keys_unique(e: EnvView) -> bool {
    forall|i: int, j: int|
        0 <= i < e.len() && 0 <= j < e.len() && (#[trigger] e[i]).0 == (#[trigger] e[j]).0 ==> i
            == j
}

/// The value bound to `k`, if any.
pub open spec fn lookup(e: EnvView, k: Seq<char>) -> Option<Seq<char>> {
    if has_key(e, k) {
        Some(e[key_index(e, k)].1)
    } else {
        None
    }
}

/// Binds `k` to `v`: in place where `k` is already bound, at the end otherwise.
pub open spec fn assign(e: EnvView, k: Seq<char>, v: Seq<char>) -> EnvView {
    if has_key(e, k) {
        e.update(key_index(e, k), (k, v))
    } else {
        e.push((k, v))
    }
}

/// An ordered mapping from variable names to values, each name at most once.
pub struct Env {
    entries: Vec<(String, String)>,
}

impl View for Env {
    type V = EnvView;

    closed spec fn view(&self) -> EnvView {
        self.entries@.map_values(|p: (String, String)| (p.0@, p.1@))
    }
}

impl Env {
    /// Well-formed: no name is bound twice.
    pub open spec fn wf(&self) -> bool {
        keys_unique(self@)
    }

    /// The empty environment.
    pub fn new() -> (r: Env)
        ensures
            r.wf(),
            r@ == Seq::<(Seq<char>, Seq<char>)>::empty(),
    {
        let r = Env { entries: Vec::new() };
        assert(r@ =~= Seq::<(Seq<char>, Seq<char>)>::empty());
        r
    }

    pub fn len(&self) -> (r: usize)
        ensures
            r == self@.len(),
    {
        self.entries.len()
    }

    /// The `i`-th binding, in insertion order.
    pub fn entry_at(&self, i: usize) -> (r: (&String, &String))
        requires
            i < self@.len(),
        ensures
            (r.0@, r.1@) == self@[i as int],
    {
        let p = &self.entries[i];
        (&p.0, &p.1)
    }

    fn position(&self, key: &String) -> (r: Option<usize>)
        requires
            self.wf(),
        ensures
            match r {
                Some(i) => i < self@.len() && has_key(self@, key@) && key_index(self@, key@)
                    == i,
                None => !has_key(self@, key@),
            },
    {
        let mut i: usize = 0;
        while i < self.entries.len()
            invariant
                0 <= i <= self.entries.len(),
                self.wf(),
                forall|j: int| 0 <= j < i ==> (#[trigger] self@[j]).0 != key@,
            decreases self.entries.len() - i,
        {
            let found = self.entries[i].0 == *key;
            if found {
                proof {
                    assert(self@[i as int] == (self.entries@[i as int].0@, self.entries@[i as int].1@));
                    assert(self@[i as int].0 == key@);
                    let j = key_index(self@, key@);
                    assert(self@[j].0 == self@[i as int].0);
                }
                return Some(i);
            }
            i = i + 1;
        }
        None
    }

    /// The value bound to `key`, if any.
    pub fn get(&self, key: &String) -> (r: Option<&String>)
        requires
            self.wf(),
        ensures
            match r {
                Some(v) => lookup(self@, key@) == Some(v@),
                None => lookup(self@, key@) is None,
            },
    {
        match self.position(key) {
            Some(i) => Some(&self.entries[i].1),
            None => None,
        }
    }

    /// Binds `key` to `value`, keeping the position of an existing binding.
    pub fn insert(&mut self, key: String, value: String)
        requires
            old(self).wf(),
        ensures
            final(self).wf(),
            final(self)@ == assign(old(self)@, key@, value@),
    {
        let ghost k = key@;
        let ghost v = value@;
        match self.position(&key) {
            Some(i) => {
                self.entries.set(i, (key, value));
                assert(self@ =~= assign(old(self)@, k, v));
            },
            None => {
                self.entries.push((key, value));
                assert(self@ =~= assign(old(self)@, k, v));
            },
        }
    }

    /// A copy of this environment; later changes to either leave the other alone.
    pub fn duplicate(&self) -> (r: Env)
        requires
            self.wf(),
        ensures
            r.wf(),
            r@ == self@,
    {
        let mut entries: Vec<(String, String)> = Vec::new();
        let mut i: usize = 0;
        while i < self.entries.len()
            invariant
                0 <= i <= self.entries.len(),
                entries@.len() == i,
                forall|j: int|
                    0 <= j < i ==> (#[trigger] entries@[j]).0@ == self.entries@[j].0@
                        && entries@[j].1@ == self.entries@[j].1@,
            decreases self.entries.len() - i,
        {
            let p = &self.entries[i];
            entries.push((p.0.clone(), p.1.clone()));
            i = i + 1;
        }
        let r = Env { entries };
        assert(r@ =~= self@);
        r
    }
}

/// How a modification combines its value with the current one.
#[derive(Clone, Copy, Debug, PartialEq, Eq, Structural)]
pub enum Operation {
    /// Replace the current value.
    Override,
    /// Put the value, then the delimiter, before the current value.
    Prepend,
    /// Put the delimiter, then the value, after the current value.
    Append,
    /// Set the value only where the variable is unset.
    Default,
}

/// The stages a modification is declared for.
#[derive(Clone, Copy, Debug, PartialEq, Eq, Structural)]
pub enum Scope {
    All,
    Build,
    Launch,
}

/// The point at which a composed environment is needed.
#[derive(Clone, Copy, Debug, PartialEq, Eq, Structural)]
pub enum Stage {
    Build,
    Launch,
}

/// The separator used by `Prepend` and `Append` when a modification names
/// none: values are joined as they stand.
pub open spec fn default_delimiter() -> Seq<char> {
    Seq::empty()
}

fn default_delimiter_string() -> (r: String)
    ensures
        r@ == default_delimiter(),
{
    String::new()
}

/// One modification of one variable, as a layer declares it.
pub struct EnvModification {
    pub variable: String,
    pub operation: Operation,
    pub delimiter: Option<String>,
    pub value: String,
    pub scope: Scope,
}

/// The mathematical content of an `EnvModification`.
pub struct ModificationView {
    pub variable: Seq<char>,
    pub operation: Operation,
    pub delimiter: Option<Seq<char>>,
    pub value: Seq<char>,
    pub scope: Scope,
}

impl View for EnvModification {
    type V = ModificationView;

    open spec fn view(&self) -> ModificationView {
        ModificationView {
            variable: self.variable@,
            operation: self.operation,
            delimiter: match self.delimiter {
                Some(d) => Some(d@),
                None => None,
            },
            value: self.value@,
            scope: self.scope,
        }
    }
}

/// Whether a modification declared for `scope` takes part in `stage`.
pub open spec fn applies_to(scope: Scope, stage: Stage) -> bool {
    match scope {
        Scope::All => true,
        Scope::Build => stage == Stage::Build,
        Scope::Launch => stage == Stage::Launch,
    }
}

pub open spec fn delimiter_of(m: ModificationView) -> Seq<char> {
    match m.delimiter {
        Some(d) => d,
        None => default_delimiter(),
    }
}

/// The value that `m` leaves on its variable, given the current one.
pub open spec fn modified_value(current: Option<Seq<char>>, m: ModificationView) -> Seq<char> {
    match m.operation {
        Operation::Override => m.value,
        Operation::Default => match current {
            Some(c) => c,
            None => m.value,
        },
        Operation::Prepend => match current {
            Some(c) => m.value + delimiter_of(m) + c,
            None => m.value,
        },
        Operation::Append => match current {
            Some(c) => c + delimiter_of(m) + m.value,
            None => m.value,
        },
    }
}

/// The environment after applying `m` to `e`.
pub open spec fn apply_spec(e: EnvView, m: ModificationView) -> EnvView {
    assign(e, m.variable, modified_value(lookup(e, m.variable), m))
}

impl Env {
    /// Applies `m` to this environment in place.
    pub fn modify(&mut self, m: &EnvModification)
        requires
            old(self).wf(),
        ensures
            final(self).wf(),
            final(self)@ == apply_spec(old(self)@, m@),
    {
        let delimiter: String = match &m.delimiter {
            Some(d) => d.clone(),
            None => default_delimiter_string(),
        };
        let new_value: String = match self.get(&m.variable) {
            None => m.value.clone(),
            Some(current) => match m.operation {
                Operation::Override => m.value.clone(),
                Operation::Default => current.clone(),
                Operation::Prepend => {
                    let mut s = m.value.clone();
                    s.append(delimiter.as_str());
                    s.append(current.as_str());
                    s
                },
                Operation::Append => {
                    let mut s = current.clone();
                    s.append(delimiter.as_str());
                    s.append(m.value.as_str());
                    s
                },
            },
        };
        self.insert(m.variable.clone(), new_value);
    }

    /// A new environment: this one with `m` applied. This one is left as it is.
    pub fn apply(&self, m: &EnvModification) -> (r: Env)
        requires
            self.wf(),
        ensures
            r.wf(),
            r@ == apply_spec(self@, m@),
    {
        let mut r = self.duplicate();
        r.modify(m);
        r
    }
}

} // verus!
