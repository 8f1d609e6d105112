//! Composition of the environment modifications of an ordered list of layers
//! into one environment, for one stage.
use vstd::prelude::*;

use crate::identifier::LayerName;
use crate::env::{
    applies_to, apply_spec, assign, delimiter_of, has_key, key_index, keys_unique, lookup,
    modified_value, Env, EnvModification, EnvView, ModificationView, Operation, Scope, Stage,
};

verus! {

/// The environment modifications that one layer declares, in order.
pub struct LayerEnv {
    pub modifications: Vec<EnvModification>,
}

impl View for LayerEnv {
    type V = Seq<ModificationView>;

    open spec fn view(&self) -> Seq<ModificationView> {
        self.modifications@.map_values(|m: EnvModification| m@)
    }
}

/// The views of a list of layers, in the same order.
pub open spec fn layers_view(layers: Seq<LayerEnv>) -> Seq<Seq<ModificationView>> {
    layers.map_values(|l: LayerEnv| l@)
}

/// `e` after the modifications of one layer that take part in `stage`, in order.
pub open spec fn apply_layer_spec(e: EnvView, mods: Seq<ModificationView>, stage: Stage) -> EnvView
    decreases mods.len(),
{
    if mods.len() == 0 {
        e
    } else {
        let prev = apply_layer_spec(e, mods.drop_last(), stage);
        if applies_to(mods.last().scope, stage) {
            apply_spec(prev, mods.last())
        } else {
            prev
        }
    }
}

/// `base` after each layer in turn, first to last.
pub open spec fn compose_spec(base: EnvView, layers: Seq<Seq<ModificationView>>, stage: Stage) -> EnvView
    decreases layers.len(),
{
    if layers.len() == 0 {
        base
    } else {
        apply_layer_spec(compose_spec(base, layers.drop_last(), stage), layers.last(), stage)
    }
}

/// Whether a modification declared for `scope` takes part in `stage`.
pub fn applies(scope: Scope, stage: Stage) -> (r: bool)
    ensures
        r == applies_to(scope, stage),
{
    match scope {
        Scope::All => true,
        Scope::Build => stage == Stage::Build,
        Scope::Launch => stage == Stage::Launch,
    }
}

impl LayerEnv {
    /// A layer that modifies nothing.
    pub fn new() -> (r: LayerEnv)
        ensures
            r@ == Seq::<ModificationView>::empty(),
    {
        let r = LayerEnv { modifications: Vec::new() };
        assert(r@ =~= Seq::<ModificationView>::empty());
        r
    }

    /// Adds `m` after the modifications already declared.
    pub fn push(&mut self, m: EnvModification)
        ensures
            final(self)@ == old(self)@.push(m@),
    {
        self.modifications.push(m);
        assert(self@ =~= old(self)@.push(m@));
    }

    /// A new environment: `env` after this layer's modifications for `stage`.
    pub fn apply(&self, stage: Stage, env: &Env) -> (r: Env)
        requires
            env.wf(),
        ensures
            r.wf(),
            r@ == apply_layer_spec(env@, self@, stage),
    {
        let mut out = env.duplicate();
        let mut i: usize = 0;
        while i < self.modifications.len()
            invariant
                i <= self.modifications.len(),
                out.wf(),
                out@ == apply_layer_spec(env@, self@.subrange(0, i as int), stage),
            decreases self.modifications.len() - i,
        {
            let m = &self.modifications[i];
            if applies(m.scope, stage) {
                out.modify(m);
            }
            assert(self@.subrange(0, i + 1).drop_last() =~= self@.subrange(0, i as int));
            i = i + 1;
        }
        assert(self@.subrange(0, i as int) =~= self@);
        out
    }
}

/// The environment for `stage`: `base` threaded through the modifications of
/// `layers` in their order. `base` is left as it is.
pub fn compose(base: &Env, layers: &Vec<LayerEnv>, stage: Stage) -> (r: Env)
    requires
        base.wf(),
    ensures
        r.wf(),
        r@ == compose_spec(base@, layers_view(layers@), stage),
{
    let ghost lv = layers_view(layers@);
    let mut out = base.duplicate();
    let mut i: usize = 0;
    while i < layers.len()
        invariant
            i <= layers.len(),
            lv == layers_view(layers@),
            out.wf(),
            out@ == compose_spec(base@, lv.subrange(0, i as int), stage),
        decreases layers.len() - i,
    {
        out = layers[i].apply(stage, &out);
        assert(lv.subrange(0, i + 1).drop_last() =~= lv.subrange(0, i as int));
        i = i + 1;
    }
    assert(lv.subrange(0, i as int) =~= lv);
    out
}

/// A layer name that was already declared in this build.
#[derive(Debug, Clone, PartialEq, Eq)]
pub struct DuplicateLayerError {
    pub name: String,
}

/// The layers of one build, in the order they were declared, with the
/// environment modifications of each. Names are unique.
pub struct BuildLayers {
    pub names: Vec<LayerName>,
    pub envs: Vec<LayerEnv>,
}

/// The names of `ns`, in order.
pub open spec fn names_view(ns: Seq<LayerName>) -> Seq<Seq<char>> {
    ns.map_values(|n: LayerName| n@)
}

impl BuildLayers {
    /// Well-formed: one environment per name, and no name twice.
    pub open spec fn wf(&self) -> bool {
        &&& self.names@.len() == self.envs@.len()
        &&& forall|i: int, j: int|
            0 <= i < self.names@.len() && 0 <= j < self.names@.len() && (#[trigger] self.names@[i])@
                == (#[trigger] self.names@[j])@ ==> i == j
    }

    /// No layers yet.
    pub fn new() -> (r: BuildLayers)
        ensures
            r.wf(),
            r.names@.len() == 0,
    {
        BuildLayers { names: Vec::new(), envs: Vec::new() }
    }

    /// Whether a layer named `name` was declared.
    pub fn is_declared(&self, name: &LayerName) -> (r: bool)
        ensures
            r == names_view(self.names@).contains(name@),
    {
        let mut i: usize = 0;
        while i < self.names.len()
            invariant
                0 <= i <= self.names.len(),
                forall|j: int| 0 <= j < i ==> (#[trigger] self.names@[j])@ != name@,
            decreases self.names.len() - i,
        {
            if self.names[i] == *name {
                proof {
                    assert(names_view(self.names@)[i as int] == name@);
                }
                return true;
            }
            i = i + 1;
        }
        proof {
            if names_view(self.names@).contains(name@) {
                let j = choose|j: int| 0 <= j < names_view(self.names@).len() && names_view(self.names@)[j] == name@;
                assert(self.names@[j]@ == name@);
            }
        }
        false
    }

    /// Declares the next layer. A name declared before is refused, and
    /// nothing changes.
    pub fn declare(&mut self, name: LayerName, env: LayerEnv) -> (r: Result<(), DuplicateLayerError>)
        requires
            old(self).wf(),
        ensures
            final(self).wf(),
            r is Ok <==> !names_view(old(self).names@).contains(name@),
            match r {
                Ok(()) => final(self).names@ == old(self).names@.push(name) && final(self).envs@
                    == old(self).envs@.push(env),
                Err(e) => e.name@ == name@ && final(self).names@ == old(self).names@
                    && final(self).envs@ == old(self).envs@,
            },
    {
        if self.is_declared(&name) {
            return Err(DuplicateLayerError { name: name.as_str().to_owned() });
        }
        let ghost before = self.names@;
        proof {
            assert forall|j: int| 0 <= j < before.len() implies (#[trigger] before[j])@ != name@ by {
                assert(names_view(before)[j] == before[j]@);
            }
        }
        self.names.push(name);
        self.envs.push(env);
        Ok(())
    }

    /// The environment for `stage`: `base` after every declared layer, in
    /// declaration order.
    pub fn environment(&self, base: &Env, stage: Stage) -> (r: Env)
        requires
            base.wf(),
        ensures
            r.wf(),
            r@ == compose_spec(base@, layers_view(self.envs@), stage),
    {
        compose(base, &self.envs, stage)
    }
}

/// Binding a name keeps the names unique.
pub proof fn lemma_assign_keeps_keys_unique(e: EnvView, k: Seq<char>, v: Seq<char>)
    requires
        keys_unique(e),
    ensures
        keys_unique(assign(e, k, v)),
{
    let r = assign(e, k, v);
    if has_key(e, k) {
        let idx = key_index(e, k);
        assert forall|i: int, j: int|
            0 <= i < r.len() && 0 <= j < r.len() && (#[trigger] r[i]).0 == (#[trigger] r[j]).0
            implies i == j by {
            assert(e[i].0 == r[i].0 && e[j].0 == r[j].0);
        }
    } else {
        assert forall|i: int, j: int|
            0 <= i < r.len() && 0 <= j < r.len() && (#[trigger] r[i]).0 == (#[trigger] r[j]).0
            implies i == j by {
            if i < e.len() && j < e.len() {
                assert(e[i].0 == r[i].0 && e[j].0 == r[j].0);
            } else if i < e.len() {
                assert(e[i].0 == k);
            } else if j < e.len() {
                assert(e[j].0 == k);
            }
        }
    }
}

/// After binding `k` to `v`, looking `k` up gives `v`.
pub proof fn lemma_lookup_assign(e: EnvView, k: Seq<char>, v: Seq<char>)
    requires
        keys_unique(e),
    ensures
        lookup(assign(e, k, v), k) == Some(v),
{
    lemma_assign_keeps_keys_unique(e, k, v);
    let r = assign(e, k, v);
    let idx = if has_key(e, k) {
        key_index(e, k)
    } else {
        e.len() as int
    };
    assert(r[idx].0 == k);
    assert(has_key(r, k));
    let j = key_index(r, k);
    assert(r[j].0 == r[idx].0);
}

/// Each layer keeps the names of the environment unique.
pub proof fn lemma_apply_layer_keeps_keys_unique(e: EnvView, mods: Seq<ModificationView>, stage: Stage)
    requires
        keys_unique(e),
    ensures
        keys_unique(apply_layer_spec(e, mods, stage)),
    decreases mods.len(),
{
    if mods.len() > 0 {
        lemma_apply_layer_keeps_keys_unique(e, mods.drop_last(), stage);
        let prev = apply_layer_spec(e, mods.drop_last(), stage);
        let m = mods.last();
        lemma_assign_keeps_keys_unique(prev, m.variable, modified_value(lookup(prev, m.variable), m));
    }
}

/// Composition keeps the names of the environment unique.
pub proof fn lemma_compose_keeps_keys_unique(base: EnvView, layers: Seq<Seq<ModificationView>>, stage: Stage)
    requires
        keys_unique(base),
    ensures
        keys_unique(compose_spec(base, layers, stage)),
    decreases layers.len(),
{
    if layers.len() > 0 {
        lemma_compose_keeps_keys_unique(base, layers.drop_last(), stage);
        lemma_apply_layer_keeps_keys_unique(compose_spec(base, layers.drop_last(), stage), layers.last(), stage);
    }
}

/// A modification for every stage of variable `x`.
pub open spec fn modification_for_all(x: Seq<char>, op: Operation, delimiter: Option<Seq<char>>, value: Seq<char>) -> ModificationView {
    ModificationView { variable: x, operation: op, delimiter, value, scope: Scope::All }
}

/// A layer whose one modification takes part in the stage acts as that modification.
pub proof fn lemma_single_modification_layer(e: EnvView, m: ModificationView, stage: Stage)
    requires
        applies_to(m.scope, stage),
    ensures
        apply_layer_spec(e, seq![m], stage) == apply_spec(e, m),
{
    let s = seq![m];
    assert(s.drop_last() =~= Seq::<ModificationView>::empty());
    assert(apply_layer_spec(e, s.drop_last(), stage) == e);
    assert(s.last() == m);
}

/// Appends accumulate in the order of the layers: with `x` bound to `b`, a
/// layer that appends `a` followed by one that appends `c`, both without a
/// delimiter, leave `x` bound to `b`, `a`, `c` joined in that order. Layers
/// declared the other way round give `b`, `c`, `a`.
pub proof fn lemma_appends_follow_layer_order(e: EnvView, x: Seq<char>, b: Seq<char>, a: Seq<char>, c: Seq<char>, stage: Stage)
    requires
        keys_unique(e),
        lookup(e, x) == Some(b),
    ensures
        lookup(
            compose_spec(
                e,
                seq![
                    seq![modification_for_all(x, Operation::Append, None, a)],
                    seq![modification_for_all(x, Operation::Append, None, c)],
                ],
                stage,
            ),
            x,
        ) == Some(b + a + c),
        lookup(
            compose_spec(
                e,
                seq![
                    seq![modification_for_all(x, Operation::Append, None, c)],
                    seq![modification_for_all(x, Operation::Append, None, a)],
                ],
                stage,
            ),
            x,
        ) == Some(b + c + a),
{
    let ma = modification_for_all(x, Operation::Append, None, a);
    let mc = modification_for_all(x, Operation::Append, None, c);
    let la = seq![ma];
    let lc = seq![mc];
    assert(delimiter_of(ma) + a =~= a);
    assert(delimiter_of(mc) + c =~= c);
    lemma_single_modification_layer(e, ma, stage);
    lemma_single_modification_layer(e, mc, stage);
    let ea = apply_spec(e, ma);
    let ec = apply_spec(e, mc);
    lemma_lookup_assign(e, x, b + a);
    lemma_lookup_assign(e, x, b + c);
    assert(b + delimiter_of(ma) + a =~= b + a);
    assert(b + delimiter_of(mc) + c =~= b + c);
    lemma_assign_keeps_keys_unique(e, x, b + a);
    lemma_assign_keeps_keys_unique(e, x, b + c);
    lemma_single_modification_layer(ea, mc, stage);
    lemma_single_modification_layer(ec, ma, stage);
    lemma_lookup_assign(ea, x, b + a + c);
    lemma_lookup_assign(ec, x, b + c + a);
    assert(b + a + delimiter_of(mc) + c =~= b + a + c);
    assert(b + c + delimiter_of(ma) + a =~= b + c + a);
    let ab = seq![la, lc];
    let ba = seq![lc, la];
    assert(ab.drop_last() =~= seq![la]);
    assert(ab.drop_last().drop_last() =~= Seq::<Seq<ModificationView>>::empty());
    assert(ba.drop_last() =~= seq![lc]);
    assert(ba.drop_last().drop_last() =~= Seq::<Seq<ModificationView>>::empty());
    assert(compose_spec(e, Seq::<Seq<ModificationView>>::empty(), stage) == e);
    assert(seq![la].drop_last() =~= Seq::<Seq<ModificationView>>::empty());
    assert(seq![lc].drop_last() =~= Seq::<Seq<ModificationView>>::empty());
    assert(compose_spec(e, seq![la], stage) == ea);
    assert(compose_spec(e, seq![lc], stage) == ec);
    assert(compose_spec(e, ab, stage) == apply_layer_spec(ea, lc, stage));
    assert(compose_spec(e, ba, stage) == apply_layer_spec(ec, la, stage));
}

/// An override resets what earlier layers accumulated: after any layers, a
/// layer that overrides `x` with `v1` followed by one that appends `v2` with
/// delimiter `d` leave `x` bound to `v1`, `d`, `v2`, whatever came before.
pub proof fn lemma_override_resets_accumulation(
    base: EnvView,
    earlier: Seq<Seq<ModificationView>>,
    x: Seq<char>,
    v1: Seq<char>,
    v2: Seq<char>,
    d: Seq<char>,
    stage: Stage,
)
    requires
        keys_unique(base),
    ensures
        lookup(
            compose_spec(
                base,
                earlier + seq![
                    seq![modification_for_all(x, Operation::Override, None, v1)],
                    seq![modification_for_all(x, Operation::Append, Some(d), v2)],
                ],
                stage,
            ),
            x,
        ) == Some(v1 + d + v2),
{
    let mo = modification_for_all(x, Operation::Override, None, v1);
    let mp = modification_for_all(x, Operation::Append, Some(d), v2);
    let all = earlier + seq![seq![mo], seq![mp]];
    assert(all.drop_last() =~= earlier.push(seq![mo]));
    assert(all.drop_last().drop_last() =~= earlier);
    lemma_compose_keeps_keys_unique(base, earlier, stage);
    let e0 = compose_spec(base, earlier, stage);
    lemma_single_modification_layer(e0, mo, stage);
    lemma_lookup_assign(e0, x, v1);
    lemma_assign_keeps_keys_unique(e0, x, v1);
    let e1 = apply_spec(e0, mo);
    lemma_single_modification_layer(e1, mp, stage);
    lemma_lookup_assign(e1, x, v1 + d + v2);
    assert(lookup(e1, x) == Some(v1));
    assert(modified_value(lookup(e1, x), mp) == v1 + d + v2);
    assert(compose_spec(base, all.drop_last(), stage) == e1);
    assert(compose_spec(base, all, stage) == apply_spec(e1, mp));
}

} // verus!
