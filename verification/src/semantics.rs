//! The semantics of a generated API: what instance the constructor
//! builds, and how each chainable method changes it. The generated code
//! itself is spliced into the host program by a collaborator; this module
//! gives the synthesized declarations their meaning, so that the
//! behaviour of generated builders is a proved property of the pipeline.
//! A convertible parameter differs from an exact one only in the host
//! type accepted at the call site, never in the value stored, so the
//! semantics binds argument values directly.

use vstd::prelude::*;

use crate::classify::{name_is, TypeCategory};
use crate::schema::{value_dup, value_eq, Value, ValueV};
use crate::seqs::lemma_map_values_push;
use crate::synth::{ApiModel, GeneratedApi, MethodSpec, MethodSpecV, MutationKind, OptionalInit, OptionalInitV};

verus! {

/// The stored content of one field of an instance under construction:
/// a plain value, an optional slot, or one of the container shapes.
#[derive(Debug, PartialEq, Eq)]
pub enum FieldState {
    /// A scalar or reference field: one value, overwritten whole.
    Single(Value),
    /// An optional field: absent, or present with a value.
    Optional(Option<Value>),
    /// A sequence field: values in insertion order.
    Sequence(Vec<Value>),
    /// A map field: key/value entries, one per distinct key, in first
    /// insertion order of the keys.
    MapEntries(Vec<(Value, Value)>),
    /// A set field: distinct values in first insertion order.
    SetElems(Vec<Value>),
}

/// The model of a [`FieldState`], over value models.
#[verifier::ext_equal]
pub enum StateModel {
    Single(ValueV),
    Optional(Option<ValueV>),
    Sequence(Seq<ValueV>),
    MapEntries(Seq<(ValueV, ValueV)>),
    SetElems(Seq<ValueV>),
}

/// The models of a sequence of values.
pub open spec fn vals(s: Seq<Value>) -> Seq<ValueV> {
    s.map_values(|v: Value| v@)
}

/// The models of a sequence of key/value entries.
pub open spec fn entry_models(s: Seq<(Value, Value)>) -> Seq<(ValueV, ValueV)> {
    s.map_values(|p: (Value, Value)| (p.0@, p.1@))
}

impl View for FieldState {
    type V = StateModel;

    open spec fn view(&self) -> StateModel {
        match self {
            FieldState::Single(v) => StateModel::Single(v@),
            FieldState::Optional(o) => StateModel::Optional(
                match o {
                    Some(v) => Some(v@),
                    None => None,
                },
            ),
            FieldState::Sequence(s) => StateModel::Sequence(vals(s@)),
            FieldState::MapEntries(es) => StateModel::MapEntries(entry_models(es@)),
            FieldState::SetElems(es) => StateModel::SetElems(vals(es@)),
        }
    }
}

/// One named field of an instance under construction.
#[derive(Debug, PartialEq, Eq)]
pub struct FieldBinding {
    pub name: String,
    pub state: FieldState,
}

/// The model of a [`FieldBinding`].
#[verifier::ext_equal]
pub struct BindingV {
    pub name: Seq<char>,
    pub state: StateModel,
}

impl View for FieldBinding {
    type V = BindingV;

    open spec fn view(&self) -> BindingV {
        BindingV { name: self.name@, state: self.state@ }
    }
}

/// An instance under construction: the required fields first, in
/// declaration order, then the optional fields, in declaration order.
#[derive(Debug, PartialEq, Eq)]
pub struct Instance {
    pub fields: Vec<FieldBinding>,
}

impl View for Instance {
    type V = Seq<BindingV>;

    open spec fn view(&self) -> Seq<BindingV> {
        self.fields@.map_values(|b: FieldBinding| b@)
    }
}

/// The zero/default construction of a field of the given shape: an empty
/// container, an absent option, or the type's zero value.
pub open spec fn spec_zero_state(category: TypeCategory, zero: ValueV) -> StateModel {
    match category {
        TypeCategory::OptionShape => StateModel::Optional(None),
        TypeCategory::SequenceShape => StateModel::Sequence(Seq::empty()),
        TypeCategory::MapShape => StateModel::MapEntries(Seq::empty()),
        TypeCategory::SetShape => StateModel::SetElems(Seq::empty()),
        _ => StateModel::Single(zero),
    }
}

/// What the constructor stores in one optional field: the declared
/// default expression verbatim if one was given, and otherwise the
/// zero/default construction of the field's shape.
pub open spec fn spec_initial_state(oi: OptionalInitV) -> StateModel {
    match oi.default {
        Some(d) => StateModel::Single(d),
        None => spec_zero_state(oi.category, oi.zero),
    }
}

/// The instance the generated constructor builds from the required
/// fields' values: each required field holds its argument, and each
/// optional field holds its initial state.
pub open spec fn spec_construct(m: ApiModel, argvs: Seq<ValueV>) -> Seq<BindingV> {
    Seq::new(
        m.ctor.params.len(),
        |i: int| BindingV { name: m.ctor.params[i].name, state: StateModel::Single(argvs[i]) },
    ) + m.ctor.inits.map_values(
        |oi: OptionalInitV| BindingV { name: oi.field, state: spec_initial_state(oi) },
    )
}

/// Whether some entry of the map has the given key.
pub open spec fn has_key(es: Seq<(ValueV, ValueV)>, k: ValueV) -> bool {
    exists|i: int| 0 <= i < es.len() && (#[trigger] es[i]).0 == k
}

/// The first index of the entry with the given key, or the number of
/// entries if the key is absent.
pub open spec fn first_key_idx(es: Seq<(ValueV, ValueV)>, k: ValueV) -> int
    decreases es.len(),
{
    if es.len() == 0 {
        0
    } else if es[0].0 == k {
        0
    } else {
        1 + first_key_idx(es.drop_first(), k)
    }
}

/// The characterization of [`first_key_idx`], and its agreement with
/// [`has_key`].
pub proof fn lemma_first_key_idx(es: Seq<(ValueV, ValueV)>, k: ValueV)
    ensures
        0 <= first_key_idx(es, k) <= es.len(),
        forall|j: int| 0 <= j < first_key_idx(es, k) ==> (#[trigger] es[j]).0 != k,
        first_key_idx(es, k) < es.len() ==> es[first_key_idx(es, k)].0 == k,
        has_key(es, k) == (first_key_idx(es, k) < es.len()),
    decreases es.len(),
{
    if es.len() == 0 {
    } else if es[0].0 == k {
    } else {
        lemma_first_key_idx(es.drop_first(), k);
        assert forall|j: int| 0 <= j < first_key_idx(es, k) implies (#[trigger] es[j]).0 != k by {
            if j > 0 {
                assert(es.drop_first()[j - 1] == es[j]);
            }
        }
        if first_key_idx(es, k) < es.len() {
            assert(es.drop_first()[first_key_idx(es.drop_first(), k)] == es[first_key_idx(es, k)]);
        }
        assert(has_key(es.drop_first(), k) == has_key(es, k)) by {
            if has_key(es.drop_first(), k) {
                let w = choose|i: int|
                    0 <= i < es.drop_first().len() && (#[trigger] es.drop_first()[i]).0 == k;
                assert(es[w + 1].0 == k);
            }
            if has_key(es, k) {
                let w = choose|i: int| 0 <= i < es.len() && (#[trigger] es[i]).0 == k;
                assert(es.drop_first()[w - 1].0 == k);
            }
        }
    }
}

/// Keyed insertion: overwrite the entry for a key that is present, and
/// append the entry for a key that is not.
pub open spec fn spec_map_insert(es: Seq<(ValueV, ValueV)>, k: ValueV, v: ValueV) -> Seq<
    (ValueV, ValueV),
> {
    if has_key(es, k) {
        es.update(first_key_idx(es, k), (k, v))
    } else {
        es.push((k, v))
    }
}

/// Unique insertion: a value that is already present leaves the set
/// unchanged, and one that is not is appended.
pub open spec fn spec_set_insert(es: Seq<ValueV>, v: ValueV) -> Seq<ValueV> {
    if es.contains(v) {
        es
    } else {
        es.push(v)
    }
}

/// What one method invocation does to the state of its field, given the
/// method's mutation kind and argument values: the overwrite kinds
/// replace, append extends in call order, keyed insertion keeps one entry
/// per distinct key, and unique insertion ignores duplicates. A state or
/// argument list that does not fit the kind yields nothing; under an API
/// this pipeline generated, that never happens to a constructed instance.
pub open spec fn spec_apply_mutation(
    kind: MutationKind,
    st: StateModel,
    argvs: Seq<ValueV>,
) -> Option<StateModel> {
    match kind {
        MutationKind::Overwrite => {
            if st is Single && argvs.len() == 1 {
                Some(StateModel::Single(argvs[0]))
            } else {
                None
            }
        },
        MutationKind::WrapOptional => {
            if st is Optional && argvs.len() == 1 {
                Some(StateModel::Optional(Some(argvs[0])))
            } else {
                None
            }
        },
        MutationKind::Append => {
            if st is Sequence && argvs.len() == 1 {
                Some(StateModel::Sequence(st->Sequence_0.push(argvs[0])))
            } else {
                None
            }
        },
        MutationKind::InsertKeyed => {
            if st is MapEntries && argvs.len() == 2 {
                Some(StateModel::MapEntries(spec_map_insert(st->MapEntries_0, argvs[0], argvs[1])))
            } else {
                None
            }
        },
        MutationKind::InsertUnique => {
            if st is SetElems && argvs.len() == 1 {
                Some(StateModel::SetElems(spec_set_insert(st->SetElems_0, argvs[0])))
            } else {
                None
            }
        },
    }
}

/// The first method of the API with the given name, or the number of
/// methods if none has it.
pub open spec fn spec_find_method(ms: Seq<MethodSpecV>, name: Seq<char>) -> int
    decreases ms.len(),
{
    if ms.len() == 0 {
        0
    } else if ms[0].name == name {
        0
    } else {
        1 + spec_find_method(ms.drop_first(), name)
    }
}

/// The characterization of [`spec_find_method`].
pub proof fn lemma_find_method(ms: Seq<MethodSpecV>, name: Seq<char>)
    ensures
        0 <= spec_find_method(ms, name) <= ms.len(),
        forall|j: int| 0 <= j < spec_find_method(ms, name) ==> (#[trigger] ms[j]).name != name,
        spec_find_method(ms, name) < ms.len() ==> ms[spec_find_method(ms, name)].name == name,
    decreases ms.len(),
{
    if ms.len() == 0 {
    } else if ms[0].name == name {
    } else {
        lemma_find_method(ms.drop_first(), name);
        assert forall|j: int| 0 <= j < spec_find_method(ms, name) implies (#[trigger] ms[j]).name
            != name by {
            if j > 0 {
                assert(ms.drop_first()[j - 1] == ms[j]);
            }
        }
        if spec_find_method(ms, name) < ms.len() {
            assert(ms.drop_first()[spec_find_method(ms.drop_first(), name)] == ms[spec_find_method(
                ms,
                name,
            )]);
        }
    }
}

/// The first field of the instance with the given name, or the number of
/// fields if none has it.
pub open spec fn spec_find_field(inst: Seq<BindingV>, name: Seq<char>) -> int
    decreases inst.len(),
{
    if inst.len() == 0 {
        0
    } else if inst[0].name == name {
        0
    } else {
        1 + spec_find_field(inst.drop_first(), name)
    }
}

/// The characterization of [`spec_find_field`].
pub proof fn lemma_find_field(inst: Seq<BindingV>, name: Seq<char>)
    ensures
        0 <= spec_find_field(inst, name) <= inst.len(),
        forall|j: int| 0 <= j < spec_find_field(inst, name) ==> (#[trigger] inst[j]).name != name,
        spec_find_field(inst, name) < inst.len() ==> inst[spec_find_field(inst, name)].name
            == name,
    decreases inst.len(),
{
    if inst.len() == 0 {
    } else if inst[0].name == name {
    } else {
        lemma_find_field(inst.drop_first(), name);
        assert forall|j: int| 0 <= j < spec_find_field(inst, name) implies (#[trigger] inst[j]).name
            != name by {
            if j > 0 {
                assert(inst.drop_first()[j - 1] == inst[j]);
            }
        }
        if spec_find_field(inst, name) < inst.len() {
            assert(inst.drop_first()[spec_find_field(inst.drop_first(), name)] == inst[
                spec_find_field(inst, name)]);
        }
    }
}

/// What invoking a method by name does to an instance: the first method
/// with that name is looked up, its field is found, and its mutation is
/// applied to that field's state; anything that does not fit yields
/// nothing.
pub open spec fn spec_invoke(
    m: ApiModel,
    inst: Seq<BindingV>,
    name: Seq<char>,
    argvs: Seq<ValueV>,
) -> Option<Seq<BindingV>> {
    let mi = spec_find_method(m.methods, name);
    if mi >= m.methods.len() {
        None
    } else {
        let ms = m.methods[mi];
        if argvs.len() != ms.params.len() {
            None
        } else {
            let fi = spec_find_field(inst, ms.field);
            if fi >= inst.len() {
                None
            } else {
                match spec_apply_mutation(ms.mutation, inst[fi].state, argvs) {
                    None => None,
                    Some(st) => Some(
                        inst.update(fi, BindingV { name: inst[fi].name, state: st }),
                    ),
                }
            }
        }
    }
}

/// Builds the initial state of one optional field.
fn initial_state(oi: &OptionalInit) -> (s: FieldState)
    ensures
        s@ == spec_initial_state(oi@),
{
    match &oi.default {
        Some(d) => FieldState::Single(value_dup(d)),
        None => match oi.category {
            TypeCategory::OptionShape => FieldState::Optional(None),
            TypeCategory::SequenceShape => {
                let s = FieldState::Sequence(Vec::new());
                proof {
                    assert(vals(Seq::empty()) =~= Seq::empty());
                }
                s
            },
            TypeCategory::MapShape => {
                let s = FieldState::MapEntries(Vec::new());
                proof {
                    assert(entry_models(Seq::empty()) =~= Seq::empty());
                }
                s
            },
            TypeCategory::SetShape => {
                let s = FieldState::SetElems(Vec::new());
                proof {
                    assert(vals(Seq::empty()) =~= Seq::empty());
                }
                s
            },
            _ => FieldState::Single(value_dup(&oi.zero)),
        },
    }
}

/// Runs the generated constructor: the arguments are the required
/// fields' values, in declaration order, and the result holds every
/// field of the record, the required fields bound to the arguments and
/// the optional fields to their initial states.
pub fn construct(api: &GeneratedApi, args: Vec<Value>) -> (inst: Instance)
    requires
        args@.len() == api.ctor.params@.len(),
    ensures
        inst@ == spec_construct(api@, vals(args@)),
{
    let ghost argvs = vals(args@);
    let mut fields: Vec<FieldBinding> = Vec::new();
    let mut rest = args;
    let mut i: usize = 0;
    proof {
        assert(fields@.map_values(|b: FieldBinding| b@) =~= Seq::new(
            0nat,
            |j: int| BindingV {
                name: api@.ctor.params[j].name,
                state: StateModel::Single(argvs[j]),
            },
        ));
        assert(rest@ =~= args@.subrange(0, args@.len() as int));
    }
    #[verifier::loop_isolation(false)]
    while i < api.ctor.params.len()
        invariant
            0 <= i <= api.ctor.params@.len(),
            rest@ == args@.subrange(i as int, args@.len() as int),
            fields@.map_values(|b: FieldBinding| b@) == Seq::new(
                i as nat,
                |j: int| BindingV {
                    name: api@.ctor.params[j].name,
                    state: StateModel::Single(argvs[j]),
                },
            ),
        decreases api.ctor.params@.len() - i,
    {
        let ghost fv = fields@;
        let ghost restv = rest@;
        let v = rest.remove(0);
        let b = FieldBinding {
            name: api.ctor.params[i].name.clone(),
            state: FieldState::Single(v),
        };
        fields.push(b);
        proof {
            assert(rest@ =~= args@.subrange((i + 1) as int, args@.len() as int));
            assert(v == args@[i as int]);
            lemma_map_values_push(fv, b, |b: FieldBinding| b@);
            assert(fields@.map_values(|b: FieldBinding| b@) =~= Seq::new(
                (i + 1) as nat,
                |j: int| BindingV {
                    name: api@.ctor.params[j].name,
                    state: StateModel::Single(argvs[j]),
                },
            ));
        }
        i = i + 1;
    }
    let mut k: usize = 0;
    proof {
        assert(api@.ctor.inits.subrange(0, 0).map_values(
            |oi: OptionalInitV| BindingV { name: oi.field, state: spec_initial_state(oi) },
        ) =~= Seq::<BindingV>::empty());
        assert(fields@.map_values(|b: FieldBinding| b@) =~= Seq::new(
            api.ctor.params@.len(),
            |j: int| BindingV {
                name: api@.ctor.params[j].name,
                state: StateModel::Single(argvs[j]),
            },
        ) + api@.ctor.inits.subrange(0, 0).map_values(
            |oi: OptionalInitV| BindingV { name: oi.field, state: spec_initial_state(oi) },
        ));
    }
    #[verifier::loop_isolation(false)]
    while k < api.ctor.inits.len()
        invariant
            0 <= k <= api.ctor.inits@.len(),
            fields@.map_values(|b: FieldBinding| b@) == Seq::new(
                api.ctor.params@.len(),
                |j: int| BindingV {
                    name: api@.ctor.params[j].name,
                    state: StateModel::Single(argvs[j]),
                },
            ) + api@.ctor.inits.subrange(0, k as int).map_values(
                |oi: OptionalInitV| BindingV { name: oi.field, state: spec_initial_state(oi) },
            ),
        decreases api.ctor.inits@.len() - k,
    {
        let ghost fv = fields@;
        let oi = &api.ctor.inits[k];
        let b = FieldBinding { name: oi.field.clone(), state: initial_state(oi) };
        fields.push(b);
        proof {
            lemma_map_values_push(fv, b, |b: FieldBinding| b@);
            assert(api@.ctor.inits.subrange(0, (k + 1) as int) =~= api@.ctor.inits.subrange(
                0,
                k as int,
            ).push(api@.ctor.inits[k as int]));
            lemma_map_values_push(
                api@.ctor.inits.subrange(0, k as int),
                api@.ctor.inits[k as int],
                |oi: OptionalInitV| BindingV { name: oi.field, state: spec_initial_state(oi) },
            );
            assert(b@ == BindingV {
                name: api@.ctor.inits[k as int].field,
                state: spec_initial_state(api@.ctor.inits[k as int]),
            });
            assert(fields@.map_values(|b: FieldBinding| b@) =~= Seq::new(
                api.ctor.params@.len(),
                |j: int| BindingV {
                    name: api@.ctor.params[j].name,
                    state: StateModel::Single(argvs[j]),
                },
            ) + api@.ctor.inits.subrange(0, (k + 1) as int).map_values(
                |oi: OptionalInitV| BindingV { name: oi.field, state: spec_initial_state(oi) },
            ));
        }
        k = k + 1;
    }
    let inst = Instance { fields };
    proof {
        assert(api@.ctor.inits.subrange(0, api@.ctor.inits.len() as int) =~= api@.ctor.inits);
        assert(inst@ =~= spec_construct(api@, argvs));
    }
    inst
}

/// Applies keyed insertion to a map field's entries.
fn map_insert(es: Vec<(Value, Value)>, k: Value, v: Value) -> (r: Vec<(Value, Value)>)
    ensures
        entry_models(r@) == spec_map_insert(entry_models(es@), k@, v@),
{
    let ghost esv = entry_models(es@);
    let mut es = es;
    let mut i: usize = 0;
    proof {
        lemma_first_key_idx(esv, k@);
    }
    #[verifier::loop_isolation(false)]
    while i < es.len()
        invariant
            0 <= i <= es@.len(),
            entry_models(es@) == esv,
            forall|j: int| 0 <= j < i ==> (#[trigger] esv[j]).0 != k@,
        decreases es@.len() - i,
    {
        if value_eq(&es[i].0, &k) {
            proof {
                assert(esv[i as int] == (es@[i as int].0@, es@[i as int].1@));
                assert(esv[i as int].0 == k@);
                assert(first_key_idx(esv, k@) == i);
                assert(has_key(esv, k@));
            }
            let ghost before = es@;
            let _ = es.remove(i);
            es.insert(i, (k, v));
            proof {
                assert(es@ =~= before.update(i as int, (k, v)));
                assert(entry_models(es@) =~= esv.update(i as int, (k@, v@)));
            }
            return es;
        }
        i = i + 1;
    }
    proof {
        assert(first_key_idx(esv, k@) >= esv.len());
        assert(!has_key(esv, k@));
    }
    let ghost before = es@;
    es.push((k, v));
    proof {
        lemma_map_values_push(before, (k, v), |p: (Value, Value)| (p.0@, p.1@));
    }
    es
}

/// Applies unique insertion to a set field's elements.
fn set_insert(es: Vec<Value>, v: Value) -> (r: Vec<Value>)
    ensures
        vals(r@) == spec_set_insert(vals(es@), v@),
{
    let ghost esv = vals(es@);
    let mut es = es;
    let mut i: usize = 0;
    #[verifier::loop_isolation(false)]
    while i < es.len()
        invariant
            0 <= i <= es@.len(),
            vals(es@) == esv,
            forall|j: int| 0 <= j < i ==> esv[j] != v@,
        decreases es@.len() - i,
    {
        if value_eq(&es[i], &v) {
            proof {
                assert(esv[i as int] == v@);
                assert(esv.contains(v@));
            }
            return es;
        }
        i = i + 1;
    }
    proof {
        if esv.contains(v@) {
            let w = choose|j: int| 0 <= j < esv.len() && esv[j] == v@;
            assert(esv[w] != v@);
        }
    }
    let ghost before = es@;
    es.push(v);
    proof {
        lemma_map_values_push(before, v, |v: Value| v@);
    }
    es
}

/// Applies one mutation kind to one field state with the given argument
/// values.
pub fn apply_mutation(kind: MutationKind, st: FieldState, args: Vec<Value>) -> (r: Option<
    FieldState,
>)
    ensures
        (r is Some) == (spec_apply_mutation(kind, st@, vals(args@)) is Some),
        r matches Some(s2) ==> (spec_apply_mutation(kind, st@, vals(args@)) matches Some(sm)
            && s2@ == sm),
{
    let ghost argvs = vals(args@);
    match (kind, st) {
        (MutationKind::Overwrite, FieldState::Single(_)) => {
            if args.len() == 1 {
                let mut args = args;
                let v = args.remove(0);
                Some(FieldState::Single(v))
            } else {
                None
            }
        },
        (MutationKind::WrapOptional, FieldState::Optional(_)) => {
            if args.len() == 1 {
                let mut args = args;
                let v = args.remove(0);
                Some(FieldState::Optional(Some(v)))
            } else {
                None
            }
        },
        (MutationKind::Append, FieldState::Sequence(s)) => {
            if args.len() == 1 {
                let mut args = args;
                let v = args.remove(0);
                let ghost before = s@;
                let mut s = s;
                s.push(v);
                proof {
                    lemma_map_values_push(before, v, |v: Value| v@);
                }
                Some(FieldState::Sequence(s))
            } else {
                None
            }
        },
        (MutationKind::InsertKeyed, FieldState::MapEntries(es)) => {
            if args.len() == 2 {
                let mut args = args;
                let k = args.remove(0);
                let v = args.remove(0);
                proof {
                    assert(k@ == argvs[0]);
                    assert(v@ == argvs[1]);
                }
                Some(FieldState::MapEntries(map_insert(es, k, v)))
            } else {
                None
            }
        },
        (MutationKind::InsertUnique, FieldState::SetElems(es)) => {
            if args.len() == 1 {
                let mut args = args;
                let v = args.remove(0);
                Some(FieldState::SetElems(set_insert(es, v)))
            } else {
                None
            }
        },
        _ => None,
    }
}

/// Invokes a generated method by name on an instance: looks up the first
/// method with that name, finds its field, and applies its mutation.
/// Yields nothing exactly where no generated method fits the call — a
/// case that, for code this pipeline generated, would not have compiled
/// at the call site.
pub fn invoke(api: &GeneratedApi, inst: Instance, method: &str, args: Vec<Value>) -> (r: Option<
    Instance,
>)
    ensures
        (r is Some) == (spec_invoke(api@, inst@, method@, vals(args@)) is Some),
        r matches Some(inst2) ==> (spec_invoke(api@, inst@, method@, vals(args@)) matches Some(im)
            && inst2@ == im),
{
    proof {
        lemma_find_method(api@.methods, method@);
    }
    let mut j: usize = 0;
    #[verifier::loop_isolation(false)]
    while j < api.methods.len()
        invariant
            0 <= j <= api.methods@.len(),
            forall|jj: int| 0 <= jj < j ==> (#[trigger] api@.methods[jj]).name != method@,
        decreases api.methods@.len() - j,
    {
        if name_is(&api.methods[j].name, method) {
            proof {
                assert(api@.methods[j as int] == api.methods@[j as int]@);
                assert(api@.methods[j as int].name == method@);
                assert(spec_find_method(api@.methods, method@) == j);
            }
            let m = &api.methods[j];
            if args.len() != m.params.len() {
                proof {
                    assert(api@.methods[j as int].params.len() == m.params@.len());
                    assert(vals(args@).len() == args@.len());
                }
                return None;
            }
            return invoke_found(api, inst, Ghost(j as int), m, args);
        }
        j = j + 1;
    }
    proof {
        assert(spec_find_method(api@.methods, method@) == api@.methods.len());
    }
    None
}

/// Applies the method standing at the given position of the API to the
/// instance.
fn invoke_found(
    api: &GeneratedApi,
    inst: Instance,
    Ghost(mi): Ghost<int>,
    m: &MethodSpec,
    args: Vec<Value>,
) -> (r: Option<Instance>)
    requires
        0 <= mi < api@.methods.len(),
        *m == api.methods@[mi],
        spec_find_method(api@.methods, m.name@) == mi,
        args@.len() == m.params@.len(),
    ensures
        (r is Some) == (spec_invoke(api@, inst@, m.name@, vals(args@)) is Some),
        r matches Some(inst2) ==> (spec_invoke(api@, inst@, m.name@, vals(args@)) matches Some(im)
            && inst2@ == im),
{
    let ghost argvs = vals(args@);
    let ghost ms = api@.methods[mi];
    proof {
        assert(ms == api.methods@[mi]@);
        assert(ms.field == m.field@);
        assert(ms.mutation == m.mutation);
        assert(ms.params.len() == m.params@.len());
        lemma_find_field(inst@, ms.field);
    }
    let mut inst = inst;
    let ghost inst0 = inst@;
    let mut k: usize = 0;
    #[verifier::loop_isolation(false)]
    while k < inst.fields.len()
        invariant
            0 <= k <= inst.fields@.len(),
            inst@ == inst0,
            forall|kk: int| 0 <= kk < k ==> (#[trigger] inst0[kk]).name != ms.field,
        decreases inst.fields@.len() - k,
    {
        if inst.fields[k].name.eq(&m.field) {
            proof {
                assert(inst0[k as int] == inst.fields@[k as int]@);
                assert(inst0[k as int].name == ms.field);
                assert(spec_find_field(inst0, ms.field) == k);
            }
            let ghost fieldsv = inst.fields@;
            let b = inst.fields.remove(k);
            let ghost bv = b;
            let FieldBinding { name, state } = b;
            match apply_mutation(m.mutation, state, args) {
                None => {
                    return None;
                },
                Some(st2) => {
                    let ghost st2v = st2@;
                    inst.fields.insert(k, FieldBinding { name, state: st2 });
                    proof {
                        assert(inst.fields@ =~= fieldsv.update(
                            k as int,
                            FieldBinding { name: bv.name, state: st2 },
                        ));
                        assert(inst@ =~= inst0.update(
                            k as int,
                            BindingV { name: inst0[k as int].name, state: st2v },
                        ));
                    }
                    return Some(inst);
                },
            }
        }
        k = k + 1;
    }
    proof {
        assert(spec_find_field(inst0, ms.field) == inst0.len());
    }
    None
}

} // verus!
