//! The laws of the generated builders, proved once and for all against
//! the semantics: what repeated method calls leave in a field, and what
//! the constructor puts there. Each law is stated over the spec-level
//! semantics that [`crate::semantics`]'s executable functions are proved
//! to implement.

use vstd::prelude::*;

use crate::schema::{FieldSpec, Schema, ValueV};
use crate::semantics::{
    first_key_idx, has_key, lemma_find_field, lemma_first_key_idx, spec_apply_mutation,
    spec_construct, spec_find_field, spec_find_method, spec_initial_state, spec_invoke,
    spec_map_insert, spec_set_insert, StateModel,
};
use crate::synth::{
    spec_generate, spec_init_of, spec_method_of, ApiModel, MutationKind,
};

verus! {

/// Once classification succeeds, no generated method ever fails: calling
/// a method of a generated API on a freshly constructed instance
/// succeeds, provided the call would have compiled against the generated
/// code — the method is the first under its name, no field standing
/// before its own shares that name, the argument count fits, and a
/// declared default expression stands only in a field whose method
/// overwrites whole values.
pub proof fn lemma_generated_call_succeeds(
    s: Schema,
    argvs: Seq<ValueV>,
    callargs: Seq<ValueV>,
    j: int,
)
    requires
        spec_generate(s) is Ok,
        ({
            let api = spec_generate(s)->Ok_0;
            &&& argvs.len() == api.ctor.params.len()
            &&& 0 <= j < api.methods.len()
            &&& spec_find_method(api.methods, api.methods[j].name) == j
            &&& forall|i: int|
                0 <= i < api.ctor.params.len() ==> (#[trigger] api.ctor.params[i]).name
                    != api.methods[j].field
            &&& forall|i: int|
                0 <= i < j ==> (#[trigger] api.ctor.inits[i]).field != api.methods[j].field
            &&& callargs.len() == api.methods[j].params.len()
            &&& (api.ctor.inits[j].default is None || api.methods[j].mutation is Overwrite)
        }),
    ensures
        ({
            let api = spec_generate(s)->Ok_0;
            spec_invoke(api, spec_construct(api, argvs), api.methods[j].name, callargs) is Some
        }),
{
    let api = spec_generate(s)->Ok_0;
    let inst = spec_construct(api, argvs);
    let ms = api.methods[j];
    let plen = api.ctor.params.len() as int;
    let fs = crate::schema::spec_extract_fields(s.fields@)->Ok_0;
    let opt = crate::schema::spec_optional_of(fs);
    assert(api.methods == opt.map_values(|f: FieldSpec| spec_method_of(f)));
    assert(api.ctor.inits == opt.map_values(|f: FieldSpec| spec_init_of(f)));
    let f = opt[j];
    assert(api.methods[j] == spec_method_of(f));
    assert(api.ctor.inits[j] == spec_init_of(f));
    assert(ms.field == f.name@);
    assert(api.ctor.inits[j].field == f.name@);
    assert(inst.len() == plen + api.ctor.inits.len());
    assert(inst[plen + j].name == api.ctor.inits[j].field);
    assert(inst[plen + j].state == spec_initial_state(api.ctor.inits[j]));
    lemma_find_field(inst, ms.field);
    assert forall|kk: int| 0 <= kk < plen + j implies (#[trigger] inst[kk]).name != ms.field by {
        if kk < plen {
            assert(inst[kk].name == api.ctor.params[kk].name);
        } else {
            assert(inst[kk].name == api.ctor.inits[kk - plen].field);
        }
    }
    assert(spec_find_field(inst, ms.field) == plen + j);
    let st = inst[plen + j].state;
    match api.ctor.inits[j].default {
        Some(d) => {
            assert(st == StateModel::Single(d));
            assert(ms.mutation is Overwrite);
            assert(callargs.len() == 1);
        },
        None => {
            assert(st == crate::semantics::spec_zero_state(
                api.ctor.inits[j].category,
                api.ctor.inits[j].zero,
            ));
        },
    }
    assert(spec_apply_mutation(ms.mutation, st, callargs) is Some);
}

/// In every API that generation yields, the methods stand in one-to-one
/// correspondence with the constructor's optional-field initializations:
/// the method at each position addresses the field initialized at that
/// position, and its arity fits its mutation kind — two parameters for
/// keyed insertion, one otherwise.
pub proof fn lemma_api_methods_match_inits(s: Schema)
    requires
        spec_generate(s) is Ok,
    ensures
        ({
            let api = spec_generate(s)->Ok_0;
            &&& api.methods.len() == api.ctor.inits.len()
            &&& forall|i: int|
                0 <= i < api.methods.len() ==> (#[trigger] api.methods[i]).field
                    == api.ctor.inits[i].field
            &&& forall|i: int|
                0 <= i < api.methods.len() ==> (#[trigger] api.methods[i]).params.len() == (
                if api.methods[i].mutation is InsertKeyed {
                    2int
                } else {
                    1int
                })
        }),
{
}

/// Writing an optional field twice leaves it present and holding the
/// second value: the last write wins, and values never accumulate.
pub proof fn lemma_optional_last_write_wins(st: StateModel, v1: ValueV, v2: ValueV)
    requires
        st is Optional,
    ensures
        spec_apply_mutation(MutationKind::WrapOptional, st, seq![v1]) == Some(
            StateModel::Optional(Some(v1)),
        ),
        spec_apply_mutation(MutationKind::WrapOptional, StateModel::Optional(Some(v1)), seq![v2])
            == Some(StateModel::Optional(Some(v2))),
{
}

/// Appending to a sequence field extends it at the end, in call order:
/// two calls from any starting sequence append the two values in that
/// order, and from the empty sequence leave exactly those two values.
pub proof fn lemma_sequence_preserves_order(s: Seq<ValueV>, v1: ValueV, v2: ValueV)
    ensures
        spec_apply_mutation(MutationKind::Append, StateModel::Sequence(s), seq![v1]) == Some(
            StateModel::Sequence(s.push(v1)),
        ),
        spec_apply_mutation(MutationKind::Append, StateModel::Sequence(s.push(v1)), seq![v2])
            == Some(StateModel::Sequence(s.push(v1).push(v2))),
        s.len() == 0 ==> s.push(v1).push(v2) == seq![v1, v2],
{
    if s.len() == 0 {
        assert(s.push(v1).push(v2) =~= seq![v1, v2]);
    }
}

/// Keyed insertion under one key obeys last write wins: inserting twice
/// with the same key leaves the map exactly as inserting the second
/// value alone would.
pub proof fn lemma_map_insert_last_write_wins(
    es: Seq<(ValueV, ValueV)>,
    k: ValueV,
    v1: ValueV,
    v2: ValueV,
)
    ensures
        spec_map_insert(spec_map_insert(es, k, v1), k, v2) == spec_map_insert(es, k, v2),
{
    lemma_first_key_idx(es, k);
    let es1 = spec_map_insert(es, k, v1);
    lemma_first_key_idx(es1, k);
    if has_key(es, k) {
        let fi = first_key_idx(es, k);
        assert(es1 == es.update(fi, (k, v1)));
        assert(es1[fi].0 == k);
        assert(has_key(es1, k));
        let f1 = first_key_idx(es1, k);
        assert forall|j: int| 0 <= j < fi implies (#[trigger] es1[j]).0 != k by {
            assert(es1[j] == es[j]);
        }
        assert(f1 == fi);
        assert(es.update(fi, (k, v1)).update(fi, (k, v2)) =~= es.update(fi, (k, v2)));
    } else {
        assert(es1 == es.push((k, v1)));
        assert(es1[es.len() as int].0 == k);
        assert(has_key(es1, k));
        let f1 = first_key_idx(es1, k);
        if f1 < es.len() {
            assert(es1[f1] == es[f1]);
            assert(has_key(es, k));
        }
        assert(f1 == es.len());
        assert(es.push((k, v1)).update(es.len() as int, (k, v2)) =~= es.push((k, v2)));
    }
}

/// From an empty map field, inserting a key twice leaves exactly one
/// entry, holding the key and the second value.
pub proof fn lemma_map_one_key_one_entry(k: ValueV, v1: ValueV, v2: ValueV)
    ensures
        spec_map_insert(spec_map_insert(Seq::empty(), k, v1), k, v2) == seq![(k, v2)],
{
    let e0 = Seq::<(ValueV, ValueV)>::empty();
    lemma_first_key_idx(e0, k);
    assert(spec_map_insert(e0, k, v1) == e0.push((k, v1)));
    let es1 = e0.push((k, v1));
    lemma_first_key_idx(es1, k);
    assert(es1[0].0 == k);
    assert(has_key(es1, k));
    assert(first_key_idx(es1, k) == 0);
    assert(es1.update(0, (k, v2)) =~= seq![(k, v2)]);
}

/// From an empty map field, inserting two distinct keys keeps both
/// entries, in insertion order.
pub proof fn lemma_map_two_keys_two_entries(k1: ValueV, v1: ValueV, k2: ValueV, v2: ValueV)
    requires
        k1 != k2,
    ensures
        spec_map_insert(spec_map_insert(Seq::empty(), k1, v1), k2, v2) == seq![
            (k1, v1),
            (k2, v2),
        ],
{
    let e0 = Seq::<(ValueV, ValueV)>::empty();
    lemma_first_key_idx(e0, k1);
    assert(spec_map_insert(e0, k1, v1) == e0.push((k1, v1)));
    let es1 = e0.push((k1, v1));
    lemma_first_key_idx(es1, k2);
    assert(first_key_idx(es1, k2) != 0);
    assert(!has_key(es1, k2));
    assert(es1.push((k2, v2)) =~= seq![(k1, v1), (k2, v2)]);
}

/// Unique insertion is idempotent: inserting the same value twice leaves
/// the set exactly as inserting it once, and from an empty set field one
/// occurrence is stored.
pub proof fn lemma_set_insert_idempotent(es: Seq<ValueV>, v: ValueV)
    ensures
        spec_set_insert(spec_set_insert(es, v), v) == spec_set_insert(es, v),
        spec_set_insert(spec_set_insert(Seq::empty(), v), v) == seq![v],
{
    let es1 = spec_set_insert(es, v);
    if es.contains(v) {
    } else {
        assert(es1 == es.push(v));
        assert(es1[es.len() as int] == v);
        assert(es1.contains(v));
    }
    let e0 = Seq::<ValueV>::empty();
    assert(!e0.contains(v));
    let s1 = spec_set_insert(e0, v);
    assert(s1 == e0.push(v));
    assert(s1[0] == v);
    assert(s1.contains(v));
    assert(e0.push(v) =~= seq![v]);
}

/// An optional field whose declaration gives an explicit default and
/// whose method is never called holds exactly that default in the
/// constructed instance.
pub proof fn lemma_default_initial_value(m: ApiModel, argvs: Seq<ValueV>, j: int)
    requires
        0 <= j < m.ctor.inits.len(),
    ensures
        m.ctor.inits[j].default matches Some(d) ==> spec_construct(m, argvs)[m.ctor.params.len()
            + j].state == StateModel::Single(d),
        spec_construct(m, argvs)[m.ctor.params.len() + j].state == spec_initial_state(
            m.ctor.inits[j],
        ),
        spec_construct(m, argvs)[m.ctor.params.len() + j].name == m.ctor.inits[j].field,
{
    assert(spec_construct(m, argvs).len() == m.ctor.params.len() + m.ctor.inits.len());
    assert(spec_construct(m, argvs)[m.ctor.params.len() + j] == m.ctor.inits.map_values(
        |oi: crate::synth::OptionalInitV| crate::semantics::BindingV {
            name: oi.field,
            state: spec_initial_state(oi),
        },
    )[j]);
}

} // verus!
