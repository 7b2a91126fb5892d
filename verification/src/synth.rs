//! The API synthesizer: from a schema it assembles one constructor
//! specification and one chainable method specification per optional
//! field, with container-typed fields given element-wise insertion
//! methods.

use vstd::prelude::*;

use crate::classify::{
    classify, is_integer_name, normalize, spec_classify, spec_is_integer_name, spec_mode,
    ParameterMode, TypeCategory,
};
use crate::names::{singular_of, singularize};
use crate::seqs::lemma_map_values_push;
use crate::schema::{
    extract_fields, partition_fields, spec_extract_fields, spec_optional_of, spec_required_of,
    FieldSpec, GenError, Schema, SchemaKind, TypeDesc, Value, ValueV,
};

verus! {

/// How a generated method changes the field it addresses.
#[derive(Debug, PartialEq, Eq, Clone, Copy)]
pub enum MutationKind {
    /// Replace the field's value; the last write wins.
    Overwrite,
    /// Make an optional field present, holding the given value.
    WrapOptional,
    /// Append the given value at the end of a sequence field.
    Append,
    /// Insert or overwrite the entry for the given key of a map field.
    InsertKeyed,
    /// Insert the given value into a set field; duplicates are no-ops.
    InsertUnique,
}

/// One parameter of a generated constructor or method: its name, its
/// declared type, and how exactly a value for it is accepted.
#[derive(Debug, PartialEq, Eq)]
pub struct ParamSpec {
    pub name: String,
    pub ty: TypeDesc,
    pub mode: ParameterMode,
}

/// The model of a [`ParamSpec`]: the name as its character sequence.
#[verifier::ext_equal]
pub struct ParamSpecV {
    pub name: Seq<char>,
    pub ty: TypeDesc,
    pub mode: ParameterMode,
}

impl View for ParamSpec {
    type V = ParamSpecV;

    open spec fn view(&self) -> ParamSpecV {
        ParamSpecV { name: self.name@, ty: self.ty, mode: self.mode }
    }
}

/// One chainable method of the generated API: its name, its parameters,
/// how it mutates its field, and the field it addresses. Every method
/// returns the instance itself; that is part of the semantics, not of the
/// declaration.
#[derive(Debug, PartialEq, Eq)]
pub struct MethodSpec {
    pub name: String,
    pub params: Vec<ParamSpec>,
    pub mutation: MutationKind,
    pub field: String,
}

/// The model of a [`MethodSpec`].
#[verifier::ext_equal]
pub struct MethodSpecV {
    pub name: Seq<char>,
    pub params: Seq<ParamSpecV>,
    pub mutation: MutationKind,
    pub field: Seq<char>,
}

impl View for MethodSpec {
    type V = MethodSpecV;

    open spec fn view(&self) -> MethodSpecV {
        MethodSpecV {
            name: self.name@,
            params: self.params@.map_values(|p: ParamSpec| p@),
            mutation: self.mutation,
            field: self.field@,
        }
    }
}

/// How the constructor initializes one optional field: the declared
/// default expression if one was given, and otherwise the zero/default
/// construction of the field's shape.
#[derive(Debug, PartialEq, Eq)]
pub struct OptionalInit {
    pub field: String,
    pub category: TypeCategory,
    pub default: Option<Value>,
    pub zero: Value,
}

/// The model of an [`OptionalInit`].
#[verifier::ext_equal]
pub struct OptionalInitV {
    pub field: Seq<char>,
    pub category: TypeCategory,
    pub default: Option<ValueV>,
    pub zero: ValueV,
}

impl View for OptionalInit {
    type V = OptionalInitV;

    open spec fn view(&self) -> OptionalInitV {
        OptionalInitV {
            field: self.field@,
            category: self.category,
            default: match &self.default {
                Some(v) => Some(v@),
                None => None,
            },
            zero: self.zero@,
        }
    }
}

/// The generated constructor: its parameters are the required fields in
/// declaration order, and its body initializes every optional field.
#[derive(Debug, PartialEq, Eq)]
pub struct CtorSpec {
    pub params: Vec<ParamSpec>,
    pub inits: Vec<OptionalInit>,
}

/// The model of a [`CtorSpec`].
#[verifier::ext_equal]
pub struct CtorSpecV {
    pub params: Seq<ParamSpecV>,
    pub inits: Seq<OptionalInitV>,
}

impl View for CtorSpec {
    type V = CtorSpecV;

    open spec fn view(&self) -> CtorSpecV {
        CtorSpecV {
            params: self.params@.map_values(|p: ParamSpec| p@),
            inits: self.inits@.map_values(|oi: OptionalInit| oi@),
        }
    }
}

/// The whole generated API: the record's name and generic parameters
/// carried verbatim, one constructor specification, and one method
/// specification per optional field, in declaration order.
#[derive(Debug, PartialEq, Eq)]
pub struct GeneratedApi {
    pub record_name: String,
    pub generics: Vec<String>,
    pub ctor: CtorSpec,
    pub methods: Vec<MethodSpec>,
}

/// The model of a [`GeneratedApi`].
#[verifier::ext_equal]
pub struct ApiModel {
    pub record_name: Seq<char>,
    pub generics: Seq<Seq<char>>,
    pub ctor: CtorSpecV,
    pub methods: Seq<MethodSpecV>,
}

impl View for GeneratedApi {
    type V = ApiModel;

    open spec fn view(&self) -> ApiModel {
        ApiModel {
            record_name: self.record_name@,
            generics: self.generics@.map_values(|g: String| g@),
            ctor: self.ctor@,
            methods: self.methods@.map_values(|m: MethodSpec| m@),
        }
    }
}

/// The first type argument of a container-shaped type.
pub open spec fn spec_arg0(t: TypeDesc) -> TypeDesc
    recommends
        t is Path,
        t->Path_args@.len() >= 1,
{
    t->Path_args@[0]
}

/// The second type argument of a map-shaped type.
pub open spec fn spec_arg1(t: TypeDesc) -> TypeDesc
    recommends
        t is Path,
        t->Path_args@.len() >= 2,
{
    t->Path_args@[1]
}

/// One parameter with the mode the normalizer decides for its type.
pub open spec fn spec_param(name: Seq<char>, ty: TypeDesc) -> ParamSpecV {
    ParamSpecV { name, ty, mode: spec_mode(ty) }
}

/// The method specification synthesized for one optional field, by the
/// field's semantic shape: container shapes get a singular method name
/// and element-typed parameters; options get the field's name and the
/// wrapped type; everything else overwrites whole values under the
/// field's name.
pub open spec fn spec_method_of(f: FieldSpec) -> MethodSpecV {
    match spec_classify(f.ty) {
        TypeCategory::OptionShape => MethodSpecV {
            name: f.name@,
            params: seq![spec_param(f.name@, spec_arg0(f.ty))],
            mutation: MutationKind::WrapOptional,
            field: f.name@,
        },
        TypeCategory::SequenceShape => MethodSpecV {
            name: singular_of(f.name@),
            params: seq![spec_param(singular_of(f.name@), spec_arg0(f.ty))],
            mutation: MutationKind::Append,
            field: f.name@,
        },
        TypeCategory::MapShape => MethodSpecV {
            name: singular_of(f.name@),
            params: seq![
                spec_param("key"@, spec_arg0(f.ty)),
                spec_param("value"@, spec_arg1(f.ty)),
            ],
            mutation: MutationKind::InsertKeyed,
            field: f.name@,
        },
        TypeCategory::SetShape => MethodSpecV {
            name: singular_of(f.name@),
            params: seq![spec_param(singular_of(f.name@), spec_arg0(f.ty))],
            mutation: MutationKind::InsertUnique,
            field: f.name@,
        },
        _ => MethodSpecV {
            name: f.name@,
            params: seq![spec_param(f.name@, f.ty)],
            mutation: MutationKind::Overwrite,
            field: f.name@,
        },
    }
}

/// The zero/default construction of a declared type, in the value model:
/// integer-named scalars start at zero, everything else at empty text.
pub open spec fn spec_zero_value(t: TypeDesc) -> ValueV {
    match t {
        TypeDesc::Reference => ValueV::Text(Seq::empty()),
        TypeDesc::Path { segments, args } => {
            if segments@.len() >= 1 && spec_is_integer_name(
                segments@[segments@.len() - 1]@,
            ) {
                ValueV::Int(0)
            } else {
                ValueV::Text(Seq::empty())
            }
        },
    }
}

/// The constructor initialization synthesized for one optional field.
pub open spec fn spec_init_of(f: FieldSpec) -> OptionalInitV {
    OptionalInitV {
        field: f.name@,
        category: spec_classify(f.ty),
        default: match f.default {
            Some(v) => Some(v@),
            None => None,
        },
        zero: spec_zero_value(f.ty),
    }
}

/// The constructor parameters synthesized for the required fields.
pub open spec fn spec_ctor_params(req: Seq<FieldSpec>) -> Seq<ParamSpecV> {
    req.map_values(|f: FieldSpec| spec_param(f.name@, f.ty))
}

/// What generation yields for a whole schema: the fatal conditions in
/// order (unsupported kind first, then the first field's attribute
/// error), or the assembled API.
pub open spec fn spec_generate(s: Schema) -> Result<ApiModel, GenError> {
    if !(s.kind is Record) {
        Err(GenError::UnsupportedSchemaKind)
    } else {
        match spec_extract_fields(s.fields@) {
            Err(e) => Err(e),
            Ok(fs) => Ok(
                ApiModel {
                    record_name: s.name@,
                    generics: s.generics@.map_values(|g: String| g@),
                    ctor: CtorSpecV {
                        params: spec_ctor_params(spec_required_of(fs)),
                        inits: spec_optional_of(fs).map_values(|f: FieldSpec| spec_init_of(f)),
                    },
                    methods: spec_optional_of(fs).map_values(|f: FieldSpec| spec_method_of(f)),
                },
            ),
        }
    }
}

/// Computes the zero/default construction of a declared type.
fn zero_value(t: &TypeDesc) -> (v: Value)
    ensures
        v@ == spec_zero_value(*t),
{
    match t {
        TypeDesc::Reference => Value::Text(String::new()),
        TypeDesc::Path { segments, args } => {
            if segments.len() >= 1 && is_integer_name(&segments[segments.len() - 1]) {
                Value::Int(0)
            } else {
                Value::Text(String::new())
            }
        },
    }
}

/// Synthesizes the method specification for one optional field, consuming
/// the field.
fn method_of(f: FieldSpec) -> (m: MethodSpec)
    ensures
        m@ == spec_method_of(f),
{
    let ghost gf = f;
    let FieldSpec { name, ty, required: _, default: _ } = f;
    let category = classify(&ty);
    match category {
        TypeCategory::OptionShape => {
            if let TypeDesc::Path { segments: _, mut args } = ty {
                let inner = args.remove(0);
                let mode = normalize(&inner);
                let m = MethodSpec {
                    name: name.clone(),
                    params: vec![ParamSpec { name: name.clone(), ty: inner, mode }],
                    mutation: MutationKind::WrapOptional,
                    field: name,
                };
                assert(m@.params =~= spec_method_of(gf).params);
                m
            } else {
                vstd::pervasive::unreached()
            }
        },
        TypeCategory::SequenceShape | TypeCategory::SetShape => {
            if let TypeDesc::Path { segments: _, mut args } = ty {
                let inner = args.remove(0);
                let mode = normalize(&inner);
                let singular = singularize(&name);
                let m = MethodSpec {
                    name: singular.clone(),
                    params: vec![ParamSpec { name: singular, ty: inner, mode }],
                    mutation: if matches!(category, TypeCategory::SequenceShape) {
                        MutationKind::Append
                    } else {
                        MutationKind::InsertUnique
                    },
                    field: name,
                };
                assert(m@.params =~= spec_method_of(gf).params);
                m
            } else {
                vstd::pervasive::unreached()
            }
        },
        TypeCategory::MapShape => {
            if let TypeDesc::Path { segments: _, mut args } = ty {
                let key_ty = args.remove(0);
                let value_ty = args.remove(0);
                let key_mode = normalize(&key_ty);
                let value_mode = normalize(&value_ty);
                let singular = singularize(&name);
                let m = MethodSpec {
                    name: singular,
                    params: vec![
                        ParamSpec { name: "key".to_owned(), ty: key_ty, mode: key_mode },
                        ParamSpec { name: "value".to_owned(), ty: value_ty, mode: value_mode },
                    ],
                    mutation: MutationKind::InsertKeyed,
                    field: name,
                };
                assert(m@.params =~= spec_method_of(gf).params);
                m
            } else {
                vstd::pervasive::unreached()
            }
        },
        TypeCategory::Scalar | TypeCategory::Reference => {
            let mode = normalize(&ty);
            let m = MethodSpec {
                name: name.clone(),
                params: vec![ParamSpec { name: name.clone(), ty, mode }],
                mutation: MutationKind::Overwrite,
                field: name,
            };
            assert(m@.params =~= spec_method_of(gf).params);
            m
        },
    }
}

/// Generates the fluent construction API for one schema: the fatal
/// conditions are rejected with no partial output, and otherwise the
/// result is exactly the synthesized model.
pub fn generate(schema: Schema) -> (r: Result<GeneratedApi, GenError>)
    ensures
        (r is Ok) == (spec_generate(schema) is Ok),
        r matches Ok(api) ==> api@ == spec_generate(schema)->Ok_0,
        r matches Err(e) ==> e == spec_generate(schema)->Err_0,
{
    let Schema { name, generics, kind, fields } = schema;
    if !matches!(kind, SchemaKind::Record) {
        return Err(GenError::UnsupportedSchemaKind);
    }
    let fs = match extract_fields(fields) {
        Ok(fs) => fs,
        Err(e) => {
            return Err(e);
        },
    };
    let (req, opt) = partition_fields(fs);

    let ghost req_all = req@;
    let mut params: Vec<ParamSpec> = Vec::new();
    let mut req_rest = req;
    let ghost mut req_done: Seq<FieldSpec> = Seq::empty();
    proof {
        assert(req_done + req_rest@ =~= req_all);
        assert(params@.map_values(|p: ParamSpec| p@) =~= spec_ctor_params(req_done));
    }
    #[verifier::loop_isolation(false)]
    while req_rest.len() > 0
        invariant
            req_done + req_rest@ =~= req_all,
            params@.map_values(|p: ParamSpec| p@) == spec_ctor_params(req_done),
        decreases req_rest.len(),
    {
        let f = rest_first(&mut req_rest);
        let ghost gf = f;
        proof {
            assert(req_done.push(gf) + req_rest@ =~= req_all);
        }
        let mode = normalize(&f.ty);
        let FieldSpec { name, ty, required: _, default: _ } = f;
        let ghost pv = params@;
        params.push(ParamSpec { name, ty, mode });
        proof {
            let pushed = ParamSpec { name: gf.name, ty: gf.ty, mode: spec_mode(gf.ty) };
            assert(params@ == pv.push(pushed));
            lemma_map_values_push(pv, pushed, |p: ParamSpec| p@);
            lemma_map_values_push(req_done, gf, |f: FieldSpec| spec_param(f.name@, f.ty));
            assert(pushed@ == spec_param(gf.name@, gf.ty));
            req_done = req_done.push(gf);
        }
    }
    proof {
        assert(req_done =~= req_all);
    }

    let ghost opt_all = opt@;
    let mut methods: Vec<MethodSpec> = Vec::new();
    let mut inits: Vec<OptionalInit> = Vec::new();
    let mut opt_rest = opt;
    let ghost mut opt_done: Seq<FieldSpec> = Seq::empty();
    proof {
        assert(opt_done + opt_rest@ =~= opt_all);
        assert(methods@.map_values(|m: MethodSpec| m@) =~= opt_done.map_values(
            |f: FieldSpec| spec_method_of(f),
        ));
        assert(inits@.map_values(|oi: OptionalInit| oi@) =~= opt_done.map_values(
            |f: FieldSpec| spec_init_of(f),
        ));
    }
    #[verifier::loop_isolation(false)]
    while opt_rest.len() > 0
        invariant
            opt_done + opt_rest@ =~= opt_all,
            methods@.map_values(|m: MethodSpec| m@) == opt_done.map_values(
                |f: FieldSpec| spec_method_of(f),
            ),
            inits@.map_values(|oi: OptionalInit| oi@) == opt_done.map_values(
                |f: FieldSpec| spec_init_of(f),
            ),
        decreases opt_rest.len(),
    {
        let f = rest_first(&mut opt_rest);
        let ghost gf = f;
        proof {
            assert(opt_done.push(gf) + opt_rest@ =~= opt_all);
        }
        let category = classify(&f.ty);
        let zero = zero_value(&f.ty);
        let field_name = f.name.clone();
        let default = match &f.default {
            Some(v) => Some(crate::schema::value_dup(v)),
            None => None,
        };
        let ghost mv = methods@;
        let ghost iv = inits@;
        let m = method_of(f);
        methods.push(m);
        inits.push(OptionalInit { field: field_name, category, default, zero });
        proof {
            assert(methods@ == mv.push(m));
            lemma_map_values_push(mv, m, |m: MethodSpec| m@);
            lemma_map_values_push(opt_done, gf, |f: FieldSpec| spec_method_of(f));
            assert(m@ == spec_method_of(gf));
            let pushed_init = OptionalInit {
                field: field_name,
                category: spec_classify(gf.ty),
                default,
                zero,
            };
            assert(inits@ == iv.push(pushed_init));
            lemma_map_values_push(iv, pushed_init, |oi: OptionalInit| oi@);
            lemma_map_values_push(opt_done, gf, |f: FieldSpec| spec_init_of(f));
            assert(pushed_init@ == spec_init_of(gf));
            opt_done = opt_done.push(gf);
        }
    }
    proof {
        assert(opt_done =~= opt_all);
    }

    let api = GeneratedApi { record_name: name, generics, ctor: CtorSpec { params, inits }, methods };
    proof {
        assert(api@ =~~= spec_generate(schema)->Ok_0);
    }
    Ok(api)
}

/// Takes the first element off a non-empty list.
fn rest_first(v: &mut Vec<FieldSpec>) -> (f: FieldSpec)
    requires
        old(v).len() > 0,
    ensures
        f == old(v)@[0],
        final(v)@ == old(v)@.drop_first(),
{
    let f = v.remove(0);
    proof {
        assert(v@ =~= old(v)@.drop_first());
    }
    f
}

} // verus!
