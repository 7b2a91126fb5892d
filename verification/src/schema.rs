//! The schema data model: declared types, attributes, raw fields as the
//! schema-extraction collaborator reports them, and the extracted
//! [`FieldSpec`] values that the rest of the pipeline consumes.

use vstd::prelude::*;

use crate::seqs::{first_where, lemma_first_where};

verus! {

/// A literal value that can flow through a generated builder: either an
/// unsigned integer or a piece of text.
#[derive(Debug, PartialEq, Eq)]
pub enum Value {
    Int(u64),
    Text(String),
}

/// The mathematical model of a [`Value`]: text is seen as its character
/// sequence.
pub enum ValueV {
    Int(u64),
    Text(Seq<char>),
}

impl View for Value {
    type V = ValueV;

    open spec fn view(&self) -> ValueV {
        match self {
            Value::Int(n) => ValueV::Int(*n),
            Value::Text(s) => ValueV::Text(s@),
        }
    }
}

/// Decides whether two values are equal, at the level of their models.
pub fn value_eq(a: &Value, b: &Value) -> (r: bool)
    ensures
        r == (a@ == b@),
{
    match (a, b) {
        (Value::Int(x), Value::Int(y)) => *x == *y,
        (Value::Text(x), Value::Text(y)) => x.eq(y),
        _ => false,
    }
}

/// Produces a value equal to the given one.
pub fn value_dup(v: &Value) -> (r: Value)
    ensures
        r == *v,
{
    match v {
        Value::Int(n) => Value::Int(*n),
        Value::Text(s) => Value::Text(s.clone()),
    }
}

/// A declared type, in the structural shape that classification reads: a
/// reference, or a (possibly qualified) named type with bracketed type
/// arguments. Lifetime and non-type arguments are not represented; they
/// play no part in classification.
#[derive(Debug, PartialEq, Eq)]
pub enum TypeDesc {
    /// A reference-shaped type. What it refers to never matters to the
    /// pipeline, so the referent is not recorded.
    Reference,
    /// A named type: its path segments (at least one for any type the
    /// extraction collaborator can produce) and its type arguments.
    Path { segments: Vec<String>, args: Vec<TypeDesc> },
}

/// One attribute on a schema field, reduced to the shapes this pipeline
/// recognizes.
#[derive(Debug, PartialEq, Eq)]
pub enum SchemaAttr {
    /// The bare marker that makes a field required.
    Required,
    /// A default attribute in name = value form, carrying a literal.
    DefaultValue(Value),
    /// A default attribute in any other syntactic form: its value cannot
    /// be read as a literal or expression.
    DefaultMalformed,
}

/// A field as the schema-extraction collaborator reports it: an
/// identifier, a declared type, and an attribute set.
#[derive(Debug, PartialEq, Eq)]
pub struct RawField {
    pub name: String,
    pub ty: TypeDesc,
    pub attrs: Vec<SchemaAttr>,
}

/// The kind of a schema: only single-variant product types (records) are
/// supported.
#[derive(Debug, PartialEq, Eq, Clone, Copy)]
pub enum SchemaKind {
    Record,
    Sum,
    Union,
}

/// A whole schema: the record's name, its generic parameters (carried
/// verbatim into the generated declarations), its kind, and its ordered
/// field list.
#[derive(Debug, PartialEq, Eq)]
pub struct Schema {
    pub name: String,
    pub generics: Vec<String>,
    pub kind: SchemaKind,
    pub fields: Vec<RawField>,
}

/// A field after attribute extraction: the required marker and the
/// default expression stand as plain data, and the attribute set is gone.
#[derive(Debug, PartialEq, Eq)]
pub struct FieldSpec {
    pub name: String,
    pub ty: TypeDesc,
    pub required: bool,
    pub default: Option<Value>,
}

/// The fatal conditions of generation. Unrecognized type shapes are not
/// among them: they degrade to scalar classification instead.
#[derive(Debug, PartialEq, Eq, Clone, Copy)]
pub enum GenError {
    /// The schema is not a single-variant product type.
    UnsupportedSchemaKind,
    /// A default attribute is present but its value cannot be read as a
    /// literal or expression.
    InvalidDefaultAttribute,
    /// A field carries both the required marker and a default attribute.
    AmbiguousFieldAttributes,
}

/// Whether this attribute is a default attribute, in either form.
pub open spec fn attr_defaultish(a: SchemaAttr) -> bool {
    a is DefaultValue || a is DefaultMalformed
}

/// Whether some attribute in the set is the required marker.
pub open spec fn spec_has_required(attrs: Seq<SchemaAttr>) -> bool {
    exists|i: int| 0 <= i < attrs.len() && attrs[i] is Required
}

/// The index of the first default attribute, or the length of the set if
/// there is none.
pub open spec fn first_defaultish(attrs: Seq<SchemaAttr>) -> int {
    first_where(attrs, |a: SchemaAttr| attr_defaultish(a))
}

/// The characterization of [`first_defaultish`].
pub proof fn lemma_first_defaultish(attrs: Seq<SchemaAttr>)
    ensures
        0 <= first_defaultish(attrs) <= attrs.len(),
        forall|j: int| 0 <= j < first_defaultish(attrs) ==> !attr_defaultish(#[trigger] attrs[j]),
        first_defaultish(attrs) < attrs.len() ==> attr_defaultish(
            attrs[first_defaultish(attrs)],
        ),
{
    lemma_first_where(attrs, |a: SchemaAttr| attr_defaultish(a));
}

/// What attribute extraction yields for one raw field: the malformed
/// default is rejected first, then the required/default overlap; otherwise
/// the field's marker and first default value are read off.
pub open spec fn spec_extract_field(f: RawField) -> Result<FieldSpec, GenError> {
    let attrs = f.attrs@;
    let di = first_defaultish(attrs);
    if di < attrs.len() && attrs[di] is DefaultMalformed {
        Err(GenError::InvalidDefaultAttribute)
    } else if di < attrs.len() && spec_has_required(attrs) {
        Err(GenError::AmbiguousFieldAttributes)
    } else {
        Ok(
            FieldSpec {
                name: f.name,
                ty: f.ty,
                required: spec_has_required(attrs),
                default: if di < attrs.len() {
                    Some(attrs[di]->DefaultValue_0)
                } else {
                    None
                },
            },
        )
    }
}

/// Reads one raw field's attribute set into a [`FieldSpec`], rejecting a
/// malformed default value and the required/default overlap.
pub fn extract_field(f: RawField) -> (r: Result<FieldSpec, GenError>)
    ensures
        r == spec_extract_field(f),
{
    let RawField { name, ty, attrs } = f;
    let mut required: bool = false;
    let mut default: Option<Value> = None;
    let mut malformed: bool = false;
    let mut i: usize = 0;
    proof {
        lemma_first_defaultish(attrs@);
    }
    #[verifier::loop_isolation(false)]
    while i < attrs.len()
        invariant
            0 <= i <= attrs.len(),
            required == exists|j: int| 0 <= j < i && attrs@[j] is Required,
            ({
                let di = first_defaultish(attrs@);
                &&& (di >= i ==> default is None && !malformed)
                &&& ((di < i && attrs@[di] is DefaultValue) ==> (default == Some(
                    attrs@[di]->DefaultValue_0,
                ) && !malformed))
                &&& ((di < i && attrs@[di] is DefaultMalformed) ==> (default is None
                    && malformed))
            }),
        decreases attrs.len() - i,
    {
        proof {
            lemma_first_defaultish(attrs@);
        }
        match &attrs[i] {
            SchemaAttr::Required => {
                required = true;
            },
            SchemaAttr::DefaultValue(v) => {
                if default.is_none() && !malformed {
                    default = Some(value_dup(v));
                }
            },
            SchemaAttr::DefaultMalformed => {
                if default.is_none() && !malformed {
                    malformed = true;
                }
            },
        }
        i = i + 1;
    }
    proof {
        lemma_first_defaultish(attrs@);
    }
    if malformed {
        return Err(GenError::InvalidDefaultAttribute);
    }
    if required && default.is_some() {
        return Err(GenError::AmbiguousFieldAttributes);
    }
    Ok(FieldSpec { name, ty, required, default })
}

/// What attribute extraction yields for a whole field list: the first
/// field error in declaration order, or every field extracted, in order.
pub open spec fn spec_extract_fields(fs: Seq<RawField>) -> Result<Seq<FieldSpec>, GenError>
    decreases fs.len(),
{
    if fs.len() == 0 {
        Ok(Seq::empty())
    } else {
        match spec_extract_field(fs[0]) {
            Err(e) => Err(e),
            Ok(f) => match spec_extract_fields(fs.drop_first()) {
                Err(e) => Err(e),
                Ok(rest) => Ok(seq![f] + rest),
            },
        }
    }
}

proof fn lemma_extract_fields_push(fs: Seq<RawField>, f: RawField)
    requires
        spec_extract_fields(fs) is Ok,
    ensures
        spec_extract_field(f) is Ok ==> spec_extract_fields(fs.push(f)) == Ok::<
            Seq<FieldSpec>,
            GenError,
        >(spec_extract_fields(fs)->Ok_0.push(spec_extract_field(f)->Ok_0)),
        spec_extract_field(f) is Err ==> spec_extract_fields(fs.push(f)) == Err::<
            Seq<FieldSpec>,
            GenError,
        >(spec_extract_field(f)->Err_0),
    decreases fs.len(),
{
    if fs.len() == 0 {
        assert(fs.push(f).drop_first() =~= Seq::<RawField>::empty());
        if spec_extract_field(f) is Ok {
            assert(seq![spec_extract_field(f)->Ok_0] + Seq::<FieldSpec>::empty() =~= Seq::<
                FieldSpec,
            >::empty().push(spec_extract_field(f)->Ok_0));
        }
    } else {
        assert(fs.push(f)[0] == fs[0]);
        assert(fs.push(f).drop_first() =~= fs.drop_first().push(f));
        lemma_extract_fields_push(fs.drop_first(), f);
        if spec_extract_field(f) is Ok {
            assert(seq![spec_extract_fields(fs)->Ok_0[0]] + spec_extract_fields(
                fs.drop_first(),
            )->Ok_0.push(spec_extract_field(f)->Ok_0) =~= (seq![spec_extract_fields(fs)->Ok_0[0]]
                + spec_extract_fields(fs.drop_first())->Ok_0).push(spec_extract_field(f)->Ok_0));
        }
    }
}

/// Extracts every field in declaration order, stopping at the first
/// fatal attribute condition.
pub fn extract_fields(fields: Vec<RawField>) -> (r: Result<Vec<FieldSpec>, GenError>)
    ensures
        (r is Ok) == (spec_extract_fields(fields@) is Ok),
        r matches Ok(out) ==> out@ == spec_extract_fields(fields@)->Ok_0,
        r matches Err(e) ==> e == spec_extract_fields(fields@)->Err_0,
{
    let mut out: Vec<FieldSpec> = Vec::new();
    let mut rest = fields;
    let ghost all = rest@;
    let ghost mut done: Seq<RawField> = Seq::empty();
    proof {
        assert(done + rest@ =~= all);
    }
    #[verifier::loop_isolation(false)]
    while rest.len() > 0
        invariant
            done + rest@ =~= all,
            spec_extract_fields(done) is Ok,
            out@ == spec_extract_fields(done)->Ok_0,
        decreases rest.len(),
    {
        let f = rest.remove(0);
        proof {
            assert(done.push(f) + rest@ =~= all);
            lemma_extract_fields_push(done, f);
        }
        match extract_field(f) {
            Ok(fs) => {
                out.push(fs);
            },
            Err(e) => {
                proof {
                    assert(all.subrange(0, done.push(f).len() as int) =~= done.push(f));
                    lemma_extract_fields_prefix_err(done.push(f), all);
                }
                return Err(e);
            },
        }
        proof {
            done = done.push(f);
        }
    }
    proof {
        assert(done =~= all);
    }
    Ok(out)
}

/// A field list whose prefix already fails extraction fails with the same
/// error.
proof fn lemma_extract_fields_prefix_err(prefix: Seq<RawField>, all: Seq<RawField>)
    requires
        prefix.len() <= all.len(),
        all.subrange(0, prefix.len() as int) == prefix,
        spec_extract_fields(prefix) is Err,
    ensures
        spec_extract_fields(all) == spec_extract_fields(prefix),
    decreases prefix.len(),
{
    if prefix.len() == 0 {
    } else {
        assert(all[0] == prefix[0]);
        if spec_extract_field(prefix[0]) is Ok {
            assert(all.drop_first().subrange(0, prefix.drop_first().len() as int) =~= prefix
                .drop_first());
            lemma_extract_fields_prefix_err(prefix.drop_first(), all.drop_first());
        }
    }
}

/// The required subset of an extracted field list, in declaration order.
pub open spec fn spec_required_of(fs: Seq<FieldSpec>) -> Seq<FieldSpec> {
    fs.filter(|f: FieldSpec| f.required)
}

/// The optional subset of an extracted field list, in declaration order.
pub open spec fn spec_optional_of(fs: Seq<FieldSpec>) -> Seq<FieldSpec> {
    fs.filter(|f: FieldSpec| !f.required)
}

/// Splits an extracted field list into its required and optional subsets,
/// each keeping its original relative order. A field without the required
/// marker is optional; there is no error path.
pub fn partition_fields(fields: Vec<FieldSpec>) -> (r: (Vec<FieldSpec>, Vec<FieldSpec>))
    ensures
        r.0@ == spec_required_of(fields@),
        r.1@ == spec_optional_of(fields@),
{
    let mut req: Vec<FieldSpec> = Vec::new();
    let mut opt: Vec<FieldSpec> = Vec::new();
    let mut rest = fields;
    let ghost all = rest@;
    let ghost mut done: Seq<FieldSpec> = Seq::empty();
    proof {
        reveal(Seq::filter);
        assert(done + rest@ =~= all);
        assert(done.filter(|f: FieldSpec| f.required) =~= Seq::<FieldSpec>::empty());
        assert(done.filter(|f: FieldSpec| !f.required) =~= Seq::<FieldSpec>::empty());
    }
    #[verifier::loop_isolation(false)]
    while rest.len() > 0
        invariant
            done + rest@ =~= all,
            req@ == spec_required_of(done),
            opt@ == spec_optional_of(done),
        decreases rest.len(),
    {
        let f = rest.remove(0);
        proof {
            assert(done.push(f) + rest@ =~= all);
            lemma_filter_push(done, f, |f: FieldSpec| f.required);
            lemma_filter_push(done, f, |f: FieldSpec| !f.required);
        }
        if f.required {
            req.push(f);
        } else {
            opt.push(f);
        }
        proof {
            done = done.push(f);
        }
    }
    proof {
        assert(done =~= all);
    }
    (req, opt)
}

/// Filtering a sequence extended by one element keeps the filtered prefix
/// and appends the element exactly when it satisfies the predicate.
pub proof fn lemma_filter_push<A>(s: Seq<A>, x: A, pred: spec_fn(A) -> bool)
    ensures
        pred(x) ==> s.push(x).filter(pred) == s.filter(pred).push(x),
        !pred(x) ==> s.push(x).filter(pred) == s.filter(pred),
{
    reveal(Seq::filter);
    assert(s.push(x).drop_last() =~= s);
}

} // verus!
