//! From schemas to type declarations: the type that stands for a schema where
//! it is used, and the records that object schemas declare.

use vstd::prelude::*;
use vstd::string::*;
use crate::error::{located_at, Failure, FailureView, GenerateError, GenerateErrorView};
use crate::model::{
    lemma_schema_properties, located_values, text_of, Method, Operation, OperationView, Parameter,
    ParameterView, Schema, SchemaType, SchemaView, Spec, SpecView,
};
use crate::reference::{ObjectOrReference, RefError, RefErrorView, RefOr};
use crate::resolve::{resolution, target, Component, FromRef};
use crate::sequence::{
    first_of_each, keys_of, named, lemma_first_of_each, lemma_first_of_each_keeps_keys,
    lemma_try_flat_map_error, lemma_views_add, lemma_views_push, try_flat_map, try_flat_map_upto,
    views,
};
use crate::text::same_text;

verus! {

/// The type that stands for a schema where the schema is used.
#[derive(Clone, Debug, PartialEq, Eq)]
pub enum TypeRef {
    /// Plain text.
    Text,
    /// A point in time.
    Timestamp,
    /// A 64-bit integer.
    Integer64,
    /// A 64-bit floating point number.
    Float64,
    /// A truth value.
    Boolean,
    /// A sequence of texts.
    TextSequence,
    /// The record of that name.
    Named(String),
}

/// What a `TypeRef` holds, as plain values.
pub enum TypeRefView {
    Text,
    Timestamp,
    Integer64,
    Float64,
    Boolean,
    TextSequence,
    Named(Seq<char>),
}

impl View for TypeRef {
    type V = TypeRefView;

    open spec fn view(&self) -> TypeRefView {
        match self {
            TypeRef::Text => TypeRefView::Text,
            TypeRef::Timestamp => TypeRefView::Timestamp,
            TypeRef::Integer64 => TypeRefView::Integer64,
            TypeRef::Float64 => TypeRefView::Float64,
            TypeRef::Boolean => TypeRefView::Boolean,
            TypeRef::TextSequence => TypeRefView::TextSequence,
            TypeRef::Named(name) => TypeRefView::Named(name@),
        }
    }
}

/// The declaration of a record: its name and its fields, in order.
#[derive(Clone, Debug, PartialEq, Eq)]
pub struct TypeDecl {
    pub name: String,
    pub fields: Vec<(String, TypeRef)>,
}

/// What a `TypeDecl` holds, as plain values.
pub struct TypeDeclView {
    pub name: Seq<char>,
    pub fields: Seq<(Seq<char>, TypeRefView)>,
}

/// The fields of a record, as plain values.
pub open spec fn field_views(fields: Seq<(String, TypeRef)>) -> Seq<(Seq<char>, TypeRefView)> {
    fields.map_values(|field: (String, TypeRef)| (field.0@, field.1@))
}

impl View for TypeDecl {
    type V = TypeDeclView;

    open spec fn view(&self) -> TypeDeclView {
        TypeDeclView { name: self.name@, fields: field_views(self.fields@) }
    }
}

/// Whether an optional text is there and reads `text`.
pub open spec fn reads(value: Option<Seq<char>>, text: Seq<char>) -> bool {
    value == Some(text)
}

/// Whether an optional text is there and reads `text`.
pub fn option_reads(value: &Option<String>, text: &str) -> (r: bool)
    ensures
        r == reads(text_of(*value), text@),
{
    match value {
        Some(v) => same_text(v.as_str(), text),
        None => false,
    }
}

/// The type that stands for a schema, by its base type and format. An object
/// is the record named by its title; a string is a point in time under the
/// formats `time`, `date` and `date-time` and plain text under any other; a
/// number is an integer under the format `int64` and a floating point number
/// under any other; an array is a sequence of texts.
pub open spec fn type_ref_of(schema: SchemaView) -> Result<TypeRefView, GenerateErrorView> {
    match schema.schema_type {
        None => Err(GenerateErrorView::MissingSchemaType),
        Some(SchemaType::Object) => match schema.title {
            Some(title) => if title.len() > 0 {
                Ok(TypeRefView::Named(title))
            } else {
                Err(GenerateErrorView::MissingSchemaTitle)
            },
            None => Err(GenerateErrorView::MissingSchemaTitle),
        },
        Some(SchemaType::String) => if reads(schema.format, "time"@) || reads(
            schema.format,
            "date"@,
        ) || reads(schema.format, "date-time"@) {
            Ok(TypeRefView::Timestamp)
        } else {
            Ok(TypeRefView::Text)
        },
        Some(SchemaType::Number) => if reads(schema.format, "int64"@) {
            Ok(TypeRefView::Integer64)
        } else {
            Ok(TypeRefView::Float64)
        },
        Some(SchemaType::Boolean) => Ok(TypeRefView::Boolean),
        Some(SchemaType::Integer) => Ok(TypeRefView::Integer64),
        Some(SchemaType::Array) => Ok(TypeRefView::TextSequence),
    }
}

/// The type that stands for a schema where the schema is used.
pub fn resolve_schema_type(schema: &Schema) -> (r: Result<TypeRef, GenerateError>)
    ensures
        match r {
            Ok(type_ref) => type_ref_of(schema@) == Ok::<TypeRefView, GenerateErrorView>(type_ref@),
            Err(e) => type_ref_of(schema@) == Err::<TypeRefView, GenerateErrorView>(e@),
        },
{
    match schema.schema_type {
        None => Err(GenerateError::MissingSchemaType),
        Some(SchemaType::Object) => match &schema.title {
            Some(title) => if title.as_str().is_empty() {
                Err(GenerateError::MissingSchemaTitle)
            } else {
                Ok(TypeRef::Named(title.clone()))
            },
            None => Err(GenerateError::MissingSchemaTitle),
        },
        Some(SchemaType::String) => if option_reads(&schema.format, "time") || option_reads(
            &schema.format,
            "date",
        ) || option_reads(&schema.format, "date-time") {
            Ok(TypeRef::Timestamp)
        } else {
            Ok(TypeRef::Text)
        },
        Some(SchemaType::Number) => if option_reads(&schema.format, "int64") {
            Ok(TypeRef::Integer64)
        } else {
            Ok(TypeRef::Float64)
        },
        Some(SchemaType::Boolean) => Ok(TypeRef::Boolean),
        Some(SchemaType::Integer) => Ok(TypeRef::Integer64),
        Some(SchemaType::Array) => Ok(TypeRef::TextSequence),
    }
}

/// How many references may be followed downwards from one schema: the number
/// of schemas that a reference can lead to, among the components and the
/// documents. A chain of more references than that passes one schema twice.
pub open spec fn nesting_budget(spec: SpecView) -> nat {
    let count = Schema::table(spec).len() + spec.documents.schemas.len();
    if count > usize::MAX {
        usize::MAX as nat
    } else {
        count as nat
    }
}

/// The schema of a property, with the references that may still be followed
/// below it: one less where the property is itself a reference.
pub open spec fn property_target(
    spec: SpecView,
    property: RefOr<SchemaView>,
    depth: nat,
) -> Result<(SchemaView, nat), GenerateErrorView> {
    match property {
        RefOr::Object(schema) => Ok((schema, depth)),
        RefOr::Ref(path) => if depth == 0 {
            Err(GenerateErrorView::Reference(RefErrorView::CyclicReference(path)))
        } else {
            match resolution::<Schema>(spec, path) {
                Ok(schema) => Ok((schema, (depth - 1) as nat)),
                Err(e) => Err(GenerateErrorView::Reference(e)),
            }
        },
    }
}

/// The records that a schema declares. A schema that is no object declares
/// none. An object declares, for each of its properties in order, what the
/// schema of the property declares, and then its own record, named by its
/// title, with one field for each property.
pub open spec fn declared(spec: SpecView, schema: SchemaView, depth: nat) -> Result<
    Seq<TypeDeclView>,
    GenerateErrorView,
>
    decreases depth, schema, schema.properties.len() + 1,
{
    if schema.schema_type != Some(SchemaType::Object) {
        Ok(Seq::empty())
    } else {
        match type_ref_of(schema) {
            Err(e) => Err(e),
            Ok(_) => match fields_upto(spec, schema, depth, schema.properties.len() as int) {
                Err(e) => Err(e),
                Ok((fields, nested)) => Ok(
                    nested.push(TypeDeclView { name: schema.title->0, fields }),
                ),
            },
        }
    }
}

/// The fields that the first `n` properties of an object give, and the records
/// that the schemas of those properties declare; or the first error.
pub open spec fn fields_upto(spec: SpecView, schema: SchemaView, depth: nat, n: int) -> Result<
    (Seq<(Seq<char>, TypeRefView)>, Seq<TypeDeclView>),
    GenerateErrorView,
>
    decreases depth, schema, n,
{
    if n <= 0 || n > schema.properties.len() {
        Ok((Seq::empty(), Seq::empty()))
    } else {
        match fields_upto(spec, schema, depth, n - 1) {
            Err(e) => Err(e),
            Ok((fields, nested)) => match property_target(spec, schema.properties[n - 1].1, depth) {
                Err(e) => Err(e),
                Ok((target, rest)) => match type_ref_of(target) {
                    Err(e) => Err(e),
                    Ok(type_ref) => match declared(spec, target, rest) {
                        Err(e) => Err(e),
                        Ok(inner) => Ok(
                            (fields.push((schema.properties[n - 1].0, type_ref)), nested + inner),
                        ),
                    },
                },
            },
        }
    }
}

/// An error among the first properties is the error of the whole.
pub proof fn lemma_fields_error(spec: SpecView, schema: SchemaView, depth: nat, i: int, n: int)
    requires
        0 <= i <= n <= schema.properties.len(),
        fields_upto(spec, schema, depth, i) is Err,
    ensures
        fields_upto(spec, schema, depth, n) == fields_upto(spec, schema, depth, i),
    decreases n - i,
{
    if i < n {
        lemma_fields_error(spec, schema, depth, i, n - 1);
    }
}

/// The references that may be followed downwards from one schema.
pub fn budget(spec: &Spec) -> (r: usize)
    ensures
        r == nesting_budget(spec@),
{
    let declared: usize = match Schema::components(spec) {
        Some(entries) => entries.len(),
        None => 0,
    };
    let loaded: usize = spec.documents.schemas.len();
    assert(spec@.documents.schemas.len() == loaded);
    if declared > usize::MAX - loaded {
        usize::MAX
    } else {
        declared + loaded
    }
}

/// The records that a schema declares.
pub fn schema_to_type(schema: &Schema, spec: &Spec, depth: usize) -> (r: Result<
    Vec<TypeDecl>,
    GenerateError,
>)
    ensures
        match r {
            Ok(decls) => declared(spec@, schema@, depth as nat) == Ok::<
                Seq<TypeDeclView>,
                GenerateErrorView,
            >(views(decls@)),
            Err(e) => declared(spec@, schema@, depth as nat) == Err::<
                Seq<TypeDeclView>,
                GenerateErrorView,
            >(e@),
        },
    decreases depth, schema, schema.properties.len() + 1,
{
    proof {
        lemma_schema_properties(schema);
    }
    match schema.schema_type {
        Some(SchemaType::Object) => {},
        _ => {
            let none: Vec<TypeDecl> = Vec::new();
            assert(views(none@) =~= Seq::empty());
            return Ok(none);
        },
    }
    let name = match resolve_schema_type(schema) {
        Ok(TypeRef::Named(name)) => name,
        Ok(_) => {
            return Err(GenerateError::MissingSchemaTitle);
        },
        Err(e) => {
            return Err(e);
        },
    };
    match extract_struct_fields(schema, spec, depth) {
        Err(e) => Err(e),
        Ok((fields, nested)) => {
            let mut decls = nested;
            let ghost before = decls@;
            let decl = TypeDecl { name, fields };
            decls.push(decl);
            proof {
                lemma_views_push(before, decl);
            }
            Ok(decls)
        },
    }
}

/// The fields of an object, one for each property in order, and the records
/// that the schemas of the properties declare.
pub fn extract_struct_fields(schema: &Schema, spec: &Spec, depth: usize) -> (r: Result<
    (Vec<(String, TypeRef)>, Vec<TypeDecl>),
    GenerateError,
>)
    ensures
        match r {
            Ok((fields, nested)) => fields_upto(
                spec@,
                schema@,
                depth as nat,
                schema.properties.len() as int,
            ) == Ok::<(Seq<(Seq<char>, TypeRefView)>, Seq<TypeDeclView>), GenerateErrorView>(
                (field_views(fields@), views(nested@)),
            ),
            Err(e) => fields_upto(spec@, schema@, depth as nat, schema.properties.len() as int)
                == Err::<(Seq<(Seq<char>, TypeRefView)>, Seq<TypeDeclView>), GenerateErrorView>(e@),
        },
    decreases depth, schema, schema.properties.len(),
{
    let mut fields: Vec<(String, TypeRef)> = Vec::new();
    let mut nested: Vec<TypeDecl> = Vec::new();
    let count = schema.properties.len();
    let mut i: usize = 0;
    assert(field_views(fields@) =~= Seq::empty());
    assert(views(nested@) =~= Seq::empty());
    proof {
        lemma_schema_properties(schema);
    }
    while i < count
        invariant
            count == schema.properties.len(),
            schema@.properties == named(schema.properties@),
            i <= count,
            fields_upto(spec@, schema@, depth as nat, i as int) == Ok::<
                (Seq<(Seq<char>, TypeRefView)>, Seq<TypeDeclView>),
                GenerateErrorView,
            >((field_views(fields@), views(nested@))),
        decreases count - i,
    {
        let entry = &schema.properties[i];
        let (target, rest): (&Schema, usize) = match &entry.1 {
            ObjectOrReference::Object(inner) => (inner, depth),
            ObjectOrReference::Ref { ref_path } => {
                if depth == 0 {
                    proof {
                        lemma_fields_error(spec@, schema@, depth as nat, i + 1, count as int);
                    }
                    return Err(
                        GenerateError::Reference(RefError::CyclicReference(ref_path.clone())),
                    );
                }
                match Schema::from_ref(spec, ref_path.as_str()) {
                    Ok(found) => (found, (depth - 1) as usize),
                    Err(e) => {
                        proof {
                            lemma_fields_error(spec@, schema@, depth as nat, i + 1, count as int);
                        }
                        return Err(GenerateError::Reference(e));
                    },
                }
            },
        };
        assert(schema@.properties[i as int] == (entry.0@, entry.1@));
        assert(property_target(spec@, schema@.properties[i as int].1, depth as nat) == Ok::<
            (SchemaView, nat),
            GenerateErrorView,
        >((target@, rest as nat)));
        let type_ref = match resolve_schema_type(target) {
            Ok(type_ref) => type_ref,
            Err(e) => {
                proof {
                    lemma_fields_error(spec@, schema@, depth as nat, i + 1, count as int);
                }
                return Err(e);
            },
        };
        let mut inner = match schema_to_type(target, spec, rest) {
            Ok(inner) => inner,
            Err(e) => {
                proof {
                    lemma_fields_error(spec@, schema@, depth as nat, i + 1, count as int);
                }
                return Err(e);
            },
        };
        let ghost old_fields = fields@;
        let ghost old_nested = nested@;
        let ghost inner_decls = inner@;
        fields.push((entry.0.clone(), type_ref));
        nested.append(&mut inner);
        proof {
            assert(field_views(fields@) =~= field_views(old_fields).push(
                (schema.properties[i as int].0@, type_ref@),
            ));
            lemma_views_add(old_nested, inner_decls);
        }
        i += 1;
    }
    Ok((fields, nested))
}

/// The name of a record.
pub open spec fn decl_name() -> spec_fn(TypeDeclView) -> Seq<char> {
    |decl: TypeDeclView| decl.name
}

/// Whether one of the records has this name.
pub fn has_name(decls: &Vec<TypeDecl>, name: &str) -> (r: bool)
    ensures
        r == keys_of(views(decls@), decl_name()).contains(name@),
{
    let mut i: usize = 0;
    while i < decls.len()
        invariant
            i <= decls.len(),
            forall|j: int| 0 <= j < i ==> keys_of(views(decls@), decl_name())[j] != name@,
        decreases decls.len() - i,
    {
        if same_text(decls[i].name.as_str(), name) {
            assert(keys_of(views(decls@), decl_name())[i as int] == name@);
            return true;
        }
        i += 1;
    }
    false
}

/// The records without those whose name an earlier one has.
pub fn dedup(decls: Vec<TypeDecl>) -> (r: Vec<TypeDecl>)
    ensures
        views(r@) == first_of_each(views(decls@), decl_name()),
{
    let mut kept: Vec<TypeDecl> = Vec::new();
    assert(views(decls@).take(0) =~= Seq::empty());
    assert(views(kept@) =~= Seq::empty());
    for decl in it: decls
        invariant
            it.seq() == decls@,
            views(kept@) == first_of_each(views(decls@).take(it.index() as int), decl_name()),
    {
        let ghost i = it.index() as int;
        let ghost before = kept@;
        proof {
            assert(views(decls@).take(i + 1).drop_last() =~= views(decls@).take(i));
            assert(views(decls@).take(i + 1).last() == decl@);
        }
        if !has_name(&kept, decl.name.as_str()) {
            kept.push(decl);
            proof {
                lemma_views_push(before, decl);
            }
        }
    }
    assert(views(decls@).take(decls@.len() as int) =~= views(decls@));
    kept
}

/// What a schema maps to: the type that stands for it where it is used, and
/// the records that it declares, each name once, at its first place. A
/// schema that is no object declares none.
pub open spec fn mapped(spec: SpecView, schema: SchemaView) -> Result<
    (TypeRefView, Seq<TypeDeclView>),
    GenerateErrorView,
> {
    match type_ref_of(schema) {
        Err(e) => Err(e),
        Ok(type_ref) => match declared(spec, schema, nesting_budget(spec)) {
            Err(e) => Err(e),
            Ok(decls) => Ok((type_ref, first_of_each(decls, decl_name()))),
        },
    }
}

/// Maps a schema to the type that stands for it and to the records that it
/// declares.
pub fn map_type(schema: &Schema, spec: &Spec) -> (r: Result<
    (TypeRef, Vec<TypeDecl>),
    GenerateError,
>)
    ensures
        match r {
            Ok((type_ref, decls)) => mapped(spec@, schema@) == Ok::<
                (TypeRefView, Seq<TypeDeclView>),
                GenerateErrorView,
            >((type_ref@, views(decls@))),
            Err(e) => mapped(spec@, schema@) == Err::<
                (TypeRefView, Seq<TypeDeclView>),
                GenerateErrorView,
            >(e@),
        },
{
    let type_ref = match resolve_schema_type(schema) {
        Ok(type_ref) => type_ref,
        Err(e) => {
            return Err(e);
        },
    };
    match schema_to_type(schema, spec, budget(spec)) {
        Ok(decls) => Ok((type_ref, dedup(decls))),
        Err(e) => Err(e),
    }
}

/// The records that the schema of one parameter declares.
pub open spec fn parameter_decls(spec: SpecView, parameter: RefOr<ParameterView>) -> Result<
    Seq<TypeDeclView>,
    GenerateErrorView,
> {
    match target::<Parameter>(parameter, spec) {
        Err(e) => Err(GenerateErrorView::Reference(e)),
        Ok(parameter) => match parameter.schema {
            None => Ok(Seq::empty()),
            Some(schema) => match target::<Schema>(schema, spec) {
                Err(e) => Err(GenerateErrorView::Reference(e)),
                Ok(schema) => declared(spec, schema, nesting_budget(spec)),
            },
        },
    }
}

/// `parameter_decls`, as a step over the parameters of an operation.
pub open spec fn per_parameter(spec: SpecView) -> spec_fn(RefOr<ParameterView>) -> Result<
    Seq<TypeDeclView>,
    GenerateErrorView,
> {
    |parameter: RefOr<ParameterView>| parameter_decls(spec, parameter)
}

/// The records that the parameters of one operation declare, in order.
pub open spec fn operation_decls(spec: SpecView, operation: OperationView) -> Result<
    Seq<TypeDeclView>,
    GenerateErrorView,
> {
    try_flat_map(operation.parameters, per_parameter(spec))
}

/// `operation_decls`, as a step over the operations of a specification.
pub open spec fn per_operation(spec: SpecView) -> spec_fn(
    (Seq<char>, Method, OperationView),
) -> Result<Seq<TypeDeclView>, FailureView> {
    |entry: (Seq<char>, Method, OperationView)|
        located_at(entry.0, entry.1, operation_decls(spec, entry.2))
}

/// The records that the parameters of all operations declare, in the order
/// of the operations; a record may occur more than once.
pub open spec fn parameter_schemas(spec: SpecView) -> Result<Seq<TypeDeclView>, FailureView> {
    try_flat_map(spec.operations(), per_operation(spec))
}

/// The type declarations of a specification: the records that the parameters
/// of its operations declare, each name once, at its first place.
pub open spec fn type_declarations(spec: SpecView) -> Result<Seq<TypeDeclView>, FailureView> {
    match parameter_schemas(spec) {
        Err(e) => Err(e),
        Ok(decls) => Ok(first_of_each(decls, decl_name())),
    }
}

/// No two type declarations of a specification have one name, and every
/// name that a parameter declares is among them.
pub proof fn lemma_each_name_once(spec: SpecView)
    requires
        type_declarations(spec) is Ok,
    ensures
        keys_of(type_declarations(spec)->Ok_0, decl_name()).no_duplicates(),
        forall|name: Seq<char>|
            keys_of(parameter_schemas(spec)->Ok_0, decl_name()).contains(name) <==> keys_of(
                type_declarations(spec)->Ok_0,
                decl_name(),
            ).contains(name),
{
    let all = parameter_schemas(spec)->Ok_0;
    lemma_first_of_each(all, decl_name());
    assert forall|name: Seq<char>|
        keys_of(all, decl_name()).contains(name) <==> keys_of(
            first_of_each(all, decl_name()),
            decl_name(),
        ).contains(name) by {
        lemma_first_of_each_keeps_keys(all, decl_name(), name);
    }
}

/// The records that the parameters of one operation declare.
pub fn collect_schemas_from_operation(spec: &Spec, operation: &Operation) -> (r: Result<
    Vec<TypeDecl>,
    GenerateError,
>)
    ensures
        match r {
            Ok(decls) => operation_decls(spec@, operation@) == Ok::<
                Seq<TypeDeclView>,
                GenerateErrorView,
            >(views(decls@)),
            Err(e) => operation_decls(spec@, operation@) == Err::<
                Seq<TypeDeclView>,
                GenerateErrorView,
            >(e@),
        },
{
    let mut decls: Vec<TypeDecl> = Vec::new();
    let count = operation.parameters.len();
    let depth = budget(spec);
    let ghost step = per_parameter(spec@);
    let mut i: usize = 0;
    assert(views(decls@) =~= Seq::empty());
    while i < count
        invariant
            count == operation.parameters.len(),
            i <= count,
            depth == nesting_budget(spec@),
            step == per_parameter(spec@),
            try_flat_map_upto(operation@.parameters, step, i as int) == Ok::<
                Seq<TypeDeclView>,
                GenerateErrorView,
            >(views(decls@)),
        decreases count - i,
    {
        assert(operation@.parameters[i as int] == operation.parameters[i as int]@);
        let parameter = match operation.parameters[i].resolve(spec) {
            Ok(parameter) => parameter,
            Err(e) => {
                proof {
                    lemma_try_flat_map_error(operation@.parameters, step, i + 1, count as int);
                }
                return Err(GenerateError::Reference(e));
            },
        };
        match &parameter.schema {
            None => {
                assert(views(decls@) + Seq::<TypeDeclView>::empty() =~= views(decls@));
            },
            Some(schema) => {
                let schema = match schema.resolve(spec) {
                    Ok(schema) => schema,
                    Err(e) => {
                        proof {
                            lemma_try_flat_map_error(
                                operation@.parameters,
                                step,
                                i + 1,
                                count as int,
                            );
                        }
                        return Err(GenerateError::Reference(e));
                    },
                };
                let mut more = match schema_to_type(schema, spec, depth) {
                    Ok(more) => more,
                    Err(e) => {
                        proof {
                            lemma_try_flat_map_error(
                                operation@.parameters,
                                step,
                                i + 1,
                                count as int,
                            );
                        }
                        return Err(e);
                    },
                };
                let ghost before = decls@;
                let ghost added = more@;
                decls.append(&mut more);
                proof {
                    lemma_views_add(before, added);
                }
            },
        }
        i += 1;
    }
    Ok(decls)
}

/// The records that the parameters of all operations declare.
pub fn collect_schemas_from_params(spec: &Spec) -> (r: Result<Vec<TypeDecl>, Failure>)
    ensures
        match r {
            Ok(decls) => parameter_schemas(spec@) == Ok::<Seq<TypeDeclView>, FailureView>(
                views(decls@),
            ),
            Err(e) => parameter_schemas(spec@) == Err::<Seq<TypeDeclView>, FailureView>(e@),
        },
{
    let operations = spec.operations();
    let mut decls: Vec<TypeDecl> = Vec::new();
    let ghost step = per_operation(spec@);
    let mut i: usize = 0;
    assert(views(decls@) =~= Seq::empty());
    while i < operations.len()
        invariant
            i <= operations.len(),
            located_values(operations@) == spec@.operations(),
            step == per_operation(spec@),
            try_flat_map_upto(spec@.operations(), step, i as int) == Ok::<
                Seq<TypeDeclView>,
                FailureView,
            >(views(decls@)),
        decreases operations.len() - i,
    {
        let (path, method, operation) = operations[i];
        assert(spec@.operations()[i as int] == (path@, method, operation@));
        let mut more = match collect_schemas_from_operation(spec, operation) {
            Ok(more) => more,
            Err(error) => {
                proof {
                    lemma_try_flat_map_error(
                        spec@.operations(),
                        step,
                        i + 1,
                        operations.len() as int,
                    );
                }
                return Err(Failure { path: path.clone(), method, error });
            },
        };
        let ghost before = decls@;
        let ghost added = more@;
        decls.append(&mut more);
        proof {
            lemma_views_add(before, added);
        }
        i += 1;
    }
    Ok(decls)
}

/// The type declarations of a specification.
pub fn run(spec: &Spec) -> (r: Result<Vec<TypeDecl>, Failure>)
    ensures
        match r {
            Ok(decls) => type_declarations(spec@) == Ok::<Seq<TypeDeclView>, FailureView>(
                views(decls@),
            ),
            Err(e) => type_declarations(spec@) == Err::<Seq<TypeDeclView>, FailureView>(e@),
        },
{
    match collect_schemas_from_params(spec) {
        Ok(decls) => Ok(dedup(decls)),
        Err(e) => Err(e),
    }
}

} // verus!
