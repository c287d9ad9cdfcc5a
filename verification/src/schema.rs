//! The schema data model: type descriptors, field specifications, the record
//! schema, and the schema parser that checks the raw declaration's shape.

use vstd::prelude::*;

verus! {

/// A type descriptor: a plain named type, or a generic wrapper holding one
/// inner type parameter (this system only ever looks one level deep).
#[derive(Debug, PartialEq, Eq)]
pub enum TypeDesc {
    Plain { name: String },
    Generic { name: String, inner: Box<TypeDesc> },
}

/// Mathematical model of a `TypeDesc`: the same shape over sequences of
/// characters.
pub enum TypeView {
    Plain { name: Seq<char> },
    Generic { name: Seq<char>, inner: Box<TypeView> },
}

/// The model of a type descriptor, structurally.
pub open spec fn type_view(t: TypeDesc) -> TypeView
    decreases t,
{
    match t {
        TypeDesc::Plain { name } => TypeView::Plain { name: name@ },
        TypeDesc::Generic { name, inner } => TypeView::Generic {
            name: name@,
            inner: Box::new(type_view(*inner)),
        },
    }
}

impl View for TypeDesc {
    type V = TypeView;

    open spec fn view(&self) -> TypeView {
        type_view(*self)
    }
}

impl Clone for TypeDesc {
    fn clone(&self) -> (r: TypeDesc)
        ensures
            r@ == self@,
        decreases *self,
    {
        match self {
            TypeDesc::Plain { name } => TypeDesc::Plain { name: name.clone() },
            TypeDesc::Generic { name, inner } => TypeDesc::Generic {
                name: name.clone(),
                inner: Box::new((**inner).clone()),
            },
        }
    }
}

/// One declared field of the source record: its name, its declared type, and
/// zero or one raw annotation payload (opaque text until classification).
#[derive(Debug, PartialEq, Eq)]
pub struct FieldSpec {
    pub name: String,
    pub declared_type: TypeDesc,
    pub annotation: Option<String>,
}

/// Mathematical model of a `FieldSpec`.
pub struct FieldView {
    pub name: Seq<char>,
    pub declared_type: TypeView,
    pub annotation: Option<Seq<char>>,
}

impl View for FieldSpec {
    type V = FieldView;

    open spec fn view(&self) -> FieldView {
        FieldView {
            name: self.name@,
            declared_type: self.declared_type@,
            annotation: match self.annotation {
                Some(a) => Some(a@),
                None => None,
            },
        }
    }
}

/// The model of a sequence of field specifications.
pub open spec fn fields_view(fs: Seq<FieldSpec>) -> Seq<FieldView> {
    fs.map_values(|f: FieldSpec| f@)
}

/// The full record description: the record type's name and its fields, in
/// declared order.
#[derive(Debug, PartialEq, Eq)]
pub struct StructSchema {
    pub record_name: String,
    pub fields: Vec<FieldSpec>,
}

/// Mathematical model of a `StructSchema`.
pub struct SchemaView {
    pub record_name: Seq<char>,
    pub fields: Seq<FieldView>,
}

impl View for StructSchema {
    type V = SchemaView;

    open spec fn view(&self) -> SchemaView {
        SchemaView { record_name: self.record_name@, fields: fields_view(self.fields@) }
    }
}

/// The shape of the raw input declaration, as the host reports it.
#[derive(Debug, PartialEq, Eq, Structural, Clone, Copy)]
pub enum RawShape {
    NamedFields,
    TupleFields,
    UnitFields,
    EnumShape,
    UnionShape,
}

/// A raw record declaration handed in by the host: a type name, the
/// declaration's shape, whether it carries generic parameters, and its
/// fields (meaningful only for the named-fields shape).
#[derive(Debug, PartialEq, Eq)]
pub struct RawDecl {
    pub record_name: String,
    pub shape: RawShape,
    pub generic_params: bool,
    pub fields: Vec<FieldSpec>,
}

/// Mathematical model of a `RawDecl`.
pub struct RawView {
    pub record_name: Seq<char>,
    pub shape: RawShape,
    pub generic_params: bool,
    pub fields: Seq<FieldView>,
}

impl View for RawDecl {
    type V = RawView;

    open spec fn view(&self) -> RawView {
        RawView {
            record_name: self.record_name@,
            shape: self.shape,
            generic_params: self.generic_params,
            fields: fields_view(self.fields@),
        }
    }
}

/// A classification diagnostic: the input is not a named-field record, an
/// annotation does not parse as `each = "..."`, or a valid `each` annotation
/// sits on a field whose declared type is not a collection. The two
/// annotation diagnostics are anchored to the offending field by name.
#[derive(Debug, PartialEq, Eq)]
pub enum ClassificationError {
    UnsupportedShape,
    MalformedAnnotation { field: String },
    AnnotationTypeMismatch { field: String },
}

/// Mathematical model of a `ClassificationError`.
pub enum ClassificationErrorView {
    UnsupportedShape,
    MalformedAnnotation { field: Seq<char> },
    AnnotationTypeMismatch { field: Seq<char> },
}

impl View for ClassificationError {
    type V = ClassificationErrorView;

    open spec fn view(&self) -> ClassificationErrorView {
        match self {
            ClassificationError::UnsupportedShape => ClassificationErrorView::UnsupportedShape,
            ClassificationError::MalformedAnnotation { field } =>
                ClassificationErrorView::MalformedAnnotation { field: field@ },
            ClassificationError::AnnotationTypeMismatch { field } =>
                ClassificationErrorView::AnnotationTypeMismatch { field: field@ },
        }
    }
}

impl ClassificationError {
    /// The diagnostic message for this error, as the host would print it.
    pub fn message(&self) -> (m: &'static str)
        ensures
            self@ matches ClassificationErrorView::UnsupportedShape
                ==> m@ == "expected a record type with named fields"@,
            self@ matches ClassificationErrorView::MalformedAnnotation { .. }
                ==> m@ == "expected `each = \"...\"`"@,
            self@ matches ClassificationErrorView::AnnotationTypeMismatch { .. }
                ==> m@ == "each annotation requires a collection-typed field"@,
    {
        match self {
            ClassificationError::UnsupportedShape => "expected a record type with named fields",
            ClassificationError::MalformedAnnotation { .. } => "expected `each = \"...\"`",
            ClassificationError::AnnotationTypeMismatch { .. } =>
                "each annotation requires a collection-typed field",
        }
    }
}

/// The model of a schema-parsing outcome.
pub open spec fn schema_result_view(r: Result<StructSchema, ClassificationError>) -> Result<
    SchemaView,
    ClassificationErrorView,
> {
    match r {
        Ok(s) => Ok(s@),
        Err(e) => Err(e@),
    }
}

/// What the schema parser returns: the schema itself for a non-generic
/// named-field record, and `UnsupportedShape` for every other shape.
pub open spec fn spec_parse_schema(r: RawView) -> Result<SchemaView, ClassificationErrorView> {
    if r.shape == RawShape::NamedFields && !r.generic_params {
        Ok(SchemaView { record_name: r.record_name, fields: r.fields })
    } else {
        Err(ClassificationErrorView::UnsupportedShape)
    }
}

/// Schema Parser: accept a raw declaration exactly when it is a named-field
/// record without generic parameters; reject every other shape with
/// `UnsupportedShape`.
pub fn parse_schema(raw: RawDecl) -> (r: Result<StructSchema, ClassificationError>)
    ensures
        schema_result_view(r) == spec_parse_schema(raw@),
{
    if raw.shape == RawShape::NamedFields && !raw.generic_params {
        Ok(StructSchema { record_name: raw.record_name, fields: raw.fields })
    } else {
        Err(ClassificationError::UnsupportedShape)
    }
}

} // verus!
