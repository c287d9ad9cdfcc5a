//! The code emitter: render an emission plan into concrete declarations —
//! the builder type with its storage fields, the zero-argument factory that
//! initializes every slot to its default, the builder's methods, and the
//! finalizer's field reads.

use vstd::prelude::*;
use vstd::string::StringExecFns;

use crate::model::{
    method_views, names_view, storage_views, BuilderModel, MethodSpec, MethodView, ModelView,
    StorageKind, StorageKindView, StorageSpec, StorageView,
};
use crate::schema::{TypeDesc, TypeView};

verus! {

/// The default a storage field starts from in the factory.
#[derive(Debug, PartialEq, Eq, Structural, Clone, Copy)]
pub enum InitKind {
    EmptyOptional,
    EmptyCollection,
}

/// One storage field of the generated builder type: its name, its declared
/// builder-side type (the optional or collection wrapper over the element
/// type), and its factory default.
#[derive(Debug, PartialEq, Eq)]
pub struct StorageDecl {
    pub field: String,
    pub ty: TypeDesc,
    pub init: InitKind,
}

/// Mathematical model of a `StorageDecl`.
pub struct StorageDeclView {
    pub field: Seq<char>,
    pub ty: TypeView,
    pub init: InitKind,
}

impl View for StorageDecl {
    type V = StorageDeclView;

    open spec fn view(&self) -> StorageDeclView {
        StorageDeclView { field: self.field@, ty: self.ty@, init: self.init }
    }
}

/// What a generated method's body does to its field's slot.
#[derive(Debug, PartialEq, Eq, Structural, Clone, Copy)]
pub enum MethodBody {
    StoreValue,
    ReplaceCollection,
    AppendElement,
}

/// One generated method: its name, the field it works on, its parameter
/// type, and what its body does.
#[derive(Debug, PartialEq, Eq)]
pub struct MethodDecl {
    pub name: String,
    pub field: String,
    pub param: TypeDesc,
    pub body: MethodBody,
}

/// Mathematical model of a `MethodDecl`.
pub struct MethodDeclView {
    pub name: Seq<char>,
    pub field: Seq<char>,
    pub param: TypeView,
    pub body: MethodBody,
}

impl View for MethodDecl {
    type V = MethodDeclView;

    open spec fn view(&self) -> MethodDeclView {
        MethodDeclView { name: self.name@, field: self.field@, param: self.param@, body: self.body }
    }
}

/// How the generated finalizer reads one storage field: unwrap it and fail
/// with the missing-field error when empty (required fields), or copy the
/// optional / the collection as it stands (never fails).
#[derive(Debug, PartialEq, Eq, Structural, Clone, Copy)]
pub enum ReadMode {
    UnwrapRequired,
    CopyOptional,
    CopyCollection,
}

/// One field read of the generated finalizer.
#[derive(Debug, PartialEq, Eq)]
pub struct FieldRead {
    pub field: String,
    pub mode: ReadMode,
}

/// Mathematical model of a `FieldRead`.
pub struct FieldReadView {
    pub field: Seq<char>,
    pub mode: ReadMode,
}

impl View for FieldRead {
    type V = FieldReadView;

    open spec fn view(&self) -> FieldReadView {
        FieldReadView { field: self.field@, mode: self.mode }
    }
}

/// The emitted declarations for one schema: the builder type (name and
/// storage fields), the factory defaults, the methods, and the finalizer's
/// reads, in schema order.
#[derive(Debug, PartialEq, Eq)]
pub struct Artifact {
    pub builder_name: String,
    pub record_name: String,
    pub storage_decls: Vec<StorageDecl>,
    pub method_decls: Vec<MethodDecl>,
    pub finalizer: Vec<FieldRead>,
}

/// Mathematical model of an `Artifact`.
pub struct ArtifactView {
    pub builder_name: Seq<char>,
    pub record_name: Seq<char>,
    pub storage_decls: Seq<StorageDeclView>,
    pub method_decls: Seq<MethodDeclView>,
    pub finalizer: Seq<FieldReadView>,
}

/// The model of a sequence of storage declarations.
pub open spec fn storage_decl_views(s: Seq<StorageDecl>) -> Seq<StorageDeclView> {
    s.map_values(|x: StorageDecl| x@)
}

/// The model of a sequence of method declarations.
pub open spec fn method_decl_views(s: Seq<MethodDecl>) -> Seq<MethodDeclView> {
    s.map_values(|x: MethodDecl| x@)
}

/// The model of a sequence of finalizer reads.
pub open spec fn field_read_views(s: Seq<FieldRead>) -> Seq<FieldReadView> {
    s.map_values(|x: FieldRead| x@)
}

impl View for Artifact {
    type V = ArtifactView;

    open spec fn view(&self) -> ArtifactView {
        ArtifactView {
            builder_name: self.builder_name@,
            record_name: self.record_name@,
            storage_decls: storage_decl_views(self.storage_decls@),
            method_decls: method_decl_views(self.method_decls@),
            finalizer: field_read_views(self.finalizer@),
        }
    }
}

/// The declaration one storage entry becomes: the wrapper type over the
/// element type, defaulted empty.
pub open spec fn spec_storage_decl(s: StorageView) -> StorageDeclView {
    match s.kind {
        StorageKindView::OptionalSlot { elem } => StorageDeclView {
            field: s.field,
            ty: TypeView::Generic { name: crate::OPTIONAL_HEAD@, inner: Box::new(elem) },
            init: InitKind::EmptyOptional,
        },
        StorageKindView::CollectionSlot { elem } => StorageDeclView {
            field: s.field,
            ty: TypeView::Generic { name: crate::COLLECTION_HEAD@, inner: Box::new(elem) },
            init: InitKind::EmptyCollection,
        },
    }
}

/// The storage kind of the named field: the first storage entry carrying
/// that field name, scanned in order.
pub open spec fn spec_kind_lookup(storage: Seq<StorageView>, f: Seq<char>) -> Option<
    StorageKindView,
>
    decreases storage.len(),
{
    if storage.len() == 0 {
        None
    } else if storage.first().field == f {
        Some(storage.first().kind)
    } else {
        spec_kind_lookup(storage.drop_first(), f)
    }
}

/// The declaration one method specification becomes. A setter is named after
/// its field; its body stores the wrapped value for an optional slot and
/// replaces the whole collection for a collection slot. An appender carries
/// its chosen name and pushes one element.
pub open spec fn spec_method_decl(storage: Seq<StorageView>, m: MethodView) -> MethodDeclView {
    match m {
        MethodView::Setter { field, param } => MethodDeclView {
            name: field,
            field,
            param,
            body: match spec_kind_lookup(storage, field) {
                Some(StorageKindView::CollectionSlot { .. }) => MethodBody::ReplaceCollection,
                _ => MethodBody::StoreValue,
            },
        },
        MethodView::Appender { field, elem, method_name } => MethodDeclView {
            name: method_name,
            field,
            param: elem,
            body: MethodBody::AppendElement,
        },
    }
}

/// How the finalizer reads one storage entry: collections are copied,
/// optional slots of validated (required) fields are unwrapped, the rest are
/// copied as they stand.
pub open spec fn spec_read_mode(required: Seq<Seq<char>>, s: StorageView) -> ReadMode {
    match s.kind {
        StorageKindView::CollectionSlot { .. } => ReadMode::CopyCollection,
        StorageKindView::OptionalSlot { .. } => if required.contains(s.field) {
            ReadMode::UnwrapRequired
        } else {
            ReadMode::CopyOptional
        },
    }
}

/// The whole emitted artifact of an emission plan.
pub open spec fn spec_emit(m: ModelView) -> ArtifactView {
    ArtifactView {
        builder_name: m.builder_name,
        record_name: m.record_name,
        storage_decls: m.storage.map_values(|s: StorageView| spec_storage_decl(s)),
        method_decls: m.methods.map_values(|mm: MethodView| spec_method_decl(m.storage, mm)),
        finalizer: m.storage.map_values(
            |s: StorageView| FieldReadView { field: s.field, mode: spec_read_mode(m.required_fields, s) },
        ),
    }
}

/// Whether the named field's storage, looked up in order, is a collection
/// slot.
fn field_is_collection(storage: &Vec<StorageSpec>, f: &String) -> (r: bool)
    ensures
        r == (spec_kind_lookup(storage_views(storage@), f@) matches Some(
            StorageKindView::CollectionSlot { .. },
        )),
{
    let ghost sv = storage_views(storage@);
    let mut i: usize = 0;
    proof {
        assert(sv.skip(0) =~= sv);
    }
    while i < storage.len()
        invariant
            0 <= i <= storage.len(),
            sv == storage_views(storage@),
            sv.len() == storage@.len(),
            spec_kind_lookup(sv, f@) == spec_kind_lookup(sv.skip(i as int), f@),
        decreases storage.len() - i,
    {
        proof {
            assert(sv.skip(i as int).first() == sv[i as int]);
            assert(sv.skip(i as int).drop_first() =~= sv.skip(i as int + 1));
        }
        if storage[i].field == *f {
            return match &storage[i].kind {
                StorageKind::CollectionSlot { .. } => true,
                StorageKind::OptionalSlot { .. } => false,
            };
        }
        i = i + 1;
    }
    proof {
        assert(sv.skip(sv.len() as int) =~= Seq::<StorageView>::empty());
    }
    false
}

/// Whether the list of names holds the given one.
fn contains_name(names: &Vec<String>, f: &String) -> (r: bool)
    ensures
        r == names_view(names@).contains(f@),
{
    let mut i: usize = 0;
    while i < names.len()
        invariant
            0 <= i <= names.len(),
            forall|j: int| 0 <= j < i ==> names_view(names@)[j] != f@,
        decreases names.len() - i,
    {
        if names[i] == *f {
            proof {
                assert(names_view(names@)[i as int] == f@);
            }
            return true;
        }
        i = i + 1;
    }
    proof {
        assert(!names_view(names@).contains(f@));
    }
    false
}

/// Code Emitter: render an emission plan into the generated declarations.
pub fn emit(m: &BuilderModel) -> (a: Artifact)
    ensures
        a@ == spec_emit(m@),
{
    let ghost mv = m@;
    let mut storage_decls: Vec<StorageDecl> = Vec::new();
    let mut i: usize = 0;
    while i < m.storage.len()
        invariant
            0 <= i <= m.storage.len(),
            mv == m@,
            mv.storage.len() == m.storage@.len(),
            storage_decl_views(storage_decls@) =~= mv.storage.take(i as int).map_values(
                |s: StorageView| spec_storage_decl(s),
            ),
        decreases m.storage.len() - i,
    {
        let ghost prev = storage_decls@;
        let entry = &m.storage[i];
        let decl = match &entry.kind {
            StorageKind::OptionalSlot { elem } => StorageDecl {
                field: entry.field.clone(),
                ty: TypeDesc::Generic {
                    name: String::from_str(crate::OPTIONAL_HEAD),
                    inner: Box::new(elem.clone()),
                },
                init: InitKind::EmptyOptional,
            },
            StorageKind::CollectionSlot { elem } => StorageDecl {
                field: entry.field.clone(),
                ty: TypeDesc::Generic {
                    name: String::from_str(crate::COLLECTION_HEAD),
                    inner: Box::new(elem.clone()),
                },
                init: InitKind::EmptyCollection,
            },
        };
        storage_decls.push(decl);
        proof {
            assert(storage_decl_views(storage_decls@) =~= storage_decl_views(prev).push(
                spec_storage_decl(mv.storage[i as int]),
            ));
            assert(mv.storage.take(i as int + 1).map_values(|s: StorageView| spec_storage_decl(s))
                =~= mv.storage.take(i as int).map_values(|s: StorageView| spec_storage_decl(s)).push(
                spec_storage_decl(mv.storage[i as int]),
            ));
        }
        i = i + 1;
    }
    let mut method_decls: Vec<MethodDecl> = Vec::new();
    let mut k: usize = 0;
    while k < m.methods.len()
        invariant
            0 <= k <= m.methods.len(),
            mv == m@,
            mv.methods.len() == m.methods@.len(),
            method_decl_views(method_decls@) =~= mv.methods.take(k as int).map_values(
                |mm: MethodView| spec_method_decl(mv.storage, mm),
            ),
        decreases m.methods.len() - k,
    {
        let ghost prev = method_decls@;
        let decl = match &m.methods[k] {
            MethodSpec::Setter { field, param } => {
                let body = if field_is_collection(&m.storage, field) {
                    MethodBody::ReplaceCollection
                } else {
                    MethodBody::StoreValue
                };
                MethodDecl { name: field.clone(), field: field.clone(), param: param.clone(), body }
            },
            MethodSpec::Appender { field, elem, method_name } => MethodDecl {
                name: method_name.clone(),
                field: field.clone(),
                param: elem.clone(),
                body: MethodBody::AppendElement,
            },
        };
        method_decls.push(decl);
        proof {
            assert(method_decl_views(method_decls@) =~= method_decl_views(prev).push(
                spec_method_decl(mv.storage, mv.methods[k as int]),
            ));
            assert(mv.methods.take(k as int + 1).map_values(
                |mm: MethodView| spec_method_decl(mv.storage, mm),
            ) =~= mv.methods.take(k as int).map_values(
                |mm: MethodView| spec_method_decl(mv.storage, mm),
            ).push(spec_method_decl(mv.storage, mv.methods[k as int])));
        }
        k = k + 1;
    }
    let mut finalizer: Vec<FieldRead> = Vec::new();
    let mut t: usize = 0;
    while t < m.storage.len()
        invariant
            0 <= t <= m.storage.len(),
            mv == m@,
            mv.storage.len() == m.storage@.len(),
            field_read_views(finalizer@) =~= mv.storage.take(t as int).map_values(
                |s: StorageView| FieldReadView {
                    field: s.field,
                    mode: spec_read_mode(mv.required_fields, s),
                },
            ),
        decreases m.storage.len() - t,
    {
        let ghost prev = finalizer@;
        let entry = &m.storage[t];
        let mode = match &entry.kind {
            StorageKind::CollectionSlot { .. } => ReadMode::CopyCollection,
            StorageKind::OptionalSlot { .. } => if contains_name(
                &m.required_fields,
                &entry.field,
            ) {
                ReadMode::UnwrapRequired
            } else {
                ReadMode::CopyOptional
            },
        };
        finalizer.push(FieldRead { field: entry.field.clone(), mode });
        proof {
            assert(field_read_views(finalizer@) =~= field_read_views(prev).push(
                FieldReadView {
                    field: mv.storage[t as int].field,
                    mode: spec_read_mode(mv.required_fields, mv.storage[t as int]),
                },
            ));
            assert(mv.storage.take(t as int + 1).map_values(
                |s: StorageView| FieldReadView {
                    field: s.field,
                    mode: spec_read_mode(mv.required_fields, s),
                },
            ) =~= mv.storage.take(t as int).map_values(
                |s: StorageView| FieldReadView {
                    field: s.field,
                    mode: spec_read_mode(mv.required_fields, s),
                },
            ).push(
                FieldReadView {
                    field: mv.storage[t as int].field,
                    mode: spec_read_mode(mv.required_fields, mv.storage[t as int]),
                },
            ));
        }
        t = t + 1;
    }
    proof {
        assert(mv.storage.take(mv.storage.len() as int) =~= mv.storage);
        assert(mv.methods.take(mv.methods.len() as int) =~= mv.methods);
    }
    Artifact {
        builder_name: m.builder_name.clone(),
        record_name: m.record_name.clone(),
        storage_decls,
        method_decls,
        finalizer,
    }
}

} // verus!
