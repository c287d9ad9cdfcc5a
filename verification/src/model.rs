//! The builder model: from a schema and its classified fields, the emission
//! plan — the builder's storage shape, the method list (setters and
//! appenders, with the name-collision rule resolved), and the list of fields
//! the finalizer must validate.

use vstd::prelude::*;
use vstd::string::StringExecFns;

use crate::classify::{strategies_view, FieldStrategy, StrategyView};
use crate::schema::{fields_view, FieldSpec, FieldView, SchemaView, StructSchema, TypeDesc, TypeView};

verus! {

/// The suffix appended to the record type's name to name the builder type.
pub const BUILDER_SUFFIX: &'static str = "Builder";

/// The builder-side storage for one field: an optional slot (for `Required`
/// and `NaturallyOptional` fields) or a collection slot (for `Accumulator`
/// fields), each holding the field's element type.
#[derive(Debug, PartialEq, Eq)]
pub enum StorageKind {
    OptionalSlot { elem: TypeDesc },
    CollectionSlot { elem: TypeDesc },
}

/// Mathematical model of a `StorageKind`.
pub enum StorageKindView {
    OptionalSlot { elem: TypeView },
    CollectionSlot { elem: TypeView },
}

impl View for StorageKind {
    type V = StorageKindView;

    open spec fn view(&self) -> StorageKindView {
        match self {
            StorageKind::OptionalSlot { elem } => StorageKindView::OptionalSlot { elem: elem@ },
            StorageKind::CollectionSlot { elem } => StorageKindView::CollectionSlot { elem: elem@ },
        }
    }
}

/// One entry of the builder's storage mapping: a field name and its slot.
#[derive(Debug, PartialEq, Eq)]
pub struct StorageSpec {
    pub field: String,
    pub kind: StorageKind,
}

/// Mathematical model of a `StorageSpec`.
pub struct StorageView {
    pub field: Seq<char>,
    pub kind: StorageKindView,
}

impl View for StorageSpec {
    type V = StorageView;

    open spec fn view(&self) -> StorageView {
        StorageView { field: self.field@, kind: self.kind@ }
    }
}

/// One method the builder offers: a setter named after its field that stores
/// a whole value, or an appender that pushes one element onto a collection
/// slot, under the annotation's chosen name.
#[derive(Debug, PartialEq, Eq)]
pub enum MethodSpec {
    Setter { field: String, param: TypeDesc },
    Appender { field: String, elem: TypeDesc, method_name: String },
}

/// Mathematical model of a `MethodSpec`.
pub enum MethodView {
    Setter { field: Seq<char>, param: TypeView },
    Appender { field: Seq<char>, elem: TypeView, method_name: Seq<char> },
}

impl View for MethodSpec {
    type V = MethodView;

    open spec fn view(&self) -> MethodView {
        match self {
            MethodSpec::Setter { field, param } => MethodView::Setter {
                field: field@,
                param: param@,
            },
            MethodSpec::Appender { field, elem, method_name } => MethodView::Appender {
                field: field@,
                elem: elem@,
                method_name: method_name@,
            },
        }
    }
}

/// The emission plan for one schema: the builder type's name, the record
/// type's name, the storage mapping, the method list, and the fields the
/// finalizer must validate — everything in schema order.
#[derive(Debug, PartialEq, Eq)]
pub struct BuilderModel {
    pub builder_name: String,
    pub record_name: String,
    pub storage: Vec<StorageSpec>,
    pub methods: Vec<MethodSpec>,
    pub required_fields: Vec<String>,
}

/// Mathematical model of a `BuilderModel`.
pub struct ModelView {
    pub builder_name: Seq<char>,
    pub record_name: Seq<char>,
    pub storage: Seq<StorageView>,
    pub methods: Seq<MethodView>,
    pub required_fields: Seq<Seq<char>>,
}

/// The model of a sequence of storage entries.
pub open spec fn storage_views(s: Seq<StorageSpec>) -> Seq<StorageView> {
    s.map_values(|x: StorageSpec| x@)
}

/// The model of a sequence of method specifications.
pub open spec fn method_views(s: Seq<MethodSpec>) -> Seq<MethodView> {
    s.map_values(|x: MethodSpec| x@)
}

/// The model of a sequence of names.
pub open spec fn names_view(s: Seq<String>) -> Seq<Seq<char>> {
    s.map_values(|x: String| x@)
}

impl View for BuilderModel {
    type V = ModelView;

    open spec fn view(&self) -> ModelView {
        ModelView {
            builder_name: self.builder_name@,
            record_name: self.record_name@,
            storage: storage_views(self.storage@),
            methods: method_views(self.methods@),
            required_fields: names_view(self.required_fields@),
        }
    }
}

/// The storage entry one field contributes: an optional slot for `Required`
/// and `NaturallyOptional` fields, a collection slot for `Accumulator`
/// fields, always holding the field's element type.
pub open spec fn spec_storage_of(name: Seq<char>, s: StrategyView) -> StorageView {
    match s {
        StrategyView::Required { elem } => StorageView {
            field: name,
            kind: StorageKindView::OptionalSlot { elem },
        },
        StrategyView::NaturallyOptional { elem } => StorageView {
            field: name,
            kind: StorageKindView::OptionalSlot { elem },
        },
        StrategyView::Accumulator { elem, .. } => StorageView {
            field: name,
            kind: StorageKindView::CollectionSlot { elem },
        },
    }
}

/// The methods one field contributes, in emission order: `Required` and
/// `NaturallyOptional` fields get one setter taking the element type;
/// an `Accumulator` field gets a whole-collection setter followed by its
/// appender — except that when the appender's name equals the field's own
/// name, only the appender is emitted, so that no two methods share a name.
pub open spec fn spec_methods_of(name: Seq<char>, s: StrategyView) -> Seq<MethodView> {
    match s {
        StrategyView::Required { elem } => seq![MethodView::Setter { field: name, param: elem }],
        StrategyView::NaturallyOptional { elem } => seq![
            MethodView::Setter { field: name, param: elem },
        ],
        StrategyView::Accumulator { elem, appender_name } => {
            let appender = MethodView::Appender { field: name, elem, method_name: appender_name };
            if appender_name == name {
                seq![appender]
            } else {
                seq![
                    MethodView::Setter {
                        field: name,
                        param: TypeView::Generic {
                            name: crate::COLLECTION_HEAD@,
                            inner: Box::new(elem),
                        },
                    },
                    appender,
                ]
            }
        },
    }
}

/// The names the finalizer must validate: `Required` fields contribute their
/// name, the other strategies contribute nothing.
pub open spec fn spec_required_of(name: Seq<char>, s: StrategyView) -> Seq<Seq<char>> {
    match s {
        StrategyView::Required { .. } => seq![name],
        StrategyView::NaturallyOptional { .. } => Seq::empty(),
        StrategyView::Accumulator { .. } => Seq::empty(),
    }
}

/// The storage mapping of a whole schema, fields in order.
pub open spec fn spec_storage(fs: Seq<FieldView>, ss: Seq<StrategyView>) -> Seq<StorageView>
    decreases fs.len(),
{
    if fs.len() == 0 || fs.len() != ss.len() {
        Seq::empty()
    } else {
        spec_storage(fs.drop_last(), ss.drop_last()).push(
            spec_storage_of(fs.last().name, ss.last()),
        )
    }
}

/// The method list of a whole schema, fields in order.
pub open spec fn spec_methods(fs: Seq<FieldView>, ss: Seq<StrategyView>) -> Seq<MethodView>
    decreases fs.len(),
{
    if fs.len() == 0 || fs.len() != ss.len() {
        Seq::empty()
    } else {
        spec_methods(fs.drop_last(), ss.drop_last()) + spec_methods_of(
            fs.last().name,
            ss.last(),
        )
    }
}

/// The finalizer's validation list of a whole schema, fields in order.
pub open spec fn spec_required(fs: Seq<FieldView>, ss: Seq<StrategyView>) -> Seq<Seq<char>>
    decreases fs.len(),
{
    if fs.len() == 0 || fs.len() != ss.len() {
        Seq::empty()
    } else {
        spec_required(fs.drop_last(), ss.drop_last()) + spec_required_of(
            fs.last().name,
            ss.last(),
        )
    }
}

/// The whole emission plan of a classified schema.
pub open spec fn spec_build_model(s: SchemaView, ss: Seq<StrategyView>) -> ModelView {
    ModelView {
        builder_name: s.record_name + BUILDER_SUFFIX@,
        record_name: s.record_name,
        storage: spec_storage(s.fields, ss),
        methods: spec_methods(s.fields, ss),
        required_fields: spec_required(s.fields, ss),
    }
}

/// The methods one field contributes, executably.
fn push_methods_for(out: &mut Vec<MethodSpec>, name: &String, strat: &FieldStrategy)
    ensures
        method_views(final(out)@) == method_views(old(out)@) + spec_methods_of(name@, strat@),
{
    let ghost prev = out@;
    match strat {
        FieldStrategy::Required { elem } => {
            out.push(MethodSpec::Setter { field: name.clone(), param: elem.clone() });
            proof {
                assert(method_views(out@) =~= method_views(prev) + spec_methods_of(
                    name@,
                    strat@,
                ));
            }
        },
        FieldStrategy::NaturallyOptional { elem } => {
            out.push(MethodSpec::Setter { field: name.clone(), param: elem.clone() });
            proof {
                assert(method_views(out@) =~= method_views(prev) + spec_methods_of(
                    name@,
                    strat@,
                ));
            }
        },
        FieldStrategy::Accumulator { elem, appender_name } => {
            if !(*appender_name == *name) {
                out.push(
                    MethodSpec::Setter {
                        field: name.clone(),
                        param: TypeDesc::Generic {
                            name: String::from_str(crate::COLLECTION_HEAD),
                            inner: Box::new(elem.clone()),
                        },
                    },
                );
            }
            out.push(
                MethodSpec::Appender {
                    field: name.clone(),
                    elem: elem.clone(),
                    method_name: appender_name.clone(),
                },
            );
            proof {
                assert(method_views(out@) =~= method_views(prev) + spec_methods_of(
                    name@,
                    strat@,
                ));
            }
        },
    }
}

/// Builder Model Builder: derive the emission plan from a schema and its
/// classified fields. Total: every possible failure was already raised
/// during classification.
pub fn build_model(schema: &StructSchema, strategies: &Vec<FieldStrategy>) -> (m: BuilderModel)
    requires
        schema.fields@.len() == strategies@.len(),
    ensures
        m@ == spec_build_model(schema@, strategies_view(strategies@)),
{
    let ghost fsv = fields_view(schema.fields@);
    let ghost ssv = strategies_view(strategies@);
    let mut builder_name = schema.record_name.clone();
    builder_name.append(BUILDER_SUFFIX);
    let mut storage: Vec<StorageSpec> = Vec::new();
    let mut methods: Vec<MethodSpec> = Vec::new();
    let mut required_fields: Vec<String> = Vec::new();
    let mut i: usize = 0;
    proof {
        assert(fsv.take(0) =~= Seq::<FieldView>::empty());
        assert(ssv.take(0) =~= Seq::<StrategyView>::empty());
        assert(storage_views(storage@) =~= Seq::<StorageView>::empty());
        assert(method_views(methods@) =~= Seq::<MethodView>::empty());
        assert(names_view(required_fields@) =~= Seq::<Seq<char>>::empty());
    }
    while i < schema.fields.len()
        invariant
            i <= schema.fields.len(),
            schema.fields@.len() == strategies@.len(),
            fsv == fields_view(schema.fields@),
            ssv == strategies_view(strategies@),
            fsv.len() == schema.fields@.len(),
            ssv.len() == strategies@.len(),
            storage_views(storage@) == spec_storage(fsv.take(i as int), ssv.take(i as int)),
            method_views(methods@) == spec_methods(fsv.take(i as int), ssv.take(i as int)),
            names_view(required_fields@) == spec_required(fsv.take(i as int), ssv.take(i as int)),
        decreases schema.fields.len() - i,
    {
        let f = &schema.fields[i];
        let strat = &strategies[i];
        let ghost prev_storage = storage@;
        let ghost prev_required = required_fields@;
        let kind = match strat {
            FieldStrategy::Required { elem } => StorageKind::OptionalSlot { elem: elem.clone() },
            FieldStrategy::NaturallyOptional { elem } => StorageKind::OptionalSlot {
                elem: elem.clone(),
            },
            FieldStrategy::Accumulator { elem, .. } => StorageKind::CollectionSlot {
                elem: elem.clone(),
            },
        };
        storage.push(StorageSpec { field: f.name.clone(), kind });
        push_methods_for(&mut methods, &f.name, strat);
        if let FieldStrategy::Required { .. } = strat {
            required_fields.push(f.name.clone());
        }
        proof {
            assert(fsv.take(i as int + 1).drop_last() =~= fsv.take(i as int));
            assert(ssv.take(i as int + 1).drop_last() =~= ssv.take(i as int));
            assert(fsv.take(i as int + 1).last() == fsv[i as int]);
            assert(ssv.take(i as int + 1).last() == ssv[i as int]);
            assert(storage_views(storage@) =~= storage_views(prev_storage).push(
                spec_storage_of(fsv[i as int].name, ssv[i as int]),
            ));
            assert(names_view(required_fields@) =~= names_view(prev_required) + spec_required_of(
                fsv[i as int].name,
                ssv[i as int],
            ));
        }
        i = i + 1;
    }
    proof {
        assert(fsv.take(fsv.len() as int) =~= fsv);
        assert(ssv.take(ssv.len() as int) =~= ssv);
    }
    BuilderModel { builder_name, record_name: schema.record_name.clone(), storage, methods, required_fields }
}

} // verus!
