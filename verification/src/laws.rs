//! The library's laws: what holds of every schema and every builder state,
//! proved from the specifications the executable functions are verified
//! against.

use vstd::prelude::*;

use crate::classify::{
    lemma_classify_all_len, optional_inner, spec_classify, spec_classify_all, StrategyView,
};
use crate::dynamics::{
    first_missing, first_missing_from, is_missing, spec_append, spec_finalize, spec_read,
    spec_fresh, spec_set_collection, FieldStateView, FieldValueView, RecordFieldView, SlotView,
    ValueView,
};

use crate::emit::spec_emit;
use crate::model::{
    spec_build_model, spec_methods, spec_methods_of, spec_required, spec_required_of,
    spec_storage, spec_storage_of, MethodView, StorageKindView, StorageView,
};
use crate::schema::{ClassificationErrorView, FieldView, SchemaView, TypeView};

verus! {

/// A missing field at or after `lo` forces the scan from `lo` to find one.
proof fn lemma_first_missing_some(b: Seq<FieldStateView>, lo: int, i: int)
    requires
        0 <= lo <= i < b.len(),
        is_missing(b[i]),
    ensures
        first_missing_from(b, lo) matches Some(j) && lo <= j < b.len() && is_missing(b[j]),
    decreases i - lo,
{
    if lo < i && !is_missing(b[lo]) {
        lemma_first_missing_some(b, lo + 1, i);
    }
}

/// With no missing field at or after `lo`, the scan from `lo` finds none.
proof fn lemma_first_missing_none(b: Seq<FieldStateView>, lo: int)
    requires
        0 <= lo <= b.len(),
        forall|j: int| lo <= j < b.len() ==> !is_missing(b[j]),
    ensures
        first_missing_from(b, lo) is None,
    decreases b.len() - lo,
{
    if lo < b.len() {
        lemma_first_missing_none(b, lo + 1);
    }
}

/// A builder on which some validated (required) field was never set cannot
/// finalize: the outcome is the missing-field error, and the field it names
/// is itself a validated, never-set field.
pub proof fn lemma_required_unset_fails(b: Seq<FieldStateView>, i: int)
    requires
        0 <= i < b.len(),
        b[i].required,
        b[i].slot == SlotView::Single(None::<ValueView>),
    ensures
        spec_finalize(b) is Err,
        exists|j: int|
            0 <= j < b.len() && #[trigger] is_missing(b[j]) && spec_finalize(b) == Err::<
                Seq<RecordFieldView>,
                Seq<char>,
            >(b[j].name),
{
    lemma_first_missing_some(b, 0, i);
    let j = first_missing(b)->Some_0;
    assert(0 <= j < b.len() && is_missing(b[j]) && spec_finalize(b) == Err::<
        Seq<RecordFieldView>,
        Seq<char>,
    >(b[j].name));
}

/// A builder with every validated field set finalizes successfully, and a
/// field that was never touched yields its default: the empty optional for
/// an optional slot, the empty collection for a collection slot.
pub proof fn lemma_untouched_defaults(b: Seq<FieldStateView>, i: int)
    requires
        forall|j: int| 0 <= j < b.len() ==> !is_missing(b[j]),
        0 <= i < b.len(),
    ensures
        spec_finalize(b) is Ok,
        spec_finalize(b)->Ok_0.len() == b.len(),
        b[i].slot == SlotView::Single(None::<ValueView>) ==> spec_finalize(b)->Ok_0[i].value
            == FieldValueView::Opt(None::<ValueView>),
        b[i].slot == SlotView::Multi(Seq::<ValueView>::empty()) ==> spec_finalize(b)->Ok_0[i].value
            == FieldValueView::Many(Seq::<ValueView>::empty()),
{
    lemma_first_missing_none(b, 0);
}

/// Appenders accumulate in call order: appending `v1`, `v2`, `v3` extends
/// the collection slot by exactly that sequence, and a successful
/// finalization then yields it; from an untouched (empty) slot, the
/// collection is exactly `[v1, v2, v3]`.
pub proof fn lemma_appenders_accumulate(
    b: Seq<FieldStateView>,
    i: int,
    v1: ValueView,
    v2: ValueView,
    v3: ValueView,
)
    requires
        0 <= i < b.len(),
        b[i].slot matches SlotView::Multi(_),
    ensures
        ({
            let b3 = spec_append(spec_append(spec_append(b, i, v1), i, v2), i, v3);
            &&& b3[i].slot == SlotView::Multi(b[i].slot->Multi_0 + seq![v1, v2, v3])
            &&& (spec_finalize(b3) is Ok ==> spec_finalize(b3)->Ok_0[i].value
                == FieldValueView::Many(b[i].slot->Multi_0 + seq![v1, v2, v3]))
            &&& (b[i].slot == SlotView::Multi(Seq::<ValueView>::empty()) ==> b3[i].slot
                == SlotView::Multi(seq![v1, v2, v3]))
        }),
{
    assert(b[i].slot->Multi_0.push(v1).push(v2).push(v3) =~= b[i].slot->Multi_0 + seq![
        v1,
        v2,
        v3,
    ]);
    assert(Seq::<ValueView>::empty() + seq![v1, v2, v3] =~= seq![v1, v2, v3]);
}

/// A whole-collection set discards whatever was appended before: after any
/// two appends followed by the setter, the slot holds exactly the set
/// values, and a successful finalization yields exactly them.
pub proof fn lemma_setter_overwrites(
    b: Seq<FieldStateView>,
    i: int,
    a1: ValueView,
    a2: ValueView,
    vs: Seq<ValueView>,
)
    requires
        0 <= i < b.len(),
        b[i].slot matches SlotView::Multi(_),
    ensures
        ({
            let b2 = spec_set_collection(spec_append(spec_append(b, i, a1), i, a2), i, vs);
            &&& b2[i].slot == SlotView::Multi(vs)
            &&& (spec_finalize(b2) is Ok ==> spec_finalize(b2)->Ok_0[i].value
                == FieldValueView::Many(vs))
        }),
{
}

/// Every method of `spec_methods_of` is contained in the whole method list.
proof fn lemma_methods_include_field(fs: Seq<FieldView>, ss: Seq<StrategyView>, i: int, m: MethodView)
    requires
        fs.len() == ss.len(),
        0 <= i < fs.len(),
        spec_methods_of(fs[i].name, ss[i]).contains(m),
    ensures
        spec_methods(fs, ss).contains(m),
    decreases fs.len(),
{
    let prefix = spec_methods(fs.drop_last(), ss.drop_last());
    let block = spec_methods_of(fs[i].name, ss[i]);
    if i == fs.len() - 1 {
        let w = choose|w: int| 0 <= w < block.len() && block[w] == m;
        assert(spec_methods(fs, ss)[prefix.len() + w] == m);
    } else {
        assert(fs.drop_last()[i] == fs[i]);
        assert(ss.drop_last()[i] == ss[i]);
        lemma_methods_include_field(fs.drop_last(), ss.drop_last(), i, m);
        let w = choose|w: int| 0 <= w < prefix.len() && prefix[w] == m;
        assert(spec_methods(fs, ss)[w] == m);
    }
}

/// Every method of the whole list comes from some field's own contribution.
proof fn lemma_methods_membership(fs: Seq<FieldView>, ss: Seq<StrategyView>, k: int)
    requires
        fs.len() == ss.len(),
        0 <= k < spec_methods(fs, ss).len(),
    ensures
        exists|j: int|
            0 <= j < fs.len() && #[trigger] spec_methods_of(fs[j].name, ss[j]).contains(
                spec_methods(fs, ss)[k],
            ),
    decreases fs.len(),
{
    let ms = spec_methods(fs, ss);
    let prefix = spec_methods(fs.drop_last(), ss.drop_last());
    if k < prefix.len() {
        lemma_methods_membership(fs.drop_last(), ss.drop_last(), k);
        let j = choose|j: int|
            0 <= j < fs.drop_last().len() && #[trigger] spec_methods_of(
                fs.drop_last()[j].name,
                ss.drop_last()[j],
            ).contains(prefix[k]);
        assert(fs.drop_last()[j] == fs[j]);
        assert(ss.drop_last()[j] == ss[j]);
        assert(ms[k] == prefix[k]);
        assert(spec_methods_of(fs[j].name, ss[j]).contains(ms[k]));
    } else {
        let j = fs.len() - 1;
        assert(spec_methods_of(fs[j].name, ss[j]).contains(ms[k]));
    }
}

/// A setter's field is always the field it was generated for.
proof fn lemma_setter_field(name: Seq<char>, s: StrategyView, m: MethodView)
    requires
        spec_methods_of(name, s).contains(m),
    ensures
        m matches MethodView::Setter { field, .. } ==> field == name,
        m matches MethodView::Appender { field, .. } ==> field == name,
{
}

/// The name-collision rule: when an accumulator's chosen appender name
/// equals the field's own name, the method list holds that appender, and no
/// setter for that field stands anywhere in the list — the one method under
/// that name has appender semantics.
pub proof fn lemma_collision_single_appender(
    fs: Seq<FieldView>,
    ss: Seq<StrategyView>,
    i: int,
    e: TypeView,
)
    requires
        fs.len() == ss.len(),
        0 <= i < fs.len(),
        ss[i] == (StrategyView::Accumulator { elem: e, appender_name: fs[i].name }),
        forall|j: int, k: int| 0 <= j < k < fs.len() ==> fs[j].name != fs[k].name,
    ensures
        spec_methods(fs, ss).contains(
            MethodView::Appender { field: fs[i].name, elem: e, method_name: fs[i].name },
        ),
        forall|k: int|
            0 <= k < spec_methods(fs, ss).len() ==> (#[trigger] spec_methods(fs, ss)[k] matches
            MethodView::Setter { field, .. } ==> field != fs[i].name),
{
    let ms = spec_methods(fs, ss);
    let appender = MethodView::Appender { field: fs[i].name, elem: e, method_name: fs[i].name };
    assert(spec_methods_of(fs[i].name, ss[i]) == seq![appender]);
    assert(spec_methods_of(fs[i].name, ss[i])[0] == appender);
    assert(spec_methods_of(fs[i].name, ss[i]).contains(appender));
    lemma_methods_include_field(fs, ss, i, appender);
    assert forall|k: int|
        0 <= k < ms.len() implies (#[trigger] ms[k] matches MethodView::Setter { field, .. }
        ==> field != fs[i].name) by {
        lemma_methods_membership(fs, ss, k);
        let j = choose|j: int|
            0 <= j < fs.len() && #[trigger] spec_methods_of(fs[j].name, ss[j]).contains(ms[k]);
        lemma_setter_field(fs[j].name, ss[j], ms[k]);
        match ms[k] {
            MethodView::Setter { field, .. } => {
                assert(field == fs[j].name);
                if j == i {
                    assert(false);
                } else {
                    assert(fs[j].name != fs[i].name);
                }
            },
            MethodView::Appender { .. } => {},
        }
    }
}

/// The storage mapping has one entry per field, each derived from its own
/// field alone.
proof fn lemma_storage_index(fs: Seq<FieldView>, ss: Seq<StrategyView>, i: int)
    requires
        fs.len() == ss.len(),
        0 <= i < fs.len(),
    ensures
        spec_storage(fs, ss).len() == fs.len(),
        spec_storage(fs, ss)[i] == spec_storage_of(fs[i].name, ss[i]),
    decreases fs.len(),
{
    if i < fs.len() - 1 {
        assert(fs.drop_last()[i] == fs[i]);
        assert(ss.drop_last()[i] == ss[i]);
        lemma_storage_index(fs.drop_last(), ss.drop_last(), i);
    } else {
        if fs.len() > 1 {
            lemma_storage_index(fs.drop_last(), ss.drop_last(), 0);
        } else {
            assert(fs.drop_last().len() == 0);
            assert(spec_storage(fs.drop_last(), ss.drop_last()) == Seq::<StorageView>::empty());
        }
        assert(spec_storage(fs, ss) == spec_storage(fs.drop_last(), ss.drop_last()).push(
            spec_storage_of(fs.last().name, ss.last()),
        ));
    }
}

/// Witness shape for membership in the finalizer's validation list.
pub open spec fn required_at(
    fs: Seq<FieldView>,
    ss: Seq<StrategyView>,
    j: int,
    name: Seq<char>,
) -> bool {
    0 <= j < fs.len() && fs[j].name == name && ss[j] matches StrategyView::Required { .. }
}

/// A required field's name stands in the validation list.
proof fn lemma_required_contains_intro(fs: Seq<FieldView>, ss: Seq<StrategyView>, j: int)
    requires
        fs.len() == ss.len(),
        0 <= j < fs.len(),
        ss[j] matches StrategyView::Required { .. },
    ensures
        spec_required(fs, ss).contains(fs[j].name),
    decreases fs.len(),
{
    let prefix = spec_required(fs.drop_last(), ss.drop_last());
    if j == fs.len() - 1 {
        assert(spec_required(fs, ss)[prefix.len() as int] == fs[j].name);
    } else {
        assert(fs.drop_last()[j] == fs[j]);
        assert(ss.drop_last()[j] == ss[j]);
        lemma_required_contains_intro(fs.drop_last(), ss.drop_last(), j);
        let w = choose|w: int| 0 <= w < prefix.len() && prefix[w] == fs[j].name;
        assert(spec_required(fs, ss)[w] == fs[j].name);
    }
}

/// Every name in the validation list belongs to some required field.
proof fn lemma_required_contains_elim(fs: Seq<FieldView>, ss: Seq<StrategyView>, name: Seq<char>)
    requires
        fs.len() == ss.len(),
        spec_required(fs, ss).contains(name),
    ensures
        exists|j: int| #[trigger] required_at(fs, ss, j, name),
    decreases fs.len(),
{
    let whole = spec_required(fs, ss);
    let prefix = spec_required(fs.drop_last(), ss.drop_last());
    let block = spec_required_of(fs.last().name, ss.last());
    let w = choose|w: int| 0 <= w < whole.len() && whole[w] == name;
    if w < prefix.len() {
        assert(prefix[w] == name);
        lemma_required_contains_elim(fs.drop_last(), ss.drop_last(), name);
        let j = choose|j: int| #[trigger] required_at(fs.drop_last(), ss.drop_last(), j, name);
        assert(fs.drop_last()[j] == fs[j]);
        assert(ss.drop_last()[j] == ss[j]);
        assert(required_at(fs, ss, j, name));
    } else {
        assert(block[w - prefix.len()] == name);
        assert(required_at(fs, ss, fs.len() - 1, name));
    }
}

/// The builder the factory returns matches the classified schema, field for
/// field: the field's own name; validated exactly when the field's strategy
/// is `Required`; an empty collection slot exactly for `Accumulator` fields;
/// an empty optional slot for all others. (Field names must be unique within
/// the schema, as the data model demands.)
pub proof fn lemma_fresh_matches_strategies(s: SchemaView, ss: Seq<StrategyView>, i: int)
    requires
        s.fields.len() == ss.len(),
        0 <= i < s.fields.len(),
        forall|j: int, k: int| 0 <= j < k < s.fields.len() ==> s.fields[j].name
            != s.fields[k].name,
    ensures
        ({
            let b = spec_fresh(spec_emit(spec_build_model(s, ss)).finalizer);
            &&& b.len() == s.fields.len()
            &&& b[i].name == s.fields[i].name
            &&& (b[i].required <==> ss[i] matches StrategyView::Required { .. })
            &&& (ss[i] matches StrategyView::Accumulator { .. } ==> b[i].slot == SlotView::Multi(
                Seq::<ValueView>::empty(),
            ))
            &&& (!(ss[i] matches StrategyView::Accumulator { .. }) ==> b[i].slot
                == SlotView::Single(None::<ValueView>))
        }),
{
    let fs = s.fields;
    lemma_storage_index(fs, ss, i);
    let required = spec_required(fs, ss);
    match ss[i] {
        StrategyView::Required { .. } => {
            lemma_required_contains_intro(fs, ss, i);
        },
        StrategyView::NaturallyOptional { .. } => {
            if required.contains(fs[i].name) {
                lemma_required_contains_elim(fs, ss, fs[i].name);
                let j = choose|j: int| #[trigger] required_at(fs, ss, j, fs[i].name);
                if j < i {
                    assert(fs[j].name != fs[i].name);
                } else if j > i {
                    assert(fs[i].name != fs[j].name);
                }
                assert(false);
            }
        },
        StrategyView::Accumulator { .. } => {},
    }
}

/// Finalization is a pure function of the builder's state: two
/// finalizations with no intervening mutation see equal states and return
/// equal outcomes.
pub proof fn lemma_finalize_idempotent(b1: Seq<FieldStateView>, b2: Seq<FieldStateView>)
    requires
        b1 == b2,
    ensures
        spec_finalize(b1) == spec_finalize(b2),
{
}

/// Classification is per-field: a clean whole-schema classification assigns
/// each field exactly what classifying that field alone yields — a field's
/// strategy never depends on the other fields, and field order only affects
/// emission order.
pub proof fn lemma_classification_independent(fs: Seq<FieldView>, i: int)
    requires
        spec_classify_all(fs) is Ok,
        0 <= i < fs.len(),
    ensures
        spec_classify_all(fs)->Ok_0.len() == fs.len(),
        Ok::<StrategyView, ClassificationErrorView>(spec_classify_all(fs)->Ok_0[i])
            == spec_classify(fs[i]),
    decreases fs.len(),
{
    lemma_classify_all_len(fs);
    if i < fs.len() - 1 {
        assert(fs.drop_last()[i] == fs[i]);
        lemma_classification_independent(fs.drop_last(), i);
    } else {
        lemma_classify_all_len(fs.drop_last());
    }
}

/// A present annotation that does not parse is always diagnosed — as a
/// malformed annotation anchored to the very field carrying it — whenever
/// the field's declared type is not the optional wrapper (which makes the
/// annotation ignored).
pub proof fn lemma_malformed_always_diagnosed(f: FieldView)
    requires
        f.annotation matches Some(p) && crate::annot::spec_parse_each(p) is None,
        optional_inner(f.declared_type) is None,
    ensures
        spec_classify(f) == Err::<StrategyView, ClassificationErrorView>(
            ClassificationErrorView::MalformedAnnotation { field: f.name },
        ),
{
}

/// Whole-schema classification never fails with anything but the two
/// annotation diagnostics, and the diagnostic is anchored to the very field
/// that provoked it.
pub proof fn lemma_errors_anchored(fs: Seq<FieldView>)
    ensures
        spec_classify_all(fs) matches Err(e) ==> exists|j: int|
            0 <= j < fs.len() && #[trigger] spec_classify(fs[j]) == Err::<
                StrategyView,
                ClassificationErrorView,
            >(e) && (e == (ClassificationErrorView::MalformedAnnotation { field: fs[j].name }) || e
                == (ClassificationErrorView::AnnotationTypeMismatch { field: fs[j].name })),
    decreases fs.len(),
{
    if fs.len() > 0 {
        lemma_errors_anchored(fs.drop_last());
        match spec_classify_all(fs.drop_last()) {
            Err(e) => {
                let j = choose|j: int|
                    0 <= j < fs.drop_last().len() && #[trigger] spec_classify(fs.drop_last()[j])
                        == Err::<StrategyView, ClassificationErrorView>(e) && (e
                        == (ClassificationErrorView::MalformedAnnotation {
                        field: fs.drop_last()[j].name,
                    }) || e == (ClassificationErrorView::AnnotationTypeMismatch {
                        field: fs.drop_last()[j].name,
                    }));
                assert(fs.drop_last()[j] == fs[j]);
            },
            Ok(_) => {},
        }
    }
}

} // verus!
