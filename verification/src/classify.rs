//! The type classifier: assign each field one of the three builder
//! strategies, from its declared type and its annotation alone.

use vstd::prelude::*;
use vstd::string::StringExecFns;

use crate::annot::{parse_each, spec_parse_each};
use crate::schema::{
    ClassificationError, ClassificationErrorView, FieldSpec, FieldView, TypeDesc, TypeView,
};

verus! {

/// The strategy the builder uses for one field.
///
/// - `Required`: plain declared type `T`; the builder stores an optional
///   slot, and the finalizer fails when the field was never set.
/// - `NaturallyOptional`: declared type was the optional wrapper over `T`;
///   the setter takes `T` and the finalizer never fails on the field.
/// - `Accumulator`: declared type was the collection wrapper over `T` with a
///   valid `each = "<name>"` annotation; the builder stores the collection
///   and grows it one element at a time through the named appender.
#[derive(Debug, PartialEq, Eq)]
pub enum FieldStrategy {
    Required { elem: TypeDesc },
    NaturallyOptional { elem: TypeDesc },
    Accumulator { elem: TypeDesc, appender_name: String },
}

/// Mathematical model of a `FieldStrategy`.
pub enum StrategyView {
    Required { elem: TypeView },
    NaturallyOptional { elem: TypeView },
    Accumulator { elem: TypeView, appender_name: Seq<char> },
}

impl View for FieldStrategy {
    type V = StrategyView;

    open spec fn view(&self) -> StrategyView {
        match self {
            FieldStrategy::Required { elem } => StrategyView::Required { elem: elem@ },
            FieldStrategy::NaturallyOptional { elem } => StrategyView::NaturallyOptional {
                elem: elem@,
            },
            FieldStrategy::Accumulator { elem, appender_name } => StrategyView::Accumulator {
                elem: elem@,
                appender_name: appender_name@,
            },
        }
    }
}

/// Whether a type descriptor is the optional wrapper, and what it wraps.
pub open spec fn optional_inner(t: TypeView) -> Option<TypeView> {
    match t {
        TypeView::Generic { name, inner } => if name == crate::OPTIONAL_HEAD@ {
            Some(*inner)
        } else {
            None
        },
        TypeView::Plain { .. } => None,
    }
}

/// Whether a type descriptor is the collection wrapper, and what it wraps.
pub open spec fn collection_inner(t: TypeView) -> Option<TypeView> {
    match t {
        TypeView::Generic { name, inner } => if name == crate::COLLECTION_HEAD@ {
            Some(*inner)
        } else {
            None
        },
        TypeView::Plain { .. } => None,
    }
}

/// What classification returns for one field, as a function of the field's
/// declared type and annotation alone:
///
/// 1. an optionally-wrapped declared type is `NaturallyOptional`, whether or
///    not an annotation is present (the annotation is not inspected);
/// 2. otherwise, a present annotation must parse as `each = "<name>"`
///    (`MalformedAnnotation` anchored to the field when it does not) and the
///    declared type must then be the collection wrapper
///    (`AnnotationTypeMismatch` anchored to the field when it is not), which
///    yields `Accumulator` over the wrapped element type and the parsed name;
/// 3. otherwise the field is `Required` at its declared type.
pub open spec fn spec_classify(f: FieldView) -> Result<StrategyView, ClassificationErrorView> {
    if optional_inner(f.declared_type) is Some {
        Ok(StrategyView::NaturallyOptional { elem: optional_inner(f.declared_type)->Some_0 })
    } else {
        match f.annotation {
            Some(payload) => match spec_parse_each(payload) {
                None => Err(ClassificationErrorView::MalformedAnnotation { field: f.name }),
                Some(each_name) => match collection_inner(f.declared_type) {
                    Some(elem) => Ok(StrategyView::Accumulator { elem, appender_name: each_name }),
                    None => Err(
                        ClassificationErrorView::AnnotationTypeMismatch { field: f.name },
                    ),
                },
            },
            None => Ok(StrategyView::Required { elem: f.declared_type }),
        }
    }
}

/// The model of a classification outcome.
pub open spec fn strategy_result_view(r: Result<FieldStrategy, ClassificationError>) -> Result<
    StrategyView,
    ClassificationErrorView,
> {
    match r {
        Ok(s) => Ok(s@),
        Err(e) => Err(e@),
    }
}

/// Whether a string holds exactly the given characters.
fn str_is(a: &String, lit: &str) -> (r: bool)
    ensures
        r == (a@ == lit@),
{
    let b = String::from_str(lit);
    *a == b
}

/// Type Classifier: decide one field's builder strategy, or reject its
/// annotation with a diagnostic anchored to the field.
pub fn classify(f: &FieldSpec) -> (r: Result<FieldStrategy, ClassificationError>)
    ensures
        strategy_result_view(r) == spec_classify(f@),
{
    if let TypeDesc::Generic { name, inner } = &f.declared_type {
        if str_is(name, crate::OPTIONAL_HEAD) {
            return Ok(FieldStrategy::NaturallyOptional { elem: (**inner).clone() });
        }
    }
    match &f.annotation {
        Some(payload) => match parse_each(payload.as_str()) {
            None => Err(ClassificationError::MalformedAnnotation { field: f.name.clone() }),
            Some(each_name) => {
                if let TypeDesc::Generic { name, inner } = &f.declared_type {
                    if str_is(name, crate::COLLECTION_HEAD) {
                        return Ok(
                            FieldStrategy::Accumulator {
                                elem: (**inner).clone(),
                                appender_name: each_name,
                            },
                        );
                    }
                }
                Err(ClassificationError::AnnotationTypeMismatch { field: f.name.clone() })
            },
        },
        None => Ok(FieldStrategy::Required { elem: f.declared_type.clone() }),
    }
}

/// The model of a sequence of strategies.
pub open spec fn strategies_view(ss: Seq<FieldStrategy>) -> Seq<StrategyView> {
    ss.map_values(|s: FieldStrategy| s@)
}

/// Classification of a whole field list, fields in order, the first
/// diagnostic aborting the scan.
pub open spec fn spec_classify_all(fs: Seq<FieldView>) -> Result<
    Seq<StrategyView>,
    ClassificationErrorView,
>
    decreases fs.len(),
{
    if fs.len() == 0 {
        Ok(Seq::empty())
    } else {
        match spec_classify_all(fs.drop_last()) {
            Err(e) => Err(e),
            Ok(ss) => match spec_classify(fs.last()) {
                Err(e) => Err(e),
                Ok(s) => Ok(ss.push(s)),
            },
        }
    }
}

/// A diagnosed field poisons the classification of every extension of the
/// list that was clean up to it.
proof fn lemma_classify_all_stops_at_first(fs: Seq<FieldView>, i: int)
    requires
        0 <= i < fs.len(),
        spec_classify_all(fs.take(i)) is Ok,
        spec_classify(fs[i]) is Err,
    ensures
        spec_classify_all(fs) == Err::<Seq<StrategyView>, _>(spec_classify(fs[i])->Err_0),
    decreases fs.len(),
{
    if fs.len() == i + 1 {
        assert(fs.drop_last() =~= fs.take(i));
    } else {
        assert(fs.drop_last().take(i) =~= fs.take(i));
        lemma_classify_all_stops_at_first(fs.drop_last(), i);
        assert(spec_classify_all(fs.drop_last()) is Err);
    }
}

/// A clean classification yields exactly one strategy per field.
pub proof fn lemma_classify_all_len(fs: Seq<FieldView>)
    requires
        spec_classify_all(fs) is Ok,
    ensures
        spec_classify_all(fs)->Ok_0.len() == fs.len(),
    decreases fs.len(),
{
    if fs.len() != 0 {
        lemma_classify_all_len(fs.drop_last());
    }
}

/// The model of a whole-list classification outcome.
pub open spec fn strategies_result_view(r: Result<Vec<FieldStrategy>, ClassificationError>)
    -> Result<Seq<StrategyView>, ClassificationErrorView> {
    match r {
        Ok(ss) => Ok(strategies_view(ss@)),
        Err(e) => Err(e@),
    }
}

/// Classify every field of the list, in order; the first diagnostic is the
/// one reported, and on success each field's strategy stands at the field's
/// own position.
pub fn classify_all(fields: &Vec<FieldSpec>) -> (r: Result<Vec<FieldStrategy>, ClassificationError>)
    ensures
        strategies_result_view(r) == spec_classify_all(crate::schema::fields_view(fields@)),
{
    let ghost fsv = crate::schema::fields_view(fields@);
    let mut out: Vec<FieldStrategy> = Vec::new();
    let mut i: usize = 0;
    proof {
        assert(fsv.take(0) =~= Seq::<FieldView>::empty());
        assert(strategies_view(out@) =~= Seq::<StrategyView>::empty());
    }
    while i < fields.len()
        invariant
            0 <= i <= fields.len(),
            fsv == crate::schema::fields_view(fields@),
            fsv.len() == fields@.len(),
            spec_classify_all(fsv.take(i as int)) == Ok::<_, ClassificationErrorView>(
                strategies_view(out@),
            ),
        decreases fields.len() - i,
    {
        match classify(&fields[i]) {
            Err(e) => {
                proof {
                    lemma_classify_all_stops_at_first(fsv, i as int);
                }
                return Err(e);
            },
            Ok(s) => {
                let ghost sv = s@;
                let ghost prev = out@;
                out.push(s);
                proof {
                    assert(strategies_view(out@) =~= strategies_view(prev).push(sv));
                    assert(fsv.take(i as int + 1).drop_last() =~= fsv.take(i as int));
                    assert(fsv.take(i as int + 1).last() == fsv[i as int]);
                    assert(spec_classify(fsv[i as int]) == Ok::<_, ClassificationErrorView>(sv));
                    assert(spec_classify_all(fsv.take(i as int + 1)) == Ok::<
                        _,
                        ClassificationErrorView,
                    >(strategies_view(prev).push(sv)));
                }
            },
        }
        i = i + 1;
    }
    proof {
        assert(fsv.take(fields@.len() as int) =~= fsv);
    }
    Ok(out)
}

} // verus!
