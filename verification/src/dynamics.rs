//! The runtime semantics of a generated builder: the state the emitted
//! declarations describe (one slot per field, defaulted empty), the effect of
//! each generated method on it, and the finalizer that assembles the record
//! or names the first required field that was never set.

use vstd::prelude::*;

use crate::emit::{Artifact, FieldRead, FieldReadView, ReadMode};

verus! {

/// A runtime value a builder method receives: one plain value, or a whole
/// collection of them (what a whole-collection setter installs).
#[derive(Debug, PartialEq, Eq)]
pub enum Value {
    Text(String),
    Items(Vec<String>),
}

/// Mathematical model of a `Value`.
pub enum ValueView {
    Text(Seq<char>),
    Items(Seq<Seq<char>>),
}

/// The model of a sequence of strings.
pub open spec fn strings_view(s: Seq<String>) -> Seq<Seq<char>> {
    s.map_values(|x: String| x@)
}

impl View for Value {
    type V = ValueView;

    open spec fn view(&self) -> ValueView {
        match self {
            Value::Text(s) => ValueView::Text(s@),
            Value::Items(v) => ValueView::Items(strings_view(v@)),
        }
    }
}

impl Clone for Value {
    fn clone(&self) -> (r: Value)
        ensures
            r@ == self@,
    {
        match self {
            Value::Text(s) => Value::Text(s.clone()),
            Value::Items(v) => {
                let mut out: Vec<String> = Vec::new();
                let mut i: usize = 0;
                while i < v.len()
                    invariant
                        0 <= i <= v.len(),
                        strings_view(out@) =~= strings_view(v@.take(i as int)),
                    decreases v.len() - i,
                {
                    let ghost prev = out@;
                    out.push(v[i].clone());
                    proof {
                        assert(strings_view(out@) =~= strings_view(prev).push(v@[i as int]@));
                        assert(strings_view(v@.take(i as int + 1)) =~= strings_view(
                            v@.take(i as int),
                        ).push(v@[i as int]@));
                    }
                    i = i + 1;
                }
                proof {
                    assert(v@.take(v@.len() as int) =~= v@);
                }
                Value::Items(out)
            },
        }
    }
}

/// The model of a sequence of values.
pub open spec fn values_view(s: Seq<Value>) -> Seq<ValueView> {
    s.map_values(|x: Value| x@)
}

/// Copy a sequence of values.
fn clone_values(vs: &Vec<Value>) -> (r: Vec<Value>)
    ensures
        values_view(r@) == values_view(vs@),
{
    let mut out: Vec<Value> = Vec::new();
    let mut i: usize = 0;
    while i < vs.len()
        invariant
            0 <= i <= vs.len(),
            values_view(out@) =~= values_view(vs@.take(i as int)),
        decreases vs.len() - i,
    {
        let ghost prev = out@;
        out.push(vs[i].clone());
        proof {
            assert(values_view(out@) =~= values_view(prev).push(vs@[i as int]@));
            assert(values_view(vs@.take(i as int + 1)) =~= values_view(vs@.take(i as int)).push(
                vs@[i as int]@,
            ));
        }
        i = i + 1;
    }
    proof {
        assert(vs@.take(vs@.len() as int) =~= vs@);
    }
    out
}

/// One field's storage at run time: an optional slot or a collection slot.
#[derive(Debug, PartialEq, Eq)]
pub enum Slot {
    Single(Option<Value>),
    Multi(Vec<Value>),
}

/// Mathematical model of a `Slot`.
pub enum SlotView {
    Single(Option<ValueView>),
    Multi(Seq<ValueView>),
}

impl View for Slot {
    type V = SlotView;

    open spec fn view(&self) -> SlotView {
        match self {
            Slot::Single(o) => SlotView::Single(
                match o {
                    Some(v) => Some(v@),
                    None => None,
                },
            ),
            Slot::Multi(vs) => SlotView::Multi(values_view(vs@)),
        }
    }
}

/// One field of a live builder: its name, whether the finalizer validates
/// it, and its slot.
#[derive(Debug, PartialEq, Eq)]
pub struct BuilderField {
    pub name: String,
    pub required: bool,
    pub slot: Slot,
}

/// Mathematical model of a `BuilderField`.
pub struct FieldStateView {
    pub name: Seq<char>,
    pub required: bool,
    pub slot: SlotView,
}

impl View for BuilderField {
    type V = FieldStateView;

    open spec fn view(&self) -> FieldStateView {
        FieldStateView { name: self.name@, required: self.required, slot: self.slot@ }
    }
}

/// The model of a builder: its fields' states, in schema order.
pub open spec fn builder_view(s: Seq<BuilderField>) -> Seq<FieldStateView> {
    s.map_values(|x: BuilderField| x@)
}

/// A live builder, as the generated factory returns it and the generated
/// methods mutate it.
#[derive(Debug, PartialEq, Eq)]
pub struct Builder {
    pub fields: Vec<BuilderField>,
}

impl View for Builder {
    type V = Seq<FieldStateView>;

    open spec fn view(&self) -> Seq<FieldStateView> {
        builder_view(self.fields@)
    }
}

/// One field of a finished record: a plain required value, an optional value
/// as it stood, or a collection as it stood.
#[derive(Debug, PartialEq, Eq)]
pub enum FieldValue {
    One(Value),
    Opt(Option<Value>),
    Many(Vec<Value>),
}

/// Mathematical model of a `FieldValue`.
pub enum FieldValueView {
    One(ValueView),
    Opt(Option<ValueView>),
    Many(Seq<ValueView>),
}

impl View for FieldValue {
    type V = FieldValueView;

    open spec fn view(&self) -> FieldValueView {
        match self {
            FieldValue::One(v) => FieldValueView::One(v@),
            FieldValue::Opt(o) => FieldValueView::Opt(
                match o {
                    Some(v) => Some(v@),
                    None => None,
                },
            ),
            FieldValue::Many(vs) => FieldValueView::Many(values_view(vs@)),
        }
    }
}

/// One named field of a finished record.
#[derive(Debug, PartialEq, Eq)]
pub struct RecordField {
    pub name: String,
    pub value: FieldValue,
}

/// Mathematical model of a `RecordField`.
pub struct RecordFieldView {
    pub name: Seq<char>,
    pub value: FieldValueView,
}

impl View for RecordField {
    type V = RecordFieldView;

    open spec fn view(&self) -> RecordFieldView {
        RecordFieldView { name: self.name@, value: self.value@ }
    }
}

/// The model of a sequence of record fields.
pub open spec fn record_views(s: Seq<RecordField>) -> Seq<RecordFieldView> {
    s.map_values(|x: RecordField| x@)
}

/// A finished record: every field holds its value, in schema order.
#[derive(Debug, PartialEq, Eq)]
pub struct RecordValue {
    pub fields: Vec<RecordField>,
}

impl View for RecordValue {
    type V = Seq<RecordFieldView>;

    open spec fn view(&self) -> Seq<RecordFieldView> {
        record_views(self.fields@)
    }
}

/// The runtime error of the generated finalizer: a required field was never
/// set. Routine and recoverable — the builder is left as it stands.
#[derive(Debug, PartialEq, Eq)]
pub enum BuildError {
    MissingField { field: String },
}

impl View for BuildError {
    type V = Seq<char>;

    open spec fn view(&self) -> Seq<char> {
        match self {
            BuildError::MissingField { field } => field@,
        }
    }
}

/// The builder state the generated factory returns: one field per finalizer
/// read, in order, validated exactly where the read unwraps, every slot
/// empty.
pub open spec fn spec_fresh(fin: Seq<FieldReadView>) -> Seq<FieldStateView> {
    fin.map_values(
        |r: FieldReadView| FieldStateView {
            name: r.field,
            required: r.mode == ReadMode::UnwrapRequired,
            slot: match r.mode {
                ReadMode::CopyCollection => SlotView::Multi(Seq::empty()),
                ReadMode::UnwrapRequired => SlotView::Single(None),
                ReadMode::CopyOptional => SlotView::Single(None),
            },
        },
    )
}

/// What a generated setter does to an optional slot: store the value,
/// overwriting any prior one. On a collection slot it does nothing (no such
/// method is generated there; the whole-collection setter is separate).
pub open spec fn spec_set_value(b: Seq<FieldStateView>, i: int, v: ValueView) -> Seq<
    FieldStateView,
> {
    if 0 <= i < b.len() && b[i].slot matches SlotView::Single(_) {
        b.update(
            i,
            FieldStateView {
                name: b[i].name,
                required: b[i].required,
                slot: SlotView::Single(Some(v)),
            },
        )
    } else {
        b
    }
}

/// What a generated whole-collection setter does: replace the collection
/// slot's whole contents, discarding anything appended before.
pub open spec fn spec_set_collection(b: Seq<FieldStateView>, i: int, vs: Seq<ValueView>) -> Seq<
    FieldStateView,
> {
    if 0 <= i < b.len() && b[i].slot matches SlotView::Multi(_) {
        b.update(
            i,
            FieldStateView { name: b[i].name, required: b[i].required, slot: SlotView::Multi(vs) },
        )
    } else {
        b
    }
}

/// What a generated appender does: push one element onto the end of the
/// collection slot, preserving call order.
pub open spec fn spec_append(b: Seq<FieldStateView>, i: int, v: ValueView) -> Seq<FieldStateView> {
    if 0 <= i < b.len() && b[i].slot matches SlotView::Multi(_) {
        b.update(
            i,
            FieldStateView {
                name: b[i].name,
                required: b[i].required,
                slot: SlotView::Multi(b[i].slot->Multi_0.push(v)),
            },
        )
    } else {
        b
    }
}

/// Whether a field's slot would make the finalizer fail: validated but never
/// set.
pub open spec fn is_missing(f: FieldStateView) -> bool {
    f.required && f.slot == SlotView::Single(None::<ValueView>)
}

/// The first missing field at or after position `i`.
pub open spec fn first_missing_from(b: Seq<FieldStateView>, i: int) -> Option<int>
    decreases b.len() - i,
{
    if 0 <= i < b.len() {
        if is_missing(b[i]) {
            Some(i)
        } else {
            first_missing_from(b, i + 1)
        }
    } else {
        None
    }
}

/// The first missing field of the whole builder, in schema order.
pub open spec fn first_missing(b: Seq<FieldStateView>) -> Option<int> {
    first_missing_from(b, 0)
}

/// The record field one builder field yields when nothing is missing: the
/// unwrapped value for a validated field, the optional as it stands
/// otherwise, the collection as it stands for a collection slot. (For a
/// validated empty slot — never reached when finalization succeeds — an
/// empty placeholder keeps the function total.)
pub open spec fn spec_read(f: FieldStateView) -> FieldValueView {
    match f.slot {
        SlotView::Single(o) => if f.required {
            match o {
                Some(v) => FieldValueView::One(v),
                None => FieldValueView::One(ValueView::Text(Seq::empty())),
            }
        } else {
            FieldValueView::Opt(o)
        },
        SlotView::Multi(vs) => FieldValueView::Many(vs),
    }
}

/// The record a builder yields when nothing is missing: every field's value,
/// in schema order.
pub open spec fn spec_record(b: Seq<FieldStateView>) -> Seq<RecordFieldView> {
    b.map_values(|f: FieldStateView| RecordFieldView { name: f.name, value: spec_read(f) })
}

/// What finalization returns: the name of the first missing required field,
/// or the fully assembled record.
pub open spec fn spec_finalize(b: Seq<FieldStateView>) -> Result<Seq<RecordFieldView>, Seq<char>> {
    match first_missing(b) {
        Some(j) => Err(b[j].name),
        None => Ok(spec_record(b)),
    }
}

/// The model of a finalization outcome.
pub open spec fn finalize_result_view(r: Result<RecordValue, BuildError>) -> Result<
    Seq<RecordFieldView>,
    Seq<char>,
> {
    match r {
        Ok(rec) => Ok(rec@),
        Err(e) => Err(e@),
    }
}

impl Builder {
    /// The generated factory: a builder for the artifact's record, every
    /// slot defaulted empty — always constructible, no inputs.
    pub fn fresh(a: &Artifact) -> (b: Builder)
        ensures
            b@ == spec_fresh(a@.finalizer),
    {
        let mut fields: Vec<BuilderField> = Vec::new();
        let mut i: usize = 0;
        let ghost fin = a@.finalizer;
        while i < a.finalizer.len()
            invariant
                0 <= i <= a.finalizer.len(),
                fin == a@.finalizer,
                fin.len() == a.finalizer@.len(),
                builder_view(fields@) =~= spec_fresh(fin.take(i as int)),
            decreases a.finalizer.len() - i,
        {
            let read = &a.finalizer[i];
            let required = match read.mode {
                ReadMode::UnwrapRequired => true,
                ReadMode::CopyOptional => false,
                ReadMode::CopyCollection => false,
            };
            let slot = match read.mode {
                ReadMode::CopyCollection => Slot::Multi(Vec::new()),
                ReadMode::UnwrapRequired => Slot::Single(None),
                ReadMode::CopyOptional => Slot::Single(None),
            };
            let ghost prev = fields@;
            fields.push(BuilderField { name: read.field.clone(), required, slot });
            proof {
                let ghost entry = FieldStateView {
                    name: fin[i as int].field,
                    required: fin[i as int].mode == ReadMode::UnwrapRequired,
                    slot: match fin[i as int].mode {
                        ReadMode::CopyCollection => SlotView::Multi(Seq::empty()),
                        ReadMode::UnwrapRequired => SlotView::Single(None),
                        ReadMode::CopyOptional => SlotView::Single(None),
                    },
                };
                assert(values_view(Seq::<Value>::empty()) =~= Seq::<ValueView>::empty());
                assert(builder_view(fields@) =~= builder_view(prev).push(entry));
                assert(spec_fresh(fin.take(i as int + 1)) =~= spec_fresh(fin.take(i as int)).push(
                    entry,
                ));
            }
            i = i + 1;
        }
        proof {
            assert(fin.take(fin.len() as int) =~= fin);
        }
        Builder { fields }
    }

    /// A generated setter: store the value into the field's optional slot,
    /// overwriting any prior value.
    pub fn set_value(&mut self, i: usize, v: Value)
        requires
            i < old(self)@.len(),
        ensures
            final(self)@ == spec_set_value(old(self)@, i as int, v@),
    {
        let ghost raw = self.fields@;
        let ghost bv = self@;
        let ghost vv = v@;
        let f = self.fields.remove(i);
        proof {
            assert(f@ == bv[i as int]);
        }
        let slot = match f.slot {
            Slot::Single(_) => Slot::Single(Some(v)),
            Slot::Multi(vs) => Slot::Multi(vs),
        };
        let nf = BuilderField { name: f.name, required: f.required, slot };
        let ghost nfg = nf@;
        self.fields.insert(i, nf);
        proof {
            assert(self.fields@ =~= raw.update(i as int, self.fields@[i as int]));
            assert(self.fields@[i as int]@ == nfg);
            assert(builder_view(self.fields@) =~= bv.update(i as int, nfg));
            assert(builder_view(self.fields@) =~= spec_set_value(bv, i as int, vv));
        }
    }

    /// A generated whole-collection setter: replace the field's collection,
    /// discarding anything appended before.
    pub fn set_collection(&mut self, i: usize, vs: Vec<Value>)
        requires
            i < old(self)@.len(),
        ensures
            final(self)@ == spec_set_collection(old(self)@, i as int, values_view(vs@)),
    {
        let ghost raw = self.fields@;
        let ghost bv = self@;
        let ghost vsv = values_view(vs@);
        let f = self.fields.remove(i);
        proof {
            assert(f@ == bv[i as int]);
        }
        let slot = match f.slot {
            Slot::Multi(_) => Slot::Multi(vs),
            Slot::Single(o) => Slot::Single(o),
        };
        let nf = BuilderField { name: f.name, required: f.required, slot };
        let ghost nfg = nf@;
        self.fields.insert(i, nf);
        proof {
            assert(self.fields@ =~= raw.update(i as int, self.fields@[i as int]));
            assert(self.fields@[i as int]@ == nfg);
            assert(builder_view(self.fields@) =~= bv.update(i as int, nfg));
            assert(builder_view(self.fields@) =~= spec_set_collection(bv, i as int, vsv));
        }
    }

    /// A generated appender: push one element onto the end of the field's
    /// collection, preserving call order.
    pub fn append_value(&mut self, i: usize, v: Value)
        requires
            i < old(self)@.len(),
        ensures
            final(self)@ == spec_append(old(self)@, i as int, v@),
    {
        let ghost raw = self.fields@;
        let ghost bv = self@;
        let ghost vv = v@;
        let f = self.fields.remove(i);
        proof {
            assert(f@ == bv[i as int]);
        }
        let slot = match f.slot {
            Slot::Multi(mut items) => {
                let ghost itemsv = items@;
                items.push(v);
                proof {
                    assert(values_view(items@) =~= values_view(itemsv).push(vv));
                }
                Slot::Multi(items)
            },
            Slot::Single(o) => Slot::Single(o),
        };
        let nf = BuilderField { name: f.name, required: f.required, slot };
        let ghost nfg = nf@;
        self.fields.insert(i, nf);
        proof {
            assert(self.fields@ =~= raw.update(i as int, self.fields@[i as int]));
            assert(self.fields@[i as int]@ == nfg);
            assert(builder_view(self.fields@) =~= bv.update(i as int, nfg));
            assert(builder_view(self.fields@) =~= spec_append(bv, i as int, vv));
        }
    }

    /// The generated finalizer: read every slot in schema order, failing
    /// with the first validated field that was never set, otherwise
    /// assembling the record. The builder itself is left untouched, so
    /// finalizing is safe to repeat.
    pub fn finalize(&self) -> (r: Result<RecordValue, BuildError>)
        ensures
            finalize_result_view(r) == spec_finalize(self@),
    {
        let ghost bv = self@;
        let mut out: Vec<RecordField> = Vec::new();
        let mut i: usize = 0;
        while i < self.fields.len()
            invariant
                0 <= i <= self.fields.len(),
                bv == self@,
                bv.len() == self.fields@.len(),
                first_missing_from(bv, 0) == first_missing_from(bv, i as int),
                record_views(out@) =~= spec_record(bv.take(i as int)),
            decreases self.fields.len() - i,
        {
            let f = &self.fields[i];
            let value = match &f.slot {
                Slot::Single(o) => {
                    if f.required {
                        match o {
                            Some(v) => FieldValue::One(v.clone()),
                            None => {
                                proof {
                                    assert(is_missing(bv[i as int]));
                                    assert(first_missing_from(bv, i as int) == Some(i as int));
                                }
                                return Err(BuildError::MissingField { field: f.name.clone() });
                            },
                        }
                    } else {
                        match o {
                            Some(v) => FieldValue::Opt(Some(v.clone())),
                            None => FieldValue::Opt(None),
                        }
                    }
                },
                Slot::Multi(vs) => FieldValue::Many(clone_values(vs)),
            };
            let ghost prev_out = out@;
            let ghost valv = value@;
            out.push(RecordField { name: f.name.clone(), value });
            proof {
                assert(f@ == bv[i as int]);
                assert(!is_missing(bv[i as int]));
                assert(valv == spec_read(bv[i as int]));
                assert(record_views(out@) =~= record_views(prev_out).push(
                    RecordFieldView { name: bv[i as int].name, value: spec_read(bv[i as int]) },
                ));
                assert(spec_record(bv.take(i as int + 1)) =~= spec_record(bv.take(i as int)).push(
                    RecordFieldView { name: bv[i as int].name, value: spec_read(bv[i as int]) },
                ));
            }
            i = i + 1;
        }
        proof {
            assert(first_missing_from(bv, bv.len() as int) == None::<int>);
            assert(bv.take(bv.len() as int) =~= bv);
        }
        Ok(RecordValue { fields: out })
    }
}

} // verus!
