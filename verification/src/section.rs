//! One section's runtime values.
//!
//! A [`Section`] holds one concrete value per field of its schema section,
//! in declaration order. It is built either from the schema defaults or
//! from a raw store section (a present key is decoded, an absent key falls
//! back to the default); it is validated field by field in declaration
//! order, reporting the first rejected field; and it is written back out as
//! raw entries.

use vstd::prelude::*;
use crate::codec::{
    decode_value, encode_value, lemma_write_read_value, read_value, write_value,
};
use crate::error::{ErrorModel, OVConfigError};
use crate::raw::{entry_lookup, RawEntry, RawEntryModel, RawSection, RawSectionModel};
use crate::schema::{FieldModel, SectionModel, SectionSchema};
use crate::value::{eval_pred, pred_holds, tag_of, Value, ValueModel};

verus! {

/// The schema defaults of a field list, in order.
pub open spec fn defaults_of(fs: Seq<FieldModel>) -> Seq<ValueModel> {
    fs.map_values(|f: FieldModel| f.default)
}

/// Values aligned with a field list: one per field, each of its field's
/// declared type.
pub open spec fn values_wf(fs: Seq<FieldModel>, vs: Seq<ValueModel>) -> bool {
    &&& vs.len() == fs.len()
    &&& forall|i: int| 0 <= i < fs.len() ==> tag_of(#[trigger] vs[i]) == fs[i].tag
}

/// Every value satisfies its field's predicate.
pub open spec fn all_valid(fs: Seq<FieldModel>, vs: Seq<ValueModel>) -> bool {
    forall|i: int| 0 <= i < fs.len() ==> pred_holds(fs[i].pred, #[trigger] vs[i])
}

/// The first field, in declaration order, whose value its predicate
/// rejects.
pub open spec fn first_bad(fs: Seq<FieldModel>, vs: Seq<ValueModel>) -> int
    decreases fs.len(),
{
    if fs.len() == 0 {
        0
    } else if !pred_holds(fs[0].pred, vs[0]) {
        0
    } else {
        1 + first_bad(fs.drop_first(), vs.drop_first())
    }
}

/// The error a section's validation reports: the first rejected field,
/// named with its section, with the value written as raw text.
pub open spec fn bad_value_error(sm: SectionModel, vs: Seq<ValueModel>) -> ErrorModel {
    ErrorModel::BadValue {
        section: sm.name,
        key: sm.fields[first_bad(sm.fields, vs)].name,
        value: write_value(vs[first_bad(sm.fields, vs)]),
    }
}

/// `first_bad` is the index of the first rejected value.
pub proof fn lemma_first_bad_at(fs: Seq<FieldModel>, vs: Seq<ValueModel>, i: int)
    requires
        0 <= i < fs.len(),
        vs.len() == fs.len(),
        !pred_holds(fs[i].pred, vs[i]),
        forall|k: int| 0 <= k < i ==> pred_holds(fs[k].pred, #[trigger] vs[k]),
    ensures
        first_bad(fs, vs) == i,
    decreases i,
{
    if i > 0 {
        lemma_first_bad_at(fs.drop_first(), vs.drop_first(), i - 1);
    }
}

/// With exactly two fields in declaration order, both holding rejected
/// values, validation reports the first field's failure, never the
/// second's.
pub proof fn lemma_verify_order(sm: SectionModel, vs: Seq<ValueModel>)
    requires
        sm.fields.len() == 2,
        vs.len() == 2,
        !pred_holds(sm.fields[0].pred, vs[0]),
        !pred_holds(sm.fields[1].pred, vs[1]),
    ensures
        bad_value_error(sm, vs) == (ErrorModel::BadValue {
            section: sm.name,
            key: sm.fields[0].name,
            value: write_value(vs[0]),
        }),
{
    assert(first_bad(sm.fields, vs) == 0);
}

/// The raw text under a field's key, `None` when the key, or the whole
/// section, is absent from the store image.
pub open spec fn raw_of_field(sec: Option<RawSectionModel>, key: Seq<char>) -> Option<Seq<char>> {
    match sec {
        None => None,
        Some(s) => entry_lookup(s.entries, key),
    }
}

/// The value one field takes from a raw section: the decoded raw text when
/// the key is present, the schema default when it is absent, `None` on a
/// decode failure.
pub open spec fn read_field(f: FieldModel, sec: Option<RawSectionModel>) -> Option<ValueModel> {
    match raw_of_field(sec, f.name) {
        None => Some(f.default),
        Some(s) => read_value(f.tag, s),
    }
}

/// A key that is absent from the store is not an error: the field takes
/// its schema default.
pub proof fn lemma_absent_key_takes_default(f: FieldModel, sec: Option<RawSectionModel>)
    requires
        raw_of_field(sec, f.name) is None,
    ensures
        read_field(f, sec) == Some(f.default),
{
}

/// The values a whole field list takes from a raw section, `None` when any
/// field's raw text fails to decode.
pub open spec fn load_values(fs: Seq<FieldModel>, sec: Option<RawSectionModel>) -> Option<
    Seq<ValueModel>,
>
    decreases fs.len(),
{
    if fs.len() == 0 {
        Some(Seq::empty())
    } else {
        match read_field(fs[0], sec) {
            None => None,
            Some(v) => match load_values(fs.drop_first(), sec) {
                None => None,
                Some(rest) => Some(seq![v] + rest),
            },
        }
    }
}

/// When every field reads a value, the loaded values are exactly those.
pub proof fn lemma_load_values_some(
    fs: Seq<FieldModel>,
    sec: Option<RawSectionModel>,
    ws: Seq<ValueModel>,
)
    requires
        ws.len() == fs.len(),
        forall|k: int| 0 <= k < fs.len() ==> read_field(#[trigger] fs[k], sec) == Some(ws[k]),
    ensures
        load_values(fs, sec) == Some(ws),
    decreases fs.len(),
{
    if fs.len() > 0 {
        assert(read_field(fs[0], sec) == Some(ws[0]));
        assert(forall|k: int|
            0 <= k < fs.drop_first().len() ==> #[trigger] fs.drop_first()[k] == fs[k + 1]
                && ws.drop_first()[k] == ws[k + 1]);
        lemma_load_values_some(fs.drop_first(), sec, ws.drop_first());
        assert(seq![ws[0]] + ws.drop_first() =~= ws);
    }
}

/// When some field's raw text fails to decode, the whole load fails.
pub proof fn lemma_load_values_none(fs: Seq<FieldModel>, sec: Option<RawSectionModel>, i: int)
    requires
        0 <= i < fs.len(),
        read_field(fs[i], sec) is None,
    ensures
        load_values(fs, sec) is None,
    decreases i,
{
    if i > 0 {
        if read_field(fs[0], sec) is Some {
            lemma_load_values_none(fs.drop_first(), sec, i - 1);
        }
    }
}

/// A loaded value list has one value per field.
pub proof fn lemma_load_values_len(fs: Seq<FieldModel>, sec: Option<RawSectionModel>)
    requires
        load_values(fs, sec) is Some,
    ensures
        load_values(fs, sec).unwrap().len() == fs.len(),
    decreases fs.len(),
{
    if fs.len() > 0 {
        lemma_load_values_len(fs.drop_first(), sec);
    }
}

/// Loading and defaulting agree on every field whose key is absent from
/// the raw section: whenever the whole load succeeds, such a field holds
/// exactly the value `default` gives it.
pub proof fn lemma_absent_field_loads_default(
    fs: Seq<FieldModel>,
    sec: Option<RawSectionModel>,
    i: int,
)
    requires
        0 <= i < fs.len(),
        raw_of_field(sec, fs[i].name) is None,
        load_values(fs, sec) is Some,
    ensures
        load_values(fs, sec).unwrap()[i] == defaults_of(fs)[i],
    decreases i,
{
    lemma_load_values_len(fs, sec);
    lemma_load_values_len(fs.drop_first(), sec);
    let vs = load_values(fs, sec).unwrap();
    let rest = load_values(fs.drop_first(), sec).unwrap();
    assert(vs == seq![read_field(fs[0], sec).unwrap()] + rest);
    if i == 0 {
    } else {
        assert(fs.drop_first()[i - 1] == fs[i]);
        lemma_absent_field_loads_default(fs.drop_first(), sec, i - 1);
        assert(vs[i] == rest[i - 1]);
    }
}

/// Loaded values are aligned with their fields and have their declared
/// types.
pub proof fn lemma_load_values_wf(fs: Seq<FieldModel>, sec: Option<RawSectionModel>)
    requires
        forall|i: int| 0 <= i < fs.len() ==> (#[trigger] fs[i]).wf(),
        load_values(fs, sec) is Some,
    ensures
        values_wf(fs, load_values(fs, sec).unwrap()),
    decreases fs.len(),
{
    if fs.len() > 0 {
        assert(forall|k: int| 0 <= k < fs.drop_first().len() ==> #[trigger] fs.drop_first()[k]
            == fs[k + 1]);
        lemma_load_values_wf(fs.drop_first(), sec);
        let v0 = read_field(fs[0], sec).unwrap();
        assert(tag_of(v0) == fs[0].tag);
        let vs = load_values(fs, sec).unwrap();
        let rest = load_values(fs.drop_first(), sec).unwrap();
        assert(vs == seq![v0] + rest);
        assert(forall|i: int| 1 <= i < vs.len() ==> #[trigger] vs[i] == rest[i - 1]);
    }
}

/// The raw entries a section's values are written out as: one entry per
/// field, in declaration order, under the field's key.
pub open spec fn entries_of(fs: Seq<FieldModel>, vs: Seq<ValueModel>) -> Seq<RawEntryModel> {
    Seq::new(fs.len(), |i: int| RawEntryModel { key: fs[i].name, value: write_value(vs[i]) })
}

/// In the written entries of a section with distinct keys, each field's
/// key is found, bound to its own value's text.
pub proof fn lemma_entry_lookup_written(fs: Seq<FieldModel>, vs: Seq<ValueModel>, i: int)
    requires
        vs.len() == fs.len(),
        forall|a: int, b: int|
            0 <= a < b < fs.len() ==> (#[trigger] fs[a]).name != (#[trigger] fs[b]).name,
        0 <= i < fs.len(),
    ensures
        entry_lookup(entries_of(fs, vs), fs[i].name) == Some(write_value(vs[i])),
    decreases i,
{
    let es = entries_of(fs, vs);
    assert(es[0].key == fs[0].name);
    if i == 0 {
    } else {
        assert(fs[0].name != fs[i].name);
        assert(es.drop_first() =~= entries_of(fs.drop_first(), vs.drop_first()));
        assert(forall|k: int| 0 <= k < fs.drop_first().len() ==> #[trigger] fs.drop_first()[k]
            == fs[k + 1] && vs.drop_first()[k] == vs[k + 1]);
        lemma_entry_lookup_written(fs.drop_first(), vs.drop_first(), i - 1);
    }
}

/// Writing a section's values and loading them back from the written
/// entries yields the same values.
pub proof fn lemma_section_write_load(sm: SectionModel, vs: Seq<ValueModel>)
    requires
        values_wf(sm.fields, vs),
        sm.distinct_keys(),
    ensures
        load_values(
            sm.fields,
            Some(RawSectionModel { name: sm.name, entries: entries_of(sm.fields, vs) }),
        ) == Some(vs),
{
    let raw = RawSectionModel { name: sm.name, entries: entries_of(sm.fields, vs) };
    assert forall|k: int| 0 <= k < sm.fields.len() implies read_field(
        #[trigger] sm.fields[k],
        Some(raw),
    ) == Some(vs[k]) by {
        lemma_entry_lookup_written(sm.fields, vs, k);
        lemma_write_read_value(vs[k]);
    }
    lemma_load_values_some(sm.fields, Some(raw), vs);
}

/// One section's runtime values, aligned with its schema section.
#[derive(Debug)]
pub struct Section {
    pub values: Vec<Value>,
}

impl View for Section {
    type V = Seq<ValueModel>;

    open spec fn view(&self) -> Seq<ValueModel> {
        self.values@.map_values(|v: Value| v@)
    }
}

impl Section {
    /// A section with every field at its schema default. Total: building
    /// the defaults cannot fail.
    pub fn default_section(ss: &SectionSchema) -> (s: Section)
        ensures
            s@ == defaults_of(ss@.fields),
    {
        let mut values: Vec<Value> = Vec::new();
        let mut i: usize = 0;
        while i < ss.fields.len()
            invariant
                i <= ss.fields.len(),
                values@.len() == i,
                forall|k: int| 0 <= k < i ==> (#[trigger] values@[k])@ == ss@.fields[k].default,
            decreases ss.fields.len() - i,
        {
            values.push(ss.fields[i].default.duplicate());
            i = i + 1;
        }
        let s = Section { values };
        proof {
            assert(s@ =~= defaults_of(ss@.fields));
        }
        s
    }

    /// Applies each field's predicate to its value, in declaration order,
    /// and reports the first rejected field.
    pub fn verify_section(&self, ss: &SectionSchema) -> (r: Result<(), OVConfigError>)
        requires
            self@.len() == ss@.fields.len(),
        ensures
            (r is Ok <==> all_valid(ss@.fields, self@)),
            (r matches Err(e) ==> e@ == bad_value_error(ss@, self@)),
    {
        let mut i: usize = 0;
        while i < ss.fields.len()
            invariant
                i <= ss.fields.len(),
                self@.len() == ss@.fields.len(),
                forall|k: int| 0 <= k < i ==> pred_holds(ss@.fields[k].pred, #[trigger] self@[k]),
            decreases ss.fields.len() - i,
        {
            if !eval_pred(&ss.fields[i].pred, &self.values[i]) {
                proof {
                    lemma_first_bad_at(ss@.fields, self@, i as int);
                }
                return Err(
                    OVConfigError::BadValue {
                        section: ss.name.clone(),
                        key: ss.fields[i].name.clone(),
                        value: encode_value(&self.values[i]),
                    },
                );
            }
            i = i + 1;
        }
        Ok(())
    }

    /// Builds a section from a raw store section: a present key is
    /// decoded, an absent key (or a wholly absent section) falls back to
    /// the schema default. The first raw value that fails to decode aborts
    /// the load.
    pub fn load_section(ss: &SectionSchema, raw: Option<&RawSection>) -> (r: Result<
        Section,
        OVConfigError,
    >)
        ensures
            ({
                let sec = match raw {
                    Some(s) => Some(s@),
                    None => None::<RawSectionModel>,
                };
                match load_values(ss@.fields, sec) {
                    Some(vs) => r matches Ok(s) && s@ == vs,
                    None => r matches Err(e) && e@ is ParseValueError,
                }
            }),
    {
        let ghost sec = match raw {
            Some(s) => Some(s@),
            None => None::<RawSectionModel>,
        };
        let mut values: Vec<Value> = Vec::new();
        let mut i: usize = 0;
        while i < ss.fields.len()
            invariant
                i <= ss.fields.len(),
                values@.len() == i,
                sec == (match raw {
                    Some(s) => Some(s@),
                    None => None::<RawSectionModel>,
                }),
                forall|k: int|
                    0 <= k < i ==> read_field(#[trigger] ss@.fields[k], sec) == Some(
                        values@.map_values(|v: Value| v@)[k],
                    ),
            decreases ss.fields.len() - i,
        {
            let f = &ss.fields[i];
            let looked_up: Option<&String> = match raw {
                Some(s) => s.get(&f.name),
                None => None,
            };
            let v = match looked_up {
                None => f.default.duplicate(),
                Some(text) => match decode_value(f.tag, text) {
                    Ok(v) => v,
                    Err(detail) => {
                        proof {
                            lemma_load_values_none(ss@.fields, sec, i as int);
                        }
                        return Err(OVConfigError::ParseValueError(detail));
                    },
                },
            };
            values.push(v);
            i = i + 1;
        }
        proof {
            lemma_load_values_some(ss@.fields, sec, values@.map_values(|v: Value| v@));
        }
        Ok(Section { values })
    }

    /// Writes the section's values as raw entries, one per field in
    /// declaration order.
    pub fn write_section(&self, ss: &SectionSchema) -> (r: RawSection)
        requires
            self@.len() == ss@.fields.len(),
        ensures
            r@ == (RawSectionModel { name: ss@.name, entries: entries_of(ss@.fields, self@) }),
    {
        let mut entries: Vec<RawEntry> = Vec::new();
        let mut i: usize = 0;
        while i < ss.fields.len()
            invariant
                i <= ss.fields.len(),
                self@.len() == ss@.fields.len(),
                entries@.len() == i,
                forall|k: int|
                    0 <= k < i ==> (#[trigger] entries@[k])@ == (RawEntryModel {
                        key: ss@.fields[k].name,
                        value: write_value(self@[k]),
                    }),
            decreases ss.fields.len() - i,
        {
            entries.push(
                RawEntry { key: ss.fields[i].name.clone(), value: encode_value(&self.values[i]) },
            );
            i = i + 1;
        }
        let r = RawSection { name: ss.name.clone(), entries };
        proof {
            assert(r@.entries =~= entries_of(ss@.fields, self@));
        }
        r
    }
}

} // verus!
