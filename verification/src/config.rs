//! The top-level configuration object and its protocol.
//!
//! A [`Configuration`] owns one [`Section`] per schema section, plus the
//! cached path of its backing store. Four operations orchestrate it:
//! building from a raw store image (with or without validation), refreshing
//! an existing object from a new image, validating every section in
//! declaration order, and writing the object back out as an image —
//! validation, when asked for, always runs before the image is produced, so
//! an invalid object never yields anything to write.

use vstd::prelude::*;
use crate::error::{ErrorModel, OVConfigError};
use crate::raw::{section_lookup, RawMap, RawSection, RawSectionModel};
use crate::schema::{schema_distinct_names, schema_wf, Schema, SectionModel};
use crate::section::{
    all_valid, bad_value_error, defaults_of, entries_of, lemma_load_values_len,
    lemma_load_values_wf, lemma_section_write_load, load_values, values_wf, Section,
};
use crate::value::ValueModel;

verus! {

/// Mathematical image of a [`Configuration`].
pub struct ConfigModel {
    pub schema: Seq<SectionModel>,
    pub path: Seq<char>,
    pub sections: Seq<Seq<ValueModel>>,
}

impl ConfigModel {
    /// One value list per schema section, of the section's own length.
    pub open spec fn aligned(self) -> bool {
        &&& self.sections.len() == self.schema.len()
        &&& forall|i: int|
            0 <= i < self.schema.len() ==> (#[trigger] self.sections[i]).len()
                == self.schema[i].fields.len()
    }

    /// Aligned, with a well-formed schema and every value of its field's
    /// declared type.
    pub open spec fn wf(self) -> bool {
        &&& schema_wf(self.schema)
        &&& self.sections.len() == self.schema.len()
        &&& forall|i: int|
            0 <= i < self.schema.len() ==> values_wf(
                self.schema[i].fields,
                #[trigger] self.sections[i],
            )
    }
}

/// Every section's defaults, in schema order.
pub open spec fn config_defaults(schema: Seq<SectionModel>) -> Seq<Seq<ValueModel>> {
    schema.map_values(|s: SectionModel| defaults_of(s.fields))
}

/// The values every section takes from a raw image: each schema section
/// reads the raw section of its name (absent sections read as all
/// defaults); `None` when any raw value fails to decode.
pub open spec fn load_config_values(
    schema: Seq<SectionModel>,
    raw: Seq<RawSectionModel>,
) -> Option<Seq<Seq<ValueModel>>>
    decreases schema.len(),
{
    if schema.len() == 0 {
        Some(Seq::empty())
    } else {
        match load_values(schema[0].fields, section_lookup(raw, schema[0].name)) {
            None => None,
            Some(vs) => match load_config_values(schema.drop_first(), raw) {
                None => None,
                Some(rest) => Some(seq![vs] + rest),
            },
        }
    }
}

/// Every section's values satisfy their predicates.
pub open spec fn config_all_valid(
    schema: Seq<SectionModel>,
    sections: Seq<Seq<ValueModel>>,
) -> bool {
    forall|i: int|
        0 <= i < schema.len() ==> all_valid(schema[i].fields, #[trigger] sections[i])
}

/// The first section, in schema order, holding a rejected value.
pub open spec fn first_bad_section(
    schema: Seq<SectionModel>,
    sections: Seq<Seq<ValueModel>>,
) -> int
    decreases schema.len(),
{
    if schema.len() == 0 {
        0
    } else if !all_valid(schema[0].fields, sections[0]) {
        0
    } else {
        1 + first_bad_section(schema.drop_first(), sections.drop_first())
    }
}

/// The error validation reports: the first rejected field of the first
/// section holding one.
pub open spec fn config_error(schema: Seq<SectionModel>, sections: Seq<Seq<ValueModel>>) -> ErrorModel {
    bad_value_error(
        schema[first_bad_section(schema, sections)],
        sections[first_bad_section(schema, sections)],
    )
}

/// `first_bad_section` is the index of the first section holding a
/// rejected value.
pub proof fn lemma_first_bad_section_at(
    schema: Seq<SectionModel>,
    sections: Seq<Seq<ValueModel>>,
    i: int,
)
    requires
        0 <= i < schema.len(),
        sections.len() == schema.len(),
        !all_valid(schema[i].fields, sections[i]),
        forall|k: int| 0 <= k < i ==> all_valid(schema[k].fields, #[trigger] sections[k]),
    ensures
        first_bad_section(schema, sections) == i,
    decreases i,
{
    if i > 0 {
        lemma_first_bad_section_at(schema.drop_first(), sections.drop_first(), i - 1);
    }
}

/// When every schema section loads from a raw image, the loaded value
/// lists are exactly those.
pub proof fn lemma_load_config_some(
    schema: Seq<SectionModel>,
    raw: Seq<RawSectionModel>,
    ws: Seq<Seq<ValueModel>>,
)
    requires
        ws.len() == schema.len(),
        forall|k: int|
            0 <= k < schema.len() ==> load_values(
                (#[trigger] schema[k]).fields,
                section_lookup(raw, schema[k].name),
            ) == Some(ws[k]),
    ensures
        load_config_values(schema, raw) == Some(ws),
    decreases schema.len(),
{
    if schema.len() > 0 {
        assert(forall|k: int|
            0 <= k < schema.drop_first().len() ==> #[trigger] schema.drop_first()[k] == schema[k
                + 1] && ws.drop_first()[k] == ws[k + 1]);
        lemma_load_config_some(schema.drop_first(), raw, ws.drop_first());
        assert(seq![ws[0]] + ws.drop_first() =~= ws);
    }
}

/// When some schema section fails to load, the whole image fails to load.
pub proof fn lemma_load_config_none(
    schema: Seq<SectionModel>,
    raw: Seq<RawSectionModel>,
    i: int,
)
    requires
        0 <= i < schema.len(),
        load_values(schema[i].fields, section_lookup(raw, schema[i].name)) is None,
    ensures
        load_config_values(schema, raw) is None,
    decreases i,
{
    if i > 0 {
        if load_values(schema[0].fields, section_lookup(raw, schema[0].name)) is Some {
            lemma_load_config_none(schema.drop_first(), raw, i - 1);
        }
    }
}

/// The raw image a configuration is written out as: one raw section per
/// schema section, in schema order.
pub open spec fn raw_image_of(
    schema: Seq<SectionModel>,
    sections: Seq<Seq<ValueModel>>,
) -> Seq<RawSectionModel> {
    Seq::new(
        schema.len(),
        |i: int|
            RawSectionModel {
                name: schema[i].name,
                entries: entries_of(schema[i].fields, sections[i]),
            },
    )
}

/// In the written image of a schema with distinct section names, each
/// section's name is found, bound to its own raw section.
pub proof fn lemma_section_lookup_image(
    schema: Seq<SectionModel>,
    sections: Seq<Seq<ValueModel>>,
    i: int,
)
    requires
        sections.len() == schema.len(),
        forall|a: int, b: int|
            0 <= a < b < schema.len() ==> (#[trigger] schema[a]).name != (
            #[trigger] schema[b]).name,
        0 <= i < schema.len(),
    ensures
        section_lookup(raw_image_of(schema, sections), schema[i].name) == Some(
            raw_image_of(schema, sections)[i],
        ),
    decreases i,
{
    let img = raw_image_of(schema, sections);
    assert(img[0].name == schema[0].name);
    if i == 0 {
    } else {
        assert(schema[0].name != schema[i].name);
        assert(img.drop_first() =~= raw_image_of(schema.drop_first(), sections.drop_first()));
        assert(forall|k: int|
            0 <= k < schema.drop_first().len() ==> #[trigger] schema.drop_first()[k] == schema[k
                + 1] && sections.drop_first()[k] == sections[k + 1]);
        lemma_section_lookup_image(schema.drop_first(), sections.drop_first(), i - 1);
    }
}

/// Writing a configuration out and loading the written image back under
/// the same schema yields the same values: what `flush_no_verify` hands
/// the store, a later `get_config_no_verify` of it reproduces field by
/// field.
///
/// This holds for every schema whose section names, and field keys within
/// each section, are distinct; under duplicate names the store image keeps
/// only the first binding, so nothing can be promised.
pub proof fn lemma_flush_get_round_trip(c: ConfigModel)
    requires
        c.wf(),
        schema_distinct_names(c.schema),
    ensures
        load_config_values(c.schema, raw_image_of(c.schema, c.sections)) == Some(c.sections),
{
    let img = raw_image_of(c.schema, c.sections);
    assert forall|k: int| 0 <= k < c.schema.len() implies load_values(
        (#[trigger] c.schema[k]).fields,
        section_lookup(img, c.schema[k].name),
    ) == Some(c.sections[k]) by {
        lemma_section_lookup_image(c.schema, c.sections, k);
        lemma_section_write_load(c.schema[k], c.sections[k]);
    }
    lemma_load_config_some(c.schema, img, c.sections);
}

/// A configuration: its schema, the cached path of its backing store, and
/// one section of values per schema section.
#[derive(Debug)]
pub struct Configuration {
    pub schema: Schema,
    pub path: String,
    pub sections: Vec<Section>,
}

impl View for Configuration {
    type V = ConfigModel;

    open spec fn view(&self) -> ConfigModel {
        ConfigModel {
            schema: self.schema@,
            path: self.path@,
            sections: self.sections@.map_values(|s: Section| s@),
        }
    }
}

impl Configuration {
    /// A configuration with every field at its schema default and no
    /// cached path. Total: building the defaults cannot fail.
    pub fn default_config(schema: Schema) -> (c: Configuration)
        ensures
            c@.schema == schema@,
            c@.path == Seq::<char>::empty(),
            c@.sections == config_defaults(schema@),
            c@.aligned(),
            schema_wf(schema@) ==> c@.wf(),
    {
        let mut sections: Vec<Section> = Vec::new();
        let mut i: usize = 0;
        while i < schema.sections.len()
            invariant
                i <= schema.sections.len(),
                sections@.len() == i,
                forall|k: int|
                    0 <= k < i ==> (#[trigger] sections@[k])@ == defaults_of(schema@[k].fields),
            decreases schema.sections.len() - i,
        {
            sections.push(Section::default_section(&schema.sections[i]));
            i = i + 1;
        }
        let c = Configuration { schema, path: String::new(), sections };
        proof {
            assert(c@.sections =~= config_defaults(c@.schema));
            assert forall|k: int| 0 <= k < c@.schema.len() implies (#[trigger] c@.sections[k]).len()
                == c@.schema[k].fields.len() by {
                assert(c@.sections[k] == defaults_of(c@.schema[k].fields));
            }
            if schema_wf(c@.schema) {
                assert forall|k: int| 0 <= k < c@.schema.len() implies values_wf(
                    c@.schema[k].fields,
                    #[trigger] c@.sections[k],
                ) by {
                    assert(c@.schema[k].wf());
                }
            }
        }
        c
    }

    /// Whether the object holds one value list per schema section, each
    /// of its section's length. The constructors establish this; a caller
    /// that assembled an object by hand can test it before validating or
    /// writing.
    pub fn check_aligned(&self) -> (b: bool)
        ensures
            b == self@.aligned(),
    {
        if self.sections.len() != self.schema.sections.len() {
            return false;
        }
        let mut i: usize = 0;
        while i < self.sections.len()
            invariant
                i <= self.sections.len(),
                self.sections@.len() == self.schema.sections@.len(),
                forall|k: int|
                    0 <= k < i ==> (#[trigger] self@.sections[k]).len()
                        == self@.schema[k].fields.len(),
            decreases self.sections.len() - i,
        {
            if self.sections[i].values.len() != self.schema.sections[i].fields.len() {
                proof {
                    assert(self@.sections[i as int].len() != self@.schema[i as int].fields.len());
                }
                return false;
            }
            i = i + 1;
        }
        true
    }

    /// Applies every section's validation, in schema order, and reports
    /// the first rejected field.
    pub fn verify(&self) -> (r: Result<(), OVConfigError>)
        requires
            self@.aligned(),
        ensures
            (r is Ok <==> config_all_valid(self@.schema, self@.sections)),
            (r matches Err(e) ==> e@ == config_error(self@.schema, self@.sections)),
    {
        let mut i: usize = 0;
        while i < self.sections.len()
            invariant
                self@.aligned(),
                i <= self.sections.len(),
                forall|k: int|
                    0 <= k < i ==> all_valid(self@.schema[k].fields, #[trigger] self@.sections[k]),
            decreases self.sections.len() - i,
        {
            proof {
                assert(self.sections@[i as int]@ == self@.sections[i as int]);
                assert(self.schema.sections@[i as int]@ == self@.schema[i as int]);
            }
            match self.sections[i].verify_section(&self.schema.sections[i]) {
                Ok(()) => {},
                Err(e) => {
                    proof {
                        lemma_first_bad_section_at(self@.schema, self@.sections, i as int);
                    }
                    return Err(e);
                },
            }
            i = i + 1;
        }
        Ok(())
    }

    /// Builds one section of values per schema section from a raw image.
    fn load_sections(schema: &Schema, raw: &RawMap) -> (r: Result<Vec<Section>, OVConfigError>)
        ensures
            match load_config_values(schema@, raw@) {
                Some(secs) => r matches Ok(v) && v@.len() == secs.len() && forall|i: int|
                    0 <= i < secs.len() ==> (#[trigger] v@[i])@ == secs[i],
                None => r matches Err(e) && e@ is ParseValueError,
            },
    {
        let mut out: Vec<Section> = Vec::new();
        let mut i: usize = 0;
        while i < schema.sections.len()
            invariant
                i <= schema.sections.len(),
                out@.len() == i,
                forall|k: int|
                    0 <= k < i ==> load_values(
                        (#[trigger] schema@[k]).fields,
                        section_lookup(raw@, schema@[k].name),
                    ) == Some(out@[k]@),
            decreases schema.sections.len() - i,
        {
            let raw_sec: Option<&RawSection> = raw.find_section(&schema.sections[i].name);
            match Section::load_section(&schema.sections[i], raw_sec) {
                Ok(s) => {
                    out.push(s);
                },
                Err(e) => {
                    proof {
                        lemma_load_config_none(schema@, raw@, i as int);
                    }
                    return Err(e);
                },
            }
            i = i + 1;
        }
        proof {
            lemma_load_config_some(schema@, raw@, out@.map_values(|s: Section| s@));
        }
        Ok(out)
    }

    /// Builds a configuration from a raw image without validating it, and
    /// caches the given path.
    pub fn get_config_no_verify(schema: Schema, raw: &RawMap, path: &str) -> (r: Result<
        Configuration,
        OVConfigError,
    >)
        ensures
            match load_config_values(schema@, raw@) {
                Some(secs) => r matches Ok(c) && c@.schema == schema@ && c@.path == path@
                    && c@.sections == secs && c@.aligned() && (schema_wf(schema@) ==> c@.wf()),
                None => r matches Err(e) && e@ is ParseValueError,
            },
    {
        let sections = match Self::load_sections(&schema, raw) {
            Ok(v) => v,
            Err(e) => {
                return Err(e);
            },
        };
        let c = Configuration { schema, path: path.to_owned(), sections };
        proof {
            lemma_load_config_len(c@.schema, raw@);
            assert(c@.sections =~= load_config_values(c@.schema, raw@).unwrap());
            lemma_loaded_aligned(c@.schema, raw@, c@.sections);
            if schema_wf(c@.schema) {
                assert forall|k: int| 0 <= k < c@.schema.len() implies values_wf(
                    c@.schema[k].fields,
                    #[trigger] c@.sections[k],
                ) by {
                    assert((c@.schema[k]).wf());
                    lemma_load_config_index(c@.schema, raw@, k);
                    assert(c@.sections[k] == load_config_values(c@.schema, raw@).unwrap()[k]);
                    lemma_load_values_wf(
                        c@.schema[k].fields,
                        section_lookup(raw@, c@.schema[k].name),
                    );
                }
            }
        }
        Ok(c)
    }

    /// Builds a configuration from a raw image, validates it, and caches
    /// the given path; an invalid image yields the validation error, not
    /// an object.
    pub fn get_config(schema: Schema, raw: &RawMap, path: &str) -> (r: Result<
        Configuration,
        OVConfigError,
    >)
        ensures
            match load_config_values(schema@, raw@) {
                Some(secs) => if config_all_valid(schema@, secs) {
                    r matches Ok(c) && c@.schema == schema@ && c@.path == path@ && c@.sections
                        == secs && c@.aligned() && (schema_wf(schema@) ==> c@.wf())
                } else {
                    r matches Err(e) && e@ == config_error(schema@, secs)
                },
                None => r matches Err(e) && e@ is ParseValueError,
            },
    {
        let c = match Self::get_config_no_verify(schema, raw, path) {
            Ok(c) => c,
            Err(e) => {
                return Err(e);
            },
        };
        proof {
            lemma_loaded_aligned(c@.schema, raw@, c@.sections);
        }
        match c.verify() {
            Ok(()) => Ok(c),
            Err(e) => Err(e),
        }
    }

    /// Rebuilds every section from a new raw image of the cached store,
    /// without validating. On a decode failure the object is unchanged.
    pub fn refresh_no_verify(&mut self, raw: &RawMap) -> (r: Result<(), OVConfigError>)
        ensures
            final(self)@.schema == old(self)@.schema,
            final(self)@.path == old(self)@.path,
            match load_config_values(old(self)@.schema, raw@) {
                Some(secs) => r is Ok && final(self)@.sections == secs && final(self)@.aligned(),
                None => r matches Err(e) && e@ is ParseValueError && final(self)@ == old(self)@,
            },
    {
        let sections = match Self::load_sections(&self.schema, raw) {
            Ok(v) => v,
            Err(e) => {
                return Err(e);
            },
        };
        self.sections = sections;
        proof {
            lemma_load_config_len(self@.schema, raw@);
            assert(self@.sections =~= load_config_values(self@.schema, raw@).unwrap());
            lemma_loaded_aligned(self@.schema, raw@, self@.sections);
        }
        Ok(())
    }

    /// Rebuilds every section from a new raw image of the cached store,
    /// then validates. The new values are put in place before validation
    /// runs, as the store protocol has it: on a validation failure the
    /// object keeps the freshly loaded values, and the error names the
    /// first rejected field. On a decode failure the object is unchanged.
    pub fn refresh(&mut self, raw: &RawMap) -> (r: Result<(), OVConfigError>)
        ensures
            final(self)@.schema == old(self)@.schema,
            final(self)@.path == old(self)@.path,
            match load_config_values(old(self)@.schema, raw@) {
                Some(secs) => final(self)@.sections == secs && final(self)@.aligned() && (r is Ok
                    <==> config_all_valid(old(self)@.schema, secs)) && (r matches Err(e) ==> e@
                    == config_error(old(self)@.schema, secs)),
                None => r matches Err(e) && e@ is ParseValueError && final(self)@ == old(self)@,
            },
    {
        match self.refresh_no_verify(raw) {
            Ok(()) => {},
            Err(e) => {
                return Err(e);
            },
        }
        proof {
            lemma_loaded_aligned(self@.schema, raw@, self@.sections);
        }
        self.verify()
    }

    /// Writes every section out as a raw image, one raw section per
    /// schema section in schema order, without validating first.
    pub fn flush_no_verify(&self) -> (m: RawMap)
        requires
            self@.aligned(),
        ensures
            m@ == raw_image_of(self@.schema, self@.sections),
    {
        let mut sections: Vec<RawSection> = Vec::new();
        let mut i: usize = 0;
        while i < self.sections.len()
            invariant
                self@.aligned(),
                i <= self.sections.len(),
                sections@.len() == i,
                forall|k: int|
                    0 <= k < i ==> (#[trigger] sections@[k])@ == raw_image_of(
                        self@.schema,
                        self@.sections,
                    )[k],
            decreases self.sections.len() - i,
        {
            proof {
                assert(self.sections@[i as int]@ == self@.sections[i as int]);
                assert(self.schema.sections@[i as int]@ == self@.schema[i as int]);
            }
            sections.push(self.sections[i].write_section(&self.schema.sections[i]));
            i = i + 1;
        }
        let m = RawMap { sections };
        proof {
            assert(m@ =~= raw_image_of(self@.schema, self@.sections));
        }
        m
    }

    /// Validates, and only on success writes the object out as a raw
    /// image. A validation failure yields the error and no image at all,
    /// so nothing reaches the store.
    pub fn flush(&self) -> (r: Result<RawMap, OVConfigError>)
        requires
            self@.aligned(),
        ensures
            (r is Ok <==> config_all_valid(self@.schema, self@.sections)),
            (r matches Ok(m) ==> m@ == raw_image_of(self@.schema, self@.sections)),
            (r matches Err(e) ==> e@ == config_error(self@.schema, self@.sections)),
    {
        match self.verify() {
            Ok(()) => Ok(self.flush_no_verify()),
            Err(e) => Err(e),
        }
    }
}

/// Each loaded section's values, taken one schema section at a time.
pub proof fn lemma_load_config_index(
    schema: Seq<SectionModel>,
    raw: Seq<RawSectionModel>,
    i: int,
)
    requires
        load_config_values(schema, raw) is Some,
        0 <= i < schema.len(),
    ensures
        load_config_values(schema, raw).unwrap().len() == schema.len(),
        load_values(schema[i].fields, section_lookup(raw, schema[i].name)) == Some(
            load_config_values(schema, raw).unwrap()[i],
        ),
    decreases i,
{
    if schema.len() > 0 {
        let rest = load_config_values(schema.drop_first(), raw);
        if i == 0 {
            lemma_load_config_len(schema.drop_first(), raw);
        } else {
            lemma_load_config_index(schema.drop_first(), raw, i - 1);
            assert(schema.drop_first()[i - 1] == schema[i]);
        }
    }
}

/// A loaded image has one value list per schema section.
pub proof fn lemma_load_config_len(schema: Seq<SectionModel>, raw: Seq<RawSectionModel>)
    requires
        load_config_values(schema, raw) is Some,
    ensures
        load_config_values(schema, raw).unwrap().len() == schema.len(),
    decreases schema.len(),
{
    if schema.len() > 0 {
        lemma_load_config_len(schema.drop_first(), raw);
    }
}

/// Loaded value lists are aligned with the schema.
proof fn lemma_loaded_aligned(
    schema: Seq<SectionModel>,
    raw: Seq<RawSectionModel>,
    secs: Seq<Seq<ValueModel>>,
)
    requires
        load_config_values(schema, raw) == Some(secs),
    ensures
        (ConfigModel { schema, path: Seq::<char>::empty(), sections: secs }).aligned(),
        secs.len() == schema.len(),
        forall|i: int|
            0 <= i < schema.len() ==> (#[trigger] secs[i]).len() == schema[i].fields.len(),
    decreases schema.len(),
{
    lemma_load_config_len(schema, raw);
    assert forall|i: int| 0 <= i < schema.len() implies (#[trigger] secs[i]).len()
        == schema[i].fields.len() by {
        lemma_load_config_index(schema, raw, i);
        lemma_load_values_len(schema[i].fields, section_lookup(raw, schema[i].name));
    }
}

} // verus!
