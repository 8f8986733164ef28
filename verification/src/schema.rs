//! The declarative configuration schema.
//!
//! A schema is an ordered list of named sections; each section an ordered
//! list of fields; each field a name, a type, a default value and a
//! validation predicate. A schema is data, built once by the embedding
//! application, and every runtime value is interpreted against it.

use vstd::prelude::*;
use crate::value::{tag_of, Pred, TypeTag, Value, ValueModel};

verus! {

/// Mathematical image of a [`FieldSchema`].
pub struct FieldModel {
    pub name: Seq<char>,
    pub tag: TypeTag,
    pub default: ValueModel,
    pub pred: Pred,
}

impl FieldModel {
    /// A field's default value has the field's declared type.
    ///
    /// The schema does not demand that the default also satisfies the
    /// field's predicate; a schema whose default fails its own predicate
    /// makes `default()` produce a value that `verify` rejects, which is
    /// the schema author's responsibility.
    pub open spec fn wf(self) -> bool {
        tag_of(self.default) == self.tag
    }
}

/// One schema entry: a field's name, type, default and predicate.
#[derive(Debug)]
pub struct FieldSchema {
    pub name: String,
    pub tag: TypeTag,
    pub default: Value,
    pub pred: Pred,
}

impl View for FieldSchema {
    type V = FieldModel;

    open spec fn view(&self) -> FieldModel {
        FieldModel { name: self.name@, tag: self.tag, default: self.default@, pred: self.pred }
    }
}

/// Mathematical image of a [`SectionSchema`].
pub struct SectionModel {
    pub name: Seq<char>,
    pub fields: Seq<FieldModel>,
}

impl SectionModel {
    /// Every field is well formed.
    pub open spec fn wf(self) -> bool {
        forall|i: int| 0 <= i < self.fields.len() ==> (#[trigger] self.fields[i]).wf()
    }

    /// No two fields share a name.
    pub open spec fn distinct_keys(self) -> bool {
        forall|i: int, j: int|
            0 <= i < j < self.fields.len() ==> (#[trigger] self.fields[i]).name != (
            #[trigger] self.fields[j]).name
    }
}

/// One section of the schema: a name and its fields in declaration order.
#[derive(Debug)]
pub struct SectionSchema {
    pub name: String,
    pub fields: Vec<FieldSchema>,
}

impl View for SectionSchema {
    type V = SectionModel;

    open spec fn view(&self) -> SectionModel {
        SectionModel {
            name: self.name@,
            fields: self.fields@.map_values(|f: FieldSchema| f@),
        }
    }
}

/// The whole schema: sections in declaration order.
#[derive(Debug)]
pub struct Schema {
    pub sections: Vec<SectionSchema>,
}

impl View for Schema {
    type V = Seq<SectionModel>;

    open spec fn view(&self) -> Seq<SectionModel> {
        self.sections@.map_values(|s: SectionSchema| s@)
    }
}

/// Every section of a schema is well formed.
pub open spec fn schema_wf(sections: Seq<SectionModel>) -> bool {
    forall|i: int| 0 <= i < sections.len() ==> (#[trigger] sections[i]).wf()
}

/// No two sections share a name, and no section has two fields of one name.
pub open spec fn schema_distinct_names(sections: Seq<SectionModel>) -> bool {
    &&& forall|i: int, j: int|
        0 <= i < j < sections.len() ==> (#[trigger] sections[i]).name != (
        #[trigger] sections[j]).name
    &&& forall|i: int|
        0 <= i < sections.len() ==> (#[trigger] sections[i]).distinct_keys()
}

} // verus!
