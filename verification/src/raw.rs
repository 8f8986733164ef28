//! The raw image of the backing store.
//!
//! The store adapter parses the backing file into a [`RawMap`]: a list of
//! named sections, each a list of key/raw-text pairs, and writes such an
//! image back out. Lookup finds the first entry under a name, as the store
//! format's reader does.

use vstd::prelude::*;

verus! {

/// Mathematical image of a [`RawEntry`].
pub struct RawEntryModel {
    pub key: Seq<char>,
    pub value: Seq<char>,
}

/// One key with its raw text value.
#[derive(Debug)]
pub struct RawEntry {
    pub key: String,
    pub value: String,
}

impl View for RawEntry {
    type V = RawEntryModel;

    open spec fn view(&self) -> RawEntryModel {
        RawEntryModel { key: self.key@, value: self.value@ }
    }
}

/// Mathematical image of a [`RawSection`].
pub struct RawSectionModel {
    pub name: Seq<char>,
    pub entries: Seq<RawEntryModel>,
}

/// One named section of the store image.
#[derive(Debug)]
pub struct RawSection {
    pub name: String,
    pub entries: Vec<RawEntry>,
}

impl View for RawSection {
    type V = RawSectionModel;

    open spec fn view(&self) -> RawSectionModel {
        RawSectionModel {
            name: self.name@,
            entries: self.entries@.map_values(|e: RawEntry| e@),
        }
    }
}

/// The whole store image: sections in the order the store lists them.
#[derive(Debug)]
pub struct RawMap {
    pub sections: Vec<RawSection>,
}

impl View for RawMap {
    type V = Seq<RawSectionModel>;

    open spec fn view(&self) -> Seq<RawSectionModel> {
        self.sections@.map_values(|s: RawSection| s@)
    }
}

/// The raw text under a key: the first entry with that key, if any.
pub open spec fn entry_lookup(entries: Seq<RawEntryModel>, key: Seq<char>) -> Option<Seq<char>>
    decreases entries.len(),
{
    if entries.len() == 0 {
        None
    } else if entries[0].key == key {
        Some(entries[0].value)
    } else {
        entry_lookup(entries.drop_first(), key)
    }
}

/// The section under a name: the first section with that name, if any.
pub open spec fn section_lookup(sections: Seq<RawSectionModel>, name: Seq<char>) -> Option<
    RawSectionModel,
>
    decreases sections.len(),
{
    if sections.len() == 0 {
        None
    } else if sections[0].name == name {
        Some(sections[0])
    } else {
        section_lookup(sections.drop_first(), name)
    }
}

impl RawSection {
    /// The raw text under a key in this section, if the key is present.
    pub fn get(&self, key: &String) -> (r: Option<&String>)
        ensures
            match entry_lookup(self@.entries, key@) {
                Some(v) => r matches Some(s) && s@ == v,
                None => r is None,
            },
    {
        proof {
            assert(self@.entries.skip(0) =~= self@.entries);
        }
        let mut i: usize = 0;
        while i < self.entries.len()
            invariant
                i <= self.entries.len(),
                entry_lookup(self@.entries, key@) == entry_lookup(
                    self@.entries.skip(i as int),
                    key@,
                ),
            decreases self.entries.len() - i,
        {
            proof {
                assert(self@.entries.skip(i as int)[0] == self@.entries[i as int]);
                assert(self@.entries.skip(i as int).drop_first() =~= self@.entries.skip(
                    i as int + 1,
                ));
            }
            if self.entries[i].key.eq(key) {
                return Some(&self.entries[i].value);
            }
            i = i + 1;
        }
        proof {
            assert(self@.entries.skip(i as int).len() == 0);
        }
        None
    }
}

impl RawMap {
    /// The section under a name in this image, if one is present.
    pub fn find_section(&self, name: &String) -> (r: Option<&RawSection>)
        ensures
            match section_lookup(self@, name@) {
                Some(m) => r matches Some(s) && s@ == m,
                None => r is None,
            },
    {
        proof {
            assert(self@.skip(0) =~= self@);
        }
        let mut i: usize = 0;
        while i < self.sections.len()
            invariant
                i <= self.sections.len(),
                section_lookup(self@, name@) == section_lookup(self@.skip(i as int), name@),
            decreases self.sections.len() - i,
        {
            proof {
                assert(self@.skip(i as int)[0] == self@[i as int]);
                assert(self@.skip(i as int).drop_first() =~= self@.skip(i as int + 1));
            }
            if self.sections[i].name.eq(name) {
                return Some(&self.sections[i]);
            }
            i = i + 1;
        }
        proof {
            assert(self@.skip(i as int).len() == 0);
        }
        None
    }
}

} // verus!
