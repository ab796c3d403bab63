//! The attribute catalog: what an enumeration of the `attributes` directory
//! of a device yields.

use vstd::prelude::*;
use crate::attribute::{Attribute, AttributeEntry, AttributeEntryView, AttributeView};
use crate::device::{attributes_directory, Device};
use crate::entry::{
    reasons_view,
    EnumerationError,
    EnumerationErrorView,
    SkipReason,
    SkipReasonView,
};
use crate::text::same_bytes;
use crate::value::IoFailure;

verus! {

/// The attributes of a device, in the order of the directory listing, and
/// the reasons for which entries were left out, in the same order.
#[derive(Debug, PartialEq, Eq)]
pub struct AttributeCatalog {
    pub attributes: Vec<Attribute>,
    pub skipped: Vec<SkipReason>,
}

/// The attributes among `entries`, in order.
pub open spec fn found_attributes(entries: Seq<AttributeEntryView>) -> Seq<AttributeView>
    decreases entries.len(),
{
    if entries.len() == 0 {
        Seq::empty()
    } else {
        let before = found_attributes(entries.drop_last());
        match entries.last() {
            AttributeEntryView::Found(attribute) => before.push(attribute),
            _ => before,
        }
    }
}

/// The reasons for which entries among `entries` were skipped, in order.
/// Entries that are ignored give none.
pub open spec fn skip_reasons(entries: Seq<AttributeEntryView>) -> Seq<SkipReasonView>
    decreases entries.len(),
{
    if entries.len() == 0 {
        Seq::empty()
    } else {
        let before = skip_reasons(entries.drop_last());
        match entries.last() {
            AttributeEntryView::Skipped(reason) => before.push(reason),
            _ => before,
        }
    }
}

/// The contents of a list of entries.
pub open spec fn entries_view(entries: Seq<AttributeEntry>) -> Seq<AttributeEntryView> {
    entries.map_values(|entry: AttributeEntry| entry@)
}

/// The contents of a list of attributes.
pub open spec fn attributes_view(attributes: Seq<Attribute>) -> Seq<AttributeView> {
    attributes.map_values(|attribute: Attribute| attribute@)
}

/// Whether `index` is the place of the first of `attributes` called `name`.
pub open spec fn first_named(attributes: Seq<AttributeView>, name: Seq<u8>, index: int) -> bool {
    &&& 0 <= index < attributes.len()
    &&& attributes[index].name == name
    &&& forall|j: int| 0 <= j < index ==> (#[trigger] attributes[j]).name != name
}

impl AttributeCatalog {
    /// The catalog of an empty directory.
    pub fn new() -> (catalog: AttributeCatalog)
        ensures
            catalog.attributes@.len() == 0,
            catalog.skipped@.len() == 0,
    {
        AttributeCatalog { attributes: Vec::new(), skipped: Vec::new() }
    }

    /// Adds what became of the next entry of the directory.
    pub fn record(&mut self, entry: AttributeEntry)
        ensures
            attributes_view(final(self).attributes@) == match entry@ {
                AttributeEntryView::Found(attribute) => attributes_view(old(self).attributes@).push(
                    attribute,
                ),
                _ => attributes_view(old(self).attributes@),
            },
            reasons_view(final(self).skipped@) == match entry@ {
                AttributeEntryView::Skipped(reason) => reasons_view(old(self).skipped@).push(
                    reason,
                ),
                _ => reasons_view(old(self).skipped@),
            },
    {
        match entry {
            AttributeEntry::Found(attribute) => {
                self.attributes.push(attribute);
            },
            AttributeEntry::Skipped(reason) => {
                self.skipped.push(reason);
            },
            AttributeEntry::Ignored => {},
        }
    }

    /// Sorts the decided entries of a listing into attributes and skip
    /// reasons.
    pub fn collect(entries: Vec<AttributeEntry>) -> (catalog: AttributeCatalog)
        ensures
            attributes_view(catalog.attributes@) == found_attributes(entries_view(entries@)),
            reasons_view(catalog.skipped@) == skip_reasons(entries_view(entries@)),
    {
        let ghost all = entries_view(entries@);
        let mut catalog = AttributeCatalog::new();
        proof {
            assert(all.take(0) == Seq::<AttributeEntryView>::empty());
            assert(attributes_view(catalog.attributes@) == Seq::<AttributeView>::empty());
            assert(reasons_view(catalog.skipped@) == Seq::<SkipReasonView>::empty());
        }
        for entry in iter: entries
            invariant
                all == entries_view(iter.seq()),
                attributes_view(catalog.attributes@) == found_attributes(all.take(iter.index())),
                reasons_view(catalog.skipped@) == skip_reasons(all.take(iter.index())),
        {
            proof {
                let done = iter.index();
                assert(all.take(done + 1).drop_last() == all.take(done));
                assert(all.take(done + 1).last() == entry@);
            }
            catalog.record(entry);
        }
        proof {
            assert(all.take(all.len() as int) == all);
        }
        catalog
    }

    /// The first attribute called `name`, byte for byte, if there is one.
    pub fn find(self, name: &[u8]) -> (r: Option<Attribute>)
        ensures
            match r {
                Some(attribute) => exists|i: int|
                    #[trigger] first_named(attributes_view(self.attributes@), name@, i)
                        && attributes_view(self.attributes@)[i] == attribute@,
                None => forall|i: int|
                    0 <= i < self.attributes@.len() ==> (#[trigger] attributes_view(
                        self.attributes@,
                    )[i]).name != name@,
            },
    {
        let ghost all = attributes_view(self.attributes@);
        let mut attributes = self.attributes;
        let mut i: usize = 0;
        while i < attributes.len()
            invariant
                i <= attributes@.len(),
                all == attributes_view(attributes@),
                all == attributes_view(self.attributes@),
                forall|j: int| 0 <= j < i ==> (#[trigger] all[j]).name != name@,
            decreases attributes@.len() - i,
        {
            if same_bytes(attributes[i].name.as_slice(), name) {
                let attribute = attributes.swap_remove(i);
                proof {
                    assert(first_named(all, name@, i as int));
                    assert(all[i as int] == attribute@);
                }
                return Some(attribute);
            }
            i = i + 1;
        }
        None
    }
}

impl Device {
    /// The attributes of this device, given what the listing of its
    /// `attributes` directory gave: the failure to list it, or what became
    /// of each of its entries.
    ///
    /// Only a directory that cannot be listed fails the enumeration.  An
    /// entry that cannot be used is left out and its reason reported beside
    /// the attributes; an entry that is not a directory is left out without
    /// a reason.
    pub fn attributes(&self, listing: Result<Vec<AttributeEntry>, IoFailure>) -> (r: Result<
        AttributeCatalog,
        EnumerationError,
    >)
        ensures
            match listing {
                Ok(entries) => r is Ok && attributes_view(r->Ok_0.attributes@) == found_attributes(
                    entries_view(entries@),
                ) && reasons_view(r->Ok_0.skipped@) == skip_reasons(entries_view(entries@)),
                Err(failure) => r is Err && r->Err_0@ == (EnumerationErrorView {
                    path: attributes_directory(self.root()),
                    cause: failure,
                }),
            },
    {
        match listing {
            Ok(entries) => Ok(AttributeCatalog::collect(entries)),
            Err(failure) => Err(EnumerationError { path: self.attributes_path(), cause: failure }),
        }
    }

    /// The attribute of this device called `name`, if the enumeration finds
    /// one.  Names are compared byte for byte.
    pub fn attribute(&self, listing: Result<Vec<AttributeEntry>, IoFailure>, name: &[u8]) -> (r:
        Result<Option<Attribute>, EnumerationError>)
        ensures
            match listing {
                Ok(entries) => {
                    let found = found_attributes(entries_view(entries@));
                    match r {
                        Ok(Some(attribute)) => exists|i: int|
                            #[trigger] first_named(found, name@, i) && found[i] == attribute@,
                        Ok(None) => forall|i: int|
                            0 <= i < found.len() ==> (#[trigger] found[i]).name != name@,
                        Err(_) => false,
                    }
                },
                Err(failure) => r is Err && r->Err_0@ == (EnumerationErrorView {
                    path: attributes_directory(self.root()),
                    cause: failure,
                }),
            },
    {
        match self.attributes(listing) {
            Ok(catalog) => Ok(catalog.find(name)),
            Err(error) => Err(error),
        }
    }

}

} // verus!
