//! The authentication catalog: what an enumeration of the `authentication`
//! directory of a device yields.

use vstd::prelude::*;
use crate::authentication::{
    Authentication,
    AuthenticationEntry,
    AuthenticationEntryView,
    AuthenticationView,
};
use crate::device::{authentication_directory, Device};
use crate::entry::{
    reasons_view,
    EnumerationError,
    EnumerationErrorView,
    SkipReason,
    SkipReasonView,
};
use crate::value::IoFailure;

verus! {

/// The authentication methods of a device, in the order of the directory
/// listing, and the reasons for which entries were left out, in the same
/// order.
#[derive(Debug, PartialEq, Eq)]
pub struct AuthenticationCatalog {
    pub methods: Vec<Authentication>,
    pub skipped: Vec<SkipReason>,
}

/// The authentication methods among `entries`, in order.
pub open spec fn found_methods(entries: Seq<AuthenticationEntryView>) -> Seq<AuthenticationView>
    decreases entries.len(),
{
    if entries.len() == 0 {
        Seq::empty()
    } else {
        let before = found_methods(entries.drop_last());
        match entries.last() {
            AuthenticationEntryView::Found(method) => before.push(method),
            _ => before,
        }
    }
}

/// The reasons for which entries among `entries` were skipped, in order.
pub open spec fn method_skip_reasons(entries: Seq<AuthenticationEntryView>) -> Seq<SkipReasonView>
    decreases entries.len(),
{
    if entries.len() == 0 {
        Seq::empty()
    } else {
        let before = method_skip_reasons(entries.drop_last());
        match entries.last() {
            AuthenticationEntryView::Skipped(reason) => before.push(reason),
            _ => before,
        }
    }
}

/// The contents of a list of entries.
pub open spec fn method_entries_view(entries: Seq<AuthenticationEntry>) -> Seq<
    AuthenticationEntryView,
> {
    entries.map_values(|entry: AuthenticationEntry| entry@)
}

/// The contents of a list of authentication methods.
pub open spec fn methods_view(methods: Seq<Authentication>) -> Seq<AuthenticationView> {
    methods.map_values(|method: Authentication| method@)
}

impl AuthenticationCatalog {
    /// Sorts the decided entries of a listing into authentication methods
    /// and skip reasons.
    pub fn collect(entries: Vec<AuthenticationEntry>) -> (catalog: AuthenticationCatalog)
        ensures
            methods_view(catalog.methods@) == found_methods(method_entries_view(entries@)),
            reasons_view(catalog.skipped@) == method_skip_reasons(method_entries_view(entries@)),
    {
        let ghost all = method_entries_view(entries@);
        let mut methods: Vec<Authentication> = Vec::new();
        let mut skipped: Vec<SkipReason> = Vec::new();
        proof {
            assert(all.take(0) == Seq::<AuthenticationEntryView>::empty());
            assert(methods_view(methods@) == Seq::<AuthenticationView>::empty());
            assert(reasons_view(skipped@) == Seq::<SkipReasonView>::empty());
        }
        for entry in iter: entries
            invariant
                all == method_entries_view(iter.seq()),
                methods_view(methods@) == found_methods(all.take(iter.index())),
                reasons_view(skipped@) == method_skip_reasons(all.take(iter.index())),
        {
            let ghost found = methods_view(methods@);
            let ghost reasons = reasons_view(skipped@);
            proof {
                let done = iter.index();
                assert(all.take(done + 1).drop_last() == all.take(done));
                assert(all.take(done + 1).last() == entry@);
            }
            match entry {
                AuthenticationEntry::Found(method) => {
                    methods.push(method);
                    assert(methods_view(methods@) == found.push(method@));
                },
                AuthenticationEntry::Skipped(reason) => {
                    skipped.push(reason);
                    assert(reasons_view(skipped@) == reasons.push(reason@));
                },
                AuthenticationEntry::Ignored => {},
            }
        }
        proof {
            assert(all.take(all.len() as int) == all);
        }
        AuthenticationCatalog { methods, skipped }
    }
}

impl Device {
    /// The authentication methods of this device, given what the listing of
    /// its `authentication` directory gave: the failure to list it, or
    /// what became of each of its entries.  Only a directory that cannot be
    /// listed fails the enumeration.
    pub fn authentications(&self, listing: Result<Vec<AuthenticationEntry>, IoFailure>) -> (r:
        Result<AuthenticationCatalog, EnumerationError>)
        ensures
            match listing {
                Ok(entries) => r is Ok && methods_view(r->Ok_0.methods@) == found_methods(
                    method_entries_view(entries@),
                ) && reasons_view(r->Ok_0.skipped@) == method_skip_reasons(
                    method_entries_view(entries@),
                ),
                Err(failure) => r is Err && r->Err_0@ == (EnumerationErrorView {
                    path: authentication_directory(self.root()),
                    cause: failure,
                }),
            },
    {
        match listing {
            Ok(entries) => Ok(AuthenticationCatalog::collect(entries)),
            Err(failure) => Err(
                EnumerationError { path: self.authentication_path(), cause: failure },
            ),
        }
    }
}

} // verus!
