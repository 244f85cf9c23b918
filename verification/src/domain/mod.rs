//! View models: NetBox objects flattened to what is shown.
//!
//! The wire models are nested and full of absent values. A view flattens one into
//! the fields that are rendered, as `key: value` lines or as sections of text.

use vstd::prelude::*;

pub mod aggregate_view;
pub mod asn_view;
pub mod circuit_view;
pub mod cluster_view;
pub mod contact_view;
pub mod custom;
pub mod detail;
pub mod device_detail;
pub mod device_view;
pub mod history_view;
pub mod interface_view;
pub mod ip_range_view;
pub mod ip_view;
pub mod journal_view;
pub mod mac_view;
pub mod prefix_view;
pub mod provider_view;
pub mod rack_group_view;
pub mod rack_view;
pub mod route_target_view;
pub mod site_view;
pub mod tag_view;
pub mod tagged_view;
pub mod tenant_view;
pub mod util;
pub mod virtual_circuit_view;
pub mod vlan_view;
pub mod vm_type_view;
pub mod vm_view;
pub mod vrf_view;

use self::journal_view::JournalEntryRow;

verus! {

/// A view with the recent journal entries of its object.
#[derive(Debug)]
pub struct WithJournal<T> {
    pub inner: T,
    pub journal: Vec<JournalEntryRow>,
}

impl<T> WithJournal<T> {
    /// Joins a view and journal entries.
    pub fn new(inner: T, journal: Vec<JournalEntryRow>) -> (r: Self)
        ensures
            r.inner == inner,
            r.journal == journal,
    {
        WithJournal { inner, journal }
    }
}

} // verus!
