//! The settings snapshot: the one value that the reader produces and the
//! writer consumes.

use vstd::prelude::*;

verus! {

/// Everything the user can configure, at one point in time.
#[derive(Clone, PartialEq, Eq, Debug)]
pub struct SettingsSnapshot {
    /// Directories to scan, in display order.
    pub included_directories: Vec<String>,
    /// Directories left out of a scan.
    pub excluded_directories: Vec<String>,
    /// Glob patterns of items left out of a scan.
    pub excluded_items: Vec<String>,
    /// Extension patterns a scan is limited to; empty means no limit.
    pub allowed_extensions: Vec<String>,
    /// Whether the settings are written when the application closes.
    pub save_at_exit: bool,
    /// Whether the settings are read when the application starts.
    pub load_at_start: bool,
    /// Whether deleting asks for confirmation first.
    pub confirm_deletion: bool,
}

/// The mathematical content of a [`SettingsSnapshot`].
pub struct SettingsModel {
    pub included_directories: Seq<Seq<char>>,
    pub excluded_directories: Seq<Seq<char>>,
    pub excluded_items: Seq<Seq<char>>,
    pub allowed_extensions: Seq<Seq<char>>,
    pub save_at_exit: bool,
    pub load_at_start: bool,
    pub confirm_deletion: bool,
}

impl SettingsModel {
    /// No entries, every switch on.
    pub open spec fn initial() -> SettingsModel {
        SettingsModel {
            included_directories: Seq::empty(),
            excluded_directories: Seq::empty(),
            excluded_items: Seq::empty(),
            allowed_extensions: Seq::empty(),
            save_at_exit: true,
            load_at_start: true,
            confirm_deletion: true,
        }
    }
}

impl View for SettingsSnapshot {
    type V = SettingsModel;

    open spec fn view(&self) -> SettingsModel {
        SettingsModel {
            included_directories: self.included_directories.deep_view(),
            excluded_directories: self.excluded_directories.deep_view(),
            excluded_items: self.excluded_items.deep_view(),
            allowed_extensions: self.allowed_extensions.deep_view(),
            save_at_exit: self.save_at_exit,
            load_at_start: self.load_at_start,
            confirm_deletion: self.confirm_deletion,
        }
    }
}

impl SettingsSnapshot {
    /// A snapshot without entries and with every switch on.
    pub fn new() -> (r: SettingsSnapshot)
        ensures
            r@ == SettingsModel::initial(),
    {
        let r = SettingsSnapshot {
            included_directories: Vec::new(),
            excluded_directories: Vec::new(),
            excluded_items: Vec::new(),
            allowed_extensions: Vec::new(),
            save_at_exit: true,
            load_at_start: true,
            confirm_deletion: true,
        };
        proof {
            assert(r@.included_directories =~= Seq::empty());
            assert(r@.excluded_directories =~= Seq::empty());
            assert(r@.excluded_items =~= Seq::empty());
            assert(r@.allowed_extensions =~= Seq::empty());
        }
        r
    }
}

impl Default for SettingsSnapshot {
    fn default() -> (r: SettingsSnapshot)
        ensures
            r@ == SettingsModel::initial(),
    {
        SettingsSnapshot::new()
    }
}

} // verus!
