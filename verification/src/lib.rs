//! Catalog synchronization and local search for a Flatpak software center.
//!
//! The crate models packages drawn from remote and installed refs, resolves
//! their icons against an ordered candidate list, matches per-remote metadata
//! components, persists catalog rows through a relational store, and serves
//! fuzzy-ranked search queries over the cached names.

use vstd::prelude::*;

pub mod icon;
pub mod metadata;
pub mod package;
pub mod search;
pub mod store;
pub mod sync;
pub mod ui_state;

pub use icon::get_icon_path;
pub use icon::icon_candidate_paths;
pub use metadata::Bundle;
pub use metadata::Component;
pub use metadata::find_component;
pub use metadata::get_ref_name;
pub use package::InstalledRef;
pub use package::Package;
pub use package::PackageKind;
pub use package::RefKind;
pub use package::RemoteRef;
pub use package::find_ref_by_name;
pub use package::find_uninstall_target;
pub use package::get_updatable_apps;
pub use package::installed_apps;
pub use search::get_staff_picks;
pub use search::lookup_all;
pub use search::search;
pub use store::CatalogRow;
pub use store::Person;
pub use store::Storage;
pub use store::StoreError;
pub use sync::build_remote_packages;
pub use sync::sync_remote;
pub use ui_state::ButtonStyle;
pub use ui_state::Config;
pub use ui_state::ContainerStyle;
pub use ui_state::DEFAULT_TIMEOUT;
pub use ui_state::Page;
pub use ui_state::Status;
pub use ui_state::Theme;
pub use ui_state::Toast;

verus! {

/// The views of a sequence of strings.
pub open spec fn string_views(v: Seq<String>) -> Seq<Seq<char>> {
    v.map_values(|s: String| s@)
}

} // verus!
