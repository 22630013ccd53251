//! The checks, one for each rule.
mod content;
mod links;
mod releases;
mod structure;
mod unreleased;

pub use content::{
    duplicate_change_types, empty_section_at, invalid_section_heading_at, invalid_title_at,
    is_change_type, is_known_change_type, kinds_in_scope, kinds_of, repeated_kinds,
    unknown_change_type_at,
    DuplicateChangeType, EmptySection, InvalidSectionHeading, InvalidTitle, UnknownChangeType,
};
pub use links::{link_reference_does_not_exist_at, LinkReferenceDoesNotExist};
pub use releases::{
    bytes_order, date_order, info_of, info_views, invalid_date_at, invalid_yanked_at,
    lemma_repeated_versions_of_prefix, misplaced_releases, missing_date_at, order_violations,
    out_of_order, release_infos, release_order_findings, repeated_versions, versions_of,
    DateOrder, DuplicateVersion, InvalidDate, InvalidReleaseOrder, InvalidYanked, MissingDate,
    ReleaseInfo, ReleaseInfoView,
};
pub use structure::{
    duplicate_title_at, shows_title, unreleased_out_of_order_at, DuplicateTitle, MissingTitle,
    UnreleasedOutOfOrder,
};
pub use unreleased::{
    duplicate_unreleased_at, shows_unreleased, DuplicateUnreleased, MissingUnreleased,
};
