//! Verified core of a game-mod manager: archive dispatch, path arithmetic,
//! the copy / backup / restore plans and the profile records.

pub mod archive;
pub mod cover;
pub mod environment;
pub mod ini_store;
pub mod paths;
pub mod profile;
pub mod restore;
pub mod session;
pub mod text;
pub mod transfer;
pub mod zip_store;

pub use archive::{
    extraction_target, extractor_for, is_supported_archive, plan_extraction, plan_extraction_at,
    plan_zip, rar_entry_action, zip_entry_action, ExtractionPlan, Extractor, RarEntryAction,
    ZipEntryAction, ZipPlan, ZipStep,
};
pub use paths::{extension, file_name, join};
pub use text::chars_of;
pub use transfer::{
    backup_path_at, copy_source_dir, copy_source_dir_at, plan_copy_entry, plan_copy_entry_at,
    split_path, sweep_action,
    CopyAction, EntryKind, SweepAction,
};
pub use restore::{log_header, plan_restore, Rename, RestorePlan};
pub use profile::{
    cover_png_path, cover_png_path_at, profile_file_in, profile_ini, profiles_dir, profiles_dir_at,
    read_profile, read_profile_text, restore_request_file, restore_target, restore_target_text,
    ProfileRecord,
};
pub use cover::{
    check_status, cover_after_download, cover_choice, cover_from_download, search_results, select_game, select_image,
    CoverChoice, DownloadError, GameHit,
};
pub use session::{
    extract_dir, extract_dir_at, log_file_in, stale_dir_probe, stale_dir_probe_at,
    stale_dir_to_remove, temp_dir_name,
};
