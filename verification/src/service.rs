//! The service layer: message composition, identity resolution, and the
//! persisted per-user store.

mod documents;
mod notification_message_composer;
mod resolver_service;
mod sync_cache;
mod user_service;

pub use documents::{lemma_sync_record_round_trip, parse_settings, parse_sync_record,
    settings_text, spec_parse_settings, spec_parse_sync_record, spec_settings_text,
    spec_sync_record_text, sync_record_text};
pub use notification_message_composer::NotificationMessageComposer;
pub use resolver_service::{ProfileIdResolver, ResolveStep, SearchSession};
pub use sync_cache::{spec_lookup, SyncCache};
pub use user_service::{lemma_store_reads_back, spec_store_state, FileBackedUserService,
    SettingsDocument};
