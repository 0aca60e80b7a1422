//! Update orchestration for A/B root-filesystem systems: a state machine that
//! discovers removable media, selects a signed update bundle and drives its
//! installation.

mod state;

pub use state::State;
mod error;

pub use error::Error;
mod machine;

pub use machine::{accept_install, accept_search, react, search_finished, Effect, Reaction, Request};
mod version;

pub use version::Version;
mod bundle;

pub use bundle::{install_error, InstallStep, UpdateBundle};
mod selector;

pub use selector::{get_update_bundle, Candidate};
mod device;

pub use device::{Device, DirEntry, Filesystem, MountAction, MountAnswer, UdisksInfo};
mod rauc;

pub use rauc::{get_slot_names, unwrap_slot_status, RaucInfo, Slot, SlotStatus};
mod orchestrator;

pub use orchestrator::{collect_bundle_paths, Caterpillar, Settings, Update, DEVICE_REGEX};
