//! Self-update orchestration for applications installed with an install receipt:
//! release resolution, the update decision, installer staging and the
//! relocate/restore protocol around the installer run.

pub mod errors;
pub mod version;
pub mod text;
pub mod link;
pub mod staging_dir;
pub mod release;
pub mod decision;
pub mod resolve;
pub mod paths;
pub mod updater;
