//! Reconciles a local repository with one remote peer: repository status,
//! credential negotiation, and the pull and resolve protocols.

pub mod backend;
pub mod credentials_state;
pub mod error;
pub mod head_status;
pub mod merge_class;
pub mod origin;
pub mod progress;
pub mod record;
pub mod repository;
pub mod repository_status;
pub mod resolve;
pub mod settings;
pub mod sync;
pub mod text;
pub mod working_tree_status;

pub use error::RepoError;
pub use origin::Origin;
pub use repository::{PullOutcome, Repository};
pub use resolve::Resolve;
pub use settings::Settings;
pub use sync::Sync;
