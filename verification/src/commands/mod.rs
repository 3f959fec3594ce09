//! The operations on a repository, as decisions over what was observed.

pub mod add;
pub mod commit;
pub mod diff;
pub mod init;
pub mod link;
pub mod list;
pub mod model;
pub mod plan;
pub mod remove;
pub mod stage;
pub mod status;
pub mod unlink;
pub mod unstage;

pub use add::add_dotfile;
pub use commit::{commit_dotfiles, commit_entry};
pub use diff::show_diff;
pub use init::init_repo;
pub use link::{link_dotfiles, link_entry};
pub use list::list_dotfiles;
pub use remove::remove_dotfile;
pub use stage::stage_dotfile;
pub use status::show_status;
pub use unlink::{unlink_dotfiles, unlink_entry};
pub use unstage::unstage_dotfile;
