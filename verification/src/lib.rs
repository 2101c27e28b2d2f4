//! A uniform front end for operating-system package managers: a catalog of
//! known vendors, resolution of the vendor present on the host, template-based
//! formatting of the vendor's shell commands, and the dispatch decision for
//! running them.

pub mod catalog;
pub mod params;
pub mod text;
pub mod vendors;

pub use catalog::PlsCommand;
pub use catalog::Vendor;
pub use catalog::VendorData;
pub use params::Cmd;
pub use params::Params;
pub use params::Settings;
pub use text::replace_all;
pub use vendors::ExecPlan;
pub use vendors::PlsError;
