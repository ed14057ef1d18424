//! The APT repository model: packages, Packages indexes, and Release files.
pub mod package;
pub mod packages_index;
pub mod release;

pub use package::{Package, PackageByMeta, PublishedPackage, PublishedPackageByMeta};
pub use packages_index::{PackagesIndex, PackagesIndexMeta};
pub use release::{ReleaseFile, ReleaseMeta, ReleaseTimestamp};
