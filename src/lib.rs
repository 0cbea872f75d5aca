//! Release automation: semantic version resolution and the release reconciliation flow.
pub mod error;
pub mod flow;
pub mod release;
pub mod resolve;
pub mod version;

pub use error::ReleaserError;
pub use flow::{Action, AssetFile, AssetUpload, Event, Gate, Phase, ReleaseFlow};
pub use release::{GitHub, Release};
pub use resolve::{
    create_first_time_version, create_next_version, next_version_after, resolve, version_parse,
    Commands, NextVersionOptions, Options, ReleaseIntent, ReleaseOptions,
};
pub use version::{Version, VersionBump};
