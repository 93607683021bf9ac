//! Broker-side cache of cluster metadata (users, sessions, cluster
//! settings), kept up to date by applying change records.
pub mod metadata;

pub use metadata::cache::{MetadataCache, MetadataCacheAction, MetadataCacheType, MetadataChangeData};
pub use metadata::cluster::Cluster;
pub use metadata::session::Session;
pub use metadata::user::User;
