//! Build-to-deploy orchestration: the resource model of a build request and
//! its status, the decisions of the reconciler, the status synchronizer and
//! the manifest applier, each stated as a contract and proved.

pub mod applier;
pub mod clock;
pub mod job;
pub mod manifest;
pub mod reconciler;
pub mod repo;
pub mod status;
pub mod sync;
pub mod text;
pub mod webhook;
