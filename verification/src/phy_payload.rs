//! The PHY payload layer: data-frame framer and the join-procedure
//! frame views.

pub mod join_accept;
pub mod join_request;
pub mod mac_payload;
