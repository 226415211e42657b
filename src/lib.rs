//! A front-desk registration library: operators log in as an admin, look up or
//! create participants, attach them to a college, verify their registration
//! and assign hospitality.
//!
//! - [`model`]: the value types and their mathematical views.
//! - [`desk`]: the desk session contract and the login gate.
//! - [`in_mem`]: a desk kept in memory.
//! - [`dispatch`]: parking the session and running one operation at a time on it.
//! - [`laws`]: what holds across several operations.
//! - [`codec`]: how a persistent store writes values and how its rows read back.
//! - [`college_list`], [`form`], [`ids`], [`text`]: what the registration screens compute.
pub mod model;
pub mod desk;
pub mod text;
pub mod in_mem;
pub mod dispatch;
pub mod laws;
pub mod codec;
pub mod college_list;
pub mod ids;
pub mod form;
