//! The two parts of a messaging client that have to get numbers right: the socket that seals and
//! counts its messages, and the upkeep of the one-time pre-keys on the server.
//!
//! Sealed messages: [`sealing`] and [`frames`] say what goes over the wire, [`sender`] and
//! [`socket`] send and read it, and [`delivery`] proves what holds of both ends together.
//!
//! Pre-keys: [`records`] makes and keeps them, [`upload`] uploads them, [`retry`] does so until it
//! succeeds, [`bundle`] checks that the server has them, and [`fetch`] asks for those of others.
//! [`pool`] and [`provision`] prove what holds of whole uploads, [`agreement`] what holds of whole
//! checks, and [`views`] that contracts speak of values as they are.
//!
//! Nothing here waits or talks to anyone: each part takes an event and answers with the action to
//! carry out next.

pub mod agreement;
pub mod bundle;
pub mod delivery;
pub mod device;
pub mod error;
pub mod fetch;
pub mod frames;
pub mod pool;
pub mod provision;
pub mod records;
pub mod retry;
pub mod sealing;
pub mod sender;
pub mod socket;
pub mod upload;
pub mod views;
