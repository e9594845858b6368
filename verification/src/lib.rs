//! Breach scanning for e-mail aliases.
//!
//! One scan lists the aliases of an alias service, looks up the address of
//! every active alias at a breach provider, and asks the service to
//! deactivate each alias that is found in a breach. This library holds the
//! decisions of a scan and nothing that talks to a network: it lays out the
//! requests, judges the answers, and says which call is due next. Sending,
//! waiting and decoding are left to the program around it.
//!
//! - [`scan`]: the orchestrator of one scan, and [`calls`]: what holds of the
//!   calls that it asks for;
//! - [`hibp`]: the lookup of one address, and [`retries`]: what holds of its
//!   waiting and asking again;
//! - [`email_alias`] and [`anonaddy`]: aliases, alias services, and the one
//!   that is built in;
//! - [`http`], [`retry_after`] and [`text`]: requests, answers and their parts.

pub mod anonaddy;
pub mod calls;
pub mod email_alias;
pub mod hibp;
pub mod http;
pub mod retries;
pub mod retry_after;
pub mod scan;
pub mod text;
