//! The rules of a service that stores short text clips.
//!
//! The heart of the crate is the bookkeeping that runs beside the request
//! handlers: hits on clips are summed per short code in memory
//! ([`pending`]), handed to storage in commit cycles ([`commit`]) by a worker
//! that decides what to do on each message of its queue ([`hitcounter`]),
//! while a sweeper removes expired clips on a timer ([`maintenance`]). What
//! the storage queries do is stated on rows held in memory ([`query`]).
//!
//! Around it stand the validated fields of a clip ([`field`], [`time`],
//! [`dbid`], [`shortcode`]), the rows and requests of storage ([`model`]),
//! API keys ([`api`]), and the small rules of the service, its pages and its
//! client ([`service`], [`ctx`], [`client`]).
//!
//! Nothing here waits, sleeps or talks to a database: the caller performs
//! what these functions decide.

pub mod api;
pub mod client;
pub mod commit;
pub mod ctx;
pub mod dbid;
pub mod field;
pub mod hitcounter;
pub mod maintenance;
pub mod model;
pub mod pending;
pub mod query;
pub mod service;
pub mod shortcode;
pub mod time;
