//! A verified session-management core.
//!
//! A session is a mapping from string field names to string values that is
//! read from a pluggable store before a request is handled, mutated through a
//! session handle while the request is handled, and written back exactly once
//! afterwards.  Three stores are provided: a cookie store that keeps the whole
//! record in a (plain, signed, or encrypted) cookie, an in-memory store that
//! keeps records in a shared map behind a reader-writer lock, and a
//! Redis-backed store whose network steps are driven by the caller while every
//! decision is made here.

pub mod codec;
pub mod cookie_store;
pub mod error;
pub mod http;
pub mod in_memory;
pub mod redis_store;
pub mod seal;
pub mod session;
pub mod session_id;
pub mod session_map;

pub use error::{ErrorClass, ReadError, WriteError};
pub use http::{CookieDirective, RequestCookies, SameSitePolicy, SetCookie};
pub use in_memory::{in_memory, InMemoryBackend, InMemorySession};
pub use redis_store::{
    redis_backend, ReadSessionFuture, RedisSession, RedisSessionBackend, WriteSessionFuture,
};
pub use session::{RawSession, Session, WriteIntent};
pub use session_id::SessionId;
pub use session_map::SessionMap;
