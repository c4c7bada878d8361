//! An interface-to-RPC-stub library built around a minimal, ordinal-based
//! binary calling convention.
//!
//! Given a declarative interface description (an ordered list of method
//! declarations), the validator checks every declaration against the calling
//! convention's constraints and assigns each valid method a stable ordinal:
//! its position among the valid methods in declaration order.  One canonical
//! [`schema::InterfaceSpecification`] then drives both halves of the
//! protocol — the client-side proxy operations that encode a call, and the
//! server-side dispatcher that routes an incoming ordinal to the bound
//! implementation — so the two selector tables can never drift apart.
//!
//! The wire convention is: a request is the ordinal's encoding followed by
//! each parameter's encoding in declaration order; a response is the single
//! return value's encoding, with no envelope.  The codec is self-delimiting,
//! so no length prefix is added by the convention itself.

pub mod codec;
pub mod dispatch;
pub mod errors;
pub mod proxy;
pub mod schema;
pub mod validate;
pub mod value;
pub mod wire;
pub mod world;
