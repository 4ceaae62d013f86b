//! An in-process traffic-redirection core: a function-interception engine
//! together with the connection-redirect policy built on top of it.
//!
//! The engine models a hook as the association between a target address, the
//! saved original entry bytes and the patch that transfers control to the
//! replacement; a registry holds at most one hook per target. The policy
//! inspects the destination endpoint a caller hands to the connect operation
//! and rewrites it to the fixed redirect target when its port is a trigger,
//! forwarding everything else untouched through the call-through capability.

pub mod endpoint;
pub mod hook;
pub mod lifecycle;
pub mod policy;
pub mod registry;
pub mod resolver;
