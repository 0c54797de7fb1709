//! A message-dispatch bridge: tagged action envelopes are routed by domain to
//! a registered handler, decoded into a typed action, handled, and re-encoded
//! with a domain-qualified tag. Failures (malformed tag, unknown domain,
//! undecodable payload) degrade to a fixed no-operation envelope, never to a
//! panic.

pub mod codec;
pub mod dispatch;
pub mod envelope;
pub mod handler;
pub mod rename;
