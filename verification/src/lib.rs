//! NAT behaviour classification over a fixed UDP probe protocol.
//!
//! The library holds the verified core: the 16-byte wire codec, the
//! probe-round state machine that multiplexes inbound datagrams by source
//! address, and the two-round classifier that maps observed external ports
//! to one of five NAT classes. Sockets, SOCKS5 proxying and DNS resolution
//! live outside the library and hand it plain values.

pub mod addr;
pub mod classify;
pub mod codec;
pub mod probe;
