//! Constants of the tunnel protocol. Processes that are already deployed
//! hold the same numbers.

use vstd::prelude::*;

verus! {

/// The port of the tunnel's control channel.
pub const CONTROL_PORT: u16 = 31545;

/// Protocol version sent to clients, who may use it to find out which
/// capabilities are there. It only ever grows.
///  1 - Initial protocol version
///  2 - Messages of the server may be compressed in both directions.
pub const PROTOCOL_VERSION: u32 = 2;

} // verus!
