use vstd::prelude::*;

verus! {

/// The number of bands of the graphic equalizer.
pub const EQ_BANDS: usize = 10;

/// The TCP port of the WebSocket control server.
pub const WS_PORT: u16 = 9000;

/// The Unix socket of the local control server.
pub const SOCKET_PATH: &'static str = "/run/carplay-audio.sock";

} // verus!
