//! Ethernet driver core for a bare-metal network node: the two-slot DMA
//! descriptor rings, the buffer ownership handshake, the PHY link decode, and
//! the small computations of the bring-up and diagnostic helpers.
pub mod phy;
pub mod ring;
pub mod serial;
pub mod wait;
