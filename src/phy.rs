//! PHY management: the register writes that reset the PHY and start
//! autonegotiation, and the decode of its registers into link state.
use vstd::prelude::*;

verus! {

/// Basic control register.
pub const BCR: u8 = 0x00;

/// Basic status register.
pub const BSR: u8 = 0x01;

/// Autonegotiation link partner ability register.
pub const ANLPAR: u8 = 0x05;

/// Control: software reset, cleared by the PHY when the reset is over.
pub const BCR_RESET: u16 = 0x8000;

/// Control: autonegotiation enable.
pub const BCR_AUTONEG: u16 = 0x1000;

/// Status: link up.
pub const BSR_LINK_UP: u16 = 0x0004;

/// Status: remote fault.
pub const BSR_REMOTE_FAULT: u16 = 0x0010;

/// Status: autonegotiation complete.
pub const BSR_AUTONEG_COMPLETE: u16 = 0x0020;

/// Partner ability: 100 Mbit/s full duplex.
pub const ANLPAR_100_FULL: u16 = 0x0100;

/// A write of `value` to PHY register `reg` over the management interface.
#[derive(Clone, Copy, Debug, PartialEq, Eq, Structural)]
pub struct SmiWrite {
    pub reg: u8,
    pub value: u16,
}

/// The management address register word that starts a transaction on PHY
/// register `reg` of PHY address 0: busy flag, write flag when writing, clock
/// range HCLK/102, register number in bits 6 to 10.
pub open spec fn smi_command_word(reg: u8, write: bool) -> u32 {
    (1 + (if write {
        2int
    } else {
        0int
    }) + 16 + (reg % 32) as int * 64) as u32
}

/// The management address register word that starts a read or a write of
/// PHY register `reg`.
pub fn smi_command(reg: u8, write: bool) -> (r: u32)
    ensures
        r == smi_command_word(reg, write),
{
    let w: u32 = if write {
        2
    } else {
        0
    };
    let m: u32 = (reg as u32) & 0x1F;
    assert(((reg as u32) & 0x1Fu32) == (reg as u32) % 32) by (bit_vector);
    1 + w + 16 + m * 64
}

/// The link is up at 100 Mbit/s full duplex: autonegotiation is enabled, the
/// link is up, no remote fault, autonegotiation is complete, and the partner
/// can do 100 Mbit/s full duplex.
pub open spec fn link_up(bsr: u16, bcr: u16, lpa: u16) -> bool {
    &&& bcr & BCR_AUTONEG != 0
    &&& bsr & BSR_LINK_UP != 0
    &&& bsr & BSR_REMOTE_FAULT == 0
    &&& bsr & BSR_AUTONEG_COMPLETE != 0
    &&& lpa & ANLPAR_100_FULL != 0
}

/// The write that starts a PHY reset.
pub fn phy_reset() -> (r: SmiWrite)
    ensures
        r == (SmiWrite { reg: BCR, value: BCR_RESET }),
{
    SmiWrite { reg: BCR, value: BCR_RESET }
}

/// Whether the reset is still running, given the control register read back.
pub fn phy_reset_pending(bcr: u16) -> (r: bool)
    ensures
        r == (bcr & BCR_RESET == BCR_RESET),
{
    bcr & BCR_RESET == BCR_RESET
}

/// The write that enables autonegotiation.
pub fn phy_init() -> (r: SmiWrite)
    ensures
        r == (SmiWrite { reg: BCR, value: BCR_AUTONEG }),
{
    SmiWrite { reg: BCR, value: BCR_AUTONEG }
}

/// Decodes the status, control and partner ability registers: true exactly
/// when the link is up at 100 Mbit/s full duplex, after which the MAC is to
/// be forced to that mode.
pub fn phy_poll_link(bsr: u16, bcr: u16, lpa: u16) -> (r: bool)
    ensures
        r == link_up(bsr, bcr, lpa),
{
    if bcr & BCR_AUTONEG == 0 {
        return false;
    }
    if bsr & BSR_LINK_UP == 0 {
        return false;
    }
    if bsr & BSR_REMOTE_FAULT != 0 {
        return false;
    }
    if bsr & BSR_AUTONEG_COMPLETE == 0 {
        return false;
    }
    if lpa & ANLPAR_100_FULL == 0 {
        return false;
    }
    true
}

/// The link is up exactly when all five conditions hold, and each one that
/// fails makes it down, whatever the other four.
pub proof fn lemma_link_truth_table(bsr: u16, bcr: u16, lpa: u16)
    ensures
        link_up(bsr, bcr, lpa) <==> (bcr & BCR_AUTONEG != 0 && bsr & BSR_LINK_UP != 0 && bsr
            & BSR_REMOTE_FAULT == 0 && bsr & BSR_AUTONEG_COMPLETE != 0 && lpa & ANLPAR_100_FULL
            != 0),
        bcr & BCR_AUTONEG == 0 ==> !link_up(bsr, bcr, lpa),
        bsr & BSR_LINK_UP == 0 ==> !link_up(bsr, bcr, lpa),
        bsr & BSR_REMOTE_FAULT != 0 ==> !link_up(bsr, bcr, lpa),
        bsr & BSR_AUTONEG_COMPLETE == 0 ==> !link_up(bsr, bcr, lpa),
        lpa & ANLPAR_100_FULL == 0 ==> !link_up(bsr, bcr, lpa),
{
}

/// From registers that show the link up, flipping the bit of any one
/// condition shows it down.
pub proof fn lemma_link_single_flip(bsr: u16, bcr: u16, lpa: u16)
    requires
        link_up(bsr, bcr, lpa),
    ensures
        !link_up(bsr, bcr ^ BCR_AUTONEG, lpa),
        !link_up(bsr ^ BSR_LINK_UP, bcr, lpa),
        !link_up(bsr ^ BSR_REMOTE_FAULT, bcr, lpa),
        !link_up(bsr ^ BSR_AUTONEG_COMPLETE, bcr, lpa),
        !link_up(bsr, bcr, lpa ^ ANLPAR_100_FULL),
{
    assert(bcr & 0x1000u16 != 0 ==> (bcr ^ 0x1000u16) & 0x1000u16 == 0) by (bit_vector);
    assert(bsr & 0x0004u16 != 0 ==> (bsr ^ 0x0004u16) & 0x0004u16 == 0) by (bit_vector);
    assert(bsr & 0x0010u16 == 0 ==> (bsr ^ 0x0010u16) & 0x0010u16 != 0) by (bit_vector);
    assert(bsr & 0x0020u16 != 0 ==> (bsr ^ 0x0020u16) & 0x0020u16 == 0) by (bit_vector);
    assert(lpa & 0x0100u16 != 0 ==> (lpa ^ 0x0100u16) & 0x0100u16 == 0) by (bit_vector);
}

} // verus!
