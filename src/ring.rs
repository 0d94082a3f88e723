//! The two DMA descriptor rings, the packet buffers they reference, and the
//! ownership handshake that lends a buffer to the network stack and hands it
//! back to the DMA engine.
//!
//! Each ring holds two descriptors whose `next` fields form a closed two-cycle,
//! and each descriptor references the buffer slot of its own index.
use vstd::prelude::*;
use vstd::slice::slice_subrange;

verus! {

/// Ownership bit of a descriptor's first word: set while the DMA engine owns it.
pub const OWN: u32 = 0x8000_0000;

/// First word of a transmit descriptor that is ready to send: owned by the DMA
/// engine, interrupt on completion, last and first segment, full checksum
/// insertion, chained second address.
pub const TX_READY: u32 = 0xF0D0_0000;

/// First word of an idle transmit descriptor: chained second address only.
pub const TX_CHAINED: u32 = 0x0010_0000;

/// Second word of a receive descriptor: chained second address, buffer size.
pub const RX_CONTROL: u32 = 0x4800;

/// Size in bytes of one packet buffer slot.
pub const BUFFER_SIZE: usize = 2048;

/// Largest frame handed to the network stack.
pub const MTU: usize = 1536;

/// Encoding of the DMA process state in which the engine has parked itself
/// for want of an armed descriptor.
pub const DMA_SUSPENDED: u8 = 6;

/// Whether a descriptor whose first word is `status` belongs to software.
pub open spec fn software_owned(status: u32) -> bool {
    status & OWN == 0
}

/// The received frame length held in bits 16 to 29 of a receive descriptor's
/// first word.
pub open spec fn frame_length(status: u32) -> u32 {
    (status >> 16u32) & 0x3FFF
}

/// The words that hand a descriptor to the DMA engine do not leave it with
/// software.
pub proof fn lemma_hardware_words()
    ensures
        !software_owned(OWN),
        !software_owned(TX_READY),
{
    assert(0x8000_0000u32 & 0x8000_0000u32 != 0) by (bit_vector);
    assert(0xF0D0_0000u32 & 0x8000_0000u32 != 0) by (bit_vector);
}

/// One hardware-visible record of a ring.
#[derive(Clone, Copy, Debug, PartialEq, Eq, Structural)]
pub struct Descriptor {
    /// Ownership, control and status word.
    pub status: u32,
    /// Length and control word.
    pub control: u32,
    /// Index of the buffer slot this descriptor references.
    pub buffer: usize,
    /// Index of the next descriptor of the ring.
    pub next: usize,
}

/// A ring of two descriptors, its two buffer slots, and the cursor that
/// names the descriptor software inspected last.
pub struct Ring {
    pub descriptors: Vec<Descriptor>,
    pub cursor: usize,
    /// Both slots, slot `i` at bytes `i * BUFFER_SIZE .. (i + 1) * BUFFER_SIZE`.
    pub buffers: Vec<u8>,
}

/// No descriptor of the ring is available to software.
#[derive(Clone, Copy, Debug, PartialEq, Eq, Structural)]
pub struct Exhausted;

impl Ring {
    /// Two descriptors chained into a two-cycle, each over its own slot.
    pub open spec fn wf(&self) -> bool {
        &&& self.descriptors@.len() == 2
        &&& self.cursor < 2
        &&& self.buffers@.len() == 2 * BUFFER_SIZE
        &&& forall|i: int|
            #![trigger self.descriptors@[i]]
            0 <= i < 2 ==> self.descriptors@[i].buffer == i && self.descriptors@[i].next == 1 - i
    }

    /// The descriptor that `next` of descriptor `i` names.
    pub open spec fn next_of(&self, i: int) -> int {
        self.descriptors@[i].next as int
    }

    /// The descriptor the cursor names.
    pub open spec fn current(&self) -> Descriptor {
        self.descriptors@[self.cursor as int]
    }

    /// The first `len` bytes of buffer slot `slot`.
    pub open spec fn slot_bytes(&self, slot: int, len: int) -> Seq<u8> {
        self.buffers@.subrange(slot * BUFFER_SIZE, slot * BUFFER_SIZE + len)
    }

    /// Same descriptors and buffers, cursor aside.
    pub open spec fn same_contents(&self, other: &Ring) -> bool {
        self.descriptors@ == other.descriptors@ && self.buffers@ == other.buffers@
    }

    /// Both descriptors with the given words, the cursor on descriptor 0,
    /// zeroed buffers.
    fn new(status: u32, control: u32) -> (r: Ring)
        ensures
            r.wf(),
            r.cursor == 0,
            forall|i: int|
                0 <= i < 2 ==> #[trigger] r.descriptors@[i].status == status
                    && r.descriptors@[i].control == control,
    {
        let mut descriptors: Vec<Descriptor> = Vec::new();
        descriptors.push(Descriptor { status, control, buffer: 0, next: 1 });
        descriptors.push(Descriptor { status, control, buffer: 1, next: 0 });
        let buffers: Vec<u8> = vec![0u8; 2 * BUFFER_SIZE];
        Ring { descriptors, cursor: 0, buffers }
    }

    /// Moves the cursor along the current descriptor's `next`, then reports
    /// whether the descriptor it lands on belongs to software.
    pub fn advance(&mut self) -> (r: bool)
        requires
            old(self).wf(),
        ensures
            final(self).wf(),
            final(self).same_contents(old(self)),
            final(self).cursor == old(self).next_of(old(self).cursor as int),
            r == software_owned(final(self).current().status),
    {
        self.cursor = self.descriptors[self.cursor].next;
        memory_barrier();
        self.descriptors[self.cursor].status & OWN == 0
    }

    /// Replaces the first word of descriptor `index`.
    fn store_status(&mut self, index: usize, status: u32)
        requires
            old(self).wf(),
            index < 2,
        ensures
            final(self).wf(),
            final(self).cursor == old(self).cursor,
            final(self).buffers@ == old(self).buffers@,
            final(self).descriptors@ == old(self).descriptors@.update(
                index as int,
                Descriptor { status, ..old(self).descriptors@[index as int] },
            ),
    {
        let d = self.descriptors[index];
        self.descriptors[index] = Descriptor { status, ..d };
    }
}

/// A sequentially consistent fence: the descriptor and buffer accesses of
/// this thread before it are ordered before those after it. Code that copies
/// descriptors to where the DMA engine reads them adds its own barriers.
///
/// Relies on core::sync::atomic::fence, which has no result to state.
#[verifier::external_body]
fn memory_barrier() {
    core::sync::atomic::fence(core::sync::atomic::Ordering::SeqCst)
}

/// A received frame lent to the caller: the first `len` bytes of receive slot
/// `slot`.
pub struct EthernetRxBuffer {
    pub slot: usize,
    pub len: usize,
}

/// A transmit slot lent to the caller, reserved for a frame of `len` bytes.
pub struct EthernetTxBuffer {
    pub slot: usize,
    pub len: usize,
}

impl EthernetRxBuffer {
    /// Names a slot of the ring and a length that fits in it.
    pub open spec fn wf(&self) -> bool {
        self.slot < 2 && self.len <= BUFFER_SIZE
    }
}

impl EthernetTxBuffer {
    /// Names a slot of the ring and a length that fits in it.
    pub open spec fn wf(&self) -> bool {
        self.slot < 2 && self.len <= BUFFER_SIZE
    }
}

/// The network device: one receive ring and one transmit ring.
pub struct EthernetDevice {
    pub rx: Ring,
    pub tx: Ring,
    /// `rx_lent[i]` holds while a frame of receive slot `i` is lent out and
    /// not yet released.
    pub rx_lent: Vec<bool>,
}

/// What `receive` does: the receive cursor moves on, and a frame is lent
/// exactly when the descriptor reached belongs to software and its slot is
/// not lent already; the slot is then marked lent. Nothing else changes.
pub open spec fn received(
    pre: EthernetDevice,
    post: EthernetDevice,
    r: Result<EthernetRxBuffer, Exhausted>,
) -> bool {
    let d = post.rx.current();
    &&& post.rx.same_contents(&pre.rx)
    &&& post.tx.same_contents(&pre.tx)
    &&& post.tx.cursor == pre.tx.cursor
    &&& post.rx.cursor == pre.rx.next_of(pre.rx.cursor as int)
    &&& r.is_ok() == (software_owned(d.status) && !pre.rx_lent@[d.buffer as int])
    &&& r matches Ok(b) ==> b.slot == d.buffer && b.len == frame_length(d.status)
    &&& post.rx_lent@ == if r.is_ok() {
        pre.rx_lent@.update(d.buffer as int, true)
    } else {
        pre.rx_lent@
    }
}

/// What `transmit(length)` does: the transmit cursor moves on, nothing else
/// changes, and a slot is lent for `length` bytes exactly when the descriptor
/// reached belongs to software.
pub open spec fn reserved(
    pre: EthernetDevice,
    post: EthernetDevice,
    length: usize,
    r: Result<EthernetTxBuffer, Exhausted>,
) -> bool {
    let d = post.tx.current();
    &&& post.rx.same_contents(&pre.rx)
    &&& post.tx.same_contents(&pre.tx)
    &&& post.rx.cursor == pre.rx.cursor
    &&& post.tx.cursor == pre.tx.next_of(pre.tx.cursor as int)
    &&& post.rx_lent@ == pre.rx_lent@
    &&& r.is_ok() == software_owned(d.status)
    &&& r matches Ok(b) ==> b.slot == d.buffer && b.len == length
}

/// What `release_packet(buf)` does: the descriptor of the slot goes back to
/// the DMA engine and the slot is no longer lent, all else stays.
pub open spec fn released(pre: EthernetDevice, post: EthernetDevice, slot: int) -> bool {
    &&& post.rx.descriptors@ == pre.rx.descriptors@.update(
        slot,
        Descriptor { status: OWN, ..pre.rx.descriptors@[slot] },
    )
    &&& post.rx.buffers@ == pre.rx.buffers@
    &&& post.rx.cursor == pre.rx.cursor
    &&& post.rx_lent@ == pre.rx_lent@.update(slot, false)
    &&& post.tx == pre.tx
}

/// What `transmit_packet(buf)` does: the descriptor of the slot is armed for
/// a frame of the reserved length, all else stays.
pub open spec fn committed(pre: EthernetDevice, post: EthernetDevice, slot: int, len: int) -> bool {
    &&& post.tx.descriptors@ == pre.tx.descriptors@.update(
        slot,
        Descriptor { status: TX_READY, control: len as u32, ..pre.tx.descriptors@[slot] },
    )
    &&& post.tx.buffers@ == pre.tx.buffers@
    &&& post.tx.cursor == pre.tx.cursor
    &&& post.rx == pre.rx
    &&& post.rx_lent@ == pre.rx_lent@
}

/// What `write_tx(buf, offset, data)` does: `data` lands in the slot at
/// `offset`, descriptors and cursors stay.
pub open spec fn written(
    pre: EthernetDevice,
    post: EthernetDevice,
    slot: int,
    offset: int,
    data: Seq<u8>,
) -> bool {
    let start = slot * BUFFER_SIZE + offset;
    &&& post.tx.buffers@.len() == pre.tx.buffers@.len()
    &&& forall|k: int|
        0 <= k < post.tx.buffers@.len() ==> #[trigger] post.tx.buffers@[k] == if start <= k
            < start + data.len() {
            data[k - start]
        } else {
            pre.tx.buffers@[k]
        }
    &&& post.tx.descriptors@ == pre.tx.descriptors@
    &&& post.tx.cursor == pre.tx.cursor
    &&& post.rx == pre.rx
    &&& post.rx_lent@ == pre.rx_lent@
}

impl EthernetDevice {
    /// Both rings well formed, and every frame that the DMA engine handed
    /// back fits its slot.
    pub open spec fn wf(&self) -> bool {
        &&& self.rx.wf()
        &&& self.tx.wf()
        &&& self.rx_lent@.len() == 2
        &&& forall|i: int|
            #![trigger self.rx.descriptors@[i]]
            0 <= i < 2 && software_owned(self.rx.descriptors@[i].status) ==> frame_length(
                self.rx.descriptors@[i].status,
            ) <= BUFFER_SIZE
    }

    /// The rings as the DMA engine first sees them: receive descriptors owned
    /// by hardware with room for a full slot, transmit descriptors idle with
    /// software, both cursors on descriptor 0, no frame lent.
    pub fn new() -> (r: EthernetDevice)
        ensures
            r.wf(),
            r.rx.cursor == 0,
            r.tx.cursor == 0,
            r.rx_lent@ == seq![false, false],
            forall|i: int|
                0 <= i < 2 ==> #[trigger] r.rx.descriptors@[i].status == OWN
                    && r.rx.descriptors@[i].control == RX_CONTROL,
            forall|i: int|
                0 <= i < 2 ==> #[trigger] r.tx.descriptors@[i].status == TX_CHAINED
                    && r.tx.descriptors@[i].control == BUFFER_SIZE,
    {
        proof {
            lemma_hardware_words();
        }
        let rx = Ring::new(OWN, RX_CONTROL);
        let tx = Ring::new(TX_CHAINED, BUFFER_SIZE as u32);
        let mut rx_lent: Vec<bool> = Vec::new();
        rx_lent.push(false);
        rx_lent.push(false);
        proof {
            assert(rx_lent@ =~= seq![false, false]);
        }
        EthernetDevice { rx, tx, rx_lent }
    }

    /// Largest frame handed to the network stack.
    pub fn mtu(&self) -> (r: usize)
        ensures
            r == MTU,
    {
        MTU
    }

    /// Lends the next received frame, or `Exhausted` when the descriptor the
    /// cursor moves to still belongs to the DMA engine or its frame is lent
    /// already.
    pub fn receive(&mut self) -> (r: Result<EthernetRxBuffer, Exhausted>)
        requires
            old(self).wf(),
        ensures
            final(self).wf(),
            received(*old(self), *final(self), r),
            r matches Ok(b) ==> b.wf(),
    {
        let owned = self.rx.advance();
        let d = self.rx.descriptors[self.rx.cursor];
        if owned && !self.rx_lent[d.buffer] {
            self.rx_lent[d.buffer] = true;
            let len = (d.status >> 16u32) & 0x3FFF;
            Ok(EthernetRxBuffer { slot: d.buffer, len: len as usize })
        } else {
            Err(Exhausted)
        }
    }

    /// Lends the next transmit slot for a frame of `length` bytes, or
    /// `Exhausted` when the descriptor the cursor moves to still belongs to
    /// the DMA engine.
    pub fn transmit(&mut self, length: usize) -> (r: Result<EthernetTxBuffer, Exhausted>)
        requires
            old(self).wf(),
            length <= BUFFER_SIZE,
        ensures
            final(self).wf(),
            reserved(*old(self), *final(self), length, r),
            r matches Ok(b) ==> b.wf(),
    {
        if self.tx.advance() {
            let d = self.tx.descriptors[self.tx.cursor];
            Ok(EthernetTxBuffer { slot: d.buffer, len: length })
        } else {
            Err(Exhausted)
        }
    }

    /// The bytes of a received frame.
    pub fn rx_data(&self, buf: &EthernetRxBuffer) -> (r: &[u8])
        requires
            self.wf(),
            buf.wf(),
        ensures
            r@ == self.rx.slot_bytes(buf.slot as int, buf.len as int),
    {
        let start = buf.slot * BUFFER_SIZE;
        slice_subrange(self.rx.buffers.as_slice(), start, start + buf.len)
    }

    /// The bytes of a reserved transmit slot, `buf.len` of them.
    pub fn tx_data(&self, buf: &EthernetTxBuffer) -> (r: &[u8])
        requires
            self.wf(),
            buf.wf(),
        ensures
            r@ == self.tx.slot_bytes(buf.slot as int, buf.len as int),
    {
        let start = buf.slot * BUFFER_SIZE;
        slice_subrange(self.tx.buffers.as_slice(), start, start + buf.len)
    }

    /// Copies `data` into a reserved transmit slot at `offset`.
    pub fn write_tx(&mut self, buf: &EthernetTxBuffer, offset: usize, data: &[u8])
        requires
            old(self).wf(),
            buf.wf(),
            offset + data@.len() <= buf.len,
        ensures
            final(self).wf(),
            written(*old(self), *final(self), buf.slot as int, offset as int, data@),
    {
        let start = buf.slot * BUFFER_SIZE + offset;
        let mut i: usize = 0;
        while i < data.len()
            invariant
                self.wf(),
                old(self).wf(),
                start == buf.slot * BUFFER_SIZE + offset,
                start + data@.len() <= self.tx.buffers@.len(),
                i <= data@.len(),
                self.tx.buffers@.len() == old(self).tx.buffers@.len(),
                forall|k: int|
                    0 <= k < self.tx.buffers@.len() ==> #[trigger] self.tx.buffers@[k]
                        == if start <= k < start + i {
                        data@[k - start]
                    } else {
                        old(self).tx.buffers@[k]
                    },
                self.tx.descriptors@ == old(self).tx.descriptors@,
                self.tx.cursor == old(self).tx.cursor,
                self.rx == old(self).rx,
                self.rx_lent == old(self).rx_lent,
            decreases data@.len() - i,
        {
            self.tx.buffers[start + i] = data[i];
            i = i + 1;
        }
    }

    /// Hands a received frame's descriptor back to the DMA engine.
    pub fn release_packet(&mut self, buf: EthernetRxBuffer)
        requires
            old(self).wf(),
            buf.wf(),
        ensures
            final(self).wf(),
            released(*old(self), *final(self), buf.slot as int),
    {
        let index: usize = if buf.slot == 0 {
            0
        } else {
            1
        };
        proof {
            lemma_hardware_words();
        }
        self.rx.store_status(index, OWN);
        self.rx_lent[index] = false;
        memory_barrier();
    }

    /// Arms a reserved slot's descriptor for transmission of the length given
    /// at reservation, whatever was written into the slot.
    pub fn transmit_packet(&mut self, buf: EthernetTxBuffer)
        requires
            old(self).wf(),
            buf.wf(),
        ensures
            final(self).wf(),
            committed(*old(self), *final(self), buf.slot as int, buf.len as int),
    {
        let index: usize = if buf.slot == 0 {
            0
        } else {
            1
        };
        proof {
            lemma_hardware_words();
        }
        let d = self.tx.descriptors[index];
        self.tx.descriptors[index] = Descriptor {
            status: TX_READY,
            control: buf.len as u32,
            ..d
        };
        memory_barrier();
    }

    /// Whether `transmit` would lend a slot now: the descriptor the cursor
    /// moves to next belongs to software.
    pub fn transmit_available(&self) -> (r: bool)
        requires
            self.wf(),
        ensures
            r == software_owned(self.tx.descriptors@[self.tx.next_of(self.tx.cursor as int)].status),
    {
        let n = self.tx.descriptors[self.tx.cursor].next;
        self.tx.descriptors[n].status & OWN == 0
    }

    /// Takes in the first word read back for receive descriptor `index`: a
    /// frame the DMA engine handed back is recorded if it fits its slot.
    pub fn take_rx_word(&mut self, index: usize, word: u32) -> (r: WriteBack)
        requires
            old(self).wf(),
            index < 2,
        ensures
            final(self).wf(),
            r == rx_write_back(old(self).rx.descriptors@[index as int].status, word),
            final(self).rx.descriptors@ == if r == WriteBack::Taken {
                old(self).rx.descriptors@.update(
                    index as int,
                    Descriptor { status: word, ..old(self).rx.descriptors@[index as int] },
                )
            } else {
                old(self).rx.descriptors@
            },
            final(self).rx.cursor == old(self).rx.cursor,
            final(self).rx.buffers@ == old(self).rx.buffers@,
            final(self).tx == old(self).tx,
            final(self).rx_lent == old(self).rx_lent,
    {
        let held = self.rx.descriptors[index].status;
        if held & OWN == 0 || word & OWN != 0 {
            WriteBack::Unchanged
        } else if frame_fits(word) {
            self.store_rx_status(index, word);
            WriteBack::Taken
        } else {
            WriteBack::Returned
        }
    }

    /// Takes in the first word read back for transmit descriptor `index`:
    /// recorded when the DMA engine has handed the descriptor back.
    pub fn take_tx_word(&mut self, index: usize, word: u32) -> (r: bool)
        requires
            old(self).wf(),
            index < 2,
        ensures
            final(self).wf(),
            r == (!software_owned(old(self).tx.descriptors@[index as int].status)
                && software_owned(word)),
            final(self).tx.descriptors@ == if r {
                old(self).tx.descriptors@.update(
                    index as int,
                    Descriptor { status: word, ..old(self).tx.descriptors@[index as int] },
                )
            } else {
                old(self).tx.descriptors@
            },
            final(self).tx.cursor == old(self).tx.cursor,
            final(self).tx.buffers@ == old(self).tx.buffers@,
            final(self).rx == old(self).rx,
            final(self).rx_lent == old(self).rx_lent,
    {
        let held = self.tx.descriptors[index].status;
        if held & OWN != 0 && word & OWN == 0 {
            self.store_tx_status(index, word);
            true
        } else {
            false
        }
    }

    /// Records the first word that the DMA engine wrote back to receive
    /// descriptor `index`.
    pub fn store_rx_status(&mut self, index: usize, status: u32)
        requires
            old(self).wf(),
            index < 2,
            software_owned(status) ==> frame_length(status) <= BUFFER_SIZE,
        ensures
            final(self).wf(),
            final(self).rx.cursor == old(self).rx.cursor,
            final(self).rx.buffers@ == old(self).rx.buffers@,
            final(self).rx.descriptors@ == old(self).rx.descriptors@.update(
                index as int,
                Descriptor { status, ..old(self).rx.descriptors@[index as int] },
            ),
            final(self).tx == old(self).tx,
            final(self).rx_lent == old(self).rx_lent,
    {
        self.rx.store_status(index, status);
    }

    /// Records the first word that the DMA engine wrote back to transmit
    /// descriptor `index`.
    pub fn store_tx_status(&mut self, index: usize, status: u32)
        requires
            old(self).wf(),
            index < 2,
        ensures
            final(self).wf(),
            final(self).tx.cursor == old(self).tx.cursor,
            final(self).tx.buffers@ == old(self).tx.buffers@,
            final(self).tx.descriptors@ == old(self).tx.descriptors@.update(
                index as int,
                Descriptor { status, ..old(self).tx.descriptors@[index as int] },
            ),
            final(self).rx == old(self).rx,
            final(self).rx_lent == old(self).rx_lent,
    {
        self.tx.store_status(index, status);
    }
}

/// What to do with the first word read back from where the DMA engine keeps a
/// receive descriptor.
#[derive(Clone, Copy, Debug, PartialEq, Eq, Structural)]
pub enum WriteBack {
    /// Nothing new: the word still belongs to hardware, or software holds
    /// the descriptor already.
    Unchanged,
    /// The DMA engine handed a frame back and it was recorded.
    Taken,
    /// The frame the DMA engine handed back does not fit its slot: give the
    /// descriptor straight back to hardware.
    Returned,
}

/// The decision on word `word` read back for a descriptor whose recorded
/// first word is `held`.
pub open spec fn rx_write_back(held: u32, word: u32) -> WriteBack {
    if software_owned(held) || !software_owned(word) {
        WriteBack::Unchanged
    } else if frame_length(word) <= BUFFER_SIZE {
        WriteBack::Taken
    } else {
        WriteBack::Returned
    }
}

/// Whether a first word written back by the DMA engine may be recorded: a
/// frame it hands to software fits its slot.
pub fn frame_fits(status: u32) -> (r: bool)
    ensures
        r == (software_owned(status) ==> frame_length(status) <= BUFFER_SIZE),
{
    status & OWN != 0 || (status >> 16u32) & 0x3FFF <= 2048
}

/// Whether, after a descriptor was handed back, the DMA engine in process
/// state `process_state` must be told to resume.
pub fn dma_resume_needed(process_state: u8) -> (r: bool)
    ensures
        r == (process_state == DMA_SUSPENDED),
{
    process_state == DMA_SUSPENDED
}

/// Following `next` twice from either descriptor of a ring comes back to it,
/// and following it once leads to the other descriptor.
pub proof fn lemma_cycle_closure(ring: Ring, i: int)
    requires
        ring.wf(),
        0 <= i < 2,
    ensures
        0 <= ring.next_of(i) < 2,
        ring.next_of(i) != i,
        ring.next_of(ring.next_of(i)) == i,
{
    assert(ring.descriptors@[i].next == 1 - i);
    assert(ring.descriptors@[1 - i].next == i);
}

/// A frame lent by `receive` and then released goes back to the DMA engine:
/// the descriptor it came from is owned by hardware again and the other
/// descriptor is as it was.
pub proof fn lemma_receive_release_round_trip(
    d0: EthernetDevice,
    d1: EthernetDevice,
    d2: EthernetDevice,
    b: EthernetRxBuffer,
)
    requires
        d0.wf(),
        received(d0, d1, Ok(b)),
        released(d1, d2, b.slot as int),
    ensures
        b.slot == d1.rx.cursor,
        d2.rx.descriptors@[b.slot as int].status == OWN,
        !software_owned(d2.rx.descriptors@[b.slot as int].status),
        d2.rx.descriptors@[1 - b.slot] == d0.rx.descriptors@[1 - b.slot],
        d2.rx.cursor == d1.rx.cursor,
        !d2.rx_lent@[b.slot as int],
{
    lemma_hardware_words();
    lemma_cycle_closure(d0.rx, d0.rx.cursor as int);
    assert(d1.rx.descriptors@[d1.rx.cursor as int] == d0.rx.descriptors@[d1.rx.cursor as int]);
}

/// A slot reserved for `length` bytes is committed with length `length`,
/// however many bytes were written into it in between.
pub proof fn lemma_commit_uses_reserved_length(
    d0: EthernetDevice,
    d1: EthernetDevice,
    d2: EthernetDevice,
    d3: EthernetDevice,
    length: usize,
    b: EthernetTxBuffer,
    offset: int,
    data: Seq<u8>,
)
    requires
        d0.wf(),
        length <= BUFFER_SIZE,
        reserved(d0, d1, length, Ok(b)),
        written(d1, d2, b.slot as int, offset, data),
        committed(d2, d3, b.slot as int, b.len as int),
    ensures
        d3.tx.descriptors@[b.slot as int].control == length,
        d3.tx.descriptors@[b.slot as int].status == TX_READY,
{
    lemma_cycle_closure(d0.tx, d0.tx.cursor as int);
    assert(d1.tx.descriptors@[d1.tx.cursor as int] == d0.tx.descriptors@[d1.tx.cursor as int]);
}

/// Two frames lent one after the other, with no release in between, come
/// from the two different slots.
pub proof fn lemma_successive_receives_distinct(
    d0: EthernetDevice,
    d1: EthernetDevice,
    d2: EthernetDevice,
    b1: EthernetRxBuffer,
    b2: EthernetRxBuffer,
)
    requires
        d0.wf(),
        received(d0, d1, Ok(b1)),
        received(d1, d2, Ok(b2)),
    ensures
        b1.slot < 2,
        b2.slot < 2,
        b1.slot != b2.slot,
{
    lemma_cycle_closure(d0.rx, d0.rx.cursor as int);
    assert(d1.rx.descriptors@[d1.rx.cursor as int] == d0.rx.descriptors@[d1.rx.cursor as int]);
    assert(d2.rx.descriptors@[d2.rx.cursor as int] == d0.rx.descriptors@[d2.rx.cursor as int]);
}

/// After two frames are lent with no release in between, the next receive
/// returns `Exhausted`: both slots are out, so at most two frames are ever
/// lent at once.
pub proof fn lemma_third_receive_exhausted(
    d0: EthernetDevice,
    d1: EthernetDevice,
    d2: EthernetDevice,
    d3: EthernetDevice,
    b1: EthernetRxBuffer,
    b2: EthernetRxBuffer,
    r: Result<EthernetRxBuffer, Exhausted>,
)
    requires
        d0.wf(),
        received(d0, d1, Ok(b1)),
        received(d1, d2, Ok(b2)),
        received(d2, d3, r),
    ensures
        r == Err::<EthernetRxBuffer, Exhausted>(Exhausted),
        d2.rx_lent@[0] && d2.rx_lent@[1],
{
    lemma_cycle_closure(d0.rx, d0.rx.cursor as int);
    assert(d1.rx.descriptors@[d1.rx.cursor as int] == d0.rx.descriptors@[d1.rx.cursor as int]);
    assert(d2.rx.descriptors@[d2.rx.cursor as int] == d0.rx.descriptors@[d2.rx.cursor as int]);
    assert(d3.rx.descriptors@[d3.rx.cursor as int] == d0.rx.descriptors@[d3.rx.cursor as int]);
    assert(d2.rx_lent@[b1.slot as int]);
    assert(d2.rx_lent@[b2.slot as int]);
    match r {
        Ok(_) => {},
        Err(e) => {
            assert(e == Exhausted);
        },
    }
}

/// The transmit-ready word hands the descriptor to hardware with the first
/// segment, last segment and full checksum insertion bits set.
pub proof fn lemma_transmit_ready_bits()
    ensures
        TX_READY & OWN != 0,
        TX_READY & 0x2000_0000 != 0,
        TX_READY & 0x1000_0000 != 0,
        (TX_READY >> 22u32) & 3 == 3,
{
    assert(0xF0D0_0000u32 & 0x8000_0000u32 != 0) by (bit_vector);
    assert(0xF0D0_0000u32 & 0x2000_0000u32 != 0) by (bit_vector);
    assert(0xF0D0_0000u32 & 0x1000_0000u32 != 0) by (bit_vector);
    assert((0xF0D0_0000u32 >> 22u32) & 3u32 == 3u32) by (bit_vector);
}

} // verus!
