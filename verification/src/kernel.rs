//! The boundary to the kernel during configuration and teardown.
//!
//! The library makes no system call. It says which call comes next, is handed
//! what the kernel answered, and decides from that how to go on. A
//! configuration is a run of such steps in a fixed order; the first failure
//! ends it.

use vstd::prelude::*;
use crate::error::XdpError;
use crate::if_xdp::{
    XdpMmapOffsets, XdpRingOffset, CQ_NUM_DESCS, FQ_NUM_DESCS, FRAME_HEADROOM, FRAME_SIZE,
    NUM_DESCS, NUM_FRAMES,
};
use crate::slots::{check_power_of_two, is_power_of_two};

verus! {

/// The four rings of a socket.
#[derive(Clone, Copy, Debug, PartialEq, Eq, Structural)]
pub enum RingKind {
    /// Process to kernel: frames offered for packets to come.
    Fill,
    /// Kernel to process: frames of packets that were sent.
    Completion,
    /// Kernel to process: packets that were received.
    Rx,
    /// Process to kernel: packets to send.
    Tx,
}

/// The steps of a configuration, in the order in which they are taken.
#[derive(Clone, Copy, Debug, PartialEq, Eq, Structural)]
pub enum ConfigStep {
    CreateSocket,
    AllocateUmem,
    RegisterUmem,
    SetFillRingSize,
    SetCompletionRingSize,
    FillRingOffsets,
    MapFillRing,
    CompletionRingOffsets,
    MapCompletionRing,
    SetRxRingSize,
    SetTxRingSize,
    RxRingOffsets,
    MapRxRing,
    TxRingOffsets,
    MapTxRing,
    Bind,
}

/// Where a socket stands in its life.
#[derive(Clone, Copy, Debug, PartialEq, Eq, Structural)]
pub enum SocketState {
    /// Nothing was asked of the kernel yet.
    Unconfigured,
    /// The configuration is under way.
    Configuring,
    /// Every step went through. Only now may packets be moved.
    Ready,
    /// A step failed. The state is final but for teardown.
    Failed,
    /// Everything was handed back to the kernel.
    Closed,
}

/// A call to make to the kernel.
#[derive(Clone, Copy, Debug, PartialEq, Eq, Structural)]
pub enum KernelCall {
    /// Open a raw socket of the given family.
    CreateSocket { family: i32 },
    /// Get `len` bytes of page-aligned memory for the frame arena.
    AllocateUmem { len: usize },
    /// Register the arena with the socket, by a socket option.
    RegisterUmem { sfd: i32, level: i32, option: i32, bytes: u64, chunk_size: u32, headroom: u32 },
    /// Ask for a ring of `num_descs` slots, by a socket option.
    SetRingSize { sfd: i32, level: i32, option: i32, num_descs: u32 },
    /// Ask where in a mapping the parts of each ring lie.
    QueryOffsets { sfd: i32, level: i32, option: i32 },
    /// Map `len` bytes of a ring, shared, at its page offset.
    MapRing { sfd: i32, ring: RingKind, len: usize, page_offset: u64 },
    /// Bind the socket to one queue of one interface.
    Bind { sfd: i32, sxdp_family: u16, ifindex: u32, queue_id: u32 },
    /// Unmap a ring that was mapped with `len` bytes.
    UnmapRing { ring: RingKind, len: usize },
    /// Free the memory of the frame arena.
    FreeUmem,
    /// Close the socket.
    CloseSocket { sfd: i32 },
}

/// What the kernel answered to a call.
///
/// `code` is what the call returned; for a mapping, zero where it was made
/// and a negative number where it was not. `offsets` counts only in an answer
/// to `QueryOffsets`.
#[derive(Clone, Copy, Debug, PartialEq, Eq, Structural)]
pub struct KernelReply {
    pub code: i32,
    pub offsets: XdpMmapOffsets,
}

impl KernelReply {
    /// The answer of a call that returned `code` and reported no offsets.
    pub fn with_code(code: i32) -> (reply: Self)
        ensures
            reply.code == code,
            reply.offsets == XdpMmapOffsets::nowhere(),
    {
        let zero = XdpRingOffset { producer: 0, consumer: 0, desc: 0 };
        KernelReply { code, offsets: XdpMmapOffsets { rx: zero, tx: zero, fr: zero, cr: zero } }
    }
}

/// How a configuration goes on after a step.
#[derive(Clone, Copy, Debug, PartialEq, Eq, Structural)]
pub enum Progress {
    /// Make this call and come back with the answer.
    Call(KernelCall),
    /// The socket is configured.
    Ready,
    /// The configuration has ended with this error.
    Failed(XdpError),
}

/// The sizes that a socket is configured with.
#[derive(Clone, Copy, Debug, PartialEq, Eq, Structural)]
pub struct XdpConfig {
    pub num_frames: usize,
    pub frame_size: u32,
    pub frame_headroom: u32,
    pub fill_descs: u32,
    pub completion_descs: u32,
    pub rx_descs: u32,
    pub tx_descs: u32,
}

impl XdpConfig {
    /// Bytes in the frame arena.
    pub open spec fn umem_len(self) -> int {
        self.num_frames * self.frame_size
    }

    /// Every ring size is a power of two, and the arena can be addressed.
    pub open spec fn valid(self) -> bool {
        &&& is_power_of_two(self.fill_descs)
        &&& is_power_of_two(self.completion_descs)
        &&& is_power_of_two(self.rx_descs)
        &&& is_power_of_two(self.tx_descs)
        &&& self.umem_len() <= usize::MAX
    }

    /// 131072 frames of 2048 bytes without headroom, and 1024 slots in each
    /// ring.
    pub fn standard() -> (config: Self)
        ensures
            config == (XdpConfig {
                num_frames: 131072,
                frame_size: 2048,
                frame_headroom: 0,
                fill_descs: 1024,
                completion_descs: 1024,
                rx_descs: 1024,
                tx_descs: 1024,
            }),
    {
        XdpConfig {
            num_frames: NUM_FRAMES,
            frame_size: FRAME_SIZE as u32,
            frame_headroom: FRAME_HEADROOM as u32,
            fill_descs: FQ_NUM_DESCS,
            completion_descs: CQ_NUM_DESCS,
            rx_descs: NUM_DESCS,
            tx_descs: NUM_DESCS,
        }
    }

    /// Computes [`XdpConfig::umem_len`].
    pub fn umem_bytes(&self) -> (len: usize)
        requires
            self.valid(),
        ensures
            len == self.umem_len(),
    {
        assert(self.num_frames * self.frame_size <= u128::MAX) by (nonlinear_arith)
            requires
                self.num_frames <= u64::MAX,
                self.frame_size <= u32::MAX,
        ;
        ((self.num_frames as u128) * (self.frame_size as u128)) as usize
    }

    /// Decides whether the sizes can be used.
    pub fn is_valid(&self) -> (r: bool)
        ensures
            r == self.valid(),
    {
        assert(self.num_frames * self.frame_size <= u128::MAX) by (nonlinear_arith)
            requires
                self.num_frames <= u64::MAX,
                self.frame_size <= u32::MAX,
        ;
        let len = (self.num_frames as u128) * (self.frame_size as u128);
        check_power_of_two(self.fill_descs) && check_power_of_two(self.completion_descs)
            && check_power_of_two(self.rx_descs) && check_power_of_two(self.tx_descs) && len
            <= usize::MAX as u128
    }
}

/// The place of a step in the order of the configuration, from zero.
pub open spec fn ordinal(step: ConfigStep) -> int {
    match step {
        ConfigStep::CreateSocket => 0,
        ConfigStep::AllocateUmem => 1,
        ConfigStep::RegisterUmem => 2,
        ConfigStep::SetFillRingSize => 3,
        ConfigStep::SetCompletionRingSize => 4,
        ConfigStep::FillRingOffsets => 5,
        ConfigStep::MapFillRing => 6,
        ConfigStep::CompletionRingOffsets => 7,
        ConfigStep::MapCompletionRing => 8,
        ConfigStep::SetRxRingSize => 9,
        ConfigStep::SetTxRingSize => 10,
        ConfigStep::RxRingOffsets => 11,
        ConfigStep::MapRxRing => 12,
        ConfigStep::TxRingOffsets => 13,
        ConfigStep::MapTxRing => 14,
        ConfigStep::Bind => 15,
    }
}

/// The step at a place of the order; past the end, the last one.
pub open spec fn step_at(place: int) -> ConfigStep {
    if place <= 0 {
        ConfigStep::CreateSocket
    } else if place == 1 {
        ConfigStep::AllocateUmem
    } else if place == 2 {
        ConfigStep::RegisterUmem
    } else if place == 3 {
        ConfigStep::SetFillRingSize
    } else if place == 4 {
        ConfigStep::SetCompletionRingSize
    } else if place == 5 {
        ConfigStep::FillRingOffsets
    } else if place == 6 {
        ConfigStep::MapFillRing
    } else if place == 7 {
        ConfigStep::CompletionRingOffsets
    } else if place == 8 {
        ConfigStep::MapCompletionRing
    } else if place == 9 {
        ConfigStep::SetRxRingSize
    } else if place == 10 {
        ConfigStep::SetTxRingSize
    } else if place == 11 {
        ConfigStep::RxRingOffsets
    } else if place == 12 {
        ConfigStep::MapRxRing
    } else if place == 13 {
        ConfigStep::TxRingOffsets
    } else if place == 14 {
        ConfigStep::MapTxRing
    } else {
        ConfigStep::Bind
    }
}

/// Whether the step belongs to the setting up of the frame arena and its two
/// rings.
pub open spec fn in_umem_phase(step: ConfigStep) -> bool {
    1 <= ordinal(step) <= 8
}

/// Bytes to map for a ring of `num_descs` slots: up to the descriptor array
/// as the kernel places it, and eight bytes for each slot.
pub open spec fn ring_map_len(offsets: XdpMmapOffsets, num_descs: u32) -> int {
    offsets.fr.desc + num_descs * 8
}

/// Computes [`ring_map_len`], where it can be addressed.
pub fn checked_ring_map_len(offsets: &XdpMmapOffsets, num_descs: u32) -> (len: Option<usize>)
    ensures
        len is Some <==> ring_map_len(*offsets, num_descs) <= usize::MAX,
        len matches Some(n) ==> n == ring_map_len(*offsets, num_descs),
{
    let slots: u64 = num_descs as u64 * 8;
    if offsets.fr.desc > u64::MAX - slots {
        return None;
    }
    let len = offsets.fr.desc + slots;
    if len > usize::MAX as u64 {
        return None;
    }
    Some(len as usize)
}

/// The step after `step`; after the last one, the last one.
pub fn successor(step: ConfigStep) -> (next: ConfigStep)
    ensures
        next == step_at(ordinal(step) + 1),
{
    match step {
        ConfigStep::CreateSocket => ConfigStep::AllocateUmem,
        ConfigStep::AllocateUmem => ConfigStep::RegisterUmem,
        ConfigStep::RegisterUmem => ConfigStep::SetFillRingSize,
        ConfigStep::SetFillRingSize => ConfigStep::SetCompletionRingSize,
        ConfigStep::SetCompletionRingSize => ConfigStep::FillRingOffsets,
        ConfigStep::FillRingOffsets => ConfigStep::MapFillRing,
        ConfigStep::MapFillRing => ConfigStep::CompletionRingOffsets,
        ConfigStep::CompletionRingOffsets => ConfigStep::MapCompletionRing,
        ConfigStep::MapCompletionRing => ConfigStep::SetRxRingSize,
        ConfigStep::SetRxRingSize => ConfigStep::SetTxRingSize,
        ConfigStep::SetTxRingSize => ConfigStep::RxRingOffsets,
        ConfigStep::RxRingOffsets => ConfigStep::MapRxRing,
        ConfigStep::MapRxRing => ConfigStep::TxRingOffsets,
        ConfigStep::TxRingOffsets => ConfigStep::MapTxRing,
        ConfigStep::MapTxRing => ConfigStep::Bind,
        ConfigStep::Bind => ConfigStep::Bind,
    }
}

/// Judges what a call that hands something back to the kernel returned: a
/// negative code is a failure of the teardown.
pub fn teardown_result(code: i32) -> (r: Result<(), XdpError>)
    ensures
        r is Ok <==> code >= 0,
        r is Err ==> r == Err::<(), XdpError>(XdpError::Teardown { code }),
{
    if code < 0 {
        return Err(XdpError::Teardown { code });
    }
    Ok(())
}

} // verus!
