//! The configuration of a socket as a state machine.
//!
//! A configurator starts unconfigured. Each answer of the kernel moves it one
//! step on, until the socket is ready or a step has failed. What was acquired
//! from the kernel by then is known from the step alone, and so is what has
//! to be handed back.

use vstd::prelude::*;
use crate::error::XdpError;
use crate::if_xdp::{
    XdpRingOffset, PF_XDP, SOL_XDP, XDP_MMAP_OFFSETS, XDP_PGOFF_RX_RING,
    XDP_PGOFF_TX_RING, XDP_RX_RING, XDP_TX_RING, XDP_UMEM_COMPLETION_RING, XDP_UMEM_FILL_RING,
    XDP_UMEM_PGOFF_COMPLETION_RING, XDP_UMEM_PGOFF_FILL_RING, XDP_UMEM_REG,
};
use crate::kernel::{
    ordinal, ring_map_len, step_at, successor, ConfigStep, KernelCall, KernelReply, Progress,
    RingKind, SocketState, XdpConfig,
};

verus! {

/// A socket on its way to being configured.
#[derive(Debug, PartialEq, Eq, Structural)]
pub struct XdpConfigurator {
    /// The sizes asked for.
    pub config: XdpConfig,
    /// The interface to bind to.
    pub interface_index: u32,
    /// The hardware queue of it to bind to.
    pub queue_id: u32,
    /// Where the configuration stands.
    pub state: SocketState,
    /// The step whose answer is awaited; after a failure, the step that
    /// failed.
    pub step: ConfigStep,
    /// The socket, once it was created.
    pub sfd: i32,
    /// Where the parts of each ring lie in its mapping, once reported.
    pub fill_offset: XdpRingOffset,
    pub completion_offset: XdpRingOffset,
    pub rx_offset: XdpRingOffset,
    pub tx_offset: XdpRingOffset,
    /// Bytes mapped, or to be mapped, for each ring.
    pub fill_len: usize,
    pub completion_len: usize,
    pub rx_len: usize,
    pub tx_len: usize,
    /// Why the configuration failed, after it did.
    pub error: XdpError,
    /// After a failure: how many of the steps that went through still hold
    /// what they acquired.
    pub unreleased: u8,
}

impl XdpConfigurator {
    /// The sizes can be used, and no more steps are held than there are.
    pub open spec fn wf(self) -> bool {
        self.config.valid() && self.unreleased <= 16
    }

    /// Slots of the ring whose mapping a step prepares or makes.
    pub open spec fn descs_at(self, step: ConfigStep) -> u32 {
        match step {
            ConfigStep::FillRingOffsets | ConfigStep::MapFillRing => self.config.fill_descs,
            ConfigStep::CompletionRingOffsets | ConfigStep::MapCompletionRing => {
                self.config.completion_descs
            },
            ConfigStep::RxRingOffsets | ConfigStep::MapRxRing => self.config.rx_descs,
            _ => self.config.tx_descs,
        }
    }

    /// Whether the step is one that asks for the offsets.
    pub open spec fn asks_offsets(step: ConfigStep) -> bool {
        step is FillRingOffsets || step is CompletionRingOffsets || step is RxRingOffsets
            || step is TxRingOffsets
    }

    /// Whether the answer means that the awaited step failed.
    ///
    /// A negative code is a failure. For the allocation and for the bind
    /// every code but zero is one. Offsets from which no mapping length can
    /// be formed are one too.
    pub open spec fn fails(self, reply: KernelReply) -> bool {
        if self.step is AllocateUmem || self.step is Bind {
            reply.code != 0
        } else if Self::asks_offsets(self.step) {
            reply.code < 0 || ring_map_len(reply.offsets, self.descs_at(self.step)) > usize::MAX
        } else {
            reply.code < 0
        }
    }

    /// The error that a failure of the awaited step is reported as.
    pub open spec fn failure(self, reply: KernelReply) -> XdpError {
        if self.step is AllocateUmem {
            XdpError::Allocation { code: reply.code }
        } else {
            XdpError::Configuration { step: self.step, code: reply.code }
        }
    }

    /// The configurator after it took in what a good answer tells: the socket
    /// after its creation, and after each query the offsets of the ring to
    /// map next and the length of its mapping.
    pub open spec fn recorded(self, reply: KernelReply) -> Self {
        let len = ring_map_len(reply.offsets, self.descs_at(self.step)) as usize;
        match self.step {
            ConfigStep::CreateSocket => XdpConfigurator { sfd: reply.code, ..self },
            ConfigStep::FillRingOffsets => XdpConfigurator {
                fill_offset: reply.offsets.fr,
                fill_len: len,
                ..self
            },
            ConfigStep::CompletionRingOffsets => XdpConfigurator {
                completion_offset: reply.offsets.cr,
                completion_len: len,
                ..self
            },
            ConfigStep::RxRingOffsets => XdpConfigurator {
                rx_offset: reply.offsets.rx,
                rx_len: len,
                ..self
            },
            ConfigStep::TxRingOffsets => XdpConfigurator {
                tx_offset: reply.offsets.tx,
                tx_len: len,
                ..self
            },
            _ => self,
        }
    }

    /// The configurator after an answer of the kernel.
    ///
    /// Unconfigured, it starts with the first step, whatever the answer
    /// holds. While configuring, a failure ends the configuration with the
    /// step that failed, and everything that the steps before it acquired is
    /// then still held; a good answer to the last step makes the socket
    /// ready, and one to any other step leads to the next. After a failure
    /// each answer is that to a release, whatever it holds: what was released
    /// is held no more. Ready or closed, nothing changes.
    pub open spec fn advanced(self, reply: KernelReply) -> Self {
        match self.state {
            SocketState::Unconfigured => XdpConfigurator {
                state: SocketState::Configuring,
                step: ConfigStep::CreateSocket,
                ..self
            },
            SocketState::Failed => match self.top_release(self.unreleased as int) {
                Some((_, below)) => XdpConfigurator { unreleased: below as u8, ..self },
                None => self,
            },
            SocketState::Configuring => {
                if self.fails(reply) {
                    XdpConfigurator {
                        state: SocketState::Failed,
                        error: self.failure(reply),
                        unreleased: ordinal(self.step) as u8,
                        ..self
                    }
                } else if self.step is Bind {
                    XdpConfigurator { state: SocketState::Ready, ..self.recorded(reply) }
                } else {
                    XdpConfigurator {
                        step: step_at(ordinal(self.step) + 1),
                        ..self.recorded(reply)
                    }
                }
            },
            _ => self,
        }
    }

    /// The call that the awaited step makes.
    pub open spec fn call(self) -> KernelCall {
        match self.step {
            ConfigStep::CreateSocket => KernelCall::CreateSocket { family: PF_XDP },
            ConfigStep::AllocateUmem => KernelCall::AllocateUmem {
                len: self.config.umem_len() as usize,
            },
            ConfigStep::RegisterUmem => KernelCall::RegisterUmem {
                sfd: self.sfd,
                level: SOL_XDP,
                option: XDP_UMEM_REG,
                bytes: self.config.umem_len() as u64,
                chunk_size: self.config.frame_size,
                headroom: self.config.frame_headroom,
            },
            ConfigStep::SetFillRingSize => KernelCall::SetRingSize {
                sfd: self.sfd,
                level: SOL_XDP,
                option: XDP_UMEM_FILL_RING,
                num_descs: self.config.fill_descs,
            },
            ConfigStep::SetCompletionRingSize => KernelCall::SetRingSize {
                sfd: self.sfd,
                level: SOL_XDP,
                option: XDP_UMEM_COMPLETION_RING,
                num_descs: self.config.completion_descs,
            },
            ConfigStep::SetRxRingSize => KernelCall::SetRingSize {
                sfd: self.sfd,
                level: SOL_XDP,
                option: XDP_RX_RING,
                num_descs: self.config.rx_descs,
            },
            ConfigStep::SetTxRingSize => KernelCall::SetRingSize {
                sfd: self.sfd,
                level: SOL_XDP,
                option: XDP_TX_RING,
                num_descs: self.config.tx_descs,
            },
            ConfigStep::FillRingOffsets
            | ConfigStep::CompletionRingOffsets
            | ConfigStep::RxRingOffsets
            | ConfigStep::TxRingOffsets => KernelCall::QueryOffsets {
                sfd: self.sfd,
                level: SOL_XDP,
                option: XDP_MMAP_OFFSETS,
            },
            ConfigStep::MapFillRing => KernelCall::MapRing {
                sfd: self.sfd,
                ring: RingKind::Fill,
                len: self.fill_len,
                page_offset: XDP_UMEM_PGOFF_FILL_RING,
            },
            ConfigStep::MapCompletionRing => KernelCall::MapRing {
                sfd: self.sfd,
                ring: RingKind::Completion,
                len: self.completion_len,
                page_offset: XDP_UMEM_PGOFF_COMPLETION_RING,
            },
            ConfigStep::MapRxRing => KernelCall::MapRing {
                sfd: self.sfd,
                ring: RingKind::Rx,
                len: self.rx_len,
                page_offset: XDP_PGOFF_RX_RING,
            },
            ConfigStep::MapTxRing => KernelCall::MapRing {
                sfd: self.sfd,
                ring: RingKind::Tx,
                len: self.tx_len,
                page_offset: XDP_PGOFF_TX_RING,
            },
            ConfigStep::Bind => KernelCall::Bind {
                sfd: self.sfd,
                sxdp_family: PF_XDP as u16,
                ifindex: self.interface_index,
                queue_id: self.queue_id,
            },
        }
    }

    /// What the caller is told to do in the state reached.
    ///
    /// While configuring it is the call of the awaited step. After a failure
    /// it is the release of the latest acquisition still held, and the error
    /// only when nothing is held any more.
    pub open spec fn progress(self) -> Progress {
        match self.state {
            SocketState::Configuring => Progress::Call(self.call()),
            SocketState::Ready => Progress::Ready,
            SocketState::Failed => match self.top_release(self.unreleased as int) {
                Some((call, _)) => Progress::Call(call),
                None => Progress::Failed(self.error),
            },
            _ => Progress::Failed(XdpError::NotReady),
        }
    }

    /// How many of the steps, counted from the first, still hold what they
    /// acquired.
    pub open spec fn held(self) -> int {
        match self.state {
            SocketState::Configuring => ordinal(self.step),
            SocketState::Failed => self.unreleased as int,
            SocketState::Ready => 16,
            _ => 0,
        }
    }

    /// The call that hands back what a step acquired, if it acquired
    /// anything.
    pub open spec fn release_of(self, step: ConfigStep) -> Option<KernelCall> {
        match step {
            ConfigStep::CreateSocket => Some(KernelCall::CloseSocket { sfd: self.sfd }),
            ConfigStep::AllocateUmem => Some(KernelCall::FreeUmem),
            ConfigStep::MapFillRing => Some(
                KernelCall::UnmapRing { ring: RingKind::Fill, len: self.fill_len },
            ),
            ConfigStep::MapCompletionRing => Some(
                KernelCall::UnmapRing { ring: RingKind::Completion, len: self.completion_len },
            ),
            ConfigStep::MapRxRing => Some(
                KernelCall::UnmapRing { ring: RingKind::Rx, len: self.rx_len },
            ),
            ConfigStep::MapTxRing => Some(
                KernelCall::UnmapRing { ring: RingKind::Tx, len: self.tx_len },
            ),
            _ => None,
        }
    }

    /// The calls that hand back what the first `done` steps acquired, the
    /// latest first.
    pub open spec fn release_upto(self, done: int) -> Seq<KernelCall>
        decreases done,
    {
        if done <= 0 {
            Seq::empty()
        } else {
            match self.release_of(step_at(done - 1)) {
                Some(call) => seq![call] + self.release_upto(done - 1),
                None => self.release_upto(done - 1),
            }
        }
    }

    /// The release of the latest acquisition among the first `done` steps,
    /// and how many steps are left below it. There is none where these
    /// steps acquired nothing.
    pub open spec fn top_release(self, done: int) -> Option<(KernelCall, int)>
        decreases done,
    {
        if done <= 0 {
            None
        } else {
            match self.release_of(step_at(done - 1)) {
                Some(call) => Some((call, done - 1)),
                None => self.top_release(done - 1),
            }
        }
    }

    /// The calls that hand back everything still held, the latest
    /// acquisition first.
    pub open spec fn release_plan(self) -> Seq<KernelCall> {
        self.release_upto(self.held())
    }

    /// The configurator before anything was asked of the kernel.
    pub open spec fn initial(config: XdpConfig, interface_index: u32, queue_id: u32) -> Self {
        let nowhere = XdpRingOffset { producer: 0, consumer: 0, desc: 0 };
        XdpConfigurator {
            config,
            interface_index,
            queue_id,
            state: SocketState::Unconfigured,
            step: ConfigStep::CreateSocket,
            sfd: -1i32,
            fill_offset: nowhere,
            completion_offset: nowhere,
            rx_offset: nowhere,
            tx_offset: nowhere,
            fill_len: 0,
            completion_len: 0,
            rx_len: 0,
            tx_len: 0,
            error: XdpError::NotReady,
            unreleased: 0,
        }
    }

    /// Decides whether the configurator is well formed.
    pub fn is_well_formed(&self) -> (r: bool)
        ensures
            r == self.wf(),
    {
        self.config.is_valid() && self.unreleased <= 16
    }

    /// A configurator for one queue of one interface. There is none for
    /// sizes that cannot be used.
    pub fn new(config: XdpConfig, interface_index: u32, queue_id: u32) -> (r: Option<Self>)
        ensures
            r is Some <==> config.valid(),
            r matches Some(cfg) ==> cfg == Self::initial(config, interface_index, queue_id),
    {
        if !config.is_valid() {
            return None;
        }
        let nowhere = XdpRingOffset { producer: 0, consumer: 0, desc: 0 };
        Some(
            XdpConfigurator {
                config,
                interface_index,
                queue_id,
                state: SocketState::Unconfigured,
                step: ConfigStep::CreateSocket,
                sfd: -1,
                fill_offset: nowhere,
                completion_offset: nowhere,
                rx_offset: nowhere,
                tx_offset: nowhere,
                fill_len: 0,
                completion_len: 0,
                rx_len: 0,
                tx_len: 0,
                error: XdpError::NotReady,
                unreleased: 0,
            },
        )
    }

    /// The call that the awaited step makes.
    pub fn next_call(&self) -> (call: KernelCall)
        requires
            self.wf(),
        ensures
            call == self.call(),
    {
        match self.step {
            ConfigStep::CreateSocket => KernelCall::CreateSocket { family: PF_XDP },
            ConfigStep::AllocateUmem => KernelCall::AllocateUmem { len: self.config.umem_bytes() },
            ConfigStep::RegisterUmem => KernelCall::RegisterUmem {
                sfd: self.sfd,
                level: SOL_XDP,
                option: XDP_UMEM_REG,
                bytes: self.config.umem_bytes() as u64,
                chunk_size: self.config.frame_size,
                headroom: self.config.frame_headroom,
            },
            ConfigStep::SetFillRingSize => KernelCall::SetRingSize {
                sfd: self.sfd,
                level: SOL_XDP,
                option: XDP_UMEM_FILL_RING,
                num_descs: self.config.fill_descs,
            },
            ConfigStep::SetCompletionRingSize => KernelCall::SetRingSize {
                sfd: self.sfd,
                level: SOL_XDP,
                option: XDP_UMEM_COMPLETION_RING,
                num_descs: self.config.completion_descs,
            },
            ConfigStep::SetRxRingSize => KernelCall::SetRingSize {
                sfd: self.sfd,
                level: SOL_XDP,
                option: XDP_RX_RING,
                num_descs: self.config.rx_descs,
            },
            ConfigStep::SetTxRingSize => KernelCall::SetRingSize {
                sfd: self.sfd,
                level: SOL_XDP,
                option: XDP_TX_RING,
                num_descs: self.config.tx_descs,
            },
            ConfigStep::FillRingOffsets
            | ConfigStep::CompletionRingOffsets
            | ConfigStep::RxRingOffsets
            | ConfigStep::TxRingOffsets => KernelCall::QueryOffsets {
                sfd: self.sfd,
                level: SOL_XDP,
                option: XDP_MMAP_OFFSETS,
            },
            ConfigStep::MapFillRing => KernelCall::MapRing {
                sfd: self.sfd,
                ring: RingKind::Fill,
                len: self.fill_len,
                page_offset: XDP_UMEM_PGOFF_FILL_RING,
            },
            ConfigStep::MapCompletionRing => KernelCall::MapRing {
                sfd: self.sfd,
                ring: RingKind::Completion,
                len: self.completion_len,
                page_offset: XDP_UMEM_PGOFF_COMPLETION_RING,
            },
            ConfigStep::MapRxRing => KernelCall::MapRing {
                sfd: self.sfd,
                ring: RingKind::Rx,
                len: self.rx_len,
                page_offset: XDP_PGOFF_RX_RING,
            },
            ConfigStep::MapTxRing => KernelCall::MapRing {
                sfd: self.sfd,
                ring: RingKind::Tx,
                len: self.tx_len,
                page_offset: XDP_PGOFF_TX_RING,
            },
            ConfigStep::Bind => KernelCall::Bind {
                sfd: self.sfd,
                sxdp_family: PF_XDP as u16,
                ifindex: self.interface_index,
                queue_id: self.queue_id,
            },
        }
    }

    /// What the caller is told to do in the state reached.
    pub fn current_progress(&self) -> (p: Progress)
        requires
            self.wf(),
        ensures
            p == self.progress(),
    {
        match self.state {
            SocketState::Configuring => Progress::Call(self.next_call()),
            SocketState::Ready => Progress::Ready,
            SocketState::Failed => match self.next_release() {
                Some((call, _)) => Progress::Call(call),
                None => Progress::Failed(self.error),
            },
            _ => Progress::Failed(XdpError::NotReady),
        }
    }

    /// Computes [`XdpConfigurator::top_release`] for what is held after a
    /// failure.
    pub fn next_release(&self) -> (r: Option<(KernelCall, u8)>)
        ensures
            r is Some <==> self.top_release(self.unreleased as int) is Some,
            r matches Some((call, below)) ==> below < self.unreleased && self.top_release(
                self.unreleased as int,
            ) == Some((call, below as int)),
    {
        let mut left: u8 = self.unreleased;
        while left > 0
            invariant
                left <= self.unreleased,
                self.top_release(left as int) == self.top_release(self.unreleased as int),
            decreases left,
        {
            left = left - 1;
            match self.release_for(step_from_ordinal(left)) {
                Some(call) => {
                    return Some((call, left));
                },
                None => {},
            }
        }
        None
    }

    /// Ends the configuration with the failure of the awaited step.
    pub(crate) fn fail(&mut self, reply: &KernelReply) -> (p: Progress)
        requires
            old(self).wf(),
        ensures
            *final(self) == (XdpConfigurator {
                state: SocketState::Failed,
                error: old(self).failure(*reply),
                unreleased: ordinal(old(self).step) as u8,
                ..*old(self)
            }),
            p == final(self).progress(),
            final(self).wf(),
    {
        let error = match self.step {
            ConfigStep::AllocateUmem => XdpError::Allocation { code: reply.code },
            step => XdpError::Configuration { step, code: reply.code },
        };
        self.state = SocketState::Failed;
        self.error = error;
        self.unreleased = step_ordinal(self.step);
        self.current_progress()
    }

    /// Goes on after the awaited step went through.
    pub(crate) fn proceed(&mut self) -> (p: Progress)
        requires
            old(self).wf(),
            old(self).state == SocketState::Configuring,
        ensures
            *final(self) == (if old(self).step is Bind {
                XdpConfigurator { state: SocketState::Ready, ..*old(self) }
            } else {
                XdpConfigurator { step: step_at(ordinal(old(self).step) + 1), ..*old(self) }
            }),
            p == final(self).progress(),
            final(self).wf(),
    {
        match self.step {
            ConfigStep::Bind => {
                self.state = SocketState::Ready;
                Progress::Ready
            },
            step => {
                self.step = successor(step);
                Progress::Call(self.next_call())
            },
        }
    }

    /// Computes [`XdpConfigurator::release_of`].
    pub fn release_for(&self, step: ConfigStep) -> (call: Option<KernelCall>)
        ensures
            call == self.release_of(step),
    {
        match step {
            ConfigStep::CreateSocket => Some(KernelCall::CloseSocket { sfd: self.sfd }),
            ConfigStep::AllocateUmem => Some(KernelCall::FreeUmem),
            ConfigStep::MapFillRing => Some(
                KernelCall::UnmapRing { ring: RingKind::Fill, len: self.fill_len },
            ),
            ConfigStep::MapCompletionRing => Some(
                KernelCall::UnmapRing { ring: RingKind::Completion, len: self.completion_len },
            ),
            ConfigStep::MapRxRing => Some(
                KernelCall::UnmapRing { ring: RingKind::Rx, len: self.rx_len },
            ),
            ConfigStep::MapTxRing => Some(
                KernelCall::UnmapRing { ring: RingKind::Tx, len: self.tx_len },
            ),
            _ => None,
        }
    }

    /// Ends the life of the socket: says what to hand back to the kernel,
    /// the latest acquisition first, and closes.
    pub fn teardown(&mut self) -> (calls: Vec<KernelCall>)
        ensures
            calls@ == old(self).release_plan(),
            *final(self) == (XdpConfigurator { state: SocketState::Closed, ..*old(self) }),
    {
        let done: u8 = match self.state {
            SocketState::Configuring => step_ordinal(self.step),
            SocketState::Failed => self.unreleased,
            SocketState::Ready => 16,
            _ => 0,
        };
        let mut calls: Vec<KernelCall> = Vec::new();
        let mut left: u8 = done;
        while left > 0
            invariant
                left <= done,
                calls@ + self.release_upto(left as int) == self.release_upto(done as int),
            decreases left,
        {
            left = left - 1;
            match self.release_for(step_from_ordinal(left)) {
                Some(call) => {
                    calls.push(call);
                    assert(calls@ + self.release_upto(left as int) =~= calls@.drop_last() + (
                    seq![call] + self.release_upto(left as int)));
                },
                None => {},
            }
        }
        assert(calls@ + self.release_upto(0) =~= calls@);
        self.state = SocketState::Closed;
        calls
    }
}

/// Computes [`ordinal`].
pub fn step_ordinal(step: ConfigStep) -> (place: u8)
    ensures
        place == ordinal(step),
{
    match step {
        ConfigStep::CreateSocket => 0,
        ConfigStep::AllocateUmem => 1,
        ConfigStep::RegisterUmem => 2,
        ConfigStep::SetFillRingSize => 3,
        ConfigStep::SetCompletionRingSize => 4,
        ConfigStep::FillRingOffsets => 5,
        ConfigStep::MapFillRing => 6,
        ConfigStep::CompletionRingOffsets => 7,
        ConfigStep::MapCompletionRing => 8,
        ConfigStep::SetRxRingSize => 9,
        ConfigStep::SetTxRingSize => 10,
        ConfigStep::RxRingOffsets => 11,
        ConfigStep::MapRxRing => 12,
        ConfigStep::TxRingOffsets => 13,
        ConfigStep::MapTxRing => 14,
        ConfigStep::Bind => 15,
    }
}

/// Computes [`step_at`].
pub fn step_from_ordinal(place: u8) -> (step: ConfigStep)
    ensures
        step == step_at(place as int),
{
    match place {
        0 => ConfigStep::CreateSocket,
        1 => ConfigStep::AllocateUmem,
        2 => ConfigStep::RegisterUmem,
        3 => ConfigStep::SetFillRingSize,
        4 => ConfigStep::SetCompletionRingSize,
        5 => ConfigStep::FillRingOffsets,
        6 => ConfigStep::MapFillRing,
        7 => ConfigStep::CompletionRingOffsets,
        8 => ConfigStep::MapCompletionRing,
        9 => ConfigStep::SetRxRingSize,
        10 => ConfigStep::SetTxRingSize,
        11 => ConfigStep::RxRingOffsets,
        12 => ConfigStep::MapRxRing,
        13 => ConfigStep::TxRingOffsets,
        14 => ConfigStep::MapTxRing,
        _ => ConfigStep::Bind,
    }
}

} // verus!
