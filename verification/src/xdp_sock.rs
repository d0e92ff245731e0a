//! The socket: the frame arena and the four rings under one kernel handle.

use vstd::prelude::*;
use crate::configure::XdpConfigurator;
use crate::error::XdpError;
use crate::if_xdp::{xdp_umem_configure, XdpDesc, XdpUmem, XdpUmemUqueue};
use crate::kernel::{
    checked_ring_map_len, ConfigStep, KernelCall, KernelReply, Progress, SocketState,
};
use crate::ring_model::RingView;

verus! {

/// A configured socket.
///
/// `rx` brings the descriptors of received packets, `tx` takes those of
/// packets to send, `umem` holds the frames that both speak of. `setup`
/// keeps what the configuration acquired, for the day it is handed back.
pub struct XdpSocket {
    pub rx: XdpUmemUqueue,
    pub tx: XdpUmemUqueue,
    pub sfd: i32,
    pub umem: XdpUmem,
    pub setup: XdpConfigurator,
}

/// The fill-ring entries that offer the frames at `addrs`.
pub open spec fn offers(addrs: Seq<u64>) -> Seq<XdpDesc> {
    Seq::new(addrs.len(), |i: int| XdpDesc { addr: addrs[i], len: 0, options: 0 })
}

impl XdpSocket {
    /// The rings are well formed and the configured sizes can be used.
    pub open spec fn wf(&self) -> bool {
        &&& self.rx.wf()
        &&& self.tx.wf()
        &&& self.umem.wf()
        &&& self.setup.wf()
    }

    /// Decides whether the socket is well formed.
    pub fn is_well_formed(&self) -> (r: bool)
        ensures
            r == self.wf(),
    {
        self.rx.is_well_formed() && self.tx.is_well_formed() && self.umem.fq.is_well_formed()
            && self.umem.cq.is_well_formed() && self.setup.is_well_formed()
    }

    /// Whether packets may be moved.
    pub open spec fn is_ready(&self) -> bool {
        self.setup.state == SocketState::Ready
    }

    /// Whether `addr` is where a frame of the arena starts.
    pub open spec fn is_frame_address(&self, addr: u64) -> bool {
        let frame_size = self.setup.config.frame_size;
        &&& frame_size > 0
        &&& addr % (frame_size as u64) == 0
        &&& addr + frame_size <= self.umem.frames@.len()
    }

    /// Whether each of the addresses is where a frame of the arena starts.
    pub open spec fn all_frame_addresses(&self, addrs: Seq<u64>) -> bool {
        forall|i: int| 0 <= i < addrs.len() ==> self.is_frame_address(#[trigger] addrs[i])
    }

    /// Whether the descriptor lies inside the frame arena.
    pub open spec fn holds(&self, desc: XdpDesc) -> bool {
        self.umem.holds(desc.addr, desc.len)
    }

    /// The socket that a finished configuration stands for.
    ///
    /// There is one only when every step went through. The socket takes over
    /// what the configuration acquired, and the configurator is left closed
    /// with nothing to hand back. The rings come as the kernel hands them
    /// out, with the caches of the two rings that the process produces
    /// showing the whole ring free. A configuration that is not ready is left
    /// as it is.
    pub fn new(cfg: &mut XdpConfigurator) -> (r: Result<Self, XdpError>)
        requires
            old(cfg).wf(),
        ensures
            r is Ok <==> old(cfg).state == SocketState::Ready,
            r is Err ==> *final(cfg) == *old(cfg) && r->Err_0 == (if old(cfg).state
                == SocketState::Failed {
                old(cfg).error
            } else {
                XdpError::NotReady
            }),
            r matches Ok(sock) ==> {
                &&& *final(cfg) == (XdpConfigurator { state: SocketState::Closed, ..*old(cfg) })
                &&& sock.wf()
                &&& sock.is_ready()
                &&& sock.setup == *old(cfg)
                &&& sock.sfd == old(cfg).sfd
                &&& sock.umem.sfd == old(cfg).sfd
                &&& sock.rx@ == XdpUmemUqueue::fresh(old(cfg).config.rx_descs)
                &&& sock.tx@ == (RingView {
                    cached_consumer: old(cfg).config.tx_descs,
                    ..XdpUmemUqueue::fresh(old(cfg).config.tx_descs)
                })
                &&& sock.umem.fq@ == (RingView {
                    cached_consumer: old(cfg).config.fill_descs,
                    ..XdpUmemUqueue::fresh(old(cfg).config.fill_descs)
                })
                &&& sock.umem.cq@ == XdpUmemUqueue::fresh(old(cfg).config.completion_descs)
                &&& sock.umem.frames@ == Seq::new(
                    old(cfg).config.umem_len() as nat,
                    |i: int| 0u8,
                )
            },
    {
        match cfg.state {
            SocketState::Ready => {},
            SocketState::Failed => {
                return Err(cfg.error);
            },
            _ => {
                return Err(XdpError::NotReady);
            },
        }
        let umem = XdpUmem::new(&cfg.config, cfg.sfd);
        let rx = XdpUmemUqueue::zeroed(cfg.config.rx_descs);
        let mut tx = XdpUmemUqueue::zeroed(cfg.config.tx_descs);
        tx.seed_cached_consumer();
        let setup = XdpConfigurator {
            config: cfg.config,
            interface_index: cfg.interface_index,
            queue_id: cfg.queue_id,
            state: cfg.state,
            step: cfg.step,
            sfd: cfg.sfd,
            fill_offset: cfg.fill_offset,
            completion_offset: cfg.completion_offset,
            rx_offset: cfg.rx_offset,
            tx_offset: cfg.tx_offset,
            fill_len: cfg.fill_len,
            completion_len: cfg.completion_len,
            rx_len: cfg.rx_len,
            tx_len: cfg.tx_len,
            error: cfg.error,
            unreleased: cfg.unreleased,
        };
        cfg.state = SocketState::Closed;
        Ok(XdpSocket { rx, tx, sfd: setup.sfd, umem, setup })
    }

    /// Receives up to `batch_size` packets.
    ///
    /// Takes a batch off the RX ring, releases it, and looks up the bytes of
    /// each of its descriptors in the frame arena. With nothing to receive
    /// the result is empty. A descriptor that reaches outside the arena makes
    /// the call fail with the first such descriptor; the batch is consumed
    /// all the same. On a socket that is not ready nothing happens.
    #[verifier::loop_isolation(false)]
    pub fn read_batch<'a>(&'a mut self, batch_size: u32) -> (r: Result<Vec<&'a [u8]>, XdpError>)
        requires
            old(self).wf(),
        ensures
            final(self).wf(),
            final(self).tx@ == old(self).tx@,
            final(self).umem.frames@ == old(self).umem.frames@,
            final(self).umem.fq@ == old(self).umem.fq@,
            final(self).umem.cq@ == old(self).umem.cq@,
            final(self).sfd == old(self).sfd,
            final(self).setup == old(self).setup,
            !old(self).is_ready() ==> r == Err::<Vec<&[u8]>, XdpError>(XdpError::NotReady)
                && final(self).rx@ == old(self).rx@,
            old(self).is_ready() ==> {
                let descs = old(self).rx@.rx_batch(batch_size);
                &&& final(self).rx@ == old(self).rx@.rx_dequeued(batch_size)
                &&& r is Ok <==> forall|i: int| 0 <= i < descs.len() ==> old(self).holds(descs[i])
                &&& r matches Ok(frames) ==> {
                    &&& frames@.len() == descs.len()
                    &&& forall|i: int|
                        0 <= i < descs.len() ==> (#[trigger] frames@[i])@ == old(self).umem.frames@.subrange(
                            descs[i].addr as int,
                            descs[i].addr + descs[i].len,
                        )
                }
                &&& r matches Err(e) ==> exists|i: int|
                    {
                        &&& 0 <= i < descs.len()
                        &&& !old(self).holds(#[trigger] descs[i])
                        &&& forall|j: int| 0 <= j < i ==> old(self).holds(descs[j])
                        &&& e == (XdpError::CorruptDescriptor {
                            addr: descs[i].addr,
                            len: descs[i].len,
                        })
                    }
            },
    {
        match self.setup.state {
            SocketState::Ready => {},
            _ => {
                return Err(XdpError::NotReady);
            },
        }
        let descs = self.rx.rx_take(batch_size);
        let this: &'a XdpSocket = &*self;
        let mut frames: Vec<&'a [u8]> = Vec::new();
        let mut i: usize = 0;
        while i < descs.len()
            invariant
                i <= descs.len(),
                frames@.len() == i,
                forall|j: int| 0 <= j < i ==> this.holds(descs@[j]),
                forall|j: int|
                    0 <= j < i ==> (#[trigger] frames@[j])@ == this.umem.frames@.subrange(
                        descs@[j].addr as int,
                        descs@[j].addr + descs@[j].len,
                    ),
            decreases descs.len() - i,
        {
            match this.umem.get_data(descs[i].addr, descs[i].len) {
                Ok(data) => {
                    frames.push(data);
                },
                Err(e) => {
                    proof {
                        let taken = old(self).rx@.rx_batch(batch_size);
                        assert(descs@ == taken);
                        assert(!old(self).holds(taken[i as int]));
                    }
                    return Err(e);
                },
            }
            i = i + 1;
        }
        Ok(frames)
    }

    /// Puts the whole batch on the TX ring, or nothing of it: see
    /// [`XdpUmemUqueue::tx_enqueue`]. On a socket that is not ready nothing
    /// happens.
    pub fn transmit_batch(&mut self, descs: &[XdpDesc]) -> (r: Result<(), XdpError>)
        requires
            old(self).wf(),
        ensures
            final(self).wf(),
            final(self).rx@ == old(self).rx@,
            final(self).umem.frames@ == old(self).umem.frames@,
            final(self).umem.fq@ == old(self).umem.fq@,
            final(self).umem.cq@ == old(self).umem.cq@,
            final(self).sfd == old(self).sfd,
            final(self).setup == old(self).setup,
            !old(self).is_ready() ==> r == Err::<(), XdpError>(XdpError::NotReady) && final(self).tx@ == old(self).tx@,
            old(self).is_ready() ==> {
                &&& final(self).tx@ == old(self).tx@.tx_enqueued(descs@)
                &&& r is Ok <==> old(self).tx@.tx_has_room(descs@.len())
                &&& r is Err ==> r == Err::<(), XdpError>(
                    XdpError::InsufficientSpace {
                        available: old(self).tx@.tx_available(descs@.len() as u32) as usize,
                        requested: descs@.len() as usize,
                    },
                )
            },
    {
        match self.setup.state {
            SocketState::Ready => {},
            _ => {
                return Err(XdpError::NotReady);
            },
        }
        self.tx.tx_enqueue(descs)
    }

    /// Offers frames to the kernel for packets to come, by their addresses.
    ///
    /// Every address must be the start of a frame of the arena; the first
    /// one that is not makes the call fail, and nothing is offered. Otherwise
    /// the addresses go onto the fill ring, all of them or none: see
    /// [`XdpUmemUqueue::tx_enqueue`]. On a socket that is not ready nothing
    /// happens.
    #[verifier::loop_isolation(false)]
    pub fn recycle(&mut self, addrs: &[u64]) -> (r: Result<(), XdpError>)
        requires
            old(self).wf(),
        ensures
            final(self).wf(),
            final(self).rx@ == old(self).rx@,
            final(self).tx@ == old(self).tx@,
            final(self).umem.frames@ == old(self).umem.frames@,
            final(self).umem.cq@ == old(self).umem.cq@,
            final(self).sfd == old(self).sfd,
            final(self).setup == old(self).setup,
            !old(self).is_ready() ==> r == Err::<(), XdpError>(XdpError::NotReady)
                && final(self).umem.fq@ == old(self).umem.fq@,
            old(self).is_ready() && !old(self).all_frame_addresses(addrs@) ==> {
                &&& final(self).umem.fq@ == old(self).umem.fq@
                &&& exists|i: int|
                    {
                        &&& 0 <= i < addrs@.len()
                        &&& !old(self).is_frame_address(#[trigger] addrs@[i])
                        &&& old(self).all_frame_addresses(addrs@.take(i))
                        &&& r == Err::<(), XdpError>(
                            XdpError::CorruptDescriptor {
                                addr: addrs@[i],
                                len: old(self).setup.config.frame_size,
                            },
                        )
                    }
            },
            old(self).is_ready() && old(self).all_frame_addresses(addrs@) ==> {
                &&& final(self).umem.fq@ == old(self).umem.fq@.tx_enqueued(offers(addrs@))
                &&& r is Ok <==> old(self).umem.fq@.tx_has_room(addrs@.len())
                &&& r is Err ==> r == Err::<(), XdpError>(
                    XdpError::InsufficientSpace {
                        available: old(self).umem.fq@.tx_available(addrs@.len() as u32) as usize,
                        requested: addrs@.len() as usize,
                    },
                )
            },
    {
        match self.setup.state {
            SocketState::Ready => {},
            _ => {
                return Err(XdpError::NotReady);
            },
        }
        let frame_size = self.setup.config.frame_size;
        let arena = self.umem.frames.len() as u64;
        let mut descs: Vec<XdpDesc> = Vec::new();
        let mut i: usize = 0;
        while i < addrs.len()
            invariant
                i <= addrs.len(),
                frame_size == self.setup.config.frame_size,
                arena == self.umem.frames@.len(),
                self.all_frame_addresses(addrs@.take(i as int)),
                descs@ == offers(addrs@.take(i as int)),
            decreases addrs.len() - i,
        {
            let addr = addrs[i];
            if frame_size == 0 || addr % (frame_size as u64) != 0 || addr > arena
                || frame_size as u64 > arena - addr {
                assert(!self.is_frame_address(addrs@[i as int]));
                return Err(XdpError::CorruptDescriptor { addr, len: frame_size });
            }
            descs.push(XdpDesc { addr, len: 0, options: 0 });
            i = i + 1;
            assert(addrs@.take(i as int).drop_last() == addrs@.take(i - 1));
            assert(descs@ =~= offers(addrs@.take(i as int)));
        }
        assert(addrs@.take(addrs@.len() as int) == addrs@);
        self.umem.fq.tx_enqueue(descs.as_slice())
    }

    /// Takes back the frames of up to `max` packets that the kernel has sent:
    /// their addresses come off the completion ring, which is released at
    /// once. On a socket that is not ready nothing happens.
    pub fn reclaim(&mut self, max: u32) -> (r: Result<Vec<u64>, XdpError>)
        requires
            old(self).wf(),
        ensures
            final(self).wf(),
            final(self).rx@ == old(self).rx@,
            final(self).tx@ == old(self).tx@,
            final(self).umem.frames@ == old(self).umem.frames@,
            final(self).umem.fq@ == old(self).umem.fq@,
            final(self).sfd == old(self).sfd,
            final(self).setup == old(self).setup,
            r is Ok <==> old(self).is_ready(),
            r is Err ==> r == Err::<Vec<u64>, XdpError>(XdpError::NotReady)
                && final(self).umem.cq@ == old(self).umem.cq@,
            r matches Ok(addrs) ==> {
                let descs = old(self).umem.cq@.rx_batch(max);
                &&& final(self).umem.cq@ == old(self).umem.cq@.rx_dequeued(max)
                &&& addrs@.len() == descs.len()
                &&& forall|i: int| 0 <= i < descs.len() ==> addrs@[i] == descs[i].addr
            },
    {
        match self.setup.state {
            SocketState::Ready => {},
            _ => {
                return Err(XdpError::NotReady);
            },
        }
        let descs = self.umem.cq.rx_take(max);
        let mut addrs: Vec<u64> = Vec::new();
        let mut i: usize = 0;
        while i < descs.len()
            invariant
                i <= descs.len(),
                addrs@.len() == i,
                forall|j: int| 0 <= j < i ==> addrs@[j] == descs@[j].addr,
            decreases descs.len() - i,
        {
            addrs.push(descs[i].addr);
            i = i + 1;
        }
        Ok(addrs)
    }

    /// Closes the socket: says what to hand back to the kernel, the latest
    /// acquisition first. No packet can be moved afterwards.
    pub fn close(&mut self) -> (calls: Vec<KernelCall>)
        ensures
            calls@ == old(self).setup.release_plan(),
            final(self).setup == (XdpConfigurator {
                state: SocketState::Closed,
                ..old(self).setup
            }),
            final(self).rx@ == old(self).rx@,
            final(self).tx@ == old(self).tx@,
            final(self).umem.frames@ == old(self).umem.frames@,
            final(self).umem.fq@ == old(self).umem.fq@,
            final(self).umem.cq@ == old(self).umem.cq@,
            final(self).sfd == old(self).sfd,
    {
        self.setup.teardown()
    }
}

/// One step of the configuration of a socket.
///
/// Takes the kernel's answer to the awaited call and says how to go on: with
/// the next call, with the news that the socket is ready, or with the error
/// that ended the configuration. The steps are the creation of the socket,
/// those of [`xdp_umem_configure`], the sizing and the mapping of the RX and
/// the TX ring, and the bind. After a failure the calls that follow hand
/// back, one by one and the latest first, what the steps before it acquired;
/// the error comes when nothing is held any more. See
/// [`XdpConfigurator::advanced`].
pub fn xdp_configure(cfg: &mut XdpConfigurator, reply: &KernelReply) -> (p: Progress)
    requires
        old(cfg).wf(),
    ensures
        *final(cfg) == old(cfg).advanced(*reply),
        p == final(cfg).progress(),
        final(cfg).wf(),
{
    match cfg.state {
        SocketState::Unconfigured => {
            cfg.state = SocketState::Configuring;
            cfg.step = ConfigStep::CreateSocket;
            return cfg.current_progress();
        },
        SocketState::Configuring => {},
        SocketState::Failed => {
            match cfg.next_release() {
                Some((_, below)) => {
                    cfg.unreleased = below;
                },
                None => {},
            }
            return cfg.current_progress();
        },
        _ => {
            return cfg.current_progress();
        },
    }
    match cfg.step {
        ConfigStep::CreateSocket => {
            if reply.code < 0 {
                cfg.fail(reply)
            } else {
                cfg.sfd = reply.code;
                cfg.proceed()
            }
        },
        ConfigStep::SetRxRingSize
        | ConfigStep::SetTxRingSize
        | ConfigStep::MapRxRing
        | ConfigStep::MapTxRing => {
            if reply.code < 0 {
                cfg.fail(reply)
            } else {
                cfg.proceed()
            }
        },
        ConfigStep::RxRingOffsets => {
            if reply.code < 0 {
                return cfg.fail(reply);
            }
            match checked_ring_map_len(&reply.offsets, cfg.config.rx_descs) {
                None => cfg.fail(reply),
                Some(len) => {
                    cfg.rx_offset = reply.offsets.rx;
                    cfg.rx_len = len;
                    cfg.proceed()
                },
            }
        },
        ConfigStep::TxRingOffsets => {
            if reply.code < 0 {
                return cfg.fail(reply);
            }
            match checked_ring_map_len(&reply.offsets, cfg.config.tx_descs) {
                None => cfg.fail(reply),
                Some(len) => {
                    cfg.tx_offset = reply.offsets.tx;
                    cfg.tx_len = len;
                    cfg.proceed()
                },
            }
        },
        ConfigStep::Bind => {
            if reply.code != 0 {
                cfg.fail(reply)
            } else {
                cfg.proceed()
            }
        },
        _ => xdp_umem_configure(cfg, reply),
    }
}

} // verus!
