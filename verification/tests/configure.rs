use xdp::configure::{step_from_ordinal, step_ordinal, XdpConfigurator};
use xdp::error::XdpError;
use xdp::if_xdp::{XdpDesc, XdpMmapOffsets, XdpRingOffset};
use xdp::kernel::{
    checked_ring_map_len, successor, ConfigStep, KernelCall, KernelReply, Progress, RingKind,
    SocketState, XdpConfig,
};
use xdp::xdp_sock::{xdp_configure, XdpSocket};

fn offsets() -> XdpMmapOffsets {
    XdpMmapOffsets {
        rx: XdpRingOffset { producer: 0, consumer: 64, desc: 128 },
        tx: XdpRingOffset { producer: 0, consumer: 64, desc: 192 },
        fr: XdpRingOffset { producer: 0, consumer: 64, desc: 256 },
        cr: XdpRingOffset { producer: 0, consumer: 64, desc: 320 },
    }
}

fn reply(code: i32) -> KernelReply {
    KernelReply { code, offsets: offsets() }
}

fn small_config() -> XdpConfig {
    XdpConfig {
        num_frames: 8,
        frame_size: 64,
        frame_headroom: 0,
        fill_descs: 4,
        completion_descs: 8,
        rx_descs: 16,
        tx_descs: 32,
    }
}

fn good_code(step: ConfigStep) -> i32 {
    match step {
        ConfigStep::CreateSocket => 7,
        _ => 0,
    }
}

/// Runs the configuration with good answers up to `stop`, which is awaited
/// on return.
fn run_to(cfg: &mut XdpConfigurator, stop: ConfigStep) -> Vec<KernelCall> {
    let mut calls = Vec::new();
    let mut progress = xdp_configure(cfg, &reply(0));
    loop {
        match progress {
            Progress::Call(call) => calls.push(call),
            other => panic!("configuration ended early: {:?}", other),
        }
        if cfg.step == stop {
            return calls;
        }
        progress = xdp_configure(cfg, &reply(good_code(cfg.step)));
    }
}

fn ready_configurator(config: XdpConfig) -> XdpConfigurator {
    let mut cfg = XdpConfigurator::new(config, 3, 0).unwrap();
    run_to(&mut cfg, ConfigStep::Bind);
    assert_eq!(xdp_configure(&mut cfg, &reply(0)), Progress::Ready);
    cfg
}

fn ready_socket() -> XdpSocket {
    XdpSocket::new(&mut ready_configurator(small_config())).unwrap()
}

#[test]
fn sizes_must_be_powers_of_two() {
    assert!(XdpConfig::standard().is_valid());
    assert!(small_config().is_valid());
    let mut config = small_config();
    config.rx_descs = 12;
    assert!(!config.is_valid());
    assert!(XdpConfigurator::new(config, 1, 0).is_none());
    let mut config = small_config();
    config.fill_descs = 0;
    assert!(!config.is_valid());
    let mut config = small_config();
    config.num_frames = usize::MAX;
    config.frame_size = 2;
    assert!(!config.is_valid());
    assert_eq!(small_config().umem_bytes(), 512);
    assert_eq!(XdpConfig::standard().umem_bytes(), 268435456);
}

#[test]
fn steps_keep_their_order() {
    let mut step = ConfigStep::CreateSocket;
    for place in 0..16u8 {
        assert_eq!(step_ordinal(step), place);
        assert_eq!(step_from_ordinal(place), step);
        step = successor(step);
    }
    assert_eq!(step, ConfigStep::Bind);
    assert_eq!(step_from_ordinal(200), ConfigStep::Bind);
}

#[test]
fn mapping_length_is_offset_plus_eight_per_slot() {
    assert_eq!(checked_ring_map_len(&offsets(), 1024), Some(256 + 8192));
    assert_eq!(checked_ring_map_len(&offsets(), 4), Some(288));
    let mut far = offsets();
    far.fr.desc = u64::MAX - 7;
    assert_eq!(checked_ring_map_len(&far, 1), None);
    far.fr.desc = u64::MAX - 8;
    assert_eq!(checked_ring_map_len(&far, 1), Some(usize::MAX));
}

#[test]
fn configuration_takes_every_step_in_order() {
    let mut cfg = XdpConfigurator::new(small_config(), 3, 5).unwrap();
    assert_eq!(cfg.state, SocketState::Unconfigured);
    let calls = run_to(&mut cfg, ConfigStep::Bind);
    assert_eq!(cfg.state, SocketState::Configuring);
    assert_eq!(
        calls,
        vec![
            KernelCall::CreateSocket { family: 44 },
            KernelCall::AllocateUmem { len: 512 },
            KernelCall::RegisterUmem {
                sfd: 7,
                level: 283,
                option: 4,
                bytes: 512,
                chunk_size: 64,
                headroom: 0
            },
            KernelCall::SetRingSize { sfd: 7, level: 283, option: 5, num_descs: 4 },
            KernelCall::SetRingSize { sfd: 7, level: 283, option: 6, num_descs: 8 },
            KernelCall::QueryOffsets { sfd: 7, level: 283, option: 1 },
            KernelCall::MapRing {
                sfd: 7,
                ring: RingKind::Fill,
                len: 256 + 4 * 8,
                page_offset: 0x1_0000_0000
            },
            KernelCall::QueryOffsets { sfd: 7, level: 283, option: 1 },
            KernelCall::MapRing {
                sfd: 7,
                ring: RingKind::Completion,
                len: 256 + 8 * 8,
                page_offset: 0x1_8000_0000
            },
            KernelCall::SetRingSize { sfd: 7, level: 283, option: 2, num_descs: 16 },
            KernelCall::SetRingSize { sfd: 7, level: 283, option: 3, num_descs: 32 },
            KernelCall::QueryOffsets { sfd: 7, level: 283, option: 1 },
            KernelCall::MapRing { sfd: 7, ring: RingKind::Rx, len: 256 + 16 * 8, page_offset: 0 },
            KernelCall::QueryOffsets { sfd: 7, level: 283, option: 1 },
            KernelCall::MapRing {
                sfd: 7,
                ring: RingKind::Tx,
                len: 256 + 32 * 8,
                page_offset: 0x8000_0000
            },
            KernelCall::Bind { sfd: 7, sxdp_family: 44, ifindex: 3, queue_id: 5 },
        ]
    );
    assert_eq!(xdp_configure(&mut cfg, &reply(0)), Progress::Ready);
    assert_eq!(cfg.state, SocketState::Ready);
    assert_eq!(cfg.sfd, 7);
    assert_eq!(cfg.fill_offset, offsets().fr);
    assert_eq!(cfg.completion_offset, offsets().cr);
    assert_eq!(cfg.rx_offset, offsets().rx);
    assert_eq!(cfg.tx_offset, offsets().tx);
    assert_eq!(xdp_configure(&mut cfg, &reply(-1)), Progress::Ready);
    assert_eq!(cfg.state, SocketState::Ready);
}

#[test]
fn failed_rx_mapping_unmaps_fill_and_completion() {
    let mut cfg = XdpConfigurator::new(small_config(), 3, 0).unwrap();
    run_to(&mut cfg, ConfigStep::MapRxRing);
    let error = XdpError::Configuration { step: ConfigStep::MapRxRing, code: -1 };
    assert_eq!(
        xdp_configure(&mut cfg, &reply(-1)),
        Progress::Call(KernelCall::UnmapRing { ring: RingKind::Completion, len: 256 + 8 * 8 })
    );
    assert_eq!(cfg.state, SocketState::Failed);
    assert_eq!(cfg.error, error);
    assert_eq!(cfg.step, ConfigStep::MapRxRing);
    assert_eq!(XdpSocket::new(&mut cfg).err(), Some(error));
    assert_eq!(
        xdp_configure(&mut cfg, &reply(0)),
        Progress::Call(KernelCall::UnmapRing { ring: RingKind::Fill, len: 256 + 4 * 8 })
    );
    assert_eq!(xdp_configure(&mut cfg, &reply(0)), Progress::Call(KernelCall::FreeUmem));
    assert_eq!(
        xdp_configure(&mut cfg, &reply(-1)),
        Progress::Call(KernelCall::CloseSocket { sfd: 7 })
    );
    assert_eq!(xdp_configure(&mut cfg, &reply(0)), Progress::Failed(error));
    assert_eq!(xdp_configure(&mut cfg, &reply(0)), Progress::Failed(error));
    assert_eq!(cfg.state, SocketState::Failed);
    assert_eq!(XdpSocket::new(&mut cfg).err(), Some(error));
    assert_eq!(cfg.teardown(), vec![]);
    assert_eq!(cfg.state, SocketState::Closed);
    assert_eq!(xdp_configure(&mut cfg, &reply(0)), Progress::Failed(XdpError::NotReady));
}

#[test]
fn teardown_after_a_failure_hands_back_what_is_left() {
    let mut cfg = XdpConfigurator::new(small_config(), 3, 0).unwrap();
    run_to(&mut cfg, ConfigStep::MapRxRing);
    assert_eq!(
        xdp_configure(&mut cfg, &reply(-1)),
        Progress::Call(KernelCall::UnmapRing { ring: RingKind::Completion, len: 256 + 8 * 8 })
    );
    assert_eq!(
        xdp_configure(&mut cfg, &reply(0)),
        Progress::Call(KernelCall::UnmapRing { ring: RingKind::Fill, len: 256 + 4 * 8 })
    );
    assert_eq!(
        cfg.teardown(),
        vec![
            KernelCall::UnmapRing { ring: RingKind::Fill, len: 256 + 4 * 8 },
            KernelCall::FreeUmem,
            KernelCall::CloseSocket { sfd: 7 },
        ]
    );
    assert_eq!(cfg.state, SocketState::Closed);
    assert_eq!(cfg.teardown(), vec![]);
}

#[test]
fn every_step_fails_fast_with_its_own_tag() {
    for place in 0..16u8 {
        let step = step_from_ordinal(place);
        let mut cfg = XdpConfigurator::new(small_config(), 3, 0).unwrap();
        run_to(&mut cfg, step);
        let code = if step == ConfigStep::AllocateUmem || step == ConfigStep::Bind { 12 } else { -5 };
        let expected = if step == ConfigStep::AllocateUmem {
            XdpError::Allocation { code }
        } else {
            XdpError::Configuration { step, code }
        };
        let mut progress = xdp_configure(&mut cfg, &reply(code));
        assert_eq!(cfg.state, SocketState::Failed);
        assert_eq!(cfg.step, step);
        assert_eq!(cfg.error, expected);
        assert!(XdpSocket::new(&mut cfg).is_err());
        let mut released = Vec::new();
        while let Progress::Call(call) = progress {
            released.push(call);
            progress = xdp_configure(&mut cfg, &reply(0));
        }
        assert_eq!(progress, Progress::Failed(expected));
        let mapped: usize = [6u8, 8, 12, 14].iter().filter(|p| **p < place).count();
        let expected_len = mapped + usize::from(place > 1) + usize::from(place > 0);
        assert_eq!(released.len(), expected_len);
        if place > 0 {
            assert_eq!(released.last(), Some(&KernelCall::CloseSocket { sfd: 7 }));
        }
        assert!(released.iter().all(|call| matches!(
            call,
            KernelCall::UnmapRing { .. } | KernelCall::FreeUmem | KernelCall::CloseSocket { .. }
        )));
        assert_eq!(cfg.teardown(), vec![]);
    }
}

#[test]
fn what_counts_as_a_failure() {
    let mut cfg = XdpConfigurator::new(small_config(), 3, 0).unwrap();
    run_to(&mut cfg, ConfigStep::CreateSocket);
    assert_eq!(
        xdp_configure(&mut cfg, &reply(-2)),
        Progress::Failed(XdpError::Configuration { step: ConfigStep::CreateSocket, code: -2 })
    );

    let mut cfg = XdpConfigurator::new(small_config(), 3, 0).unwrap();
    run_to(&mut cfg, ConfigStep::CreateSocket);
    assert_eq!(
        xdp_configure(&mut cfg, &reply(0)),
        Progress::Call(KernelCall::AllocateUmem { len: 512 })
    );
    assert_eq!(cfg.sfd, 0);
    assert_eq!(
        xdp_configure(&mut cfg, &reply(-12)),
        Progress::Call(KernelCall::CloseSocket { sfd: 0 })
    );
    assert_eq!(cfg.error, XdpError::Allocation { code: -12 });
    assert_eq!(
        xdp_configure(&mut cfg, &reply(0)),
        Progress::Failed(XdpError::Allocation { code: -12 })
    );

    let mut cfg = XdpConfigurator::new(small_config(), 3, 0).unwrap();
    run_to(&mut cfg, ConfigStep::RegisterUmem);
    assert!(matches!(
        xdp_configure(&mut cfg, &reply(5)),
        Progress::Call(KernelCall::SetRingSize { .. })
    ));
    assert_eq!(cfg.state, SocketState::Configuring);

    let mut cfg = XdpConfigurator::new(small_config(), 3, 0).unwrap();
    run_to(&mut cfg, ConfigStep::Bind);
    xdp_configure(&mut cfg, &reply(-1));
    assert_eq!(cfg.state, SocketState::Failed);
    assert_eq!(cfg.error, XdpError::Configuration { step: ConfigStep::Bind, code: -1 });

    let mut cfg = XdpConfigurator::new(small_config(), 3, 0).unwrap();
    run_to(&mut cfg, ConfigStep::TxRingOffsets);
    let mut far = reply(0);
    far.offsets.fr.desc = u64::MAX;
    xdp_configure(&mut cfg, &far);
    assert_eq!(cfg.state, SocketState::Failed);
    assert_eq!(cfg.error, XdpError::Configuration { step: ConfigStep::TxRingOffsets, code: 0 });
}

#[test]
fn ready_socket_hands_everything_back() {
    let mut cfg = ready_configurator(small_config());
    let mut sock = XdpSocket::new(&mut cfg).unwrap();
    assert_eq!(cfg.state, SocketState::Closed);
    assert_eq!(cfg.teardown(), vec![]);
    assert_eq!(XdpSocket::new(&mut cfg).err(), Some(XdpError::NotReady));
    assert!(sock.is_well_formed());
    assert_eq!(sock.sfd, 7);
    assert_eq!(sock.umem.sfd, 7);
    assert_eq!(sock.rx.size, 16);
    assert_eq!(sock.rx.cached_consumer, 0);
    assert_eq!(sock.tx.size, 32);
    assert_eq!(sock.tx.cached_consumer, 32);
    assert_eq!(sock.umem.fq.size, 4);
    assert_eq!(sock.umem.fq.cached_consumer, 4);
    assert_eq!(sock.umem.cq.size, 8);
    assert_eq!(sock.umem.cq.cached_consumer, 0);
    assert_eq!(sock.umem.frames, vec![0u8; 512]);
    let calls = sock.close();
    assert_eq!(
        calls,
        vec![
            KernelCall::UnmapRing { ring: RingKind::Tx, len: 256 + 32 * 8 },
            KernelCall::UnmapRing { ring: RingKind::Rx, len: 256 + 16 * 8 },
            KernelCall::UnmapRing { ring: RingKind::Completion, len: 256 + 8 * 8 },
            KernelCall::UnmapRing { ring: RingKind::Fill, len: 256 + 4 * 8 },
            KernelCall::FreeUmem,
            KernelCall::CloseSocket { sfd: 7 },
        ]
    );
    assert_eq!(sock.setup.state, SocketState::Closed);
    assert_eq!(sock.read_batch(4), Err(XdpError::NotReady));
    assert_eq!(sock.transmit_batch(&[]), Err(XdpError::NotReady));
}

#[test]
fn no_socket_before_the_configuration_is_done() {
    let mut cfg = XdpConfigurator::new(small_config(), 3, 0).unwrap();
    assert_eq!(XdpSocket::new(&mut cfg).err(), Some(XdpError::NotReady));
    run_to(&mut cfg, ConfigStep::SetTxRingSize);
    assert_eq!(XdpSocket::new(&mut cfg).err(), Some(XdpError::NotReady));
    assert_eq!(
        cfg.teardown(),
        vec![
            KernelCall::UnmapRing { ring: RingKind::Completion, len: 256 + 8 * 8 },
            KernelCall::UnmapRing { ring: RingKind::Fill, len: 256 + 4 * 8 },
            KernelCall::FreeUmem,
            KernelCall::CloseSocket { sfd: 7 },
        ]
    );
}

#[test]
fn read_batch_hands_out_the_frames() {
    let mut sock = ready_socket();
    assert_eq!(sock.read_batch(128), Ok(vec![]));
    assert_eq!(sock.rx.consumer, 0);
    for (i, byte) in sock.umem.frames.iter_mut().enumerate() {
        *byte = (i % 251) as u8;
    }
    sock.rx.ring[0] = XdpDesc { addr: 64, len: 3, options: 0 };
    sock.rx.ring[1] = XdpDesc { addr: 128, len: 2, options: 0 };
    sock.rx.ring[2] = XdpDesc { addr: 510, len: 2, options: 0 };
    sock.rx.producer = 3;
    let frames = sock.read_batch(2).unwrap();
    assert_eq!(frames, vec![&[64u8, 65, 66][..], &[128u8, 129][..]]);
    assert_eq!(sock.rx.consumer, 2);
    let frames = sock.read_batch(128).unwrap();
    assert_eq!(frames, vec![&[8u8, 9][..]]);
    assert_eq!(sock.rx.consumer, 3);
    assert_eq!(sock.rx.cached_consumer, 3);
}

#[test]
fn read_batch_reports_the_first_corrupt_descriptor() {
    let mut sock = ready_socket();
    sock.rx.ring[0] = XdpDesc { addr: 0, len: 4, options: 0 };
    sock.rx.ring[1] = XdpDesc { addr: 500, len: 13, options: 0 };
    sock.rx.ring[2] = XdpDesc { addr: 9000, len: 1, options: 0 };
    sock.rx.producer = 3;
    assert_eq!(
        sock.read_batch(16),
        Err(XdpError::CorruptDescriptor { addr: 500, len: 13 })
    );
    assert_eq!(sock.rx.consumer, 3);
    assert_eq!(sock.read_batch(16), Ok(vec![]));
}

#[test]
fn transmit_batch_goes_to_the_tx_ring() {
    let mut sock = ready_socket();
    let descs: Vec<XdpDesc> =
        (0..32).map(|i| XdpDesc { addr: 64 * (i % 8), len: 60, options: 0 }).collect();
    assert_eq!(sock.transmit_batch(&descs[..30]), Ok(()));
    assert_eq!(sock.tx.producer, 30);
    assert_eq!(sock.tx.ring[29], XdpDesc { addr: 64 * 5, len: 60, options: 0 });
    assert_eq!(
        sock.transmit_batch(&descs[..3]),
        Err(XdpError::InsufficientSpace { available: 2, requested: 3 })
    );
    assert_eq!(sock.tx.producer, 30);
    assert_eq!(sock.rx.producer, 0);
    sock.tx.consumer = 30;
    assert_eq!(sock.transmit_batch(&descs[..3]), Ok(()));
    assert_eq!(sock.tx.producer, 33);
}

#[test]
fn recycle_offers_whole_frames_only() {
    let mut sock = ready_socket();
    assert_eq!(sock.recycle(&[0, 64, 448]), Ok(()));
    assert_eq!(sock.umem.fq.producer, 3);
    assert_eq!(sock.umem.fq.ring[0], XdpDesc { addr: 0, len: 0, options: 0 });
    assert_eq!(sock.umem.fq.ring[1], XdpDesc { addr: 64, len: 0, options: 0 });
    assert_eq!(sock.umem.fq.ring[2], XdpDesc { addr: 448, len: 0, options: 0 });
    assert_eq!(
        sock.recycle(&[128, 100]),
        Err(XdpError::CorruptDescriptor { addr: 100, len: 64 })
    );
    assert_eq!(
        sock.recycle(&[512]),
        Err(XdpError::CorruptDescriptor { addr: 512, len: 64 })
    );
    assert_eq!(sock.umem.fq.producer, 3);
    assert_eq!(
        sock.recycle(&[128, 192]),
        Err(XdpError::InsufficientSpace { available: 1, requested: 2 })
    );
    assert_eq!(sock.umem.fq.producer, 3);
    sock.umem.fq.consumer = 2;
    assert_eq!(sock.recycle(&[128, 192]), Ok(()));
    assert_eq!(sock.umem.fq.producer, 5);
    assert_eq!(sock.umem.fq.ring[0], XdpDesc { addr: 192, len: 0, options: 0 });
    sock.close();
    assert_eq!(sock.recycle(&[0]), Err(XdpError::NotReady));
}

#[test]
fn reclaim_takes_completed_frames() {
    let mut sock = ready_socket();
    assert_eq!(sock.reclaim(8), Ok(vec![]));
    sock.umem.cq.ring[0].addr = 64;
    sock.umem.cq.ring[1].addr = 320;
    sock.umem.cq.ring[2].addr = 0;
    sock.umem.cq.producer = 3;
    assert_eq!(sock.reclaim(2), Ok(vec![64, 320]));
    assert_eq!(sock.umem.cq.consumer, 2);
    assert_eq!(sock.reclaim(2), Ok(vec![0]));
    assert_eq!(sock.umem.cq.consumer, 3);
    sock.close();
    assert_eq!(sock.reclaim(2), Err(XdpError::NotReady));
}

#[test]
fn frame_size_matches_its_shift() {
    assert_eq!(xdp::if_xdp::FRAME_SIZE, 1 << xdp::if_xdp::FRAME_SHIFT);
    assert_eq!(xdp::if_xdp::BATCH_SIZE, 16);
    assert_eq!(xdp::if_xdp::SOL_XDP, 283);
    assert_eq!(xdp::if_xdp::PF_XDP, 44);
}
