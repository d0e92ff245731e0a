use xdp::error::XdpError;
use xdp::if_xdp::{XdpUmem, FRAME_SIZE, NUM_FRAMES};
use xdp::kernel::XdpConfig;

fn small_arena() -> XdpUmem {
    let config = XdpConfig {
        num_frames: 4,
        frame_size: 16,
        frame_headroom: 0,
        fill_descs: 2,
        completion_descs: 2,
        rx_descs: 2,
        tx_descs: 2,
    };
    let mut umem = XdpUmem::new(&config, 9);
    for (i, byte) in umem.frames.iter_mut().enumerate() {
        *byte = i as u8;
    }
    umem
}

#[test]
fn fifth_frame_of_the_standard_arena() {
    let config = XdpConfig::standard();
    assert_eq!(config.num_frames, 131072);
    assert_eq!(config.frame_size, 2048);
    let mut umem = XdpUmem::new(&config, 3);
    assert_eq!(umem.frames.len(), 131072 * 2048);
    assert_eq!(umem.frames.len(), NUM_FRAMES * FRAME_SIZE);
    umem.frames[2048 * 5] = 0xAB;
    umem.frames[2048 * 5 + 63] = 0xCD;
    umem.frames[2048 * 5 + 64] = 0xEF;
    let data = umem.get_data(2048 * 5, 64).unwrap();
    assert_eq!(data.len(), 64);
    assert_eq!(data[0], 0xAB);
    assert_eq!(data[1], 0);
    assert_eq!(data[63], 0xCD);
}

#[test]
fn new_arena_is_zeroed_with_seeded_fill_ring() {
    let umem = small_arena();
    assert_eq!(umem.frames.len(), 64);
    assert_eq!(umem.sfd, 9);
    assert_eq!(umem.fq.size, 2);
    assert_eq!(umem.fq.cached_consumer, 2);
    assert_eq!(umem.fq.consumer, 0);
    assert_eq!(umem.cq.size, 2);
    assert_eq!(umem.cq.cached_consumer, 0);
    let config = XdpConfig {
        num_frames: 2,
        frame_size: 8,
        frame_headroom: 0,
        fill_descs: 4,
        completion_descs: 8,
        rx_descs: 2,
        tx_descs: 2,
    };
    let fresh = XdpUmem::new(&config, 1);
    assert_eq!(fresh.frames, vec![0u8; 16]);
    assert_eq!(fresh.fq.size, 4);
    assert_eq!(fresh.cq.size, 8);
}

#[test]
fn get_data_returns_the_bytes_named() {
    let umem = small_arena();
    assert_eq!(umem.get_data(0, 4), Ok(&[0u8, 1, 2, 3][..]));
    assert_eq!(umem.get_data(16, 3), Ok(&[16u8, 17, 18][..]));
    assert_eq!(umem.get_data(60, 4), Ok(&[60u8, 61, 62, 63][..]));
    assert_eq!(umem.get_data(64, 0), Ok(&[][..]));
    assert_eq!(umem.get_data(0, 64).unwrap().len(), 64);
}

#[test]
fn get_data_refuses_what_lies_outside() {
    let umem = small_arena();
    assert_eq!(
        umem.get_data(61, 4),
        Err(XdpError::CorruptDescriptor { addr: 61, len: 4 })
    );
    assert_eq!(
        umem.get_data(65, 0),
        Err(XdpError::CorruptDescriptor { addr: 65, len: 0 })
    );
    assert_eq!(
        umem.get_data(0, 65),
        Err(XdpError::CorruptDescriptor { addr: 0, len: 65 })
    );
    assert_eq!(
        umem.get_data(u64::MAX, u32::MAX),
        Err(XdpError::CorruptDescriptor { addr: u64::MAX, len: u32::MAX })
    );
}
