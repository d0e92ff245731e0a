use xdp::configure::XdpConfigurator;
use xdp::error::XdpError;
use xdp::if_xdp::{XdpMmapOffsets, XdpRingOffset};
use xdp::kernel::{teardown_result, KernelReply, Progress, XdpConfig};
use xdp::libbpf::{
    get_map_by_name, load_bpf_program, map_name, BpfHandles, BpfLoader, BpfMap,
    LoaderCall, LoaderProgress, LoaderReply, LoaderState, LoaderStep,
};
use xdp::xdp_sock::{xdp_configure, XdpSocket};

fn reply(code: i32, fd: i32) -> LoaderReply {
    LoaderReply { code, fd }
}

fn loaded() -> BpfLoader {
    let mut loader = BpfLoader::new(4);
    load_bpf_program(&mut loader, &reply(0, 0));
    load_bpf_program(&mut loader, &reply(0, 11));
    load_bpf_program(&mut loader, &reply(0, 12));
    load_bpf_program(&mut loader, &reply(0, 13));
    load_bpf_program(&mut loader, &reply(0, 0));
    assert_eq!(load_bpf_program(&mut loader, &reply(0, 0)), LoaderProgress::Loaded);
    loader
}

fn ready_socket() -> XdpSocket {
    let config = XdpConfig {
        num_frames: 2,
        frame_size: 64,
        frame_headroom: 0,
        fill_descs: 2,
        completion_descs: 2,
        rx_descs: 2,
        tx_descs: 2,
    };
    let nowhere = XdpRingOffset { producer: 0, consumer: 0, desc: 0 };
    let offsets = XdpMmapOffsets { rx: nowhere, tx: nowhere, fr: nowhere, cr: nowhere };
    let mut cfg = XdpConfigurator::new(config, 4, 0).unwrap();
    let mut progress = xdp_configure(&mut cfg, &KernelReply { code: 0, offsets });
    let mut sfd = 21;
    while let Progress::Call(_) = progress {
        progress = xdp_configure(&mut cfg, &KernelReply { code: sfd, offsets });
        sfd = 0;
    }
    assert_eq!(progress, Progress::Ready);
    XdpSocket::new(&mut cfg).unwrap()
}

#[test]
fn load_takes_every_step_in_order() {
    let mut loader = BpfLoader::new(4);
    assert_eq!(loader.state, LoaderState::Idle);
    assert_eq!(BpfHandles::new(&loader), Err(XdpError::NotReady));
    assert_eq!(
        load_bpf_program(&mut loader, &reply(-9, -9)),
        LoaderProgress::Call(LoaderCall::LoadProgram {
            prog_type: 6,
            expected_attach_type: 0,
            ifindex: 0,
            log_level: 0
        })
    );
    assert_eq!(loader.state, LoaderState::Loading);
    assert_eq!(
        load_bpf_program(&mut loader, &reply(0, 11)),
        LoaderProgress::Call(LoaderCall::FindMap { map: BpfMap::QueueConfig })
    );
    assert_eq!(
        load_bpf_program(&mut loader, &reply(0, 12)),
        LoaderProgress::Call(LoaderCall::FindMap { map: BpfMap::Sockets })
    );
    assert_eq!(
        load_bpf_program(&mut loader, &reply(0, 13)),
        LoaderProgress::Call(LoaderCall::AttachProgram { ifindex: 4, prog_fd: 11, xdp_flags: 2 })
    );
    assert_eq!(
        load_bpf_program(&mut loader, &reply(0, 0)),
        LoaderProgress::Call(LoaderCall::UpdateMap { map_fd: 12, key: 0, value: 0, flags: 0 })
    );
    assert_eq!(BpfHandles::new(&loader), Err(XdpError::NotReady));
    assert_eq!(load_bpf_program(&mut loader, &reply(0, 0)), LoaderProgress::Loaded);
    assert_eq!(loader.state, LoaderState::Loaded);
    assert_eq!(
        BpfHandles::new(&loader),
        Ok(BpfHandles { prog_fd: 11, xsks_map: 13, qidconf_map: 12 })
    );
    assert_eq!(load_bpf_program(&mut loader, &reply(-1, -1)), LoaderProgress::Loaded);
}

fn fail_at(step: LoaderStep, bad: LoaderReply) -> (BpfLoader, LoaderProgress) {
    let mut loader = BpfLoader::new(4);
    load_bpf_program(&mut loader, &reply(0, 0));
    let good = [reply(0, 11), reply(0, 12), reply(0, 13), reply(0, 0), reply(0, 0)];
    let mut i = 0;
    while loader.step != step {
        load_bpf_program(&mut loader, &good[i]);
        i += 1;
    }
    let progress = load_bpf_program(&mut loader, &bad);
    (loader, progress)
}

#[test]
fn load_failures() {
    let (loader, p) = fail_at(LoaderStep::LoadProgram, reply(22, 5));
    let error = XdpError::ProgramLoad { stage: LoaderStep::LoadProgram, code: 22 };
    assert_eq!(p, LoaderProgress::Failed(error));
    assert_eq!(loader.state, LoaderState::Failed);
    assert_eq!(BpfHandles::new(&loader), Err(error));

    let (_, p) = fail_at(LoaderStep::LoadProgram, reply(-1, 5));
    assert_eq!(
        p,
        LoaderProgress::Failed(XdpError::ProgramLoad { stage: LoaderStep::LoadProgram, code: -1 })
    );
    let (_, p) = fail_at(LoaderStep::LoadProgram, reply(0, 0));
    assert_eq!(
        p,
        LoaderProgress::Failed(XdpError::ProgramLoad { stage: LoaderStep::LoadProgram, code: 0 })
    );
    let (_, p) = fail_at(LoaderStep::LoadProgram, reply(0, -3));
    assert_eq!(
        p,
        LoaderProgress::Failed(XdpError::ProgramLoad { stage: LoaderStep::LoadProgram, code: -3 })
    );
    let (_, p) = fail_at(LoaderStep::FindQueueConfigMap, reply(0, -2));
    assert_eq!(
        p,
        LoaderProgress::Failed(XdpError::ProgramLoad {
            stage: LoaderStep::FindQueueConfigMap,
            code: -2
        })
    );
    let (_, p) = fail_at(LoaderStep::FindSocketsMap, reply(0, -1));
    assert_eq!(
        p,
        LoaderProgress::Failed(XdpError::ProgramLoad { stage: LoaderStep::FindSocketsMap, code: -1 })
    );
    let (_, p) = fail_at(LoaderStep::AttachProgram, reply(-16, 0));
    assert_eq!(p, LoaderProgress::Failed(XdpError::ProgramAttach { code: -16 }));
    let (mut loader, p) = fail_at(LoaderStep::SelectQueue, reply(1, 0));
    assert_eq!(p, LoaderProgress::Failed(XdpError::MapUpdate { code: 1 }));
    assert_eq!(
        load_bpf_program(&mut loader, &reply(0, 0)),
        LoaderProgress::Failed(XdpError::MapUpdate { code: 1 })
    );
    let (_, p) = fail_at(LoaderStep::SelectQueue, reply(-1, 0));
    assert_eq!(p, LoaderProgress::Failed(XdpError::MapUpdate { code: -1 }));
}

#[test]
fn attach_takes_a_positive_code_as_success() {
    let (loader, p) = fail_at(LoaderStep::AttachProgram, reply(3, 0));
    assert_eq!(
        p,
        LoaderProgress::Call(LoaderCall::UpdateMap { map_fd: 12, key: 0, value: 0, flags: 0 })
    );
    assert_eq!(loader.state, LoaderState::Loading);
}

#[test]
fn maps_by_name() {
    assert_eq!(map_name(BpfMap::QueueConfig), "qidconf_map");
    assert_eq!(map_name(BpfMap::Sockets), "xsks_map");
    assert_eq!(get_map_by_name(BpfMap::Sockets, 0), Ok(0));
    assert_eq!(get_map_by_name(BpfMap::Sockets, 9), Ok(9));
    assert_eq!(
        get_map_by_name(BpfMap::Sockets, -1),
        Err(XdpError::ProgramLoad { stage: LoaderStep::FindSocketsMap, code: -1 })
    );
    assert_eq!(
        get_map_by_name(BpfMap::QueueConfig, -7),
        Err(XdpError::ProgramLoad { stage: LoaderStep::FindQueueConfigMap, code: -7 })
    );
}

#[test]
fn socket_is_registered_under_key_zero() {
    let handles = BpfHandles::new(&loaded()).unwrap();
    let mut sock = ready_socket();
    assert_eq!(sock.sfd, 21);
    assert_eq!(
        handles.register_xdp_sock(&sock),
        Ok(LoaderCall::UpdateMap { map_fd: 13, key: 0, value: 21, flags: 0 })
    );
    assert_eq!(BpfHandles::registered(0), Ok(()));
    assert_eq!(BpfHandles::registered(1), Err(XdpError::MapUpdate { code: 1 }));
    assert_eq!(BpfHandles::registered(-1), Err(XdpError::MapUpdate { code: -1 }));
    sock.close();
    assert_eq!(handles.register_xdp_sock(&sock), Err(XdpError::NotReady));
    assert_eq!(handles.unload(), LoaderCall::Unload);
}

#[test]
fn teardown_reports_a_refusal() {
    assert_eq!(teardown_result(0), Ok(()));
    assert_eq!(teardown_result(4), Ok(()));
    assert_eq!(teardown_result(-1), Err(XdpError::Teardown { code: -1 }));
}
