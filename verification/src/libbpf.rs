//! The boundary to the loader of the dispatch program.
//!
//! The program that steers packets to the socket, and its two tables, are
//! loaded by calls that the library does not make. It says which call comes
//! next and judges what came back, as it does for the socket itself.

use vstd::prelude::*;
use crate::error::XdpError;
use crate::xdp_sock::XdpSocket;

verus! {

/// Program type of a program that runs on received packets.
pub const BPF_PROG_TYPE_XDP: u32 = 6;

/// Attach type that a load asks for.
pub const BPF_CGROUP_INET_INGRESS: u32 = 0;

/// Attach flag: run the program in the generic path of the network stack.
pub const XDP_FLAGS_SKB_MODE: u32 = 2;

/// The two tables of the dispatch program.
#[derive(Clone, Copy, Debug, PartialEq, Eq, Structural)]
pub enum BpfMap {
    /// Which hardware queue is steered to a socket.
    QueueConfig,
    /// The sockets that packets are steered to.
    Sockets,
}

/// The steps of a load, in the order in which they are taken.
#[derive(Clone, Copy, Debug, PartialEq, Eq, Structural)]
pub enum LoaderStep {
    LoadProgram,
    FindQueueConfigMap,
    FindSocketsMap,
    AttachProgram,
    SelectQueue,
}

/// Where a load stands.
#[derive(Clone, Copy, Debug, PartialEq, Eq, Structural)]
pub enum LoaderState {
    /// Nothing was asked for yet.
    Idle,
    /// The load is under way.
    Loading,
    /// Every step went through.
    Loaded,
    /// A step failed.
    Failed,
}

/// A call to make to the loader.
#[derive(Clone, Copy, Debug, PartialEq, Eq, Structural)]
pub enum LoaderCall {
    /// Load the program from its object file.
    LoadProgram { prog_type: u32, expected_attach_type: u32, ifindex: i32, log_level: i32 },
    /// Find a table of the loaded program and get its handle.
    FindMap { map: BpfMap },
    /// Attach the program to the interface.
    AttachProgram { ifindex: i32, prog_fd: i32, xdp_flags: u32 },
    /// Write one entry of a table.
    UpdateMap { map_fd: i32, key: i32, value: i32, flags: u64 },
    /// Unload the program.
    Unload,
}

/// What came back from a call: its return code, and the handle that it
/// yielded where it yields one (the program after a load, the table after a
/// lookup).
#[derive(Clone, Copy, Debug, PartialEq, Eq, Structural)]
pub struct LoaderReply {
    pub code: i32,
    pub fd: i32,
}

/// How a load goes on after a step.
#[derive(Clone, Copy, Debug, PartialEq, Eq, Structural)]
pub enum LoaderProgress {
    /// Make this call and come back with what it returned.
    Call(LoaderCall),
    /// The program is loaded and attached.
    Loaded,
    /// The load has ended with this error.
    Failed(XdpError),
}

/// A load of the dispatch program on its way.
#[derive(Debug, PartialEq, Eq, Structural)]
pub struct BpfLoader {
    /// The interface to attach to.
    pub interface_id: u32,
    /// Where the load stands.
    pub state: LoaderState,
    /// The step whose answer is awaited; after a failure, the step that
    /// failed.
    pub step: LoaderStep,
    /// The handles gathered so far.
    pub prog_fd: i32,
    pub qidconf_map: i32,
    pub xsks_map: i32,
    /// Why the load failed, after it did.
    pub error: XdpError,
}

/// The handles of a loaded dispatch program.
#[derive(Debug, PartialEq, Eq, Structural)]
pub struct BpfHandles {
    pub prog_fd: i32,
    pub xsks_map: i32,
    pub qidconf_map: i32,
}

/// The name under which a table stands in the object file.
pub fn map_name(map: BpfMap) -> (name: &'static str)
    ensures
        name@ == (match map {
            BpfMap::QueueConfig => "qidconf_map"@,
            BpfMap::Sockets => "xsks_map"@,
        }),
{
    match map {
        BpfMap::QueueConfig => "qidconf_map",
        BpfMap::Sockets => "xsks_map",
    }
}

/// Judges the handle that a lookup of a table returned: a negative one means
/// that the program has no such table.
pub fn get_map_by_name(map: BpfMap, fd: i32) -> (r: Result<i32, XdpError>)
    ensures
        r is Ok <==> fd >= 0,
        r is Ok ==> r == Ok::<i32, XdpError>(fd),
        r is Err ==> r == Err::<i32, XdpError>(
            XdpError::ProgramLoad { stage: lookup_step(map), code: fd },
        ),
{
    if fd < 0 {
        let step = match map {
            BpfMap::QueueConfig => LoaderStep::FindQueueConfigMap,
            BpfMap::Sockets => LoaderStep::FindSocketsMap,
        };
        return Err(XdpError::ProgramLoad { stage: step, code: fd });
    }
    Ok(fd)
}

/// The step that looks a table up.
pub open spec fn lookup_step(map: BpfMap) -> LoaderStep {
    match map {
        BpfMap::QueueConfig => LoaderStep::FindQueueConfigMap,
        BpfMap::Sockets => LoaderStep::FindSocketsMap,
    }
}

impl BpfLoader {
    /// A load that has not begun.
    pub open spec fn initial(interface_id: u32) -> Self {
        BpfLoader {
            interface_id,
            state: LoaderState::Idle,
            step: LoaderStep::LoadProgram,
            prog_fd: 0,
            qidconf_map: -1i32,
            xsks_map: -1i32,
            error: XdpError::NotReady,
        }
    }

    /// Whether the answer means that the awaited step failed.
    ///
    /// A load fails with any code but zero, and with a program handle that is
    /// not positive. A lookup fails with a negative handle, an attach with a
    /// negative code, a write to a table with any code but zero.
    pub open spec fn fails(self, reply: LoaderReply) -> bool {
        match self.step {
            LoaderStep::LoadProgram => reply.code != 0 || reply.fd <= 0,
            LoaderStep::FindQueueConfigMap | LoaderStep::FindSocketsMap => reply.fd < 0,
            LoaderStep::AttachProgram => reply.code < 0,
            LoaderStep::SelectQueue => reply.code != 0,
        }
    }

    /// The error that a failure of the awaited step is reported as.
    pub open spec fn failure(self, reply: LoaderReply) -> XdpError {
        match self.step {
            LoaderStep::LoadProgram => XdpError::ProgramLoad {
                stage: self.step,
                code: if reply.code != 0 {
                    reply.code
                } else {
                    reply.fd
                },
            },
            LoaderStep::FindQueueConfigMap | LoaderStep::FindSocketsMap => XdpError::ProgramLoad {
                stage: self.step,
                code: reply.fd,
            },
            LoaderStep::AttachProgram => XdpError::ProgramAttach { code: reply.code },
            LoaderStep::SelectQueue => XdpError::MapUpdate { code: reply.code },
        }
    }

    /// The load after an answer.
    ///
    /// Idle, it begins with the first step, whatever the answer holds. While
    /// loading, a failure ends the load with the step that failed; a good
    /// answer is taken in and leads to the next step, or after the last one
    /// to the loaded state. In every other state nothing changes.
    pub open spec fn advanced(self, reply: LoaderReply) -> Self {
        match self.state {
            LoaderState::Idle => BpfLoader {
                state: LoaderState::Loading,
                step: LoaderStep::LoadProgram,
                ..self
            },
            LoaderState::Loading => {
                if self.fails(reply) {
                    BpfLoader { state: LoaderState::Failed, error: self.failure(reply), ..self }
                } else {
                    match self.step {
                        LoaderStep::LoadProgram => BpfLoader {
                            step: LoaderStep::FindQueueConfigMap,
                            prog_fd: reply.fd,
                            ..self
                        },
                        LoaderStep::FindQueueConfigMap => BpfLoader {
                            step: LoaderStep::FindSocketsMap,
                            qidconf_map: reply.fd,
                            ..self
                        },
                        LoaderStep::FindSocketsMap => BpfLoader {
                            step: LoaderStep::AttachProgram,
                            xsks_map: reply.fd,
                            ..self
                        },
                        LoaderStep::AttachProgram => BpfLoader {
                            step: LoaderStep::SelectQueue,
                            ..self
                        },
                        LoaderStep::SelectQueue => BpfLoader {
                            state: LoaderState::Loaded,
                            ..self
                        },
                    }
                }
            },
            _ => self,
        }
    }

    /// The call that the awaited step makes.
    pub open spec fn call(self) -> LoaderCall {
        match self.step {
            LoaderStep::LoadProgram => LoaderCall::LoadProgram {
                prog_type: BPF_PROG_TYPE_XDP,
                expected_attach_type: BPF_CGROUP_INET_INGRESS,
                ifindex: 0,
                log_level: 0,
            },
            LoaderStep::FindQueueConfigMap => LoaderCall::FindMap { map: BpfMap::QueueConfig },
            LoaderStep::FindSocketsMap => LoaderCall::FindMap { map: BpfMap::Sockets },
            LoaderStep::AttachProgram => LoaderCall::AttachProgram {
                ifindex: self.interface_id as i32,
                prog_fd: self.prog_fd,
                xdp_flags: XDP_FLAGS_SKB_MODE,
            },
            LoaderStep::SelectQueue => LoaderCall::UpdateMap {
                map_fd: self.qidconf_map,
                key: 0,
                value: 0,
                flags: 0,
            },
        }
    }

    /// What the caller is told to do in the state reached.
    pub open spec fn progress(self) -> LoaderProgress {
        match self.state {
            LoaderState::Loading => LoaderProgress::Call(self.call()),
            LoaderState::Loaded => LoaderProgress::Loaded,
            LoaderState::Failed => LoaderProgress::Failed(self.error),
            LoaderState::Idle => LoaderProgress::Failed(XdpError::NotReady),
        }
    }

    /// A load for the interface, not yet begun.
    pub fn new(interface_id: u32) -> (loader: Self)
        ensures
            loader == Self::initial(interface_id),
    {
        BpfLoader {
            interface_id,
            state: LoaderState::Idle,
            step: LoaderStep::LoadProgram,
            prog_fd: 0,
            qidconf_map: -1,
            xsks_map: -1,
            error: XdpError::NotReady,
        }
    }

    /// The call that the awaited step makes.
    pub fn next_call(&self) -> (call: LoaderCall)
        ensures
            call == self.call(),
    {
        match self.step {
            LoaderStep::LoadProgram => LoaderCall::LoadProgram {
                prog_type: BPF_PROG_TYPE_XDP,
                expected_attach_type: BPF_CGROUP_INET_INGRESS,
                ifindex: 0,
                log_level: 0,
            },
            LoaderStep::FindQueueConfigMap => LoaderCall::FindMap { map: BpfMap::QueueConfig },
            LoaderStep::FindSocketsMap => LoaderCall::FindMap { map: BpfMap::Sockets },
            LoaderStep::AttachProgram => LoaderCall::AttachProgram {
                ifindex: #[verifier::truncate]
                (self.interface_id as i32),
                prog_fd: self.prog_fd,
                xdp_flags: XDP_FLAGS_SKB_MODE,
            },
            LoaderStep::SelectQueue => LoaderCall::UpdateMap {
                map_fd: self.qidconf_map,
                key: 0,
                value: 0,
                flags: 0,
            },
        }
    }

    /// Ends the load with the given error.
    fn fail(&mut self, error: XdpError) -> (p: LoaderProgress)
        ensures
            *final(self) == (BpfLoader { state: LoaderState::Failed, error, ..*old(self) }),
            p == LoaderProgress::Failed(error),
    {
        self.state = LoaderState::Failed;
        self.error = error;
        LoaderProgress::Failed(error)
    }
}

/// One step of the load of the dispatch program: its loading, the lookup of
/// its two tables, its attachment to the interface, and the entry that steers
/// queue 0.
///
/// Takes what the awaited call returned and says how to go on. See
/// [`BpfLoader::advanced`].
pub fn load_bpf_program(loader: &mut BpfLoader, reply: &LoaderReply) -> (p: LoaderProgress)
    ensures
        *final(loader) == old(loader).advanced(*reply),
        p == final(loader).progress(),
{
    match loader.state {
        LoaderState::Idle => {
            loader.state = LoaderState::Loading;
            loader.step = LoaderStep::LoadProgram;
            return LoaderProgress::Call(loader.next_call());
        },
        LoaderState::Loading => {},
        LoaderState::Loaded => {
            return LoaderProgress::Loaded;
        },
        LoaderState::Failed => {
            return LoaderProgress::Failed(loader.error);
        },
    }
    match loader.step {
        LoaderStep::LoadProgram => {
            if reply.code != 0 {
                return loader.fail(
                    XdpError::ProgramLoad { stage: LoaderStep::LoadProgram, code: reply.code },
                );
            }
            if reply.fd <= 0 {
                return loader.fail(
                    XdpError::ProgramLoad { stage: LoaderStep::LoadProgram, code: reply.fd },
                );
            }
            loader.prog_fd = reply.fd;
            loader.step = LoaderStep::FindQueueConfigMap;
        },
        LoaderStep::FindQueueConfigMap => {
            match get_map_by_name(BpfMap::QueueConfig, reply.fd) {
                Ok(fd) => {
                    loader.qidconf_map = fd;
                    loader.step = LoaderStep::FindSocketsMap;
                },
                Err(error) => {
                    return loader.fail(error);
                },
            }
        },
        LoaderStep::FindSocketsMap => {
            match get_map_by_name(BpfMap::Sockets, reply.fd) {
                Ok(fd) => {
                    loader.xsks_map = fd;
                    loader.step = LoaderStep::AttachProgram;
                },
                Err(error) => {
                    return loader.fail(error);
                },
            }
        },
        LoaderStep::AttachProgram => {
            if reply.code < 0 {
                return loader.fail(XdpError::ProgramAttach { code: reply.code });
            }
            loader.step = LoaderStep::SelectQueue;
        },
        LoaderStep::SelectQueue => {
            if reply.code != 0 {
                return loader.fail(XdpError::MapUpdate { code: reply.code });
            }
            loader.state = LoaderState::Loaded;
            return LoaderProgress::Loaded;
        },
    }
    LoaderProgress::Call(loader.next_call())
}

impl BpfHandles {
    /// The handles that a finished load has gathered. There are none unless
    /// every step went through.
    pub fn new(loader: &BpfLoader) -> (r: Result<Self, XdpError>)
        ensures
            r is Ok <==> loader.state == LoaderState::Loaded,
            r matches Ok(handles) ==> handles == (BpfHandles {
                prog_fd: loader.prog_fd,
                xsks_map: loader.xsks_map,
                qidconf_map: loader.qidconf_map,
            }),
            r is Err ==> r->Err_0 == (if loader.state == LoaderState::Failed {
                loader.error
            } else {
                XdpError::NotReady
            }),
    {
        match loader.state {
            LoaderState::Loaded => Ok(
                BpfHandles {
                    prog_fd: loader.prog_fd,
                    xsks_map: loader.xsks_map,
                    qidconf_map: loader.qidconf_map,
                },
            ),
            LoaderState::Failed => Err(loader.error),
            _ => Err(XdpError::NotReady),
        }
    }

    /// The call that enters the socket into the table of sockets, under key
    /// 0, so that the packets which the program picks reach its RX ring.
    /// There is none for a socket that is not ready.
    pub fn register_xdp_sock(&self, sock: &XdpSocket) -> (r: Result<LoaderCall, XdpError>)
        ensures
            r is Ok <==> sock.is_ready(),
            r is Ok ==> r == Ok::<LoaderCall, XdpError>(
                LoaderCall::UpdateMap { map_fd: self.xsks_map, key: 0, value: sock.sfd, flags: 0 },
            ),
            r is Err ==> r == Err::<LoaderCall, XdpError>(XdpError::NotReady),
    {
        match sock.setup.state {
            crate::kernel::SocketState::Ready => Ok(
                LoaderCall::UpdateMap { map_fd: self.xsks_map, key: 0, value: sock.sfd, flags: 0 },
            ),
            _ => Err(XdpError::NotReady),
        }
    }

    /// Judges what the write of the socket's entry returned: any code but
    /// zero is a failure.
    pub fn registered(code: i32) -> (r: Result<(), XdpError>)
        ensures
            r is Ok <==> code == 0,
            r is Err ==> r == Err::<(), XdpError>(XdpError::MapUpdate { code }),
    {
        if code != 0 {
            return Err(XdpError::MapUpdate { code });
        }
        Ok(())
    }

    /// The call that gives the program up.
    pub fn unload(self) -> (call: LoaderCall)
        ensures
            call == LoaderCall::Unload,
    {
        LoaderCall::Unload
    }
}

/// Loaded and failed are final: no answer changes a load that has ended.
pub proof fn lemma_load_end_is_final(loader: BpfLoader, reply: LoaderReply)
    requires
        loader.state == LoaderState::Loaded || loader.state == LoaderState::Failed,
    ensures
        loader.advanced(reply) == loader,
{
}

/// A program counts as loaded by a good answer to the entry that selects the
/// queue, the last step, and in no other way.
pub proof fn lemma_loaded_only_by_last_step(loader: BpfLoader, reply: LoaderReply)
    requires
        loader.state != LoaderState::Loaded,
    ensures
        loader.advanced(reply).state == LoaderState::Loaded <==> (loader.state
            == LoaderState::Loading && loader.step is SelectQueue && reply.code == 0),
{
}

/// A step that fails ends the load at once, with an error of the kind that
/// belongs to the step: one of the load for the loading and the two lookups,
/// one of the attachment for the attach, one of a table for the entry.
pub proof fn lemma_load_failure_names_its_step(loader: BpfLoader, reply: LoaderReply)
    requires
        loader.state == LoaderState::Loading,
        loader.fails(reply),
    ensures
        loader.advanced(reply).state == LoaderState::Failed,
        loader.advanced(reply).step == loader.step,
        loader.advanced(reply).progress() == LoaderProgress::Failed(loader.advanced(reply).error),
        match loader.step {
            LoaderStep::AttachProgram => loader.advanced(reply).error is ProgramAttach,
            LoaderStep::SelectQueue => loader.advanced(reply).error is MapUpdate,
            _ => loader.advanced(reply).error matches XdpError::ProgramLoad { stage, .. }
                && stage == loader.step,
        },
{
}

} // verus!
