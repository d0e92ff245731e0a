//! What holds of a configuration over its whole run.

use vstd::prelude::*;
use crate::configure::XdpConfigurator;
use crate::error::XdpError;
use crate::kernel::{
    ordinal, step_at, ConfigStep, KernelCall, KernelReply, Progress, SocketState,
};

verus! {

/// The configurator after it was handed the answers one by one.
pub open spec fn run(cfg: XdpConfigurator, replies: Seq<KernelReply>) -> XdpConfigurator
    decreases replies.len(),
{
    if replies.len() == 0 {
        cfg
    } else {
        run(cfg, replies.drop_last()).advanced(replies.last())
    }
}

/// Every step has its place in the order, and no two share one.
pub proof fn lemma_steps_are_ordered(step: ConfigStep)
    ensures
        0 <= ordinal(step) <= 15,
        step_at(ordinal(step)) == step,
{
}

/// A step never touches the sizes, the interface or the queue.
pub proof fn lemma_step_keeps_parameters(cfg: XdpConfigurator, reply: KernelReply)
    ensures
        cfg.advanced(reply).config == cfg.config,
        cfg.advanced(reply).interface_index == cfg.interface_index,
        cfg.advanced(reply).queue_id == cfg.queue_id,
        cfg.wf() ==> cfg.advanced(reply).wf(),
{
    lemma_plan_unfolds(cfg, cfg.unreleased as int);
}

/// Ready and closed are final: no answer changes anything in a configurator
/// that is in one of them.
pub proof fn lemma_end_states_are_final(cfg: XdpConfigurator, reply: KernelReply)
    requires
        cfg.state == SocketState::Ready || cfg.state == SocketState::Closed,
    ensures
        cfg.advanced(reply) == cfg,
{
}

/// Failed is final too: no answer moves a configurator out of it, or changes
/// its error. All that changes is how much is still held.
pub proof fn lemma_failed_stays_failed(cfg: XdpConfigurator, reply: KernelReply)
    requires
        cfg.state == SocketState::Failed,
    ensures
        cfg.advanced(reply) == (XdpConfigurator {
            unreleased: cfg.advanced(reply).unreleased,
            ..cfg
        }),
        cfg.advanced(reply).unreleased <= cfg.unreleased,
        cfg.wf() ==> cfg.advanced(reply).wf(),
{
    lemma_plan_unfolds(cfg, cfg.unreleased as int);
}

/// What is to be handed back begins with the release of the latest
/// acquisition and goes on with what is to be handed back below it.
pub proof fn lemma_plan_unfolds(cfg: XdpConfigurator, done: int)
    ensures
        match cfg.top_release(done) {
            Some((call, below)) => 0 <= below < done && cfg.release_upto(done) == seq![call]
                + cfg.release_upto(below),
            None => cfg.release_upto(done) == Seq::<KernelCall>::empty(),
        },
    decreases done,
{
    if done > 0 {
        lemma_plan_unfolds(cfg, done - 1);
    }
}

/// A socket becomes ready by a good answer to the bind, and in no other way.
pub proof fn lemma_ready_only_by_bind(cfg: XdpConfigurator, reply: KernelReply)
    requires
        cfg.state != SocketState::Ready,
    ensures
        cfg.advanced(reply).state == SocketState::Ready <==> (cfg.state == SocketState::Configuring
            && cfg.step is Bind && reply.code == 0),
{
}

/// A step that fails ends the configuration at once: the configurator is
/// failed, the error names the step and carries the kernel's code, and what
/// is to be handed back is what the steps before it acquired. The caller is
/// told to hand that back first, and the error at once only where nothing
/// was acquired.
pub proof fn lemma_failure_names_its_step(cfg: XdpConfigurator, reply: KernelReply)
    requires
        cfg.state == SocketState::Configuring,
        cfg.fails(reply),
    ensures
        cfg.advanced(reply).state == SocketState::Failed,
        cfg.advanced(reply).step == cfg.step,
        cfg.advanced(reply).error == (if cfg.step is AllocateUmem {
            XdpError::Allocation { code: reply.code }
        } else {
            XdpError::Configuration { step: cfg.step, code: reply.code }
        }),
        cfg.advanced(reply).release_plan() == cfg.release_upto(ordinal(cfg.step)),
        cfg.advanced(reply).progress() == (if cfg.release_upto(ordinal(cfg.step)).len() > 0 {
            Progress::Call(cfg.release_upto(ordinal(cfg.step))[0])
        } else {
            Progress::Failed(cfg.advanced(reply).error)
        }),
{
    let failed = cfg.advanced(reply);
    lemma_release_ignores_state(cfg, failed, ordinal(cfg.step));
    lemma_plan_unfolds(failed, ordinal(cfg.step));
}

/// Everything is handed back before the error is told.
///
/// After a failure the calls that the caller is told to make are exactly
/// those that hand back what is held, in their order, one for each answer;
/// the error comes after the last of them, and stays.
pub proof fn lemma_releases_precede_error(cfg: XdpConfigurator, replies: Seq<KernelReply>)
    requires
        cfg.state == SocketState::Failed,
    ensures
        ({
            let plan = cfg.release_plan();
            let after = run(cfg, replies);
            &&& after.state == SocketState::Failed
            &&& after.error == cfg.error
            &&& after.step == cfg.step
            &&& replies.len() <= plan.len() ==> after.release_plan() == plan.skip(
                replies.len() as int,
            )
            &&& replies.len() < plan.len() ==> after.progress() == Progress::Call(
                plan[replies.len() as int],
            )
            &&& replies.len() >= plan.len() ==> after.progress() == Progress::Failed(cfg.error)
                && after.release_plan().len() == 0
        }),
    decreases replies.len(),
{
    let plan = cfg.release_plan();
    if replies.len() > 0 {
        lemma_releases_precede_error(cfg, replies.drop_last());
        let before = run(cfg, replies.drop_last());
        let after = before.advanced(replies.last());
        lemma_failed_stays_failed(before, replies.last());
        lemma_plan_unfolds(before, before.unreleased as int);
        lemma_release_ignores_state(before, after, after.unreleased as int);
        lemma_plan_unfolds(after, after.unreleased as int);
        if replies.len() <= plan.len() {
            let held = before.release_plan();
            assert(held == plan.skip(replies.len() - 1));
            assert(held.len() > 0);
            assert(before.top_release(before.unreleased as int) is Some);
            assert(held == seq![held[0]] + after.release_plan());
            assert(after.release_plan() =~= held.skip(1));
            assert(held.skip(1) =~= plan.skip(replies.len() as int));
            if replies.len() < plan.len() {
                assert(plan.skip(replies.len() as int)[0] == plan[replies.len() as int]);
            }
        }
    } else {
        lemma_plan_unfolds(cfg, cfg.unreleased as int);
        assert(plan.skip(0) =~= plan);
    }
}

/// What is handed back depends on the socket and the mapping lengths alone.
pub proof fn lemma_release_ignores_state(a: XdpConfigurator, b: XdpConfigurator, done: int)
    requires
        a.sfd == b.sfd,
        a.fill_len == b.fill_len,
        a.completion_len == b.completion_len,
        a.rx_len == b.rx_len,
        a.tx_len == b.tx_len,
    ensures
        a.release_upto(done) == b.release_upto(done),
        a.top_release(done) == b.top_release(done),
    decreases done,
{
    if done > 0 {
        lemma_release_ignores_state(a, b, done - 1);
    }
}

/// Nothing leaks and nothing is handed back twice: the release of what a
/// step acquired is among the calls for the first `done` steps exactly when
/// the step is one of them.
pub proof fn lemma_release_covers_acquired(cfg: XdpConfigurator, done: int, step: ConfigStep)
    requires
        0 <= done <= 16,
        cfg.release_of(step) is Some,
    ensures
        cfg.release_upto(done).contains(cfg.release_of(step)->Some_0) <==> ordinal(step) < done,
    decreases done,
{
    let wanted = cfg.release_of(step)->Some_0;
    if done > 0 {
        lemma_release_covers_acquired(cfg, done - 1, step);
        let rest = cfg.release_upto(done - 1);
        let latest = step_at(done - 1);
        match cfg.release_of(latest) {
            Some(call) => {
                let plan = seq![call] + rest;
                assert(plan[0] == call);
                assert forall|i: int| 0 <= i < rest.len() implies plan[i + 1] == rest[i] by {}
                if rest.contains(wanted) {
                    let i = choose|i: int| 0 <= i < rest.len() && rest[i] == wanted;
                    assert(plan[i + 1] == wanted);
                }
                if plan.contains(wanted) && !rest.contains(wanted) {
                    let i = choose|i: int| 0 <= i < plan.len() && plan[i] == wanted;
                    if i > 0 {
                        assert(rest[i - 1] == wanted);
                    }
                }
            },
            None => {},
        }
    }
}

/// The steps are taken in their order: a configuration that has been handed
/// `count` answers and is still under way awaits the answer to step
/// `count - 1`, the first answer being the one that set it going.
pub proof fn lemma_steps_in_order(
    config: crate::kernel::XdpConfig,
    interface_index: u32,
    queue_id: u32,
    replies: Seq<KernelReply>,
)
    ensures
        ({
            let cfg = run(XdpConfigurator::initial(config, interface_index, queue_id), replies);
            &&& cfg.state == SocketState::Unconfigured <==> replies.len() == 0
            &&& cfg.state == SocketState::Configuring ==> 1 <= replies.len() <= 16 && cfg.step
                == step_at(replies.len() - 1)
            &&& cfg.state == SocketState::Ready ==> replies.len() >= 17
            &&& cfg.state == SocketState::Failed ==> replies.len() >= 2
            &&& cfg.state != SocketState::Closed
        }),
    decreases replies.len(),
{
    if replies.len() > 0 {
        lemma_steps_in_order(config, interface_index, queue_id, replies.drop_last());
    }
}

/// Once a socket is ready or closed, whatever answers follow change nothing.
pub proof fn lemma_end_is_for_good(cfg: XdpConfigurator, replies: Seq<KernelReply>)
    requires
        cfg.state == SocketState::Ready || cfg.state == SocketState::Closed,
    ensures
        run(cfg, replies) == cfg,
    decreases replies.len(),
{
    if replies.len() > 0 {
        lemma_end_is_for_good(cfg, replies.drop_last());
    }
}

/// The answers after the first are all good: none of them fails the step
/// that it answers.
pub open spec fn all_good(cfg: XdpConfigurator, replies: Seq<KernelReply>) -> bool {
    forall|k: int| 1 <= k < replies.len() ==> !(#[trigger] run(cfg, replies.take(k))).fails(replies[k])
}

/// Success is owed: a configuration that is set going and then handed a good
/// answer to each of its sixteen steps is ready.
pub proof fn lemma_good_answers_make_ready(
    config: crate::kernel::XdpConfig,
    interface_index: u32,
    queue_id: u32,
    replies: Seq<KernelReply>,
)
    requires
        replies.len() == 17,
        all_good(XdpConfigurator::initial(config, interface_index, queue_id), replies),
    ensures
        run(XdpConfigurator::initial(config, interface_index, queue_id), replies).state
            == SocketState::Ready,
{
    let start = XdpConfigurator::initial(config, interface_index, queue_id);
    lemma_good_prefix_is_under_way(start, replies, 16);
    assert(replies.take(17) == replies);
    assert(replies.take(17).drop_last() == replies.take(16));
}

/// After the first `count` of good answers the configuration awaits the
/// answer to step `count - 1`.
pub proof fn lemma_good_prefix_is_under_way(
    start: XdpConfigurator,
    replies: Seq<KernelReply>,
    count: int,
)
    requires
        start.state == SocketState::Unconfigured,
        all_good(start, replies),
        1 <= count <= 16,
        count <= replies.len(),
    ensures
        run(start, replies.take(count)).state == SocketState::Configuring,
        run(start, replies.take(count)).step == step_at(count - 1),
    decreases count,
{
    assert(replies.take(count).drop_last() == replies.take(count - 1));
    if count > 1 {
        lemma_good_prefix_is_under_way(start, replies, count - 1);
        assert(!run(start, replies.take(count - 1)).fails(replies[count - 1]));
    } else {
        assert(replies.take(0).len() == 0);
    }
}

} // verus!
