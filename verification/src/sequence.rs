use crate::configuration::resolved;
use crate::configuration::ConfigError;
use crate::domain::is_email_address;
use crate::environment::environment_of;
use crate::identifier::is_identifier;
use crate::provision::Mode;
use crate::startup::initial;
use crate::startup::is_bound;
use crate::startup::is_configured;
use crate::startup::next;
use crate::startup::Action;
use crate::startup::AssemblyError;
use crate::startup::BootstrapError;
use crate::startup::BootstrapView;
use crate::startup::EventView;
use crate::startup::Stage;
use vstd::prelude::*;

verus! {

/// What one step is fed: the event reported, and the database name that a
/// test would be given at that step.
pub struct Input {
    pub event: EventView,
    pub fresh: Seq<char>,
}

/// Where a start stands after the first `n` of the given inputs.
pub open spec fn state_after(s: BootstrapView, inputs: Seq<Input>, n: int) -> BootstrapView
    decreases n,
{
    if n <= 0 {
        s
    } else {
        next(state_after(s, inputs, n - 1), inputs[n - 1].event, inputs[n - 1].fresh).0
    }
}

/// What a start asks for in answer to input `i`.
pub open spec fn action_at(s: BootstrapView, inputs: Seq<Input>, i: int) -> Action {
    next(state_after(s, inputs, i), inputs[i].event, inputs[i].fresh).1
}

/// How far a stage is along the sequence of a start.
pub open spec fn stage_rank(stage: Stage) -> int {
    match stage {
        Stage::ReadingSources => 0,
        Stage::Provisioning => 1,
        Stage::Binding => 2,
        Stage::Starting => 3,
        Stage::Migrating => 4,
        Stage::Ready => 5,
        Stage::Failed => 6,
    }
}

/// The place of an action in the sequence of a start.
pub open spec fn action_rank(action: Action) -> int {
    match action {
        Action::ReadSources => 0,
        Action::Provision => 1,
        Action::Bind => 2,
        Action::StartServer => 3,
        Action::Migrate => 4,
        Action::Release => 5,
        Action::Abort => 6,
        Action::Nothing => 7,
    }
}

/// A start that has nothing done yet is consistent.
pub proof fn lemma_initial_consistent(mode: Mode)
    ensures
        initial(mode).consistent(),
{
}

/// No step leads a consistent start to an inconsistent one.
pub proof fn lemma_step_consistent(s: BootstrapView, event: EventView, fresh: Seq<char>)
    requires
        s.consistent(),
    ensures
        next(s, event, fresh).0.consistent(),
{
}

/// Every state a start passes through is consistent: settings that are in
/// use are valid, a test's database name has the generated shape, and once
/// a listener is bound its port is not 0 and the sender is an address.
pub proof fn lemma_always_consistent(mode: Mode, inputs: Seq<Input>, n: int)
    requires
        0 <= n <= inputs.len(),
    ensures
        state_after(initial(mode), inputs, n).consistent(),
    decreases n,
{
    if n > 0 {
        lemma_always_consistent(mode, inputs, n - 1);
        lemma_step_consistent(
            state_after(initial(mode), inputs, n - 1),
            inputs[n - 1].event,
            inputs[n - 1].fresh,
        );
    }
}

/// A start that is over stays as it is: after success or failure, no event
/// changes it and nothing more is asked for.
pub proof fn lemma_over_is_over(s: BootstrapView, inputs: Seq<Input>, n: int)
    requires
        s.stage == Stage::Ready || s.stage == Stage::Failed,
        0 <= n <= inputs.len(),
    ensures
        state_after(s, inputs, n) == s,
        n < inputs.len() ==> action_at(s, inputs, n) == Action::Nothing,
    decreases n,
{
    if n > 0 {
        lemma_over_is_over(s, inputs, n - 1);
    }
}

/// Failing is final: once a step has failed, the failure stays the same
/// and every later answer is `Nothing`.
pub proof fn lemma_failure_is_final(s: BootstrapView, inputs: Seq<Input>, k: int, n: int)
    requires
        0 <= k <= n <= inputs.len(),
        state_after(s, inputs, k).stage == Stage::Failed,
    ensures
        state_after(s, inputs, n) == state_after(s, inputs, k),
        n < inputs.len() ==> action_at(s, inputs, n) == Action::Nothing,
    decreases n - k,
{
    if n > k {
        lemma_failure_is_final(s, inputs, k, n - 1);
    }
}

/// The steps of a start come in their fixed order and none comes twice:
/// each answer other than `Nothing` stands later in the sequence than the
/// stage it was given in, and than every earlier answer.
pub proof fn lemma_actions_in_order(s: BootstrapView, inputs: Seq<Input>, i: int, j: int)
    requires
        0 <= i < j < inputs.len(),
        action_at(s, inputs, j) != Action::Nothing,
    ensures
        action_at(s, inputs, i) != Action::Nothing,
        action_rank(action_at(s, inputs, i)) < action_rank(action_at(s, inputs, j)),
        action_rank(action_at(s, inputs, i)) == stage_rank(state_after(s, inputs, i + 1).stage),
{
    lemma_rank_grows(s, inputs, i + 1, j);
    let at_i = state_after(s, inputs, i);
    let at_j = state_after(s, inputs, j);
    assert(state_after(s, inputs, i + 1) == next(at_i, inputs[i].event, inputs[i].fresh).0);
    assert(at_j.stage != Stage::Ready && at_j.stage != Stage::Failed);
}

/// A start never goes back: the stage after more inputs is no earlier, and
/// an answer other than `Nothing` is the mark of a stage left behind.
pub proof fn lemma_rank_grows(s: BootstrapView, inputs: Seq<Input>, k: int, n: int)
    requires
        0 <= k <= n <= inputs.len(),
    ensures
        stage_rank(state_after(s, inputs, k).stage) <= stage_rank(state_after(s, inputs, n).stage),
        n < inputs.len() && action_at(s, inputs, n) != Action::Nothing ==> stage_rank(
            state_after(s, inputs, n).stage,
        ) < action_rank(action_at(s, inputs, n)) && action_rank(action_at(s, inputs, n))
            == stage_rank(state_after(s, inputs, n + 1).stage),
    decreases n - k,
{
    if n > k {
        lemma_rank_grows(s, inputs, k, n - 1);
    }
    if n < inputs.len() {
        assert(state_after(s, inputs, n + 1) == next(
            state_after(s, inputs, n),
            inputs[n].event,
            inputs[n].fresh,
        ).0);
    }
}

/// An environment selector outside the known set fails the start with
/// `ConfigError::InvalidEnvironment`, whatever else the sources hold, and no
/// listener is ever asked for: the one answer that is not `Nothing` is
/// `Abort`.
pub proof fn lemma_unknown_environment_binds_nothing(mode: Mode, inputs: Seq<Input>, n: int)
    requires
        0 < n <= inputs.len(),
        inputs[0].event is SourcesRead,
        environment_of(inputs[0].event->selector) is None,
    ensures
        state_after(initial(mode), inputs, n).stage == Stage::Failed,
        state_after(initial(mode), inputs, n).failure == Some(
            BootstrapError::Config(ConfigError::InvalidEnvironment),
        ),
        action_at(initial(mode), inputs, 0) == Action::Abort,
        forall|i: int|
            0 <= i < inputs.len() ==> #[trigger] action_at(initial(mode), inputs, i)
                != Action::Bind,
{
    let s = initial(mode);
    assert(state_after(s, inputs, 0) == s);
    assert(state_after(s, inputs, 1) == next(s, inputs[0].event, inputs[0].fresh).0);
    lemma_failure_is_final(s, inputs, 1, n);
    assert forall|i: int| 0 <= i < inputs.len() implies #[trigger] action_at(s, inputs, i)
        != Action::Bind by {
        if i > 0 {
            lemma_failure_is_final(s, inputs, 1, i);
        }
    }
}

/// Whether a start still has a sender that is no address, or has failed.
pub open spec fn lacks_sender(s: BootstrapView) -> bool {
    ||| s.stage == Stage::Failed
    ||| (s.stage == Stage::Provisioning || s.stage == Stage::Binding) && s.settings is Some
        && !is_email_address(s.settings.unwrap().email_client.sender_email)
}

proof fn lemma_lacks_sender(s: BootstrapView, inputs: Seq<Input>, k: int, n: int)
    requires
        0 <= k <= n <= inputs.len(),
        lacks_sender(state_after(s, inputs, k)),
    ensures
        lacks_sender(state_after(s, inputs, n)),
        n < inputs.len() ==> action_at(s, inputs, n) != Action::StartServer && action_at(
            s,
            inputs,
            n,
        ) != Action::Migrate && action_at(s, inputs, n) != Action::Release,
        n < inputs.len() && state_after(s, inputs, n).stage == Stage::Binding
            && inputs[n].event is Bound && inputs[n].event->port != 0 ==> state_after(
            s,
            inputs,
            n + 1,
        ).failure == Some(BootstrapError::Assembly(AssemblyError::InvalidSenderAddress)),
    decreases n - k,
{
    if n > k {
        lemma_lacks_sender(s, inputs, k, n - 1);
    }
    if n < inputs.len() {
        assert(state_after(s, inputs, n + 1) == next(
            state_after(s, inputs, n),
            inputs[n].event,
            inputs[n].fresh,
        ).0);
    }
}

/// A sender that does not have the shape of an address lets no server
/// start: whatever is reported, the start never asks for the server, the
/// migrations or the release, and where it gets as far as a bound listener
/// it fails there with `AssemblyError::InvalidSenderAddress`.
pub proof fn lemma_invalid_sender_starts_no_server(mode: Mode, inputs: Seq<Input>)
    requires
        inputs.len() > 0,
        inputs[0].event is SourcesRead,
        resolved(inputs[0].event->selector, inputs[0].event->layers) is Ok,
        !is_email_address(
            resolved(
                inputs[0].event->selector,
                inputs[0].event->layers,
            )->Ok_0.email_client.sender_email,
        ),
    ensures
        forall|i: int|
            0 <= i < inputs.len() ==> {
                let action = #[trigger] action_at(initial(mode), inputs, i);
                action != Action::StartServer && action != Action::Migrate && action
                    != Action::Release
            },
        forall|n: int|
            0 <= n <= inputs.len() ==> (#[trigger] state_after(initial(mode), inputs, n)).stage
                != Stage::Ready,
        inputs.len() >= 3 && inputs[1].event is Provisioned && inputs[2].event is Bound
            && inputs[2].event->port != 0 && state_after(initial(mode), inputs, 1).stage
            != Stage::Failed ==> state_after(initial(mode), inputs, 3).failure == Some(
            BootstrapError::Assembly(AssemblyError::InvalidSenderAddress),
        ),
{
    let s = initial(mode);
    assert(state_after(s, inputs, 0) == s);
    assert(state_after(s, inputs, 1) == next(s, inputs[0].event, inputs[0].fresh).0);
    assert(lacks_sender(state_after(s, inputs, 1)));
    assert forall|i: int| 0 <= i < inputs.len() implies {
        let action = #[trigger] action_at(s, inputs, i);
        action != Action::StartServer && action != Action::Migrate && action != Action::Release
    } by {
        if i > 0 {
            lemma_lacks_sender(s, inputs, 1, i);
        }
    }
    assert forall|n: int| 0 <= n <= inputs.len() implies (#[trigger] state_after(
        s,
        inputs,
        n,
    )).stage != Stage::Ready by {
        if n > 0 {
            lemma_lacks_sender(s, inputs, 1, n);
        }
    }
    if inputs.len() >= 3 && inputs[1].event is Provisioned && inputs[2].event is Bound
        && inputs[2].event->port != 0 && state_after(s, inputs, 1).stage != Stage::Failed {
        assert(state_after(s, inputs, 2) == next(
            state_after(s, inputs, 1),
            inputs[1].event,
            inputs[1].fresh,
        ).0);
        lemma_lacks_sender(s, inputs, 1, 2);
    }
}

/// No service is released unless every step succeeded, in order: the
/// sources resolved, the connections were provisioned, a listener was bound
/// and reported a port other than 0, the server started and the
/// migrations went through. The released settings carry the reported port.
pub proof fn lemma_ready_needs_every_step(mode: Mode, inputs: Seq<Input>, n: int)
    requires
        0 <= n <= inputs.len(),
        state_after(initial(mode), inputs, n).stage == Stage::Ready,
    ensures
        n >= 5,
        inputs[0].event is SourcesRead,
        resolved(inputs[0].event->selector, inputs[0].event->layers) is Ok,
        mode == Mode::Test ==> is_identifier(inputs[0].fresh),
        inputs[1].event is Provisioned,
        inputs[2].event is Bound,
        inputs[2].event->port > 0,
        inputs[3].event is ServerStarted,
        inputs[4].event is Migrated,
        mode == Mode::Test ==> state_after(initial(mode), inputs, 2).settings.unwrap().app.port
            == 0,
        state_after(initial(mode), inputs, n).settings.unwrap().app.port == inputs[2].event->port,
        action_at(initial(mode), inputs, 4) == Action::Release,
{
    let s = initial(mode);
    let s0 = state_after(s, inputs, 0);
    assert(s0 == s);
    lemma_rank_grows(s, inputs, 0, n);
    if n >= 1 {
        let s1 = state_after(s, inputs, 1);
        assert(s1 == next(s0, inputs[0].event, inputs[0].fresh).0);
        if s1.stage == Stage::Failed {
            lemma_failure_is_final(s, inputs, 1, n);
        }
        if n >= 2 {
            let s2 = state_after(s, inputs, 2);
            assert(s2 == next(s1, inputs[1].event, inputs[1].fresh).0);
            if s2.stage == Stage::Failed {
                lemma_failure_is_final(s, inputs, 2, n);
            }
            if n >= 3 {
                let s3 = state_after(s, inputs, 3);
                assert(s3 == next(s2, inputs[2].event, inputs[2].fresh).0);
                if s3.stage == Stage::Failed {
                    lemma_failure_is_final(s, inputs, 3, n);
                }
                if n >= 4 {
                    let s4 = state_after(s, inputs, 4);
                    assert(s4 == next(s3, inputs[3].event, inputs[3].fresh).0);
                    if s4.stage == Stage::Failed {
                        lemma_failure_is_final(s, inputs, 4, n);
                    }
                    if n >= 5 {
                        let s5 = state_after(s, inputs, 5);
                        assert(s5 == next(s4, inputs[4].event, inputs[4].fresh).0);
                        if s5.stage == Stage::Failed {
                            lemma_failure_is_final(s, inputs, 5, n);
                        } else {
                            lemma_over_is_settled(s, inputs, 5, n);
                        }
                    }
                }
            }
        }
    }
}

/// Once released, a start stays as it is.
proof fn lemma_over_is_settled(s: BootstrapView, inputs: Seq<Input>, k: int, n: int)
    requires
        0 <= k <= n <= inputs.len(),
        state_after(s, inputs, k).stage == Stage::Ready,
    ensures
        state_after(s, inputs, n) == state_after(s, inputs, k),
    decreases n - k,
{
    if n > k {
        lemma_over_is_settled(s, inputs, k, n - 1);
    }
}

/// The port of a released service is the one its listener reported, never
/// the 0 that a test asked for.
pub proof fn lemma_released_port_is_assigned(s: BootstrapView)
    requires
        s.consistent(),
        is_bound(s.stage),
    ensures
        s.settings is Some,
        s.settings.unwrap().app.port > 0,
        s.settings.unwrap().valid(),
{
    assert(is_configured(s.stage));
}

} // verus!
