//! The decisions of the block feed's subscriber: when to subscribe, when
//! to wait, when to receive, and when a block is handed on.
//!
//! The subscriber opens no connection itself. It hands out one action at a
//! time; the caller performs it and reports what happened.

use vstd::prelude::*;

verus! {

/// The seconds to wait after a subscription could not be established.
pub const RETRY_DELAY_SECS: u64 = 1;

/// How final a block must be before the feed delivers it.
#[derive(Debug, Clone, Copy, PartialEq, Eq, Structural)]
pub enum Commitment {
    Processed,
    Confirmed,
    Finalized,
}

/// The encoding in which the feed delivers transactions.
#[derive(Debug, Clone, Copy, PartialEq, Eq, Structural)]
pub enum Encoding {
    Binary,
    Base64,
    Base58,
    Json,
    JsonParsed,
}

/// How much of each transaction the feed delivers.
#[derive(Debug, Clone, Copy, PartialEq, Eq, Structural)]
pub enum TransactionDetail {
    Full,
    Signatures,
    Accounts,
    Omitted,
}

/// Which blocks the feed delivers.
#[derive(Debug, Clone, Copy, PartialEq, Eq, Structural)]
pub enum BlockFilter {
    All,
}

/// What a subscription asks of the feed.
#[derive(Debug, Clone, Copy, PartialEq, Eq, Structural)]
pub struct SubscriptionConfig {
    pub commitment: Commitment,
    pub encoding: Encoding,
    pub transaction_details: TransactionDetail,
    pub show_rewards: bool,
    pub max_supported_transaction_version: u8,
    pub filter: BlockFilter,
}

/// The subscription of the indexer: all blocks, once confirmed, with full
/// transactions in decoded form, without rewards, up to transaction
/// version 0.
pub open spec fn block_subscription_spec() -> SubscriptionConfig {
    SubscriptionConfig {
        commitment: Commitment::Confirmed,
        encoding: Encoding::Json,
        transaction_details: TransactionDetail::Full,
        show_rewards: false,
        max_supported_transaction_version: 0,
        filter: BlockFilter::All,
    }
}

/// The subscription that the subscriber asks for.
#[verifier::when_used_as_spec(block_subscription_spec)]
pub fn block_subscription() -> (config: SubscriptionConfig)
    ensures
        config == block_subscription_spec(),
{
    SubscriptionConfig {
        commitment: Commitment::Confirmed,
        encoding: Encoding::Json,
        transaction_details: TransactionDetail::Full,
        show_rewards: false,
        max_supported_transaction_version: 0,
        filter: BlockFilter::All,
    }
}

/// Where the subscriber stands.
#[derive(Debug, Clone, Copy, PartialEq, Eq, Structural)]
pub enum FeedState {
    /// A subscription is being established.
    Connecting,
    /// The last attempt to subscribe failed; the delay is running.
    Waiting,
    /// The subscription stands; the next block is awaited.
    Streaming,
    /// A block has arrived and is being normalized and persisted.
    Delivering,
    /// As `Delivering`, and the subscriber stops once the block is done.
    Draining,
    /// The subscriber accepts no more blocks.
    Stopped,
}

/// What happened to the last action.
#[derive(Debug, Clone, Copy, PartialEq, Eq, Structural)]
pub enum FeedEvent {
    Subscribed,
    SubscribeFailed,
    DelayElapsed,
    BlockReceived,
    ReceiveFailed,
    /// The block that was handed on is done: committed, or rolled back.
    BlockHandled,
    /// The process is asked to shut down.
    Shutdown,
}

/// What the caller is to do next.
#[derive(Debug, Clone, Copy, PartialEq, Eq, Structural)]
pub enum FeedAction {
    /// Drop the subscription, if one stands, and establish a new one.
    Subscribe(SubscriptionConfig),
    Wait { seconds: u64 },
    /// Await the next block of the subscription.
    Receive,
    /// Normalize and persist the block that was received.
    Deliver,
    Stop,
}

/// The state that follows `state` once `event` has happened. An event
/// that the state does not await leaves the state as it is.
pub open spec fn next_state(state: FeedState, event: FeedEvent) -> FeedState {
    match (state, event) {
        (FeedState::Stopped, _) => FeedState::Stopped,
        (FeedState::Delivering, FeedEvent::Shutdown) => FeedState::Draining,
        (FeedState::Draining, FeedEvent::Shutdown) => FeedState::Draining,
        (_, FeedEvent::Shutdown) => FeedState::Stopped,
        (FeedState::Connecting, FeedEvent::Subscribed) => FeedState::Streaming,
        (FeedState::Connecting, FeedEvent::SubscribeFailed) => FeedState::Waiting,
        (FeedState::Waiting, FeedEvent::DelayElapsed) => FeedState::Connecting,
        (FeedState::Streaming, FeedEvent::BlockReceived) => FeedState::Delivering,
        (FeedState::Streaming, FeedEvent::ReceiveFailed) => FeedState::Connecting,
        (FeedState::Delivering, FeedEvent::BlockHandled) => FeedState::Streaming,
        (FeedState::Draining, FeedEvent::BlockHandled) => FeedState::Stopped,
        _ => state,
    }
}

/// The action that is due in `state`.
pub open spec fn due(state: FeedState) -> FeedAction {
    match state {
        FeedState::Connecting => FeedAction::Subscribe(block_subscription_spec()),
        FeedState::Waiting => FeedAction::Wait { seconds: RETRY_DELAY_SECS },
        FeedState::Streaming => FeedAction::Receive,
        FeedState::Delivering => FeedAction::Deliver,
        FeedState::Draining => FeedAction::Deliver,
        FeedState::Stopped => FeedAction::Stop,
    }
}

/// Decides, event by event, what the block feed's consumer does next.
pub struct FeedSubscriber {
    state: FeedState,
}

impl FeedSubscriber {
    /// The state in which the subscriber stands.
    pub closed spec fn state(&self) -> FeedState {
        self.state
    }

    /// A subscriber that asks for its first subscription.
    pub fn start() -> (started: (FeedSubscriber, FeedAction))
        ensures
            started.0.state() == FeedState::Connecting,
            started.1 == due(FeedState::Connecting),
    {
        (
            FeedSubscriber { state: FeedState::Connecting },
            FeedAction::Subscribe(block_subscription()),
        )
    }

    /// Takes what happened to the action that was due and gives the next
    /// action.
    pub fn on_event(&mut self, event: FeedEvent) -> (action: FeedAction)
        ensures
            final(self).state() == next_state(old(self).state(), event),
            action == due(final(self).state()),
    {
        let next = match (self.state, event) {
            (FeedState::Stopped, _) => FeedState::Stopped,
            (FeedState::Delivering, FeedEvent::Shutdown) => FeedState::Draining,
            (FeedState::Draining, FeedEvent::Shutdown) => FeedState::Draining,
            (_, FeedEvent::Shutdown) => FeedState::Stopped,
            (FeedState::Connecting, FeedEvent::Subscribed) => FeedState::Streaming,
            (FeedState::Connecting, FeedEvent::SubscribeFailed) => FeedState::Waiting,
            (FeedState::Waiting, FeedEvent::DelayElapsed) => FeedState::Connecting,
            (FeedState::Streaming, FeedEvent::BlockReceived) => FeedState::Delivering,
            (FeedState::Streaming, FeedEvent::ReceiveFailed) => FeedState::Connecting,
            (FeedState::Delivering, FeedEvent::BlockHandled) => FeedState::Streaming,
            (FeedState::Draining, FeedEvent::BlockHandled) => FeedState::Stopped,
            (state, _) => state,
        };
        self.state = next;
        match next {
            FeedState::Connecting => FeedAction::Subscribe(block_subscription()),
            FeedState::Waiting => FeedAction::Wait { seconds: RETRY_DELAY_SECS },
            FeedState::Streaming => FeedAction::Receive,
            FeedState::Delivering => FeedAction::Deliver,
            FeedState::Draining => FeedAction::Deliver,
            FeedState::Stopped => FeedAction::Stop,
        }
    }

    /// Whether the subscriber has stopped.
    pub fn stopped(&self) -> (stopped: bool)
        ensures
            stopped == (self.state() == FeedState::Stopped),
    {
        match self.state {
            FeedState::Stopped => true,
            _ => false,
        }
    }
}

/// The state that a subscriber has reached from its start once `events`
/// have happened, in their order.
pub open spec fn state_after(events: Seq<FeedEvent>) -> FeedState
    decreases events.len(),
{
    if events.len() == 0 {
        FeedState::Connecting
    } else {
        next_state(state_after(events.drop_last()), events.last())
    }
}

/// A subscription that cannot be established is tried again after the
/// fixed delay, and so is every further attempt that fails.
pub proof fn lemma_failed_subscription_is_retried(events: Seq<FeedEvent>)
    requires
        state_after(events) == FeedState::Connecting,
    ensures
        due(state_after(events.push(FeedEvent::SubscribeFailed))) == (FeedAction::Wait {
            seconds: RETRY_DELAY_SECS,
        }),
        due(
            state_after(events.push(FeedEvent::SubscribeFailed).push(FeedEvent::DelayElapsed)),
        ) == FeedAction::Subscribe(block_subscription_spec()),
        state_after(events.push(FeedEvent::SubscribeFailed).push(FeedEvent::DelayElapsed))
            == FeedState::Connecting,
{
    let failed = events.push(FeedEvent::SubscribeFailed);
    assert(failed.drop_last() =~= events);
    assert(failed.push(FeedEvent::DelayElapsed).drop_last() =~= failed);
}

/// A receive that fails leads to a new subscription, without a delay.
pub proof fn lemma_lost_stream_is_resubscribed(events: Seq<FeedEvent>)
    requires
        state_after(events) == FeedState::Streaming,
    ensures
        due(state_after(events.push(FeedEvent::ReceiveFailed))) == FeedAction::Subscribe(
            block_subscription_spec(),
        ),
{
    assert(events.push(FeedEvent::ReceiveFailed).drop_last() =~= events);
}

/// Blocks are handled one at a time: from the arrival of a block until it
/// is done, the subscriber asks for nothing but its delivery.
pub proof fn lemma_one_block_at_a_time(events: Seq<FeedEvent>, event: FeedEvent)
    requires
        state_after(events) == FeedState::Delivering || state_after(events) == FeedState::Draining,
        event != FeedEvent::BlockHandled,
    ensures
        due(state_after(events.push(event))) == FeedAction::Deliver,
{
    assert(events.push(event).drop_last() =~= events);
}

/// The subscriber stops only on request: it has stopped, or finishes its
/// last block before it stops, only if it was asked to shut down.
pub proof fn lemma_stops_only_on_shutdown(events: Seq<FeedEvent>)
    ensures
        state_after(events) == FeedState::Stopped || state_after(events) == FeedState::Draining
            ==> events.contains(FeedEvent::Shutdown),
    decreases events.len(),
{
    if events.len() > 0 {
        let earlier = events.drop_last();
        lemma_stops_only_on_shutdown(earlier);
        if earlier.contains(FeedEvent::Shutdown) {
            let i = choose|i: int| 0 <= i < earlier.len() && earlier[i] == FeedEvent::Shutdown;
            assert(events[i] == FeedEvent::Shutdown);
        } else if state_after(events) == FeedState::Stopped || state_after(events)
            == FeedState::Draining {
            assert(events[events.len() - 1] == FeedEvent::Shutdown);
        }
    }
}

/// Once asked to shut down, the subscriber accepts no new block: all it
/// still asks for is the delivery of the block that was in hand, and then
/// to stop. It never again asks to subscribe, to wait or to receive.
pub proof fn lemma_no_block_accepted_after_shutdown(events: Seq<FeedEvent>, at: int)
    requires
        0 <= at < events.len(),
        events[at] == FeedEvent::Shutdown,
    ensures
        state_after(events) == FeedState::Stopped || state_after(events) == FeedState::Draining,
        due(state_after(events)) == FeedAction::Stop || due(state_after(events))
            == FeedAction::Deliver,
    decreases events.len(),
{
    let earlier = events.drop_last();
    if at < events.len() - 1 {
        lemma_no_block_accepted_after_shutdown(earlier, at);
    }
}

} // verus!
