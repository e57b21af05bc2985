use vstd::prelude::*;
use core::marker::PhantomData;
use multiaddr::Multiaddr;
use crate::address::{decode_listen_addresses, multiaddr_parses, split_commas};
use crate::pubsubtopic::PubsubTopic;
use crate::response::{handle_no_response, handle_response, payload_text, LibwakuResponse, WakuError};
use crate::store::{MessageHash, StoreQuery};

verus! {

/// How a node is configured when it is instantiated.
pub struct WakuNodeConfig {
    pub host: Option<String>,
    pub tcp_port: Option<usize>,
    pub relay: Option<bool>,
    pub relay_topics: Vec<String>,
    pub cluster_id: Option<usize>,
    pub shards: Vec<usize>,
    pub log_level: Option<String>,
}

/// Whether the relay operations are available.
pub open spec fn relay_enabled(config: WakuNodeConfig) -> bool {
    config.relay == Some(true)
}

/// The configuration with every option left to the engine.
pub open spec fn is_default_config(c: WakuNodeConfig) -> bool {
    &&& c.host.is_none()
    &&& c.tcp_port.is_none()
    &&& c.relay.is_none()
    &&& c.relay_topics@.len() == 0
    &&& c.cluster_id.is_none()
    &&& c.shards@.len() == 0
    &&& c.log_level.is_none()
}

impl Default for WakuNodeConfig {
    fn default() -> (r: WakuNodeConfig)
        ensures
            is_default_config(r),
    {
        WakuNodeConfig {
            host: None,
            tcp_port: None,
            relay: None,
            relay_topics: Vec::new(),
            cluster_id: None,
            shards: Vec::new(),
            log_level: None,
        }
    }
}

/// The configuration a node is instantiated with: the given one, or the
/// default when none is given.
pub fn node_config(config: Option<WakuNodeConfig>) -> (r: WakuNodeConfig)
    ensures
        match config {
            Some(c) => r == c,
            None => is_default_config(r),
        },
{
    match config {
        Some(c) => c,
        None => WakuNodeConfig::default(),
    }
}

/// The engine's timeout argument: `0` for none, else the milliseconds,
/// clamped to the largest `i32`.
pub open spec fn spec_timeout_millis(timeout: Option<u128>) -> i32 {
    match timeout {
        None => 0,
        Some(ms) => if ms > i32::MAX as u128 { i32::MAX } else { ms as i32 },
    }
}

/// Converts a timeout in milliseconds to the engine's argument.
pub fn timeout_millis(timeout: Option<u128>) -> (r: i32)
    ensures
        r == spec_timeout_millis(timeout),
        r >= 0,
{
    match timeout {
        None => 0,
        Some(ms) => if ms > i32::MAX as u128 { i32::MAX } else { ms as i32 },
    }
}

/// Owns the engine's handle of one node; `0` marks a handle given up.
pub struct WakuNodeContext {
    obj_ptr: usize,
}

impl View for WakuNodeContext {
    type V = usize;

    closed spec fn view(&self) -> usize {
        self.obj_ptr
    }
}

impl WakuNodeContext {
    pub fn new(obj_ptr: usize) -> (r: WakuNodeContext)
        ensures
            r@ == obj_ptr,
    {
        WakuNodeContext { obj_ptr }
    }

    pub fn get_ptr(&self) -> (r: usize)
        ensures
            r == self@,
    {
        self.obj_ptr
    }

    /// Gives up the handle so that it cannot be used again.
    pub fn reset_ptr(&mut self)
        ensures
            final(self)@ == 0,
    {
        self.obj_ptr = 0;
    }
}

/// The phase of a node that is instantiated but not started.
pub struct Initialized;

/// The phase of a started node.
pub struct Running;

/// What a node handle stands for: the engine's handle and the configuration.
pub struct NodeModel {
    pub handle: usize,
    pub config: WakuNodeConfig,
}

/// A node in the phase `State`; each phase offers only its own operations.
pub struct WakuNodeHandle<State> {
    ctx: WakuNodeContext,
    config: WakuNodeConfig,
    _state: PhantomData<State>,
}

impl<State> View for WakuNodeHandle<State> {
    type V = NodeModel;

    closed spec fn view(&self) -> NodeModel {
        NodeModel { handle: self.ctx@, config: self.config }
    }
}

/// A call for the engine to make, with all its arguments.
pub enum EngineCall {
    Destroy { handle: usize },
    Start { handle: usize },
    Stop { handle: usize },
    Version { handle: usize },
    ListenAddresses { handle: usize },
    Connect { handle: usize, address: String, timeout_ms: i32 },
    RelayPublish { handle: usize, message: String, pubsub_topic: PubsubTopic, timeout_ms: i32 },
    RelaySubscribe { handle: usize, pubsub_topic: PubsubTopic },
    RelayUnsubscribe { handle: usize, pubsub_topic: PubsubTopic },
    FilterSubscribe { handle: usize, pubsub_topic: PubsubTopic, content_topics: Vec<String> },
    FilterUnsubscribe { handle: usize, pubsub_topic: PubsubTopic, content_topics: Vec<String> },
    FilterUnsubscribeAll { handle: usize },
    LightpushPublish { handle: usize, message: String, pubsub_topic: PubsubTopic },
    StoreQuery { handle: usize, peer_addr: String, timeout_ms: i32 },
}

/// Whether a call needs a started node.
pub open spec fn is_running_only(c: EngineCall) -> bool {
    !(c is Destroy || c is Start || c is Stop || c is Version)
}

/// The persistent callback to register for a node's events.
pub struct EventRegistration<F> {
    pub handle: usize,
    pub callback: F,
}

/// The node that a successful instantiation yields.
pub open spec fn instantiated(config: WakuNodeConfig, obj_ptr: usize, outcome: LibwakuResponse) -> Result<NodeModel, WakuError> {
    match outcome {
        LibwakuResponse::Success(_) => Ok(NodeModel { handle: obj_ptr, config }),
        LibwakuResponse::Failure(m) => Err(WakuError::Engine(m)),
        LibwakuResponse::MissingCallback => Err(WakuError::MissingCallback),
    }
}

/// The node after a phase change that the engine answered with `outcome`.
pub open spec fn transitioned(m: NodeModel, outcome: LibwakuResponse) -> Result<NodeModel, WakuError> {
    match outcome {
        LibwakuResponse::Success(_) => Ok(m),
        LibwakuResponse::Failure(msg) => Err(WakuError::Engine(msg)),
        LibwakuResponse::MissingCallback => Err(WakuError::MissingCallback),
    }
}

/// The outcome of a call that returns nothing.
pub open spec fn unit_outcome(outcome: LibwakuResponse) -> Result<(), WakuError> {
    match outcome {
        LibwakuResponse::Success(_) => Ok(()),
        LibwakuResponse::Failure(msg) => Err(WakuError::Engine(msg)),
        LibwakuResponse::MissingCallback => Err(WakuError::MissingCallback),
    }
}

impl<State> WakuNodeHandle<State> {
    /// The call that asks for the engine's version.
    pub fn version(&self) -> (r: EngineCall)
        ensures
            r == (EngineCall::Version { handle: self@.handle }),
    {
        EngineCall::Version { handle: self.ctx.get_ptr() }
    }

    /// The call that tears the node down.
    pub fn destroy_call(&self) -> (r: EngineCall)
        ensures
            r == (EngineCall::Destroy { handle: self@.handle }),
    {
        EngineCall::Destroy { handle: self.ctx.get_ptr() }
    }

    /// Ends the node once the engine answered its teardown; the handle is
    /// given up either way.
    pub fn waku_destroy(self, outcome: LibwakuResponse) -> (r: Result<(), WakuError>)
        ensures
            r == unit_outcome(outcome),
    {
        let mut ctx = self.ctx;
        ctx.reset_ptr();
        handle_no_response(outcome)
    }
}

impl WakuNodeHandle<Initialized> {
    /// The node the engine instantiated as `obj_ptr`, once it answered with `outcome`.
    pub fn new(config: WakuNodeConfig, obj_ptr: usize, outcome: LibwakuResponse) -> (r: Result<WakuNodeHandle<Initialized>, WakuError>)
        ensures
            match instantiated(config, obj_ptr, outcome) {
                Ok(m) => r.is_ok() && r.unwrap()@ == m,
                Err(e) => r == Err::<WakuNodeHandle<Initialized>, WakuError>(e),
            },
    {
        match handle_no_response(outcome) {
            Ok(()) => Ok(WakuNodeHandle { ctx: WakuNodeContext::new(obj_ptr), config, _state: PhantomData }),
            Err(e) => Err(e),
        }
    }

    /// The call that starts the node.
    pub fn start_call(&self) -> (r: EngineCall)
        ensures
            r == (EngineCall::Start { handle: self@.handle }),
    {
        EngineCall::Start { handle: self.ctx.get_ptr() }
    }

    /// The started node, once the engine answered the start call with `outcome`.
    pub fn start(self, outcome: LibwakuResponse) -> (r: Result<WakuNodeHandle<Running>, WakuError>)
        ensures
            match transitioned(self@, outcome) {
                Ok(m) => r.is_ok() && r.unwrap()@ == m,
                Err(e) => r == Err::<WakuNodeHandle<Running>, WakuError>(e),
            },
    {
        match handle_no_response(outcome) {
            Ok(()) => Ok(WakuNodeHandle { ctx: self.ctx, config: self.config, _state: PhantomData }),
            Err(e) => Err(e),
        }
    }

    /// Pairs a persistent event callback with the node it is registered for;
    /// a later registration replaces an earlier one.
    pub fn set_event_callback<F>(&self, closure: F) -> (r: EventRegistration<F>)
        ensures
            r.handle == self@.handle,
            r.callback == closure,
    {
        EventRegistration { handle: self.ctx.get_ptr(), callback: closure }
    }
}

impl WakuNodeHandle<Running> {
    /// The call that stops the node.
    pub fn stop_call(&self) -> (r: EngineCall)
        ensures
            r == (EngineCall::Stop { handle: self@.handle }),
    {
        EngineCall::Stop { handle: self.ctx.get_ptr() }
    }

    /// The stopped node, once the engine answered the stop call with `outcome`.
    pub fn stop(self, outcome: LibwakuResponse) -> (r: Result<WakuNodeHandle<Initialized>, WakuError>)
        ensures
            match transitioned(self@, outcome) {
                Ok(m) => r.is_ok() && r.unwrap()@ == m,
                Err(e) => r == Err::<WakuNodeHandle<Initialized>, WakuError>(e),
            },
    {
        match handle_no_response(outcome) {
            Ok(()) => Ok(WakuNodeHandle { ctx: self.ctx, config: self.config, _state: PhantomData }),
            Err(e) => Err(e),
        }
    }

    /// The call that asks for the node's listen addresses.
    pub fn listen_addresses(&self) -> (r: EngineCall)
        ensures
            r == (EngineCall::ListenAddresses { handle: self@.handle }),
    {
        EngineCall::ListenAddresses { handle: self.ctx.get_ptr() }
    }

    /// The call that dials a peer; no timeout, or a zero one, waits for as
    /// long as the engine does.
    pub fn connect(&self, address: &Multiaddr, timeout: Option<u128>) -> (r: EngineCall)
        ensures
            r matches EngineCall::Connect { handle, address: text, timeout_ms }
                && handle == self@.handle && timeout_ms == spec_timeout_millis(timeout)
                && vstd::string::to_string_from_display_ensures::<Multiaddr>(address, text),
    {
        EngineCall::Connect {
            handle: self.ctx.get_ptr(),
            address: address.to_string(),
            timeout_ms: timeout_millis(timeout),
        }
    }

    /// The call that publishes a message over relay; refused when relay is disabled.
    pub fn relay_publish_message(&self, message: String, pubsub_topic: PubsubTopic, timeout: Option<u128>) -> (r: Result<EngineCall, WakuError>)
        ensures
            !relay_enabled(self@.config) ==> r == Err::<EngineCall, WakuError>(WakuError::RelayDisabled),
            relay_enabled(self@.config) ==> r == Ok::<EngineCall, WakuError>(EngineCall::RelayPublish {
                handle: self@.handle,
                message,
                pubsub_topic,
                timeout_ms: spec_timeout_millis(timeout),
            }),
    {
        if !self.relay_is_enabled() {
            return Err(WakuError::RelayDisabled);
        }
        Ok(EngineCall::RelayPublish {
            handle: self.ctx.get_ptr(),
            message,
            pubsub_topic,
            timeout_ms: timeout_millis(timeout),
        })
    }

    /// The call that subscribes to a pubsub topic; refused when relay is disabled.
    pub fn relay_subscribe(&self, pubsub_topic: PubsubTopic) -> (r: Result<EngineCall, WakuError>)
        ensures
            !relay_enabled(self@.config) ==> r == Err::<EngineCall, WakuError>(WakuError::RelayDisabled),
            relay_enabled(self@.config) ==> r == Ok::<EngineCall, WakuError>(EngineCall::RelaySubscribe {
                handle: self@.handle,
                pubsub_topic,
            }),
    {
        if !self.relay_is_enabled() {
            return Err(WakuError::RelayDisabled);
        }
        Ok(EngineCall::RelaySubscribe { handle: self.ctx.get_ptr(), pubsub_topic })
    }

    /// The call that unsubscribes from a pubsub topic; refused when relay is disabled.
    pub fn relay_unsubscribe(&self, pubsub_topic: PubsubTopic) -> (r: Result<EngineCall, WakuError>)
        ensures
            !relay_enabled(self@.config) ==> r == Err::<EngineCall, WakuError>(WakuError::RelayDisabled),
            relay_enabled(self@.config) ==> r == Ok::<EngineCall, WakuError>(EngineCall::RelayUnsubscribe {
                handle: self@.handle,
                pubsub_topic,
            }),
    {
        if !self.relay_is_enabled() {
            return Err(WakuError::RelayDisabled);
        }
        Ok(EngineCall::RelayUnsubscribe { handle: self.ctx.get_ptr(), pubsub_topic })
    }

    fn relay_is_enabled(&self) -> (r: bool)
        ensures
            r == relay_enabled(self@.config),
    {
        match self.config.relay {
            Some(enabled) => enabled,
            None => false,
        }
    }

    pub fn filter_subscribe(&self, pubsub_topic: PubsubTopic, content_topics: Vec<String>) -> (r: EngineCall)
        ensures
            r == (EngineCall::FilterSubscribe { handle: self@.handle, pubsub_topic, content_topics }),
    {
        EngineCall::FilterSubscribe { handle: self.ctx.get_ptr(), pubsub_topic, content_topics }
    }

    pub fn filter_unsubscribe(&self, pubsub_topic: PubsubTopic, content_topics: Vec<String>) -> (r: EngineCall)
        ensures
            r == (EngineCall::FilterUnsubscribe { handle: self@.handle, pubsub_topic, content_topics }),
    {
        EngineCall::FilterUnsubscribe { handle: self.ctx.get_ptr(), pubsub_topic, content_topics }
    }

    pub fn filter_unsubscribe_all(&self) -> (r: EngineCall)
        ensures
            r == (EngineCall::FilterUnsubscribeAll { handle: self@.handle }),
    {
        EngineCall::FilterUnsubscribeAll { handle: self.ctx.get_ptr() }
    }

    pub fn lightpush_publish_message(&self, message: String, pubsub_topic: PubsubTopic) -> (r: EngineCall)
        ensures
            r == (EngineCall::LightpushPublish { handle: self@.handle, message, pubsub_topic }),
    {
        EngineCall::LightpushPublish { handle: self.ctx.get_ptr(), message, pubsub_topic }
    }

    /// A store query against the peer at `peer_addr`: the call that fetches
    /// each page, and the driver that pages from the first page on.
    pub fn store_query<T>(
        &self,
        pubsub_topic: Option<PubsubTopic>,
        content_topics: Vec<String>,
        peer_addr: String,
        include_data: bool,
        time_start: Option<u64>,
        time_end: Option<u64>,
        timeout: Option<u128>,
    ) -> (r: (EngineCall, StoreQuery<T>))
        ensures
            r.0 == (EngineCall::StoreQuery {
                handle: self@.handle,
                peer_addr,
                timeout_ms: spec_timeout_millis(timeout),
            }),
            r.1.collected() == Seq::<T>::empty(),
            r.1.next_request().pubsub_topic == pubsub_topic,
            r.1.next_request().content_topics == content_topics,
            r.1.next_request().include_data == include_data,
            r.1.next_request().time_start == time_start,
            r.1.next_request().time_end == time_end,
            r.1.next_request().pagination_cursor.is_none(),
            r.1.next_request().pagination_forward,
    {
        let call = EngineCall::StoreQuery {
            handle: self.ctx.get_ptr(),
            peer_addr,
            timeout_ms: timeout_millis(timeout),
        };
        (call, StoreQuery::new(pubsub_topic, content_topics, include_data, time_start, time_end))
    }
}

/// The addresses a node listens on, from the engine's answer.
pub fn listen_addresses_outcome(outcome: LibwakuResponse) -> (r: Result<Vec<Multiaddr>, WakuError>)
    ensures
        match outcome {
            LibwakuResponse::Success(p) => {
                &&& r.is_ok() <==> forall|k: int|
                    0 <= k < split_commas(payload_text(p)).len() ==> multiaddr_parses(
                        #[trigger] split_commas(payload_text(p))[k],
                    )
                &&& r.is_ok() ==> r.unwrap()@.len() == split_commas(payload_text(p)).len()
                &&& r.is_err() ==> r.unwrap_err() is Decode
            },
            LibwakuResponse::Failure(m) => r == Err::<Vec<Multiaddr>, WakuError>(WakuError::Engine(m)),
            LibwakuResponse::MissingCallback => r == Err::<Vec<Multiaddr>, WakuError>(
                WakuError::MissingCallback,
            ),
        },
{
    match handle_response(outcome) {
        Ok(payload) => decode_listen_addresses(payload.as_str()),
        Err(e) => Err(e),
    }
}

/// The hash of a published message, from the engine's answer.
pub fn message_hash_outcome(outcome: LibwakuResponse) -> (r: Result<MessageHash, WakuError>)
    ensures
        match outcome {
            LibwakuResponse::Success(p) => r.is_ok() && r.unwrap()@ == payload_text(p),
            LibwakuResponse::Failure(m) => r == Err::<MessageHash, WakuError>(WakuError::Engine(m)),
            LibwakuResponse::MissingCallback => r == Err::<MessageHash, WakuError>(
                WakuError::MissingCallback,
            ),
        },
{
    match handle_response(outcome) {
        Ok(payload) => Ok(MessageHash(payload)),
        Err(e) => Err(e),
    }
}

/// Instantiating a node and tearing it down right away succeeds whenever the
/// engine answers both calls with success, and the teardown is not a call
/// that needs a started node.
pub proof fn instantiate_then_destroy(
    config: WakuNodeConfig,
    obj_ptr: usize,
    created: Option<String>,
    destroyed: Option<String>,
)
    ensures
        instantiated(config, obj_ptr, LibwakuResponse::Success(created)) == Ok::<
            NodeModel,
            WakuError,
        >(NodeModel { handle: obj_ptr, config }),
        !is_running_only(EngineCall::Destroy { handle: obj_ptr }),
        unit_outcome(LibwakuResponse::Success(destroyed)) == Ok::<(), WakuError>(()),
{
}

/// The node after `n` successful start and stop pairs.
pub open spec fn after_restarts(m: NodeModel, n: nat) -> Result<NodeModel, WakuError>
    decreases n,
{
    if n == 0 {
        Ok(m)
    } else {
        match after_restarts(m, (n - 1) as nat) {
            Ok(m1) => match transitioned(m1, LibwakuResponse::Success(None)) {
                Ok(m2) => transitioned(m2, LibwakuResponse::Success(None)),
                Err(e) => Err(e),
            },
            Err(e) => Err(e),
        }
    }
}

/// Starting and stopping a node any number of times keeps the same engine
/// handle and configuration, and asking for the version is allowed in every
/// phase in between.
pub proof fn restarts_keep_node(m: NodeModel, n: nat)
    ensures
        after_restarts(m, n) == Ok::<NodeModel, WakuError>(m),
        !is_running_only(EngineCall::Version { handle: m.handle }),
    decreases n,
{
    if n > 0 {
        restarts_keep_node(m, (n - 1) as nat);
    }
}

} // verus!
