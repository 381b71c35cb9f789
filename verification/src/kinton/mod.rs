//! Devices registered with the Kinton cloud, and their messaging.
//!
//! A device keeps one handler for each topic it has subscribed to. The
//! caller owns the connection to the broker: it sends the requests that
//! `subscribe` and `publish` hand back, runs the loop that `listen` starts,
//! and asks `dispatch` what to do with each message that arrives.

use vstd::prelude::*;

use crate::kinton::identity::CloudIdentity;
use crate::kinton::registry::{enrolled, Registration, RegistrationView, Registry, RegistryError};
use crate::table::Table;

pub mod identity;
pub mod registry;

verus! {

/// How hard the broker tries to deliver a message.
#[derive(Debug, Clone, Copy, PartialEq, Eq, Structural)]
pub enum QualityOfService {
    /// Sent once, neither acknowledged nor repeated.
    AtMostOnce,
    /// Repeated until acknowledged.
    AtLeastOnce,
    /// Delivered once, by a handshake.
    ExactlyOnce,
}

/// A request to the broker for the messages of a topic.
#[derive(Debug, Clone, PartialEq, Eq)]
pub struct Subscription {
    pub topic: String,
    pub qos: QualityOfService,
}

/// A message for the broker to deliver.
#[derive(Debug, Clone, PartialEq, Eq)]
pub struct Publication {
    pub topic: String,
    pub payload: Vec<u8>,
    pub qos: QualityOfService,
}

/// Where the dispatch loop of a device stands.
#[derive(Debug, Clone, Copy, PartialEq, Eq, Structural)]
pub enum LoopState {
    /// No loop runs.
    Idle,
    /// The loop runs.
    Running,
    /// The loop runs and has been told to end.
    Cancelled,
}

/// What the dispatch loop does with a message that arrived.
pub enum Dispatch<'a, H> {
    /// Hand the payload to this handler.
    Deliver(&'a H),
    /// No handler is registered for the topic: note it, drop the message,
    /// and go on.
    UnregisteredTopic,
    /// The loop has been cancelled and ends.
    Stop,
}

/// What a device holds, as mathematical values.
pub struct DeviceView<H> {
    pub kinton_uuid: Seq<char>,
    pub kinton_secret: Seq<char>,
    pub broker: Seq<char>,
    pub handlers: Map<Seq<char>, H>,
    pub state: LoopState,
}

impl<H> DeviceView<H> {
    /// The device after it has recorded a handler for a topic.
    pub open spec fn subscribed(self, topic: Seq<char>, handler: H) -> DeviceView<H> {
        DeviceView { handlers: self.handlers.insert(topic, handler), ..self }
    }

    /// The handler that a message on a topic is handed to: the one recorded
    /// for the topic, while the loop runs.
    pub open spec fn receiver(self, topic: Seq<char>) -> Option<H> {
        if self.state == LoopState::Running && self.handlers.contains_key(topic) {
            Some(self.handlers[topic])
        } else {
            None
        }
    }
}

/// A handler receives the messages of its topic: once a handler is
/// recorded for a topic, a running loop hands the messages on that topic to
/// it, and the messages on every other topic go where they went before.
pub proof fn lemma_subscribed_handler_receives<H>(
    device: DeviceView<H>,
    topic: Seq<char>,
    handler: H,
    other: Seq<char>,
)
    requires
        device.state == LoopState::Running,
    ensures
        device.subscribed(topic, handler).receiver(topic) == Some(handler),
        other != topic ==> device.subscribed(topic, handler).receiver(other) == device.receiver(
            other,
        ),
{
}

/// A registered device: its identity in the cloud, the address of its
/// broker, and the handlers of the topics it has subscribed to.
pub struct Device<H> {
    kinton_uuid: String,
    kinton_secret: String,
    broker: String,
    handlers: Table<H>,
    state: LoopState,
}

impl<H> View for Device<H> {
    type V = DeviceView<H>;

    closed spec fn view(&self) -> DeviceView<H> {
        DeviceView {
            kinton_uuid: self.kinton_uuid@,
            kinton_secret: self.kinton_secret@,
            broker: self.broker@,
            handlers: self.handlers@,
            state: self.state,
        }
    }
}

impl<H> Device<H> {
    /// What a device is at first: no handlers, no loop.
    pub open spec fn fresh(
        kinton_uuid: Seq<char>,
        kinton_secret: Seq<char>,
        broker: Seq<char>,
    ) -> DeviceView<H> {
        DeviceView {
            kinton_uuid,
            kinton_secret,
            broker,
            handlers: Map::empty(),
            state: LoopState::Idle,
        }
    }

    /// A device with an identity that was issued before; no registry hears
    /// of it.
    pub fn with_identity(identity: CloudIdentity, broker: String) -> (device: Device<H>)
        ensures
            device@ == Self::fresh(identity@.uuid, identity@.secret, broker@),
    {
        Device {
            kinton_uuid: identity.uuid,
            kinton_secret: identity.secret,
            broker,
            handlers: Table::new(),
            state: LoopState::Idle,
        }
    }

    /// Registers a device: enters it in the registry under its identifier
    /// and hands it out. A taken identifier is refused, and the registry
    /// stays as it was.
    pub fn new(
        registry: &mut Registry,
        device_uid: String,
        identity: CloudIdentity,
        broker: String,
    ) -> (r: Result<Device<H>, RegistryError>)
        ensures
            ({
                let registration = RegistrationView {
                    kinton_uuid: identity@.uuid,
                    kinton_secret: identity@.secret,
                    broker: broker@,
                };
                let (after, answer) = enrolled(old(registry)@, device_uid@, registration);
                &&& final(registry)@ == after
                &&& match r {
                    Ok(device) => answer is Ok && device@ == Self::fresh(
                        identity@.uuid,
                        identity@.secret,
                        broker@,
                    ),
                    Err(e) => answer == Err::<(), RegistryError>(e),
                }
            }),
    {
        let registration = Registration {
            kinton_uuid: identity.uuid.clone(),
            kinton_secret: identity.secret.clone(),
            broker: broker.clone(),
        };
        match registry.enroll(device_uid, registration) {
            Ok(()) => Ok(Device::with_identity(identity, broker)),
            Err(e) => Err(e),
        }
    }

    /// The identifier that the cloud issued.
    pub fn kinton_uuid(&self) -> (uuid: &String)
        ensures
            uuid@ == self@.kinton_uuid,
    {
        &self.kinton_uuid
    }

    /// The secret that the cloud issued.
    pub fn kinton_secret(&self) -> (secret: &String)
        ensures
            secret@ == self@.kinton_secret,
    {
        &self.kinton_secret
    }

    /// The address of the broker.
    pub fn broker(&self) -> (broker: &String)
        ensures
            broker@ == self@.broker,
    {
        &self.broker
    }

    /// Where the dispatch loop stands.
    pub fn state(&self) -> (state: LoopState)
        ensures
            state == self@.state,
    {
        self.state
    }

    /// Records a handler for a topic, in place of an earlier one for the
    /// same topic, and hands back the request to send to the broker.
    pub fn subscribe(&mut self, topic: String, handler: H) -> (request: Subscription)
        ensures
            final(self)@ == old(self)@.subscribed(topic@, handler),
            request.topic@ == topic@,
            request.qos == QualityOfService::AtMostOnce,
    {
        let request = Subscription { topic: topic.clone(), qos: QualityOfService::AtMostOnce };
        self.handlers.insert(topic, handler);
        request
    }

    /// The message to send to the broker for a payload on a topic: sent
    /// once, with no acknowledgement to wait for.
    pub fn publish(&self, topic: String, message: Vec<u8>) -> (request: Publication)
        ensures
            request.topic@ == topic@,
            request.payload@ == message@,
            request.qos == QualityOfService::AtMostOnce,
    {
        Publication { topic, payload: message, qos: QualityOfService::AtMostOnce }
    }

    /// Asks for the dispatch loop. The answer is `true` where the caller is
    /// to start it: where none runs. A device never has two.
    pub fn listen(&mut self) -> (start: bool)
        ensures
            start == (old(self)@.state == LoopState::Idle),
            final(self)@ == (DeviceView {
                state: if start {
                    LoopState::Running
                } else {
                    old(self)@.state
                },
                ..old(self)@
            }),
    {
        match self.state {
            LoopState::Idle => {
                self.state = LoopState::Running;
                true
            },
            _ => false,
        }
    }

    /// Tells the dispatch loop to end. The loop learns of it from
    /// `dispatch` and `keep_listening`.
    pub fn cancel(&mut self)
        ensures
            final(self)@ == (DeviceView {
                state: if old(self)@.state == LoopState::Running {
                    LoopState::Cancelled
                } else {
                    old(self)@.state
                },
                ..old(self)@
            }),
    {
        match self.state {
            LoopState::Running => {
                self.state = LoopState::Cancelled;
            },
            _ => {},
        }
    }

    /// Whether the dispatch loop is to go on; it asks at every turn.
    pub fn keep_listening(&self) -> (go_on: bool)
        ensures
            go_on == (self@.state == LoopState::Running),
    {
        match self.state {
            LoopState::Running => true,
            _ => false,
        }
    }

    /// The dispatch loop has ended; another may be started.
    pub fn finished(&mut self)
        ensures
            final(self)@ == (DeviceView { state: LoopState::Idle, ..old(self)@ }),
    {
        self.state = LoopState::Idle;
    }

    /// What to do with a message that arrived on a topic: hand it to the
    /// handler of the topic, or drop it where the topic has none. A message
    /// without a handler never ends the loop; only a cancelled loop stops.
    pub fn dispatch(&self, topic: &str) -> (action: Dispatch<'_, H>)
        ensures
            match action {
                Dispatch::Deliver(handler) => self@.receiver(topic@) == Some(*handler),
                Dispatch::UnregisteredTopic => self@.state == LoopState::Running
                    && !self@.handlers.contains_key(topic@),
                Dispatch::Stop => self@.state != LoopState::Running,
            },
            self@.state == LoopState::Running ==> !(action is Stop),
    {
        if !self.keep_listening() {
            return Dispatch::Stop;
        }
        match self.handlers.get(topic) {
            Some(handler) => Dispatch::Deliver(handler),
            None => Dispatch::UnregisteredTopic,
        }
    }
}

} // verus!
