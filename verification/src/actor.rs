//! The peer actor's decision core.
//!
//! The actor is the single owner of the network endpoint: it alone turns
//! commands and network occurrences into endpoint effects and announced
//! events, so the endpoint is never touched from two places at once.  The
//! decisions themselves are pure and live here; the loop that waits on the
//! two sources, performs each [`EndpointAction`] against the endpoint and
//! feeds each occurrence back in as a [`NetworkEvent`] runs outside the
//! library.

use vstd::prelude::*;
use crate::command::{CommandOutput, PeerCommand};
use crate::error::{PeerError, PublishFailure};
use crate::event::{MessageReceivedEvent, PeerEvent, PeerJoinedEvent, PeerLeftEvent};
use crate::message::{spec_decode, spec_encode, Message, MessageView};

verus! {

/// An effect the actor asks the endpoint to perform.
#[derive(Debug, PartialEq, Eq)]
pub enum EndpointAction {
    /// Register topic membership with the pub/sub layer.
    Subscribe(String),
    /// Deregister topic membership.
    Unsubscribe(String),
    /// Publish a framed payload on a topic.
    Publish { topic: String, payload: Vec<u8> },
    /// Record a discovered peer's address in the routing table.
    AddAddress { peer_id: String, addr: String },
}

/// What handling one command decided.
#[derive(Debug, PartialEq, Eq)]
pub enum CommandDisposition {
    /// The reply is already decided; the action, if any, is still to be
    /// performed against the endpoint.
    Replied(CommandOutput, Option<EndpointAction>),
    /// The payload is to be published; the reply awaits the endpoint's
    /// outcome and is settled by [`PeerActor::settle_publish`].
    Publish { topic: String, payload: Vec<u8> },
}

/// A peer seen by local-network discovery.
#[derive(Debug, PartialEq, Eq)]
pub struct DiscoveredPeer {
    pub peer_id: String,
    pub addr: String,
}

/// An occurrence the network endpoint surfaced to the actor, reduced to
/// plain values.
#[derive(Debug, PartialEq, Eq)]
pub enum NetworkEvent {
    /// Remote peers became reachable on the local network.
    Discovered(Vec<DiscoveredPeer>),
    /// A pub/sub payload arrived from `source`.
    PubsubMessage { source: String, message_id: String, payload: Vec<u8> },
    /// A remote peer subscribed to a topic.
    PeerSubscribed { peer_id: String, topic: String },
    /// A remote peer unsubscribed from a topic.
    PeerUnsubscribed { peer_id: String, topic: String },
    /// Anything else the endpoint may surface; ignored.
    Other,
}

/// What handling one network occurrence decided: effects to perform and
/// at most one event to announce.
#[derive(Debug, PartialEq, Eq)]
pub struct EventStep {
    pub actions: Vec<EndpointAction>,
    pub event: Option<PeerEvent>,
}

/// The actor's own state: the set of topics this peer currently follows,
/// mirroring what it has registered with the pub/sub layer.
#[derive(Debug)]
pub struct PeerActor {
    topics: Vec<String>,
}

/// The membership set after one command: subscribe inserts its topic,
/// unsubscribe removes it, sending changes nothing.
pub open spec fn spec_step_topics(topics: Set<Seq<char>>, cmd: PeerCommand) -> Set<Seq<char>> {
    match cmd {
        PeerCommand::Subscribe(c) => topics.insert(c.topic@),
        PeerCommand::Unsubscribe(c) => topics.remove(c.topic@),
        PeerCommand::SendMessage(_) => topics,
    }
}

/// The membership set after a whole sequence of commands.
pub open spec fn spec_run_topics(topics: Set<Seq<char>>, cmds: Seq<PeerCommand>) -> Set<Seq<char>>
    decreases cmds.len(),
{
    if cmds.len() == 0 {
        topics
    } else {
        spec_step_topics(spec_run_topics(topics, cmds.drop_last()), cmds.last())
    }
}

/// The reply and effect one command must produce, given the membership
/// set it meets: this is the membership-set model the actor's replies
/// follow.  A subscription reply says whether it was new, an
/// unsubscription reply whether membership existed, and a send turns into
/// the framed payload whose reply the endpoint's outcome settles.
pub open spec fn command_step_spec(
    topics: Set<Seq<char>>,
    cmd: PeerCommand,
    step: CommandDisposition,
) -> bool {
    match cmd {
        PeerCommand::Subscribe(c) => {
            if topics.contains(c.topic@) {
                step == CommandDisposition::Replied(
                    CommandOutput::Subscribed(false),
                    None::<EndpointAction>,
                )
            } else {
                step matches CommandDisposition::Replied(out, act)
                    && out == CommandOutput::Subscribed(true)
                    && (act matches Some(a) && (a matches EndpointAction::Subscribe(t)
                    && t@ == c.topic@))
            }
        },
        PeerCommand::Unsubscribe(c) => {
            if topics.contains(c.topic@) {
                step matches CommandDisposition::Replied(out, act)
                    && out == CommandOutput::Unsubscribed(true)
                    && (act matches Some(a) && (a matches EndpointAction::Unsubscribe(t)
                    && t@ == c.topic@))
            } else {
                step == CommandDisposition::Replied(
                    CommandOutput::Unsubscribed(false),
                    None::<EndpointAction>,
                )
            }
        },
        PeerCommand::SendMessage(c) => {
            step matches CommandDisposition::Publish { topic, payload } && topic@ == c.topic@
                && payload@ == spec_encode(
                MessageView { data: c.message@, timestamp: c.timestamp, topic: c.topic@ },
            )
        },
    }
}

/// The event and effects one network occurrence must produce.  A pub/sub
/// payload announces `MessageReceived` exactly when it decodes as a
/// message — a malformed payload announces nothing and stops nothing.
/// Discovery only feeds the routing table; membership changes of remote
/// peers announce `PeerJoined` and `PeerLeft`, stamped `now`.
pub open spec fn network_step_spec(ev: NetworkEvent, now: u64, step: EventStep) -> bool {
    match ev {
        NetworkEvent::Discovered(peers) => {
            &&& step.event is None
            &&& step.actions@.len() == peers@.len()
            &&& forall|i: int|
                0 <= i < peers@.len() ==> (#[trigger] step.actions@[i] matches
                EndpointAction::AddAddress { peer_id, addr } && peer_id@ == peers@[i].peer_id@
                    && addr@ == peers@[i].addr@)
        },
        NetworkEvent::PubsubMessage { source, message_id, payload } => {
            &&& step.actions@.len() == 0
            &&& match spec_decode(payload@) {
                Some(m) => step.event matches Some(e) && (e matches PeerEvent::MessageReceived(mr)
                    && mr.message_id@ == message_id@ && mr.message@ == m.data && mr.timestamp
                    == m.timestamp && mr.topic@ == m.topic && mr.peer_id@ == source@),
                None => step.event is None,
            }
        },
        NetworkEvent::PeerSubscribed { peer_id, topic } => {
            &&& step.actions@.len() == 0
            &&& step.event matches Some(e) && (e matches PeerEvent::PeerJoined(j) && j.peer_id@
                == peer_id@ && j.topic@ == topic@ && j.timestamp == now)
        },
        NetworkEvent::PeerUnsubscribed { peer_id, topic } => {
            &&& step.actions@.len() == 0
            &&& step.event matches Some(e) && (e matches PeerEvent::PeerLeft(l) && l.peer_id@
                == peer_id@ && l.topic@ == topic@ && l.timestamp == now)
        },
        NetworkEvent::Other => step.actions@.len() == 0 && step.event is None,
    }
}

/// Replies alternate with membership, over any sequence of commands: when
/// every disposition follows the membership-set model — as
/// [`PeerActor::handle_command`] and [`PeerActor::handle_commands`]
/// guarantee — a subscription reply says "new" exactly when its topic was
/// absent at that point of the sequence, and an unsubscription reply says
/// "existed" exactly when it was present.
pub proof fn lemma_replies_follow_membership(
    init: Set<Seq<char>>,
    cmds: Seq<PeerCommand>,
    steps: Seq<CommandDisposition>,
)
    requires
        steps.len() == cmds.len(),
        forall|i: int|
            0 <= i < cmds.len() ==> command_step_spec(
                spec_run_topics(init, cmds.take(i)),
                cmds[i],
                #[trigger] steps[i],
            ),
    ensures
        forall|i: int|
            0 <= i < cmds.len() ==> (cmds[i] matches PeerCommand::Subscribe(c) ==> (
            #[trigger] steps[i] matches CommandDisposition::Replied(out, _) && out
                == CommandOutput::Subscribed(
                !spec_run_topics(init, cmds.take(i)).contains(c.topic@),
            ))),
        forall|i: int|
            0 <= i < cmds.len() ==> (cmds[i] matches PeerCommand::Unsubscribe(c) ==> (
            #[trigger] steps[i] matches CommandDisposition::Replied(out, _) && out
                == CommandOutput::Unsubscribed(
                spec_run_topics(init, cmds.take(i)).contains(c.topic@),
            ))),
{
    assert forall|i: int| 0 <= i < cmds.len() implies {
        &&& (cmds[i] matches PeerCommand::Subscribe(c) ==> (#[trigger] steps[i] matches
            CommandDisposition::Replied(out, _) && out == CommandOutput::Subscribed(
            !spec_run_topics(init, cmds.take(i)).contains(c.topic@),
        )))
        &&& (cmds[i] matches PeerCommand::Unsubscribe(c) ==> (steps[i] matches
            CommandDisposition::Replied(out, _) && out == CommandOutput::Unsubscribed(
            spec_run_topics(init, cmds.take(i)).contains(c.topic@),
        )))
    } by {
        assert(command_step_spec(spec_run_topics(init, cmds.take(i)), cmds[i], steps[i]));
    }
}

impl PeerActor {
    /// The topics this peer currently follows, as a set of character
    /// sequences.
    pub closed spec fn topics_set(&self) -> Set<Seq<char>> {
        Set::new(
            |t: Seq<char>|
                exists|i: int| 0 <= i < self.topics@.len() && self.topics@[i]@ == t,
        )
    }

    /// The membership list holds no topic twice.
    pub closed spec fn wf(&self) -> bool {
        forall|i: int, j: int|
            0 <= i < j < self.topics@.len() ==> self.topics@[i]@ != self.topics@[j]@
    }

    /// A fresh actor following no topic.
    pub fn new() -> (r: PeerActor)
        ensures
            r.wf(),
            r.topics_set() == Set::<Seq<char>>::empty(),
    {
        let r = PeerActor { topics: Vec::new() };
        proof {
            assert(r.topics_set() =~= Set::<Seq<char>>::empty());
        }
        r
    }

    /// Whether this peer currently follows `topic`.
    pub fn contains_topic(&self, topic: &String) -> (r: bool)
        ensures
            r == self.topics_set().contains(topic@),
    {
        let n = self.topics.len();
        let mut i: usize = 0;
        while i < n
            invariant
                n == self.topics@.len(),
                i <= n,
                forall|j: int| 0 <= j < i ==> self.topics@[j]@ != topic@,
            decreases n - i,
        {
            if self.topics[i] == *topic {
                return true;
            }
            i += 1;
        }
        false
    }

    /// The index at which `topic` stands in the membership list, if it
    /// does.
    fn find_topic(&self, topic: &String) -> (r: Option<usize>)
        ensures
            match r {
                Some(i) => i < self.topics@.len() && self.topics@[i as int]@ == topic@,
                None => !self.topics_set().contains(topic@),
            },
    {
        let n = self.topics.len();
        let mut i: usize = 0;
        while i < n
            invariant
                n == self.topics@.len(),
                i <= n,
                forall|j: int| 0 <= j < i ==> self.topics@[j]@ != topic@,
            decreases n - i,
        {
            if self.topics[i] == *topic {
                return Some(i);
            }
            i += 1;
        }
        None
    }

    /// Handle one command: update the membership set as
    /// [`spec_step_topics`] says, and decide the reply and the endpoint
    /// effect as [`command_step_spec`] says.  Every command yields exactly
    /// one disposition; none is dropped.
    pub fn handle_command(&mut self, cmd: &PeerCommand) -> (step: CommandDisposition)
        requires
            old(self).wf(),
        ensures
            final(self).wf(),
            final(self).topics_set() == spec_step_topics(old(self).topics_set(), *cmd),
            command_step_spec(old(self).topics_set(), *cmd, step),
    {
        match cmd {
            PeerCommand::Subscribe(c) => {
                let member = self.contains_topic(&c.topic);
                if member {
                    proof {
                        assert(self.topics_set() =~= self.topics_set().insert(c.topic@));
                    }
                    CommandDisposition::Replied(
                        CommandOutput::Subscribed(false),
                        None,
                    )
                } else {
                    let ghost old_vec = self.topics@;
                    self.topics.push(c.topic.clone());
                    proof {
                        assert forall|t: Seq<char>|
                            self.topics_set().contains(t) <==> old(
                                self,
                            ).topics_set().insert(c.topic@).contains(t) by {
                            if self.topics_set().contains(t) {
                                let i = choose|i: int|
                                    0 <= i < self.topics@.len() && self.topics@[i]@ == t;
                                if i < old_vec.len() {
                                    assert(old_vec[i]@ == t);
                                }
                            }
                            if old(self).topics_set().contains(t) {
                                let i = choose|i: int| 0 <= i < old_vec.len() && old_vec[i]@ == t;
                                assert(self.topics@[i]@ == t);
                            }
                            if t == c.topic@ {
                                assert(self.topics@[old_vec.len() as int]@ == t);
                            }
                        }
                        assert(self.topics_set() =~= old(self).topics_set().insert(c.topic@));
                    }
                    CommandDisposition::Replied(
                        CommandOutput::Subscribed(true),
                        Some(EndpointAction::Subscribe(c.topic.clone())),
                    )
                }
            },
            PeerCommand::Unsubscribe(c) => {
                match self.find_topic(&c.topic) {
                    Some(i) => {
                        let ghost old_vec = self.topics@;
                        self.topics.remove(i);
                        proof {
                            assert forall|t: Seq<char>|
                                self.topics_set().contains(t) <==> old(
                                    self,
                                ).topics_set().remove(c.topic@).contains(t) by {
                                if self.topics_set().contains(t) {
                                    let j = choose|j: int|
                                        0 <= j < self.topics@.len() && self.topics@[j]@ == t;
                                    if j < i {
                                        assert(old_vec[j]@ == t);
                                        assert(old_vec[j]@ != old_vec[i as int]@);
                                    } else {
                                        assert(old_vec[j + 1]@ == t);
                                        assert(old_vec[j + 1]@ != old_vec[i as int]@);
                                    }
                                }
                                if old(self).topics_set().remove(c.topic@).contains(t) {
                                    let j = choose|j: int|
                                        0 <= j < old_vec.len() && old_vec[j]@ == t;
                                    if j < i {
                                        assert(self.topics@[j]@ == t);
                                    } else {
                                        assert(j != i);
                                        assert(self.topics@[j - 1]@ == t);
                                    }
                                }
                            }
                            assert(self.topics_set() =~= old(self).topics_set().remove(c.topic@));
                        }
                        CommandDisposition::Replied(
                            CommandOutput::Unsubscribed(true),
                            Some(EndpointAction::Unsubscribe(c.topic.clone())),
                        )
                    },
                    None => {
                        proof {
                            assert(self.topics_set() =~= self.topics_set().remove(c.topic@));
                        }
                        CommandDisposition::Replied(
                            CommandOutput::Unsubscribed(false),
                            None,
                        )
                    },
                }
            },
            PeerCommand::SendMessage(c) => {
                let msg = Message::new(c.message.clone(), c.timestamp, c.topic.clone());
                let payload = msg.serialize_to_bytes();
                CommandDisposition::Publish { topic: c.topic.clone(), payload }
            },
        }
    }

    /// Settle the reply of a published message from the endpoint's
    /// outcome: the assigned message identifier becomes the success
    /// payload, a refusal becomes the command's error.  Whatever the
    /// endpoint did, the issuer gets exactly one reply.
    pub fn settle_publish(outcome: Result<String, PublishFailure>) -> (r: Result<
        CommandOutput,
        PeerError,
    >)
        ensures
            outcome matches Ok(id) ==> (r matches Ok(out) && (out matches CommandOutput::Sent(s)
                && s@ == id@)),
            outcome matches Err(f) ==> r == Err::<CommandOutput, PeerError>(PeerError::Publish(f)),
    {
        match outcome {
            Ok(id) => Ok(CommandOutput::Sent(id)),
            Err(f) => Err(PeerError::Publish(f)),
        }
    }

    /// Handle one network occurrence as [`network_step_spec`] says.
    /// Membership does not change: only caller commands move it.
    pub fn handle_network_event(&self, ev: &NetworkEvent, now: u64) -> (step: EventStep)
        ensures
            network_step_spec(*ev, now, step),
    {
        match ev {
            NetworkEvent::Discovered(peers) => {
                let mut actions: Vec<EndpointAction> = Vec::new();
                let n = peers.len();
                let mut i: usize = 0;
                while i < n
                    invariant
                        n == peers@.len(),
                        i <= n,
                        actions@.len() == i,
                        forall|j: int|
                            0 <= j < i ==> (#[trigger] actions@[j] matches
                            EndpointAction::AddAddress { peer_id, addr } && peer_id@
                                == peers@[j].peer_id@ && addr@ == peers@[j].addr@),
                    decreases n - i,
                {
                    actions.push(
                        EndpointAction::AddAddress {
                            peer_id: peers[i].peer_id.clone(),
                            addr: peers[i].addr.clone(),
                        },
                    );
                    i += 1;
                }
                EventStep { actions, event: None }
            },
            NetworkEvent::PubsubMessage { source, message_id, payload } => {
                match Message::deserialize_from_bytes(payload.as_slice()) {
                    Ok(m) => {
                        let event = PeerEvent::MessageReceived(
                            MessageReceivedEvent {
                                message_id: message_id.clone(),
                                message: m.data().clone(),
                                timestamp: *m.timestamp(),
                                topic: m.topic().clone(),
                                peer_id: source.clone(),
                            },
                        );
                        EventStep { actions: Vec::new(), event: Some(event) }
                    },
                    Err(_) => EventStep { actions: Vec::new(), event: None },
                }
            },
            NetworkEvent::PeerSubscribed { peer_id, topic } => {
                let event = PeerEvent::PeerJoined(
                    PeerJoinedEvent {
                        peer_id: peer_id.clone(),
                        topic: topic.clone(),
                        timestamp: now,
                    },
                );
                EventStep { actions: Vec::new(), event: Some(event) }
            },
            NetworkEvent::PeerUnsubscribed { peer_id, topic } => {
                let event = PeerEvent::PeerLeft(
                    PeerLeftEvent {
                        peer_id: peer_id.clone(),
                        topic: topic.clone(),
                        timestamp: now,
                    },
                );
                EventStep { actions: Vec::new(), event: Some(event) }
            },
            NetworkEvent::Other => EventStep { actions: Vec::new(), event: None },
        }
    }

    /// Drain a batch of commands first-in-first-out.  Exactly one
    /// disposition comes back for every command — the actor drops none —
    /// and the `i`-th disposition answers the `i`-th command against the
    /// membership set as it stood after the first `i` commands.
    pub fn handle_commands(&mut self, cmds: &Vec<PeerCommand>) -> (steps: Vec<CommandDisposition>)
        requires
            old(self).wf(),
        ensures
            final(self).wf(),
            steps@.len() == cmds@.len(),
            final(self).topics_set() == spec_run_topics(old(self).topics_set(), cmds@),
            forall|i: int|
                0 <= i < cmds@.len() ==> command_step_spec(
                    spec_run_topics(old(self).topics_set(), cmds@.take(i)),
                    cmds@[i],
                    #[trigger] steps@[i],
                ),
    {
        let ghost init = old(self).topics_set();
        let mut steps: Vec<CommandDisposition> = Vec::new();
        let n = cmds.len();
        let mut i: usize = 0;
        proof {
            assert(cmds@.take(0) =~= Seq::<PeerCommand>::empty());
        }
        while i < n
            invariant
                n == cmds@.len(),
                i <= n,
                steps@.len() == i,
                self.wf(),
                self.topics_set() == spec_run_topics(init, cmds@.take(i as int)),
                forall|j: int|
                    0 <= j < i ==> command_step_spec(
                        spec_run_topics(init, cmds@.take(j)),
                        cmds@[j],
                        #[trigger] steps@[j],
                    ),
            decreases n - i,
        {
            let step = self.handle_command(&cmds[i]);
            steps.push(step);
            proof {
                assert(cmds@.take(i + 1).drop_last() =~= cmds@.take(i as int));
                assert(cmds@.take(i + 1).last() == cmds@[i as int]);
            }
            i += 1;
        }
        proof {
            assert(cmds@.take(n as int) =~= cmds@);
        }
        steps
    }
}

} // verus!
