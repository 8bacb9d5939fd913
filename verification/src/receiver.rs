//! The protocol server: the logic behind the IPC endpoint.
//!
//! Each accepted request is normalized into a canonical record under a
//! fresh id and published on the bus; every outbound signal the IPC layer
//! must emit is produced here as a plain value.  The id is a counter
//! minted by the server itself, never chosen by the caller, so it is
//! unique for the lifetime of the process.  The IPC transport holds the
//! server exclusively while handling a call, which is what serializes id
//! assignment between concurrent callers.

use vstd::prelude::*;

use crate::bus::{Bus, BusReceiver};
use crate::hints::{all_hints_convertible, ProtocolError, WireValue};
use crate::notification::{
    msg_id, msg_wf, normalize, normalized_rep, NotificationMsg, NotificationMsgRep,
};
use vstd::string::StringExecFns;

verus! {

/// Reason code: the notification expired.
pub const REASON_EXPIRED: u32 = 1;

/// Reason code: the user dismissed the notification.
pub const REASON_DISMISSED: u32 = 2;

/// Reason code: a `close_notification` call withdrew it.
pub const REASON_CLOSED_BY_CALL: u32 = 3;

/// Reason code: undefined or reserved.
pub const REASON_UNDEFINED: u32 = 4;

/// A server-initiated signal for the IPC layer to emit.
#[derive(Debug, PartialEq, Eq)]
pub enum OutSignal {
    /// The user invoked the action with this key on this notification.
    ActionInvoked(u32, String),
    /// The notification was withdrawn, with a reason code.
    NotificationClosed(u32, u32),
    /// The user replied inline to this notification.
    NotificationReplied(u32, String),
}

/// Abstraction of an [`OutSignal`].
pub enum OutSignalRep {
    ActionInvoked(u32, Seq<char>),
    NotificationClosed(u32, u32),
    NotificationReplied(u32, Seq<char>),
}

impl View for OutSignal {
    type V = OutSignalRep;

    open spec fn view(&self) -> OutSignalRep {
        match self {
            OutSignal::ActionInvoked(id, key) => OutSignalRep::ActionInvoked(*id, key@),
            OutSignal::NotificationClosed(id, reason) => OutSignalRep::NotificationClosed(
                *id,
                *reason,
            ),
            OutSignal::NotificationReplied(id, message) => OutSignalRep::NotificationReplied(
                *id,
                message@,
            ),
        }
    }
}

impl DeepView for OutSignal {
    type V = OutSignalRep;

    open spec fn deep_view(&self) -> OutSignalRep {
        self.view()
    }
}

/// The IPC-facing service: mints ids and publishes canonical records.
pub struct NotificationReceiver {
    next_id: u32,
    bus: Bus,
}

impl NotificationReceiver {
    /// The id the next accepted request will get.
    pub closed spec fn next_id_spec(&self) -> u32 {
        self.next_id
    }

    /// Every message this server ever published, in publish order.
    pub closed spec fn log(&self) -> Seq<NotificationMsgRep> {
        self.bus.log()
    }

    /// The server's invariant: the id counter started at 1 and was bumped
    /// once per publication, so published ids grow strictly and all sit
    /// below the counter.
    pub closed spec fn wf(&self) -> bool {
        &&& self.bus.wf()
        &&& 1 <= self.next_id
        &&& self.log().len() < self.next_id
        &&& forall|i: int| 0 <= i < self.log().len() ==> msg_id(self.log()[i]) < self.next_id
        &&& forall|i: int, j: int|
            0 <= i < j < self.log().len() ==> msg_id(self.log()[i]) < msg_id(self.log()[j])
        &&& forall|i: int| 0 <= i < self.log().len() ==> msg_wf(#[trigger] self.log()[i])
    }

    /// A fresh server: nothing published, ids start at 1 (0 is reserved
    /// to mean "new" in `replaces_id`).
    pub fn new() -> (r: NotificationReceiver)
        ensures
            r.wf(),
            r.log() == Seq::<NotificationMsgRep>::empty(),
            r.next_id_spec() == 1,
    {
        NotificationReceiver { next_id: 1, bus: Bus::new() }
    }

    /// The bus this server publishes on, for subscribers to read.
    pub fn bus(&self) -> (r: &Bus)
        requires
            self.wf(),
        ensures
            r.wf(),
            r.log() == self.log(),
    {
        &self.bus
    }

    /// A new subscription: its cursor sits at the end of the log.
    pub fn subscribe(&self) -> (r: BusReceiver)
        requires
            self.wf(),
        ensures
            r.index() == self.log().len(),
    {
        self.bus.subscribe()
    }

    /// Handles a `notify` request.  On success a fresh id is returned,
    /// the counter moves past it, and exactly one canonical record —
    /// normalized from the arguments under that id — is appended to the
    /// log.  The call fails, leaving the server untouched, exactly when
    /// some hint value cannot be converted or the id space is used up.
    pub fn notify(
        &mut self,
        app_name: String,
        replaces_id: u32,
        app_icon: String,
        summary: String,
        body: String,
        actions: Vec<String>,
        hints: Vec<(String, WireValue)>,
        expire_timeout: i32,
        now: u64,
    ) -> (r: Result<u32, ProtocolError>)
        requires
            old(self).wf(),
        ensures
            final(self).wf(),
            r is Ok <==> all_hints_convertible(hints.deep_view()) && old(self).next_id_spec()
                < u32::MAX,
            r matches Ok(id) ==> {
                &&& id == old(self).next_id_spec()
                &&& final(self).next_id_spec() == old(self).next_id_spec() + 1
                &&& final(self).log() == old(self).log().push(final(self).log().last())
                &&& final(self).log().last() matches NotificationMsgRep::Notification(n)
                    && normalized_rep(
                    n,
                    id,
                    app_name@,
                    replaces_id,
                    app_icon@,
                    summary@,
                    body@,
                    actions.deep_view(),
                    hints.deep_view(),
                    expire_timeout as int,
                    now,
                )
            },
            r is Err ==> *final(self) == *old(self),
            r matches Err(e) ==> e == (if !all_hints_convertible(hints.deep_view()) {
                ProtocolError::HintNotConvertible
            } else {
                ProtocolError::IdSpaceExhausted
            }),
    {
        let candidate = normalize(
            self.next_id,
            app_name,
            replaces_id,
            app_icon,
            summary,
            body,
            &actions,
            &hints,
            expire_timeout,
            now,
        );
        let n = match candidate {
            Ok(n) => n,
            Err(e) => {
                return Err(e);
            },
        };
        if self.next_id == u32::MAX {
            return Err(ProtocolError::IdSpaceExhausted);
        }
        let id = self.next_id;
        self.next_id = self.next_id + 1;
        self.bus.publish(NotificationMsg::Notification(n));
        Ok(id)
    }

    /// Handles a `close_notification` call: the IPC layer must emit this
    /// signal, closing the notification by call.
    pub fn close_notification(&self, id: u32) -> (r: OutSignal)
        ensures
            r == OutSignal::NotificationClosed(id, REASON_CLOSED_BY_CALL),
    {
        OutSignal::NotificationClosed(id, REASON_CLOSED_BY_CALL)
    }

    /// The static capability set this server advertises.
    pub fn get_capabilities(&self) -> (r: Vec<String>)
        ensures
            r@.len() == 3,
            r@[0]@ == "body"@,
            r@[1]@ == "actions"@,
            r@[2]@ == "body-images"@,
    {
        let mut caps: Vec<String> = Vec::new();
        caps.push(String::from_str("body"));
        caps.push(String::from_str("actions"));
        caps.push(String::from_str("body-images"));
        caps
    }

    /// The static server identification tuple: name, vendor, version,
    /// and the protocol version spoken.
    pub fn get_server_information(&self) -> (r: (String, String, String, String))
        ensures
            r.0@ == "NotificationDaemon"@,
            r.1@ == "1.0"@,
            r.2@ == "rnd"@,
            r.3@ == "1.0"@,
    {
        (
            String::from_str("NotificationDaemon"),
            String::from_str("1.0"),
            String::from_str("rnd"),
            String::from_str("1.0"),
        )
    }

    /// History bookkeeping is not kept across the bus; the call is
    /// acknowledged and changes nothing.
    pub fn update_history(&self) -> (r: Result<(), ProtocolError>)
        ensures
            r is Ok,
    {
        Ok(())
    }

    /// Acknowledged; opening the history view is the presentation
    /// layer's business.
    pub fn open_history(&self) -> (r: Result<(), ProtocolError>)
        ensures
            r is Ok,
    {
        Ok(())
    }

    /// Acknowledged; closing the history view is the presentation
    /// layer's business.
    pub fn close_history(&self) -> (r: Result<(), ProtocolError>)
        ensures
            r is Ok,
    {
        Ok(())
    }

    /// Acknowledged; toggling the history view is the presentation
    /// layer's business.
    pub fn toggle_history(&self) -> (r: Result<(), ProtocolError>)
        ensures
            r is Ok,
    {
        Ok(())
    }

    /// Acknowledges the request to close the inline-reply window with
    /// this id; the window is the presentation layer's business and
    /// nothing changes on the server.
    pub fn reply_close(&self, _id: u32) -> (r: Result<(), ProtocolError>)
        ensures
            r is Ok,
    {
        Ok(())
    }

    /// The signal emitted when the user invokes an action.
    pub fn action_invoked(id: u32, action_key: String) -> (r: OutSignal)
        ensures
            r@ == OutSignalRep::ActionInvoked(id, action_key@),
    {
        OutSignal::ActionInvoked(id, action_key)
    }

    /// The signal emitted when a notification is withdrawn.
    pub fn notification_closed(id: u32, reason: u32) -> (r: OutSignal)
        ensures
            r == OutSignal::NotificationClosed(id, reason),
    {
        OutSignal::NotificationClosed(id, reason)
    }

    /// The signal emitted when the user replies inline.
    pub fn notification_replied(id: u32, message: String) -> (r: OutSignal)
        ensures
            r@ == OutSignalRep::NotificationReplied(id, message@),
    {
        OutSignal::NotificationReplied(id, message)
    }
}

/// Ids are unique across the process lifetime: any two records this
/// server ever published carry different ids.  Together with
/// [`NotificationReceiver::notify`]'s contract — the returned id is the
/// counter's value and the counter then moves past it — no two accepted
/// requests, however interleaved, are ever answered with the same id.
pub proof fn lemma_published_ids_unique(r: &NotificationReceiver, i: int, j: int)
    requires
        r.wf(),
        0 <= i < r.log().len(),
        0 <= j < r.log().len(),
        i != j,
    ensures
        msg_id(r.log()[i]) != msg_id(r.log()[j]),
{
}

/// Every record this server publishes is well-formed, so consumers can
/// feed what they receive straight into their registries.
pub proof fn lemma_log_wf(r: &NotificationReceiver, i: int)
    requires
        r.wf(),
        0 <= i < r.log().len(),
    ensures
        msg_wf(r.log()[i]),
{
}

/// A fresh id is distinct from every id published before it, hence from
/// every notification currently live anywhere downstream of the bus.
pub proof fn lemma_fresh_id(r: &NotificationReceiver, i: int)
    requires
        r.wf(),
        0 <= i < r.log().len(),
    ensures
        msg_id(r.log()[i]) != r.next_id_spec(),
{
}

} // verus!
