//! The device client's session, link registry and recovery, as a state machine.
//!
//! The transport does the waiting: it connects, opens links, sends and receives under
//! a time bound, and reports what happened as an outcome. The client decides before
//! each step whether it may be taken, and from each outcome what the step returns and
//! what the client records. A caller alternates the two: ask, perform, report.
use vstd::prelude::*;
use crate::config::{create_address, create_hostname, create_username, address_of, hostname_of, username_of};
use crate::errors::{AmqpFailure, ClientRedirectRecovery, TransferExceptions};
use crate::signing::{base64_decoded, clock_reading, unix_time_now};
use crate::token::{device_token, lemma_token_made, SasToken};

verus! {

/// The credit window granted to every receiver link once it is attached.
pub const RECEIVER_CREDIT: u32 = 360;

/// The time bound, in seconds, on re-attaching one link during recovery.
pub const REATTACH_TIMEOUT_SECS: u64 = 5;

/// The time bound, in seconds, on closing the session during recovery.
pub const RECOVERY_DISCONNECT_TIMEOUT_SECS: u64 = 5;

/// The validity, in days, of the token minted during recovery.
pub const RENEWAL_DAYS: i64 = 1;

/// The largest message a link is opened for.
pub const MAX_MESSAGE_SIZE: u32 = 65535;

/// What the transport reported for an authenticated connection attempt.
#[derive(Clone, Copy, Debug, PartialEq, Eq, Structural)]
pub enum ConnectOutcome {
    Established,
    AuthenticationFailed,
}

/// What the transport reported for an attempt to open a link.
#[derive(Clone, Copy, Debug, PartialEq, Eq, Structural)]
pub enum OpenOutcome {
    /// The link is open under this transport handle.
    Opened { handle: u32 },
    /// The open did not complete within its time bound.
    TimedOut,
    /// The broker refused the link.
    Refused,
}

/// What the transport reported for a send on a sender link.
#[derive(Clone, Copy, Debug, PartialEq, Eq, Structural)]
pub enum SendOutcome {
    /// The broker accepted the message.
    Accepted,
    /// The send did not complete within its time bound.
    TimedOut,
    /// The send completed with a protocol error or a rejecting disposition.
    Rejected,
    /// The session no longer holds a link of that name.
    LinkMissing,
}

/// What the transport reported for a wait on a receiver link.
#[derive(Clone, Copy, Debug, PartialEq, Eq, Structural)]
pub enum ReceiveOutcome {
    /// A message arrived.
    Delivered,
    /// Nothing arrived within the time bound.
    TimedOut,
    /// The link's stream ended without a message.
    StreamEnded,
    /// The transport surfaced a protocol fault.
    Failed,
    /// The session no longer resolves the link's handle.
    LinkMissing,
}

/// What the transport reported for closing the session.
#[derive(Clone, Copy, Debug, PartialEq, Eq, Structural)]
pub enum CloseOutcome {
    Closed,
    TimedOut,
    ProtocolError,
}

/// What the background task that drives the session reported when it was awaited.
#[derive(Clone, Copy, Debug, PartialEq, Eq, Structural)]
pub enum DispatcherOutcome {
    /// The task ended cleanly.
    Finished,
    /// The task was still running when the time bound passed.
    StillRunning,
    /// The task could not be joined.
    JoinFailed,
    ServiceError,
    CodecError,
    ProtocolError,
    Disconnected,
    IoError,
}

/// A link's recovery record: its name and address.
pub struct LinkRecord {
    pub name: String,
    pub address: String,
}

impl View for LinkRecord {
    type V = (Seq<char>, Seq<char>);

    open spec fn view(&self) -> (Seq<char>, Seq<char>) {
        (self.name@, self.address@)
    }
}

impl LinkRecord {
    pub fn duplicate(&self) -> (r: LinkRecord)
        ensures
            r@ == self@,
    {
        LinkRecord { name: self.name.clone(), address: self.address.clone() }
    }
}

/// A receiver link that was attached: the session it was attached in, its transport
/// handle in that session, and the credit window it was granted.
#[derive(Clone, Copy, Debug, PartialEq, Eq, Structural)]
pub struct ReceiverHandle {
    pub session: u64,
    pub handle: u32,
    pub credit: u32,
}

/// The client's state, as values.
pub struct ClientView {
    pub device_id: Seq<char>,
    pub hub_name: Seq<char>,
    pub primary_key: Seq<char>,
    /// The token that the next connection authenticates with.
    pub credential: Seq<char>,
    /// The number of the open session, if one is open.
    pub session: Option<u64>,
    /// The number of the latest session that was opened.
    pub epoch: u64,
    /// The recovery set of sender links, in the order they were attached.
    pub senders: Seq<(Seq<char>, Seq<char>)>,
    /// The recovery set of receiver links, in the order they were attached.
    pub receivers: Seq<(Seq<char>, Seq<char>)>,
    /// The handles of the receiver links that were attached.
    pub handles: Seq<ReceiverHandle>,
}

/// No two sender records share a name, and an open session carries the latest number.
pub open spec fn client_wf(v: ClientView) -> bool {
    &&& forall|i: int, j: int|
        0 <= i < j < v.senders.len() ==> #[trigger] v.senders[i].0 != #[trigger] v.senders[j].0
    &&& (v.session matches Some(s) ==> s == v.epoch)
}

/// The number of the session after `e`.
pub open spec fn next_epoch(e: u64) -> u64 {
    if e == u64::MAX {
        0
    } else {
        (e + 1) as u64
    }
}

pub open spec fn sender_registered(v: ClientView, name: Seq<char>) -> bool {
    exists|i: int| 0 <= i < v.senders.len() && #[trigger] v.senders[i].0 == name
}

pub open spec fn connect_step(v: ClientView, outcome: ConnectOutcome) -> (ClientView, Result<
    (),
    AmqpFailure,
>) {
    if v.session is Some {
        (v, Err(AmqpFailure::AlreadyActive))
    } else {
        match outcome {
            ConnectOutcome::Established => (
                ClientView { session: Some(next_epoch(v.epoch)), epoch: next_epoch(v.epoch), ..v },
                Ok(()),
            ),
            ConnectOutcome::AuthenticationFailed => (v, Err(AmqpFailure::FailedSasl)),
        }
    }
}

pub open spec fn attach_sender_check(v: ClientView, name: Seq<char>) -> Result<(), TransferExceptions> {
    if v.session is None {
        Err(TransferExceptions::NoSession)
    } else if sender_registered(v, name) {
        Err(TransferExceptions::LinkAlreadyActive)
    } else {
        Ok(())
    }
}

pub open spec fn attach_sender_step(
    v: ClientView,
    name: Seq<char>,
    address: Seq<char>,
    outcome: OpenOutcome,
) -> (ClientView, Result<(), TransferExceptions>) {
    match attach_sender_check(v, name) {
        Err(e) => (v, Err(e)),
        Ok(_) => match outcome {
            OpenOutcome::TimedOut => (v, Err(TransferExceptions::GeneralTimeout)),
            OpenOutcome::Refused => (v, Err(TransferExceptions::LinkCreateFailure)),
            OpenOutcome::Opened { .. } => (
                ClientView { senders: v.senders.push((name, address)), ..v },
                Ok(()),
            ),
        },
    }
}

/// Whether a receiver handle of the open session still resolves to a live link;
/// `live[i]` is what the session said of handle `i`, and a handle without a flag
/// counts as not live.
pub open spec fn live_receiver(v: ClientView, live: Seq<bool>) -> bool {
    exists|i: int|
        0 <= i < v.handles.len() && i < live.len() && #[trigger] live[i] && v.session == Some(
            v.handles[i].session,
        )
}

pub open spec fn attach_receiver_check(v: ClientView, live: Seq<bool>) -> Result<(), TransferExceptions> {
    if v.session is None {
        Err(TransferExceptions::NoSession)
    } else if live_receiver(v, live) {
        Err(TransferExceptions::LinkAlreadyActive)
    } else {
        Ok(())
    }
}

/// Attaching a receiver returns the credit window to grant the new link.
pub open spec fn attach_receiver_step(
    v: ClientView,
    name: Seq<char>,
    address: Seq<char>,
    live: Seq<bool>,
    outcome: OpenOutcome,
) -> (ClientView, Result<u32, TransferExceptions>) {
    match attach_receiver_check(v, live) {
        Err(e) => (v, Err(e)),
        Ok(_) => match outcome {
            OpenOutcome::TimedOut => (v, Err(TransferExceptions::GeneralTimeout)),
            OpenOutcome::Refused => (v, Err(TransferExceptions::LinkCreateFailure)),
            OpenOutcome::Opened { handle } => (
                ClientView {
                    handles: v.handles.push(
                        ReceiverHandle { session: v.session->Some_0, handle, credit: RECEIVER_CREDIT },
                    ),
                    receivers: v.receivers.push((name, address)),
                    ..v
                },
                Ok(RECEIVER_CREDIT),
            ),
        },
    }
}

/// Taking the sender records for re-attachment empties the set.
pub open spec fn take_senders_step(v: ClientView) -> ClientView {
    ClientView { senders: Seq::empty(), ..v }
}

/// Taking the receiver records for re-attachment empties the set and drops the
/// handles, which belong to the session that ended.
pub open spec fn take_receivers_step(v: ClientView) -> ClientView {
    ClientView { receivers: Seq::empty(), handles: Seq::empty(), ..v }
}

pub open spec fn send_check(v: ClientView, name: Seq<char>) -> Result<(), TransferExceptions> {
    if v.session is None {
        Err(TransferExceptions::NoSession)
    } else if !sender_registered(v, name) {
        Err(TransferExceptions::LinkDetachedOrDoesNotExist)
    } else {
        Ok(())
    }
}

pub open spec fn send_result(v: ClientView, name: Seq<char>, outcome: SendOutcome) -> Result<
    (),
    TransferExceptions,
> {
    match send_check(v, name) {
        Err(e) => Err(e),
        Ok(_) => match outcome {
            SendOutcome::Accepted => Ok(()),
            SendOutcome::TimedOut => Err(TransferExceptions::MessageTimeOut),
            SendOutcome::Rejected => Err(TransferExceptions::MessageAmqpProtocolError),
            SendOutcome::LinkMissing => Err(TransferExceptions::LinkDetachedOrDoesNotExist),
        },
    }
}

/// The receiver at a position of the handle list, if it belongs to the open session.
pub open spec fn receiver_at(v: ClientView, index: int) -> Option<ReceiverHandle> {
    if v.session is Some && 0 <= index < v.handles.len() && v.session == Some(
        v.handles[index].session,
    ) {
        Some(v.handles[index])
    } else {
        None
    }
}

pub open spec fn receive_result(v: ClientView, index: int, outcome: ReceiveOutcome) -> Result<
    (),
    TransferExceptions,
> {
    match receiver_at(v, index) {
        None => Err(TransferExceptions::LinkDetachedOrDoesNotExist),
        Some(_) => match outcome {
            ReceiveOutcome::Delivered => Ok(()),
            ReceiveOutcome::TimedOut => Err(TransferExceptions::NoMessage),
            ReceiveOutcome::StreamEnded => Err(TransferExceptions::NoMessage),
            ReceiveOutcome::Failed => Err(TransferExceptions::LinkAmqpProtocolError),
            ReceiveOutcome::LinkMissing => Err(TransferExceptions::LinkDetachedOrDoesNotExist),
        },
    }
}

/// Closing the open session: a time-out or a protocol error leaves it in place.
pub open spec fn disconnect_step(v: ClientView, outcome: CloseOutcome) -> (ClientView, Result<
    (),
    ClientRedirectRecovery,
>) {
    match outcome {
        CloseOutcome::Closed => (ClientView { session: None, ..v }, Ok(())),
        CloseOutcome::TimedOut => (v, Err(ClientRedirectRecovery::Timeout)),
        CloseOutcome::ProtocolError => (v, Err(ClientRedirectRecovery::AMQPProtocolFailure)),
    }
}

/// Recovery at time `now`: close the open session, if any (a failure to close is
/// returned and changes nothing), then mint a fresh credential for the next connection.
pub open spec fn recover_step(v: ClientView, teardown: CloseOutcome, now: int) -> (ClientView, Result<
    (),
    ClientRedirectRecovery,
>) {
    let torn = if v.session is Some {
        disconnect_step(v, teardown)
    } else {
        (v, Ok(()))
    };
    if torn.1 is Err {
        torn
    } else {
        match device_token(v.primary_key, RENEWAL_DAYS as int, v.hub_name, v.device_id, now) {
            Ok(t) => (ClientView { credential: t.1, ..torn.0 }, Ok(())),
            Err(_) => (torn.0, Err(ClientRedirectRecovery::GeneralFailure)),
        }
    }
}

pub open spec fn runtime_exception_result(v: ClientView, outcome: DispatcherOutcome) -> Result<
    (),
    ClientRedirectRecovery,
> {
    if v.session is None {
        Err(ClientRedirectRecovery::NoThreadAvailable)
    } else {
        match outcome {
            DispatcherOutcome::Finished => Ok(()),
            DispatcherOutcome::StillRunning => Err(ClientRedirectRecovery::Timeout),
            DispatcherOutcome::JoinFailed => Err(ClientRedirectRecovery::ThreadJoinError),
            DispatcherOutcome::ServiceError => Err(ClientRedirectRecovery::ServiceDisconnect),
            DispatcherOutcome::CodecError => Err(ClientRedirectRecovery::AMQPCodecFailure),
            DispatcherOutcome::ProtocolError => Err(ClientRedirectRecovery::AMQPProtocolFailure),
            DispatcherOutcome::Disconnected => Err(ClientRedirectRecovery::Disconnected),
            DispatcherOutcome::IoError => Err(ClientRedirectRecovery::AMQPIOFailure),
        }
    }
}

/// Once a sender has been attached under a name, attaching a sender under that name
/// again is refused with `LinkAlreadyActive`, whatever the transport would report,
/// and the recovery set keeps its size.
pub proof fn lemma_attach_sender_twice_refused(
    v: ClientView,
    name: Seq<char>,
    address1: Seq<char>,
    address2: Seq<char>,
    outcome1: OpenOutcome,
    outcome2: OpenOutcome,
)
    ensures
        ({
            let first = attach_sender_step(v, name, address1, outcome1);
            let second = attach_sender_step(first.0, name, address2, outcome2);
            first.1 is Ok ==> second.1 == Err::<(), TransferExceptions>(
                TransferExceptions::LinkAlreadyActive,
            ) && second.0 == first.0 && second.0.senders.len() == first.0.senders.len()
        }),
{
    let first = attach_sender_step(v, name, address1, outcome1);
    if first.1 is Ok {
        let k = first.0.senders.len() - 1;
        assert(first.0.senders[k].0 == name);
        assert(sender_registered(first.0, name));
    }
}

/// Every receiver attach that succeeds grants the new link a credit window of
/// `RECEIVER_CREDIT`, whatever the client held before.
pub proof fn lemma_receiver_credit(
    v: ClientView,
    name: Seq<char>,
    address: Seq<char>,
    live: Seq<bool>,
    outcome: OpenOutcome,
)
    ensures
        ({
            let step = attach_receiver_step(v, name, address, live, outcome);
            step.1 is Ok ==> step.1 == Ok::<u32, TransferExceptions>(RECEIVER_CREDIT)
                && step.0.handles.len() == v.handles.len() + 1
                && step.0.handles.last().credit == RECEIVER_CREDIT
        }),
{
}

/// A send that may be made is a time-out when the transport did not complete it in
/// time, and a protocol error when it completed with an error; never the other.
pub proof fn lemma_send_outcome_classified(v: ClientView, name: Seq<char>)
    requires
        send_check(v, name) is Ok,
    ensures
        send_result(v, name, SendOutcome::TimedOut) == Err::<(), TransferExceptions>(
            TransferExceptions::MessageTimeOut,
        ),
        send_result(v, name, SendOutcome::Rejected) == Err::<(), TransferExceptions>(
            TransferExceptions::MessageAmqpProtocolError,
        ),
{
}

/// A wait on a receiver of the open session that saw nothing arrive is `NoMessage`,
/// not a fault.
pub proof fn lemma_idle_receive_is_no_message(v: ClientView, index: int)
    requires
        receiver_at(v, index) is Some,
    ensures
        receive_result(v, index, ReceiveOutcome::TimedOut) == Err::<(), TransferExceptions>(
            TransferExceptions::NoMessage,
        ),
{
}

/// Recovery restores the topology: a client with one sender and one receiver of its
/// open session that closes the session, renews its credential, reconnects, and
/// re-attaches its sender and then its receiver, holds the same recovery records; its
/// receiver has a new handle, with the credit window granted again.
pub proof fn lemma_recovery_restores_topology(
    v: ClientView,
    now: int,
    sender_handle: u32,
    receiver_handle: u32,
)
    requires
        client_wf(v),
        v.session is Some,
        v.senders.len() == 1,
        v.receivers.len() == 1,
        v.handles.len() == 1,
        v.handles[0].session == v.session->Some_0,
    ensures
        ({
            let recovered = recover_step(v, CloseOutcome::Closed, now).0;
            let connected = connect_step(recovered, ConnectOutcome::Established).0;
            let senders_taken = take_senders_step(connected);
            let senders_back = attach_sender_step(
                senders_taken,
                v.senders[0].0,
                v.senders[0].1,
                OpenOutcome::Opened { handle: sender_handle },
            ).0;
            let receivers_taken = take_receivers_step(senders_back);
            let restored = attach_receiver_step(
                receivers_taken,
                v.receivers[0].0,
                v.receivers[0].1,
                Seq::empty(),
                OpenOutcome::Opened { handle: receiver_handle },
            ).0;
            &&& restored.session is Some
            &&& restored.senders == v.senders
            &&& restored.receivers == v.receivers
            &&& restored.handles.len() == 1
            &&& restored.handles[0] != v.handles[0]
            &&& restored.handles[0].credit == RECEIVER_CREDIT
        }),
{
    let recovered = recover_step(v, CloseOutcome::Closed, now).0;
    assert(recovered.session is None);
    assert(recovered.senders == v.senders && recovered.receivers == v.receivers);
    assert(recovered.epoch == v.epoch);
    let connected = connect_step(recovered, ConnectOutcome::Established).0;
    assert(connected.session == Some(next_epoch(v.epoch)));
    let senders_taken = take_senders_step(connected);
    assert(!sender_registered(senders_taken, v.senders[0].0));
    let senders_back = attach_sender_step(
        senders_taken,
        v.senders[0].0,
        v.senders[0].1,
        OpenOutcome::Opened { handle: sender_handle },
    ).0;
    assert(senders_back.senders =~= v.senders);
    let receivers_taken = take_receivers_step(senders_back);
    assert(!live_receiver(receivers_taken, Seq::empty()));
    let restored = attach_receiver_step(
        receivers_taken,
        v.receivers[0].0,
        v.receivers[0].1,
        Seq::empty(),
        OpenOutcome::Opened { handle: receiver_handle },
    ).0;
    assert(restored.receivers =~= v.receivers);
    assert(restored.handles[0].session == next_epoch(v.epoch));
}

/// A device's client: its identity and credential, its session, and the recovery
/// records of the links it attached.
pub struct Client {
    device_id: String,
    hub_name: String,
    primary_key: String,
    credential: String,
    session: Option<u64>,
    epoch: u64,
    recover_links: Vec<LinkRecord>,
    recv_handles: Vec<ReceiverHandle>,
    recv_recover_links: Vec<LinkRecord>,
}

pub open spec fn records_view(links: Seq<LinkRecord>) -> Seq<(Seq<char>, Seq<char>)> {
    links.map_values(|l: LinkRecord| l@)
}

impl View for Client {
    type V = ClientView;

    closed spec fn view(&self) -> ClientView {
        ClientView {
            device_id: self.device_id@,
            hub_name: self.hub_name@,
            primary_key: self.primary_key@,
            credential: self.credential@,
            session: self.session,
            epoch: self.epoch,
            senders: records_view(self.recover_links@),
            receivers: records_view(self.recv_recover_links@),
            handles: self.recv_handles@,
        }
    }
}

impl Client {
    /// A disconnected client with no links, that authenticates with `sas_token`.
    pub fn new(device_id: &str, hub_name: &str, primary_key: &str, sas_token: &str) -> (r: Client)
        ensures
            r@ == (ClientView {
                device_id: device_id@,
                hub_name: hub_name@,
                primary_key: primary_key@,
                credential: sas_token@,
                session: None,
                epoch: 0,
                senders: Seq::empty(),
                receivers: Seq::empty(),
                handles: Seq::empty(),
            }),
            client_wf(r@),
    {
        let r = Client {
            device_id: String::from_str(device_id),
            hub_name: String::from_str(hub_name),
            primary_key: String::from_str(primary_key),
            credential: String::from_str(sas_token),
            session: None,
            epoch: 0,
            recover_links: Vec::new(),
            recv_handles: Vec::new(),
            recv_recover_links: Vec::new(),
        };
        assert(r@.senders =~= Seq::empty());
        assert(r@.receivers =~= Seq::empty());
        r
    }

    /// The position of the sender record named `name`, if there is one.
    fn sender_index(&self, name: &String) -> (r: Option<usize>)
        ensures
            match r {
                Some(i) => i < self@.senders.len() && self@.senders[i as int].0 == name@,
                None => !sender_registered(self@, name@),
            },
    {
        let mut i: usize = 0;
        while i < self.recover_links.len()
            invariant
                i <= self.recover_links@.len(),
                self@.senders == records_view(self.recover_links@),
                forall|j: int| 0 <= j < i ==> #[trigger] self@.senders[j].0 != name@,
            decreases self.recover_links@.len() - i,
        {
            if self.recover_links[i].name == *name {
                return Some(i);
            }
            i = i + 1;
        }
        None
    }

    /// Whether a connection may be made now.
    pub fn check_connect(&self) -> (r: Result<(), AmqpFailure>)
        ensures
            self@.session is None ==> r is Ok,
            self@.session is Some ==> r == Err::<(), AmqpFailure>(AmqpFailure::AlreadyActive),
    {
        if self.session.is_some() {
            Err(AmqpFailure::AlreadyActive)
        } else {
            Ok(())
        }
    }

    /// Records the outcome of an authenticated connection attempt. A client that
    /// holds a session refuses a second one.
    pub fn connect(&mut self, outcome: ConnectOutcome) -> (r: Result<(), AmqpFailure>)
        requires
            client_wf(old(self)@),
        ensures
            (final(self)@, r) == connect_step(old(self)@, outcome),
            client_wf(final(self)@),
    {
        if self.session.is_some() {
            return Err(AmqpFailure::AlreadyActive);
        }
        match outcome {
            ConnectOutcome::Established => {
                self.epoch = self.epoch.wrapping_add(1);
                self.session = Some(self.epoch);
                Ok(())
            },
            ConnectOutcome::AuthenticationFailed => Err(AmqpFailure::FailedSasl),
        }
    }

    /// Records that the open session was closed, or why it could not be.
    pub fn disconnect(&mut self, outcome: CloseOutcome) -> (r: Result<(), ClientRedirectRecovery>)
        requires
            client_wf(old(self)@),
            old(self)@.session is Some,
        ensures
            (final(self)@, r) == disconnect_step(old(self)@, outcome),
            client_wf(final(self)@),
    {
        match outcome {
            CloseOutcome::Closed => {
                self.session = None;
                assert(self@.senders == old(self)@.senders);
                Ok(())
            },
            CloseOutcome::TimedOut => Err(ClientRedirectRecovery::Timeout),
            CloseOutcome::ProtocolError => Err(ClientRedirectRecovery::AMQPProtocolFailure),
        }
    }

    /// Replaces the credential that the next connection authenticates with.
    pub fn update_sas_token(&mut self, new_sas_token: &str)
        requires
            client_wf(old(self)@),
        ensures
            final(self)@ == (ClientView { credential: new_sas_token@, ..old(self)@ }),
            client_wf(final(self)@),
    {
        self.credential = String::from_str(new_sas_token);
    }

    /// Recovers after a failure, at the current time: see `recover_at`.
    pub fn recover(&mut self, teardown: CloseOutcome) -> (r: Result<(), ClientRedirectRecovery>)
        requires
            client_wf(old(self)@),
        ensures
            exists|now: i64|
                clock_reading(now as int) && (final(self)@, r) == #[trigger] recover_step(
                    old(self)@,
                    teardown,
                    now as int,
                ),
            teardown == CloseOutcome::Closed && base64_decoded(old(self)@.primary_key) is Some
                ==> r is Ok,
            client_wf(final(self)@),
    {
        let now = unix_time_now();
        proof {
            lemma_token_made(
                self@.primary_key,
                RENEWAL_DAYS as int,
                self@.hub_name,
                self@.device_id,
                now as int,
            );
        }
        self.recover_at(teardown, now)
    }

    /// Recovers after a failure at time `now`: takes the outcome of closing the open
    /// session (ignored when none is open), discards the session, and renews the
    /// credential. A failure to close is returned, and leaves the client as it was.
    /// The links are re-attached separately, after the next connection.
    pub fn recover_at(&mut self, teardown: CloseOutcome, now: i64) -> (r: Result<(), ClientRedirectRecovery>)
        requires
            client_wf(old(self)@),
        ensures
            (final(self)@, r) == recover_step(old(self)@, teardown, now as int),
            client_wf(final(self)@),
    {
        if self.session.is_some() {
            let torn = self.disconnect(teardown);
            if torn.is_err() {
                return torn;
            }
        }
        match SasToken::new_at(
            self.primary_key.as_str(),
            RENEWAL_DAYS,
            self.hub_name.as_str(),
            self.device_id.as_str(),
            now,
        ) {
            Ok(token) => {
                self.credential = token.sas;
                Ok(())
            },
            Err(_) => Err(ClientRedirectRecovery::GeneralFailure),
        }
    }

    /// Classifies what the session's background task reported when it was awaited.
    pub fn attempt_get_runtime_exception(&self, outcome: DispatcherOutcome) -> (r: Result<
        (),
        ClientRedirectRecovery,
    >)
        ensures
            r == runtime_exception_result(self@, outcome),
    {
        if self.session.is_none() {
            return Err(ClientRedirectRecovery::NoThreadAvailable);
        }
        match outcome {
            DispatcherOutcome::Finished => Ok(()),
            DispatcherOutcome::StillRunning => Err(ClientRedirectRecovery::Timeout),
            DispatcherOutcome::JoinFailed => Err(ClientRedirectRecovery::ThreadJoinError),
            DispatcherOutcome::ServiceError => Err(ClientRedirectRecovery::ServiceDisconnect),
            DispatcherOutcome::CodecError => Err(ClientRedirectRecovery::AMQPCodecFailure),
            DispatcherOutcome::ProtocolError => Err(ClientRedirectRecovery::AMQPProtocolFailure),
            DispatcherOutcome::Disconnected => Err(ClientRedirectRecovery::Disconnected),
            DispatcherOutcome::IoError => Err(ClientRedirectRecovery::AMQPIOFailure),
        }
    }

    /// Whether a sender named `name` may be attached now.
    pub fn check_attach_sender(&self, name: &str) -> (r: Result<(), TransferExceptions>)
        ensures
            r == attach_sender_check(self@, name@),
    {
        if self.session.is_none() {
            return Err(TransferExceptions::NoSession);
        }
        if self.sender_index(&String::from_str(name)).is_some() {
            return Err(TransferExceptions::LinkAlreadyActive);
        }
        Ok(())
    }

    /// Records the outcome of opening a sender link. Attaching is refused without a
    /// session, and for a name that is already in the recovery set.
    pub fn attach_sender(&mut self, name: &str, address: &str, outcome: OpenOutcome) -> (r: Result<
        (),
        TransferExceptions,
    >)
        requires
            client_wf(old(self)@),
        ensures
            (final(self)@, r) == attach_sender_step(old(self)@, name@, address@, outcome),
            client_wf(final(self)@),
    {
        if self.session.is_none() {
            return Err(TransferExceptions::NoSession);
        }
        let name = String::from_str(name);
        if self.sender_index(&name).is_some() {
            return Err(TransferExceptions::LinkAlreadyActive);
        }
        match outcome {
            OpenOutcome::TimedOut => Err(TransferExceptions::GeneralTimeout),
            OpenOutcome::Refused => Err(TransferExceptions::LinkCreateFailure),
            OpenOutcome::Opened { .. } => {
                let ghost old_senders = self@.senders;
                let record = LinkRecord { name, address: String::from_str(address) };
                self.recover_links.push(record);
                assert(self@.senders =~= old_senders.push((name@, address@)));
                Ok(())
            },
        }
    }

    /// Whether a receiver may be attached now; `live[i]` says whether the session
    /// still resolves the `i`-th receiver handle to a link, and a handle without a
    /// flag counts as not live.
    pub fn check_attach_receiver(&self, live: &Vec<bool>) -> (r: Result<(), TransferExceptions>)
        ensures
            r == attach_receiver_check(self@, live@),
    {
        if self.session.is_none() {
            return Err(TransferExceptions::NoSession);
        }
        let mut i: usize = 0;
        while i < self.recv_handles.len()
            invariant
                i <= self.recv_handles@.len(),
                self@.handles == self.recv_handles@,
                self@.session is Some,
                forall|j: int|
                    0 <= j < i ==> !(j < live@.len() && #[trigger] live@[j] && self@.session == Some(
                        self@.handles[j].session,
                    )),
            decreases self.recv_handles@.len() - i,
        {
            if i < live.len() && live[i] && self.session == Some(self.recv_handles[i].session) {
                return Err(TransferExceptions::LinkAlreadyActive);
            }
            i = i + 1;
        }
        Ok(())
    }

    /// Records the outcome of opening a receiver link, and returns the credit window
    /// to grant it. Attaching is refused without a session, and while a receiver of
    /// the session is live; `live` is as for `check_attach_receiver`.
    pub fn attach_receiver(
        &mut self,
        name: &str,
        address: &str,
        live: &Vec<bool>,
        outcome: OpenOutcome,
    ) -> (r: Result<u32, TransferExceptions>)
        requires
            client_wf(old(self)@),
        ensures
            (final(self)@, r) == attach_receiver_step(old(self)@, name@, address@, live@, outcome),
            client_wf(final(self)@),
    {
        match self.check_attach_receiver(live) {
            Err(e) => return Err(e),
            Ok(_) => {},
        }
        match outcome {
            OpenOutcome::TimedOut => Err(TransferExceptions::GeneralTimeout),
            OpenOutcome::Refused => Err(TransferExceptions::LinkCreateFailure),
            OpenOutcome::Opened { handle } => {
                let session = match self.session {
                    Some(s) => s,
                    None => return Err(TransferExceptions::NoSession),
                };
                let ghost old_receivers = self@.receivers;
                self.recv_handles.push(ReceiverHandle { session, handle, credit: RECEIVER_CREDIT });
                let record = LinkRecord { name: String::from_str(name), address: String::from_str(address) };
                self.recv_recover_links.push(record);
                assert(self@.receivers =~= old_receivers.push((name@, address@)));
                Ok(RECEIVER_CREDIT)
            },
        }
    }

    /// Hands out the sender records for re-attachment and empties the set.
    pub fn take_sender_links(&mut self) -> (r: Vec<LinkRecord>)
        requires
            client_wf(old(self)@),
        ensures
            records_view(r@) == old(self)@.senders,
            final(self)@ == take_senders_step(old(self)@),
            client_wf(final(self)@),
    {
        let mut taken: Vec<LinkRecord> = Vec::new();
        std::mem::swap(&mut taken, &mut self.recover_links);
        assert(self@.senders =~= Seq::empty());
        taken
    }

    /// Hands out the receiver records for re-attachment, empties the set, and drops
    /// the handles of the session that ended.
    pub fn take_receiver_links(&mut self) -> (r: Vec<LinkRecord>)
        requires
            client_wf(old(self)@),
        ensures
            records_view(r@) == old(self)@.receivers,
            final(self)@ == take_receivers_step(old(self)@),
            client_wf(final(self)@),
    {
        let mut taken: Vec<LinkRecord> = Vec::new();
        std::mem::swap(&mut taken, &mut self.recv_recover_links);
        self.recv_handles = Vec::new();
        assert(self@.receivers =~= Seq::empty());
        assert(self@.handles =~= Seq::empty());
        taken
    }

    /// Whether a message may be sent on the sender named `name` now.
    pub fn check_send(&self, name: &str) -> (r: Result<(), TransferExceptions>)
        ensures
            r == send_check(self@, name@),
    {
        if self.session.is_none() {
            return Err(TransferExceptions::NoSession);
        }
        if self.sender_index(&String::from_str(name)).is_none() {
            return Err(TransferExceptions::LinkDetachedOrDoesNotExist);
        }
        Ok(())
    }

    /// What a send on the sender named `name` returns, given what the transport
    /// reported. A send that timed out is a time-out; one that completed with an
    /// error is a protocol error.
    pub fn send_message(&self, sender_link_name: &str, outcome: SendOutcome) -> (r: Result<
        (),
        TransferExceptions,
    >)
        ensures
            r == send_result(self@, sender_link_name@, outcome),
    {
        match self.check_send(sender_link_name) {
            Err(e) => Err(e),
            Ok(_) => match outcome {
                SendOutcome::Accepted => Ok(()),
                SendOutcome::TimedOut => Err(TransferExceptions::MessageTimeOut),
                SendOutcome::Rejected => Err(TransferExceptions::MessageAmqpProtocolError),
                SendOutcome::LinkMissing => Err(TransferExceptions::LinkDetachedOrDoesNotExist),
            },
        }
    }

    /// The receiver at position `link_index` of the handle list, if it belongs to the
    /// open session.
    pub fn retrieve_receiver_link(&self, link_index: u32) -> (r: Option<ReceiverHandle>)
        ensures
            r == receiver_at(self@, link_index as int),
    {
        let i = link_index as usize;
        match self.session {
            None => None,
            Some(s) => {
                if i < self.recv_handles.len() && self.recv_handles[i].session == s {
                    Some(self.recv_handles[i])
                } else {
                    None
                }
            },
        }
    }

    /// What a wait on the receiver at `link_index` returns, given what the transport
    /// reported. A wait with nothing delivered is `NoMessage`; the client is left as
    /// it was, so the wait may be repeated.
    pub fn receive_message_listener(&self, link_index: u32, outcome: ReceiveOutcome) -> (r: Result<
        (),
        TransferExceptions,
    >)
        ensures
            r == receive_result(self@, link_index as int, outcome),
    {
        match self.retrieve_receiver_link(link_index) {
            None => Err(TransferExceptions::LinkDetachedOrDoesNotExist),
            Some(_) => match outcome {
                ReceiveOutcome::Delivered => Ok(()),
                ReceiveOutcome::TimedOut => Err(TransferExceptions::NoMessage),
                ReceiveOutcome::StreamEnded => Err(TransferExceptions::NoMessage),
                ReceiveOutcome::Failed => Err(TransferExceptions::LinkAmqpProtocolError),
                ReceiveOutcome::LinkMissing => Err(TransferExceptions::LinkDetachedOrDoesNotExist),
            },
        }
    }

    pub fn is_connected(&self) -> (r: bool)
        ensures
            r == self@.session is Some,
    {
        self.session.is_some()
    }

    /// The credential that the next connection authenticates with.
    pub fn credential(&self) -> (r: String)
        ensures
            r@ == self@.credential,
    {
        self.credential.clone()
    }

    /// The SASL user name the client authenticates as.
    pub fn username(&self) -> (r: String)
        ensures
            r@ == username_of(self@.device_id, self@.hub_name),
    {
        create_username(self.device_id.as_str(), self.hub_name.as_str())
    }

    pub fn hostname(&self) -> (r: String)
        ensures
            r@ == hostname_of(self@.hub_name),
    {
        create_hostname(self.hub_name.as_str())
    }

    pub fn address(&self) -> (r: String)
        ensures
            r@ == address_of(self@.hub_name),
    {
        create_address(self.hub_name.as_str())
    }

    /// A copy of the sender recovery set.
    pub fn sender_links(&self) -> (r: Vec<LinkRecord>)
        ensures
            records_view(r@) == self@.senders,
    {
        copy_records(&self.recover_links)
    }

    /// A copy of the receiver recovery set.
    pub fn receiver_links(&self) -> (r: Vec<LinkRecord>)
        ensures
            records_view(r@) == self@.receivers,
    {
        copy_records(&self.recv_recover_links)
    }

    /// A copy of the receiver handle list.
    pub fn receiver_handles(&self) -> (r: Vec<ReceiverHandle>)
        ensures
            r@ == self@.handles,
    {
        let mut r: Vec<ReceiverHandle> = Vec::new();
        let mut i: usize = 0;
        while i < self.recv_handles.len()
            invariant
                i <= self.recv_handles@.len(),
                r@ == self.recv_handles@.subrange(0, i as int),
            decreases self.recv_handles@.len() - i,
        {
            r.push(self.recv_handles[i]);
            i = i + 1;
            assert(r@ =~= self.recv_handles@.subrange(0, i as int));
        }
        assert(r@ =~= self.recv_handles@);
        r
    }
}

fn copy_records(links: &Vec<LinkRecord>) -> (r: Vec<LinkRecord>)
    ensures
        records_view(r@) == records_view(links@),
{
    let mut r: Vec<LinkRecord> = Vec::new();
    let mut i: usize = 0;
    while i < links.len()
        invariant
            i <= links@.len(),
            r@.len() == i,
            forall|j: int| 0 <= j < i ==> #[trigger] r@[j]@ == links@[j]@,
        decreases links@.len() - i,
    {
        r.push(links[i].duplicate());
        i = i + 1;
    }
    assert(records_view(r@) =~= records_view(links@));
    r
}

/// A link that could not be re-attached: its name and address, and why.
pub struct ReattachFailure {
    pub name: String,
    pub address: String,
    pub error: TransferExceptions,
}

impl View for ReattachFailure {
    type V = (Seq<char>, Seq<char>, TransferExceptions);

    open spec fn view(&self) -> (Seq<char>, Seq<char>, TransferExceptions) {
        (self.name@, self.address@, self.error)
    }
}

pub open spec fn failures_view(f: Seq<ReattachFailure>) -> Seq<(Seq<char>, Seq<char>, TransferExceptions)> {
    f.map_values(|x: ReattachFailure| x@)
}

/// The records among the first `n` whose re-attachment failed, in order, each with
/// its error; `results[i]` is what attaching `links[i]` returned.
pub open spec fn reattach_failures(
    links: Seq<(Seq<char>, Seq<char>)>,
    results: Seq<Result<(), TransferExceptions>>,
    n: nat,
) -> Seq<(Seq<char>, Seq<char>, TransferExceptions)>
    decreases n,
{
    if n == 0 {
        Seq::empty()
    } else {
        let k = n - 1;
        let earlier = reattach_failures(links, results, k as nat);
        match results[k] {
            Err(e) => earlier.push((links[k].0, links[k].1, e)),
            Ok(_) => earlier,
        }
    }
}

/// Reports which re-attachments failed: for each taken record, in order, the
/// result of attaching it again. Records past the end of either list are not
/// reported.
pub fn reattach_report(links: &Vec<LinkRecord>, results: &Vec<Result<(), TransferExceptions>>) -> (r:
    Vec<ReattachFailure>)
    ensures
        failures_view(r@) == reattach_failures(
            records_view(links@),
            results@,
            if links@.len() <= results@.len() {
                links@.len()
            } else {
                results@.len()
            },
        ),
{
    let n = if links.len() <= results.len() {
        links.len()
    } else {
        results.len()
    };
    let mut r: Vec<ReattachFailure> = Vec::new();
    let mut i: usize = 0;
    while i < n
        invariant
            n <= links@.len(),
            n <= results@.len(),
            i <= n,
            failures_view(r@) == reattach_failures(records_view(links@), results@, i as nat),
        decreases n - i,
    {
        let ghost before = r@;
        match &results[i] {
            Err(e) => {
                r.push(
                    ReattachFailure {
                        name: links[i].name.clone(),
                        address: links[i].address.clone(),
                        error: *e,
                    },
                );
                assert(failures_view(r@) =~= failures_view(before).push(
                    (links@[i as int].name@, links@[i as int].address@, *e),
                ));
            },
            Ok(_) => {},
        }
        i = i + 1;
    }
    r
}

/// A service policy's client, which opens a link for each message it sends.
pub struct ServiceClient {
    hub_name: String,
    primary_key: String,
    username: String,
    credential: String,
    session: Option<u64>,
    epoch: u64,
}

/// A service client's state, as values.
pub struct ServiceClientView {
    pub hub_name: Seq<char>,
    pub primary_key: Seq<char>,
    pub username: Seq<char>,
    pub credential: Seq<char>,
    pub session: Option<u64>,
    pub epoch: u64,
}

impl View for ServiceClient {
    type V = ServiceClientView;

    closed spec fn view(&self) -> ServiceClientView {
        ServiceClientView {
            hub_name: self.hub_name@,
            primary_key: self.primary_key@,
            username: self.username@,
            credential: self.credential@,
            session: self.session,
            epoch: self.epoch,
        }
    }
}

/// What opening the one-shot link returns: a session is needed, and the open must
/// complete in time and be accepted.
pub open spec fn simple_link_result(v: ServiceClientView, open: OpenOutcome) -> Result<
    (),
    TransferExceptions,
> {
    if v.session is None {
        Err(TransferExceptions::NoSession)
    } else {
        match open {
            OpenOutcome::Opened { .. } => Ok(()),
            OpenOutcome::TimedOut => Err(TransferExceptions::GeneralTimeout),
            OpenOutcome::Refused => Err(TransferExceptions::LinkAmqpProtocolError),
        }
    }
}

pub open spec fn simple_send_result(
    v: ServiceClientView,
    open: OpenOutcome,
    send: SendOutcome,
) -> Result<(), TransferExceptions> {
    match simple_link_result(v, open) {
        Err(e) => Err(e),
        Ok(_) => match send {
            SendOutcome::Accepted => Ok(()),
            SendOutcome::TimedOut => Err(TransferExceptions::MessageTimeOut),
            SendOutcome::Rejected => Err(TransferExceptions::MessageAmqpProtocolError),
            SendOutcome::LinkMissing => Err(TransferExceptions::LinkDetachedOrDoesNotExist),
        },
    }
}

impl ServiceClient {
    /// A disconnected client of the policy `policy` of a hub, that authenticates with
    /// `sas_token`.
    pub fn new(hub_name: &str, primary_key: &str, sas_token: &str, policy: &str) -> (r: ServiceClient)
        ensures
            r@ == (ServiceClientView {
                hub_name: hub_name@,
                primary_key: primary_key@,
                username: crate::config::service_username_of(policy@, hub_name@),
                credential: sas_token@,
                session: None,
                epoch: 0,
            }),
    {
        ServiceClient {
            hub_name: String::from_str(hub_name),
            primary_key: String::from_str(primary_key),
            username: crate::config::create_service_username(policy, hub_name),
            credential: String::from_str(sas_token),
            session: None,
            epoch: 0,
        }
    }

    /// Records the outcome of an authenticated connection attempt. A client that
    /// holds a session refuses a second one.
    pub fn connect(&mut self, outcome: ConnectOutcome) -> (r: Result<(), AmqpFailure>)
        ensures
            old(self)@.session is Some ==> r == Err::<(), AmqpFailure>(AmqpFailure::AlreadyActive)
                && final(self)@ == old(self)@,
            old(self)@.session is None ==> match outcome {
                ConnectOutcome::Established => r is Ok && final(self)@ == (ServiceClientView {
                    session: Some(next_epoch(old(self)@.epoch)),
                    epoch: next_epoch(old(self)@.epoch),
                    ..old(self)@
                }),
                ConnectOutcome::AuthenticationFailed => r == Err::<(), AmqpFailure>(
                    AmqpFailure::FailedSasl,
                ) && final(self)@ == old(self)@,
            },
    {
        if self.session.is_some() {
            return Err(AmqpFailure::AlreadyActive);
        }
        match outcome {
            ConnectOutcome::Established => {
                self.epoch = self.epoch.wrapping_add(1);
                self.session = Some(self.epoch);
                Ok(())
            },
            ConnectOutcome::AuthenticationFailed => Err(AmqpFailure::FailedSasl),
        }
    }

    /// Whether a connection may be made now.
    pub fn check_connect(&self) -> (r: Result<(), AmqpFailure>)
        ensures
            self@.session is None ==> r is Ok,
            self@.session is Some ==> r == Err::<(), AmqpFailure>(AmqpFailure::AlreadyActive),
    {
        if self.session.is_some() {
            Err(AmqpFailure::AlreadyActive)
        } else {
            Ok(())
        }
    }

    /// Whether a one-shot link may be opened now.
    pub fn check_send_simple(&self) -> (r: Result<(), TransferExceptions>)
        ensures
            self@.session is None ==> r == Err::<(), TransferExceptions>(TransferExceptions::NoSession),
            self@.session is Some ==> r is Ok,
    {
        if self.session.is_none() {
            Err(TransferExceptions::NoSession)
        } else {
            Ok(())
        }
    }

    /// What opening the one-shot link returns, given what the transport reported.
    pub fn open_simple_link(&self, open: OpenOutcome) -> (r: Result<(), TransferExceptions>)
        ensures
            r == simple_link_result(self@, open),
    {
        if self.session.is_none() {
            return Err(TransferExceptions::NoSession);
        }
        match open {
            OpenOutcome::Opened { .. } => Ok(()),
            OpenOutcome::TimedOut => Err(TransferExceptions::GeneralTimeout),
            OpenOutcome::Refused => Err(TransferExceptions::LinkAmqpProtocolError),
        }
    }

    /// What sending one message on a fresh link returns, given what the transport
    /// reported for opening the link and for the send.
    pub fn send_simple_message(&self, open: OpenOutcome, send: SendOutcome) -> (r: Result<
        (),
        TransferExceptions,
    >)
        ensures
            r == simple_send_result(self@, open, send),
    {
        match self.open_simple_link(open) {
            Err(e) => Err(e),
            Ok(_) => match send {
                SendOutcome::Accepted => Ok(()),
                SendOutcome::TimedOut => Err(TransferExceptions::MessageTimeOut),
                SendOutcome::Rejected => Err(TransferExceptions::MessageAmqpProtocolError),
                SendOutcome::LinkMissing => Err(TransferExceptions::LinkDetachedOrDoesNotExist),
            },
        }
    }

    pub fn is_connected(&self) -> (r: bool)
        ensures
            r == self@.session is Some,
    {
        self.session.is_some()
    }

    pub fn username(&self) -> (r: String)
        ensures
            r@ == self@.username,
    {
        self.username.clone()
    }

    pub fn credential(&self) -> (r: String)
        ensures
            r@ == self@.credential,
    {
        self.credential.clone()
    }

    pub fn hostname(&self) -> (r: String)
        ensures
            r@ == hostname_of(self@.hub_name),
    {
        create_hostname(self.hub_name.as_str())
    }

    pub fn address(&self) -> (r: String)
        ensures
            r@ == address_of(self@.hub_name),
    {
        create_address(self.hub_name.as_str())
    }
}

} // verus!
