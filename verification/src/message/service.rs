//! The message service: it caches the keys that it shares with each sender, and routes each
//! request to the handler registered for its message type.
use crate::errors::{Error, Id, IsError, Level};
use crate::events::ModuleSource;
use crate::message::deadline::{deadline_duration, is_instant, Deadline, MAX_INSTANT_NANOS};
use crate::message::envelope::{address_text, Address, EncodedMessage, MessageType};
use crate::registry::{Key, Registry};
use std::collections::HashMap;
use crate::text::push_str;
use crate::ulid;
use vstd::prelude::*;

verus! {

/// The message service's state: its address, the key shared with each sender (`K`), and the
/// handler of each message type (`H`).
pub struct MessageService<H, K> {
    address: Address,
    precomputed_keys: Registry<Address, K>,
    message_handlers: HashMap<u128, H>,
}

/// A request that is ready to be handled: the handler of its message type, the request, and
/// how long the handler may take, in nanoseconds, when the message has a deadline.
pub struct Dispatch<'a, H> {
    /// the handler registered for the message type
    pub handler: &'a H,
    /// the request
    pub request: EncodedMessage,
    /// the timeout of the request, when it has a deadline
    pub timeout_nanos: Option<i128>,
}

/// The timeout of a request with the given metadata deadline, at `now`: the deadline's
/// duration from the message's creation (its instance id's timestamp), and zero when that is
/// negative.
pub open spec fn request_timeout(deadline: Option<Deadline>, instance_ulid: u128, now: int) -> Option<int> {
    match deadline {
        Some(d) => {
            let t = deadline_duration(d, ulid::ulid_timestamp(instance_ulid) * 1000000, now);
            Some(if t < 0 {
                0
            } else {
                t
            })
        },
        None => None,
    }
}

impl<H, K> MessageService<H, K> {
    /// The handler of each message type.
    pub closed spec fn handlers(&self) -> Map<u128, H> {
        self.message_handlers@
    }

    /// The key shared with each sender.
    pub closed spec fn keys(&self) -> Map<Seq<u8>, K> {
        self.precomputed_keys.view()
    }

    /// The service's address.
    pub closed spec fn spec_address(&self) -> Address {
        self.address
    }

    /// The registries are well formed.
    pub closed spec fn wf(&self) -> bool {
        self.precomputed_keys.wf()
    }

    /// constructor: no keys and no handlers yet
    pub fn new(address: Address) -> (r: MessageService<H, K>)
        ensures
            r.wf(),
            r.spec_address() == address,
            r.handlers() == Map::<u128, H>::empty(),
            r.keys() == Map::<Seq<u8>, K>::empty(),
    {
        broadcast use vstd::std_specs::hash::group_hash_axioms;

        MessageService { address, precomputed_keys: Registry::new(), message_handlers: HashMap::new() }
    }

    /// The service's address.
    pub fn address(&self) -> (r: &Address)
        ensures
            *r == self.spec_address(),
    {
        &self.address
    }

    /// Registers the handler for the message type, replacing the one it had.
    pub fn register_handler(&mut self, message_type: MessageType, handler: H)
        requires
            old(self).wf(),
        ensures
            final(self).wf(),
            final(self).handlers() == old(self).handlers().insert(message_type.0, handler),
            final(self).keys() == old(self).keys(),
    {
        broadcast use vstd::std_specs::hash::group_hash_axioms;

        let _ = self.message_handlers.insert(message_type.0, handler);
    }

    /// The message types that have a handler, each once.
    pub fn registered_message_types(&self) -> (r: Vec<MessageType>)
        requires
            self.wf(),
        ensures
            r@.map_values(|t: MessageType| t.0).to_set() == self.handlers().dom(),
            r@.map_values(|t: MessageType| t.0).no_duplicates(),
    {
        broadcast use vstd::std_specs::hash::group_hash_axioms;

        let mut r: Vec<MessageType> = Vec::new();
        let keys = self.message_handlers.keys();
        let ghost all = vstd::std_specs::iter::IteratorSpec::remaining(&keys).unref();
        assert(all.to_set() == self.handlers().dom());
        assert(all.no_duplicates());
        for k in it: keys
            invariant
                r@.map_values(|t: MessageType| t.0) == it.seq().take(it.index() as int).unref(),
                it.seq().unref() == all,
            ensures
                r@.map_values(|t: MessageType| t.0) == all,
        {
            let ghost before = r@;
            r.push(MessageType(*k));
            proof {
                assert(r@.map_values(|t: MessageType| t.0) =~= before.map_values(|t: MessageType| t.0).push(
                    *k,
                ));
                assert(it.seq().take(it.index() + 1).unref() =~= it.seq().take(it.index() as int).unref().push(
                    *it.seq()[it.index() as int],
                ));
            }
        }
        r
    }

    /// The key shared with the sender, when it has been computed before. When it has not, the
    /// application computes it from the sender's public key and the service's private key,
    /// and caches it.
    pub fn cached_key(&self, sender: &Address) -> (r: Option<&K>)
        requires
            self.wf(),
        ensures
            r is Some <==> self.keys().dom().contains(sender.0@),
            r matches Some(k) ==> *k == self.keys()[sender.0@],
    {
        self.precomputed_keys.get(sender)
    }

    /// Caches the key shared with the sender.
    pub fn cache_key(&mut self, sender: Address, key: K)
        requires
            old(self).wf(),
        ensures
            final(self).wf(),
            final(self).keys() == old(self).keys().insert(sender.0@, key),
            final(self).handlers() == old(self).handlers(),
    {
        self.precomputed_keys.insert(sender, key);
    }

    /// A client disconnected: its key is dropped from the cache.
    pub fn client_disconnect(&mut self, client: &Address)
        requires
            old(self).wf(),
        ensures
            final(self).wf(),
            final(self).keys() == old(self).keys().remove(client.0@),
            final(self).handlers() == old(self).handlers(),
    {
        let _ = self.precomputed_keys.remove(client);
    }

    /// Routes a request that was opened and decoded, at `now_nanos`: to the handler of its
    /// message type, with the timeout that its deadline leaves; a message type without a
    /// handler gives an [`UnsupportedMessageType`] error from the sender.
    pub fn dispatch(&self, request: EncodedMessage, now_nanos: i128) -> (r: Result<Dispatch<H>, Error>)
        requires
            self.wf(),
            is_instant(now_nanos as int),
        ensures
            r is Ok <==> self.handlers().dom().contains(
                request.spec_message().spec_metadata().spec_message_type().0,
            ),
            r matches Ok(d) ==> {
                &&& *d.handler == self.handlers()[request.spec_message().spec_metadata().spec_message_type().0]
                &&& d.request == request
                &&& d.timeout_nanos == match request_timeout(
                    request.spec_message().spec_metadata().spec_deadline(),
                    request.spec_message().spec_metadata().spec_instance_id().0,
                    now_nanos as int,
                ) {
                    Some(t) => Some(t as i128),
                    None => None,
                }
            },
            r matches Err(e) ==> {
                &&& e.spec_id() == Id(UNSUPPORTED_MESSAGE_TYPE_ID)
                &&& e.spec_level() == Level::Alert
                &&& e.spec_message() == unsupported_message_type_text(
                    request.spec_sender(),
                    request.spec_message().spec_metadata().spec_message_type(),
                )
            },
    {
        broadcast use vstd::std_specs::hash::group_hash_axioms;

        let metadata = request.metadata();
        let message_type = metadata.message_type();
        match self.message_handlers.get(&message_type.0) {
            Some(handler) => {
                let timeout_nanos = match metadata.deadline() {
                    Some(deadline) => {
                        let created_millis = ulid::timestamp(metadata.instance_id().0);
                        let start: i128 = created_millis as i128 * 1000000;
                        assert(is_instant(start as int));
                        let t = deadline.duration_at(start, now_nanos);
                        Some(if t < 0 { 0 } else { t })
                    },
                    None => None,
                };
                Ok(Dispatch { handler, request, timeout_nanos })
            },
            None => {
                let err = UnsupportedMessageType::new(request.sender(), message_type);
                Err(err.to_error(ModuleSource::new("oysterpack::message::service", 232)))
            },
        }
    }
}

/// A request is routed to the handler registered last for its message type: after
/// `register_handler(t, h)`, whose handlers are `handlers().insert(t.0, h)`, the handler of
/// `t` is `h`, and every other type keeps its handler, or its lack of one.
pub proof fn law_register_then_route<H, K>(s: MessageService<H, K>, t: MessageType, h: H, other: u128)
    requires
        other != t.0,
    ensures
        s.handlers().insert(t.0, h).dom().contains(t.0),
        s.handlers().insert(t.0, h)[t.0] == h,
        s.handlers().insert(t.0, h).dom().contains(other) == s.handlers().dom().contains(other),
        s.handlers().dom().contains(other) ==> s.handlers().insert(t.0, h)[other] == s.handlers()[other],
{
}

/// The key cache gives back what was cached: after `cache_key(sender, k)`, the cached key of
/// the sender is `k`; after `client_disconnect(sender)`, the sender has no cached key; the
/// keys of other senders are kept either way.
pub proof fn law_cache_then_lookup<H, K>(s: MessageService<H, K>, sender: Address, k: K, other: Seq<u8>)
    requires
        other != sender.0@,
    ensures
        s.keys().insert(sender.0@, k).dom().contains(sender.0@),
        s.keys().insert(sender.0@, k)[sender.0@] == k,
        !s.keys().remove(sender.0@).dom().contains(sender.0@),
        s.keys().insert(sender.0@, k).dom().contains(other) == s.keys().dom().contains(other),
        s.keys().remove(sender.0@).dom().contains(other) == s.keys().dom().contains(other),
        s.keys().dom().contains(other) ==> s.keys().insert(sender.0@, k)[other] == s.keys()[other]
            && s.keys().remove(sender.0@)[other] == s.keys()[other],
{
}

/// Used to register a message handler: the message type and its handler.
pub struct RegisterMessageHandler<H> {
    message_type: MessageType,
    handler: H,
}

impl<H> RegisterMessageHandler<H> {
    /// The message type.
    pub closed spec fn spec_message_type(&self) -> MessageType {
        self.message_type
    }

    /// The handler.
    pub closed spec fn spec_handler(&self) -> H {
        self.handler
    }

    /// constructor
    pub fn new(message_type: MessageType, handler: H) -> (r: RegisterMessageHandler<H>)
        ensures
            r.spec_message_type() == message_type,
            r.spec_handler() == handler,
    {
        RegisterMessageHandler { message_type, handler }
    }
}

impl<H, K> MessageService<H, K> {
    /// Registers the handler of the request for its message type, replacing the one it had.
    pub fn register(&mut self, msg: RegisterMessageHandler<H>)
        requires
            old(self).wf(),
        ensures
            final(self).wf(),
            final(self).handlers() == old(self).handlers().insert(
                msg.spec_message_type().0,
                msg.spec_handler(),
            ),
            final(self).keys() == old(self).keys(),
    {
        self.register_handler(msg.message_type, msg.handler);
    }
}

/// The reply to a request from `sender` of the message type, given what delivering it to its
/// handler gave: the handler's reply (the response, or the handler's error), or the mailbox
/// error's text when the request could not be delivered or timed out, which becomes a
/// [`MailboxDeliveryError`].
pub fn handler_reply(
    sender: &Address,
    message_type: MessageType,
    delivered: Result<Result<EncodedMessage, Error>, String>,
) -> (r: Result<EncodedMessage, Error>)
    ensures
        delivered matches Ok(reply) ==> r == reply,
        delivered matches Err(err) ==> r matches Err(e) && e.spec_id() == Id(MAILBOX_DELIVERY_ERROR_ID)
            && e.spec_level() == Level::Critical && e.spec_message() == mailbox_delivery_error_text(
            *sender,
            message_type,
            err@,
        ),
{
    match delivered {
        Ok(reply) => reply,
        Err(err) => {
            let e = MailboxDeliveryError::new(sender, message_type, err);
            Err(e.to_error(ModuleSource::new("oysterpack::message::service", 335)))
        },
    }
}

/// Error Id(01CYQ74Q46EAAPHBD95NJAXJGG)
pub const UNSUPPORTED_MESSAGE_TYPE_ID: u128 = 1867572772130723204709592385635404304;

/// Error Id(01CYQ8F5HQMW5PETXBQAF3KF79)
pub const MAILBOX_DELIVERY_ERROR_ID: u128 = 1867574453777009173831417913650298089;

/// The text of an unsupported message type error.
pub open spec fn unsupported_message_type_text(sender: Address, message_type: MessageType) -> Seq<char> {
    address_text(sender) + ": unsupported message type ("@ + ulid::ulid_text(message_type.0) + ")"@
}

/// The text of a mailbox delivery error.
pub open spec fn mailbox_delivery_error_text(
    sender: Address,
    message_type: MessageType,
    err: Seq<char>,
) -> Seq<char> {
    address_text(sender) + ": mailbox delivery error for message type: "@ + ulid::ulid_text(
        message_type.0,
    ) + " : "@ + err
}

/// A message whose type has no handler: an alert, because it could be an attack or a
/// configuration issue.
pub struct UnsupportedMessageType<'a> {
    /// the sender of the message
    pub sender: &'a Address,
    /// the message type
    pub message_type: MessageType,
}

impl<'a> UnsupportedMessageType<'a> {
    /// constructor
    pub fn new(sender: &'a Address, message_type: MessageType) -> (r: UnsupportedMessageType<'a>)
        ensures
            *r.sender == *sender,
            r.message_type == message_type,
    {
        UnsupportedMessageType { sender, message_type }
    }
}

impl<'a> IsError for UnsupportedMessageType<'a> {
    open spec fn spec_error_id(&self) -> Id {
        Id(UNSUPPORTED_MESSAGE_TYPE_ID)
    }

    open spec fn spec_error_level(&self) -> Level {
        Level::Alert
    }

    open spec fn spec_error_message(&self) -> Seq<char> {
        unsupported_message_type_text(*self.sender, self.message_type)
    }

    fn error_id(&self) -> (r: Id) {
        Id(UNSUPPORTED_MESSAGE_TYPE_ID)
    }

    fn error_level(&self) -> (r: Level) {
        Level::Alert
    }

    fn error_message(&self) -> (r: String) {
        let mut s = self.sender.to_string();
        push_str(&mut s, ": unsupported message type (");
        let t = self.message_type.to_string();
        push_str(&mut s, t.as_str());
        push_str(&mut s, ")");
        s
    }
}

/// A request that could not be delivered to its handler, or that timed out: critical.
pub struct MailboxDeliveryError<'a> {
    /// the sender of the message
    pub sender: &'a Address,
    /// the message type
    pub message_type: MessageType,
    /// the mailbox error's text
    pub err: String,
}

impl<'a> MailboxDeliveryError<'a> {
    /// constructor: `err` is the mailbox error's text
    pub fn new(sender: &'a Address, message_type: MessageType, err: String) -> (r: MailboxDeliveryError<'a>)
        ensures
            *r.sender == *sender,
            r.message_type == message_type,
            r.err@ == err@,
    {
        MailboxDeliveryError { sender, message_type, err }
    }
}

impl<'a> IsError for MailboxDeliveryError<'a> {
    open spec fn spec_error_id(&self) -> Id {
        Id(MAILBOX_DELIVERY_ERROR_ID)
    }

    open spec fn spec_error_level(&self) -> Level {
        Level::Critical
    }

    open spec fn spec_error_message(&self) -> Seq<char> {
        mailbox_delivery_error_text(*self.sender, self.message_type, self.err@)
    }

    fn error_id(&self) -> (r: Id) {
        Id(MAILBOX_DELIVERY_ERROR_ID)
    }

    fn error_level(&self) -> (r: Level) {
        Level::Critical
    }

    fn error_message(&self) -> (r: String) {
        let mut s = self.sender.to_string();
        push_str(&mut s, ": mailbox delivery error for message type: ");
        let t = self.message_type.to_string();
        push_str(&mut s, t.as_str());
        push_str(&mut s, " : ");
        push_str(&mut s, self.err.as_str());
        s
    }
}

/// A request's deadline counts from the message's creation: the timestamp of its instance id
/// (milliseconds since the UNIX epoch, the id's top 48 bits) taken as nanoseconds, i.e. times
/// 1_000_000. With a message timeout of `m` milliseconds, a request dispatched at `now`
/// (nanoseconds), before the deadline, is left exactly the time until creation plus `m`
/// milliseconds; once the deadline has passed it is left none. A processing timeout of `m`
/// milliseconds is left whole, whenever the request is dispatched; and a request without a
/// deadline has no timeout.
pub proof fn law_request_timeout_from_creation(instance_ulid: u128, m: u64, now: int)
    requires
        m <= 0x7fff_ffff_ffff_ffff,
        (instance_ulid >> 80u128) as int * 1_000_000 + m as int * 1_000_000 <= MAX_INSTANT_NANOS,
    ensures
        (instance_ulid >> 80u128) as int * 1_000_000 <= now < (instance_ulid >> 80u128) as int * 1_000_000
            + m as int * 1_000_000 ==> request_timeout(Some(Deadline::MessageTimeoutMillis(m)), instance_ulid, now)
            == Some((instance_ulid >> 80u128) as int * 1_000_000 + m as int * 1_000_000 - now),
        now >= (instance_ulid >> 80u128) as int * 1_000_000 + m as int * 1_000_000 ==> request_timeout(
            Some(Deadline::MessageTimeoutMillis(m)),
            instance_ulid,
            now,
        ) == Some(0int),
        request_timeout(Some(Deadline::ProcessingTimeoutMillis(m)), instance_ulid, now) == Some(
            m as int * 1_000_000,
        ),
        request_timeout(None, instance_ulid, now) == None::<int>,
{
    assert((instance_ulid >> 80u128) < 0x1_0000_0000_0000u128) by (bit_vector);
    assert(ulid::ulid_timestamp(instance_ulid) == (instance_ulid >> 80u128) as int);
}

} // verus!
