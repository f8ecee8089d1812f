//! The session: configuration, cache, and the life of the connection.
//!
//! The session opens no socket and waits for nothing. Its driver tells it what
//! happened (the handshake came through, the metadata arrived, a frame came
//! in, the stream ended) and is told what to do next.

use crate::board::BoardInfo;
use crate::cache::{
    bytes_of, maps_of, CacheView, ClientCache, Entry, Lookup, Slot, Ticket,
};
use crate::endpoint::{reports, stream_endpoint, websocket_endpoint, EndpointFault};
use crate::error::{ClientBuildError, ConnectError, ConsistencyError, RequestError};
use crate::messages::{Event, Message, Pixel};
use crate::update::PixelWrite;
use crate::time::{TimeSpan, UnixTime};
use vstd::prelude::*;

verus! {

/// Seconds between two connection attempts where none is configured.
pub const DEFAULT_RECONNECT_SECS: u64 = 60;

/// Where the connection stands.
#[derive(Debug, Clone, Copy, PartialEq, Eq)]
pub enum Phase {
    /// No attempt was made yet.
    Disconnected,
    /// The handshake is under way.
    Connecting,
    /// The handshake came through; the canvas metadata is being fetched.
    Ready,
    /// Frames are being consumed.
    Streaming,
    /// The stream ended; the next attempt follows after the delay.
    Closed,
    /// The attempt failed; the next attempt follows after the delay.
    ConnectError,
}

impl Phase {
    /// Whether an attempt may begin: none is under way.
    pub open spec fn idle(self) -> bool {
        self is Disconnected || self is Closed || self is ConnectError
    }

    /// Whether the connection is up.
    pub open spec fn connected(self) -> bool {
        self is Ready || self is Streaming
    }
}

/// The answer to the wish to connect.
#[derive(Debug, PartialEq, Eq)]
pub enum Attempt {
    /// Open the stream at this address.
    Open(String),
    /// The configuration admits no connection: give up, do not retry.
    Rejected(ConnectError),
    /// An attempt is under way already.
    Busy,
}

/// An attempt that ended: why, and how long to wait before the next.
#[derive(Debug, PartialEq, Eq)]
pub struct Retry {
    pub error: ConnectError,
    pub delay: TimeSpan,
}

/// What a frame came to: the one notification for the consumer, and the fault
/// of the first changed pixel that could not be applied, if there was one.
#[derive(Debug, PartialEq, Eq)]
pub struct Delivery {
    pub event: Event,
    pub fault: Option<ConsistencyError>,
}

/// Collects the configuration of a session.
#[derive(Debug)]
pub struct ClientBuidler<H> {
    site_base: Option<String>,
    event_handler: Option<H>,
    reconnect_time: Option<TimeSpan>,
}

/// A session with the canvas service: the configuration it was built from, the
/// cache, and the phase of the connection. `H` is what the consumer receives
/// notifications with; the session only keeps it.
#[derive(Debug)]
pub struct Client<H> {
    site_base: String,
    cache: ClientCache,
    event_handler: H,
    reconnect_time: TimeSpan,
    phase: Phase,
}

/// The session as a value of mathematics.
pub struct ClientView<H> {
    pub site_base: Seq<char>,
    pub event_handler: H,
    pub reconnect_time: TimeSpan,
    pub cache: CacheView,
    pub phase: Phase,
}

impl<H> View for Client<H> {
    type V = ClientView<H>;

    closed spec fn view(&self) -> ClientView<H> {
        ClientView {
            site_base: self.site_base@,
            event_handler: self.event_handler,
            reconnect_time: self.reconnect_time,
            cache: self.cache@,
            phase: self.phase,
        }
    }
}

impl<H> ClientBuidler<H> {
    /// The base address that was given.
    pub closed spec fn spec_site(self) -> Option<String> {
        self.site_base
    }

    /// The event handler that was given.
    pub closed spec fn spec_event_handler(self) -> Option<H> {
        self.event_handler
    }

    /// The delay between attempts that was given.
    pub closed spec fn spec_reconnect_time(self) -> Option<TimeSpan> {
        self.reconnect_time
    }

    /// A builder with nothing given.
    pub fn new() -> (r: Self)
        ensures
            r.spec_site() is None,
            r.spec_event_handler() is None,
            r.spec_reconnect_time() is None,
    {
        ClientBuidler { site_base: None, event_handler: None, reconnect_time: None }
    }

    /// Gives the base address of the service.
    pub fn site(self, base: String) -> (r: Self)
        ensures
            r.spec_site() == Some(base),
            r.spec_event_handler() == self.spec_event_handler(),
            r.spec_reconnect_time() == self.spec_reconnect_time(),
    {
        ClientBuidler {
            site_base: Some(base),
            event_handler: self.event_handler,
            reconnect_time: self.reconnect_time,
        }
    }

    /// Gives what the consumer receives notifications with.
    pub fn event_handler(self, handler: H) -> (r: Self)
        ensures
            r.spec_site() == self.spec_site(),
            r.spec_event_handler() == Some(handler),
            r.spec_reconnect_time() == self.spec_reconnect_time(),
    {
        ClientBuidler {
            site_base: self.site_base,
            event_handler: Some(handler),
            reconnect_time: self.reconnect_time,
        }
    }

    /// Gives the delay between two connection attempts.
    pub fn reconnect_time(self, time: TimeSpan) -> (r: Self)
        ensures
            r.spec_site() == self.spec_site(),
            r.spec_event_handler() == self.spec_event_handler(),
            r.spec_reconnect_time() == Some(time),
    {
        ClientBuidler {
            site_base: self.site_base,
            event_handler: self.event_handler,
            reconnect_time: Some(time),
        }
    }

    /// Builds the session. It fails where the base address is missing, and
    /// else where the event handler is missing. The delay between attempts is
    /// 60 seconds where none was given. The session starts disconnected, with
    /// an empty cache.
    pub fn build(self) -> (r: Result<Client<H>, ClientBuildError>)
        ensures
            match r {
                Ok(client) => {
                    &&& self.spec_site() matches Some(base) && base@ == client@.site_base
                    &&& self.spec_event_handler() == Some(client@.event_handler)
                    &&& client@.reconnect_time == match self.spec_reconnect_time() {
                        Some(time) => time,
                        None => TimeSpan { secs: DEFAULT_RECONNECT_SECS, nanos: 0 },
                    }
                    &&& client@.phase == Phase::Disconnected
                    &&& client@.cache == CacheView::empty()
                    &&& client.wf()
                },
                Err(e) => e == if self.spec_site() is None {
                    ClientBuildError::MissingSite
                } else {
                    ClientBuildError::MissingEventHandler
                } && (self.spec_site() is None || self.spec_event_handler() is None),
            },
    {
        let site_base: String = match self.site_base {
            Some(base) => base,
            None => {
                return Err(ClientBuildError::MissingSite);
            },
        };
        let event_handler: H = match self.event_handler {
            Some(handler) => handler,
            None => {
                return Err(ClientBuildError::MissingEventHandler);
            },
        };
        let reconnect_time: TimeSpan = match self.reconnect_time {
            Some(time) => time,
            None => TimeSpan::from_secs(DEFAULT_RECONNECT_SECS),
        };
        Ok(
            Client {
                site_base,
                cache: ClientCache::new(),
                event_handler,
                reconnect_time,
                phase: Phase::Disconnected,
            },
        )
    }
}

impl<H> Default for ClientBuidler<H> {
    fn default() -> (r: Self)
        ensures
            r.spec_site() is None,
            r.spec_event_handler() is None,
            r.spec_reconnect_time() is None,
    {
        ClientBuidler::new()
    }
}

/// The pixels of a frame, where the frame reports changed pixels.
pub open spec fn changed_pixels(decoded: Option<Message>) -> Option<Seq<Pixel>> {
    match decoded {
        Some(Message::Pixel { pixels }) => Some(pixels@),
        _ => None,
    }
}

/// The notification that a frame comes to: the decoded event, or, where the
/// frame did not decode, its text as it came.
pub open spec fn notification(text: String, decoded: Option<Message>) -> Event {
    match decoded {
        Some(message) => Event::Message(message),
        None => Event::Unknown(text),
    }
}

impl<H> Client<H> {
    /// Whether the session keeps its rules: its cache does.
    pub open spec fn wf(&self) -> bool {
        self@.cache.wf()
    }

    /// Whether two states of a session differ in nothing but cache and phase.
    pub open spec fn same_configuration(&self, other: &Self) -> bool {
        &&& self@.site_base == other@.site_base
        &&& self@.event_handler == other@.event_handler
        &&& self@.reconnect_time == other@.reconnect_time
    }

    /// A builder with nothing given.
    pub fn builder() -> (r: ClientBuidler<H>)
        ensures
            r.spec_site() is None,
            r.spec_event_handler() is None,
            r.spec_reconnect_time() is None,
    {
        ClientBuidler::new()
    }

    /// Where the connection stands.
    pub fn phase(&self) -> (r: Phase)
        ensures
            r == self@.phase,
    {
        self.phase
    }

    /// Whether the connection is up: from the handshake to the end of the stream.
    pub fn is_connected(&self) -> (r: bool)
        ensures
            r == self@.phase.connected(),
    {
        matches!(self.phase, Phase::Ready | Phase::Streaming)
    }

    /// The delay between two connection attempts.
    pub fn reconnect_time(&self) -> (r: TimeSpan)
        ensures
            r == self@.reconnect_time,
    {
        self.reconnect_time
    }

    /// What the consumer receives notifications with.
    pub fn event_handler(&self) -> (r: &H)
        ensures
            *r == self@.event_handler,
    {
        &self.event_handler
    }

    /// The base address of the service.
    pub fn site_base(&self) -> (r: &str)
        ensures
            r@ == self@.site_base,
    {
        self.site_base.as_str()
    }

    /// The cache, to read.
    pub fn cache(&self) -> (r: &ClientCache)
        ensures
            r@ == self@.cache,
    {
        &self.cache
    }

    /// Asks the cache for the resource of `slot` at `now`.
    pub fn request(&mut self, slot: Slot, now: UnixTime) -> (r: Result<Lookup, ConsistencyError>)
        requires
            old(self).wf(),
        ensures
            final(self).wf(),
            final(self).same_configuration(old(self)),
            final(self)@.phase == old(self)@.phase,
            (final(self)@.cache, r) == old(self)@.cache.request(slot, now),
    {
        self.cache.request(slot, now)
    }

    /// Hands the cache the report of a fetch of the metadata that a caller
    /// other than the connection made.
    pub fn store_info(&mut self, ticket: Ticket, result: Result<BoardInfo, RequestError>) -> (r:
        Result<(), RequestError>)
        requires
            old(self).wf(),
        ensures
            final(self).wf(),
            final(self).same_configuration(old(self)),
            final(self)@.phase == old(self)@.phase,
            (final(self)@.cache, r) == old(self)@.cache.store_info(ticket, result),
    {
        self.cache.store_info(ticket, result)
    }

    /// Hands the cache the report of a fetch of a byte buffer.
    pub fn store_buffer(&mut self, ticket: Ticket, result: Result<Vec<u8>, RequestError>) -> (r:
        Result<(), RequestError>)
        requires
            old(self).wf(),
        ensures
            final(self).wf(),
            final(self).same_configuration(old(self)),
            final(self)@.phase == old(self)@.phase,
            (final(self)@.cache, r) == old(self)@.cache.store_buffer(ticket, bytes_of(result)),
    {
        self.cache.store_buffer(ticket, result)
    }

    /// Hands the cache the report of a fetch of heatmap and virginmap.
    pub fn store_timestamps(
        &mut self,
        ticket: Ticket,
        result: Result<(Vec<u8>, Vec<u8>), RequestError>,
    ) -> (r: Result<(), RequestError>)
        requires
            old(self).wf(),
        ensures
            final(self).wf(),
            final(self).same_configuration(old(self)),
            final(self)@.phase == old(self)@.phase,
            (final(self)@.cache, r) == old(self)@.cache.store_timestamps(ticket, maps_of(result)),
    {
        self.cache.store_timestamps(ticket, result)
    }

    /// The cached metadata.
    pub fn info(&self) -> (r: Option<&BoardInfo>)
        ensures
            match r {
                Some(info) => self@.cache.info == Entry::<BoardInfo, ()>::Ready(*info),
                None => !(self@.cache.info is Ready),
            },
    {
        self.cache.info()
    }

    /// The cached colour buffer.
    pub fn colors(&self) -> (r: Option<&Vec<u8>>)
        ensures
            match r {
                Some(buffer) => self@.cache.colors == Entry::<Seq<u8>, ()>::Ready(buffer@),
                None => !(self@.cache.colors is Ready),
            },
    {
        self.cache.colors()
    }

    /// The cached initial-colour buffer.
    pub fn initial_colors(&self) -> (r: Option<&Vec<u8>>)
        ensures
            match r {
                Some(buffer) => self@.cache.initial == Entry::<Seq<u8>, ()>::Ready(buffer@),
                None => !(self@.cache.initial is Ready),
            },
    {
        self.cache.initial_colors()
    }

    /// The cached placement mask.
    pub fn mask(&self) -> (r: Option<&Vec<u8>>)
        ensures
            match r {
                Some(buffer) => self@.cache.mask == Entry::<Seq<u8>, ()>::Ready(buffer@),
                None => !(self@.cache.mask is Ready),
            },
    {
        self.cache.mask()
    }

    /// The cached timestamp buffer.
    pub fn timestamps(&self) -> (r: Option<&Vec<u32>>)
        ensures
            match r {
                Some(buffer) => self@.cache.timestamps == Entry::<Seq<u32>, UnixTime>::Ready(
                    buffer@,
                ),
                None => !(self@.cache.timestamps is Ready),
            },
    {
        self.cache.timestamps()
    }

    /// Begins a connection attempt, where none is under way. The address of
    /// the stream is derived from the base address; a base address that
    /// yields none is a fault of the configuration, reported at once and with
    /// nothing changed: there is nothing to open and nothing to retry.
    pub fn connect(&mut self) -> (r: Attempt)
        requires
            old(self).wf(),
        ensures
            final(self).wf(),
            final(self).same_configuration(old(self)),
            final(self)@.cache == old(self)@.cache,
            match r {
                Attempt::Busy => !old(self)@.phase.idle() && final(self)@.phase == old(self)@.phase,
                Attempt::Open(endpoint) => {
                    &&& old(self)@.phase.idle()
                    &&& final(self)@.phase == Phase::Connecting
                    &&& stream_endpoint(old(self)@.site_base) == Ok::<Seq<char>, EndpointFault>(
                        endpoint@,
                    )
                },
                Attempt::Rejected(e) => {
                    &&& old(self)@.phase.idle()
                    &&& final(self)@.phase == old(self)@.phase
                    &&& stream_endpoint(old(self)@.site_base) matches Err(fault) && reports(
                        e,
                        fault,
                    )
                },
            },
    {
        match self.phase {
            Phase::Connecting | Phase::Ready | Phase::Streaming => {
                return Attempt::Busy;
            },
            _ => {},
        }
        match websocket_endpoint(self.site_base.as_str()) {
            Ok(endpoint) => {
                self.phase = Phase::Connecting;
                Attempt::Open(endpoint)
            },
            Err(e) => Attempt::Rejected(e),
        }
    }

    /// Takes note that the handshake failed, while one is under way. The
    /// attempt is over; the next one follows after the configured delay. The
    /// cache stays as it is.
    pub fn handshake_failed(&mut self, reason: String) -> (r: Option<Retry>)
        requires
            old(self).wf(),
        ensures
            final(self).wf(),
            final(self).same_configuration(old(self)),
            final(self)@.cache == old(self)@.cache,
            match r {
                Some(retry) => {
                    &&& old(self)@.phase == Phase::Connecting
                    &&& final(self)@.phase == Phase::ConnectError
                    &&& retry.error == ConnectError::WebsocketConnectFailed(reason)
                    &&& retry.delay == old(self)@.reconnect_time
                },
                None => old(self)@.phase != Phase::Connecting && final(self)@.phase
                    == old(self)@.phase,
            },
    {
        match self.phase {
            Phase::Connecting => {
                self.phase = Phase::ConnectError;
                Some(
                    Retry {
                        error: ConnectError::WebsocketConnectFailed(reason),
                        delay: self.reconnect_time,
                    },
                )
            },
            _ => None,
        }
    }

    /// Takes note that the handshake came through, while one is under way.
    /// This is the moment at which the cache is emptied: not when the stream
    /// ends, so that what was cached stays readable while there is no
    /// connection. Then the fetch of the metadata begins, and its ticket is
    /// handed out. Right after, no slot of the cache holds a value.
    pub fn handshake_succeeded(&mut self) -> (r: Option<Ticket>)
        requires
            old(self).wf(),
        ensures
            final(self).wf(),
            final(self).same_configuration(old(self)),
            match r {
                Some(ticket) => {
                    &&& old(self)@.phase == Phase::Connecting
                    &&& final(self)@.phase == Phase::Ready
                    &&& final(self)@.cache == old(self)@.cache.invalidated().request_info().0
                    &&& ticket == old(self)@.cache.invalidated().request_info().1->Fetch_0
                    &&& final(self)@.cache.awaits(ticket)
                    &&& final(self)@.cache.info is Fetching
                    &&& final(self)@.cache.colors is Empty
                    &&& final(self)@.cache.initial is Empty
                    &&& final(self)@.cache.mask is Empty
                    &&& final(self)@.cache.timestamps is Empty
                    &&& final(self)@.cache.created_at is None
                },
                None => old(self)@.phase != Phase::Connecting && final(self)@.phase
                    == old(self)@.phase && final(self)@.cache == old(self)@.cache,
            },
    {
        match self.phase {
            Phase::Connecting => {},
            _ => {
                return None;
            },
        }
        self.cache.invalidate_all();
        let ticket: Ticket = Ticket {
            slot: Slot::Info,
            generation: self.cache.generation(),
        };
        let _ = self.cache.request_info();
        self.phase = Phase::Ready;
        Some(ticket)
    }

    /// Takes the report of the fetch of the metadata that began with the
    /// handshake. With the metadata cached the stream begins, and the consumer
    /// is to be told that the session is ready; else the attempt is over, and
    /// the next one follows after the configured delay.
    pub fn info_fetched(&mut self, ticket: Ticket, result: Result<BoardInfo, RequestError>) -> (r:
        Option<Result<Event, Retry>>)
        requires
            old(self).wf(),
        ensures
            final(self).wf(),
            final(self).same_configuration(old(self)),
            match r {
                None => old(self)@.phase != Phase::Ready && final(self)@.phase == old(self)@.phase && final(self)@.cache == old(self)@.cache,
                Some(outcome) => {
                    &&& old(self)@.phase == Phase::Ready
                    &&& final(self)@.cache == old(self)@.cache.store_info(ticket, result).0
                    &&& match outcome {
                        Ok(event) => {
                            &&& old(self)@.cache.store_info(ticket, result).1 is Ok
                            &&& event == Event::Ready
                            &&& final(self)@.phase == Phase::Streaming
                            &&& final(self)@.cache.info is Ready
                        },
                        Err(retry) => {
                            &&& old(self)@.cache.store_info(ticket, result).1 matches Err(e)
                            &&& retry.error == ConnectError::InfoFailed(e)
                            &&& retry.delay == old(self)@.reconnect_time
                            &&& final(self)@.phase == Phase::ConnectError
                        },
                    }
                },
            },
    {
        match self.phase {
            Phase::Ready => {},
            _ => {
                return None;
            },
        }
        match self.cache.store_info(ticket, result) {
            Ok(()) => {
                self.phase = Phase::Streaming;
                Some(Ok(Event::Ready))
            },
            Err(e) => {
                self.phase = Phase::ConnectError;
                Some(Err(Retry { error: ConnectError::InfoFailed(e), delay: self.reconnect_time }))
            },
        }
    }

    /// Takes one frame of the stream, as text and as what it decoded to, at
    /// `now`. Each frame comes to exactly one notification. Changed pixels are
    /// applied to the cache before the notification is handed out. A frame
    /// that did not decode comes to a notification with its text, changes
    /// nothing, and does not end the stream.
    pub fn frame(&mut self, text: String, decoded: Option<Message>, now: UnixTime) -> (r: Option<
        Delivery,
    >)
        requires
            old(self).wf(),
        ensures
            final(self).wf(),
            final(self).same_configuration(old(self)),
            final(self)@.phase == old(self)@.phase,
            match r {
                None => old(self)@.phase != Phase::Streaming && final(self)@.cache == old(self)@.cache,
                Some(delivery) => {
                    &&& old(self)@.phase == Phase::Streaming
                    &&& delivery.event == notification(text, decoded)
                    &&& match changed_pixels(decoded) {
                        Some(pixels) => final(self)@.cache == old(self)@.cache.update_all(
                            pixels,
                            now,
                        ).0 && delivery.fault == old(self)@.cache.update_all(pixels, now).1,
                        None => final(self)@.cache == old(self)@.cache && delivery.fault is None,
                    }
                },
            },
    {
        match self.phase {
            Phase::Streaming => {},
            _ => {
                return None;
            },
        }
        let message: Message = match decoded {
            Some(message) => message,
            None => {
                return Some(Delivery { event: Event::Unknown(text), fault: None });
            },
        };
        let fault: Option<ConsistencyError> = match &message {
            Message::Pixel { pixels } => match self.cache.update_all(pixels, now) {
                Ok(()) => None,
                Err(e) => Some(e),
            },
            _ => None,
        };
        Some(Delivery { event: Event::Message(message), fault })
    }

    /// Takes note that the stream ended, while frames are consumed. The
    /// consumer is to be told, and the next attempt follows after the
    /// configured delay. The cache stays as it is: what was cached stays
    /// readable until the next handshake comes through.
    pub fn stream_ended(&mut self) -> (r: Option<(Event, TimeSpan)>)
        requires
            old(self).wf(),
        ensures
            final(self).wf(),
            final(self).same_configuration(old(self)),
            final(self)@.cache == old(self)@.cache,
            match r {
                Some((event, delay)) => {
                    &&& old(self)@.phase == Phase::Streaming
                    &&& final(self)@.phase == Phase::Closed
                    &&& event == Event::Disconnect
                    &&& delay == old(self)@.reconnect_time
                },
                None => old(self)@.phase != Phase::Streaming && final(self)@.phase
                    == old(self)@.phase,
            },
    {
        match self.phase {
            Phase::Streaming => {
                self.phase = Phase::Closed;
                Some((Event::Disconnect, self.reconnect_time))
            },
            _ => None,
        }
    }

    /// Applies one changed pixel to the cache at `now`.
    pub fn update_buffers(&mut self, pixel: &Pixel, now: UnixTime) -> (r: Result<
        (),
        ConsistencyError,
    >)
        requires
            old(self).wf(),
        ensures
            final(self).wf(),
            final(self).same_configuration(old(self)),
            final(self)@.phase == old(self)@.phase,
            final(self)@.cache == old(self)@.cache.update(*pixel, now),
            match r {
                Ok(()) => old(self)@.cache.planned(*pixel, now) is Ok,
                Err(e) => old(self)@.cache.planned(*pixel, now) == Err::<
                    Option<PixelWrite>,
                    ConsistencyError,
                >(e) && final(self)@.cache == old(self)@.cache,
            },
    {
        self.cache.update(pixel, now)
    }

    /// Empties the cache.
    pub fn clear_cache(&mut self)
        ensures
            final(self).wf(),
            final(self).same_configuration(old(self)),
            final(self)@.phase == old(self)@.phase,
            final(self)@.cache == old(self)@.cache.invalidated(),
            final(self)@.cache.all_empty(),
    {
        self.cache.invalidate_all();
    }
}

} // verus!
