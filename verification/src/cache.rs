//! The buffer cache: one slot per resource of the canvas.
//!
//! A slot is empty, being fetched, or populated. The cache fetches nothing
//! itself. Asked for a resource, it says whether the value is cached, whether a
//! fetch is under way, or hands out a ticket for the one fetch that the caller
//! is to make; the caller reports back with the ticket. Emptying the cache
//! starts a new generation, and a report that carries a ticket of an earlier
//! generation is dropped.
//!
//! The cache is one value. An operation that touches several slots (an update,
//! a reconstruction, the emptying) is one call on it and leaves the slots
//! consistent with each other. Where the cache is shared, one lock around it
//! puts the calls in an order; no call waits for anything, so the lock is
//! never held across a fetch.

use crate::board::BoardInfo;
use crate::error::{ConsistencyError, RequestError};
use crate::messages::Pixel;
use crate::time::{elapsed_secs, UnixTime};
use crate::timestamps::{
    epoch_inferable, infer_epoch, inferred_epoch, inferred_epoch_nanos, lemma_inferred_epoch,
    reconstruct_timestamps, reconstructed, reconstructible,
};
use crate::update::{
    lemma_index_on_canvas, linear_index, plan_update, planned_write, PixelWrite,
};
use vstd::prelude::*;

verus! {

/// A slot of the cache: empty, with a fetch under way (and what was noted when
/// it began), or populated.
#[derive(Debug)]
pub enum Entry<T, P> {
    Empty,
    Fetching(P),
    Ready(T),
}

/// The byte-per-pixel buffers.
#[derive(Debug, Clone, Copy, PartialEq, Eq)]
pub enum Buffer {
    Colors,
    InitialColors,
    Mask,
}

/// The resources that have a slot.
#[derive(Debug, Clone, Copy, PartialEq, Eq)]
pub enum Slot {
    Info,
    Buffer(Buffer),
    Timestamps,
}

/// The right to report the outcome of one fetch: the slot it is for and the
/// generation of the cache in which it began.
#[derive(Debug, Clone, Copy, PartialEq, Eq)]
pub struct Ticket {
    pub slot: Slot,
    pub generation: u64,
}

/// The answer to a request for a resource.
#[derive(Debug, Clone, Copy, PartialEq, Eq)]
pub enum Lookup {
    /// The value is cached: read it.
    Cached,
    /// A fetch for it is under way: wait for its report.
    Pending,
    /// The canvas metadata has to be cached first.
    NeedsInfo,
    /// Nothing is cached and no fetch is under way: make the fetch, and report
    /// with this ticket.
    Fetch(Ticket),
}

/// The cache as a value of mathematics.
pub struct CacheView {
    pub info: Entry<BoardInfo, ()>,
    pub colors: Entry<Seq<u8>, ()>,
    pub initial: Entry<Seq<u8>, ()>,
    pub mask: Entry<Seq<u8>, ()>,
    pub timestamps: Entry<Seq<u32>, UnixTime>,
    pub created_at: Option<UnixTime>,
    pub generation: u64,
}

/// The generation that follows `generation`.
pub open spec fn next_generation(generation: u64) -> u64 {
    if generation == u64::MAX {
        0
    } else {
        (generation + 1) as u64
    }
}

/// A byte buffer with the entry at `index` replaced.
pub open spec fn written<T>(entry: Entry<Seq<T>, ()>, index: int, value: T) -> Entry<Seq<T>, ()> {
    match entry {
        Entry::Ready(buffer) => Entry::Ready(buffer.update(index, value)),
        other => other,
    }
}

/// A timestamp buffer with the entry at `index` replaced, where there is a new value.
pub open spec fn stamped(entry: Entry<Seq<u32>, UnixTime>, index: int, age: Option<u32>) -> Entry<
    Seq<u32>,
    UnixTime,
> {
    match (entry, age) {
        (Entry::Ready(buffer), Some(value)) => Entry::Ready(buffer.update(index, value)),
        (other, _) => other,
    }
}

/// The outcome of a fetch of bytes, with the bytes as a sequence.
pub open spec fn bytes_of(result: Result<Vec<u8>, RequestError>) -> Result<Seq<u8>, RequestError> {
    match result {
        Ok(data) => Ok(data@),
        Err(e) => Err(e),
    }
}

/// The outcome of a fetch of heatmap and virginmap, with both as sequences.
pub open spec fn maps_of(result: Result<(Vec<u8>, Vec<u8>), RequestError>) -> Result<
    (Seq<u8>, Seq<u8>),
    RequestError,
> {
    match result {
        Ok((heatmap, virginmap)) => Ok((heatmap@, virginmap@)),
        Err(e) => Err(e),
    }
}

impl CacheView {
    /// The cache with nothing in it, in generation 0.
    pub open spec fn empty() -> CacheView {
        CacheView {
            info: Entry::Empty,
            colors: Entry::Empty,
            initial: Entry::Empty,
            mask: Entry::Empty,
            timestamps: Entry::Empty,
            created_at: None,
            generation: 0,
        }
    }

    /// The slot of a byte buffer.
    pub open spec fn buffer(self, which: Buffer) -> Entry<Seq<u8>, ()> {
        match which {
            Buffer::Colors => self.colors,
            Buffer::InitialColors => self.initial,
            Buffer::Mask => self.mask,
        }
    }

    /// The cache with the slot of a byte buffer replaced.
    pub open spec fn with_buffer(self, which: Buffer, entry: Entry<Seq<u8>, ()>) -> CacheView {
        match which {
            Buffer::Colors => CacheView { colors: entry, ..self },
            Buffer::InitialColors => CacheView { initial: entry, ..self },
            Buffer::Mask => CacheView { mask: entry, ..self },
        }
    }

    /// Whether a byte slot keeps the rules: a populated buffer has one entry
    /// for each pixel of the cached metadata, and a fetch is under way only
    /// while the metadata is cached.
    pub open spec fn bytes_fit(self, entry: Entry<Seq<u8>, ()>) -> bool {
        match entry {
            Entry::Empty => true,
            Entry::Fetching(_) => self.info is Ready,
            Entry::Ready(buffer) => self.info matches Entry::Ready(info) && buffer.len()
                == info.area(),
        }
    }

    /// The rules of the cache.
    ///
    /// - Cached metadata describes a canvas whose pixels the machine can count.
    /// - Every populated per-pixel buffer has `width * height` entries, by the
    ///   cached metadata.
    /// - A timestamp buffer, populated or being fetched, comes with the instant
    ///   that its entries count from.
    pub open spec fn wf(self) -> bool {
        &&& self.info matches Entry::Ready(info) ==> info.area() <= usize::MAX
        &&& self.bytes_fit(self.colors)
        &&& self.bytes_fit(self.initial)
        &&& self.bytes_fit(self.mask)
        &&& match self.timestamps {
            Entry::Empty => true,
            Entry::Fetching(_) => self.info is Ready && self.created_at is Some,
            Entry::Ready(buffer) => self.info matches Entry::Ready(info) && buffer.len()
                == info.area() && self.created_at is Some,
        }
    }

    /// Whether nothing is cached and no fetch is under way.
    pub open spec fn all_empty(self) -> bool {
        &&& self.info is Empty
        &&& self.colors is Empty
        &&& self.initial is Empty
        &&& self.mask is Empty
        &&& self.timestamps is Empty
        &&& self.created_at is None
    }

    /// Whether a report with `ticket` is the one that the slot waits for.
    pub open spec fn awaits(self, ticket: Ticket) -> bool {
        &&& ticket.generation == self.generation
        &&& match ticket.slot {
            Slot::Info => self.info is Fetching,
            Slot::Buffer(which) => self.buffer(which) is Fetching,
            Slot::Timestamps => self.timestamps is Fetching,
        }
    }

    /// The cache after a request for the metadata, and the answer.
    pub open spec fn request_info(self) -> (CacheView, Lookup) {
        match self.info {
            Entry::Ready(_) => (self, Lookup::Cached),
            Entry::Fetching(_) => (self, Lookup::Pending),
            Entry::Empty => (
                CacheView { info: Entry::Fetching(()), ..self },
                Lookup::Fetch(Ticket { slot: Slot::Info, generation: self.generation }),
            ),
        }
    }

    /// The cache after a request for a byte buffer, and the answer.
    pub open spec fn request_buffer(self, which: Buffer) -> (CacheView, Lookup) {
        match self.buffer(which) {
            Entry::Ready(_) => (self, Lookup::Cached),
            Entry::Fetching(_) => (self, Lookup::Pending),
            Entry::Empty => if self.info is Ready {
                (
                    self.with_buffer(which, Entry::Fetching(())),
                    Lookup::Fetch(
                        Ticket { slot: Slot::Buffer(which), generation: self.generation },
                    ),
                )
            } else {
                (self, Lookup::NeedsInfo)
            },
        }
    }

    /// The instant that timestamps count from, once a reconstruction begins at
    /// `now`: the one that is cached, else the one inferred at `now`. `None`
    /// when there is none cached and none can be inferred.
    pub open spec fn epoch_at(self, now: UnixTime) -> Option<UnixTime> {
        match (self.created_at, self.info) {
            (Some(epoch), _) => Some(epoch),
            (None, Entry::Ready(info)) => if epoch_inferable(now, info.heatmap_cooldown) {
                Some(inferred_epoch(now, info.heatmap_cooldown))
            } else {
                None
            },
            (None, _) => None,
        }
    }

    /// The cache after a request for the timestamps at `now`, and the answer.
    pub open spec fn request_timestamps(self, now: UnixTime) -> (
        CacheView,
        Result<Lookup, ConsistencyError>,
    ) {
        match self.timestamps {
            Entry::Ready(_) => (self, Ok(Lookup::Cached)),
            Entry::Fetching(_) => (self, Ok(Lookup::Pending)),
            Entry::Empty => if !(self.info is Ready) {
                (self, Ok(Lookup::NeedsInfo))
            } else {
                match self.epoch_at(now) {
                    None => (self, Err(ConsistencyError::UnrepresentableEpoch)),
                    Some(epoch) => (
                        CacheView {
                            timestamps: Entry::Fetching(now),
                            created_at: Some(epoch),
                            ..self
                        },
                        Ok(
                            Lookup::Fetch(
                                Ticket { slot: Slot::Timestamps, generation: self.generation },
                            ),
                        ),
                    ),
                }
            },
        }
    }

    /// The cache after a request for the resource of `slot` at `now`, and the
    /// answer.
    pub open spec fn request(self, slot: Slot, now: UnixTime) -> (
        CacheView,
        Result<Lookup, ConsistencyError>,
    ) {
        match slot {
            Slot::Info => (self.request_info().0, Ok(self.request_info().1)),
            Slot::Buffer(which) => (
                self.request_buffer(which).0,
                Ok(self.request_buffer(which).1),
            ),
            Slot::Timestamps => self.request_timestamps(now),
        }
    }

    /// Number of tickets handed out when the resource of `slot` is asked for
    /// once at each of the instants `nows`, in turn, with no report in between.
    pub open spec fn tickets_issued(self, slot: Slot, nows: Seq<UnixTime>) -> nat
        decreases nows.len(),
    {
        if nows.len() == 0 {
            0
        } else {
            let (next, answer) = self.request(slot, nows[0]);
            let issued: nat = if answer matches Ok(Lookup::Fetch(_)) {
                1
            } else {
                0
            };
            issued + next.tickets_issued(slot, nows.drop_first())
        }
    }

    /// The cache after the report of a fetch of the metadata, and what the
    /// report comes to.
    pub open spec fn store_info(self, ticket: Ticket, result: Result<BoardInfo, RequestError>) -> (
        CacheView,
        Result<(), RequestError>,
    ) {
        if !(ticket.slot == Slot::Info && self.awaits(ticket)) {
            (self, Err(RequestError::Superseded))
        } else {
            match result {
                Err(e) => (CacheView { info: Entry::Empty, ..self }, Err(e)),
                Ok(info) => if info.area() <= usize::MAX {
                    (CacheView { info: Entry::Ready(info), ..self }, Ok(()))
                } else {
                    (CacheView { info: Entry::Empty, ..self }, Err(RequestError::CanvasTooLarge))
                },
            }
        }
    }

    /// The cache after the report of a fetch of a byte buffer, and what the
    /// report comes to.
    pub open spec fn store_buffer(self, ticket: Ticket, result: Result<Seq<u8>, RequestError>) -> (
        CacheView,
        Result<(), RequestError>,
    ) {
        match ticket.slot {
            Slot::Buffer(which) => if !self.awaits(ticket) {
                (self, Err(RequestError::Superseded))
            } else {
                match (result, self.info) {
                    (Err(e), _) => (self.with_buffer(which, Entry::Empty), Err(e)),
                    (Ok(data), Entry::Ready(info)) => if data.len() == info.area() {
                        (self.with_buffer(which, Entry::Ready(data)), Ok(()))
                    } else {
                        (
                            self.with_buffer(which, Entry::Empty),
                            Err(
                                RequestError::Size {
                                    expected: info.area() as usize,
                                    actual: data.len() as usize,
                                },
                            ),
                        )
                    },
                    (Ok(_), _) => (
                        self.with_buffer(which, Entry::Empty),
                        Err(RequestError::Superseded),
                    ),
                }
            },
            _ => (self, Err(RequestError::Superseded)),
        }
    }

    /// What a fetched heatmap and virginmap come to, for a reconstruction that
    /// began at `started`: the timestamp buffer, or why there is none.
    pub open spec fn derived_timestamps(
        self,
        heatmap: Seq<u8>,
        virginmap: Seq<u8>,
        started: UnixTime,
    ) -> Result<Seq<u32>, RequestError> {
        match (self.info, self.created_at) {
            (Entry::Ready(info), Some(epoch)) => if heatmap.len() != info.area() {
                Err(
                    RequestError::Size {
                        expected: info.area() as usize,
                        actual: heatmap.len() as usize,
                    },
                )
            } else if virginmap.len() != info.area() {
                Err(
                    RequestError::Size {
                        expected: info.area() as usize,
                        actual: virginmap.len() as usize,
                    },
                )
            } else if !reconstructible(heatmap, virginmap, started, epoch) {
                Err(RequestError::Inconsistent(ConsistencyError::UnrepresentableAge))
            } else {
                Ok(reconstructed(heatmap, virginmap, started, epoch))
            },
            (Entry::Ready(_), None) => Err(
                RequestError::Inconsistent(ConsistencyError::MissingEpoch),
            ),
            _ => Err(RequestError::Superseded),
        }
    }

    /// The cache after the report of a fetch of heatmap and virginmap, and what
    /// the report comes to.
    pub open spec fn store_timestamps(
        self,
        ticket: Ticket,
        result: Result<(Seq<u8>, Seq<u8>), RequestError>,
    ) -> (CacheView, Result<(), RequestError>) {
        match self.timestamps {
            Entry::Fetching(started) if ticket.slot == Slot::Timestamps && self.awaits(ticket) => {
                match result {
                    Err(e) => (CacheView { timestamps: Entry::Empty, ..self }, Err(e)),
                    Ok((heatmap, virginmap)) => match self.derived_timestamps(
                        heatmap,
                        virginmap,
                        started,
                    ) {
                        Ok(buffer) => (
                            CacheView { timestamps: Entry::Ready(buffer), ..self },
                            Ok(()),
                        ),
                        Err(e) => (CacheView { timestamps: Entry::Empty, ..self }, Err(e)),
                    },
                }
            },
            _ => (self, Err(RequestError::Superseded)),
        }
    }

    /// What a changed pixel writes into this cache at `now`. `Ok(None)` while
    /// the metadata is not cached: then no per-pixel buffer is cached either.
    pub open spec fn planned(self, pixel: Pixel, now: UnixTime) -> Result<
        Option<PixelWrite>,
        ConsistencyError,
    > {
        match self.info {
            Entry::Ready(info) => match planned_write(
                info.width,
                info.height,
                pixel,
                self.timestamps is Ready,
                self.created_at,
                now,
            ) {
                Ok(write) => Ok(Some(write)),
                Err(e) => Err(e),
            },
            _ => Ok(None),
        }
    }

    /// The cache with one write made: the colour buffer and the timestamp
    /// buffer change at the index of the write, where they are cached, and
    /// nothing else changes.
    pub open spec fn with_write(self, write: PixelWrite) -> CacheView {
        CacheView {
            colors: written(self.colors, write.index as int, write.color),
            timestamps: stamped(self.timestamps, write.index as int, write.age),
            ..self
        }
    }

    /// The cache after one changed pixel. A pixel that cannot be applied
    /// leaves the cache as it is.
    pub open spec fn update(self, pixel: Pixel, now: UnixTime) -> CacheView {
        match self.planned(pixel, now) {
            Ok(Some(write)) => self.with_write(write),
            _ => self,
        }
    }

    /// The cache after a batch of changed pixels, applied first to last up to
    /// the first that cannot be applied, and that pixel's fault.
    pub open spec fn update_all(self, pixels: Seq<Pixel>, now: UnixTime) -> (
        CacheView,
        Option<ConsistencyError>,
    )
        decreases pixels.len(),
    {
        if pixels.len() == 0 {
            (self, None)
        } else {
            match self.planned(pixels[0], now) {
                Err(e) => (self, Some(e)),
                Ok(_) => self.update(pixels[0], now).update_all(pixels.drop_first(), now),
            }
        }
    }

    /// The cache emptied: every slot empty, and the next generation begun.
    pub open spec fn invalidated(self) -> CacheView {
        CacheView { generation: next_generation(self.generation), ..CacheView::empty() }
    }
}

/// The cache: canvas metadata, colour buffer, initial-colour buffer, placement
/// mask, timestamp buffer, and the instant that timestamps count from.
#[derive(Debug)]
pub struct ClientCache {
    info: Entry<BoardInfo, ()>,
    colors: Entry<Vec<u8>, ()>,
    initial: Entry<Vec<u8>, ()>,
    mask: Entry<Vec<u8>, ()>,
    timestamps: Entry<Vec<u32>, UnixTime>,
    created_at: Option<UnixTime>,
    generation: u64,
}

/// A byte slot as a value of mathematics.
pub open spec fn bytes_entry(entry: Entry<Vec<u8>, ()>) -> Entry<Seq<u8>, ()> {
    match entry {
        Entry::Empty => Entry::Empty,
        Entry::Fetching(p) => Entry::Fetching(p),
        Entry::Ready(buffer) => Entry::Ready(buffer@),
    }
}

/// A timestamp slot as a value of mathematics.
pub open spec fn stamps_entry(entry: Entry<Vec<u32>, UnixTime>) -> Entry<Seq<u32>, UnixTime> {
    match entry {
        Entry::Empty => Entry::Empty,
        Entry::Fetching(p) => Entry::Fetching(p),
        Entry::Ready(buffer) => Entry::Ready(buffer@),
    }
}

impl View for ClientCache {
    type V = CacheView;

    closed spec fn view(&self) -> CacheView {
        CacheView {
            info: self.info,
            colors: bytes_entry(self.colors),
            initial: bytes_entry(self.initial),
            mask: bytes_entry(self.mask),
            timestamps: stamps_entry(self.timestamps),
            created_at: self.created_at,
            generation: self.generation,
        }
    }
}

impl ClientCache {
    /// Whether the cache keeps its rules. Every cache that this module hands
    /// out does, and every operation keeps it so.
    pub open spec fn wf(&self) -> bool {
        self@.wf()
    }

    /// A cache with nothing in it.
    pub fn new() -> (cache: ClientCache)
        ensures
            cache@ == CacheView::empty(),
            cache.wf(),
    {
        ClientCache {
            info: Entry::Empty,
            colors: Entry::Empty,
            initial: Entry::Empty,
            mask: Entry::Empty,
            timestamps: Entry::Empty,
            created_at: None,
            generation: 0,
        }
    }

    /// The generation that the cache is in.
    pub fn generation(&self) -> (r: u64)
        ensures
            r == self@.generation,
    {
        self.generation
    }

    /// The cached metadata.
    pub fn info(&self) -> (r: Option<&BoardInfo>)
        ensures
            match r {
                Some(info) => self@.info == Entry::<BoardInfo, ()>::Ready(*info),
                None => !(self@.info is Ready),
            },
    {
        match &self.info {
            Entry::Ready(info) => Some(info),
            _ => None,
        }
    }

    /// The cached buffer of `which`.
    pub fn buffer(&self, which: Buffer) -> (r: Option<&Vec<u8>>)
        ensures
            match r {
                Some(buffer) => self@.buffer(which) == Entry::<Seq<u8>, ()>::Ready(buffer@),
                None => !(self@.buffer(which) is Ready),
            },
    {
        let entry = match which {
            Buffer::Colors => &self.colors,
            Buffer::InitialColors => &self.initial,
            Buffer::Mask => &self.mask,
        };
        match entry {
            Entry::Ready(buffer) => Some(buffer),
            _ => None,
        }
    }

    /// The cached colour buffer.
    pub fn colors(&self) -> (r: Option<&Vec<u8>>)
        ensures
            match r {
                Some(buffer) => self@.colors == Entry::<Seq<u8>, ()>::Ready(buffer@),
                None => !(self@.colors is Ready),
            },
    {
        self.buffer(Buffer::Colors)
    }

    /// The cached initial-colour buffer.
    pub fn initial_colors(&self) -> (r: Option<&Vec<u8>>)
        ensures
            match r {
                Some(buffer) => self@.initial == Entry::<Seq<u8>, ()>::Ready(buffer@),
                None => !(self@.initial is Ready),
            },
    {
        self.buffer(Buffer::InitialColors)
    }

    /// The cached placement mask.
    pub fn mask(&self) -> (r: Option<&Vec<u8>>)
        ensures
            match r {
                Some(buffer) => self@.mask == Entry::<Seq<u8>, ()>::Ready(buffer@),
                None => !(self@.mask is Ready),
            },
    {
        self.buffer(Buffer::Mask)
    }

    /// The cached timestamp buffer.
    pub fn timestamps(&self) -> (r: Option<&Vec<u32>>)
        ensures
            match r {
                Some(buffer) => self@.timestamps == Entry::<Seq<u32>, UnixTime>::Ready(buffer@),
                None => !(self@.timestamps is Ready),
            },
    {
        match &self.timestamps {
            Entry::Ready(buffer) => Some(buffer),
            _ => None,
        }
    }

    /// The instant that timestamps count from, once it is set.
    pub fn created_at(&self) -> (r: Option<UnixTime>)
        ensures
            r == self@.created_at,
    {
        self.created_at
    }

    fn set_buffer(&mut self, which: Buffer, entry: Entry<Vec<u8>, ()>)
        ensures
            final(self)@ == old(self)@.with_buffer(which, bytes_entry(entry)),
    {
        match which {
            Buffer::Colors => {
                self.colors = entry;
            },
            Buffer::InitialColors => {
                self.initial = entry;
            },
            Buffer::Mask => {
                self.mask = entry;
            },
        }
    }

    fn awaits(&self, ticket: &Ticket) -> (r: bool)
        ensures
            r == self@.awaits(*ticket),
    {
        if ticket.generation != self.generation {
            return false;
        }
        match ticket.slot {
            Slot::Info => matches!(self.info, Entry::Fetching(_)),
            Slot::Buffer(Buffer::Colors) => matches!(self.colors, Entry::Fetching(_)),
            Slot::Buffer(Buffer::InitialColors) => matches!(self.initial, Entry::Fetching(_)),
            Slot::Buffer(Buffer::Mask) => matches!(self.mask, Entry::Fetching(_)),
            Slot::Timestamps => matches!(self.timestamps, Entry::Fetching(_)),
        }
    }

    /// Asks for the metadata. Only a request that finds the slot empty is
    /// answered with a ticket, and it leaves the slot with a fetch under way.
    pub fn request_info(&mut self) -> (r: Lookup)
        requires
            old(self).wf(),
        ensures
            final(self).wf(),
            (final(self)@, r) == old(self)@.request_info(),
    {
        match &self.info {
            Entry::Ready(_) => Lookup::Cached,
            Entry::Fetching(_) => Lookup::Pending,
            Entry::Empty => {
                self.info = Entry::Fetching(());
                Lookup::Fetch(Ticket { slot: Slot::Info, generation: self.generation })
            },
        }
    }

    /// Asks for a byte buffer. While the metadata is not cached the answer is
    /// `NeedsInfo`, and nothing changes.
    pub fn request_buffer(&mut self, which: Buffer) -> (r: Lookup)
        requires
            old(self).wf(),
        ensures
            final(self).wf(),
            (final(self)@, r) == old(self)@.request_buffer(which),
    {
        let entry = match which {
            Buffer::Colors => &self.colors,
            Buffer::InitialColors => &self.initial,
            Buffer::Mask => &self.mask,
        };
        match entry {
            Entry::Ready(_) => Lookup::Cached,
            Entry::Fetching(_) => Lookup::Pending,
            Entry::Empty => {
                if self.info().is_some() {
                    self.set_buffer(which, Entry::Fetching(()));
                    Lookup::Fetch(
                        Ticket { slot: Slot::Buffer(which), generation: self.generation },
                    )
                } else {
                    Lookup::NeedsInfo
                }
            },
        }
    }

    /// Asks for the timestamps at `now`. A request that is answered with a
    /// ticket notes `now` for the reconstruction and, where the instant that
    /// timestamps count from is not set, sets it once, as inferred at `now`.
    pub fn request_timestamps(&mut self, now: UnixTime) -> (r: Result<Lookup, ConsistencyError>)
        requires
            old(self).wf(),
        ensures
            final(self).wf(),
            (final(self)@, r) == old(self)@.request_timestamps(now),
    {
        match &self.timestamps {
            Entry::Ready(_) => Ok(Lookup::Cached),
            Entry::Fetching(_) => Ok(Lookup::Pending),
            Entry::Empty => {
                let window: usize = match self.info() {
                    Some(info) => info.heatmap_cooldown,
                    None => {
                        return Ok(Lookup::NeedsInfo);
                    },
                };
                let epoch: UnixTime = match self.created_at {
                    Some(epoch) => epoch,
                    None => match infer_epoch(now, window) {
                        Some(epoch) => epoch,
                        None => {
                            return Err(ConsistencyError::UnrepresentableEpoch);
                        },
                    },
                };
                self.created_at = Some(epoch);
                self.timestamps = Entry::Fetching(now);
                Ok(Lookup::Fetch(Ticket { slot: Slot::Timestamps, generation: self.generation }))
            },
        }
    }

    /// Asks for the resource of `slot` at `now`; `now` matters for the
    /// timestamps only.
    pub fn request(&mut self, slot: Slot, now: UnixTime) -> (r: Result<Lookup, ConsistencyError>)
        requires
            old(self).wf(),
        ensures
            final(self).wf(),
            (final(self)@, r) == old(self)@.request(slot, now),
    {
        match slot {
            Slot::Info => Ok(self.request_info()),
            Slot::Buffer(which) => Ok(self.request_buffer(which)),
            Slot::Timestamps => self.request_timestamps(now),
        }
    }

    /// Takes the report of a fetch of the metadata. A report that the slot
    /// does not wait for is dropped: `Superseded`, and nothing changes. A
    /// failed fetch empties the slot, so that a later request fetches again.
    pub fn store_info(&mut self, ticket: Ticket, result: Result<BoardInfo, RequestError>) -> (r:
        Result<(), RequestError>)
        requires
            old(self).wf(),
        ensures
            final(self).wf(),
            (final(self)@, r) == old(self)@.store_info(ticket, result),
    {
        if !matches!(ticket.slot, Slot::Info) || !self.awaits(&ticket) {
            return Err(RequestError::Superseded);
        }
        match result {
            Err(e) => {
                self.info = Entry::Empty;
                Err(e)
            },
            Ok(info) => {
                if info.pixel_count().is_some() {
                    self.info = Entry::Ready(info);
                    Ok(())
                } else {
                    self.info = Entry::Empty;
                    Err(RequestError::CanvasTooLarge)
                }
            },
        }
    }

    /// Takes the report of a fetch of a byte buffer. A buffer that does not
    /// have one byte for each pixel is refused, and the slot emptied.
    pub fn store_buffer(&mut self, ticket: Ticket, result: Result<Vec<u8>, RequestError>) -> (r:
        Result<(), RequestError>)
        requires
            old(self).wf(),
        ensures
            final(self).wf(),
            (final(self)@, r) == old(self)@.store_buffer(ticket, bytes_of(result)),
    {
        let which: Buffer = match ticket.slot {
            Slot::Buffer(which) => which,
            _ => {
                return Err(RequestError::Superseded);
            },
        };
        if !self.awaits(&ticket) {
            return Err(RequestError::Superseded);
        }
        let data: Vec<u8> = match result {
            Ok(data) => data,
            Err(e) => {
                self.set_buffer(which, Entry::Empty);
                return Err(e);
            },
        };
        let expected: usize = match self.info() {
            Some(info) => match info.pixel_count() {
                Some(n) => n,
                None => {
                    self.set_buffer(which, Entry::Empty);
                    return Err(RequestError::Superseded);
                },
            },
            None => {
                self.set_buffer(which, Entry::Empty);
                return Err(RequestError::Superseded);
            },
        };
        if data.len() == expected {
            self.set_buffer(which, Entry::Ready(data));
            Ok(())
        } else {
            let actual: usize = data.len();
            self.set_buffer(which, Entry::Empty);
            Err(RequestError::Size { expected, actual })
        }
    }

    /// Takes the report of a fetch of heatmap and virginmap, and derives the
    /// timestamp buffer for the instant noted when the fetch began. Where
    /// either buffer has the wrong size or some pixel's age cannot be held,
    /// the report is refused and the slot emptied.
    pub fn store_timestamps(
        &mut self,
        ticket: Ticket,
        result: Result<(Vec<u8>, Vec<u8>), RequestError>,
    ) -> (r: Result<(), RequestError>)
        requires
            old(self).wf(),
        ensures
            final(self).wf(),
            (final(self)@, r) == old(self)@.store_timestamps(ticket, maps_of(result)),
    {
        if !matches!(ticket.slot, Slot::Timestamps) || !self.awaits(&ticket) {
            return Err(RequestError::Superseded);
        }
        let started: UnixTime = match &self.timestamps {
            Entry::Fetching(started) => *started,
            _ => {
                return Err(RequestError::Superseded);
            },
        };
        let (heatmap, virginmap) = match result {
            Ok(maps) => maps,
            Err(e) => {
                self.timestamps = Entry::Empty;
                return Err(e);
            },
        };
        let derived = self.derive_timestamps(&heatmap, &virginmap, started);
        match derived {
            Ok(buffer) => {
                self.timestamps = Entry::Ready(buffer);
                Ok(())
            },
            Err(e) => {
                self.timestamps = Entry::Empty;
                Err(e)
            },
        }
    }

    fn derive_timestamps(&self, heatmap: &Vec<u8>, virginmap: &Vec<u8>, started: UnixTime) -> (r:
        Result<Vec<u32>, RequestError>)
        requires
            self.wf(),
        ensures
            match r {
                Ok(buffer) => self@.derived_timestamps(heatmap@, virginmap@, started) == Ok::<
                    Seq<u32>,
                    RequestError,
                >(buffer@),
                Err(e) => self@.derived_timestamps(heatmap@, virginmap@, started) == Err::<
                    Seq<u32>,
                    RequestError,
                >(e),
            },
    {
        let expected: usize = match self.info() {
            Some(info) => match info.pixel_count() {
                Some(n) => n,
                None => {
                    return Err(RequestError::Superseded);
                },
            },
            None => {
                return Err(RequestError::Superseded);
            },
        };
        let epoch: UnixTime = match self.created_at {
            Some(epoch) => epoch,
            None => {
                return Err(RequestError::Inconsistent(ConsistencyError::MissingEpoch));
            },
        };
        if heatmap.len() != expected {
            return Err(RequestError::Size { expected, actual: heatmap.len() });
        }
        if virginmap.len() != expected {
            return Err(RequestError::Size { expected, actual: virginmap.len() });
        }
        match reconstruct_timestamps(heatmap.as_slice(), virginmap.as_slice(), started, epoch) {
            Ok(buffer) => Ok(buffer),
            Err(_) => Err(RequestError::Inconsistent(ConsistencyError::UnrepresentableAge)),
        }
    }

    /// Applies one changed pixel at `now`. The colour buffer, where cached,
    /// gets the colour at the pixel's index; the timestamp buffer, where
    /// cached, gets the whole seconds from the start of the canvas to `now`.
    /// No other entry and no other slot changes. A pixel that cannot be
    /// applied changes nothing.
    pub fn update(&mut self, pixel: &Pixel, now: UnixTime) -> (r: Result<(), ConsistencyError>)
        requires
            old(self).wf(),
        ensures
            final(self).wf(),
            final(self)@ == old(self)@.update(*pixel, now),
            match r {
                Ok(()) => old(self)@.planned(*pixel, now) is Ok,
                Err(e) => old(self)@.planned(*pixel, now) == Err::<
                    Option<PixelWrite>,
                    ConsistencyError,
                >(e) && final(self)@ == old(self)@,
            },
            r != Err::<(), ConsistencyError>(ConsistencyError::MissingEpoch),
    {
        let (width, height): (usize, usize) = match self.info() {
            Some(info) => (info.width, info.height),
            None => {
                return Ok(());
            },
        };
        let timestamps_cached: bool = matches!(self.timestamps, Entry::Ready(_));
        let write: PixelWrite = match plan_update(
            width,
            height,
            pixel,
            timestamps_cached,
            self.created_at,
            now,
        ) {
            Ok(write) => write,
            Err(e) => {
                return Err(e);
            },
        };
        proof {
            lemma_index_on_canvas(pixel.x, pixel.y, width, height);
        }
        match &mut self.colors {
            Entry::Ready(buffer) => {
                buffer.set(write.index, write.color);
            },
            _ => {},
        }
        match (&mut self.timestamps, write.age) {
            (Entry::Ready(buffer), Some(age)) => {
                buffer.set(write.index, age);
            },
            _ => {},
        }
        Ok(())
    }

    /// Applies a batch of changed pixels at `now`, first to last. The first
    /// pixel that cannot be applied ends the batch: those before it stay
    /// applied, it and those after it change nothing, and its fault is returned.
    pub fn update_all(&mut self, pixels: &Vec<Pixel>, now: UnixTime) -> (r: Result<
        (),
        ConsistencyError,
    >)
        requires
            old(self).wf(),
        ensures
            final(self).wf(),
            final(self)@ == old(self)@.update_all(pixels@, now).0,
            match r {
                Ok(()) => old(self)@.update_all(pixels@, now).1 is None,
                Err(e) => old(self)@.update_all(pixels@, now).1 == Some(e),
            },
    {
        let mut i: usize = 0;
        assert(pixels@.skip(0) =~= pixels@);
        while i < pixels.len()
            invariant
                i <= pixels.len(),
                self.wf(),
                self@.update_all(pixels@.skip(i as int), now) == old(self)@.update_all(
                    pixels@,
                    now,
                ),
            decreases pixels.len() - i,
        {
            assert(pixels@.skip(i as int)[0] == pixels@[i as int]);
            assert(pixels@.skip(i as int).drop_first() =~= pixels@.skip(i + 1));
            match self.update(&pixels[i], now) {
                Ok(()) => {},
                Err(e) => {
                    return Err(e);
                },
            }
            i += 1;
        }
        assert(pixels@.skip(i as int).len() == 0);
        Ok(())
    }

    /// Empties every slot at once and begins the next generation, so that the
    /// report of a fetch that began before is dropped.
    pub fn invalidate_all(&mut self)
        ensures
            final(self).wf(),
            final(self)@ == old(self)@.invalidated(),
            final(self)@.all_empty(),
            final(self)@.generation != old(self)@.generation,
    {
        self.info = Entry::Empty;
        self.colors = Entry::Empty;
        self.initial = Entry::Empty;
        self.mask = Entry::Empty;
        self.timestamps = Entry::Empty;
        self.created_at = None;
        self.generation = if self.generation == u64::MAX {
            0
        } else {
            self.generation + 1
        };
    }
}

impl Default for ClientCache {
    fn default() -> (cache: Self)
        ensures
            cache@ == CacheView::empty(),
            cache.wf(),
    {
        ClientCache::new()
    }
}

/// Every populated per-pixel buffer of a cache that keeps its rules has one
/// entry for each pixel of the cached metadata: `width * height` of them.
pub proof fn lemma_populated_buffers_fit(cache: CacheView)
    requires
        cache.wf(),
    ensures
        forall|which: Buffer|
            (#[trigger] cache.buffer(which)) matches Entry::Ready(buffer) ==> cache.info is Ready
                && buffer.len() == cache.info->Ready_0.width * cache.info->Ready_0.height,
        cache.timestamps matches Entry::Ready(buffer) ==> cache.info is Ready && buffer.len()
            == cache.info->Ready_0.width * cache.info->Ready_0.height,
        cache.timestamps is Ready ==> cache.created_at is Some,
{
}

/// A request that is not answered with a ticket changes nothing, and one that
/// is leaves the slot with a fetch under way.
pub proof fn lemma_request_outcomes(cache: CacheView, slot: Slot, now: UnixTime)
    ensures
        cache.request(slot, now).1 matches Ok(Lookup::Fetch(ticket)) ==> cache.request(
            slot,
            now,
        ).0.awaits(ticket) && ticket.slot == slot,
        !(cache.request(slot, now).1 matches Ok(Lookup::Fetch(_))) ==> cache.request(slot, now).0
            == cache,
{
}

/// While a fetch for a resource is under way, every request for it is
/// answered with `Pending` and changes nothing, whenever it is made.
pub proof fn lemma_pending_while_fetching(cache: CacheView, ticket: Ticket, now: UnixTime)
    requires
        cache.awaits(ticket),
    ensures
        cache.request(ticket.slot, now) == (cache, Ok::<Lookup, ConsistencyError>(Lookup::Pending)),
{
}

/// Single flight: however often a resource is asked for in a row, at most
/// one of the requests is answered with a ticket, and exactly one where the
/// first is. So callers that ask for one resource that is not cached share
/// one fetch.
pub proof fn lemma_single_flight(cache: CacheView, slot: Slot, nows: Seq<UnixTime>)
    ensures
        cache.tickets_issued(slot, nows) <= 1,
        nows.len() > 0 && (cache.request(slot, nows[0]).1 matches Ok(Lookup::Fetch(_)))
            ==> cache.tickets_issued(slot, nows) == 1,
    decreases nows.len(),
{
    if nows.len() > 0 {
        let (next, answer) = cache.request(slot, nows[0]);
        let rest = nows.drop_first();
        lemma_request_outcomes(cache, slot, nows[0]);
        lemma_single_flight(next, slot, rest);
        if let Ok(Lookup::Fetch(ticket)) = answer {
            lemma_none_issued_while_fetching(next, ticket, rest);
        }
    }
}

/// While a fetch for a resource is under way, no request for it is answered
/// with a ticket.
pub proof fn lemma_none_issued_while_fetching(cache: CacheView, ticket: Ticket, nows: Seq<UnixTime>)
    requires
        cache.awaits(ticket),
    ensures
        cache.tickets_issued(ticket.slot, nows) == 0,
    decreases nows.len(),
{
    if nows.len() > 0 {
        lemma_pending_while_fetching(cache, ticket, nows[0]);
        lemma_none_issued_while_fetching(cache, ticket, nows.drop_first());
    }
}

/// A report with a ticket of another generation is dropped, whatever it
/// carries: the cache stays as it is.
pub proof fn lemma_stale_report_dropped(
    cache: CacheView,
    ticket: Ticket,
    info: Result<BoardInfo, RequestError>,
    bytes: Result<Seq<u8>, RequestError>,
    maps: Result<(Seq<u8>, Seq<u8>), RequestError>,
)
    requires
        ticket.generation != cache.generation,
    ensures
        cache.store_info(ticket, info) == (cache, Err::<(), RequestError>(RequestError::Superseded)),
        cache.store_buffer(ticket, bytes) == (
            cache,
            Err::<(), RequestError>(RequestError::Superseded),
        ),
        cache.store_timestamps(ticket, maps) == (
            cache,
            Err::<(), RequestError>(RequestError::Superseded),
        ),
{
}

/// A fetch that began before the cache was emptied cannot populate a slot
/// afterwards: after `invalidated`, every slot is empty, and the report of
/// any fetch of the generation before is dropped; also after any number of
/// requests made in the new generation.
pub proof fn lemma_invalidation_outdates(
    cache: CacheView,
    ticket: Ticket,
    slot: Slot,
    nows: Seq<UnixTime>,
    info: Result<BoardInfo, RequestError>,
    bytes: Result<Seq<u8>, RequestError>,
    maps: Result<(Seq<u8>, Seq<u8>), RequestError>,
)
    requires
        ticket.generation == cache.generation,
    ensures
        cache.invalidated().all_empty(),
        cache.invalidated().wf(),
        ({
            let later = after_requests(cache.invalidated(), slot, nows);
            &&& later.store_info(ticket, info).0 == later
            &&& later.store_buffer(ticket, bytes).0 == later
            &&& later.store_timestamps(ticket, maps).0 == later
        }),
{
    lemma_requests_keep_generation(cache.invalidated(), slot, nows);
    lemma_stale_report_dropped(
        after_requests(cache.invalidated(), slot, nows),
        ticket,
        info,
        bytes,
        maps,
    );
}

/// The cache after the resource of `slot` was asked for once at each of the
/// instants `nows`, in turn.
pub open spec fn after_requests(cache: CacheView, slot: Slot, nows: Seq<UnixTime>) -> CacheView
    decreases nows.len(),
{
    if nows.len() == 0 {
        cache
    } else {
        after_requests(cache.request(slot, nows[0]).0, slot, nows.drop_first())
    }
}

/// Requests begin no generation.
pub proof fn lemma_requests_keep_generation(cache: CacheView, slot: Slot, nows: Seq<UnixTime>)
    ensures
        after_requests(cache, slot, nows).generation == cache.generation,
    decreases nows.len(),
{
    if nows.len() > 0 {
        lemma_requests_keep_generation(cache.request(slot, nows[0]).0, slot, nows.drop_first());
    }
}

/// The instant that timestamps count from is set once. A request for the
/// timestamps keeps the one that is set; where none is set and the request is
/// answered with a ticket, it sets the one inferred at `now`: one second more
/// than the window of the heatmap before `now`.
pub proof fn lemma_epoch_set_once(cache: CacheView, now: UnixTime)
    requires
        cache.wf(),
        now.wf(),
    ensures
        cache.created_at is Some ==> cache.request_timestamps(now).0.created_at
            == cache.created_at,
        !(cache.request_timestamps(now).1 matches Ok(Lookup::Fetch(_))) ==> cache.request_timestamps(
            now,
        ).0.created_at == cache.created_at,
        cache.created_at is None && (cache.request_timestamps(now).1 matches Ok(Lookup::Fetch(_)))
            ==> ({
            let epoch = cache.request_timestamps(now).0.created_at;
            &&& epoch is Some
            &&& epoch.unwrap().wf()
            &&& epoch.unwrap().total_nanos() == inferred_epoch_nanos(
                now,
                cache.info->Ready_0.heatmap_cooldown,
            )
        }),
{
    if cache.info is Ready && epoch_inferable(now, cache.info->Ready_0.heatmap_cooldown) {
        lemma_inferred_epoch(now, cache.info->Ready_0.heatmap_cooldown);
    }
}

/// A changed pixel that is applied touches one index, `y * width + x`: the
/// colour buffer, where cached, holds the pixel's colour there and what it
/// held everywhere else; the timestamp buffer, where cached, holds the whole
/// seconds since the start of the canvas there and what it held everywhere
/// else; and no other slot changes.
pub proof fn lemma_update_touches_one_index(cache: CacheView, pixel: Pixel, now: UnixTime)
    requires
        cache.wf(),
        cache.planned(pixel, now) is Ok,
        cache.info is Ready,
    ensures
        ({
            let after = cache.update(pixel, now);
            let index = linear_index(pixel.x, pixel.y, cache.info->Ready_0.width);
            &&& after.wf()
            &&& after.info == cache.info
            &&& after.initial == cache.initial
            &&& after.mask == cache.mask
            &&& after.created_at == cache.created_at
            &&& after.generation == cache.generation
            &&& 0 <= index < cache.info->Ready_0.width * cache.info->Ready_0.height
            &&& cache.colors matches Entry::Ready(before) ==> after.colors matches Entry::Ready(
                buffer,
            ) && buffer.len() == before.len() && buffer[index] == pixel.color && forall|i: int|
                0 <= i < before.len() && i != index ==> buffer[i] == before[i]
            &&& !(cache.colors is Ready) ==> after.colors == cache.colors
            &&& cache.timestamps matches Entry::Ready(before) ==> after.timestamps matches Entry::Ready(
                buffer,
            ) && buffer.len() == before.len() && Some(buffer[index]) == elapsed_secs(
                now,
                cache.created_at.unwrap(),
            ) && forall|i: int| 0 <= i < before.len() && i != index ==> buffer[i] == before[i]
            &&& !(cache.timestamps is Ready) ==> after.timestamps == cache.timestamps
        }),
{
    let info = cache.info->Ready_0;
    lemma_index_on_canvas(pixel.x, pixel.y, info.width, info.height);
}

} // verus!
