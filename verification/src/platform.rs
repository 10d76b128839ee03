//! The platform's dynamic loader, held as plain data.
//!
//! A [`Loader`] knows a list of library images, hands out a fresh handle for
//! each library it opens, and keeps books on what it was asked to do: how
//! many entry points of each open library are still held by someone, how
//! many libraries it has closed, and everything that happened, calls
//! included, in the order in which it happened. The rest of the crate states
//! its promises over these books.

use vstd::prelude::*;
use vstd::slice::slice_to_vec;
use crate::error::{LoadError, SymbolError};
use crate::first::{first_of, lemma_absent_has_no_first, lemma_first_at_is_first_of};

verus! {

/// The shape of a native routine, as far as calling it goes.
#[derive(Clone, Copy, PartialEq, Eq, Structural, Debug)]
pub enum Signature {
    /// Takes nothing and returns a status.
    Nullary,
    /// Takes a run of bytes and returns a status.
    Bytes,
}

/// The address of one export of one open library.
#[derive(Clone, Copy, PartialEq, Eq, Structural, Debug)]
pub struct RawEntryPoint {
    /// The handle of the library that holds the routine.
    pub library: usize,
    /// The place of the routine among the exports of that library.
    pub slot: usize,
}

/// What the loader keeps for an open library.
#[derive(Clone, Copy, PartialEq, Eq, Structural, Debug)]
pub struct Mapping {
    /// The place of the library's image among the loader's images.
    pub image: usize,
    /// How many entry points of the library are held and not yet given up.
    pub outstanding: usize,
}

/// One thing the loader did.
#[derive(PartialEq, Eq, Debug)]
pub enum Event {
    /// A library was opened under this handle.
    Opened(usize),
    /// This entry point was handed out.
    Resolved(RawEntryPoint),
    /// The routine at this entry point was called on these bytes; on none,
    /// where it takes nothing.
    Called(RawEntryPoint, Vec<u8>),
    /// This entry point was given up by its holder.
    Invalidated(RawEntryPoint),
    /// The library under this handle was closed.
    Closed(usize),
}

/// An [`Event`] as a mathematical value.
pub enum EventView {
    /// A library was opened under this handle.
    Opened(usize),
    /// This entry point was handed out.
    Resolved(RawEntryPoint),
    /// The routine at this entry point was called on these bytes.
    Called(RawEntryPoint, Seq<u8>),
    /// This entry point was given up by its holder.
    Invalidated(RawEntryPoint),
    /// The library under this handle was closed.
    Closed(usize),
}

impl View for Event {
    type V = EventView;

    open spec fn view(&self) -> EventView {
        match self {
            Event::Opened(handle) => EventView::Opened(*handle),
            Event::Resolved(entry) => EventView::Resolved(*entry),
            Event::Called(entry, args) => EventView::Called(*entry, args@),
            Event::Invalidated(entry) => EventView::Invalidated(*entry),
            Event::Closed(handle) => EventView::Closed(*handle),
        }
    }
}

impl EventView {
    /// The handle of the library that the event speaks of.
    pub open spec fn handle(self) -> usize {
        match self {
            EventView::Opened(handle) => handle,
            EventView::Resolved(entry) => entry.library,
            EventView::Called(entry, _) => entry.library,
            EventView::Invalidated(entry) => entry.library,
            EventView::Closed(handle) => handle,
        }
    }

    /// By how much the event changes the number of entry points of the
    /// library under `handle` that are in someone's hands.
    pub open spec fn weight(self, handle: usize) -> int {
        match self {
            EventView::Resolved(entry) if entry.library == handle => 1,
            EventView::Invalidated(entry) if entry.library == handle => -1,
            _ => 0,
        }
    }
}

/// A run of events as mathematical values.
pub open spec fn views(events: Seq<Event>) -> Seq<EventView> {
    events.map_values(|event: Event| event@)
}

/// How many entry points of the library under `handle` the events of `trace`
/// leave in someone's hands: those handed out, less those given up.
pub open spec fn pending(trace: Seq<EventView>, handle: usize) -> int
    decreases trace.len(),
{
    if trace.len() == 0 {
        0
    } else {
        pending(trace.drop_last(), handle) + trace.last().weight(handle)
    }
}

proof fn lemma_pending_push(trace: Seq<EventView>, event: EventView, handle: usize)
    ensures
        pending(trace.push(event), handle) == pending(trace, handle) + event.weight(handle),
{
    assert(trace.push(event).drop_last() =~= trace);
}

proof fn lemma_pending_of_a_stranger(trace: Seq<EventView>, handle: usize)
    requires
        forall|at: int| 0 <= at < trace.len() ==> (#[trigger] trace[at]).handle() != handle,
    ensures
        pending(trace, handle) == 0,
    decreases trace.len(),
{
    if trace.len() > 0 {
        lemma_pending_of_a_stranger(trace.drop_last(), handle);
    }
}

proof fn lemma_pending_of_a_prefix(trace: Seq<EventView>, handle: usize, upto: int)
    requires
        0 <= upto <= trace.len(),
        forall|at: int| upto <= at < trace.len() ==> (#[trigger] trace[at]).weight(handle) == 0,
    ensures
        pending(trace, handle) == pending(trace.take(upto), handle),
    decreases trace.len(),
{
    if upto == trace.len() {
        assert(trace.take(upto) =~= trace);
    } else {
        lemma_pending_of_a_prefix(trace.drop_last(), handle, upto);
        assert(trace.drop_last().take(upto) =~= trace.take(upto));
    }
}

/// A routine that a library image exports: calling it yields `status`.
#[derive(Debug)]
pub struct Export {
    name: String,
    signature: Signature,
    status: i32,
}

/// An [`Export`] as a mathematical value.
pub struct ExportView {
    pub name: Seq<char>,
    pub signature: Signature,
    pub status: i32,
}

impl View for Export {
    type V = ExportView;

    closed spec fn view(&self) -> ExportView {
        ExportView { name: self.name@, signature: self.signature, status: self.status }
    }
}

impl Export {
    /// An export called `name`, of the given shape, that answers `status`.
    pub fn new(name: &str, signature: Signature, status: i32) -> (export: Export)
        ensures
            export@ == (ExportView { name: name@, signature, status }),
    {
        Export { name: name.to_owned(), signature, status }
    }
}

/// A library as it lies on disk: its identifier, whether the platform will
/// load it, and what it exports.
#[derive(Debug)]
pub struct Image {
    identifier: String,
    loadable: bool,
    exports: Vec<Export>,
}

/// An [`Image`] as a mathematical value.
pub struct ImageView {
    pub identifier: Seq<char>,
    pub loadable: bool,
    pub exports: Seq<ExportView>,
}

impl View for Image {
    type V = ImageView;

    closed spec fn view(&self) -> ImageView {
        ImageView {
            identifier: self.identifier@,
            loadable: self.loadable,
            exports: self.exports@.map_values(|export: Export| export@),
        }
    }
}

impl ImageView {
    /// The names of the exports, in order.
    pub open spec fn names(self) -> Seq<Seq<char>> {
        self.exports.map_values(|export: ExportView| export.name)
    }

    /// The slot that a lookup of `name` yields: that of the first export so
    /// called.
    pub open spec fn slot_of(self, name: Seq<char>) -> Option<int> {
        first_of(self.names(), name)
    }

    /// The address that a lookup of `name` yields once the image is open
    /// under `handle`.
    pub open spec fn entry_of(self, handle: usize, name: Seq<char>) -> Option<RawEntryPoint> {
        match self.slot_of(name) {
            Some(slot) => Some(RawEntryPoint { library: handle, slot: slot as usize }),
            None => None,
        }
    }
}

impl Image {
    /// An image filed under `identifier` with the given exports. The platform
    /// refuses to load it unless `loadable` is set.
    pub fn new(identifier: &str, loadable: bool, exports: Vec<Export>) -> (image: Image)
        ensures
            image@ == (ImageView {
                identifier: identifier@,
                loadable,
                exports: exports@.map_values(|export: Export| export@),
            }),
    {
        Image { identifier: identifier.to_owned(), loadable, exports }
    }

    /// Looks `name` up among the exports.
    fn slot_of(&self, name: &String) -> (slot: Option<usize>)
        ensures
            match slot {
                Some(at) => self@.slot_of(name@) == Some(at as int),
                None => self@.slot_of(name@) is None,
            },
    {
        let mut at: usize = 0;
        while at < self.exports.len()
            invariant
                at <= self.exports.len(),
                forall|before: int| 0 <= before < at ==> self@.names()[before] != name@,
            decreases self.exports.len() - at,
        {
            if self.exports[at].name == *name {
                proof {
                    lemma_first_at_is_first_of(self@.names(), name@, at as int);
                }
                return Some(at);
            }
            at += 1;
        }
        proof {
            lemma_absent_has_no_first(self@.names(), name@);
        }
        None
    }
}

/// How many of `slots` hold an open library.
pub open spec fn held(slots: Seq<Option<Mapping>>) -> nat
    decreases slots.len(),
{
    if slots.len() == 0 {
        0
    } else {
        held(slots.drop_last()) + if slots.last() is Some {
            1nat
        } else {
            0nat
        }
    }
}

proof fn lemma_held_push(slots: Seq<Option<Mapping>>, slot: Option<Mapping>)
    ensures
        held(slots.push(slot)) == held(slots) + if slot is Some {
            1nat
        } else {
            0nat
        },
{
    assert(slots.push(slot).drop_last() =~= slots);
}

proof fn lemma_held_update(slots: Seq<Option<Mapping>>, at: int, slot: Option<Mapping>)
    requires
        0 <= at < slots.len(),
        slots[at] is Some,
    ensures
        held(slots.update(at, slot)) + 1 == held(slots) + if slot is Some {
            1nat
        } else {
            0nat
        },
    decreases slots.len(),
{
    if at == slots.len() - 1 {
        assert(slots.update(at, slot).drop_last() =~= slots.drop_last());
    } else {
        lemma_held_update(slots.drop_last(), at, slot);
        assert(slots.update(at, slot).drop_last() =~= slots.drop_last().update(at, slot));
    }
}

/// A [`Loader`] as a mathematical value.
#[verifier::ext_equal]
pub struct LoaderView {
    /// The images that the loader can open, in the order of their arrival.
    pub images: Seq<ImageView>,
    /// One slot for each handle ever handed out, in order; `None` once the
    /// library has been closed.
    pub slots: Seq<Option<Mapping>>,
    /// How many libraries the loader has closed.
    pub closes: nat,
    /// Everything the loader did, oldest first.
    pub trace: Seq<EventView>,
}

impl LoaderView {
    /// A loader that knows no image and has done nothing.
    pub open spec fn fresh() -> LoaderView {
        LoaderView { images: Seq::empty(), slots: Seq::empty(), closes: 0, trace: Seq::empty() }
    }

    /// The identifiers of the images, in order.
    pub open spec fn identifiers(self) -> Seq<Seq<char>> {
        self.images.map_values(|image: ImageView| image.identifier)
    }

    /// What asking for `identifier` comes to: the place of the first image
    /// filed under it, if there is one and it can be loaded.
    pub open spec fn locate(self, identifier: Seq<char>) -> Result<int, LoadError> {
        match first_of(self.identifiers(), identifier) {
            None => Err(LoadError::NotFound),
            Some(at) => if self.images[at].loadable {
                Ok(at)
            } else {
                Err(LoadError::LoadFailed)
            },
        }
    }

    /// How many libraries the loader has opened, which is also the handle
    /// that the next one will get.
    pub open spec fn opens(self) -> nat {
        self.slots.len()
    }

    /// How many libraries are open.
    pub open spec fn held(self) -> nat {
        held(self.slots)
    }

    /// The library under `handle` is open.
    pub open spec fn is_live(self, handle: usize) -> bool {
        handle < self.slots.len() && self.slots[handle as int] is Some
    }

    /// How many entry points of the open library under `handle` are held.
    pub open spec fn outstanding(self, handle: usize) -> nat {
        self.slots[handle as int]->0.outstanding as nat
    }

    /// The image of the open library under `handle`.
    pub open spec fn image_of(self, handle: usize) -> ImageView {
        self.images[self.slots[handle as int]->0.image as int]
    }

    /// `entry` is the address of an export of an open library.
    pub open spec fn has_entry(self, entry: RawEntryPoint) -> bool {
        self.is_live(entry.library) && entry.slot < self.image_of(entry.library).exports.len()
    }

    /// The export that lies at `entry`.
    pub open spec fn export_at(self, entry: RawEntryPoint) -> ExportView {
        self.image_of(entry.library).exports[entry.slot as int]
    }

    /// What a lookup of `name` in the open library under `handle` yields: the
    /// address of the first export so called, if there is one.
    pub open spec fn lookup(self, handle: usize, name: Seq<char>) -> Option<RawEntryPoint> {
        self.image_of(handle).entry_of(handle, name)
    }

    /// A routine that forwards to `target` may be called as one of shape
    /// `signature`: it either forwards nowhere, or to an export of an open
    /// library that has this shape.
    pub open spec fn admits(self, target: Option<RawEntryPoint>, signature: Signature) -> bool {
        target matches Some(entry) ==> self.has_entry(entry) && self.export_at(entry).signature
            == signature
    }

    /// What a call of a routine that forwards to `target` returns: the status
    /// of the export there, or zero where it forwards nowhere.
    pub open spec fn answer(self, target: Option<RawEntryPoint>) -> i32 {
        match target {
            Some(entry) => self.export_at(entry).status,
            None => 0,
        }
    }

    /// The books are in order: every handle has its slot, every closed
    /// library is counted, every open library has an image, nothing in the
    /// trace speaks of a library after the event that closed it, and the
    /// count of held entry points of each library is what the trace comes to.
    pub open spec fn wf(self) -> bool {
        &&& self.images.len() <= usize::MAX
        &&& self.slots.len() <= usize::MAX
        &&& self.closes + held(self.slots) == self.slots.len()
        &&& forall|handle: int|
            0 <= handle < self.slots.len() && (#[trigger] self.slots[handle]) is Some
                ==> self.slots[handle]->0.image < self.images.len()
        &&& forall|at: int|
            0 <= at < self.trace.len() ==> (#[trigger] self.trace[at]).handle() < self.slots.len()
        &&& forall|at: int|
            0 <= at < self.trace.len() && (#[trigger] self.trace[at]) is Closed
                ==> self.slots[self.trace[at].handle() as int] is None
        &&& forall|at: int, later: int|
            0 <= at < later < self.trace.len() && (#[trigger] self.trace[at]) is Closed
                ==> (#[trigger] self.trace[later]).handle() != self.trace[at].handle()
        &&& forall|handle: usize|
            handle < self.slots.len() ==> #[trigger] pending(self.trace, handle)
                == self.in_hand(handle)
    }

    /// How many entry points of the library under `handle` the loader counts
    /// as held: none once the library is closed.
    pub open spec fn in_hand(self, handle: usize) -> int {
        match self.slots[handle as int] {
            Some(mapping) => mapping.outstanding as int,
            None => 0,
        }
    }

    /// `later` has the library under `handle` just as `self` has it: open, of
    /// the same image, with as many entry points held. Every image that `self`
    /// knows is still in its place.
    pub open spec fn keeps(self, handle: usize, later: LoaderView) -> bool {
        &&& self.is_live(handle)
        &&& handle < later.slots.len()
        &&& later.slots[handle as int] == self.slots[handle as int]
        &&& self.images.len() <= later.images.len()
        &&& forall|at: int| 0 <= at < self.images.len() ==> later.images[at] == self.images[at]
    }

    /// The loader after it has taken in `image`.
    pub open spec fn installed(self, image: ImageView) -> LoaderView {
        LoaderView { images: self.images.push(image), ..self }
    }

    /// The loader after it has opened the image at place `image`.
    pub open spec fn opened(self, image: int) -> LoaderView {
        LoaderView {
            slots: self.slots.push(Some(Mapping { image: image as usize, outstanding: 0 })),
            trace: self.trace.push(EventView::Opened(self.slots.len() as usize)),
            ..self
        }
    }

    /// The loader after it has handed out `entry`.
    pub open spec fn resolved(self, entry: RawEntryPoint) -> LoaderView {
        LoaderView {
            slots: self.slots.update(
                entry.library as int,
                Some(
                    Mapping {
                        outstanding: (self.outstanding(entry.library) + 1) as usize,
                        ..self.slots[entry.library as int]->0
                    },
                ),
            ),
            trace: self.trace.push(EventView::Resolved(entry)),
            ..self
        }
    }

    /// The loader after the routine at `entry` has been called on `args`.
    pub open spec fn called(self, entry: RawEntryPoint, args: Seq<u8>) -> LoaderView {
        LoaderView { trace: self.trace.push(EventView::Called(entry, args)), ..self }
    }

    /// The loader after a routine that forwards to `target` has been called
    /// on `args`: where it forwards nowhere, the loader does not hear of it.
    pub open spec fn after_call(self, target: Option<RawEntryPoint>, args: Seq<u8>) -> LoaderView {
        match target {
            Some(entry) => self.called(entry, args),
            None => self,
        }
    }

    /// The loader after the holder of `entry` has given it up.
    pub open spec fn invalidated(self, entry: RawEntryPoint) -> LoaderView {
        LoaderView {
            slots: self.slots.update(
                entry.library as int,
                Some(
                    Mapping {
                        outstanding: (self.outstanding(entry.library) - 1) as usize,
                        ..self.slots[entry.library as int]->0
                    },
                ),
            ),
            trace: self.trace.push(EventView::Invalidated(entry)),
            ..self
        }
    }

    /// The loader after it has closed the library under `handle`.
    pub open spec fn closed(self, handle: usize) -> LoaderView {
        LoaderView {
            slots: self.slots.update(handle as int, None),
            closes: self.closes + 1,
            trace: self.trace.push(EventView::Closed(handle)),
            ..self
        }
    }
}

/// The platform's dynamic loader.
#[derive(Debug)]
pub struct Loader {
    images: Vec<Image>,
    slots: Vec<Option<Mapping>>,
    closes: usize,
    trace: Vec<Event>,
}

impl View for Loader {
    type V = LoaderView;

    closed spec fn view(&self) -> LoaderView {
        LoaderView {
            images: self.images@.map_values(|image: Image| image@),
            slots: self.slots@,
            closes: self.closes as nat,
            trace: views(self.trace@),
        }
    }
}

impl Loader {
    /// A loader that knows no image and has done nothing.
    pub fn new() -> (loader: Loader)
        ensures
            loader@ == LoaderView::fresh(),
            loader@.wf(),
    {
        Loader { images: Vec::new(), slots: Vec::new(), closes: 0, trace: Vec::new() }
    }

    /// Takes in `image`, behind the images that are already there.
    pub fn install(&mut self, image: Image)
        requires
            old(self)@.wf(),
        ensures
            final(self)@ == old(self)@.installed(image@),
            final(self)@.wf(),
    {
        self.images.push(image);
        proof {
            assert(self.images@.len() == self.images.len());
        }
    }

    /// Looks `identifier` up among the images.
    fn locate(&self, identifier: &String) -> (found: Result<usize, LoadError>)
        ensures
            match found {
                Ok(at) => self@.locate(identifier@) == Ok::<int, LoadError>(at as int),
                Err(refusal) => self@.locate(identifier@) == Err::<int, LoadError>(refusal),
            },
    {
        let mut at: usize = 0;
        while at < self.images.len()
            invariant
                at <= self.images.len(),
                forall|before: int| 0 <= before < at ==> self@.identifiers()[before] != identifier@,
            decreases self.images.len() - at,
        {
            if self.images[at].identifier == *identifier {
                proof {
                    lemma_first_at_is_first_of(self@.identifiers(), identifier@, at as int);
                }
                if self.images[at].loadable {
                    return Ok(at);
                } else {
                    return Err(LoadError::LoadFailed);
                }
            }
            at += 1;
        }
        proof {
            lemma_absent_has_no_first(self@.identifiers(), identifier@);
        }
        Err(LoadError::NotFound)
    }

    /// Opens the library filed under `identifier` and hands out a fresh handle
    /// for it. Where the platform refuses, nothing changes.
    pub fn open(&mut self, identifier: &str) -> (outcome: Result<usize, LoadError>)
        requires
            old(self)@.wf(),
        ensures
            final(self)@.wf(),
            match outcome {
                Ok(handle) => {
                    &&& old(self)@.locate(identifier@) matches Ok(image)
                    &&& handle == old(self)@.opens()
                    &&& final(self)@ == old(self)@.opened(image)
                },
                Err(refusal) => {
                    &&& old(self)@.locate(identifier@) == Err::<int, LoadError>(refusal)
                    &&& final(self)@ == old(self)@
                },
            },
    {
        let wanted = identifier.to_owned();
        match self.locate(&wanted) {
            Ok(image) => {
                let handle = self.slots.len();
                self.slots.push(Some(Mapping { image, outstanding: 0 }));
                self.note(Event::Opened(handle));
                proof {
                    lemma_held_push(old(self)@.slots, Some(Mapping { image, outstanding: 0 }));
                    assert(self.slots@.len() == self.slots.len());
                    lemma_pending_of_a_stranger(old(self)@.trace, handle);
                }
                Ok(handle)
            },
            Err(refusal) => Err(refusal),
        }
    }

    /// Looks `name` up in the open library under `handle` and hands out the
    /// address of the first export so called; the loader counts it as held
    /// until it is given up. Where no export is so called, nothing changes.
    pub fn resolve(&mut self, handle: usize, name: &str) -> (outcome: Result<
        RawEntryPoint,
        SymbolError,
    >)
        requires
            old(self)@.wf(),
            old(self)@.is_live(handle),
            old(self)@.outstanding(handle) < usize::MAX,
        ensures
            final(self)@.wf(),
            match outcome {
                Ok(entry) => {
                    &&& old(self)@.lookup(handle, name@) == Some(entry)
                    &&& old(self)@.has_entry(entry)
                    &&& final(self)@ == old(self)@.resolved(entry)
                },
                Err(missing) => {
                    &&& missing.name() == name@
                    &&& old(self)@.lookup(handle, name@) is None
                    &&& final(self)@ == old(self)@
                },
            },
    {
        let wanted = name.to_owned();
        let mapping = self.slots[handle].unwrap();
        match self.images[mapping.image].slot_of(&wanted) {
            Some(slot) => {
                let entry = RawEntryPoint { library: handle, slot };
                let kept = Mapping { image: mapping.image, outstanding: mapping.outstanding + 1 };
                self.slots.set(handle, Some(kept));
                self.note(Event::Resolved(entry));
                proof {
                    lemma_held_update(old(self)@.slots, handle as int, Some(kept));
                }
                Ok(entry)
            },
            None => Err(SymbolError::NotFound(wanted)),
        }
    }

    /// Takes note that the holder of `entry` has given it up.
    pub fn invalidate(&mut self, entry: RawEntryPoint)
        requires
            old(self)@.wf(),
            old(self)@.is_live(entry.library),
            old(self)@.outstanding(entry.library) > 0,
        ensures
            final(self)@ == old(self)@.invalidated(entry),
            final(self)@.wf(),
    {
        let mapping = self.slots[entry.library].unwrap();
        let kept = Mapping { image: mapping.image, outstanding: mapping.outstanding - 1 };
        self.slots.set(entry.library, Some(kept));
        self.note(Event::Invalidated(entry));
        proof {
            lemma_held_update(old(self)@.slots, entry.library as int, Some(kept));
        }
    }

    /// Closes the library under `handle`. None of its entry points may still
    /// be held.
    pub fn close(&mut self, handle: usize)
        requires
            old(self)@.wf(),
            old(self)@.is_live(handle),
            old(self)@.outstanding(handle) == 0,
        ensures
            final(self)@ == old(self)@.closed(handle),
            final(self)@.wf(),
    {
        proof {
            lemma_held_update(old(self)@.slots, handle as int, None);
        }
        self.slots.set(handle, None);
        self.closes = self.closes + 1;
        self.note(Event::Closed(handle));
    }

    /// Calls the routine at `entry` as one that takes nothing, and takes note
    /// of the call.
    pub fn call_nullary(&mut self, entry: RawEntryPoint) -> (status: i32)
        requires
            old(self)@.wf(),
            old(self)@.has_entry(entry),
            old(self)@.export_at(entry).signature == Signature::Nullary,
        ensures
            status == old(self)@.export_at(entry).status,
            final(self)@ == old(self)@.called(entry, Seq::empty()),
            final(self)@.wf(),
    {
        self.note(Event::Called(entry, Vec::new()));
        let mapping = self.slots[entry.library].unwrap();
        self.images[mapping.image].exports[entry.slot].status
    }

    /// Calls the routine at `entry` on `args`, as one that takes a run of
    /// bytes, and takes note of the call.
    pub fn call_bytes(&mut self, entry: RawEntryPoint, args: &[u8]) -> (status: i32)
        requires
            old(self)@.wf(),
            old(self)@.has_entry(entry),
            old(self)@.export_at(entry).signature == Signature::Bytes,
        ensures
            status == old(self)@.export_at(entry).status,
            final(self)@ == old(self)@.called(entry, args@),
            final(self)@.wf(),
    {
        self.note(Event::Called(entry, slice_to_vec(args)));
        let mapping = self.slots[entry.library].unwrap();
        self.images[mapping.image].exports[entry.slot].status
    }

    /// Writes `event` into the trace.
    fn note(&mut self, event: Event)
        ensures
            final(self)@ == (LoaderView {
                trace: old(self)@.trace.push(event@),
                ..old(self)@
            }),
            forall|handle: usize| #[trigger]
                pending(final(self)@.trace, handle) == pending(old(self)@.trace, handle)
                    + event@.weight(handle),
    {
        self.trace.push(event);
        proof {
            assert(self@.trace == old(self)@.trace.push(event@));
            assert forall|handle: usize| #[trigger]
                pending(self@.trace, handle) == pending(old(self)@.trace, handle) + event@.weight(
                    handle,
                ) by {
                lemma_pending_push(old(self)@.trace, event@, handle);
            }
        }
    }

    /// How many libraries the loader has opened.
    pub fn opens(&self) -> (count: usize)
        ensures
            count == self@.opens(),
    {
        self.slots.len()
    }

    /// How many libraries the loader has closed.
    pub fn closes(&self) -> (count: usize)
        ensures
            count == self@.closes,
    {
        self.closes
    }

    /// Whether the library under `handle` is open.
    pub fn is_live(&self, handle: usize) -> (live: bool)
        ensures
            live == self@.is_live(handle),
    {
        handle < self.slots.len() && self.slots[handle].is_some()
    }

    /// How many entry points of the open library under `handle` are held.
    pub fn outstanding(&self, handle: usize) -> (count: usize)
        requires
            self@.is_live(handle),
        ensures
            count == self@.outstanding(handle),
    {
        self.slots[handle].unwrap().outstanding
    }

    /// Whether `entry` is the address of an export of an open library.
    pub fn has_entry(&self, entry: RawEntryPoint) -> (valid: bool)
        requires
            self@.wf(),
        ensures
            valid == self@.has_entry(entry),
    {
        if !self.is_live(entry.library) {
            return false;
        }
        let mapping = self.slots[entry.library].unwrap();
        entry.slot < self.images[mapping.image].exports.len()
    }

    /// Everything the loader did, oldest first.
    pub fn events(&self) -> (trace: &Vec<Event>)
        ensures
            views(trace@) == self@.trace,
    {
        &self.trace
    }
}

/// A loader has closed as many libraries as it has opened exactly when none
/// is open.
pub proof fn lemma_balanced_when_nothing_held(loader: LoaderView)
    requires
        loader.wf(),
    ensures
        loader.opens() == loader.closes + loader.held(),
        loader.opens() == loader.closes <==> forall|handle: usize| !loader.is_live(handle),
{
    lemma_held_counts_live(loader.slots);
    if loader.held() == 0 {
        assert forall|handle: usize| !loader.is_live(handle) by {
            if handle < loader.slots.len() {
                assert(loader.slots[handle as int] is None);
            }
        }
    } else {
        let at = choose|at: int| 0 <= at < loader.slots.len() && loader.slots[at] is Some;
        assert(loader.is_live(at as usize));
    }
}

proof fn lemma_held_counts_live(slots: Seq<Option<Mapping>>)
    ensures
        held(slots) == 0 <==> forall|at: int| 0 <= at < slots.len() ==> slots[at] is None,
    decreases slots.len(),
{
    if slots.len() > 0 {
        lemma_held_counts_live(slots.drop_last());
        if held(slots) == 0 {
            assert forall|at: int| 0 <= at < slots.len() implies slots[at] is None by {
                if at < slots.len() - 1 {
                    assert(slots.drop_last()[at] is None);
                }
            }
        } else if slots.last() is None {
            let at = choose|at: int|
                0 <= at < slots.drop_last().len() && !(slots.drop_last()[at] is None);
            assert(slots[at] is Some);
        }
    }
}

/// Whatever a loader does with other libraries, it keeps an open library as
/// it has it: taking in an image, opening a library, handing out or taking
/// back an entry point of another library, and closing another library all
/// leave it alone. So does a call, into whichever library.
pub proof fn lemma_strangers_leave_a_library_alone(loader: LoaderView, handle: usize)
    requires
        loader.is_live(handle),
    ensures
        loader.keeps(handle, loader),
        forall|image: ImageView| loader.keeps(handle, #[trigger] loader.installed(image)),
        forall|image: int| loader.keeps(handle, #[trigger] loader.opened(image)),
        forall|entry: RawEntryPoint, args: Seq<u8>|
            loader.keeps(handle, #[trigger] loader.called(entry, args)),
        forall|entry: RawEntryPoint|
            entry.library != handle && loader.is_live(entry.library) ==> loader.keeps(
                handle,
                #[trigger] loader.resolved(entry),
            ),
        forall|entry: RawEntryPoint|
            entry.library != handle && loader.is_live(entry.library) ==> loader.keeps(
                handle,
                #[trigger] loader.invalidated(entry),
            ),
        forall|other: usize|
            other != handle && loader.is_live(other) ==> loader.keeps(
                handle,
                #[trigger] loader.closed(other),
            ),
{
}

/// What is kept from one state of a loader to the next, and from there to a
/// third, is kept from the first to the third.
pub proof fn lemma_keeps_is_transitive(
    first: LoaderView,
    second: LoaderView,
    third: LoaderView,
    handle: usize,
)
    requires
        first.keeps(handle, second),
        second.keeps(handle, third),
    ensures
        first.keeps(handle, third),
{
}

/// When a loader closes a library, every entry point of that library that it
/// ever handed out has been given up before.
pub proof fn lemma_given_up_before_closed(loader: LoaderView, at: int)
    requires
        loader.wf(),
        0 <= at < loader.trace.len(),
        loader.trace[at] is Closed,
    ensures
        pending(loader.trace.take(at), loader.trace[at].handle()) == 0,
{
    let handle = loader.trace[at].handle();
    assert forall|later: int| at <= later < loader.trace.len() implies (
    #[trigger] loader.trace[later]).weight(handle) == 0 by {
        if later > at {
            assert(loader.trace[later].handle() != loader.trace[at].handle());
        }
    }
    lemma_pending_of_a_prefix(loader.trace, handle, at);
}

/// Once a loader has closed a library, nothing it does later speaks of that
/// library: no entry point of it is handed out or given up, and none of its
/// routines is called.
pub proof fn lemma_nothing_follows_a_close(loader: LoaderView, at: int, later: int)
    requires
        loader.wf(),
        0 <= at < later < loader.trace.len(),
        loader.trace[at] is Closed,
    ensures
        loader.trace[later].handle() != loader.trace[at].handle(),
{
}

} // verus!
