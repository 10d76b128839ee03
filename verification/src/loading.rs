//! Loaded libraries and the functions bound from them.

use vstd::prelude::*;
use std::marker::PhantomData;
use crate::error::{LoadError, SymbolError};
use crate::platform::{Loader, LoaderView, RawEntryPoint, Signature};

verus! {

/// A loaded library. Whoever holds the value holds the library: nothing else
/// can close it.
#[derive(Debug)]
pub struct Library {
    handle: Option<usize>,
}

/// The bare handle of a library, with no claim on it. It may be copied and
/// kept at will; what is bound through it is only good while the library is
/// open.
#[derive(Clone, Copy, Debug)]
pub struct RawLibrary {
    handle: Option<usize>,
}

impl RawLibrary {
    /// The handle that the platform gave, if the library was ever opened.
    pub closed spec fn handle(&self) -> Option<usize> {
        self.handle
    }

    /// The handle that the platform gave, if the library was ever opened.
    pub fn get(&self) -> (handle: Option<usize>)
        ensures
            handle == self.handle(),
    {
        self.handle
    }
}

impl Library {
    /// The handle that the platform gave, if the library was ever opened.
    pub closed spec fn handle(&self) -> Option<usize> {
        self.handle
    }

    /// The library is open in `loader`.
    pub open spec fn loaded_in(&self, loader: LoaderView) -> bool {
        self.handle() matches Some(handle) && loader.is_live(handle)
    }

    /// A stand-in that holds no library. Closing it does nothing.
    pub fn unopened() -> (library: Library)
        ensures
            library.handle() is None,
    {
        Library { handle: None }
    }

    /// Loads the library filed under `identifier`.
    ///
    /// Fails with [`LoadError::NotFound`] where the platform knows no such
    /// library and with [`LoadError::LoadFailed`] where it refuses to load
    /// the one it knows; the platform is then left as it was.
    pub fn open(loader: &mut Loader, identifier: &str) -> (outcome: Result<Library, LoadError>)
        requires
            old(loader)@.wf(),
        ensures
            final(loader)@.wf(),
            match outcome {
                Ok(library) => {
                    &&& old(loader)@.locate(identifier@) matches Ok(image)
                    &&& library.handle() == Some(old(loader)@.opens() as usize)
                    &&& final(loader)@ == old(loader)@.opened(image)
                },
                Err(refusal) => {
                    &&& old(loader)@.locate(identifier@) == Err::<int, LoadError>(refusal)
                    &&& final(loader)@ == old(loader)@
                },
            },
    {
        match loader.open(identifier) {
            Ok(handle) => Ok(Library { handle: Some(handle) }),
            Err(refusal) => Err(refusal),
        }
    }

    /// Looks up the symbol `name` and returns its address, untyped. The
    /// platform counts the address as held until it is given up.
    ///
    /// Fails with [`SymbolError::NotFound`] where the library exports nothing
    /// under `name`; the platform is then left as it was.
    pub fn resolve(&self, loader: &mut Loader, name: &str) -> (outcome: Result<
        RawEntryPoint,
        SymbolError,
    >)
        requires
            old(loader)@.wf(),
            self.loaded_in(old(loader)@),
            old(loader)@.outstanding(self.handle()->0) < usize::MAX,
        ensures
            final(loader)@.wf(),
            match outcome {
                Ok(entry) => {
                    &&& old(loader)@.lookup(self.handle()->0, name@) == Some(entry)
                    &&& old(loader)@.has_entry(entry)
                    &&& final(loader)@ == old(loader)@.resolved(entry)
                },
                Err(missing) => {
                    &&& missing.name() == name@
                    &&& old(loader)@.lookup(self.handle()->0, name@) is None
                    &&& final(loader)@ == old(loader)@
                },
            },
    {
        loader.resolve(self.handle.unwrap(), name)
    }

    /// The bare handle of this library.
    pub fn as_raw(&self) -> (raw: RawLibrary)
        ensures
            raw.handle() == self.handle(),
    {
        RawLibrary { handle: self.handle }
    }

    /// Gives the library back to the platform. Every entry point taken from
    /// it must have been given up before. Does nothing for a stand-in.
    pub fn close(self, loader: &mut Loader)
        requires
            old(loader)@.wf(),
            self.handle() matches Some(handle) ==> old(loader)@.is_live(handle) && old(
                loader,
            )@.outstanding(handle) == 0,
        ensures
            final(loader)@.wf(),
            final(loader)@ == match self.handle() {
                Some(handle) => old(loader)@.closed(handle),
                None => old(loader)@,
            },
    {
        match self.handle {
            Some(handle) => loader.close(handle),
            None => {},
        }
    }
}

/// A type of native routine. Each has its dummy: a routine that reaches into
/// no library and answers with the default of its return type.
pub trait Dummy: Sized {
    /// The shape that routines of this type are called with.
    spec fn signature() -> Signature;

    /// The entry point that the routine forwards to; none for the dummy.
    spec fn target(&self) -> Option<RawEntryPoint>;

    /// The routine that does nothing.
    fn dummy() -> (routine: Self)
        ensures
            routine.target() is None,
    ;

    /// Takes what lies at `entry` for a routine of this type. Nothing checks
    /// that it is one.
    fn from_entry(entry: RawEntryPoint) -> (routine: Self)
        ensures
            routine.target() == Some(entry),
    ;
}

/// A native routine that takes nothing and returns a status.
#[derive(Clone, Copy, Debug)]
pub struct NullaryFn {
    target: Option<RawEntryPoint>,
}

impl Dummy for NullaryFn {
    open spec fn signature() -> Signature {
        Signature::Nullary
    }

    closed spec fn target(&self) -> Option<RawEntryPoint> {
        self.target
    }

    fn dummy() -> (routine: Self) {
        NullaryFn { target: None }
    }

    fn from_entry(entry: RawEntryPoint) -> (routine: Self) {
        NullaryFn { target: Some(entry) }
    }
}

impl NullaryFn {
    /// Calls the routine. The dummy returns zero and leaves the platform
    /// alone.
    ///
    /// Unless it is the dummy, the library that it reaches into must be open
    /// and must export a routine of this shape at its entry point.
    pub fn call(&self, loader: &mut Loader) -> (status: i32)
        requires
            old(loader)@.wf(),
            old(loader)@.admits(self.target(), Signature::Nullary),
        ensures
            status == old(loader)@.answer(self.target()),
            final(loader)@ == old(loader)@.after_call(self.target(), Seq::empty()),
            final(loader)@.wf(),
    {
        match self.target {
            Some(entry) => loader.call_nullary(entry),
            None => 0,
        }
    }
}

/// A native routine that takes a run of bytes and returns a status.
#[derive(Clone, Copy, Debug)]
pub struct BytesFn {
    target: Option<RawEntryPoint>,
}

impl Dummy for BytesFn {
    open spec fn signature() -> Signature {
        Signature::Bytes
    }

    closed spec fn target(&self) -> Option<RawEntryPoint> {
        self.target
    }

    fn dummy() -> (routine: Self) {
        BytesFn { target: None }
    }

    fn from_entry(entry: RawEntryPoint) -> (routine: Self) {
        BytesFn { target: Some(entry) }
    }
}

impl BytesFn {
    /// Calls the routine on `args`. The dummy returns zero and leaves the
    /// platform alone.
    ///
    /// Unless it is the dummy, the library that it reaches into must be open
    /// and must export a routine of this shape at its entry point.
    pub fn call(&self, loader: &mut Loader, args: &[u8]) -> (status: i32)
        requires
            old(loader)@.wf(),
            old(loader)@.admits(self.target(), Signature::Bytes),
        ensures
            status == old(loader)@.answer(self.target()),
            final(loader)@ == old(loader)@.after_call(self.target(), args@),
            final(loader)@.wf(),
    {
        match self.target {
            Some(entry) => loader.call_bytes(entry, args),
            None => 0,
        }
    }
}

/// A function bound from a library: `L` says how it refers to the library,
/// `F` what type of routine it is taken for.
#[derive(Debug)]
pub struct Function<L, F> {
    target: Option<RawEntryPoint>,
    _library: PhantomData<L>,
    _marker: PhantomData<F>,
}

impl<L, F> Function<L, F> {
    /// The entry point that the function is bound to; none for a
    /// placeholder.
    pub closed spec fn target(&self) -> Option<RawEntryPoint> {
        self.target
    }

    /// The function is bound to an export of a library that is open in
    /// `loader`, and `loader` counts its entry point as held.
    pub open spec fn bound_in(&self, loader: LoaderView) -> bool {
        &&& self.target() matches Some(entry)
        &&& loader.has_entry(entry)
        &&& loader.outstanding(entry.library) >= 1
    }

    /// The function is a placeholder.
    pub fn is_dummy(&self) -> (placeholder: bool)
        ensures
            placeholder == (self.target() is None),
    {
        self.target.is_none()
    }

    /// The entry point that the function is bound to; none for a
    /// placeholder.
    pub fn entry(&self) -> (entry: Option<RawEntryPoint>)
        ensures
            entry == self.target(),
    {
        self.target
    }

    /// Gives the function up. The platform is told, unless the function is a
    /// placeholder.
    pub fn release(self, loader: &mut Loader)
        requires
            old(loader)@.wf(),
            self.target() matches Some(entry) ==> old(loader)@.is_live(entry.library) && old(
                loader,
            )@.outstanding(entry.library) >= 1,
        ensures
            final(loader)@.wf(),
            final(loader)@ == match self.target() {
                Some(entry) => old(loader)@.invalidated(entry),
                None => old(loader)@,
            },
    {
        match self.target {
            Some(entry) => loader.invalidate(entry),
            None => {},
        }
    }
}

impl<L, F: Dummy> Function<L, F> {
    /// The function may be called: it is a placeholder, or its library is
    /// open in `loader` and exports a routine of type `F` at the entry point.
    /// Of the last, nothing in this crate can make sure: it is for whoever
    /// binds the function to know.
    pub open spec fn callable_in(&self, loader: LoaderView) -> bool {
        loader.admits(self.target(), F::signature())
    }

    /// A placeholder: a function bound to nothing. Calling it returns the
    /// default of the return type and touches no library.
    pub fn dummy() -> (function: Self)
        ensures
            function.target() is None,
    {
        Function { target: None, _library: PhantomData, _marker: PhantomData }
    }

    /// The function as a bare routine of its type.
    pub fn get_raw_fn(&self) -> (routine: F)
        ensures
            routine.target() == self.target(),
    {
        match self.target {
            Some(entry) => F::from_entry(entry),
            None => F::dummy(),
        }
    }
}

impl<'a, F: Dummy> Function<&'a Library, F> {
    /// Binds the symbol `name` of `library`, taking it for a routine of type
    /// `F`. The function borrows the library, so the library cannot be
    /// closed before the function is gone.
    ///
    /// Fails with [`SymbolError::NotFound`] where the library exports nothing
    /// under `name`; the platform is then left as it was. That the export is
    /// a routine of type `F` is the caller's claim: nothing here can check
    /// it.
    pub fn from_ref(loader: &mut Loader, library: &'a Library, name: &str) -> (outcome: Result<
        Self,
        SymbolError,
    >)
        requires
            old(loader)@.wf(),
            library.loaded_in(old(loader)@),
            old(loader)@.outstanding(library.handle()->0) < usize::MAX,
        ensures
            final(loader)@.wf(),
            match outcome {
                Ok(function) => {
                    &&& function.target() matches Some(entry)
                    &&& old(loader)@.lookup(library.handle()->0, name@) == Some(entry)
                    &&& final(loader)@ == old(loader)@.resolved(entry)
                    &&& function.bound_in(final(loader)@)
                },
                Err(missing) => {
                    &&& missing.name() == name@
                    &&& old(loader)@.lookup(library.handle()->0, name@) is None
                    &&& final(loader)@ == old(loader)@
                },
            },
    {
        match library.resolve(loader, name) {
            Ok(entry) => Ok(
                Function { target: Some(entry), _library: PhantomData, _marker: PhantomData },
            ),
            Err(missing) => Err(missing),
        }
    }
}

impl<F: Dummy> Function<RawLibrary, F> {
    /// Binds the symbol `name` of the library behind `library`, taking it for
    /// a routine of type `F`. Nothing ties the function to the library: it is
    /// for the caller to keep the library open for as long as the function is
    /// called.
    ///
    /// Fails with [`SymbolError::NotFound`] where the library exports nothing
    /// under `name`; the platform is then left as it was. That the export is
    /// a routine of type `F` is the caller's claim: nothing here can check
    /// it.
    pub fn from_raw(loader: &mut Loader, library: RawLibrary, name: &str) -> (outcome: Result<
        Self,
        SymbolError,
    >)
        requires
            old(loader)@.wf(),
            library.handle() matches Some(handle) && old(loader)@.is_live(handle),
            old(loader)@.outstanding(library.handle()->0) < usize::MAX,
        ensures
            final(loader)@.wf(),
            match outcome {
                Ok(function) => {
                    &&& function.target() matches Some(entry)
                    &&& old(loader)@.lookup(library.handle()->0, name@) == Some(entry)
                    &&& final(loader)@ == old(loader)@.resolved(entry)
                    &&& function.bound_in(final(loader)@)
                },
                Err(missing) => {
                    &&& missing.name() == name@
                    &&& old(loader)@.lookup(library.handle()->0, name@) is None
                    &&& final(loader)@ == old(loader)@
                },
            },
    {
        match loader.resolve(library.handle.unwrap(), name) {
            Ok(entry) => Ok(
                Function { target: Some(entry), _library: PhantomData, _marker: PhantomData },
            ),
            Err(missing) => Err(missing),
        }
    }
}

impl<L> Function<L, NullaryFn> {
    /// Calls the function. A placeholder returns zero and leaves the
    /// platform alone.
    ///
    /// Unless the function is a placeholder, its library must be open and
    /// must export a routine of this shape at the entry point.
    pub fn invoke(&self, loader: &mut Loader) -> (status: i32)
        requires
            old(loader)@.wf(),
            self.callable_in(old(loader)@),
        ensures
            status == old(loader)@.answer(self.target()),
            final(loader)@ == old(loader)@.after_call(self.target(), Seq::empty()),
            final(loader)@.wf(),
    {
        self.get_raw_fn().call(loader)
    }
}

impl<L> Function<L, BytesFn> {
    /// Calls the function on `args`. A placeholder returns zero and leaves
    /// the platform alone.
    ///
    /// Unless the function is a placeholder, its library must be open and
    /// must export a routine of this shape at the entry point.
    pub fn invoke(&self, loader: &mut Loader, args: &[u8]) -> (status: i32)
        requires
            old(loader)@.wf(),
            self.callable_in(old(loader)@),
        ensures
            status == old(loader)@.answer(self.target()),
            final(loader)@ == old(loader)@.after_call(self.target(), args@),
            final(loader)@.wf(),
    {
        self.get_raw_fn().call(loader, args)
    }
}

} // verus!
