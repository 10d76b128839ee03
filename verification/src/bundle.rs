//! A library and the functions bound from it, held as one value that can be
//! moved about freely.
//!
//! The functions of a [`Bundle`] refer to its library by the library's
//! handle, which stays what it is wherever the bundle goes. What keeps them
//! good is the order in which a bundle is put together and taken apart: the
//! library is opened before anything is bound, and closed only after every
//! binding has been given up.

use vstd::prelude::*;
use crate::error::BindError;
use crate::loading::{BytesFn, Function, Library, NullaryFn, RawLibrary};
use crate::platform::{
    lemma_strangers_leave_a_library_alone, EventView, Loader, LoaderView, RawEntryPoint, Signature,
};

verus! {

/// Where a bundle stands in its life.
#[derive(Clone, Copy, PartialEq, Eq, Structural, Debug)]
pub enum Phase {
    /// Nothing has been asked of the platform yet.
    Unopened,
    /// The platform has been asked to open the library.
    Loading,
    /// The library is open; some routine is still a placeholder.
    PartiallyBound,
    /// The library is open and every routine is bound to it.
    Ready,
    /// Construction was given up and whatever it held was handed back.
    Failed,
}

/// The names under which a library exports the routines of a bundle.
#[derive(Clone, Copy, Debug)]
pub struct SymbolTable<'a> {
    /// The routine that takes a token: a run of bytes in, a status out.
    pub login: &'a str,
    /// The routine that takes nothing and returns a status.
    pub logout: &'a str,
}

/// One library and the two functions bound from it.
#[derive(Debug)]
pub struct Bundle {
    library: Library,
    func_login: Function<RawLibrary, BytesFn>,
    func_logout: Function<RawLibrary, NullaryFn>,
}

/// A [`Bundle`] as a mathematical value.
pub struct BundleView {
    /// The handle of the library, once it has been opened.
    pub handle: Option<usize>,
    /// What the login function is bound to; nothing while it is a
    /// placeholder.
    pub login: Option<RawEntryPoint>,
    /// What the logout function is bound to; nothing while it is a
    /// placeholder.
    pub logout: Option<RawEntryPoint>,
}

impl BundleView {
    /// How many of the two functions are bound.
    pub open spec fn bound(self) -> nat {
        (if self.login is Some {
            1nat
        } else {
            0nat
        }) + (if self.logout is Some {
            1nat
        } else {
            0nat
        })
    }

    /// The bundle hangs together: its library is open in `loader`, each
    /// function is a placeholder or is bound to an export of that library,
    /// and `loader` counts as held just the entry points that the bundle
    /// holds.
    pub open spec fn attached(self, loader: LoaderView) -> bool {
        &&& self.handle matches Some(handle)
        &&& loader.is_live(handle)
        &&& self.login matches Some(entry) ==> entry.library == handle && loader.has_entry(entry)
        &&& self.logout matches Some(entry) ==> entry.library == handle && loader.has_entry(entry)
        &&& loader.outstanding(handle) == self.bound()
    }

    /// Where the bundle stands in its life, seen against `loader`.
    pub open spec fn phase(self, loader: LoaderView) -> Phase {
        match self.handle {
            None => Phase::Unopened,
            Some(handle) => if !loader.is_live(handle) {
                Phase::Failed
            } else if self.attached(loader) && self.bound() == 2 {
                Phase::Ready
            } else {
                Phase::PartiallyBound
            },
        }
    }

    /// The platform after the bundle has been taken apart: each function that
    /// is bound has been given up, login first, and then the library has been
    /// closed.
    pub open spec fn torn_down(self, loader: LoaderView) -> LoaderView {
        let loader = match self.login {
            Some(entry) => loader.invalidated(entry),
            None => loader,
        };
        let loader = match self.logout {
            Some(entry) => loader.invalidated(entry),
            None => loader,
        };
        loader.closed(self.handle->0)
    }

    /// Each export that the bundle is bound to has the shape that the bundle
    /// takes it for. Nothing in this crate can find that out: it is for
    /// whoever names the symbols to know.
    pub open spec fn sound(self, loader: LoaderView) -> bool {
        &&& loader.admits(self.login, Signature::Bytes)
        &&& loader.admits(self.logout, Signature::Nullary)
    }
}

impl View for Bundle {
    type V = BundleView;

    closed spec fn view(&self) -> BundleView {
        BundleView {
            handle: self.library.handle(),
            login: self.func_login.target(),
            logout: self.func_logout.target(),
        }
    }
}

impl Bundle {
    /// Hands back whatever the bundle holds: first each bound function, then
    /// the library.
    fn teardown(self, loader: &mut Loader)
        requires
            old(loader)@.wf(),
            self@.attached(old(loader)@),
        ensures
            final(loader)@.wf(),
            final(loader)@ == self@.torn_down(old(loader)@),
    {
        let Bundle { library, func_login, func_logout } = self;
        func_login.release(loader);
        func_logout.release(loader);
        library.close(loader);
    }

    /// Opens the library filed under `identifier` and binds the routines that
    /// `symbols` names.
    ///
    /// Construction goes from [`Phase::Unopened`] through [`Phase::Loading`]
    /// and [`Phase::PartiallyBound`] to [`Phase::Ready`]. Where the library
    /// cannot be opened, or lacks one of the symbols, it is given up: every
    /// binding made so far is handed back, then the library, and the error
    /// tells the first step that failed.
    pub fn open(loader: &mut Loader, identifier: &str, symbols: &SymbolTable) -> (outcome: Result<
        Bundle,
        BindError,
    >)
        requires
            old(loader)@.wf(),
        ensures
            final(loader)@.wf(),
            outcome is Ok <==> {
                &&& old(loader)@.locate(identifier@) matches Ok(image)
                &&& old(loader)@.images[image].slot_of(symbols.login@) is Some
                &&& old(loader)@.images[image].slot_of(symbols.logout@) is Some
            },
            match outcome {
                Ok(bundle) => {
                    let handle = old(loader)@.opens() as usize;
                    &&& old(loader)@.locate(identifier@) matches Ok(image)
                    &&& old(loader)@.images[image].entry_of(handle, symbols.login@) matches Some(
                        login,
                    )
                    &&& old(loader)@.images[image].entry_of(handle, symbols.logout@) matches Some(
                        logout,
                    )
                    &&& bundle@ == (BundleView {
                        handle: Some(handle),
                        login: Some(login),
                        logout: Some(logout),
                    })
                    &&& final(loader)@ == old(loader)@.opened(image).resolved(login).resolved(
                        logout,
                    )
                    &&& bundle@.phase(final(loader)@) == Phase::Ready
                    &&& bundle@.sound(final(loader)@) <==> {
                        &&& old(loader)@.images[image].exports[login.slot as int].signature
                            == Signature::Bytes
                        &&& old(loader)@.images[image].exports[logout.slot as int].signature
                            == Signature::Nullary
                    }
                },
                Err(BindError::Load(refusal)) => {
                    &&& old(loader)@.locate(identifier@) == Err::<int, _>(refusal)
                    &&& final(loader)@ == old(loader)@
                },
                Err(BindError::Symbol(missing)) => {
                    let handle = old(loader)@.opens() as usize;
                    &&& old(loader)@.locate(identifier@) matches Ok(image)
                    &&& match old(loader)@.images[image].entry_of(handle, symbols.login@) {
                        None => {
                            &&& missing.name() == symbols.login@
                            &&& final(loader)@ == old(loader)@.opened(image).closed(handle)
                        },
                        Some(login) => {
                            &&& old(loader)@.images[image].slot_of(symbols.logout@) is None
                            &&& missing.name() == symbols.logout@
                            &&& final(loader)@ == old(loader)@.opened(image).resolved(
                                login,
                            ).invalidated(login).closed(handle)
                        },
                    }
                },
            },
            outcome is Err ==> {
                &&& final(loader)@.held() == old(loader)@.held()
                &&& final(loader)@.opens() - final(loader)@.closes == old(loader)@.opens() - old(
                    loader,
                )@.closes
                &&& forall|handle: usize|
                    final(loader)@.is_live(handle) == old(loader)@.is_live(handle)
            },
    {
        let mut bundle = Bundle {
            library: Library::unopened(),
            func_login: Function::dummy(),
            func_logout: Function::dummy(),
        };
        assert(bundle@.phase(loader@) == Phase::Unopened);
        match Library::open(loader, identifier) {
            Ok(library) => {
                bundle.library = library;
            },
            Err(refusal) => {
                return Err(BindError::Load(refusal));
            },
        }
        assert(bundle@.phase(loader@) == Phase::PartiallyBound);
        let raw = bundle.library.as_raw();
        match Function::from_raw(loader, raw, symbols.login) {
            Ok(function) => {
                bundle.func_login = function;
            },
            Err(missing) => {
                let ghost given_up = bundle@;
                bundle.teardown(loader);
                assert(given_up.phase(loader@) == Phase::Failed);
                return Err(BindError::Symbol(missing));
            },
        }
        assert(bundle@.phase(loader@) == Phase::PartiallyBound);
        match Function::from_raw(loader, raw, symbols.logout) {
            Ok(function) => {
                bundle.func_logout = function;
            },
            Err(missing) => {
                let ghost given_up = bundle@;
                bundle.teardown(loader);
                assert(given_up.phase(loader@) == Phase::Failed);
                return Err(BindError::Symbol(missing));
            },
        }
        assert(bundle@.phase(loader@) == Phase::Ready);
        Ok(bundle)
    }

    /// Where the bundle stands in its life, seen against `loader`.
    pub fn phase(&self, loader: &Loader) -> (phase: Phase)
        requires
            loader@.wf(),
        ensures
            phase == self@.phase(loader@),
    {
        let handle = match self.library.as_raw().get() {
            Some(handle) => handle,
            None => {
                return Phase::Unopened;
            },
        };
        if !loader.is_live(handle) {
            return Phase::Failed;
        }
        let login = match self.func_login.entry() {
            Some(entry) => entry,
            None => {
                return Phase::PartiallyBound;
            },
        };
        let logout = match self.func_logout.entry() {
            Some(entry) => entry,
            None => {
                return Phase::PartiallyBound;
            },
        };
        if login.library == handle && logout.library == handle && loader.has_entry(login)
            && loader.has_entry(logout) && loader.outstanding(handle) == 2 {
            Phase::Ready
        } else {
            Phase::PartiallyBound
        }
    }

    /// Calls the login routine on `token` and returns its status. The bundle
    /// stays as it is.
    ///
    /// The bundle must be [`Phase::Ready`], and the export that it is bound to
    /// must be a routine that takes a run of bytes.
    pub fn login(&self, loader: &mut Loader, token: &[u8]) -> (status: i32)
        requires
            old(loader)@.wf(),
            self@.phase(old(loader)@) == Phase::Ready,
            old(loader)@.admits(self@.login, Signature::Bytes),
        ensures
            status == old(loader)@.export_at(self@.login->0).status,
            final(loader)@ == old(loader)@.called(self@.login->0, token@),
            final(loader)@.wf(),
            self@.phase(final(loader)@) == Phase::Ready,
    {
        self.func_login.invoke(loader, token)
    }

    /// Calls the logout routine and returns its status. The bundle stays as
    /// it is.
    ///
    /// The bundle must be [`Phase::Ready`], and the export that it is bound to
    /// must be a routine that takes nothing.
    pub fn logout(&self, loader: &mut Loader) -> (status: i32)
        requires
            old(loader)@.wf(),
            self@.phase(old(loader)@) == Phase::Ready,
            old(loader)@.admits(self@.logout, Signature::Nullary),
        ensures
            status == old(loader)@.export_at(self@.logout->0).status,
            final(loader)@ == old(loader)@.called(self@.logout->0, Seq::empty()),
            final(loader)@.wf(),
            self@.phase(final(loader)@) == Phase::Ready,
    {
        self.func_logout.invoke(loader)
    }

    /// Takes the bundle apart: the login function is given up, then the
    /// logout function, and only then is the library closed.
    pub fn release(self, loader: &mut Loader)
        requires
            old(loader)@.wf(),
            self@.phase(old(loader)@) == Phase::Ready,
        ensures
            final(loader)@.wf(),
            final(loader)@ == old(loader)@.invalidated(self@.login->0).invalidated(
                self@.logout->0,
            ).closed(self@.handle->0),
            final(loader)@.trace == old(loader)@.trace + seq![
                EventView::Invalidated(self@.login->0),
                EventView::Invalidated(self@.logout->0),
                EventView::Closed(self@.handle->0),
            ],
            !final(loader)@.is_live(self@.handle->0),
            final(loader)@.held() + 1 == old(loader)@.held(),
    {
        self.teardown(loader);
    }
}

/// A bundle that is ready holds no placeholder, and what its routines return
/// is what the exports return that it is bound to.
pub proof fn lemma_ready_holds_no_placeholder(bundle: BundleView, loader: LoaderView)
    requires
        bundle.phase(loader) == Phase::Ready,
    ensures
        bundle.login is Some,
        bundle.logout is Some,
        loader.answer(bundle.login) == loader.export_at(bundle.login->0).status,
        loader.answer(bundle.logout) == loader.export_at(bundle.logout->0).status,
{
}

/// A bundle that is ready may be called, provided its exports have the shapes
/// that it takes them for.
pub proof fn lemma_ready_is_callable(bundle: BundleView, loader: LoaderView)
    requires
        bundle.phase(loader) == Phase::Ready,
        loader.export_at(bundle.login->0).signature == Signature::Bytes,
        loader.export_at(bundle.logout->0).signature == Signature::Nullary,
    ensures
        bundle.sound(loader),
{
}

/// A bundle that is ready stays ready, and answers as before, for as long as
/// the platform keeps its library as it has it: nothing but taking the bundle
/// apart leads out of [`Phase::Ready`].
pub proof fn lemma_ready_while_kept(bundle: BundleView, before: LoaderView, after: LoaderView)
    requires
        before.wf(),
        bundle.phase(before) == Phase::Ready,
        before.keeps(bundle.handle->0, after),
    ensures
        bundle.phase(after) == Phase::Ready,
        bundle.sound(after) == bundle.sound(before),
        after.answer(bundle.login) == before.answer(bundle.login),
        after.answer(bundle.logout) == before.answer(bundle.logout),
{
    let handle = bundle.handle->0;
}

/// A bundle may be moved between calls. Where `there` is what `here` has
/// become by a move, and a routine has been called in the meantime, `there` is
/// ready as `here` was, and its routines answer as those of `here` did: what
/// they return hangs on the library's handle and the entry points alone, which
/// a move leaves as they are.
pub proof fn lemma_relocation_changes_nothing(
    here: Bundle,
    there: Bundle,
    before: LoaderView,
    called: RawEntryPoint,
    args: Seq<u8>,
)
    requires
        here@ == there@,
        before.wf(),
        here@.phase(before) == Phase::Ready,
    ensures
        there@.phase(before.called(called, args)) == Phase::Ready,
        there@.sound(before.called(called, args)) == here@.sound(before),
        before.called(called, args).answer(there@.login) == before.answer(here@.login),
        before.called(called, args).answer(there@.logout) == before.answer(here@.logout),
{
    lemma_strangers_leave_a_library_alone(before, here@.handle->0);
    lemma_ready_while_kept(here@, before, before.called(called, args));
}

} // verus!
