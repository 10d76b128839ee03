//! A library and the functions bound from it, held as two values: the
//! [`BundleFactory`] owns the library, and each [`AuthService`] borrows it.
//!
//! Here the borrow is what keeps the functions from outliving the library:
//! the factory cannot be closed while a service made from it is about.

use vstd::prelude::*;
use crate::error::{LoadError, NulError, SymbolError};
use crate::loading::{BytesFn, Function, Library, NullaryFn};
use crate::first::{first_of, lemma_absent_has_no_first, lemma_first_at_is_first_of};
use crate::platform::{Loader, LoaderView, RawEntryPoint, Signature};

verus! {

/// Owns the library that services are made from.
#[derive(Debug)]
pub struct BundleFactory {
    library: Library,
}

/// The login and logout routines of a library, borrowed from a
/// [`BundleFactory`].
#[derive(Debug)]
pub struct AuthService<'a> {
    func_login: Function<&'a Library, BytesFn>,
    func_logout: Function<&'a Library, NullaryFn>,
}

/// An [`AuthService`] as a mathematical value.
pub struct AuthServiceView {
    /// What the login function is bound to.
    pub login: Option<RawEntryPoint>,
    /// What the logout function is bound to.
    pub logout: Option<RawEntryPoint>,
}

impl AuthServiceView {
    /// Both functions may be called: each export has the shape that the
    /// service takes it for. Nothing in this crate can find that out.
    pub open spec fn sound(self, loader: LoaderView) -> bool {
        &&& loader.admits(self.login, Signature::Bytes)
        &&& loader.admits(self.logout, Signature::Nullary)
    }

    /// Both functions are bound to exports of one library, which is open in
    /// `loader`, and `loader` counts at least their two entry points as held.
    pub open spec fn bound_in(self, loader: LoaderView) -> bool {
        &&& self.login matches Some(login)
        &&& self.logout matches Some(logout)
        &&& login.library == logout.library
        &&& loader.has_entry(login)
        &&& loader.has_entry(logout)
        &&& loader.outstanding(login.library) >= 2
    }
}

impl<'a> View for AuthService<'a> {
    type V = AuthServiceView;

    closed spec fn view(&self) -> AuthServiceView {
        AuthServiceView { login: self.func_login.target(), logout: self.func_logout.target() }
    }
}

/// Copies `token` and ends it with a zero byte, as a routine that reads up to
/// the first zero byte wants it. Fails where `token` itself holds a zero
/// byte, and says where the first one lies.
pub fn terminated(token: &[u8]) -> (outcome: Result<Vec<u8>, NulError>)
    ensures
        match outcome {
            Ok(bytes) => first_of(token@, 0u8) is None && bytes@ == token@.push(0u8),
            Err(error) => first_of(token@, 0u8) == Some(error.position as int),
        },
{
    let mut bytes: Vec<u8> = Vec::new();
    let mut at: usize = 0;
    while at < token.len()
        invariant
            at <= token.len(),
            bytes@ == token@.take(at as int),
            forall|before: int| 0 <= before < at ==> token@[before] != 0u8,
        decreases token.len() - at,
    {
        if token[at] == 0 {
            proof {
                lemma_first_at_is_first_of(token@, 0u8, at as int);
            }
            return Err(NulError { position: at });
        }
        bytes.push(token[at]);
        at += 1;
    }
    proof {
        lemma_absent_has_no_first(token@, 0u8);
    }
    bytes.push(0);
    Ok(bytes)
}

impl BundleFactory {
    /// The handle of the factory's library.
    pub closed spec fn handle(&self) -> Option<usize> {
        self.library.handle()
    }

    /// The factory's library is open in `loader`.
    pub open spec fn loaded_in(&self, loader: LoaderView) -> bool {
        self.handle() matches Some(handle) && loader.is_live(handle)
    }

    /// Opens the library `service.dll`.
    ///
    /// Fails as [`Library::open`] does, and then leaves the platform as it
    /// was.
    pub fn new(loader: &mut Loader) -> (outcome: Result<BundleFactory, LoadError>)
        requires
            old(loader)@.wf(),
        ensures
            final(loader)@.wf(),
            match outcome {
                Ok(factory) => {
                    &&& old(loader)@.locate("service.dll"@) matches Ok(image)
                    &&& factory.handle() == Some(old(loader)@.opens() as usize)
                    &&& final(loader)@ == old(loader)@.opened(image)
                    &&& factory.loaded_in(final(loader)@)
                },
                Err(refusal) => {
                    &&& old(loader)@.locate("service.dll"@) == Err::<int, LoadError>(refusal)
                    &&& final(loader)@ == old(loader)@
                },
            },
    {
        match Library::open(loader, "service.dll") {
            Ok(library) => Ok(BundleFactory { library }),
            Err(refusal) => Err(refusal),
        }
    }

    /// Binds the symbols `login` and `logout` of the factory's library.
    ///
    /// Fails with [`SymbolError::NotFound`] on the first of the two that the
    /// library does not export; what was bound before is given up again.
    pub fn get_auth_service<'a>(&'a self, loader: &mut Loader) -> (outcome: Result<
        AuthService<'a>,
        SymbolError,
    >)
        requires
            old(loader)@.wf(),
            self.loaded_in(old(loader)@),
            old(loader)@.outstanding(self.handle()->0) + 2 <= usize::MAX,
        ensures
            final(loader)@.wf(),
            match outcome {
                Ok(service) => {
                    &&& old(loader)@.lookup(self.handle()->0, "login"@) matches Some(login)
                    &&& old(loader)@.lookup(self.handle()->0, "logout"@) matches Some(logout)
                    &&& service@ == (AuthServiceView { login: Some(login), logout: Some(logout) })
                    &&& final(loader)@ == old(loader)@.resolved(login).resolved(logout)
                    &&& service@.bound_in(final(loader)@)
                    &&& service@.sound(final(loader)@) <==> {
                        &&& old(loader)@.export_at(login).signature == Signature::Bytes
                        &&& old(loader)@.export_at(logout).signature == Signature::Nullary
                    }
                },
                Err(missing) => match old(loader)@.lookup(self.handle()->0, "login"@) {
                    None => {
                        &&& missing.name() == "login"@
                        &&& final(loader)@ == old(loader)@
                    },
                    Some(login) => {
                        &&& old(loader)@.lookup(self.handle()->0, "logout"@) is None
                        &&& missing.name() == "logout"@
                        &&& final(loader)@ == old(loader)@.resolved(login).invalidated(login)
                    },
                },
            },
    {
        let func_login = match Function::from_ref(loader, &self.library, "login") {
            Ok(function) => function,
            Err(missing) => {
                return Err(missing);
            },
        };
        let func_logout = match Function::from_ref(loader, &self.library, "logout") {
            Ok(function) => function,
            Err(missing) => {
                func_login.release(loader);
                return Err(missing);
            },
        };
        Ok(AuthService { func_login, func_logout })
    }

    /// Closes the factory's library. Every service made from the factory
    /// must have been released before.
    pub fn release(self, loader: &mut Loader)
        requires
            old(loader)@.wf(),
            self.loaded_in(old(loader)@),
            old(loader)@.outstanding(self.handle()->0) == 0,
        ensures
            final(loader)@.wf(),
            final(loader)@ == old(loader)@.closed(self.handle()->0),
    {
        self.library.close(loader);
    }
}

impl<'a> AuthService<'a> {
    /// Hands `token` to the login routine, ended with a zero byte, and
    /// returns the routine's status.
    ///
    /// Fails where `token` holds a zero byte; the routine is then not
    /// called.
    pub fn login(&self, loader: &mut Loader, token: &[u8]) -> (outcome: Result<i32, NulError>)
        requires
            old(loader)@.wf(),
            old(loader)@.admits(self@.login, Signature::Bytes),
        ensures
            final(loader)@.wf(),
            match outcome {
                Ok(status) => {
                    &&& first_of(token@, 0u8) is None
                    &&& status == old(loader)@.answer(self@.login)
                    &&& final(loader)@ == old(loader)@.after_call(self@.login, token@.push(0u8))
                },
                Err(error) => {
                    &&& first_of(token@, 0u8) == Some(error.position as int)
                    &&& final(loader)@ == old(loader)@
                },
            },
    {
        match terminated(token) {
            Ok(bytes) => Ok(self.func_login.invoke(loader, bytes.as_slice())),
            Err(error) => Err(error),
        }
    }

    /// Calls the logout routine and returns its status.
    pub fn logout(&self, loader: &mut Loader) -> (status: i32)
        requires
            old(loader)@.wf(),
            old(loader)@.admits(self@.logout, Signature::Nullary),
        ensures
            status == old(loader)@.answer(self@.logout),
            final(loader)@ == old(loader)@.after_call(self@.logout, Seq::empty()),
            final(loader)@.wf(),
    {
        self.func_logout.invoke(loader)
    }

    /// Gives both functions up: first login, then logout.
    pub fn release(self, loader: &mut Loader)
        requires
            old(loader)@.wf(),
            self@.bound_in(old(loader)@),
        ensures
            final(loader)@.wf(),
            final(loader)@ == old(loader)@.invalidated(self@.login->0).invalidated(
                self@.logout->0,
            ),
    {
        let AuthService { func_login, func_logout } = self;
        func_login.release(loader);
        func_logout.release(loader);
    }
}

} // verus!
