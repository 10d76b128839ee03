use self_ref_in_rust::bundle::{Bundle, Phase, SymbolTable};
use self_ref_in_rust::error::{BindError, LoadError, SymbolError};
use self_ref_in_rust::platform::{Event, Export, Image, Loader, RawEntryPoint, Signature};

fn stub(identifier: &str, login: i32, logout: i32) -> Image {
    Image::new(
        identifier,
        true,
        vec![
            Export::new("login", Signature::Bytes, login),
            Export::new("logout", Signature::Nullary, logout),
        ],
    )
}

fn names() -> SymbolTable<'static> {
    SymbolTable { login: "login", logout: "logout" }
}

fn build(loader: &mut Loader) -> Bundle {
    Bundle::open(loader, "stub.lib", &names()).unwrap()
}

#[test]
fn open_takes_the_first_image_of_a_name() {
    let mut loader = Loader::new();
    loader.install(stub("twice.lib", 1, 2));
    loader.install(stub("twice.lib", 3, 4));
    let bundle = Bundle::open(&mut loader, "twice.lib", &names()).unwrap();
    assert_eq!(bundle.login(&mut loader, b"x"), 1);
    assert_eq!(bundle.logout(&mut loader), 2);
}

#[test]
fn bundle_opens_and_calls() {
    let mut loader = Loader::new();
    loader.install(stub("stub.lib", 0, 0));
    let bundle = Bundle::open(&mut loader, "stub.lib", &names()).unwrap();
    assert_eq!(bundle.phase(&loader), Phase::Ready);
    assert_eq!(bundle.login(&mut loader, b"token"), 0);
    assert_eq!(bundle.logout(&mut loader), 0);
    assert_eq!(loader.opens(), 1);
    assert_eq!(loader.closes(), 0);
    assert_eq!(loader.outstanding(0), 2);
}

#[test]
fn bundle_open_fails_as_a_whole_on_a_missing_symbol() {
    let mut loader = Loader::new();
    loader.install(Image::new(
        "stub.lib",
        true,
        vec![Export::new("login", Signature::Bytes, 0)],
    ));
    let outcome = Bundle::open(&mut loader, "stub.lib", &names());
    assert_eq!(
        outcome.err(),
        Some(BindError::Symbol(SymbolError::NotFound("logout".to_string())))
    );
    assert_eq!(loader.opens(), 1);
    assert_eq!(loader.closes(), 1);
    assert_eq!(loader.opens(), loader.closes());
    assert!(!loader.is_live(0));
    let login = RawEntryPoint { library: 0, slot: 0 };
    assert_eq!(
        loader.events(),
        &vec![
            Event::Opened(0),
            Event::Resolved(login),
            Event::Invalidated(login),
            Event::Closed(0),
        ]
    );
}

#[test]
fn bundle_open_names_the_first_missing_symbol() {
    let mut loader = Loader::new();
    loader.install(Image::new("empty.lib", true, vec![]));
    let outcome = Bundle::open(&mut loader, "empty.lib", &names());
    let error = outcome.err().unwrap();
    assert_eq!(error, BindError::Symbol(SymbolError::NotFound("login".to_string())));
    assert_eq!(error.phase(), Phase::PartiallyBound);
    assert_eq!(loader.opens(), loader.closes());
    assert_eq!(loader.events(), &vec![Event::Opened(0), Event::Closed(0)]);
}

#[test]
fn bundle_open_reports_a_library_that_is_not_there() {
    let mut loader = Loader::new();
    let error = Bundle::open(&mut loader, "stub.lib", &names()).err().unwrap();
    assert_eq!(error, BindError::Load(LoadError::NotFound));
    assert_eq!(error.phase(), Phase::Loading);
    assert_eq!(loader.opens(), 0);
    assert_eq!(loader.closes(), 0);
    assert!(loader.events().is_empty());
}

#[test]
fn bundle_open_reports_a_library_that_will_not_load() {
    let mut loader = Loader::new();
    loader.install(Image::new("stub.lib", false, vec![]));
    let error = Bundle::open(&mut loader, "stub.lib", &names()).err().unwrap();
    assert_eq!(error, BindError::Load(LoadError::LoadFailed));
    assert_eq!(loader.opens(), loader.closes());
}

#[test]
fn failed_open_leaves_other_libraries_alone() {
    let mut loader = Loader::new();
    loader.install(stub("good.lib", 1, 2));
    loader.install(Image::new("bad.lib", true, vec![]));
    let good = Bundle::open(&mut loader, "good.lib", &names()).unwrap();
    assert!(Bundle::open(&mut loader, "bad.lib", &names()).is_err());
    assert_eq!(loader.opens() - loader.closes(), 1);
    assert_eq!(good.phase(&loader), Phase::Ready);
    assert_eq!(good.login(&mut loader, b"token"), 1);
    assert_eq!(good.logout(&mut loader), 2);
}

#[test]
fn bundle_survives_being_moved() {
    let mut loader = Loader::new();
    loader.install(stub("stub.lib", 17, 23));
    let bundle = build(&mut loader);
    let login = bundle.login(&mut loader, b"token");
    let logout = bundle.logout(&mut loader);
    assert_eq!((login, logout), (17, 23));

    let moved = bundle;
    assert_eq!(moved.login(&mut loader, b"token"), login);
    let mut shelf = vec![moved];
    let boxed = Box::new(shelf.pop().unwrap());
    assert_eq!(boxed.phase(&loader), Phase::Ready);
    assert_eq!(boxed.login(&mut loader, b"token"), login);
    assert_eq!(boxed.logout(&mut loader), logout);
    let shared = std::rc::Rc::new(*boxed);
    let copy = std::rc::Rc::clone(&shared);
    assert_eq!(copy.login(&mut loader, b"token"), login);
    assert_eq!(shared.logout(&mut loader), logout);
    drop(copy);
    let back = std::rc::Rc::try_unwrap(shared).unwrap();
    assert_eq!(back.phase(&loader), Phase::Ready);
    back.release(&mut loader);
    assert_eq!(loader.opens(), loader.closes());
}

#[test]
fn bundle_release_gives_up_functions_before_the_library() {
    let mut loader = Loader::new();
    loader.install(stub("stub.lib", 0, 0));
    let bundle = Bundle::open(&mut loader, "stub.lib", &names()).unwrap();
    bundle.release(&mut loader);
    let login = RawEntryPoint { library: 0, slot: 0 };
    let logout = RawEntryPoint { library: 0, slot: 1 };
    assert_eq!(
        loader.events(),
        &vec![
            Event::Opened(0),
            Event::Resolved(login),
            Event::Resolved(logout),
            Event::Invalidated(login),
            Event::Invalidated(logout),
            Event::Closed(0),
        ]
    );
    let events = loader.events();
    let closed = events.iter().position(|event| *event == Event::Closed(0)).unwrap();
    for (at, event) in events.iter().enumerate() {
        if let Event::Invalidated(_) = event {
            assert!(at < closed);
        }
    }
    assert!(!loader.is_live(0));
    assert_eq!(loader.closes(), 1);
}

#[test]
fn ready_bundle_never_answers_as_a_placeholder() {
    let mut loader = Loader::new();
    loader.install(stub("stub.lib", -7, 9));
    let bundle = Bundle::open(&mut loader, "stub.lib", &names()).unwrap();
    assert_eq!(bundle.phase(&loader), Phase::Ready);
    assert_eq!(bundle.login(&mut loader, b"token"), -7);
    assert_ne!(bundle.login(&mut loader, b"token"), 0);
    assert_eq!(bundle.logout(&mut loader), 9);
    assert_ne!(bundle.logout(&mut loader), 0);
}

#[test]
fn bundle_binds_under_other_names() {
    let mut loader = Loader::new();
    loader.install(Image::new(
        "odd.lib",
        true,
        vec![
            Export::new("sign_out", Signature::Nullary, 2),
            Export::new("sign_in", Signature::Bytes, 1),
        ],
    ));
    let table = SymbolTable { login: "sign_in", logout: "sign_out" };
    let bundle = Bundle::open(&mut loader, "odd.lib", &table).unwrap();
    assert_eq!(bundle.login(&mut loader, b"token"), 1);
    assert_eq!(bundle.logout(&mut loader), 2);
}

#[test]
fn ready_bundle_outlasts_what_happens_to_other_libraries() {
    let mut loader = Loader::new();
    loader.install(stub("mine.lib", 31, 32));
    let bundle = Bundle::open(&mut loader, "mine.lib", &names()).unwrap();

    loader.install(stub("other.lib", 41, 42));
    let other = Bundle::open(&mut loader, "other.lib", &names()).unwrap();
    let third = loader.open("other.lib").unwrap();
    let entry = loader.resolve(third, "login").unwrap();
    assert_eq!(bundle.phase(&loader), Phase::Ready);
    assert_eq!(bundle.login(&mut loader, b"token"), 31);

    loader.invalidate(entry);
    loader.close(third);
    other.release(&mut loader);
    assert_eq!(bundle.phase(&loader), Phase::Ready);
    assert_eq!(bundle.login(&mut loader, b"token"), 31);
    assert_eq!(bundle.logout(&mut loader), 32);
    assert_eq!(loader.opens() - loader.closes(), 1);

    bundle.release(&mut loader);
    assert_eq!(loader.opens(), 3);
    assert_eq!(loader.closes(), 3);
}

#[test]
fn every_close_comes_after_what_was_handed_out_is_given_up() {
    let mut loader = Loader::new();
    loader.install(stub("a.lib", 0, 0));
    loader.install(stub("b.lib", 0, 0));
    let a = Bundle::open(&mut loader, "a.lib", &names()).unwrap();
    let b = Bundle::open(&mut loader, "b.lib", &names()).unwrap();
    assert!(Bundle::open(&mut loader, "a.lib", &SymbolTable { login: "login", logout: "quit" })
        .is_err());
    assert_eq!(a.login(&mut loader, b"token"), 0);
    assert_eq!(b.logout(&mut loader), 0);
    a.release(&mut loader);
    b.release(&mut loader);

    let events = loader.events();
    for (at, event) in events.iter().enumerate() {
        if let Event::Closed(handle) = event {
            let mut pending = 0i64;
            for earlier in &events[..at] {
                match earlier {
                    Event::Resolved(entry) if entry.library == *handle => pending += 1,
                    Event::Invalidated(entry) if entry.library == *handle => pending -= 1,
                    _ => {}
                }
            }
            assert_eq!(pending, 0);
            for later in &events[at + 1..] {
                let spoken_of = match later {
                    Event::Opened(handle) | Event::Closed(handle) => *handle,
                    Event::Resolved(entry) | Event::Invalidated(entry) => entry.library,
                    Event::Called(entry, _) => entry.library,
                };
                assert_ne!(spoken_of, *handle);
            }
        }
    }
    assert_eq!(loader.opens(), 3);
    assert_eq!(loader.closes(), 3);
}

#[test]
fn bundle_hands_the_token_to_the_routine() {
    let mut loader = Loader::new();
    loader.install(stub("stub.lib", 0, 0));
    let bundle = Bundle::open(&mut loader, "stub.lib", &names()).unwrap();
    bundle.login(&mut loader, b"token");
    bundle.logout(&mut loader);
    let login = RawEntryPoint { library: 0, slot: 0 };
    let logout = RawEntryPoint { library: 0, slot: 1 };
    assert_eq!(
        loader.events()[3..],
        [Event::Called(login, b"token".to_vec()), Event::Called(logout, vec![])]
    );
}
