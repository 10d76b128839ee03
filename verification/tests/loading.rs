use self_ref_in_rust::error::{LoadError, SymbolError};
use self_ref_in_rust::loading::{BytesFn, Dummy, Function, Library, NullaryFn, RawLibrary};
use self_ref_in_rust::platform::{Event, Export, Image, Loader, RawEntryPoint, Signature};

fn stub(identifier: &str, login: i32, logout: i32) -> Image {
    Image::new(
        identifier,
        true,
        vec![
            Export::new("login", Signature::Bytes, login),
            Export::new("logout", Signature::Nullary, logout),
        ],
    )
}

#[test]
fn library_open_and_close() {
    let mut loader = Loader::new();
    loader.install(stub("a.lib", 0, 0));
    let library = Library::open(&mut loader, "a.lib").ok().unwrap();
    assert_eq!(library.as_raw().get(), Some(0));
    let entry = library.resolve(&mut loader, "logout").unwrap();
    assert_eq!(entry, RawEntryPoint { library: 0, slot: 1 });
    assert!(loader.has_entry(entry));
    loader.invalidate(entry);
    library.close(&mut loader);
    assert_eq!(loader.opens(), 1);
    assert_eq!(loader.closes(), 1);
    assert!(!loader.has_entry(entry));
}

#[test]
fn library_open_reports_the_refusal() {
    let mut loader = Loader::new();
    loader.install(Image::new("locked.lib", false, vec![]));
    assert_eq!(Library::open(&mut loader, "nowhere.lib").err(), Some(LoadError::NotFound));
    assert_eq!(Library::open(&mut loader, "locked.lib").err(), Some(LoadError::LoadFailed));
}

#[test]
fn closing_a_stand_in_does_nothing() {
    let mut loader = Loader::new();
    loader.install(stub("a.lib", 0, 0));
    let held = loader.open("a.lib").unwrap();
    let library = Library::unopened();
    assert_eq!(library.as_raw().get(), None);
    library.close(&mut loader);
    assert!(loader.is_live(held));
    assert_eq!(loader.closes(), 0);
    assert_eq!(loader.events(), &vec![Event::Opened(0)]);
}

#[test]
fn placeholder_returns_the_default() {
    let mut loader = Loader::new();
    let login: Function<RawLibrary, BytesFn> = Function::dummy();
    let logout: Function<RawLibrary, NullaryFn> = Function::dummy();
    assert!(login.is_dummy());
    assert!(logout.is_dummy());
    assert_eq!(login.entry(), None);
    assert_eq!(login.invoke(&mut loader, b"anything"), 0);
    assert_eq!(logout.invoke(&mut loader), 0);
    assert_eq!(BytesFn::dummy().call(&mut loader, b""), 0);
    assert_eq!(NullaryFn::dummy().call(&mut loader), 0);
    assert!(loader.events().is_empty());
}

#[test]
fn releasing_a_placeholder_tells_nobody() {
    let mut loader = Loader::new();
    let logout: Function<RawLibrary, NullaryFn> = Function::dummy();
    logout.release(&mut loader);
    assert!(loader.events().is_empty());
}

#[test]
fn function_from_ref_binds_and_calls() {
    let mut loader = Loader::new();
    loader.install(stub("a.lib", 11, 22));
    let library = Library::open(&mut loader, "a.lib").ok().unwrap();
    let login: Function<&Library, BytesFn> =
        Function::from_ref(&mut loader, &library, "login").ok().unwrap();
    let logout: Function<&Library, NullaryFn> =
        Function::from_ref(&mut loader, &library, "logout").ok().unwrap();
    assert!(!login.is_dummy());
    assert_eq!(login.entry(), Some(RawEntryPoint { library: 0, slot: 0 }));
    assert_eq!(logout.entry(), Some(RawEntryPoint { library: 0, slot: 1 }));
    assert_eq!(login.invoke(&mut loader, b"token"), 11);
    assert_eq!(logout.invoke(&mut loader), 22);
    assert_eq!(login.get_raw_fn().call(&mut loader, b"token"), 11);
    assert_eq!(logout.get_raw_fn().call(&mut loader), 22);
    assert_eq!(loader.outstanding(0), 2);
    login.release(&mut loader);
    logout.release(&mut loader);
    assert_eq!(loader.outstanding(0), 0);
    library.close(&mut loader);
    assert_eq!(loader.closes(), 1);
}

#[test]
fn function_from_ref_reports_the_missing_name() {
    let mut loader = Loader::new();
    loader.install(stub("a.lib", 0, 0));
    let library = Library::open(&mut loader, "a.lib").ok().unwrap();
    let missing = Function::<&Library, NullaryFn>::from_ref(&mut loader, &library, "signup").err();
    assert_eq!(missing, Some(SymbolError::NotFound("signup".to_string())));
    assert_eq!(loader.outstanding(0), 0);
    assert_eq!(loader.events(), &vec![Event::Opened(0)]);
}

#[test]
fn function_from_raw_binds_and_calls() {
    let mut loader = Loader::new();
    loader.install(stub("a.lib", 5, 6));
    let library = Library::open(&mut loader, "a.lib").ok().unwrap();
    let logout: Function<RawLibrary, NullaryFn> =
        Function::from_raw(&mut loader, library.as_raw(), "logout").ok().unwrap();
    assert_eq!(logout.invoke(&mut loader), 6);
    let missing =
        Function::<RawLibrary, BytesFn>::from_raw(&mut loader, library.as_raw(), "nothing").err();
    assert_eq!(missing, Some(SymbolError::NotFound("nothing".to_string())));
    logout.release(&mut loader);
    library.close(&mut loader);
    assert_eq!(loader.opens(), loader.closes());
}

#[test]
fn bound_function_reports_where_it_points() {
    let mut loader = Loader::new();
    loader.install(stub("a.lib", 8, 9));
    let library = Library::open(&mut loader, "a.lib").ok().unwrap();
    let entry = library.resolve(&mut loader, "login").unwrap();
    let routine = BytesFn::from_entry(entry);
    assert_eq!(routine.call(&mut loader, b"token"), 8);
    loader.invalidate(entry);
    library.close(&mut loader);
}
