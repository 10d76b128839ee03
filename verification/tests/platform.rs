use self_ref_in_rust::error::{LoadError, SymbolError};
use self_ref_in_rust::platform::{Event, Export, Image, Loader, RawEntryPoint, Signature};

fn stub(identifier: &str, login: i32, logout: i32) -> Image {
    Image::new(
        identifier,
        true,
        vec![
            Export::new("login", Signature::Bytes, login),
            Export::new("logout", Signature::Nullary, logout),
        ],
    )
}

#[test]
fn fresh_loader_has_done_nothing() {
    let loader = Loader::new();
    assert_eq!(loader.opens(), 0);
    assert_eq!(loader.closes(), 0);
    assert!(loader.events().is_empty());
    assert!(!loader.is_live(0));
}

#[test]
fn open_hands_out_handles_in_order() {
    let mut loader = Loader::new();
    loader.install(stub("a.lib", 3, 4));
    assert_eq!(loader.open("a.lib"), Ok(0));
    assert_eq!(loader.open("a.lib"), Ok(1));
    assert_eq!(loader.opens(), 2);
    assert_eq!(loader.closes(), 0);
    assert!(loader.is_live(0));
    assert!(loader.is_live(1));
    assert!(!loader.is_live(2));
    assert_eq!(loader.events(), &vec![Event::Opened(0), Event::Opened(1)]);
}

#[test]
fn open_refuses_what_is_not_there() {
    let mut loader = Loader::new();
    loader.install(stub("a.lib", 0, 0));
    assert_eq!(loader.open("b.lib"), Err(LoadError::NotFound));
    assert_eq!(loader.opens(), 0);
    assert!(loader.events().is_empty());
}

#[test]
fn open_refuses_what_cannot_be_loaded() {
    let mut loader = Loader::new();
    loader.install(Image::new("broken.lib", false, vec![]));
    loader.install(stub("broken.lib", 0, 0));
    assert_eq!(loader.open("broken.lib"), Err(LoadError::LoadFailed));
    assert_eq!(loader.opens(), 0);
    assert!(loader.events().is_empty());
}

#[test]
fn resolve_finds_the_first_export_of_a_name() {
    let mut loader = Loader::new();
    loader.install(Image::new(
        "a.lib",
        true,
        vec![
            Export::new("f", Signature::Nullary, 1),
            Export::new("g", Signature::Nullary, 2),
            Export::new("g", Signature::Nullary, 3),
        ],
    ));
    let handle = loader.open("a.lib").unwrap();
    let entry = loader.resolve(handle, "g").unwrap();
    assert_eq!(entry, RawEntryPoint { library: handle, slot: 1 });
    assert_eq!(loader.call_nullary(entry), 2);
    assert_eq!(loader.outstanding(handle), 1);
    assert_eq!(loader.resolve(handle, "h"), Err(SymbolError::NotFound("h".to_string())));
    assert_eq!(loader.outstanding(handle), 1);
    loader.invalidate(entry);
    assert_eq!(loader.outstanding(handle), 0);
    loader.close(handle);
    assert!(!loader.is_live(handle));
    assert_eq!(loader.closes(), 1);
    assert_eq!(
        loader.events(),
        &vec![
            Event::Opened(0),
            Event::Resolved(entry),
            Event::Called(entry, vec![]),
            Event::Invalidated(entry),
            Event::Closed(0),
        ]
    );
}
