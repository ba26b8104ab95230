use phantomdrop::PhantomDrop;

#[test]
fn zero_sized() {
    let guard = phantomdrop::defer(|| println!("Hello world!"));
    // A guard over the unit payload and a capture-free finalizer stores
    // nothing beyond the armed/disarmed marker of its slot.
    assert_eq!(
        core::mem::size_of_val(&guard),
        core::mem::size_of::<Option<()>>()
    );
}

#[test]
fn mut_reference_holding() {
    let mut hi = String::from("Hello?");
    let _guard = PhantomDrop::new(&mut hi, |string| {
        *string = String::from("Hello!");
        println!("{}", string);
    });
}

#[test]
fn reference_holding() {
    let hi = String::from("Hello!");
    let _guard = PhantomDrop::new(&hi, |string| println!("{}", string));
}

#[test]
fn value_holding() {
    let hi = String::from("Hello!");
    let _guard = PhantomDrop::new(hi, |string| println!("{}", string));
}

#[test]
fn value_capturing() {
    let hi = String::from("Hello!");
    let _guard = phantomdrop::defer(move || println!("{}", hi));
}

#[test]
fn mut_reference_capturing() {
    let mut hi = String::from("Hello?");
    let _guard = phantomdrop::defer(|| {
        hi = String::from("Hello!");
        println!("{}", hi)
    });
}

#[test]
fn reference_capturing() {
    let hi = String::from("Hello!");
    let _guard = phantomdrop::defer(|| println!("{}", hi));
}

#[test]
fn deferring() {
    let _guard = phantomdrop::defer(|| println!("Hello!"));
}
