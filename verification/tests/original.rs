use rusant::sodium::{Sodium, GENERICHASH_BYTES};

#[test]
fn it_works() {
    let result = rusant::shared::add(2, 2);
    assert_eq!(result, 4);
}

#[test]
fn lib_it_works() {
    Sodium::new().unwrap();
}

#[test]
fn it_hashes() {
    let s = Sodium::new().unwrap();
    let mut out = [0; GENERICHASH_BYTES];
    let bytes = s
        .cryptogenerichash(b"Arbitrary data to hash in Rust", None, &mut out)
        .unwrap();

    println!("{}", hex::encode(&bytes));
}
