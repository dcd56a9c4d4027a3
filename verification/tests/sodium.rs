use rusant::sodium::{add, Sodium};

#[test]
fn sys_add_sums() {
    assert_eq!(add(40, 2), 42);
    assert_eq!(add(0, 0), 0);
}

#[test]
fn generichash_of_empty_input_is_blake2b() {
    let s = Sodium::new().unwrap();
    let mut out = [0u8; 32];
    s.cryptogenerichash(b"", None, &mut out).unwrap();
    // BLAKE2b-256 of the empty message.
    assert_eq!(
        hex::encode(out),
        "0e5751c026e543b2e8ab2eb06099daa1d1e5df47778f7787faab45cdf12fe3a8"
    );
}

#[test]
fn generichash_fills_the_whole_output() {
    let s = Sodium::new().unwrap();
    let mut short = [0u8; 16];
    let mut long = [0u8; 64];
    s.cryptogenerichash(b"abc", None, &mut short).unwrap();
    s.cryptogenerichash(b"abc", None, &mut long).unwrap();
    assert_ne!(short, [0u8; 16]);
    assert_ne!(long[48..], [0u8; 16]);
    // BLAKE2b-512 of "abc".
    assert_eq!(
        hex::encode(long),
        "ba80a53f981c4d0d6a2797b69f12f6e94c212f14685ac4b74b12bb6fdbffa2d17d87c5392aab792dc252d5de4533cc9518d38aa8dbf1925ab92386edd4009923"
    );
}

#[test]
fn keyed_generichash_differs_from_unkeyed() {
    let s = Sodium::new().unwrap();
    let key = [7u8; 32];
    let mut keyed = [0u8; 32];
    let mut plain = [0u8; 32];
    s.cryptogenerichash(b"message", Some(&key), &mut keyed).unwrap();
    s.cryptogenerichash(b"message", None, &mut plain).unwrap();
    assert_ne!(keyed, plain);
}

#[test]
fn handle_follows_init_outcome() {
    assert!(Sodium::from_init(Ok(())).is_ok());
    assert!(Sodium::from_init(Err(())).is_err());
}

#[test]
fn generichash_result_has_the_output_length() {
    let s = Sodium::new().unwrap();
    let mut out = [0u8; 48];
    let r = s.cryptogenerichash(b"data", None, &mut out).unwrap();
    assert_eq!(r.len(), 48);
}
