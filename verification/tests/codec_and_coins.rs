use bridge_cli::coins::unburned_coins;
use bridge_cli::config::Config;
use bridge_cli::hexcode::decode_hex;

fn coin(tag: u8) -> [u8; 32] {
    let mut h = [0u8; 32];
    h[0] = tag;
    h
}

#[test]
fn hex_decoding_pairs_digits_into_bytes() {
    let input: Vec<u8> = b"00ff10Ab".to_vec();
    assert_eq!(decode_hex(&input), Some(vec![0x00, 0xff, 0x10, 0xab]));
}

#[test]
fn hex_decoding_accepts_both_cases() {
    let lower: Vec<u8> = b"deadbeef".to_vec();
    let upper: Vec<u8> = b"DEADBEEF".to_vec();
    assert_eq!(decode_hex(&lower), decode_hex(&upper));
    assert_eq!(decode_hex(&lower), Some(vec![0xde, 0xad, 0xbe, 0xef]));
}

#[test]
fn hex_decoding_rejects_odd_length() {
    let input: Vec<u8> = b"abc".to_vec();
    assert_eq!(decode_hex(&input), None);
}

#[test]
fn hex_decoding_rejects_non_digits() {
    let input: Vec<u8> = b"zz00".to_vec();
    assert_eq!(decode_hex(&input), None);
}

#[test]
fn hex_decoding_of_nothing_is_empty() {
    let input: Vec<u8> = Vec::new();
    assert_eq!(decode_hex(&input), Some(Vec::new()));
}

#[test]
fn hex_decoding_a_full_hash() {
    let input: Vec<u8> =
        b"000102030405060708090a0b0c0d0e0f101112131415161718191a1b1c1d1e1f".to_vec();
    let decoded = decode_hex(&input).unwrap();
    assert_eq!(decoded.len(), 32);
    for (i, b) in decoded.iter().enumerate() {
        assert_eq!(*b as usize, i);
    }
}

#[test]
fn burned_coins_drop_out_in_order() {
    let minted = vec![coin(1), coin(2), coin(3), coin(4)];
    let burned = vec![coin(2), coin(4)];
    assert_eq!(unburned_coins(&minted, &burned), vec![coin(1), coin(3)]);
}

#[test]
fn nothing_burned_keeps_every_coin() {
    let minted = vec![coin(1), coin(2)];
    let burned: Vec<[u8; 32]> = Vec::new();
    assert_eq!(unburned_coins(&minted, &burned), minted);
}

#[test]
fn everything_burned_leaves_nothing() {
    let minted = vec![coin(1), coin(2)];
    let burned = vec![coin(2), coin(1), coin(9)];
    assert_eq!(unburned_coins(&minted, &burned), Vec::<[u8; 32]>::new());
}

#[test]
fn repeated_mints_survive_together() {
    // A hash minted twice and never burned stays twice, in order.
    let minted = vec![coin(1), coin(1), coin(2)];
    let burned = vec![coin(2)];
    assert_eq!(unburned_coins(&minted, &burned), vec![coin(1), coin(1)]);
}

#[test]
fn config_keeps_its_settings() {
    let cfg = Config::new(
        true,
        String::from("http://localhost:8545"),
        String::from("test-secret"),
        Some(String::from("127.0.0.1:11814")),
        String::from("http://localhost:11814"),
    );
    assert!(cfg.testnet);
    assert_eq!(cfg.ethereum_rpc, "http://localhost:8545");
    assert_eq!(cfg.ethereum_secret, "test-secret");
    assert_eq!(cfg.themelio_rpc.as_deref(), Some("127.0.0.1:11814"));
    assert_eq!(cfg.themelio_url, "http://localhost:11814");
}
