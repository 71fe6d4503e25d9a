use anvil_benchmarks::probe::{probe_with_selector, shutdown_probe, CHAIN_ID, SENDER_BALANCE};

#[test]
fn probe_targets_the_system_contract() {
    let p = shutdown_probe();
    let target: [u8; 20] = [
        0xF4, 0x03, 0xC1, 0x35, 0x81, 0x24, 0x08, 0xBF, 0xBE, 0x87, 0x13, 0xB5, 0xA2, 0x3A, 0x04,
        0xB3, 0xD4, 0x8A, 0xAE, 0x31,
    ];
    assert_eq!(p.target, target);
    assert_eq!(format!("0x{}", hex_of(&p.sender)), "0x3ce6408f923326f81a7d7929952947748180f1e6");
    assert_eq!(p.sender_balance, 10_000_000_000_000_000_000);
    assert_eq!(SENDER_BALANCE, 10_000_000_000_000_000_000);
    assert_eq!(p.gas, 28_000_000);
    assert_eq!(p.chain_id, CHAIN_ID);
    assert_eq!(p.block, 14_445_961);
}

#[test]
fn probe_data_is_the_hashed_selector() {
    let p = shutdown_probe();
    assert_eq!(p.data, ethers::utils::id("shutdownSystem()"));
    assert_ne!(&p.data[..], &b"shutdownSystem()"[..4]);
}

#[test]
fn probe_carries_given_selector() {
    let p = probe_with_selector([1, 2, 3, 4]);
    assert_eq!(p.data, [1, 2, 3, 4]);
}

fn hex_of(b: &[u8]) -> String {
    b.iter().map(|x| format!("{:02x}", x)).collect()
}
