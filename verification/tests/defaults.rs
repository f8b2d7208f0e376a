use walrus_cli::defaults::{bind_address, epochs, gas_budget, max_body_size_kib, status_timeout};

#[test]
fn defaults_are_the_documented_ones() {
    assert_eq!(gas_budget(), 500_000_000);
    assert_eq!(epochs(), 1);
    assert_eq!(max_body_size_kib(), 10_240);
    assert_eq!(status_timeout().secs, 1);
    assert_eq!(status_timeout().nanos, 0);
    assert_eq!(bind_address(), "127.0.0.1:31415");
}
