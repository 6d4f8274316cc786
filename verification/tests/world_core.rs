use rust_core::MAX_CLIENTS;

#[test]
fn max_clients_is_64() {
    assert_eq!(MAX_CLIENTS, 64);
}
