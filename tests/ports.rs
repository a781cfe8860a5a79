use irssi_v5::errors::GatewayError;
use irssi_v5::ports::PortPool;

#[test]
fn pool_hands_out_lowest_free_port() {
    let mut p = PortPool::new(7100);
    assert_eq!(p.allocate(), Ok(7100));
    assert_eq!(p.allocate(), Ok(7101));
    p.free(7100);
    assert_eq!(p.allocate(), Ok(7100));
    assert_eq!(p.allocate(), Ok(7102));
}

#[test]
fn pool_exhaustion_then_free_one() {
    let mut p = PortPool::new(7100);
    for i in 0..1000u16 {
        assert_eq!(p.allocate(), Ok(7100 + i));
    }
    assert_eq!(p.allocate(), Err(GatewayError::PoolExhausted));
    p.free(7542);
    assert_eq!(p.allocate(), Ok(7542));
    assert_eq!(p.allocate(), Err(GatewayError::PoolExhausted));
}

#[test]
fn pool_free_of_unallocated_port_is_noop() {
    let mut p = PortPool::new(7100);
    assert_eq!(p.allocate(), Ok(7100));
    p.free(7500);
    p.free(7500);
    p.free(1);
    assert_eq!(p.allocate(), Ok(7101));
}

#[test]
fn pool_at_highest_base() {
    let mut p = PortPool::new(64536);
    for _ in 0..999 {
        assert!(p.allocate().is_ok());
    }
    assert_eq!(p.allocate(), Ok(65535));
    assert_eq!(p.allocate(), Err(GatewayError::PoolExhausted));
}
