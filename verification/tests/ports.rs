use rusant::ports::PortPool;

#[test]
fn new_pool_serves_on_5200_and_listens_nowhere() {
    let pool = PortPool::new();
    assert_eq!(pool.get_serving_port(), 5200);
    assert!(pool.get_listening_port_pool().is_empty());
}

#[test]
fn allocated_ports_are_kept_in_order() {
    let mut pool = PortPool::new();
    assert_eq!(pool.allocate_listening_port(6000), Ok(()));
    assert_eq!(pool.allocate_listening_port(6002), Ok(()));
    assert_eq!(pool.allocate_listening_port(-3), Ok(()));
    assert_eq!(pool.get_listening_port_pool(), &vec![6000, 6002, -3]);
}

#[test]
fn allocating_twice_is_refused() {
    let mut pool = PortPool::new();
    pool.allocate_listening_port(6000).unwrap();
    assert_eq!(
        pool.allocate_listening_port(6000),
        Err(String::from("Port 6000 cannot be allocated since it it already in use"))
    );
    assert_eq!(pool.get_listening_port_pool(), &vec![6000]);
}

#[test]
fn freeing_removes_only_that_port() {
    let mut pool = PortPool::new();
    pool.allocate_listening_port(1).unwrap();
    pool.allocate_listening_port(2).unwrap();
    pool.allocate_listening_port(3).unwrap();
    assert_eq!(pool.free_listening_port(2), Ok(()));
    assert_eq!(pool.get_listening_port_pool(), &vec![1, 3]);
}

#[test]
fn freeing_an_unallocated_port_is_refused() {
    let mut pool = PortPool::new();
    pool.allocate_listening_port(1).unwrap();
    assert_eq!(
        pool.free_listening_port(-42),
        Err(String::from("Port -42 cannot be freed since it was not allocated before"))
    );
    assert_eq!(pool.get_listening_port_pool(), &vec![1]);
}

#[test]
fn allocate_then_free_restores_pool() {
    let mut pool = PortPool::new();
    pool.allocate_listening_port(10).unwrap();
    pool.allocate_listening_port(20).unwrap();
    let before = pool.get_listening_port_pool().clone();
    pool.allocate_listening_port(30).unwrap();
    pool.free_listening_port(30).unwrap();
    assert_eq!(pool.get_listening_port_pool(), &before);
    // The freed port can be allocated again.
    assert_eq!(pool.allocate_listening_port(30), Ok(()));
}

#[test]
fn pool_keeps_allocated_ports_in_allocation_order() {
    let mut pool = PortPool::new();
    pool.allocate_listening_port(1).unwrap();
    pool.allocate_listening_port(2).unwrap();
    pool.allocate_listening_port(3).unwrap();
    pool.free_listening_port(1).unwrap();
    let _ = pool.allocate_listening_port(2);
    let _ = pool.free_listening_port(9);
    pool.allocate_listening_port(1).unwrap();
    assert_eq!(pool.get_listening_port_pool(), &vec![2, 3, 1]);
    assert_eq!(pool.get_serving_port(), 5200);
}
