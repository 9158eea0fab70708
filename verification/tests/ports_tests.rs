use runner::errors::SandboxError;
use runner::ports::PortAllocator;

#[test]
fn accepting_no_candidate_reports_no_ports_available() {
    let mut allocator = PortAllocator::new();
    assert_eq!(allocator.accept(None), Err(SandboxError::NoPortsAvailable));
}

#[test]
fn accepting_a_fresh_candidate_issues_it_once() {
    let mut allocator = PortAllocator::new();
    assert_eq!(allocator.accept(Some(30000)), Ok(30000));
    assert_eq!(allocator.accept(Some(30000)), Err(SandboxError::NoPortsAvailable));
    assert_eq!(allocator.accept(Some(30001)), Ok(30001));
}

#[test]
fn sequential_allocations_yield_distinct_ports() {
    let mut allocator = PortAllocator::new();
    let p1 = allocator.allocate().expect("no ports free");
    let p2 = allocator.allocate().expect("no ports free");
    assert_ne!(p1, p2);
}
