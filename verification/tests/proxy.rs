use std::cell::RefCell;
use std::rc::Rc;

use fault_domains::blk::{BlkDeviceDomain, DomainType};
use fault_domains::error::{AlienError, AlienResult};
use fault_domains::heap::RRef;
use fault_domains::shadow::ShadowBlockDomainImpl;

/// What a scripted disk has seen.
#[derive(Default)]
struct Seen {
    calls: usize,
    reads: Vec<(u32, [u8; 512])>,
    writes: Vec<(u32, [u8; 512])>,
}

/// A disk that fails its first calls with the errors of a script and serves
/// every later call.
struct Disk {
    script: Vec<AlienError>,
    seen: Rc<RefCell<Seen>>,
}

impl Disk {
    fn new(script: Vec<AlienError>) -> (Disk, Rc<RefCell<Seen>>) {
        let seen = Rc::new(RefCell::new(Seen::default()));
        (Disk { script, seen: seen.clone() }, seen)
    }

    fn next(&mut self) -> AlienResult<()> {
        let mut seen = self.seen.borrow_mut();
        let turn = seen.calls;
        seen.calls += 1;
        match self.script.get(turn) {
            Some(e) => Err(*e),
            None => Ok(()),
        }
    }
}

impl BlkDeviceDomain for Disk {
    fn handle_irq(&mut self) -> AlienResult<()> {
        self.next()
    }

    fn read_block(&mut self, block: u32, data: RRef<[u8; 512]>) -> AlienResult<RRef<[u8; 512]>> {
        let given = *data.get();
        self.seen.borrow_mut().reads.push((block, given));
        self.next()?;
        let mut sector = given;
        sector[0] = block as u8;
        sector[511] = 0x5a;
        Ok(RRef::new(sector))
    }

    fn write_block(&mut self, block: u32, data: &RRef<[u8; 512]>) -> AlienResult<usize> {
        self.seen.borrow_mut().writes.push((block, *data.get()));
        self.next()?;
        Ok(512)
    }

    fn get_capacity(&mut self) -> AlienResult<u64> {
        self.next()?;
        Ok(2048)
    }

    fn flush(&mut self) -> AlienResult<()> {
        self.next()
    }
}

fn proxy_over(script: Vec<AlienError>) -> (ShadowBlockDomainImpl<Disk>, Rc<RefCell<Seen>>) {
    let (disk, seen) = Disk::new(script);
    let mut proxy = ShadowBlockDomainImpl::new(9);
    assert_eq!(proxy.init("disk0", Some(DomainType::BlkDeviceDomain(disk))), Ok(()));
    (proxy, seen)
}

fn error_of<T>(result: AlienResult<T>) -> Option<AlienError> {
    match result {
        Ok(_) => None,
        Err(e) => Some(e),
    }
}

#[test]
fn new_proxy_has_no_target() {
    let proxy: ShadowBlockDomainImpl<Disk> = ShadowBlockDomainImpl::new(42);
    assert!(!proxy.ready());
    assert!(proxy.blk_domain_name().is_none());
    assert_eq!(proxy.domain_id(), 42);
}

#[test]
fn init_with_block_domain_succeeds() {
    let (disk, seen) = Disk::new(vec![]);
    let mut proxy = ShadowBlockDomainImpl::new(1);
    let result = proxy.init("disk0", Some(DomainType::BlkDeviceDomain(disk)));
    assert_eq!(result, Ok(()));
    assert!(proxy.ready());
    assert_eq!(proxy.blk_domain_name().map(|name| name.as_str()), Some("disk0"));
    assert_eq!(seen.borrow().calls, 0);
}

#[test]
fn init_with_other_capability_is_contract_violation() {
    let mut proxy: ShadowBlockDomainImpl<Disk> = ShadowBlockDomainImpl::new(1);
    let result = proxy.init("rtc0", Some(DomainType::RtcDomain(3)));
    assert_eq!(result, Err(AlienError::ContractViolation));
    assert!(!proxy.ready());
    let result = proxy.init("shadow0", Some(DomainType::ShadowBlockDomain(4)));
    assert_eq!(result, Err(AlienError::ContractViolation));
    assert!(!proxy.ready());
    let result = proxy.init("net0", Some(DomainType::Other));
    assert_eq!(result, Err(AlienError::ContractViolation));
    assert!(!proxy.ready());
    assert!(proxy.blk_domain_name().is_none());
}

#[test]
fn init_with_unknown_name_is_contract_violation() {
    let mut proxy: ShadowBlockDomainImpl<Disk> = ShadowBlockDomainImpl::new(1);
    assert_eq!(proxy.init("nowhere", None), Err(AlienError::ContractViolation));
    assert!(!proxy.ready());
}

#[test]
fn second_init_keeps_first_target() {
    let (mut proxy, first) = proxy_over(vec![]);
    let (other, second) = Disk::new(vec![]);
    assert_eq!(proxy.init("disk1", Some(DomainType::BlkDeviceDomain(other))), Ok(()));
    assert_eq!(proxy.blk_domain_name().map(|name| name.as_str()), Some("disk0"));
    assert_eq!(proxy.get_capacity(), Ok(2048));
    assert_eq!(first.borrow().calls, 1);
    assert_eq!(second.borrow().calls, 0);
}

#[test]
fn failed_init_after_init_keeps_target() {
    let (mut proxy, seen) = proxy_over(vec![]);
    assert_eq!(proxy.init("rtc0", Some(DomainType::RtcDomain(3))), Err(AlienError::ContractViolation));
    assert!(proxy.ready());
    assert_eq!(proxy.flush(), Ok(()));
    assert_eq!(seen.borrow().calls, 1);
}

#[test]
fn read_success_is_handed_on_after_one_call() {
    let (mut proxy, seen) = proxy_over(vec![]);
    let recovered = RefCell::new(0u32);
    let result = proxy.read_block(7, RRef::new([0x11u8; 512]), || *recovered.borrow_mut() += 1);
    let data = result.ok().expect("the read succeeds");
    let mut expected = [0x11u8; 512];
    expected[0] = 7;
    expected[511] = 0x5a;
    assert_eq!(*data.get(), expected);
    assert_eq!(seen.borrow().calls, 1);
    assert_eq!(*recovered.borrow(), 0);
}

#[test]
fn read_crash_then_success_returns_retry_result() {
    let (mut proxy, seen) = proxy_over(vec![AlienError::DomainCrash]);
    let recovered = RefCell::new(0u32);
    let result = proxy.read_block(7, RRef::new([0xaau8; 512]), || *recovered.borrow_mut() += 1);
    let data = result.ok().expect("the retry succeeds");
    let mut expected = [0u8; 512];
    expected[0] = 7;
    expected[511] = 0x5a;
    assert_eq!(*data.get(), expected);
    assert_eq!(seen.borrow().calls, 2);
    assert_eq!(*recovered.borrow(), 1);
}

#[test]
fn read_crash_twice_returns_crash_without_third_call() {
    let (mut proxy, seen) = proxy_over(vec![AlienError::DomainCrash, AlienError::DomainCrash]);
    let recovered = RefCell::new(0u32);
    let result = proxy.read_block(1, RRef::new([1u8; 512]), || *recovered.borrow_mut() += 1);
    assert_eq!(error_of(result), Some(AlienError::DomainCrash));
    assert_eq!(seen.borrow().calls, 2);
    assert_eq!(*recovered.borrow(), 1);
}

#[test]
fn read_crash_then_device_error_returns_device_error() {
    let (mut proxy, seen) = proxy_over(vec![AlienError::DomainCrash, AlienError::Device(5)]);
    let result = proxy.read_block(1, RRef::new([1u8; 512]), || ());
    assert_eq!(error_of(result), Some(AlienError::Device(5)));
    assert_eq!(seen.borrow().calls, 2);
}

#[test]
fn read_device_error_is_not_retried() {
    let (mut proxy, seen) = proxy_over(vec![AlienError::Device(5)]);
    let recovered = RefCell::new(0u32);
    let result = proxy.read_block(1, RRef::new([1u8; 512]), || *recovered.borrow_mut() += 1);
    assert_eq!(error_of(result), Some(AlienError::Device(5)));
    assert_eq!(seen.borrow().calls, 1);
    assert_eq!(*recovered.borrow(), 0);
}

#[test]
fn retry_reads_into_fresh_zeroed_buffer() {
    let (mut proxy, seen) = proxy_over(vec![AlienError::DomainCrash]);
    let _ = proxy.read_block(3, RRef::new([0xaau8; 512]), || ());
    let seen = seen.borrow();
    assert_eq!(seen.reads.len(), 2);
    assert_eq!(seen.reads[0].0, 3);
    assert_eq!(seen.reads[0].1, [0xaau8; 512]);
    assert_eq!(seen.reads[1].0, 3);
    assert_eq!(seen.reads[1].1, [0u8; 512]);
}

#[test]
fn write_is_forwarded_once() {
    let (mut proxy, seen) = proxy_over(vec![]);
    let data = RRef::new([7u8; 512]);
    assert_eq!(proxy.write_block(12, &data), Ok(512));
    let seen = seen.borrow();
    assert_eq!(seen.calls, 1);
    assert_eq!(seen.writes.len(), 1);
    assert_eq!(seen.writes[0].0, 12);
    assert_eq!(seen.writes[0].1, [7u8; 512]);
}

#[test]
fn write_error_is_forwarded_without_retry() {
    let (mut proxy, seen) = proxy_over(vec![AlienError::Device(13)]);
    let data = RRef::new([7u8; 512]);
    assert_eq!(proxy.write_block(12, &data), Err(AlienError::Device(13)));
    assert_eq!(seen.borrow().calls, 1);
}

#[test]
fn write_crash_is_forwarded_without_retry() {
    let (mut proxy, seen) = proxy_over(vec![AlienError::DomainCrash]);
    let data = RRef::new([7u8; 512]);
    assert_eq!(proxy.write_block(12, &data), Err(AlienError::DomainCrash));
    assert_eq!(seen.borrow().calls, 1);
}

#[test]
fn capacity_error_is_forwarded_without_retry() {
    let (mut proxy, seen) = proxy_over(vec![AlienError::Device(2)]);
    assert_eq!(proxy.get_capacity(), Err(AlienError::Device(2)));
    assert_eq!(seen.borrow().calls, 1);
    assert_eq!(proxy.get_capacity(), Ok(2048));
    assert_eq!(seen.borrow().calls, 2);
}

#[test]
fn flush_error_is_forwarded_without_retry() {
    let (mut proxy, seen) = proxy_over(vec![AlienError::Device(2)]);
    assert_eq!(proxy.flush(), Err(AlienError::Device(2)));
    assert_eq!(seen.borrow().calls, 1);
    assert_eq!(proxy.flush(), Ok(()));
    assert_eq!(seen.borrow().calls, 2);
}

#[test]
fn irq_is_forwarded_once() {
    let (mut proxy, seen) = proxy_over(vec![AlienError::DomainCrash]);
    assert_eq!(proxy.handle_irq(), Err(AlienError::DomainCrash));
    assert_eq!(proxy.handle_irq(), Ok(()));
    assert_eq!(seen.borrow().calls, 2);
}

#[test]
fn recorded_domain_forwards_each_call() {
    let (disk, seen) = Disk::new(vec![AlienError::Device(1)]);
    let mut recorded = fault_domains::blk::Recorded::new(disk);
    assert_eq!(recorded.get_capacity(), Err(AlienError::Device(1)));
    assert_eq!(recorded.get_capacity(), Ok(2048));
    assert_eq!(recorded.flush(), Ok(()));
    assert_eq!(recorded.handle_irq(), Ok(()));
    assert_eq!(recorded.write_block(2, &RRef::new([3u8; 512])), Ok(512));
    let sector = recorded.read_block(4, RRef::fresh()).ok().expect("the read succeeds");
    assert_eq!(sector.get()[0], 4);
    assert_eq!(seen.borrow().calls, 6);
}

#[test]
fn checkout_runs_recovery_without_calling_domain() {
    let (disk, seen) = Disk::new(vec![]);
    let mut recorded = fault_domains::blk::Recorded::new(disk);
    let recovered = RefCell::new(0u32);
    recorded.checkout(|| *recovered.borrow_mut() += 1);
    assert_eq!(*recovered.borrow(), 1);
    assert_eq!(seen.borrow().calls, 0);
}
