use cobra_rs::sync::kind_pool::{Kind, KindPoolState};
use cobra_rs::sync::pool::{Deposit, Pickup, PoolGuard, WriteError};

#[derive(Debug)]
struct TestFrame {
    key: u8,
    value: i32,
}

impl TestFrame {
    fn create(key: u8, value: i32) -> Self {
        TestFrame { key, value }
    }
}

impl Kind<u8> for TestFrame {
    fn spec_kind(&self) -> u8 {
        self.key
    }

    fn kind(&self) -> u8 {
        self.key
    }
}

fn take(pool: &mut KindPoolState<u8, TestFrame>, kind: u8) -> PoolGuard<TestFrame> {
    match pool.read_value(kind) {
        Pickup::Taken(guard) => guard,
        Pickup::Empty => panic!("nothing to read"),
        Pickup::Closed => panic!("pool closed"),
    }
}

fn write(pool: &mut KindPoolState<u8, TestFrame>, package: TestFrame) {
    assert!(matches!(pool.write_value(package), Deposit::Stored));
}

const KIND_A: u8 = 0;
const KIND_B: u8 = 1;

#[test]
fn kind_pool_tests_one_read_one_write() {
    let mut pool = KindPoolState::new();

    let package_a = TestFrame::create(KIND_A, 0);
    let package_b = TestFrame::create(KIND_B, 1);
    write(&mut pool, package_a);
    write(&mut pool, package_b);

    let guard = take(&mut pool, KIND_A);
    assert_eq!(pool.accept(guard).value, 0);
    pool.wait_response(KIND_A).unwrap().unwrap();

    let guard = take(&mut pool, KIND_B);
    assert_eq!(pool.accept(guard).value, 1);
    pool.wait_response(KIND_B).unwrap().unwrap();
}

#[test]
fn kind_pool_tests_one_read_multiple_write() {
    let mut pool = KindPoolState::new();

    write(&mut pool, TestFrame::create(KIND_A, 0));
    assert!(matches!(pool.write_value(TestFrame::create(KIND_A, 1)), Deposit::Busy(_)));
    write(&mut pool, TestFrame::create(KIND_B, 2));
    assert!(matches!(pool.write_value(TestFrame::create(KIND_B, 3)), Deposit::Busy(_)));

    let guard = take(&mut pool, KIND_A);
    assert_eq!(pool.accept(guard).value, 0);
    pool.wait_response(KIND_A).unwrap().unwrap();
    write(&mut pool, TestFrame::create(KIND_A, 1));
    let guard = take(&mut pool, KIND_A);
    assert_eq!(pool.accept(guard).value, 1);
    pool.wait_response(KIND_A).unwrap().unwrap();

    let guard = take(&mut pool, KIND_B);
    assert_eq!(pool.accept(guard).value, 2);
    pool.wait_response(KIND_B).unwrap().unwrap();
    write(&mut pool, TestFrame::create(KIND_B, 3));
    let guard = take(&mut pool, KIND_B);
    assert_eq!(pool.accept(guard).value, 3);
    pool.wait_response(KIND_B).unwrap().unwrap();
}

#[test]
fn kind_pool_tests_multiple_read_one_write() {
    let mut pool = KindPoolState::new();

    assert!(matches!(pool.read_value(KIND_A), Pickup::Empty));
    assert!(matches!(pool.read_value(KIND_B), Pickup::Empty));

    write(&mut pool, TestFrame::create(KIND_A, 0));
    write(&mut pool, TestFrame::create(KIND_B, 1));

    let guard = take(&mut pool, KIND_A);
    assert_eq!(pool.accept(guard).value, 0);
    let guard = take(&mut pool, KIND_B);
    assert_eq!(pool.accept(guard).value, 1);
}

#[test]
fn kind_pool_tests_multiple_read_multiple_write() {
    let mut pool = KindPoolState::new();

    write(&mut pool, TestFrame::create(KIND_B, 1));
    write(&mut pool, TestFrame::create(KIND_A, 0));

    let guard_a = take(&mut pool, KIND_A);
    assert_eq!(guard_a.get().value, 0);
    let guard_b = take(&mut pool, KIND_B);
    assert_eq!(guard_b.get().value, 1);

    pool.release(guard_a);
    pool.release(guard_b);
    pool.wait_response(KIND_A).unwrap().unwrap();
    pool.wait_response(KIND_B).unwrap().unwrap();
}

#[test]
fn write_after_close() {
    let mut pool: KindPoolState<u8, TestFrame> = KindPoolState::new();

    pool.close();
    let package = TestFrame::create(KIND_A, 0);
    assert!(matches!(pool.write_value(package), Deposit::Closed(_)));
}

#[test]
fn read_after_close() {
    let mut pool: KindPoolState<u8, TestFrame> = KindPoolState::new();

    pool.close();

    assert!(matches!(pool.read_value(KIND_A), Pickup::Closed));
}

#[test]
fn data_order() {
    let mut pool = KindPoolState::new();
    let mut next_a = 0;
    let mut next_b = 0;

    write(&mut pool, TestFrame::create(KIND_A, next_a));
    write(&mut pool, TestFrame::create(KIND_B, next_b));

    for i in 0..5 {
        let guard = take(&mut pool, KIND_A);
        assert_eq!(pool.accept(guard).value, i);
        pool.wait_response(KIND_A).unwrap().unwrap();
        next_a += 1;
        write(&mut pool, TestFrame::create(KIND_A, next_a));

        let guard = take(&mut pool, KIND_B);
        assert_eq!(pool.accept(guard).value, i);
        pool.wait_response(KIND_B).unwrap().unwrap();
        next_b += 1;
        write(&mut pool, TestFrame::create(KIND_B, next_b));
    }
}

#[test]
fn kind_pool_tests_stress_test() {
    let mut pool = KindPoolState::new();

    for i in 0..10000 {
        let package = TestFrame::create(0, i);
        assert!(matches!(pool.write_value(package), Deposit::Stored));
        let guard = take(&mut pool, 0);
        assert_eq!(pool.accept(guard).value, i);
        assert!(pool.wait_response(0).unwrap().is_ok());
    }
}

#[test]
fn read_returns_only_its_kind() {
    let mut pool = KindPoolState::new();

    write(&mut pool, TestFrame::create(3, 30));
    write(&mut pool, TestFrame::create(4, 40));

    assert!(matches!(pool.read_value(5), Pickup::Empty));
    let guard = take(&mut pool, 4);
    assert_eq!(guard.get().kind(), 4);
    assert_eq!(guard.get().value, 40);
    pool.reject(guard);
    let guard = take(&mut pool, 3);
    assert_eq!(guard.get().kind(), 3);
    assert_eq!(pool.accept(guard).value, 30);

    match pool.wait_response(4) {
        Some(Err(WriteError::Rejected(package))) => {
            assert_eq!((package.key, package.value), (4, 40))
        }
        _ => panic!("wrong write error returned"),
    }
    assert!(matches!(pool.wait_response(3), Some(Ok(()))));
    assert!(pool.wait_response(5).is_none());
}

#[test]
fn close_races() {
    let mut pool: KindPoolState<u8, TestFrame> = KindPoolState::new();
    pool.close();
    match pool.write_value(TestFrame::create(KIND_A, 7)) {
        Deposit::Closed(package) => assert_eq!(package.value, 7),
        _ => panic!("wrong write error returned"),
    }

    let mut pool: KindPoolState<u8, TestFrame> = KindPoolState::new();
    write(&mut pool, TestFrame::create(KIND_A, 8));
    let guard = take(&mut pool, KIND_A);
    pool.close();
    pool.close();
    assert!(pool.is_closed());
    assert_eq!(pool.accept(guard).value, 8);
    assert!(matches!(pool.wait_response(KIND_A), Some(Ok(()))));
    assert!(matches!(pool.read_value(KIND_A), Pickup::Closed));

    let mut pool: KindPoolState<u8, TestFrame> = KindPoolState::new();
    write(&mut pool, TestFrame::create(KIND_B, 9));
    pool.close();
    assert!(matches!(pool.read_value(KIND_B), Pickup::Closed));
    match pool.wait_response(KIND_B) {
        Some(Err(WriteError::Closed(package))) => assert_eq!(package.value, 9),
        _ => panic!("wrong write error returned"),
    }
}

#[test]
fn abandoned_kind_is_freed() {
    let mut pool = KindPoolState::new();

    write(&mut pool, TestFrame::create(KIND_A, 1));
    write(&mut pool, TestFrame::create(KIND_B, 2));
    pool.abandon(KIND_A);

    assert!(matches!(pool.read_value(KIND_A), Pickup::Empty));
    write(&mut pool, TestFrame::create(KIND_A, 3));
    let guard = take(&mut pool, KIND_B);
    assert_eq!(pool.accept(guard).value, 2);
    let guard = take(&mut pool, KIND_A);
    assert_eq!(pool.accept(guard).value, 3);
}

#[test]
fn kinds_do_not_wait_for_each_other() {
    let mut pool = KindPoolState::new();

    write(&mut pool, TestFrame::create(KIND_A, 1));
    assert!(matches!(pool.write_value(TestFrame::create(KIND_A, 2)), Deposit::Busy(_)));
    write(&mut pool, TestFrame::create(KIND_B, 3));

    let guard = take(&mut pool, KIND_B);
    assert_eq!(pool.accept(guard).value, 3);
    assert!(matches!(pool.wait_response(KIND_B), Some(Ok(()))));
    assert!(pool.wait_response(KIND_A).is_none());
}
