use thread_pool::anchor::Anchored;
use thread_pool::channel::{channel, rendezvous_channel, sync_channel};
use thread_pool::mem::{forget, ManuallyDrop, MaybeUninit};
use thread_pool::rc::{Arc, Rc};
use thread_pool::scope::JoinScope;
use thread_pool::{Leak, Unforget, Unleak};

#[test]
fn unforget_round_trip() {
    let u = Unforget::new(5);
    assert_eq!(*u.get(), 5);
    assert_eq!(Unforget::into_inner(u), 5);
    let local = 3;
    let b = Unforget::with_lifetime(&local);
    assert_eq!(**b.get(), 3);
    assert_eq!(*Unforget::into_inner(b), 3);
    let alias: Unleak<'static, &str> = Unleak::new("x");
    assert_eq!(Unforget::into_inner(alias), "x");
}

fn needs_leak<T: Leak>(_x: &T) -> bool {
    true
}

#[test]
fn static_values_may_be_forgotten() {
    assert!(needs_leak(&String::from("owned")));
    forget(vec![1, 2, 3]);
}

#[test]
fn manually_drop_holds_value() {
    let m = ManuallyDrop::new(String::from("kept"));
    assert_eq!(ManuallyDrop::into_inner(m), "kept");
}

#[test]
fn maybe_uninit_write_stores_value() {
    let mut slot: MaybeUninit<u64> = MaybeUninit::uninit();
    let r = slot.write(17);
    assert_eq!(*r, 17);
    *r = 18;
    let _ = MaybeUninit::<u64>::zeroed();
    let _ = MaybeUninit::new(1u8);
}

#[test]
fn shared_pointers_hold_value() {
    let r = Rc::new(vec![1, 2]);
    assert_eq!(r.get(), &vec![1, 2]);
    let a = Arc::new(9u8);
    assert_eq!(*a.get(), 9);
}

#[test]
fn anchoring_keeps_value() {
    let a = Anchored::new(11);
    let local = 0;
    let b = a.anchor(&local);
    assert_eq!(*b.get(), 11);
}

#[test]
fn join_scope_starts_once() {
    let mut scope = JoinScope::new(|| 6 * 7);
    assert!(!scope.is_spawned());
    let answer = scope.spawn_with(|f| f());
    assert!(scope.is_spawned());
    assert_eq!(answer, 42);
}

#[test]
fn channels_deliver() {
    let (tx, rx) = rendezvous_channel::<u8>();
    assert!(tx.try_send(3).is_err());
    drop(rx);
    let (tx, rx) = sync_channel(2);
    tx.send(1).unwrap();
    tx.send(2).unwrap();
    assert_eq!(rx.recv().unwrap(), 1);
    let (tx, rx) = channel();
    tx.send('c').unwrap();
    assert_eq!(rx.recv().unwrap(), 'c');
}
