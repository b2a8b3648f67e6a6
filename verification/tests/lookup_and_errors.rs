//! The rule of the lookup by address, and the texts of the failures.

use device::error::{forward, relay};
use device::lookup::{find_address, is_settled};
use device::{BluetoothError, NativeFailure};

fn told(addresses: &[&str]) -> Vec<Result<String, BluetoothError>> {
    addresses.iter().map(|a| Ok(a.to_string())).collect()
}

#[test]
fn find_address_in_no_devices() {
    assert_eq!(find_address(&vec![], &"a".to_string()), Ok(None));
}

#[test]
fn find_address_that_no_device_has() {
    assert_eq!(find_address(&told(&["a", "b", "c"]), &"d".to_string()), Ok(None));
    assert_eq!(find_address(&told(&["a", "b", "c"]), &"".to_string()), Ok(None));
    assert_eq!(find_address(&told(&["ab"]), &"a".to_string()), Ok(None));
}

#[test]
fn find_address_that_one_device_has() {
    assert_eq!(find_address(&told(&["a", "b", "c"]), &"a".to_string()), Ok(Some(0)));
    assert_eq!(find_address(&told(&["a", "b", "c"]), &"b".to_string()), Ok(Some(1)));
    assert_eq!(find_address(&told(&["a", "b", "c"]), &"c".to_string()), Ok(Some(2)));
}

#[test]
fn find_address_that_two_devices_have() {
    assert_eq!(find_address(&told(&["a", "b", "b", "a"]), &"b".to_string()), Ok(Some(1)));
}

#[test]
fn find_address_behind_a_failure() {
    let mut all = told(&["a"]);
    all.push(Err(BluetoothError::Native("first".to_string())));
    all.push(Ok("b".to_string()));
    all.push(Err(BluetoothError::NotSupported));
    let first = Err(BluetoothError::Native("first".to_string()));
    assert_eq!(find_address(&all, &"b".to_string()), first);
    assert_eq!(find_address(&all, &"z".to_string()), first);
    assert_eq!(find_address(&all, &"a".to_string()), Ok(Some(0)));
}

#[test]
fn an_address_or_a_failure_settles_a_search() {
    let address = "00:11".to_string();
    assert!(is_settled(&Ok("00:11".to_string()), &address));
    assert!(!is_settled(&Ok("00:12".to_string()), &address));
    assert!(!is_settled(&Ok(String::new()), &address));
    assert!(is_settled(&Err(BluetoothError::NotSupported), &address));
    assert!(is_settled(&Err(BluetoothError::Native("00:12".to_string())), &address));
}

#[test]
fn every_failure_has_its_text() {
    assert_eq!(BluetoothError::NotSupported.message(), "Error! Not supported platform!");
    assert_eq!(
        BluetoothError::NotSupportedOnReal.message(),
        "Error! Test functions are not supported on real devices!"
    );
    assert_eq!(
        BluetoothError::NotAMock.message(),
        "Error! The first parameter must be a mock structure!"
    );
    assert_eq!(
        BluetoothError::BackendMismatch.message(),
        "Error! The handles belong to different Bluetooth stacks!"
    );
    assert_eq!(BluetoothError::Native("timed out".to_string()).message(), "timed out");
    assert_eq!(BluetoothError::Native(String::new()).message(), "");
}

#[test]
fn a_cloned_failure_is_the_same_failure() {
    let native = BluetoothError::Native("timed out".to_string());
    assert_eq!(native.clone(), native);
    assert_eq!(BluetoothError::NotAMock.clone(), BluetoothError::NotAMock);
    assert_ne!(BluetoothError::NotSupported, BluetoothError::NotSupportedOnReal);
}

#[test]
fn a_native_outcome_is_forwarded_as_it_is() {
    assert_eq!(forward(Ok::<u32, String>(7)), Ok(7));
    assert_eq!(
        forward(Err::<u32, String>("no such device".to_string())),
        Err(BluetoothError::Native("no such device".to_string()))
    );
}

#[test]
fn a_platform_outcome_is_relayed_as_it_is() {
    assert_eq!(relay(Ok::<bool, NativeFailure>(true)), Ok(true));
    assert_eq!(
        relay(Err::<bool, NativeFailure>(NativeFailure::NotSupported)),
        Err(BluetoothError::NotSupported)
    );
    assert_eq!(
        relay(Err::<bool, NativeFailure>(NativeFailure::Failed("timed out".to_string()))),
        Err(BluetoothError::Native("timed out".to_string()))
    );
}
