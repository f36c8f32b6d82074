use speech_sys::{
    decode_c_text, Backing, from_hr, ApiError, Handle, Properties, PropertyBag, PropertyObject, SmartHandle,
    SpeechError, INVALID_HANDLE, NAME_LOOKUP_ID,
};

#[test]
fn get_by_id_asks_with_blank_default() {
    let bag = Properties::new(5);
    let call = bag.get_by_id(3).unwrap();
    assert_eq!(call.handle, 5);
    assert_eq!(call.id, 3);
    assert!(call.name.is_none());
    assert_eq!(call.default_value, vec![0u8]);
}

#[test]
fn absent_property_reads_as_empty() {
    // Before any put the native store hands back the blank default.
    let bag = Properties::new(5);
    let call = bag.get_by_id(1000).unwrap();
    assert_eq!(decode_c_text(&call.default_value), Ok(String::new()));
}

#[test]
fn get_by_name_sends_the_name() {
    let bag = Properties::new(5);
    let call = bag.get_by_name("k").unwrap();
    assert_eq!(call.handle, 5);
    assert_eq!(call.id, NAME_LOOKUP_ID);
    assert_eq!(call.id, -1);
    assert_eq!(call.name, Some(vec![b'k', 0]));
    assert_eq!(call.default_value, vec![0u8]);
}

#[test]
fn put_by_id_sends_the_value() {
    let bag = Properties::new(5);
    let call = bag.put_by_id(12, "on").unwrap();
    assert_eq!(call.handle, 5);
    assert_eq!(call.id, 12);
    assert!(call.name.is_none());
    assert_eq!(call.value, vec![b'o', b'n', 0]);
    assert_eq!(from_hr(0), Ok(()));
}

#[test]
fn put_by_name_sends_name_and_value() {
    let bag = Properties::new(5);
    let call = bag.put_by_name("key", "42").unwrap();
    assert_eq!(call.id, NAME_LOOKUP_ID);
    assert_eq!(call.name, Some(vec![b'k', b'e', b'y', 0]));
    assert_eq!(call.value, vec![b'4', b'2', 0]);
}

#[test]
fn put_then_get_by_name_round_trips() {
    let bag = Properties::new(8);
    let value = 3.5f64.to_string();
    let put = bag.put_by_name("k", &value).unwrap();
    let get = bag.get_by_name("k").unwrap();
    assert_eq!(put.handle, get.handle);
    assert_eq!(put.id, get.id);
    assert_eq!(put.name, get.name);
    assert_eq!(decode_c_text(&put.value), Ok(value));
}

#[test]
fn embedded_nul_fails_before_any_call() {
    let bag = Properties::new(5);
    assert!(matches!(bag.get_by_name("a\0b"), Err(SpeechError::Encoding)));
    assert!(matches!(bag.put_by_name("a\0", "v"), Err(SpeechError::Encoding)));
    assert!(matches!(bag.put_by_name("k", "v\0"), Err(SpeechError::Encoding)));
    assert!(matches!(bag.put_by_id(1, "\0"), Err(SpeechError::Encoding)));
}

#[test]
fn released_bag_has_no_store() {
    let mut bag = Properties::new(5);
    assert_eq!(bag.validity_query(), Some(5));
    assert_eq!(bag.release(true), Some(5));
    assert!(bag.is_released());
    assert_eq!(bag.handle(), INVALID_HANDLE);
    assert!(matches!(bag.get_by_id(1), Err(SpeechError::Unimplemented)));
    assert!(matches!(bag.get_by_name("k"), Err(SpeechError::Unimplemented)));
    assert!(matches!(bag.put_by_id(1, "v"), Err(SpeechError::Unimplemented)));
    assert!(matches!(bag.put_by_name("k", "v"), Err(SpeechError::Unimplemented)));
    assert_eq!(bag.release(true), None);
}

#[test]
fn released_bag_still_rejects_nul_text() {
    let mut bag = Properties::new(5);
    assert_eq!(bag.release(true), Some(5));
    assert_eq!(bag.current_backing(), Backing::Released);
    assert!(matches!(bag.get_by_name("a\0"), Err(SpeechError::Encoding)));
    assert!(matches!(bag.put_by_id(1, "v\0"), Err(SpeechError::Encoding)));
    assert!(matches!(bag.put_by_name("k\0", "v"), Err(SpeechError::Encoding)));
    assert!(matches!(bag.put_by_name("k", "v\0"), Err(SpeechError::Encoding)));
}

#[test]
fn default_bag_rejects_nul_text() {
    let bag = Properties::default();
    assert!(matches!(bag.get_by_name("\0"), Err(SpeechError::Encoding)));
    assert!(matches!(bag.put_by_id(2, "x\0y"), Err(SpeechError::Encoding)));
    assert!(matches!(bag.put_by_name("\0", "\0"), Err(SpeechError::Encoding)));
    assert!(matches!(bag.get_by_name("k"), Err(SpeechError::Unimplemented)));
}

struct NoStore;

impl PropertyBag for NoStore {
    fn backing(&self) -> Backing {
        Backing::Unbacked
    }

    fn current_backing(&self) -> Backing {
        Backing::Unbacked
    }
}

#[test]
fn type_without_store_is_unimplemented() {
    let b = NoStore;
    assert!(matches!(b.get_by_id(1), Err(SpeechError::Unimplemented)));
    assert!(matches!(b.get_by_name("k"), Err(SpeechError::Unimplemented)));
    assert!(matches!(b.get_by_name("k\0"), Err(SpeechError::Unimplemented)));
    assert!(matches!(b.put_by_id(1, "v"), Err(SpeechError::Unimplemented)));
    assert!(matches!(b.put_by_id(1, "v\0"), Err(SpeechError::Unimplemented)));
    assert!(matches!(b.put_by_name("k", "v"), Err(SpeechError::Unimplemented)));
    assert!(matches!(b.put_by_name("k\0", "v\0"), Err(SpeechError::Unimplemented)));
}

#[test]
fn live_bag_reports_its_handle() {
    assert_eq!(Properties::new(5).current_backing(), Backing::Live(5));
    assert_eq!(Properties::new(0).current_backing(), Backing::Released);
}

#[test]
fn default_bag_has_no_store() {
    let mut bag = Properties::default();
    assert_eq!(bag.handle(), INVALID_HANDLE);
    assert!(matches!(bag.get_by_id(1), Err(SpeechError::Unimplemented)));
    assert_eq!(bag.validity_query(), None);
    assert_eq!(bag.release(true), None);
}

#[test]
fn bag_from_parent() {
    assert!(matches!(Properties::from_parent(3, 9), Err(SpeechError::Api(ApiError(3)))));
    let bag = Properties::from_parent(0, 9).unwrap();
    assert_eq!(bag.handle(), 9);
}

#[test]
fn object_delegates_to_its_bag() {
    let bag = Properties::from_parent(0, 21).unwrap();
    let mut obj = PropertyObject::new(SmartHandle::new(20, true), bag);
    assert_eq!(obj.handle(), 20);
    assert_eq!(obj.properties().handle(), 21);
    assert_eq!(obj.get_by_id(4).unwrap().handle, 21);
    assert_eq!(obj.get_by_name("x").unwrap().name, Some(vec![b'x', 0]));
    assert_eq!(obj.put_by_id(4, "v").unwrap().value, vec![b'v', 0]);
    assert_eq!(obj.put_by_name("x", "y").unwrap().handle, 21);
    assert_eq!(obj.validity_query(), Some(20));
    assert_eq!(obj.release(true), Some(20));
    assert_eq!(obj.handle(), INVALID_HANDLE);
    assert_eq!(obj.properties().handle(), 21);
    assert_eq!(obj.get_by_id(4).unwrap().handle, 21);
}
