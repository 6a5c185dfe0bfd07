use unityresolve::classes::array::{Il2CppArrayBounds, Il2CppArrayHeader, Il2CppArrayView};
use unityresolve::classes::gameobject::GameObjectView;
use unityresolve::classes::il2cpp_view::{Il2CppView, Il2CppViewCast};
use unityresolve::classes::object::{ObjectInner, ObjectView};
use unityresolve::classes::string::{Il2CppStr, Il2CppString};
use unityresolve::classes::unity_object::UnityObject;
use unityresolve::handle::Handle;

fn header(len: u32) -> Il2CppArrayHeader {
    Il2CppArrayHeader {
        obj: ObjectInner { klass: Handle::new(1), monitor: Handle::new(0) },
        bounds: Handle::new(0),
        max_length: len,
    }
}

fn string_raw(units: &[u16]) -> Il2CppString {
    Il2CppString {
        obj: ObjectInner { klass: Handle::new(1), monitor: Handle::new(0) },
        m_string_length: units.len() as i32,
        m_first_char: units.to_vec(),
    }
}

#[test]
fn view_round_trips_its_pointer() {
    let v = ObjectView::from_ptr(0xDEAD).unwrap();
    assert_eq!(v.as_ptr(), 0xDEAD);
    assert_eq!(v.as_il2cpp_object(), 0xDEAD);
    let u = UnityObject::from_ptr(0xF00D).unwrap();
    assert_eq!(u.as_ptr(), 0xF00D);
    assert_eq!(u.managed_ptr(), 0xF00D);
    let g = GameObjectView::from_ptr(7).unwrap();
    assert_eq!(g.as_ptr(), 7);
}

#[test]
fn view_refuses_null() {
    assert!(ObjectView::from_ptr(0).is_none());
    assert!(UnityObject::from_ptr(0).is_none());
    assert!(GameObjectView::from_ptr(0).is_none());
}

#[test]
fn cast_preserves_the_address() {
    let v = ObjectView::from_ptr(0x1234).unwrap();
    let g: GameObjectView = v.cast::<GameObjectView>();
    assert_eq!(g.as_ptr(), 0x1234);
    let back: ObjectView = g.cast_ref::<ObjectView>();
    assert_eq!(back.as_ptr(), 0x1234);
}

#[test]
fn empty_string_view_decodes_to_empty_text() {
    let s = Il2CppStr::from_ptr(0x10, string_raw(&[])).unwrap();
    assert_eq!(s.len(), 0);
    assert!(s.is_empty());
    assert_eq!(s.char_at(0), None);
    assert_eq!(s.to_string(), "");
    assert_eq!(s.as_ptr(), 0x10);
}

#[test]
fn string_view_decodes_utf16() {
    let hello: Vec<u16> = "Hello".encode_utf16().collect();
    let s = Il2CppStr::from_ptr(0x10, string_raw(&hello)).unwrap();
    assert_eq!(s.len(), 5);
    assert!(!s.is_empty());
    assert_eq!(s.char_at(0), Some(u16::from(b'H')));
    assert_eq!(s.char_at(4), Some(u16::from(b'o')));
    assert_eq!(s.char_at(5), None);
    assert_eq!(s.to_string(), "Hello");
    assert_eq!(s.as_raw().m_string_length, 5);
}

#[test]
fn string_view_combines_surrogate_pairs() {
    // U+1D11E as the pair D834 DD1E, between ASCII neighbours
    let units = [0x0061u16, 0xD834, 0xDD1E, 0x0062];
    let s = Il2CppStr::from_ptr(0x10, string_raw(&units)).unwrap();
    assert_eq!(s.to_string(), "a\u{1D11E}b");
}

#[test]
fn string_view_replaces_unpaired_surrogates() {
    let units = [0xD834u16, 0x0061, 0xDD1E];
    let s = Il2CppStr::from_ptr(0x10, string_raw(&units)).unwrap();
    assert_eq!(s.to_string(), "\u{FFFD}a\u{FFFD}");
}

#[test]
fn string_view_refuses_null_or_inconsistent_layouts() {
    assert!(Il2CppStr::from_ptr(0, string_raw(&[])).is_none());
    let mut raw = string_raw(&[0x61]);
    raw.m_string_length = 2;
    assert!(Il2CppStr::from_ptr(0x10, raw).is_none());
    let mut neg = string_raw(&[]);
    neg.m_string_length = -1;
    assert!(Il2CppStr::from_ptr(0x10, neg).is_none());
}

#[test]
fn string_view_reports_reported_length_only() {
    // a buffer longer than the reported length is fine; only the reported
    // prefix is the string
    let mut raw = string_raw(&[0x61, 0x62, 0x63]);
    raw.m_string_length = 2;
    let s = Il2CppStr::from_ptr(0x10, raw).unwrap();
    assert_eq!(s.len(), 2);
    assert_eq!(s.to_string(), "ab");
    assert_eq!(s.char_at(2), None);
}

#[test]
fn empty_array_view_is_empty() {
    let v: Il2CppArrayView<Handle> = Il2CppArrayView::from_ptr(0x20, header(0), Vec::new()).unwrap();
    assert_eq!(v.len(), 0);
    assert!(v.is_empty());
    assert!(v.at(0).is_none());
    assert!(v.as_slice().is_empty());
    assert!(v.iter().is_empty());
}

#[test]
fn array_view_indexes_within_bounds() {
    let elems = vec![Handle::new(5), Handle::new(6)];
    let v = Il2CppArrayView::from_ptr(0x20, header(2), elems).unwrap();
    assert_eq!(v.len(), 2);
    assert!(!v.is_empty());
    assert_eq!(v.at(0).unwrap().addr, 5);
    assert_eq!(v.at(1).unwrap().addr, 6);
    assert!(v.at(2).is_none());
    assert_eq!(v.header().max_length, 2);
    assert_eq!(v.as_ptr(), 0x20);
    let elems2: Vec<usize> = v.iter().iter().map(|h| h.addr).collect();
    assert_eq!(elems2, vec![5, 6]);
}

#[test]
fn array_view_refuses_null_or_mismatched_count() {
    let r: Option<Il2CppArrayView<Handle>> = Il2CppArrayView::from_ptr(0, header(0), Vec::new());
    assert!(r.is_none());
    let r2: Option<Il2CppArrayView<Handle>> =
        Il2CppArrayView::from_ptr(0x20, header(3), vec![Handle::new(1)]);
    assert!(r2.is_none());
}

#[test]
fn array_bounds_hold_their_parts() {
    let b = Il2CppArrayBounds { length: 4, lower_bound: -1 };
    assert_eq!(b.length, 4);
    assert_eq!(b.lower_bound, -1);
}
