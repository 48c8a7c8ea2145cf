use pen::any::{Any, AnyLike, Dummy, TypeInformation, DUMMY_TYPE_TAG};

const TYPE_A_TAG: u64 = 1;
const TYPE_B_TAG: u64 = 2;

#[derive(Clone, Debug, PartialEq)]
struct TypeA {
    value: f64,
}

impl AnyLike for TypeA {
    fn into_any(self) -> Any {
        Any::new(TypeInformation { tag: TYPE_A_TAG }, self.value.to_bits())
    }

    fn from_any(any: Any) -> Option<TypeA> {
        match any.into_payload(TypeInformation { tag: TYPE_A_TAG }) {
            Ok(payload) => Some(TypeA {
                value: f64::from_bits(payload),
            }),
            Err(_) => None,
        }
    }

    fn as_inner(any: &Any) -> Option<&TypeA> {
        match any.as_payload(TypeInformation { tag: TYPE_A_TAG }) {
            Some(payload) => Some(Box::leak(Box::new(TypeA {
                value: f64::from_bits(*payload),
            }))),
            None => None,
        }
    }
}

#[derive(Clone, Debug, PartialEq)]
struct TypeB {
    value: u64,
}

impl AnyLike for TypeB {
    fn into_any(self) -> Any {
        Any::new(TypeInformation { tag: TYPE_B_TAG }, self.value)
    }

    fn from_any(any: Any) -> Option<TypeB> {
        match any.into_payload(TypeInformation { tag: TYPE_B_TAG }) {
            Ok(payload) => Some(TypeB { value: payload }),
            Err(_) => None,
        }
    }

    fn as_inner(any: &Any) -> Option<&TypeB> {
        match any.as_payload(TypeInformation { tag: TYPE_B_TAG }) {
            Some(payload) => Some(Box::leak(Box::new(TypeB { value: *payload }))),
            None => None,
        }
    }
}

#[test]
fn drop_any() {
    TypeA { value: 42.0 }.into_any();
}

#[test]
fn any_drop_any() {
    TypeB { value: 42 }.into_any();
}

#[test]
fn clone_any() {
    let x = TypeA { value: 42.0 }.into_any();

    drop(x.clone());
    drop(x)
}

#[test]
fn any_clone_any() {
    let x = TypeB { value: 42 }.into_any();

    drop(x.clone());
    drop(x)
}

#[test]
fn as_inner() {
    let x = TypeA { value: 42.0 }.into_any();

    let _: Option<&TypeA> = AnyLike::as_inner(&x);
}

#[test]
fn any_as_inner() {
    let x = TypeB { value: 42 }.into_any();

    let inner: Option<&TypeB> = AnyLike::as_inner(&x);
    assert_eq!(inner, Some(&TypeB { value: 42 }));
}

#[test]
fn from_any_round_trip() {
    let any = TypeA { value: 42.0 }.into_any();

    assert_eq!(TypeA::from_any(any), Some(TypeA { value: 42.0 }));
}

#[test]
fn from_any_of_wrong_type() {
    let any = TypeA { value: 42.0 }.into_any();

    assert_eq!(TypeB::from_any(any), None);
}

#[test]
fn mismatch_returns_ownership() {
    let any = TypeB { value: 7 }.into_any();

    let any = any
        .into_payload(TypeInformation { tag: TYPE_A_TAG })
        .unwrap_err();

    assert_eq!(TypeB::from_any(any), Some(TypeB { value: 7 }));
}

#[test]
fn as_inner_repeated_reads_agree() {
    let x = TypeB { value: 9 }.into_any();

    let first: Option<&TypeB> = AnyLike::as_inner(&x);
    let second: Option<&TypeB> = AnyLike::as_inner(&x);

    assert_eq!(first, second);
}

#[test]
fn distinct_tags_never_match() {
    // The two registrations behave identically; only their tags differ.
    let a = TypeA { value: 0.0 }.into_any();
    let b = TypeB { value: 0 }.into_any();

    assert_ne!(a.type_information(), b.type_information());
    assert!(TypeB::as_inner(&a).is_none());
    assert!(TypeA::as_inner(&b).is_none());
}

#[test]
fn default_any_wraps_the_placeholder() {
    let any = Any::default();

    assert_eq!(any.type_information(), TypeInformation { tag: DUMMY_TYPE_TAG });
    assert_eq!(*any.payload(), 0);
    assert!(Dummy::as_inner(&any).is_some());
    assert_eq!(Dummy::from_any(any), Some(Dummy {}));
}

#[test]
fn clone_preserves_tag_and_payload() {
    let any = TypeB { value: 11 }.into_any();
    let cloned = any.clone();

    assert_eq!(cloned.type_information(), any.type_information());
    assert_eq!(*cloned.payload(), *any.payload());
}
