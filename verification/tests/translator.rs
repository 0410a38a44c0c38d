use am_patches::ids::DocProp;
use am_patches::ids::ObjectId;
use am_patches::ids::PathElement;
use am_patches::native::NativeAction;
use am_patches::native::NativeEvent;
use am_patches::native::NativeProp;
use am_patches::native::NativeScalar;
use am_patches::native::NativeSegment;
use am_patches::native::NativeValue;
use am_patches::observer::Observer;
use am_patches::patch::Patch;
use am_patches::patch::PatchAction;
use am_patches::translate::translate_events;
use am_patches::translate::TranslateError;
use am_patches::values::Scalar;
use am_patches::values::Value;

fn obj(tag: u8) -> Vec<u8> {
    vec![tag, 1, 2, 3]
}

fn event(obj_bytes: Vec<u8>, path: Vec<NativeSegment>, action: NativeAction) -> NativeEvent {
    NativeEvent { obj: obj_bytes, path, action }
}

#[test]
fn order_preserved_one_patch_per_event() {
    let events = vec![
        event(obj(1), vec![], NativeAction::PutMap {
            key: "a".to_string(),
            value: NativeValue::Scalar(NativeScalar::Int(1)),
        }),
        event(obj(2), vec![], NativeAction::DeleteMap { key: "b".to_string() }),
        event(obj(3), vec![], NativeAction::Increment {
            prop: NativeProp::Key("c".to_string()),
            value: 7,
        }),
    ];
    let patches = translate_events(&events).unwrap();
    assert_eq!(patches.len(), 3);
    assert!(matches!(patches[0].action, PatchAction::Put { .. }));
    assert!(matches!(patches[1].action, PatchAction::DeleteMap { .. }));
    assert!(matches!(patches[2].action, PatchAction::Increment { .. }));
}

#[test]
fn path_fidelity_length_and_retagging() {
    let path = vec![
        NativeSegment { obj: obj(1), prop: NativeProp::Key("items".to_string()) },
        NativeSegment { obj: obj(2), prop: NativeProp::Index(4) },
        NativeSegment { obj: obj(3), prop: NativeProp::Key("inner".to_string()) },
    ];
    let e = event(obj(4), path, NativeAction::DeleteMap { key: "x".to_string() });
    let p = Patch::from_event(&e).unwrap();
    assert_eq!(p.path.len(), 3);
    assert_eq!(
        p.path[0],
        PathElement {
            obj: ObjectId { bytes: obj(1) },
            prop: DocProp::Key { value: "items".to_string() },
        }
    );
    assert_eq!(
        p.path[1],
        PathElement { obj: ObjectId { bytes: obj(2) }, prop: DocProp::Index { value: 4 } }
    );
    assert_eq!(
        p.path[2],
        PathElement {
            obj: ObjectId { bytes: obj(3) },
            prop: DocProp::Key { value: "inner".to_string() },
        }
    );
}

#[test]
fn scalar_round_trip_every_variant() {
    let natives = vec![
        NativeScalar::Bytes(vec![1, 2, 3]),
        NativeScalar::Str("hi".to_string()),
        NativeScalar::Int(-42),
        NativeScalar::Uint(42),
        NativeScalar::F64Bits(0x400921FB54442D18),
        NativeScalar::Counter(-5),
        NativeScalar::Timestamp(1700000000),
        NativeScalar::Boolean(true),
        NativeScalar::Unknown { type_code: 9, bytes: vec![0xFF] },
        NativeScalar::Null,
    ];
    for n in natives {
        let public = Scalar::from_native(&n);
        let back = public.to_native();
        assert_eq!(back, n);
    }
}

#[test]
fn counter_increment_value_unchanged() {
    let e = event(obj(1), vec![], NativeAction::Increment {
        prop: NativeProp::Key("clicks".to_string()),
        value: -5,
    });
    let p = Patch::from_event(&e).unwrap();
    assert_eq!(
        p.action,
        PatchAction::Increment {
            obj: ObjectId { bytes: obj(1) },
            prop: DocProp::Key { value: "clicks".to_string() },
            value: -5,
        }
    );
}

#[test]
fn zero_length_mark_accepted_and_distinct() {
    let zero = event(obj(1), vec![], NativeAction::Mark {
        name: "bold".to_string(),
        start: 5,
        end: 5,
        value: NativeScalar::Boolean(true),
    });
    let nonzero = event(obj(1), vec![], NativeAction::Mark {
        name: "bold".to_string(),
        start: 5,
        end: 6,
        value: NativeScalar::Boolean(true),
    });
    let pz = Patch::from_event(&zero).unwrap();
    let pn = Patch::from_event(&nonzero).unwrap();
    match &pz.action {
        PatchAction::Mark { start, end, .. } => {
            assert_eq!(*start, 5);
            assert_eq!(*end, 5);
        }
        other => panic!("expected a mark, got {:?}", other),
    }
    assert_ne!(pz, pn);
}

#[test]
fn unmark_keeps_range() {
    let e = event(obj(1), vec![], NativeAction::Unmark {
        name: "bold".to_string(),
        start: 2,
        end: 9,
    });
    let p = Patch::from_event(&e).unwrap();
    assert_eq!(
        p.action,
        PatchAction::Unmark {
            obj: ObjectId { bytes: obj(1) },
            name: "bold".to_string(),
            start: 2,
            end: 9,
        }
    );
}

#[test]
fn negative_fields_are_fatal() {
    let cases = vec![
        (
            NativeAction::PutSeq {
                index: -1,
                value: NativeValue::Scalar(NativeScalar::Null),
            },
            TranslateError::NegativeIndex,
        ),
        (
            NativeAction::Insert { index: -3, values: vec![] },
            TranslateError::NegativeIndex,
        ),
        (
            NativeAction::SpliceText { index: -1, text: "x".to_string() },
            TranslateError::NegativeIndex,
        ),
        (
            NativeAction::DeleteSeq { index: -1, length: 2 },
            TranslateError::NegativeIndex,
        ),
        (
            NativeAction::DeleteSeq { index: 0, length: -2 },
            TranslateError::NegativeLength,
        ),
        (
            NativeAction::Mark {
                name: "bold".to_string(),
                start: -1,
                end: 4,
                value: NativeScalar::Boolean(true),
            },
            TranslateError::NegativeRange,
        ),
        (
            NativeAction::Unmark { name: "bold".to_string(), start: 0, end: -4 },
            TranslateError::NegativeRange,
        ),
    ];
    for (action, expected) in cases {
        let e = event(obj(1), vec![], action);
        assert_eq!(Patch::from_event(&e), Err(expected));
    }
}

#[test]
fn inverted_mark_range_is_fatal() {
    let e = event(obj(1), vec![], NativeAction::Mark {
        name: "bold".to_string(),
        start: 6,
        end: 5,
        value: NativeScalar::Boolean(true),
    });
    assert_eq!(Patch::from_event(&e), Err(TranslateError::InvertedRange));
    let u = event(obj(1), vec![], NativeAction::Unmark {
        name: "bold".to_string(),
        start: 6,
        end: 5,
    });
    assert_eq!(Patch::from_event(&u), Err(TranslateError::InvertedRange));
}

#[test]
fn first_violation_aborts_whole_sequence() {
    let events = vec![
        event(obj(1), vec![], NativeAction::DeleteMap { key: "a".to_string() }),
        event(obj(2), vec![], NativeAction::DeleteSeq { index: 0, length: -1 }),
        event(obj(3), vec![], NativeAction::PutSeq {
            index: -9,
            value: NativeValue::Scalar(NativeScalar::Null),
        }),
    ];
    assert_eq!(translate_events(&events), Err(TranslateError::NegativeLength));
}

#[test]
fn object_values_carry_their_id() {
    let e = event(obj(1), vec![], NativeAction::PutMap {
        key: "child".to_string(),
        value: NativeValue::Object(obj(9)),
    });
    let p = Patch::from_event(&e).unwrap();
    assert_eq!(
        p.action,
        PatchAction::Put {
            obj: ObjectId { bytes: obj(1) },
            prop: DocProp::Key { value: "child".to_string() },
            value: Value::Object(ObjectId { bytes: obj(9) }),
        }
    );
}

#[test]
fn observer_accrues_in_order_and_drains_once() {
    let mut o = Observer::new();
    assert_eq!(o.len(), 0);
    o.record(event(obj(1), vec![], NativeAction::DeleteMap { key: "a".to_string() }));
    o.record(event(obj(2), vec![], NativeAction::DeleteMap { key: "b".to_string() }));
    assert_eq!(o.len(), 2);
    let patches = o.take_patches().unwrap();
    assert_eq!(patches.len(), 2);
    assert_eq!(o.len(), 0);
    let again = o.take_patches().unwrap();
    assert_eq!(again.len(), 0);
}

#[test]
fn observer_discard_produces_nothing() {
    let mut o = Observer::new();
    o.record(event(obj(1), vec![], NativeAction::DeleteMap { key: "a".to_string() }));
    o.discard();
    assert_eq!(o.len(), 0);
    let patches = o.take_patches().unwrap();
    assert!(patches.is_empty());
}

#[test]
fn observer_aborted_translation_still_empties() {
    let mut o = Observer::new();
    o.record(event(obj(1), vec![], NativeAction::DeleteSeq { index: -1, length: 0 }));
    assert_eq!(o.take_patches(), Err(TranslateError::NegativeIndex));
    assert_eq!(o.len(), 0);
}
