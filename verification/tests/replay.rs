use std::rc::Rc;

use interpreter2::data_types::types_def::{WfStandardType, WfStandardTypeInner, WfTypeGeneric};
use interpreter2::data_types::{
    ImplementationByKind, MaybeEvaluated, WfBoolean, WfData, WfDataType, WfFunction,
    WfFunctionInner, WfImplementation, WfImplementationInner, WfTypedList,
};
use interpreter2::replay::{generate_replay, FullTraceEntry};
use interpreter2::{
    EvalError, EvalErrorKind, ExecutionContext, GlobalContext, KeyIndex, TraceEntry, Zid,
};

fn object(z: u32) -> Zid {
    Zid::from_u32s_panic(Some(z), None)
}

fn key(z: u32, k: u32) -> KeyIndex {
    KeyIndex::from_u32s_panic(Some(z), Some(k))
}

fn equality_builtin() -> WfData {
    let implementation = WfData::WfImplementation(WfImplementation(Rc::new(
        WfImplementationInner {
            function: WfData::new_reference(object(844)),
            kind: ImplementationByKind::Builtin(WfData::new_reference(object(844))),
        },
    )));
    let boolean = WfTypeGeneric::WfStandardType(WfStandardType::from(WfStandardTypeInner {
        identity_ref: object(40),
        keys: WfData::unvalid(EvalErrorKind::TestData),
        validator: WfData::unvalid(EvalErrorKind::TestData),
        equality: None,
        display_function: None,
        reading_function: None,
        type_converters_to_code: None,
        type_converters_from_code: None,
    }));
    WfData::WfFunction(WfFunction(Rc::new(WfFunctionInner {
        arguments: WfTypedList::new(
            MaybeEvaluated::Unchecked(WfData::new_reference(object(17))),
            vec![
                WfData::unvalid(EvalErrorKind::TestData),
                WfData::unvalid(EvalErrorKind::TestData),
            ],
        ),
        return_type: boolean,
        testers: WfData::unvalid(EvalErrorKind::TestData),
        implementations: WfTypedList::new(
            MaybeEvaluated::Unchecked(WfData::new_reference(object(14))),
            vec![implementation],
        ),
        identity: object(844),
    })))
}

fn replay_context() -> ExecutionContext {
    let mut global_context = GlobalContext::default_for_test();
    global_context.insert(object(844), equality_builtin());
    ExecutionContext::default_for_global(Rc::new(global_context))
}

#[test]
fn test_simple_replay() {
    let context = replay_context();

    let function_map = vec![
        (key(1, 1), WfData::new_reference(object(7))),
        (key(7, 1), WfData::new_reference(object(844))),
        // boolean equality function
        (
            key(844, 1),
            WfData::from_map(vec![
                (key(1, 1), WfData::new_reference(object(7))),
                (key(7, 1), WfData::new_reference(object(844))),
                (key(844, 1), WfData::unvalid(EvalErrorKind::TestData)),
                (key(844, 2), WfBoolean::new(true).into_wf_data()),
            ]),
        ),
        (key(844, 2), WfBoolean::new(true).into_wf_data()),
    ];

    let unparsed = WfData::from_map(function_map);
    let err = unparsed.clone().evaluate(&context).unwrap_err();
    assert_eq!(err.0.get_kind(), &EvalErrorKind::TestData);
    assert_eq!(
        err.0.get_trace(),
        &vec![
            TraceEntry::InsideKey(key(844, 1)),
            TraceEntry::ProcessingNonCompositionFunction(object(844)),
            TraceEntry::InsideKey(key(844, 1)),
            TraceEntry::ProcessingNonCompositionFunction(object(844)),
        ]
    );

    let replay_result = generate_replay(unparsed.clone(), &context, &err.0);
    assert_eq!(replay_result.root, WfData::unvalid(EvalErrorKind::TestData));
    assert!(replay_result.complete);
    assert_eq!(replay_result.full_trace.len(), err.0.get_trace().len());
}

#[test]
fn replay_locates_the_bad_key() {
    let context = replay_context();
    let record = WfData::from_map(vec![
        (key(1, 1), WfData::new_reference(object(7))),
        (key(7, 1), WfData::new_reference(object(844))),
        (key(844, 1), WfData::unvalid(EvalErrorKind::TestData)),
        (key(844, 2), WfBoolean::new(true).into_wf_data()),
    ]);
    let err = record.clone().evaluate(&context).unwrap_err();
    assert_eq!(err.0.get_kind(), &EvalErrorKind::TestData);
    assert_eq!(
        err.0.get_trace(),
        &vec![
            TraceEntry::InsideKey(key(844, 1)),
            TraceEntry::ProcessingNonCompositionFunction(object(844)),
        ]
    );
    let replay_result = generate_replay(record, &context, &err.0);
    assert_eq!(replay_result.root, WfData::unvalid(EvalErrorKind::TestData));
    assert_eq!(replay_result.full_trace.len(), 2);
    assert!(matches!(
        replay_result.full_trace[0],
        FullTraceEntry::ProcessingNonCompositionFunction(_)
    ));
    assert_eq!(
        replay_result.full_trace[0].get_action_text(),
        "Inside non-composition implementation for function Z844"
    );
    assert!(replay_result.full_trace[0].get_result().is_none());
    assert_eq!(replay_result.full_trace[1].get_action_text(), "inside Z844K1");
    assert_eq!(
        replay_result.full_trace[1].get_result(),
        Some(&WfData::unvalid(EvalErrorKind::TestData))
    );
    // the value at the end of the walk fails as the whole did
    let again = replay_result.root.clone().evaluate(&context).unwrap_err();
    assert_eq!(again.0.get_kind(), &EvalErrorKind::TestData);
    assert_eq!(
        replay_result.pretty_trace(),
        "Inside non-composition implementation for function Z844 -> None\n\
         inside Z844K1 -> placeholder\n\
         root error data structure:\n\
         placeholder\n"
    );
}

#[test]
fn replay_follows_pointers() {
    let mut global_context = GlobalContext::default_for_test();
    global_context.insert(object(500), WfData::new_reference(object(501)));
    global_context.insert(object(501), WfData::new_reference(object(502)));
    let context = ExecutionContext::default_for_global(Rc::new(global_context));
    let start = WfData::new_reference(object(500));
    let err = start.clone().evaluate(&context).unwrap_err();
    assert_eq!(
        err.0.get_kind(),
        &EvalErrorKind::MissingPersistentObject(object(502))
    );
    assert_eq!(
        err.0.get_trace(),
        &vec![
            TraceEntry::InsideReference(object(501)),
            TraceEntry::InsideReference(object(500)),
        ]
    );
    assert_eq!(err.1, start);
    let replay_result = generate_replay(start, &context, &err.0);
    assert_eq!(replay_result.root, WfData::new_reference(object(502)));
    assert_eq!(replay_result.full_trace.len(), 2);
    assert_eq!(
        replay_result.full_trace[0].get_action_text(),
        "follow reference to Z500"
    );
    let again = replay_result.root.clone().evaluate(&context).unwrap_err();
    assert_eq!(again.0.get_kind(), err.0.get_kind());
    assert!(again.0.get_trace().is_empty());
    assert_eq!(
        replay_result.pretty_trace(),
        "follow reference to Z500 -> reference to Z501\n\
         follow reference to Z501 -> reference to Z502\n\
         root error data structure:\n\
         reference to Z502\n"
    );
}

#[test]
fn replay_stops_where_a_step_does_not_fit() {
    let context = replay_context();
    let value = WfBoolean::new(true).into_wf_data();
    let error = EvalError::from_kind(EvalErrorKind::TestData)
        .inside_key(key(844, 1))
        .trace_str("a note")
        .inside_list(3)
        .inside_key(key(40, 1));
    // outermost first: Z40K1 fits, the list step does not
    let replay_result = generate_replay(value, &context, &error);
    assert!(!replay_result.complete);
    assert_eq!(replay_result.full_trace.len(), 1);
    assert_eq!(replay_result.root, WfData::new_reference(object(41)));
    // a note is passed over
    let noted = EvalError::from_kind(EvalErrorKind::TestData)
        .inside_key(key(1, 1))
        .trace_str("a note");
    let replay_result = generate_replay(WfBoolean::new(false).into_wf_data(), &context, &noted);
    assert!(replay_result.complete);
    assert_eq!(replay_result.full_trace.len(), 1);
    assert_eq!(replay_result.root, WfData::new_reference(object(40)));
    // a step into a list
    let list = WfTypedList::new(
        MaybeEvaluated::Unchecked(WfData::new_reference(object(40))),
        vec![
            WfBoolean::new(true).into_wf_data(),
            WfBoolean::new(false).into_wf_data(),
        ],
    )
    .into_wf_data();
    let inside = EvalError::from_kind(EvalErrorKind::TestData).inside_list(1);
    let replay_result = generate_replay(list, &context, &inside);
    assert_eq!(replay_result.root, WfBoolean::new(false).into_wf_data());
    assert_eq!(
        replay_result.full_trace[0].get_action_text(),
        "inside list, at 0-indexed position 1"
    );
}

#[test]
fn values_in_a_few_words() {
    let context = replay_context();
    assert_eq!(WfBoolean::new(true).into_wf_data().describe(), "true");
    assert_eq!(WfBoolean::new(false).into_wf_data().describe(), "false");
    assert_eq!(WfData::new_reference(object(12)).describe(), "reference to Z12");
    assert_eq!(
        interpreter2::data_types::WfString::new("some text").into_wf_data().describe(),
        "string \"some text\""
    );
    assert_eq!(WfData::from_map(vec![]).describe(), "record of 0 entries");
    let record = WfData::from_map(vec![
        (key(1, 1), WfData::new_reference(object(7))),
        (key(7, 1), WfData::new_reference(object(844))),
        (key(844, 1), WfBoolean::new(true).into_wf_data()),
        (key(844, 2), WfBoolean::new(true).into_wf_data()),
    ]);
    assert_eq!(record.describe(), "record of 4 entries");
    assert_eq!(WfData::unvalid(EvalErrorKind::TestData).describe(), "placeholder");
    assert_eq!(equality_builtin().describe(), "function Z844");
    assert_eq!(
        equality_builtin().get_key(key(8, 4)).unwrap().describe(),
        "list of 1 entries"
    );
    assert_eq!(
        equality_builtin()
            .get_key(key(8, 4))
            .unwrap()
            .get_key(KeyIndex::from_u32s_panic(None, Some(1)))
            .unwrap()
            .describe(),
        "builtin implementation"
    );
    assert_eq!(equality_builtin().get_key(key(8, 2)).unwrap().describe(), "type Z40");
    let parsed = match interpreter2::data_types::WfFunctionCall::parse(record, &context).unwrap() {
        interpreter2::data_types::FunctionCallOrType::FunctionCall(c) => c.into_wf_data(),
        interpreter2::data_types::FunctionCallOrType::Type(_) => panic!(),
    };
    assert_eq!(parsed.describe(), "call of Z844 with 2 arguments");
    let checking = FullTraceEntry::CheckingTestCaseResult(
        WfBoolean::new(false).into_wf_data(),
        parsed.clone(),
    );
    assert_eq!(
        checking.get_action_text(),
        "Checking result with validator (result is false)"
    );
    assert_eq!(checking.get_result(), Some(&parsed));
    assert_eq!(
        FullTraceEntry::AfterCompositionSubstitution(object(10000), parsed).get_action_text(),
        "after substitution for function Z10000"
    );
}
