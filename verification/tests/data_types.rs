use std::rc::Rc;

use interpreter2::data_types::types_def::{
    WfStandardType, WfStandardTypeInner, WfTypeGeneric, WfTypedListType,
};
use interpreter2::data_types::{
    FunctionCallOrType, ImplementationByKind, MaybeEvaluated, WfArgumentReference, WfBoolean,
    WfData, WfDataType, WfFunction, WfFunctionCall, WfFunctionInner, WfImplementation,
    WfImplementationInner, WfString, WfTypedList,
};
use interpreter2::{EvalErrorKind, ExecutionContext, GlobalContext, KeyIndex, Zid};

fn zid(z: u32) -> Zid {
    Zid::from_u32s_panic(Some(z), None)
}

fn keyindex(z: u32, k: u32) -> KeyIndex {
    KeyIndex::from_u32s_panic(Some(z), Some(k))
}

fn boolean_type() -> WfTypeGeneric {
    WfTypeGeneric::WfStandardType(WfStandardType::from(WfStandardTypeInner {
        identity_ref: zid(40),
        keys: WfData::unvalid(EvalErrorKind::TestData),
        validator: WfData::unvalid(EvalErrorKind::TestData),
        equality: None,
        display_function: None,
        reading_function: None,
        type_converters_to_code: None,
        type_converters_from_code: None,
    }))
}

/// The builtin `id` as the store holds it: a function of `arity` arguments
/// with one builtin implementation.
fn builtin_function(id: u32, arity: usize) -> WfData {
    let implementation = WfData::WfImplementation(WfImplementation(Rc::new(
        WfImplementationInner {
            function: WfData::new_reference(zid(id)),
            kind: ImplementationByKind::Builtin(WfData::new_reference(zid(id))),
        },
    )));
    let mut arguments = Vec::new();
    for _ in 0..arity {
        arguments.push(WfData::unvalid(EvalErrorKind::TestData));
    }
    WfData::WfFunction(WfFunction(Rc::new(WfFunctionInner {
        arguments: WfTypedList::new(
            MaybeEvaluated::Unchecked(WfData::new_reference(zid(17))),
            arguments,
        ),
        return_type: boolean_type(),
        testers: WfData::unvalid(EvalErrorKind::TestData),
        implementations: WfTypedList::new(
            MaybeEvaluated::Unchecked(WfData::new_reference(zid(14))),
            vec![implementation],
        ),
        identity: zid(id),
    })))
}

fn context_with_builtins() -> ExecutionContext {
    let mut global_context = GlobalContext::default_for_test();
    global_context.insert(zid(844), builtin_function(844, 2));
    ExecutionContext::default_for_global(Rc::new(global_context))
}

fn get_unparsed_boolean_equality_true_false() -> Vec<(KeyIndex, WfData)> {
    vec![
        (keyindex(1, 1), WfData::new_reference(zid(7))),
        (keyindex(7, 1), WfData::new_reference(zid(844))),
        // boolean equality function
        (keyindex(844, 1), WfBoolean::new(false).into_wf_data()),
        (keyindex(844, 2), WfBoolean::new(true).into_wf_data()),
    ]
}

#[test]
fn test_get_list_key() {
    let global_context = GlobalContext::default_for_test();
    let context = ExecutionContext::default_for_global(Rc::new(global_context));
    let boolean_type = WfData::new_reference(zid(40)).evaluate(&context).unwrap();
    let boolean_type_clone = boolean_type.clone();
    let test_typed_list_typed =
        WfTypedListType::new(WfTypeGeneric::parse(boolean_type, &context).unwrap());
    assert!(test_typed_list_typed.list_keys().contains(&keyindex(7, 1)));
    assert!(test_typed_list_typed
        .list_keys()
        .contains(&keyindex(881, 1)));
    assert!(test_typed_list_typed
        .get_key(keyindex(881, 1))
        .unwrap()
        .into_wf_data()
        .equality(boolean_type_clone, &context)
        .unwrap());
    assert!(test_typed_list_typed
        .get_key(keyindex(1, 1))
        .unwrap()
        .into_wf_data()
        .equality(WfData::new_reference(zid(7)), &context)
        .unwrap());
}

#[test]
fn wf_typed_list_type_test_parse() {
    let global_context = GlobalContext::default_for_test();
    let context = ExecutionContext::default_for_global(Rc::new(global_context));
    let type_def = WfData::from_map(vec![
        (keyindex(1, 1), WfData::new_reference(zid(7))),
        (keyindex(7, 1), WfData::new_reference(zid(881))),
        (keyindex(881, 1), WfData::new_reference(zid(40))),
    ]);

    let parsed = WfTypedListType::parse(type_def.clone(), &context).unwrap();
    assert_eq!(
        (*parsed.element_type)
            .clone()
            .into_wf_data()
            .get_identity_zid(&context, keyindex(4, 1))
            .unwrap(),
        zid(40)
    );

    let evaluated = type_def.clone().evaluate(&context).unwrap();

    assert!(evaluated.equality(type_def, &context).unwrap())
}

#[test]
fn wf_argument_reference_test_parse() {
    let global_context = GlobalContext::default_for_test();
    let context = ExecutionContext::default_for_global(Rc::new(global_context));

    let unparsed_data = WfData::from_map(vec![
        (keyindex(1, 1), WfData::new_reference(zid(18))),
        (keyindex(18, 1), WfString::new("Z881K1").into_wf_data()),
    ]);

    assert_eq!(
        WfArgumentReference::parse(unparsed_data, &context).unwrap(),
        WfArgumentReference {
            key_id: keyindex(881, 1)
        }
    )
}

#[test]
fn wf_boolean_test_parse() {
    let global_context = Rc::new(GlobalContext::default_for_test());
    let context = ExecutionContext::default_for_global(global_context);

    // simple case, direct reference: Z42 is the identity of false
    let boolean_construct = WfData::from_map(vec![
        (keyindex(1, 1), WfData::new_reference(zid(40))),
        (keyindex(40, 1), WfData::new_reference(zid(42))),
    ]);
    assert_eq!(
        WfBoolean::parse(boolean_construct, &context).unwrap(),
        WfBoolean::new(false)
    );

    // simple case, reference
    assert_eq!(
        WfBoolean::parse(
            WfData::new_reference(zid(41)).evaluate(&context).unwrap(),
            &context
        )
        .unwrap(),
        WfBoolean::new(true)
    );

    // test simple failure
    let incorrect_boolean = WfData::from_map(vec![
        (keyindex(1, 1), WfData::new_reference(zid(40))),
        (keyindex(40, 1), WfData::new_reference(zid(39))),
    ]);
    WfBoolean::parse(incorrect_boolean, &context).unwrap_err();
}

#[test]
fn test_equality() {
    let global_context = Rc::new(GlobalContext::default_for_test());
    let context = ExecutionContext::default_for_global(global_context);

    // test fast equality. Those object are invalid, and will fail if evaluated, but it won't need to.
    let test1_data = WfData::from_map(vec![]);
    let test1_data_clone = test1_data.clone();
    assert!(test1_data.equality(test1_data_clone, &context).unwrap());

    // test can spot different boolean
    let test2_first_true = WfBoolean::new(true).into_wf_data();
    let test2_second_false = WfBoolean::new(false).into_wf_data();
    assert!(!test2_first_true
        .equality(test2_second_false, &context)
        .unwrap());
}

#[test]
fn test_parse_function() {
    let mut global_context = GlobalContext::default_for_test();

    let unv = WfData::unvalid(EvalErrorKind::TestData);
    let function_unparsed = WfData::from_map(vec![
        (keyindex(1, 1), WfData::new_reference(zid(8))),
        (
            keyindex(8, 1),
            WfTypedList::new(
                MaybeEvaluated::Unchecked(WfData::new_reference(zid(3))),
                Vec::new(),
            )
            .into_wf_data(),
        ),
        (keyindex(8, 2), WfData::new_reference(zid(40))),
        (keyindex(8, 3), unv.clone()),
        (
            keyindex(8, 4),
            WfTypedList::new(
                MaybeEvaluated::Unchecked(WfData::new_reference(zid(14))),
                Vec::new(),
            )
            .into_wf_data(),
        ),
        (keyindex(8, 5), WfData::new_reference(zid(u32::MAX))),
    ]);
    global_context.add_direct_no_persistent_data(zid(u32::MAX), function_unparsed.clone());
    // need to be here for recursive identity lookup.
    // the types of the two lists are objects that the lists refer to
    global_context.add_direct_no_persistent_data(zid(3), boolean_type().into_wf_data());
    global_context.add_direct_no_persistent_data(zid(14), boolean_type().into_wf_data());

    let context = ExecutionContext::default_for_global(Rc::new(global_context));

    let function = WfFunction::parse(function_unparsed.clone(), &context).unwrap();

    assert_eq!(function.0.return_type.get_type_zid().unwrap(), zid(40));
    assert_eq!(function.0.testers, unv.clone());
    assert_eq!(function.0.identity, zid(u32::MAX));
}

#[test]
fn test_parse_function_call() {
    let context = context_with_builtins();

    let unparsed_tree = get_unparsed_boolean_equality_true_false();
    let unparsed = WfData::from_map(unparsed_tree.clone());

    let parsed = WfFunctionCall::parse(unparsed.clone(), &context).unwrap();
    let parsed = if let FunctionCallOrType::FunctionCall(fc) = parsed {
        fc
    } else {
        panic!();
    };

    assert_eq!(parsed.0.args.len(), 2);
    assert_eq!(
        parsed.0.args,
        vec![
            WfBoolean::new(false).into_wf_data(),
            WfBoolean::new(true).into_wf_data()
        ]
    );
    assert!(parsed
        .0
        .function
        .clone()
        .into_wf_data()
        .equality(WfData::new_reference(zid(844)), &context)
        .unwrap());

    let mut invalid_unparsed = unparsed_tree;
    invalid_unparsed.retain(|(k, _)| *k != keyindex(844, 1));
    WfData::from_map(invalid_unparsed)
        .evaluate(&context)
        .unwrap_err();
}

#[test]
fn test_evaluate_builtin_function() {
    let context = context_with_builtins();

    let unparsed_tree = get_unparsed_boolean_equality_true_false();
    let unparsed = WfData::from_map(unparsed_tree.clone());
    let evaluated = unparsed.evaluate(&context).unwrap();
    assert_eq!(evaluated, WfBoolean::new(false).into_wf_data());
}
