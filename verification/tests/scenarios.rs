use std::rc::Rc;

use interpreter2::data_types::types_def::{
    WfStandardType, WfStandardTypeInner, WfTypeGeneric, WfTypedListType,
};
use interpreter2::data_types::{
    FunctionCallOrType, ImplementationByKind, MaybeEvaluated, WfArgumentReference, WfBoolean,
    WfData, WfDataType, WfFunction, WfFunctionCall, WfFunctionCallInner, WfFunctionInner,
    WfImplementation, WfImplementationInner, WfString, WfTestCase, WfTypedList, WfUntyped,
};
use interpreter2::functions::boolean::boolean_equality;
use interpreter2::functions::dispatch::{assert_args_count, dispatch_builtins};
use interpreter2::functions::list::{first_element, list_equality};
use interpreter2::functions::logic::if_function;
use interpreter2::functions::string::string_equality;
use interpreter2::{
    EvalError, EvalErrorKind, ExecutionContext, GlobalContext, KeyIndex, KeyIndexParseError,
    TraceEntry, Zid,
};

fn z(n: u32) -> Zid {
    Zid::from_u32s_panic(Some(n), None)
}

fn k(obj: u32, key: u32) -> KeyIndex {
    KeyIndex::from_u32s_panic(Some(obj), Some(key))
}

fn positional(key: u32) -> KeyIndex {
    KeyIndex::from_u32s_panic(None, Some(key))
}

fn reference(n: u32) -> WfData {
    WfData::new_reference(z(n))
}

fn truth(value: bool) -> WfData {
    WfBoolean::new(value).into_wf_data()
}

fn string(text: &str) -> WfData {
    WfString::new(text).into_wf_data()
}

fn placeholder() -> WfData {
    WfData::unvalid(EvalErrorKind::TestData)
}

fn standard_type(id: u32) -> WfTypeGeneric {
    WfTypeGeneric::WfStandardType(WfStandardType::from(WfStandardTypeInner {
        identity_ref: z(id),
        keys: placeholder(),
        validator: placeholder(),
        equality: None,
        display_function: None,
        reading_function: None,
        type_converters_to_code: None,
        type_converters_from_code: None,
    }))
}

fn implementation(function: u32, kind: ImplementationByKind) -> WfData {
    WfData::WfImplementation(WfImplementation(Rc::new(WfImplementationInner {
        function: reference(function),
        kind,
    })))
}

fn function_with(id: u32, arity: usize, implementations: Vec<WfData>) -> WfData {
    let mut arguments = Vec::new();
    for _ in 0..arity {
        arguments.push(placeholder());
    }
    WfData::WfFunction(WfFunction(Rc::new(WfFunctionInner {
        arguments: WfTypedList::new(MaybeEvaluated::Unchecked(reference(17)), arguments),
        return_type: standard_type(1),
        testers: placeholder(),
        implementations: WfTypedList::new(MaybeEvaluated::Unchecked(reference(14)), implementations),
        identity: z(id),
    })))
}

fn builtin(id: u32, arity: usize) -> WfData {
    function_with(
        id,
        arity,
        vec![implementation(id, ImplementationByKind::Builtin(reference(id)))],
    )
}

fn call(function: u32, args: Vec<WfData>) -> WfData {
    let mut entries = vec![(k(1, 1), reference(7)), (k(7, 1), reference(function))];
    for (i, arg) in args.into_iter().enumerate() {
        entries.push((k(function, i as u32 + 1), arg));
    }
    WfData::from_map(entries)
}

fn boolean_list(values: Vec<bool>) -> WfData {
    WfTypedList::new(
        MaybeEvaluated::Unchecked(reference(40)),
        values.into_iter().map(truth).collect(),
    )
    .into_wf_data()
}

fn store() -> GlobalContext {
    let mut global = GlobalContext::default_for_test();
    global.insert(z(6), standard_type(6).into_wf_data());
    global.insert(z(802), builtin(802, 3));
    global.insert(z(811), builtin(811, 1));
    global.insert(z(844), builtin(844, 2));
    global.insert(z(866), builtin(866, 2));
    global.insert(z(889), builtin(889, 3));
    global
}

fn context() -> ExecutionContext {
    ExecutionContext::default_for_global(Rc::new(store()))
}

fn kind_of(result: Result<WfData, (EvalError, WfData)>) -> EvalErrorKind {
    result.unwrap_err().0.get_kind().clone()
}

// ------------------------------------------------------------------
// scenarios
// ------------------------------------------------------------------
#[test]
fn boolean_equality_direct() {
    let context = context();
    assert_eq!(
        call(844, vec![truth(false), truth(true)]).evaluate(&context).unwrap(),
        truth(false)
    );
    assert_eq!(
        call(844, vec![truth(true), truth(true)]).evaluate(&context).unwrap(),
        truth(true)
    );
    assert_eq!(
        call(844, vec![truth(false), truth(false)]).evaluate(&context).unwrap(),
        truth(true)
    );
}

#[test]
fn boolean_equality_via_identity_constants() {
    let context = context();
    assert_eq!(
        call(844, vec![reference(41), reference(41)]).evaluate(&context).unwrap(),
        truth(true)
    );
    assert_eq!(
        call(844, vec![reference(41), reference(42)]).evaluate(&context).unwrap(),
        truth(false)
    );
}

#[test]
fn if_function_selects_a_branch() {
    let context = context();
    assert_eq!(
        call(802, vec![truth(true), string("yes"), string("no")])
            .evaluate(&context)
            .unwrap(),
        string("yes")
    );
    assert_eq!(
        call(802, vec![truth(false), string("yes"), string("no")])
            .evaluate(&context)
            .unwrap(),
        string("no")
    );
    // the branch is returned as it is: nothing is evaluated here
    assert_eq!(
        if_function(WfBoolean::new(true), string("yes"), placeholder()),
        string("yes")
    );
    assert_eq!(
        if_function(WfBoolean::new(false), string("yes"), placeholder()),
        placeholder()
    );
    assert_eq!(
        if_function(WfBoolean::new(true), reference(41), string("no")),
        reference(41)
    );
    // in a call the arguments are evaluated before the builtin sees them
    assert_eq!(
        call(802, vec![reference(41), reference(42), string("no")])
            .evaluate(&context)
            .unwrap(),
        truth(false)
    );
    let failed = call(802, vec![truth(true), string("yes"), placeholder()])
        .evaluate(&context)
        .unwrap_err();
    assert_eq!(failed.0.get_kind(), &EvalErrorKind::TestData);
    assert_eq!(
        failed.0.get_trace(),
        &vec![
            TraceEntry::InsideKey(k(802, 3)),
            TraceEntry::ProcessingNonCompositionFunction(z(802)),
        ]
    );
}

#[test]
fn list_head_typed() {
    let context = context();
    assert_eq!(
        call(811, vec![boolean_list(vec![true, false])])
            .evaluate(&context)
            .unwrap(),
        truth(true)
    );
    let empty = call(811, vec![boolean_list(vec![])]).evaluate(&context).unwrap_err();
    assert_eq!(empty.0.get_kind(), &EvalErrorKind::CantGetHeadOfEmptyList);
    assert_eq!(
        empty.0.get_trace(),
        &vec![TraceEntry::ProcessingNonCompositionFunction(z(811))]
    );
    // an entry of another type than the list promises
    let mixed = WfTypedList::new(
        MaybeEvaluated::Unchecked(reference(40)),
        vec![string("text")],
    )
    .into_wf_data();
    assert_eq!(
        kind_of(call(811, vec![mixed]).evaluate(&context)),
        EvalErrorKind::TypeDoesNotMatch
    );
}

#[test]
fn list_equality_elementwise() {
    let context = context();
    let same = call(
        889,
        vec![
            boolean_list(vec![true, false]),
            boolean_list(vec![true, false]),
            reference(844),
        ],
    );
    assert_eq!(same.evaluate(&context).unwrap(), truth(true));
    let changed = call(
        889,
        vec![
            boolean_list(vec![true, false]),
            boolean_list(vec![true, true]),
            reference(844),
        ],
    );
    assert_eq!(changed.evaluate(&context).unwrap(), truth(false));
    let empty = call(
        889,
        vec![boolean_list(vec![]), boolean_list(vec![]), reference(844)],
    );
    assert_eq!(empty.evaluate(&context).unwrap(), truth(true));
}

#[test]
fn list_equality_of_unequal_lengths_asks_no_function() {
    let mut global = store();
    // a function that cannot be called
    global.insert(z(900), function_with(900, 2, vec![]));
    let context = ExecutionContext::default_for_global(Rc::new(global));
    let unequal = call(
        889,
        vec![
            boolean_list(vec![true, false]),
            boolean_list(vec![true]),
            reference(900),
        ],
    );
    assert_eq!(unequal.evaluate(&context).unwrap(), truth(false));
    let equal_lengths = call(
        889,
        vec![
            boolean_list(vec![true]),
            boolean_list(vec![true]),
            reference(900),
        ],
    );
    assert_eq!(
        kind_of(equal_lengths.evaluate(&context)),
        EvalErrorKind::NoImplementationForFunction(z(900))
    );
}

fn test_case(call_value: WfData, validation: WfData) -> WfData {
    WfData::from_map(vec![
        (k(1, 1), reference(20)),
        (k(20, 1), reference(844)),
        (k(20, 2), call_value),
        (k(20, 3), validation),
    ])
}

#[test]
fn test_case_pass() {
    let mut global = store();
    let validation = WfData::from_map(vec![
        (k(1, 1), reference(7)),
        (k(7, 1), reference(844)),
        (k(844, 2), truth(true)),
    ]);
    global.insert(
        z(10200),
        test_case(call(844, vec![truth(false), truth(false)]), validation.clone()),
    );
    global.insert(
        z(10201),
        test_case(call(844, vec![truth(false), truth(true)]), validation),
    );
    let context = ExecutionContext::default_for_global(Rc::new(global));
    let passing = WfTestCase::parse(
        context.get_global().get_object_value(&z(10200)).unwrap(),
        &context,
    )
    .unwrap();
    assert_eq!(passing.clone().run_test(&context).unwrap(), ());
    // the first argument of the validation is the result of the call
    let patched = passing
        .get_validation_function_call_with_patched_first_input(truth(false), &context)
        .unwrap();
    assert_eq!(patched.0.args, vec![truth(false), truth(true)]);
    let failing = WfTestCase::parse(
        context.get_global().get_object_value(&z(10201)).unwrap(),
        &context,
    )
    .unwrap();
    let failure = failing.run_test(&context).unwrap_err();
    assert_eq!(
        failure.get_kind(),
        &EvalErrorKind::TestCaseFailedWithFalse(Box::new(truth(false)))
    );
    assert!(failure.get_trace().is_empty());
}

#[test]
fn test_case_overrides_a_given_first_argument() {
    let context = context();
    let validation = call(844, vec![truth(false), truth(true)]);
    let case = WfTestCase::parse(
        test_case(call(844, vec![truth(true), truth(true)]), validation),
        &context,
    )
    .unwrap();
    assert_eq!(case.run_test(&context).unwrap(), ());
    // a validation that is a type, not a call
    let list_type = WfData::from_map(vec![
        (k(1, 1), reference(7)),
        (k(7, 1), reference(881)),
        (k(881, 1), reference(40)),
    ]);
    let case = WfTestCase::parse(test_case(truth(true), list_type), &context).unwrap();
    assert_eq!(
        case.run_test(&context).unwrap_err().get_kind(),
        &EvalErrorKind::ExpectedFunctionCallGotType
    );
    // a call that fails, and a validation that fails
    let case = WfTestCase::parse(
        test_case(placeholder(), call(844, vec![truth(true), truth(true)])),
        &context,
    )
    .unwrap();
    let failure = case.run_test(&context).unwrap_err();
    assert_eq!(failure.get_kind(), &EvalErrorKind::TestData);
    assert_eq!(failure.get_trace(), &vec![TraceEntry::InsideKey(k(20, 2))]);
    let case = WfTestCase::parse(
        test_case(truth(true), call(844, vec![truth(true), placeholder()])),
        &context,
    )
    .unwrap();
    let failure = case.run_test(&context).unwrap_err();
    assert_eq!(failure.get_kind(), &EvalErrorKind::TestData);
    assert_eq!(
        failure.get_trace(),
        &vec![
            TraceEntry::InsideKey(k(844, 2)),
            TraceEntry::ProcessingNonCompositionFunction(z(844)),
            TraceEntry::CheckingTestCaseResult(truth(true)),
        ]
    );
}

fn self_calling_store() -> GlobalContext {
    let mut global = store();
    let body = WfData::from_map(vec![
        (k(1, 1), reference(7)),
        (k(7, 1), reference(10000)),
        (
            k(10000, 1),
            WfData::WfArgumentReference(WfArgumentReference {
                key_id: positional(1),
            }),
        ),
    ]);
    global.insert(
        z(10000),
        function_with(
            10000,
            1,
            vec![implementation(10000, ImplementationByKind::Composition(body))],
        ),
    );
    global
}

#[test]
fn recursion_guard() {
    let global = Rc::new(self_calling_store());
    for depth in [0usize, 1, 2, 7, 20] {
        let context = ExecutionContext::with_budgets(global.clone(), depth, 1_000);
        let failure = call(10000, vec![truth(true)]).evaluate(&context).unwrap_err();
        assert_eq!(failure.0.get_kind(), &EvalErrorKind::RecursedTooDeep);
        let reductions = failure
            .0
            .get_trace()
            .iter()
            .filter(|entry| matches!(entry, TraceEntry::Substituted(_)))
            .count();
        assert_eq!(reductions, depth);
    }
}

#[test]
fn recursion_guard_with_the_default_budget() {
    let context = ExecutionContext::default_for_global(Rc::new(self_calling_store()));
    let failure = call(10000, vec![truth(true)]).evaluate(&context).unwrap_err();
    assert_eq!(failure.0.get_kind(), &EvalErrorKind::RecursedTooDeep);
    let reductions = failure
        .0
        .get_trace()
        .iter()
        .filter(|entry| matches!(entry, TraceEntry::Substituted(_)))
        .count();
    assert_eq!(reductions, 100);
}

#[test]
fn step_budget() {
    let mut global = store();
    // an object that points to itself
    global.insert(z(5000), reference(5000));
    // the types of the lists that a function holds
    global.insert(z(14), standard_type(14).into_wf_data());
    global.insert(z(17), standard_type(17).into_wf_data());
    let global = Rc::new(global);
    let context = ExecutionContext::with_budgets(global.clone(), 100, 50);
    let failure = reference(5000).evaluate(&context).unwrap_err();
    assert_eq!(failure.0.get_kind(), &EvalErrorKind::StepBudgetExceeded);
    assert_eq!(failure.0.get_trace().len(), 50);
    // with no step left, what needs no step still works
    let none = ExecutionContext::with_budgets(global.clone(), 100, 0);
    assert_eq!(truth(true).evaluate(&none).unwrap(), truth(true));
    assert_eq!(
        kind_of(reference(41).evaluate(&none)),
        EvalErrorKind::StepBudgetExceeded
    );
    assert!(truth(true).equality(truth(true), &none).unwrap());
    // with the default budget an evaluation that does not end fails
    let default = ExecutionContext::default_for_global(global.clone());
    assert_eq!(
        kind_of(reference(5000).evaluate(&default)),
        EvalErrorKind::StepBudgetExceeded
    );
    // two functions are compared key by key, and each holds a pointer to itself
    assert_eq!(
        reference(844)
            .equality(reference(866), &default)
            .unwrap_err()
            .get_kind(),
        &EvalErrorKind::StepBudgetExceeded
    );
    // the self-calling function runs out of steps where the steps are few
    let few = ExecutionContext::with_budgets(Rc::new(self_calling_store()), 100, 30);
    assert_eq!(
        kind_of(call(10000, vec![truth(true)]).evaluate(&few)),
        EvalErrorKind::StepBudgetExceeded
    );
}

#[test]
fn budgets_are_scoped() {
    let context = context();
    let inner = context.step().unwrap();
    assert_eq!(inner.steps_left, context.steps_left - 1);
    assert_eq!(inner.depth_left, context.depth_left);
    let guard = context.check_can_run_function_and_acquire_guard().unwrap();
    assert_eq!(guard.get_context().depth_left, 99);
    assert_eq!(guard.get_context().steps_left, 999);
    assert_eq!(context.depth_left, 100);
    assert_eq!(context.steps_left, 1_000);
    let flat = ExecutionContext::with_budgets(Rc::new(store()), 0, 10);
    assert_eq!(
        flat.check_can_run_function_and_acquire_guard()
            .err()
            .unwrap()
            .get_kind(),
        &EvalErrorKind::RecursedTooDeep
    );
    let spent = ExecutionContext::with_budgets(Rc::new(store()), 10, 0);
    assert_eq!(
        spent
            .check_can_run_function_and_acquire_guard()
            .err()
            .unwrap()
            .get_kind(),
        &EvalErrorKind::StepBudgetExceeded
    );
    assert_eq!(
        spent.step().err().unwrap().get_kind(),
        &EvalErrorKind::StepBudgetExceeded
    );
}

// ------------------------------------------------------------------
// laws on chosen values
// ------------------------------------------------------------------
fn samples(context: &ExecutionContext) -> Vec<WfData> {
    let parsed_call = match WfFunctionCall::parse(call(844, vec![truth(true), truth(false)]), context)
        .unwrap()
    {
        FunctionCallOrType::FunctionCall(c) => c.into_wf_data(),
        FunctionCallOrType::Type(_) => panic!(),
    };
    vec![
        truth(true),
        truth(false),
        reference(41),
        string("text"),
        call(844, vec![truth(true), truth(false)]),
        WfData::from_map(vec![]),
        standard_type(40).into_wf_data(),
        WfTypedListType::new(standard_type(40)).into_wf_data(),
        placeholder(),
        builtin(844, 2),
        parsed_call,
        implementation(844, ImplementationByKind::Code(string("code"))),
        implementation(844, ImplementationByKind::Composition(string("body"))),
        WfData::WfArgumentReference(WfArgumentReference { key_id: positional(2) }),
        WfTestCase::parse(test_case(truth(true), call(844, vec![])), context)
            .unwrap()
            .into_wf_data(),
        boolean_list(vec![]),
        boolean_list(vec![true, false, true]),
        WfData::WfType(WfTypeGeneric::WfStandardType(WfStandardType::from(
            WfStandardTypeInner {
                identity_ref: z(77),
                keys: placeholder(),
                validator: placeholder(),
                equality: Some(reference(844)),
                display_function: None,
                reading_function: Some(string("r")),
                type_converters_to_code: None,
                type_converters_from_code: Some(string("c")),
            },
        ))),
    ]
}

#[test]
fn accessor_totality() {
    let context = context();
    let mut probes = vec![positional(1), positional(2), positional(3)];
    for object in [1u32, 4, 6, 7, 8, 9, 14, 18, 20, 40, 844, 881] {
        for key in 1u32..=9 {
            probes.push(k(object, key));
        }
    }
    for value in samples(&context) {
        let keys = value.list_keys();
        for key in keys.iter() {
            assert!(value.get_key(*key).is_some(), "{:?} lists {:?}", value, key);
            assert!(value.get_key_err(*key).is_ok());
        }
        for probe in probes.iter() {
            assert_eq!(
                value.get_key(*probe).is_some(),
                keys.contains(probe),
                "{:?} under {:?}",
                value,
                probe
            );
        }
        let missing = k(999, 9);
        assert_eq!(
            value.get_key_err(missing).unwrap_err().get_kind(),
            &EvalErrorKind::MissingKey(missing)
        );
    }
}

#[test]
fn accessors_of_each_shape() {
    let context = context();
    assert_eq!(truth(true).list_keys(), vec![k(1, 1), k(40, 1)]);
    assert_eq!(truth(true).get_key(k(1, 1)), Some(reference(40)));
    assert_eq!(truth(true).get_key(k(40, 1)), Some(reference(41)));
    assert_eq!(truth(false).get_key(k(40, 1)), Some(reference(42)));
    assert_eq!(string("a").list_keys(), vec![k(1, 1), k(6, 1)]);
    assert_eq!(string("a").get_key(k(1, 1)), Some(reference(6)));
    assert_eq!(string("a").get_key(k(6, 1)), Some(string("a")));
    assert_eq!(reference(12).list_keys(), vec![k(1, 1), k(9, 1)]);
    assert_eq!(reference(12).get_key(k(9, 1)), Some(string("Z12")));
    assert_eq!(placeholder().list_keys(), vec![]);
    let argument = WfData::WfArgumentReference(WfArgumentReference { key_id: positional(2) });
    assert_eq!(argument.get_key(k(1, 1)), Some(reference(18)));
    assert_eq!(argument.get_key(k(18, 1)), Some(string("K2")));
    let list = boolean_list(vec![true, false]);
    assert_eq!(list.list_keys(), vec![k(1, 1), positional(1), positional(2)]);
    assert_eq!(list.get_key(k(1, 1)), Some(reference(40)));
    assert_eq!(list.get_key(positional(1)), Some(truth(true)));
    assert_eq!(list.get_key(positional(2)), Some(boolean_list(vec![false])));
    assert_eq!(boolean_list(vec![]).list_keys(), vec![k(1, 1)]);
    let evaluated = list.evaluate(&context).unwrap();
    assert_eq!(
        evaluated.get_key(k(1, 1)),
        Some(WfTypedListType::new(WfTypeGeneric::parse(reference(40).evaluate(&context).unwrap(), &context).unwrap()).into_wf_data())
    );
    let code = implementation(844, ImplementationByKind::Code(string("code")));
    assert_eq!(code.list_keys(), vec![k(1, 1), k(14, 1), k(14, 3)]);
    assert_eq!(code.get_key(k(14, 3)), Some(string("code")));
    assert_eq!(code.get_key(k(14, 2)), None);
    let function = builtin(844, 2);
    assert_eq!(function.get_key(k(8, 5)), Some(reference(844)));
    assert_eq!(function.get_key(k(1, 1)), Some(reference(8)));
    let parsed = WfFunctionCall::parse(call(844, vec![truth(true), truth(false)]), &context).unwrap();
    let parsed = match parsed {
        FunctionCallOrType::FunctionCall(c) => c,
        FunctionCallOrType::Type(_) => panic!(),
    };
    assert_eq!(parsed.list_keys(), vec![k(1, 1), k(7, 1), k(844, 1), k(844, 2)]);
    assert_eq!(parsed.get_key(k(844, 2)), Some(truth(false)));
    assert_eq!(parsed.get_key(k(844, 3)), None);
    assert_eq!(parsed.get_key(k(7, 1)), Some(function));
    // final values
    assert!(truth(true).is_fully_realised());
    assert!(string("a").is_fully_realised());
    assert!(standard_type(40).into_wf_data().is_fully_realised());
    assert!(!reference(1).is_fully_realised());
    assert!(!WfData::from_map(vec![]).is_fully_realised());
    assert!(!parsed.is_fully_realised());
    assert!(!boolean_list(vec![]).is_fully_realised());
}

#[test]
fn identity_reflexivity() {
    let context = context();
    let mut with_identity = 0;
    for value in samples(&context) {
        if let Some(key) = value.get_identity_zid_key() {
            with_identity += 1;
            let own = value.get_identity_zid(&context, key).unwrap();
            assert_eq!(value.get_key(key), Some(WfData::new_reference(own)));
            let (target, _) = value.get_key(key).unwrap().get_reference(&context).unwrap();
            assert_eq!(target, own);
        }
    }
    assert_eq!(with_identity, 5);
    assert_eq!(
        truth(true).get_identity_zid(&context, k(40, 1)).unwrap(),
        z(41)
    );
    assert_eq!(
        builtin(866, 2).get_identity_zid(&context, k(8, 5)).unwrap(),
        z(866)
    );
}

#[test]
fn reference_round_trip() {
    let mut global = store();
    global.insert(z(3000), call(844, vec![truth(true), truth(true)]));
    global.insert(z(3001), reference(3000));
    global.insert(z(3002), placeholder());
    let context = ExecutionContext::default_for_global(Rc::new(global));
    for id in [40u32, 41, 42, 844, 3000, 3001] {
        let object = context.get_global().get_object_value(&z(id)).unwrap();
        assert_eq!(
            reference(id).evaluate(&context).unwrap(),
            object.evaluate(&context).unwrap()
        );
    }
    assert_eq!(reference(3001).evaluate(&context).unwrap(), truth(true));
    let failure = reference(3002).evaluate(&context).unwrap_err();
    assert_eq!(failure.0.get_kind(), &EvalErrorKind::TestData);
    assert_eq!(failure.0.get_trace(), &vec![TraceEntry::InsideReference(z(3002))]);
    assert_eq!(
        kind_of(reference(4000).evaluate(&context)),
        EvalErrorKind::MissingPersistentObject(z(4000))
    );
}

#[test]
fn equality_is_reflexive_and_symmetric() {
    let context = context();
    let values = samples(&context);
    for a in values.iter() {
        assert!(a.clone().equality(a.clone(), &context).unwrap());
        for b in values.iter() {
            let one = a.clone().equality(b.clone(), &context);
            let other = b.clone().equality(a.clone(), &context);
            match (one, other) {
                (Ok(x), Ok(y)) => assert_eq!(x, y),
                (Err(_), Err(_)) => {}
                (x, y) => panic!("{:?} and {:?} for {:?} and {:?}", x, y, a, b),
            }
        }
    }
    // a pointer is equal to what it points to
    assert!(reference(41).equality(truth(true), &context).unwrap());
    assert!(truth(true).equality(reference(41), &context).unwrap());
    assert!(!reference(41).equality(reference(42), &context).unwrap());
    // a raw record is equal to what it refines to
    let raw = WfData::from_map(vec![(k(1, 1), reference(40)), (k(40, 1), reference(42))]);
    assert!(raw.clone().equality(truth(false), &context).unwrap());
    assert!(!raw.equality(truth(true), &context).unwrap());
    // values with other keys are not equal
    assert!(!string("a").equality(reference(41), &context).unwrap());
    // an error inside a key is located
    let broken = reference(4000).equality(truth(true), &context).unwrap_err();
    assert_eq!(broken.get_kind(), &EvalErrorKind::MissingPersistentObject(z(4000)));
}

#[test]
fn equality_is_transitive() {
    let context = context();
    let mut values = samples(&context);
    values.push(WfData::from_map(vec![(k(1, 1), reference(40)), (k(40, 1), reference(41))]));
    values.push(WfData::from_map(vec![(k(1, 1), reference(6)), (k(6, 1), string("text"))]));
    values.push(reference(42));
    let mut equal_pairs = 0;
    for a in values.iter() {
        for b in values.iter() {
            if !matches!(a.clone().equality(b.clone(), &context), Ok(true)) {
                continue;
            }
            equal_pairs += 1;
            for c in values.iter() {
                if matches!(b.clone().equality(c.clone(), &context), Ok(true)) {
                    assert!(
                        a.clone().equality(c.clone(), &context).unwrap(),
                        "{:?}, {:?}, {:?}",
                        a,
                        b,
                        c
                    );
                }
            }
        }
    }
    // more pairs are equal than each value with itself
    assert!(equal_pairs > values.len());
}

#[test]
fn boolean_equality_agrees_with_the_builtin() {
    let context = context();
    for a in [true, false] {
        for b in [true, false] {
            let by_equality = truth(a).equality(truth(b), &context).unwrap();
            let by_builtin = call(844, vec![truth(a), truth(b)]).evaluate(&context).unwrap();
            assert_eq!(truth(by_equality), by_builtin);
            assert_eq!(
                boolean_equality(WfBoolean::new(a), WfBoolean::new(b)),
                WfBoolean::new(a == b)
            );
        }
    }
    assert_eq!(
        string_equality(WfString::new("a"), WfString::new("a")),
        WfBoolean::new(true)
    );
    assert_eq!(
        string_equality(WfString::new("a"), WfString::new("b")),
        WfBoolean::new(false)
    );
    assert_eq!(
        call(866, vec![string("same"), string("same")]).evaluate(&context).unwrap(),
        truth(true)
    );
    assert_eq!(
        call(866, vec![string("same"), string("other")]).evaluate(&context).unwrap(),
        truth(false)
    );
}

fn argument(key: KeyIndex) -> WfData {
    WfData::WfArgumentReference(WfArgumentReference { key_id: key })
}

fn parsed_call(function: u32, args: Vec<WfData>, context: &ExecutionContext) -> WfFunctionCall {
    match WfFunctionCall::parse(call(function, args), context).unwrap() {
        FunctionCallOrType::FunctionCall(c) => c,
        FunctionCallOrType::Type(_) => panic!(),
    }
}

#[test]
fn substitution() {
    let context = context();
    let info = parsed_call(844, vec![string("first"), truth(true)], &context);
    assert_eq!(
        argument(positional(1))
            .substitute_function_arguments(&info, &context)
            .unwrap(),
        string("first")
    );
    assert_eq!(
        argument(positional(2))
            .substitute_function_arguments(&info, &context)
            .unwrap(),
        truth(true)
    );
    assert_eq!(
        argument(k(844, 2))
            .substitute_function_arguments(&info, &context)
            .unwrap(),
        truth(true)
    );
    let too_large = argument(positional(3))
        .substitute_function_arguments(&info, &context)
        .unwrap_err();
    assert_eq!(too_large.get_kind(), &EvalErrorKind::ArgumentReferenceTooLarge(2));
    let no_k = argument(KeyIndex::from_u32s_panic(Some(5), None))
        .substitute_function_arguments(&info, &context)
        .unwrap_err();
    assert_eq!(
        no_k.get_kind(),
        &EvalErrorKind::ArgumentReferenceNoKPart(KeyIndex::from_u32s_panic(Some(5), None))
    );
    // containers are traversed, and the place of an error is recorded
    let body = WfData::from_map(vec![
        (k(1, 1), reference(7)),
        (k(7, 1), reference(802)),
        (k(802, 1), argument(positional(2))),
        (
            k(802, 2),
            WfTypedList::new(
                MaybeEvaluated::Unchecked(reference(6)),
                vec![string("x"), argument(positional(1))],
            )
            .into_wf_data(),
        ),
        (k(802, 3), argument(positional(1))),
    ]);
    let substituted = body.clone().substitute_function_arguments(&info, &context).unwrap();
    assert_eq!(
        substituted,
        WfData::from_map(vec![
            (k(1, 1), reference(7)),
            (k(7, 1), reference(802)),
            (k(802, 1), truth(true)),
            (
                k(802, 2),
                WfTypedList::new(
                    MaybeEvaluated::Unchecked(reference(6)),
                    vec![string("x"), string("first")],
                )
                .into_wf_data(),
            ),
            (k(802, 3), string("first")),
        ])
    );
    let short = parsed_call(811, vec![string("only")], &context);
    let failure = body.substitute_function_arguments(&short, &context).unwrap_err();
    assert_eq!(failure.get_kind(), &EvalErrorKind::ArgumentReferenceTooLarge(1));
    assert_eq!(failure.get_trace(), &vec![TraceEntry::InsideKey(k(802, 1))]);
    let in_list = WfTypedList::new(
        MaybeEvaluated::Unchecked(reference(6)),
        vec![string("x"), argument(positional(9))],
    )
    .into_wf_data();
    let failure = in_list.substitute_function_arguments(&info, &context).unwrap_err();
    assert_eq!(failure.get_trace(), &vec![TraceEntry::InsideList(1)]);
    // functions are not entered
    let function = function_with(
        10001,
        1,
        vec![implementation(
            10001,
            ImplementationByKind::Composition(argument(positional(1))),
        )],
    );
    assert_eq!(
        function.clone().substitute_function_arguments(&info, &context).unwrap(),
        function
    );
}

#[test]
fn substitution_idempotence() {
    let context = context();
    let info = parsed_call(844, vec![string("first"), truth(true)], &context);
    for body in samples(&context) {
        if matches!(body, WfData::WfArgumentReference(_)) {
            continue;
        }
        let once = body.clone().substitute_function_arguments(&info, &context).unwrap();
        assert_eq!(once, body);
        let twice = once.clone().substitute_function_arguments(&info, &context).unwrap();
        assert_eq!(twice, once);
    }
    let body = call(844, vec![argument(positional(1)), argument(positional(2))]);
    let once = body.substitute_function_arguments(&info, &context).unwrap();
    let twice = once.clone().substitute_function_arguments(&info, &context).unwrap();
    assert_eq!(twice, once);
}

#[test]
fn composition_is_reduced_by_substitution() {
    let mut global = store();
    // not(a) = if(a, false, true)
    let body = call(
        802,
        vec![argument(positional(1)), truth(false), truth(true)],
    );
    global.insert(
        z(10010),
        function_with(
            10010,
            1,
            vec![implementation(10010, ImplementationByKind::Composition(body))],
        ),
    );
    // a function that has code only
    global.insert(
        z(10011),
        function_with(
            10011,
            0,
            vec![implementation(10011, ImplementationByKind::Code(string("code")))],
        ),
    );
    // a builtin that the table does not hold
    global.insert(z(10012), builtin(10012, 0));
    // a function with each kind: the builtin is preferred
    global.insert(
        z(866),
        function_with(
            866,
            2,
            vec![
                implementation(866, ImplementationByKind::Builtin(reference(866))),
                implementation(866, ImplementationByKind::Composition(placeholder())),
                implementation(866, ImplementationByKind::Code(placeholder())),
            ],
        ),
    );
    // composition before code
    global.insert(
        z(10013),
        function_with(
            10013,
            0,
            vec![
                implementation(10013, ImplementationByKind::Code(placeholder())),
                implementation(10013, ImplementationByKind::Composition(string("first"))),
                implementation(10013, ImplementationByKind::Composition(string("last"))),
            ],
        ),
    );
    let context = ExecutionContext::default_for_global(Rc::new(global));
    assert_eq!(call(10010, vec![truth(true)]).evaluate(&context).unwrap(), truth(false));
    assert_eq!(call(10010, vec![truth(false)]).evaluate(&context).unwrap(), truth(true));
    assert_eq!(
        call(10010, vec![call(10010, vec![reference(41)])])
            .evaluate(&context)
            .unwrap(),
        truth(true)
    );
    let failure = call(10010, vec![placeholder()]).evaluate(&context).unwrap_err();
    assert_eq!(failure.0.get_kind(), &EvalErrorKind::TestData);
    assert_eq!(
        failure.0.get_trace(),
        &vec![
            TraceEntry::InsideKey(k(802, 1)),
            TraceEntry::ProcessingNonCompositionFunction(z(802)),
            TraceEntry::Substituted(z(10010)),
        ]
    );
    assert_eq!(
        kind_of(call(10011, vec![]).evaluate(&context)),
        EvalErrorKind::Unimplemented("code impl for Z10011".to_string())
    );
    assert_eq!(
        kind_of(call(10012, vec![]).evaluate(&context)),
        EvalErrorKind::NoBuiltin(z(10012))
    );
    assert_eq!(
        call(866, vec![string("a"), string("a")]).evaluate(&context).unwrap(),
        truth(true)
    );
    assert_eq!(call(10013, vec![]).evaluate(&context).unwrap(), string("last"));
    let picked = parsed_call(10013, vec![], &context)
        .pick_implementation(&context)
        .unwrap();
    assert_eq!(
        picked.into_wf_data(),
        implementation(10013, ImplementationByKind::Composition(string("last")))
    );
}

// ------------------------------------------------------------------
// errors
// ------------------------------------------------------------------
#[test]
fn refinement_errors() {
    let context = context();
    assert_eq!(
        kind_of(WfData::from_map(vec![]).evaluate(&context)),
        EvalErrorKind::MissingKey(k(1, 1))
    );
    assert_eq!(
        kind_of(WfData::from_map(vec![(k(1, 1), reference(40))]).evaluate(&context)),
        EvalErrorKind::MissingKey(k(40, 1))
    );
    assert_eq!(
        kind_of(
            WfData::from_map(vec![(k(1, 1), reference(40)), (k(40, 1), reference(39))])
                .evaluate(&context)
        ),
        EvalErrorKind::IncorrectIdentityForBoolean(z(39))
    );
    assert_eq!(
        kind_of(WfData::from_map(vec![(k(1, 1), reference(99))]).evaluate(&context)),
        EvalErrorKind::Unimplemented("parsing for Z99".to_string())
    );
    assert_eq!(
        kind_of(WfBoolean::parse(string("a"), &context).map(|b| b.into_wf_data())),
        EvalErrorKind::WrongType(z(6), z(40))
    );
    assert_eq!(
        kind_of(truth(true).get_reference(&context).map(|(_, d)| d)),
        EvalErrorKind::NotAReference
    );
    assert_eq!(
        kind_of(
            WfTypedListType::new(standard_type(40))
                .into_wf_data()
                .get_type_zid(&context)
                .map(|(_, d)| d)
        ),
        EvalErrorKind::NotStandardType
    );
    assert_eq!(
        kind_of(string("a").check_identity_zid(&context, z(6))),
        EvalErrorKind::NoIdentity
    );
    assert_eq!(
        kind_of(truth(true).check_identity_zid(&context, z(42))),
        EvalErrorKind::WrongType(z(41), z(42))
    );
    assert_eq!(
        truth(true).check_identity_zid(&context, z(41)).unwrap(),
        truth(true)
    );
    assert_eq!(
        kind_of(WfTypeGeneric::parse(string("a"), &context).map(|t| t.into_wf_data())),
        EvalErrorKind::WrongTypeZidForType
    );
    assert_eq!(
        kind_of(
            WfTypeGeneric::parse(call(844, vec![truth(true), truth(true)]), &context)
                .map(|t| t.into_wf_data())
        ),
        EvalErrorKind::ExpectedTypeGotFunction
    );
    let implementation_record = |slots: Vec<u32>| {
        let mut entries = vec![(k(1, 1), reference(14)), (k(14, 1), reference(844))];
        for slot in slots {
            entries.push((k(14, slot), string("x")));
        }
        WfData::from_map(entries)
    };
    assert_eq!(
        kind_of(implementation_record(vec![2, 4]).evaluate(&context)),
        EvalErrorKind::ExpectOnlyOneImplementation
    );
    assert_eq!(
        kind_of(implementation_record(vec![]).evaluate(&context)),
        EvalErrorKind::ExpectOneImplementionFoundZero
    );
    assert_eq!(
        implementation_record(vec![3]).evaluate(&context).unwrap(),
        implementation(844, ImplementationByKind::Code(string("x")))
    );
    let bad_argument = WfData::from_map(vec![(k(1, 1), reference(18)), (k(18, 1), string("k1"))]);
    let failure = bad_argument.evaluate(&context).unwrap_err();
    assert_eq!(
        failure.0.get_kind(),
        &EvalErrorKind::ParseKeyIndex(KeyIndexParseError::FirstNotZOrK)
    );
    assert_eq!(failure.0.get_trace(), &vec![TraceEntry::InsideKey(k(18, 1))]);
    assert_eq!(
        kind_of(WfTypedList::parse(string("a"), &context).map(|l| l.into_wf_data())),
        EvalErrorKind::Unimplemented("parsing typed list from key".to_string())
    );
    assert_eq!(kind_of(placeholder().evaluate(&context)), EvalErrorKind::TestData);
    // a string that is written out as a record
    let written = WfData::from_map(vec![(k(1, 1), reference(6)), (k(6, 1), string("a"))]);
    assert_eq!(written.evaluate(&context).unwrap(), string("a"));
    let type_check = truth(true).check_type_by_zid(z(40), &context).unwrap_err();
    assert_eq!(type_check.0.get_kind(), &EvalErrorKind::WrongTypeZidForType);
    assert_eq!(
        reference(40).check_type_by_zid(z(40), &context).unwrap(),
        reference(40)
    );
    assert_eq!(
        kind_of(reference(40).check_type_by_zid(z(6), &context)),
        EvalErrorKind::WrongType(z(40), z(6))
    );
    assert!(truth(true).check_z1k1(z(40), &context).is_ok());
    assert!(truth(true).check_z1k1(z(6), &context).is_err());
    assert!(truth(true)
        .check_type_compatibility(standard_type(40), &context)
        .is_ok());
    assert!(truth(true)
        .check_type_compatibility(standard_type(1), &context)
        .is_ok());
    assert_eq!(
        string("a")
            .check_type_compatibility(standard_type(40), &context)
            .unwrap_err()
            .get_kind(),
        &EvalErrorKind::TypeDoesNotMatch
    );
}

#[test]
fn builtin_errors() {
    let context = context();
    let arity = call(844, vec![truth(true), truth(true)]);
    let mut three = parsed_call(844, vec![truth(true), truth(true)], &context);
    three = WfFunctionCall(Rc::new(WfFunctionCallInner {
        function: three.0.function.clone(),
        args: vec![truth(true), truth(true), truth(true)],
    }));
    assert_eq!(
        kind_of(three.evaluate(&context)),
        EvalErrorKind::TooManyArguments(3, 2)
    );
    assert_eq!(arity.evaluate(&context).unwrap(), truth(true));
    assert!(assert_args_count(2, &vec![truth(true), truth(false)]).is_ok());
    assert_eq!(
        assert_args_count(2, &vec![truth(true)]).unwrap_err().get_kind(),
        &EvalErrorKind::TooManyArguments(1, 2)
    );
    let unknown = parsed_call(844, vec![truth(true), truth(true)], &context);
    assert_eq!(
        dispatch_builtins(z(845), &unknown, &context).unwrap_err().get_kind(),
        &EvalErrorKind::NoBuiltin(z(845))
    );
    assert_eq!(
        dispatch_builtins(z(844), &unknown, &context).unwrap(),
        truth(true)
    );
    assert_eq!(
        kind_of(call(844, vec![string("a"), truth(true)]).evaluate(&context)),
        EvalErrorKind::WrongType(z(6), z(40))
    );
    let list = match boolean_list(vec![false, true]).evaluate(&context).unwrap() {
        WfData::WfTypedList(l) => l,
        _ => panic!(),
    };
    assert_eq!(first_element(list.clone(), &context).unwrap(), truth(false));
    let (head, tail) = list.clone().split_first_element(Some(&context)).unwrap();
    assert_eq!(head, truth(false));
    assert_eq!(tail.len(), 1);
    let (head, tail) = tail.split_first_element(None).unwrap();
    assert_eq!(head, truth(true));
    assert!(tail.is_empty());
    assert_eq!(
        tail.clone().split_first_element(None).unwrap_err().0.get_kind(),
        &EvalErrorKind::CantGetHeadOfEmptyList
    );
    assert_eq!(tail.to_vec(), vec![]);
    let mut past = tail.clone();
    past.start_position = 7;
    past.switch_to_next_entry_group_as_needed();
    assert_eq!(past.start_position, 2);
    assert!(past.is_empty());
    let mut whole = list.clone();
    whole.switch_to_next_entry_group_as_needed();
    assert_eq!(whole.to_vec(), list.to_vec());
    assert_eq!(list.to_vec(), vec![truth(false), truth(true)]);
    let mut cursor = list.iter();
    assert_eq!(cursor.next(), Some(truth(false)));
    assert_eq!(cursor.next(), Some(truth(true)));
    assert_eq!(cursor.next(), None);
    assert_eq!(cursor.next(), None);
    let mut checking = list.iter_checked(&context);
    assert_eq!(checking.next().unwrap().unwrap(), truth(false));
    assert_eq!(checking.next().unwrap().unwrap(), truth(true));
    assert!(checking.next().is_none());
    // the cursor moves on past an entry that does not pass
    let mixed = match WfTypedList::new(
        MaybeEvaluated::Unchecked(reference(40)),
        vec![string("text"), truth(true)],
    )
    .into_wf_data()
    .evaluate(&context)
    .unwrap()
    {
        WfData::WfTypedList(l) => l,
        _ => panic!(),
    };
    let mut checking = mixed.iter_checked(&context);
    assert_eq!(
        checking.next().unwrap().unwrap_err().get_kind(),
        &EvalErrorKind::TypeDoesNotMatch
    );
    assert_eq!(checking.next().unwrap().unwrap(), truth(true));
    assert!(checking.next().is_none());
    let function = match builtin(844, 2) {
        WfData::WfFunction(f) => f,
        _ => panic!(),
    };
    assert_eq!(
        list_equality(list.clone(), list.clone(), function.clone(), &context).unwrap(),
        truth(true)
    );
    assert_eq!(
        list_equality(list.clone(), list.tail(), function, &context).unwrap(),
        truth(false)
    );
    // a list whose element type was not refined cannot check its entries
    let unrefined = match boolean_list(vec![true]) {
        WfData::WfTypedList(l) => l,
        _ => panic!(),
    };
    assert_eq!(
        first_element(unrefined, &context).unwrap_err().get_kind(),
        &EvalErrorKind::Unimplemented("checking against an unrefined type".to_string())
    );
}

#[test]
fn errors_carry_their_trace() {
    let error = EvalError::from_kind(EvalErrorKind::TestData);
    assert!(error.get_trace().is_empty());
    let error = error
        .inside_key(k(1, 1))
        .inside_list(4)
        .inside_reference_to(z(9))
        .trace_str("note")
        .trace(TraceEntry::Substituted(z(5)));
    assert_eq!(
        error.get_trace(),
        &vec![
            TraceEntry::InsideKey(k(1, 1)),
            TraceEntry::InsideList(4),
            TraceEntry::InsideReference(z(9)),
            TraceEntry::Text("note".to_string()),
            TraceEntry::Substituted(z(5)),
        ]
    );
    assert_eq!(error.get_kind(), &EvalErrorKind::TestData);
    assert_eq!(
        EvalError::missing_key(k(2, 3)).get_kind(),
        &EvalErrorKind::MissingKey(k(2, 3))
    );
    assert_eq!(
        EvalError::unimplemented("later".to_string()).get_kind(),
        &EvalErrorKind::Unimplemented("later".to_string())
    );
    assert_ne!(EvalErrorKind::TestData, EvalErrorKind::NoIdentity);
    assert_ne!(
        EvalErrorKind::MissingKey(k(1, 1)),
        EvalErrorKind::MissingKey(k(1, 2))
    );
}

#[test]
fn raw_records() {
    let record = WfUntyped::parse(truth(true));
    assert_eq!(
        record.clone().into_wf_data(),
        WfData::from_map(vec![(k(1, 1), reference(40)), (k(40, 1), reference(41))])
    );
    assert_eq!(WfUntyped::parse(record.clone().into_wf_data()).into_wf_data(), record.into_wf_data());
    // a record from entries is sorted, and the last entry under a key stays
    let sorted = WfUntyped::new(vec![
        (k(7, 1), string("first")),
        (k(1, 1), string("type")),
        (positional(1), string("positional")),
        (k(7, 1), string("second")),
    ]);
    assert_eq!(sorted.list_keys(), vec![positional(1), k(1, 1), k(7, 1)]);
    assert_eq!(sorted.get_key(k(7, 1)), Some(string("second")));
}
