use configcrunch::error::ErrorKind;
use configcrunch::helper::{
    classify, marshal_argument, marshal_arguments, marshal_result, marshal_tree, read_host,
    settle, Helper, HelperRegistry, HostArg, HostTree, Returned, MAX_RESULT_DEPTH,
    NAME_ATTRIBUTE,
};
use configcrunch::value::{Dict, Document, Real, StructuredValue, TemplateValue};
use minijinja::Value;
use pyo3::types::PyCFunction;
use pyo3::{PyResult, Python};
use std::sync::Arc;

#[test]
fn scalar_arguments_marshal_to_host_inputs() {
    assert!(matches!(marshal_argument(&TemplateValue::Undefined), Ok(HostArg::Nothing)));
    assert!(matches!(marshal_argument(&TemplateValue::Null), Ok(HostArg::Nothing)));
    assert!(matches!(marshal_argument(&TemplateValue::Bool(true)), Ok(HostArg::Bool(true))));
    assert!(matches!(marshal_argument(&TemplateValue::U64(7)), Ok(HostArg::Unsigned(7))));
    assert!(matches!(
        marshal_argument(&TemplateValue::U128(u128::MAX)),
        Ok(HostArg::Unsigned(u128::MAX))
    ));
    assert!(matches!(marshal_argument(&TemplateValue::I64(-7)), Ok(HostArg::Signed(-7))));
    assert!(matches!(
        marshal_argument(&TemplateValue::I128(i128::MIN)),
        Ok(HostArg::Signed(i128::MIN))
    ));
    assert!(matches!(marshal_argument(&TemplateValue::Char('c')), Ok(HostArg::Char('c'))));
    assert!(matches!(
        marshal_argument(&TemplateValue::Str("s".to_string())),
        Ok(HostArg::Text(s)) if s == "s"
    ));
    assert!(matches!(
        marshal_argument(&TemplateValue::Bytes(vec![1, 2])),
        Ok(HostArg::Bytes(b)) if b == vec![1, 2]
    ));
    let real = Real::new(Value::from(1.5)).unwrap();
    match marshal_argument(&TemplateValue::F64(real)) {
        Ok(HostArg::Float(r)) => assert_eq!(*r.engine_value(), Value::from(1.5)),
        other => panic!("not a float: {:?}", other),
    }
}

#[test]
fn composite_arguments_do_not_marshal() {
    let list = TemplateValue::List(vec![]);
    assert_eq!(marshal_argument(&list).unwrap_err().kind, ErrorKind::Marshal);
    let mapping = TemplateValue::Mapping(Arc::new(Dict::new()));
    assert_eq!(marshal_argument(&mapping).unwrap_err().kind, ErrorKind::Marshal);
    let doc = TemplateValue::Document(Arc::new(Document::new(Dict::new(), HelperRegistry::new())));
    let err = marshal_argument(&doc).unwrap_err();
    assert_eq!(err.kind, ErrorKind::Marshal);
    assert_eq!(err.message, "a helper takes scalar arguments only, not a document");
}

#[test]
fn arguments_marshal_in_order_or_not_at_all() {
    let args = vec![TemplateValue::I64(1), TemplateValue::Str("b".to_string())];
    let inputs = marshal_arguments(&args).unwrap();
    assert_eq!(inputs.len(), 2);
    assert!(matches!(inputs[0], HostArg::Signed(1)));
    assert!(matches!(&inputs[1], HostArg::Text(s) if s == "b"));
    assert_eq!(marshal_arguments(&vec![]).unwrap().len(), 0);
    let args = vec![TemplateValue::I64(1), TemplateValue::List(vec![])];
    assert_eq!(marshal_arguments(&args).unwrap_err().kind, ErrorKind::Marshal);
}

#[test]
fn host_receives_each_scalar_as_its_own_type() {
    Python::initialize();
    let show =
        Python::attach(|py| py.eval(c"lambda *a: repr(a)", None, None).unwrap().unbind());
    let helper = Helper::new("show".to_string(), show);
    let args = vec![
        TemplateValue::Undefined,
        TemplateValue::Null,
        TemplateValue::Bool(true),
        TemplateValue::U64(7),
        TemplateValue::U128(u128::MAX),
        TemplateValue::I64(-1),
        TemplateValue::I128(i128::MIN),
        TemplateValue::F64(Real::new(Value::from(1.5)).unwrap()),
        TemplateValue::Char('c'),
        TemplateValue::Str("s".to_string()),
        TemplateValue::Bytes(vec![1, 2]),
    ];
    match helper.call(&args).unwrap() {
        StructuredValue::YString(shown) => assert_eq!(
            shown,
            "(None, None, True, 7, 340282366920938463463374607431768211455, -1, \
             -170141183460469231731687303715884105728, 1.5, 'c', 's', b'\\x01\\x02')"
        ),
        other => panic!("not text: {:?}", other),
    }
}

#[test]
fn host_receives_no_arguments_for_an_empty_call() {
    Python::initialize();
    let count = Python::attach(|py| py.eval(c"lambda *a: len(a)", None, None).unwrap().unbind());
    let helper = Helper::new("count".to_string(), count);
    assert!(matches!(helper.call(&vec![]).unwrap(), StructuredValue::Int(0)));
    let args = vec![TemplateValue::Null, TemplateValue::Null];
    assert!(matches!(helper.call(&args).unwrap(), StructuredValue::Int(2)));
}

#[test]
fn composite_argument_fails_before_the_host_is_called() {
    Python::initialize();
    let raises = Python::attach(|py| py.eval(c"lambda *a: 1 / 0", None, None).unwrap().unbind());
    let helper = Helper::new("raises".to_string(), raises);
    let err = helper.call(&vec![TemplateValue::List(vec![])]).unwrap_err();
    assert_eq!(err.kind, ErrorKind::Marshal);
}

#[test]
fn host_fault_is_a_host_invocation_error() {
    Python::initialize();
    let raises = Python::attach(|py| py.eval(c"lambda: 1 / 0", None, None).unwrap().unbind());
    let helper = Helper::new("raises".to_string(), raises);
    let err = helper.call(&vec![]).unwrap_err();
    assert_eq!(err.kind, ErrorKind::HostInvocation);
    assert!(err.message.starts_with("Error in a function: "));
    assert!(err.message.contains("ZeroDivisionError"));
}

#[test]
fn calling_what_is_not_callable_is_a_host_invocation_error() {
    Python::initialize();
    let number = Python::attach(|py| py.eval(c"5", None, None).unwrap().unbind());
    let helper = Helper::new("five".to_string(), number);
    assert_eq!(helper.call(&vec![]).unwrap_err().kind, ErrorKind::HostInvocation);
}

#[test]
fn scalar_results_marshal_to_their_kind() {
    Python::initialize();
    Python::attach(|py| {
        let text = py.eval(c"'x'", None, None).unwrap().unbind();
        assert!(matches!(
            marshal_result(&text, MAX_RESULT_DEPTH),
            Ok(StructuredValue::YString(s)) if s == "x"
        ));
        let truth = py.eval(c"True", None, None).unwrap().unbind();
        assert!(matches!(marshal_result(&truth, MAX_RESULT_DEPTH), Ok(StructuredValue::Bool(true))));
        let int = py.eval(c"-9223372036854775808", None, None).unwrap().unbind();
        assert!(matches!(
            marshal_result(&int, MAX_RESULT_DEPTH),
            Ok(StructuredValue::Int(i64::MIN))
        ));
        let float = py.eval(c"2.5", None, None).unwrap().unbind();
        match marshal_result(&float, MAX_RESULT_DEPTH) {
            Ok(StructuredValue::Float(r)) => assert_eq!(*r.engine_value(), Value::from(2.5)),
            other => panic!("not a float: {:?}", other),
        }
    });
}

#[test]
fn composite_results_marshal_deeply() {
    Python::initialize();
    let object = Python::attach(|py| {
        py.eval(c"{'a': 1, 'b': [True, 'x', (2, 3)], 'c': {'d': 'e'}}", None, None)
            .unwrap()
            .unbind()
    });
    let dict = match marshal_result(&object, MAX_RESULT_DEPTH).unwrap() {
        StructuredValue::Dict(dict) => dict,
        other => panic!("not a dict: {:?}", other),
    };
    assert_eq!(dict.len(), 3);
    assert_eq!(dict.key_at(0), "a");
    assert!(matches!(dict.get("a"), Some(StructuredValue::Int(1))));
    match dict.get("b") {
        Some(StructuredValue::List(items)) => {
            assert_eq!(items.len(), 3);
            assert!(matches!(items[0], StructuredValue::Bool(true)));
            assert!(matches!(&items[1], StructuredValue::YString(s) if s == "x"));
            match &items[2] {
                StructuredValue::List(pair) => {
                    assert!(matches!(pair[0], StructuredValue::Int(2)));
                    assert!(matches!(pair[1], StructuredValue::Int(3)));
                }
                other => panic!("not a list: {:?}", other),
            }
        }
        other => panic!("not a list: {:?}", other),
    }
    match dict.get("c") {
        Some(StructuredValue::Dict(inner)) => {
            assert!(matches!(inner.get("d"), Some(StructuredValue::YString(s)) if s == "e"));
        }
        other => panic!("not a dict: {:?}", other),
    }
}

#[test]
fn results_that_are_no_structured_value_are_rejected() {
    Python::initialize();
    Python::attach(|py| {
        let none = py.None();
        assert_eq!(marshal_result(&none, MAX_RESULT_DEPTH).unwrap_err().kind, ErrorKind::Marshal);
        let object = py.eval(c"object()", None, None).unwrap().unbind();
        assert_eq!(
            marshal_result(&object, MAX_RESULT_DEPTH).unwrap_err().kind,
            ErrorKind::Marshal
        );
        let keyed = py.eval(c"{1: 2}", None, None).unwrap().unbind();
        let err = marshal_result(&keyed, MAX_RESULT_DEPTH).unwrap_err();
        assert_eq!(err.kind, ErrorKind::Marshal);
        assert_eq!(err.message, "a helper returned a mapping with a key that is no text");
        let huge = py.eval(c"2 ** 70", None, None).unwrap().unbind();
        assert_eq!(marshal_result(&huge, MAX_RESULT_DEPTH).unwrap_err().kind, ErrorKind::Marshal);
        let nested = py.eval(c"[[object()]]", None, None).unwrap().unbind();
        assert_eq!(
            marshal_result(&nested, MAX_RESULT_DEPTH).unwrap_err().kind,
            ErrorKind::Marshal
        );
    });
}

#[test]
fn results_nest_up_to_the_depth_limit() {
    Python::initialize();
    Python::attach(|py| {
        let flat = py.eval(c"[1]", None, None).unwrap().unbind();
        assert!(marshal_result(&flat, 1).is_ok());
        assert_eq!(marshal_result(&flat, 0).unwrap_err().kind, ErrorKind::Marshal);
        let scalar = py.eval(c"1", None, None).unwrap().unbind();
        assert!(marshal_result(&scalar, 0).is_ok());
        let two = py.eval(c"{'a': [1]}", None, None).unwrap().unbind();
        assert!(marshal_result(&two, 2).is_ok());
        let err = marshal_result(&two, 1).unwrap_err();
        assert_eq!(err.message, "a helper returned a value that nests too deeply");
        let cyclic =
            py.eval(c"(lambda l: (l.append(l), l)[1])([])", None, None).unwrap().unbind();
        assert_eq!(
            marshal_result(&cyclic, MAX_RESULT_DEPTH).unwrap_err().kind,
            ErrorKind::Marshal
        );
    });
}

#[test]
fn settle_decides_for_each_outcome() {
    Python::initialize();
    let err = settle(None).unwrap_err();
    assert_eq!(err.kind, ErrorKind::HostInvocation);
    assert_eq!(err.message, "Error in a function: the host cannot be reached");
    let err = settle(Some(Err("ValueError('boom')".to_string()))).unwrap_err();
    assert_eq!(err.kind, ErrorKind::HostInvocation);
    assert_eq!(err.message, "Error in a function: ValueError('boom')");
    let five = Python::attach(|py| py.eval(c"5", None, None).unwrap().unbind());
    assert!(matches!(settle(Some(Ok(five))), Ok(StructuredValue::Int(5))));
    let none = Python::attach(|py| py.None());
    assert_eq!(settle(Some(Ok(none))).unwrap_err().kind, ErrorKind::Marshal);
}

#[test]
fn helper_discovers_the_declared_name() {
    Python::initialize();
    let named = Python::attach(|py| {
        PyCFunction::new_closure(py, Some(c"shout"), None, |_args, _kwargs| -> PyResult<i64> {
            Ok(1)
        })
        .unwrap()
        .into_any()
        .unbind()
    });
    assert_eq!(Helper::discover(named).unwrap().name, "shout");
    let lambda = Python::attach(|py| py.eval(c"lambda: 1", None, None).unwrap().unbind());
    assert_eq!(Helper::discover(lambda).unwrap().name, "<lambda>");
    let builtin = Python::attach(|py| py.eval(c"len", None, None).unwrap().unbind());
    assert_eq!(Helper::discover(builtin).unwrap().name, "len");
}

#[test]
fn helper_without_a_name_is_a_construction_error() {
    Python::initialize();
    let nameless = Python::attach(|py| {
        py.eval(c"__import__('functools').partial(len)", None, None).unwrap().unbind()
    });
    let err = Helper::discover(nameless).unwrap_err();
    assert_eq!(err.kind, ErrorKind::Construction);
    let number = Python::attach(|py| py.eval(c"5", None, None).unwrap().unbind());
    assert_eq!(Helper::discover(number).unwrap_err().kind, ErrorKind::Construction);
}

#[test]
fn duplicate_shares_the_callable() {
    Python::initialize();
    let helper = Helper::new("a".to_string(), Python::attach(|py| py.None()));
    let copy = helper.duplicate();
    assert_eq!(copy.name, "a");
    assert!(Arc::ptr_eq(&copy.callable, &helper.callable));
}

#[test]
fn call_method_dispatches_to_the_bound_helper() {
    Python::initialize();
    let double = Python::attach(|py| py.eval(c"lambda n: n * 2", None, None).unwrap().unbind());
    let registry = HelperRegistry::from_helpers(&vec![Helper::new("double".to_string(), double)]);
    let doc = Document::new(Dict::new(), registry);
    let result = doc.call_method("double", &vec![TemplateValue::I64(21)]).unwrap();
    assert!(matches!(result, TemplateValue::I64(42)));
    let result = doc.call_method("double", &vec![TemplateValue::Str("ab".to_string())]).unwrap();
    assert!(matches!(result, TemplateValue::Str(s) if s == "abab"));
}

#[test]
fn call_method_on_an_unbound_name_is_method_not_found() {
    let doc = Document::new(Dict::new(), HelperRegistry::new());
    let err = doc.call_method("nohelper", &vec![]).unwrap_err();
    assert_eq!(err.kind, ErrorKind::MethodNotFound);
    assert_eq!(err.message, "Method nohelper not found on object");
}

#[test]
fn call_method_does_not_find_fields() {
    let mut fields = Dict::new();
    fields.insert("x".to_string(), StructuredValue::Int(5));
    let doc = Document::new(fields, HelperRegistry::new());
    let err = doc.call_method("x", &vec![]).unwrap_err();
    assert_eq!(err.kind, ErrorKind::MethodNotFound);
}

#[test]
fn call_method_rejects_composite_arguments() {
    Python::initialize();
    let double = Python::attach(|py| py.eval(c"lambda n: n * 2", None, None).unwrap().unbind());
    let registry = HelperRegistry::from_helpers(&vec![Helper::new("double".to_string(), double)]);
    let doc = Document::new(Dict::new(), registry);
    let err = doc.call_method("double", &vec![TemplateValue::List(vec![])]).unwrap_err();
    assert_eq!(err.kind, ErrorKind::Marshal);
}

#[test]
fn a_scalar_tree_becomes_its_scalar() {
    assert!(matches!(
        marshal_tree(&HostTree::Text("t".to_string()), 0),
        Ok(StructuredValue::YString(s)) if s == "t"
    ));
    assert!(matches!(marshal_tree(&HostTree::Bool(false), 0), Ok(StructuredValue::Bool(false))));
    assert!(matches!(marshal_tree(&HostTree::Int(-4), 0), Ok(StructuredValue::Int(-4))));
    match marshal_tree(&HostTree::Number(Value::from(0.5)), 0) {
        Ok(StructuredValue::Float(r)) => assert_eq!(*r.engine_value(), Value::from(0.5)),
        other => panic!("not a float: {:?}", other),
    }
    let err = marshal_tree(&HostTree::Number(Value::from(1)), 0).unwrap_err();
    assert_eq!(err.kind, ErrorKind::Marshal);
    assert_eq!(err.message, "a helper returned a number that the engine cannot hold");
    let err = marshal_tree(&HostTree::Other, 3).unwrap_err();
    assert_eq!(err.message, "a helper returned a value that is no structured value");
    let err = marshal_tree(&HostTree::TooDeep, 3).unwrap_err();
    assert_eq!(err.message, "a helper returned a value that nests too deeply");
}

#[test]
fn a_sequence_tree_becomes_the_list_of_its_items_in_place() {
    let tree = HostTree::Items(vec![
        HostTree::Int(1),
        HostTree::Text("two".to_string()),
        HostTree::Items(vec![HostTree::Bool(true)]),
    ]);
    match marshal_tree(&tree, 2).unwrap() {
        StructuredValue::List(list) => {
            assert_eq!(list.len(), 3);
            assert!(matches!(list[0], StructuredValue::Int(1)));
            assert!(matches!(&list[1], StructuredValue::YString(s) if s == "two"));
            assert!(matches!(&list[2], StructuredValue::List(inner) if inner.len() == 1));
        }
        other => panic!("not a list: {:?}", other),
    }
    let err = marshal_tree(&tree, 1).unwrap_err();
    assert_eq!(err.message, "a helper returned a value that nests too deeply");
    let err = marshal_tree(&HostTree::Items(vec![]), 0).unwrap_err();
    assert_eq!(err.message, "a helper returned a value that nests too deeply");
    assert!(matches!(
        marshal_tree(&HostTree::Items(vec![]), 1),
        Ok(StructuredValue::List(items)) if items.is_empty()
    ));
}

#[test]
fn the_first_item_that_cannot_be_represented_decides() {
    let tree = HostTree::Items(vec![
        HostTree::Int(1),
        HostTree::Number(Value::from(1)),
        HostTree::Other,
    ]);
    let err = marshal_tree(&tree, 1).unwrap_err();
    assert_eq!(err.message, "a helper returned a number that the engine cannot hold");
    let tree = HostTree::Entries(vec![
        (Some("a".to_string()), HostTree::Int(1)),
        (None, HostTree::Other),
        (Some("c".to_string()), HostTree::Other),
    ]);
    let err = marshal_tree(&tree, 1).unwrap_err();
    assert_eq!(err.message, "a helper returned a mapping with a key that is no text");
    let tree = HostTree::Entries(vec![
        (Some("a".to_string()), HostTree::Other),
        (None, HostTree::Int(1)),
    ]);
    let err = marshal_tree(&tree, 1).unwrap_err();
    assert_eq!(err.message, "a helper returned a value that is no structured value");
}

#[test]
fn a_dict_tree_becomes_the_mapping_of_its_entries() {
    let tree = HostTree::Entries(vec![
        (Some("a".to_string()), HostTree::Int(1)),
        (Some("b".to_string()), HostTree::Text("x".to_string())),
        (Some("a".to_string()), HostTree::Int(3)),
    ]);
    match marshal_tree(&tree, 1).unwrap() {
        StructuredValue::Dict(dict) => {
            assert_eq!(dict.len(), 2);
            assert_eq!(dict.key_at(0), "a");
            assert_eq!(dict.key_at(1), "b");
            assert!(matches!(dict.get("a"), Some(StructuredValue::Int(3))));
            assert!(matches!(dict.get("b"), Some(StructuredValue::YString(s)) if s == "x"));
        }
        other => panic!("not a dict: {:?}", other),
    }
    let err = marshal_tree(&HostTree::Entries(vec![]), 0).unwrap_err();
    assert_eq!(err.kind, ErrorKind::Marshal);
    match marshal_tree(&HostTree::Entries(vec![]), 1) {
        Ok(StructuredValue::Dict(dict)) => assert_eq!(dict.len(), 0),
        other => panic!("not a dict: {:?}", other),
    }
}

#[test]
fn a_host_object_is_read_member_by_member() {
    Python::initialize();
    let object = Python::attach(|py| {
        py.eval(c"{'a': [1, 'x'], 2: True, 'c': object()}", None, None).unwrap().unbind()
    });
    match read_host(&object, 2) {
        HostTree::Entries(entries) => {
            assert_eq!(entries.len(), 3);
            assert_eq!(entries[0].0.as_deref(), Some("a"));
            match &entries[0].1 {
                HostTree::Items(items) => {
                    assert!(matches!(items[0], HostTree::Int(1)));
                    assert!(matches!(&items[1], HostTree::Text(s) if s == "x"));
                }
                other => panic!("not items: {:?}", other),
            }
            assert!(entries[1].0.is_none());
            assert!(matches!(entries[1].1, HostTree::Bool(true)));
            assert!(matches!(entries[2].1, HostTree::Other));
        }
        other => panic!("not entries: {:?}", other),
    }
    match read_host(&object, 1) {
        HostTree::Entries(entries) => assert!(matches!(entries[0].1, HostTree::TooDeep)),
        other => panic!("not entries: {:?}", other),
    }
    assert!(matches!(read_host(&object, 0), HostTree::TooDeep));
}

#[test]
fn repeated_dict_keys_cannot_come_from_the_host() {
    Python::initialize();
    let object =
        Python::attach(|py| py.eval(c"{'a': 1, 'b': 2, 'a': 3}", None, None).unwrap().unbind());
    match marshal_result(&object, MAX_RESULT_DEPTH).unwrap() {
        StructuredValue::Dict(dict) => {
            assert_eq!(dict.len(), 2);
            assert!(matches!(dict.get("a"), Some(StructuredValue::Int(3))));
        }
        other => panic!("not a dict: {:?}", other),
    }
}

#[test]
fn the_name_attribute_is_the_host_convention() {
    assert_eq!(NAME_ATTRIBUTE, "__name__");
    assert_eq!(MAX_RESULT_DEPTH, 64);
}

#[test]
fn floats_reach_the_host_exactly() {
    Python::initialize();
    let show = Python::attach(|py| py.eval(c"lambda x: repr(x)", None, None).unwrap().unbind());
    let helper = Helper::new("show".to_string(), show);
    let cases: [(f64, &str); 9] = [
        (0.1, "0.1"),
        (-0.0, "-0.0"),
        (2.0, "2.0"),
        (1e22, "1e+22"),
        (1e300, "1e+300"),
        (5e-324, "5e-324"),
        (f64::MAX, "1.7976931348623157e+308"),
        (f64::INFINITY, "inf"),
        (f64::NEG_INFINITY, "-inf"),
    ];
    for (number, shown) in cases {
        let arg = TemplateValue::F64(Real::new(Value::from(number)).unwrap());
        match helper.call(&vec![arg]).unwrap() {
            StructuredValue::YString(text) => assert_eq!(text, shown),
            other => panic!("not text: {:?}", other),
        }
    }
    let nan = TemplateValue::F64(Real::new(Value::from(f64::NAN)).unwrap());
    assert!(matches!(
        helper.call(&vec![nan]).unwrap(),
        StructuredValue::YString(text) if text == "nan"
    ));
}

#[test]
fn floats_return_from_the_host_exactly() {
    Python::initialize();
    let same = Python::attach(|py| py.eval(c"lambda x: x", None, None).unwrap().unbind());
    let helper = Helper::new("same".to_string(), same);
    let cases: [f64; 9] =
        [0.1, -0.0, 2.0, 1e22, 1e300, 5e-324, f64::MAX, f64::INFINITY, f64::NEG_INFINITY];
    for number in cases {
        let arg = TemplateValue::F64(Real::new(Value::from(number)).unwrap());
        match helper.call(&vec![arg]).unwrap() {
            StructuredValue::Float(real) => {
                let back = f64::try_from(real.engine_value().clone()).unwrap();
                assert_eq!(back.to_bits(), number.to_bits());
            }
            other => panic!("not a float: {:?}", other),
        }
    }
    let third = Python::attach(|py| py.eval(c"lambda: 1 / 3", None, None).unwrap().unbind());
    match Helper::new("third".to_string(), third).call(&vec![]).unwrap() {
        StructuredValue::Float(real) => {
            assert_eq!(*real.engine_value(), Value::from(1.0 / 3.0));
        }
        other => panic!("not a float: {:?}", other),
    }
}

#[test]
fn a_document_collects_its_helpers_by_declared_name() {
    Python::initialize();
    let (len, lambda, nameless) = Python::attach(|py| {
        (
            py.eval(c"len", None, None).unwrap().unbind(),
            py.eval(c"lambda: 1", None, None).unwrap().unbind(),
            py.eval(c"__import__('functools').partial(len)", None, None).unwrap().unbind(),
        )
    });
    let doc = Document::collect(Dict::new(), vec![]).unwrap();
    assert_eq!(doc.bound_helpers().len(), 0);
    let doc = Document::collect(Dict::new(), vec![len, lambda]).unwrap();
    assert!(doc.has_method("len"));
    assert!(doc.has_method("<lambda>"));
    assert!(!doc.has_method("other"));
    let result = doc.call_method("len", &vec![TemplateValue::Str("abc".to_string())]).unwrap();
    assert!(matches!(result, TemplateValue::I64(3)));
    let err = Document::collect(Dict::new(), vec![nameless]).unwrap_err();
    assert_eq!(err.kind, ErrorKind::Construction);
}

#[test]
fn a_helper_is_named_by_what_the_host_said() {
    Python::initialize();
    let none = || Python::attach(|py| py.None());
    let helper = Helper::named(Ok("shout".to_string()), none()).unwrap();
    assert_eq!(helper.name, "shout");
    let helper = Helper::named(Ok("".to_string()), none()).unwrap();
    assert_eq!(helper.name, "");
    let err = Helper::named(Err("AttributeError".to_string()), none()).unwrap_err();
    assert_eq!(err.kind, ErrorKind::Construction);
    assert_eq!(err.message, "a helper declares no name: AttributeError");
}

#[test]
fn a_nameless_helper_keeps_what_the_host_said() {
    Python::initialize();
    let nameless = Python::attach(|py| {
        py.eval(c"__import__('functools').partial(len)", None, None).unwrap().unbind()
    });
    let err = Helper::discover(nameless).unwrap_err();
    assert!(err.message.starts_with("a helper declares no name: "));
    assert!(err.message.contains("AttributeError"));
    let odd = Python::attach(|py| {
        py.eval(c"type('Odd', (), {'__name__': 5, '__call__': lambda s: 1})()", None, None)
            .unwrap()
            .unbind()
    });
    let err = Helper::discover(odd).unwrap_err();
    assert_eq!(err.kind, ErrorKind::Construction);
    assert!(err.message.contains("TypeError"));
}

#[test]
fn a_host_object_is_taken_for_the_first_reading_that_gave_something() {
    Python::initialize();
    let none = || Python::attach(|py| py.None());
    let number = Some(Value::from(1.5));
    assert!(matches!(
        classify(Some(vec![]), Some("t".to_string()), Some(vec![]), Some(true), Some(1), number),
        Returned::Entries(_)
    ));
    assert!(matches!(
        classify(None, Some("t".to_string()), Some(vec![none()]), Some(true), Some(1), None),
        Returned::Text(s) if s == "t"
    ));
    assert!(matches!(
        classify(None, None, Some(vec![none()]), Some(true), Some(1), None),
        Returned::Items(items) if items.len() == 1
    ));
    assert!(matches!(
        classify(None, None, None, Some(true), Some(1), Some(Value::from(1.0))),
        Returned::Bool(true)
    ));
    assert!(matches!(
        classify(None, None, None, None, Some(7), Some(Value::from(7.0))),
        Returned::Int(7)
    ));
    match classify(None, None, None, None, None, Some(Value::from(0.5))) {
        Returned::Number(v) => assert_eq!(v, Value::from(0.5)),
        other => panic!("not a number: {:?}", other),
    }
    assert!(matches!(classify(None, None, None, None, None, None), Returned::Other));
}

#[test]
fn a_host_boolean_is_no_integer_and_a_string_no_sequence() {
    Python::initialize();
    Python::attach(|py| {
        let truth = py.eval(c"True", None, None).unwrap().unbind();
        assert!(matches!(read_host(&truth, 1), HostTree::Bool(true)));
        let one = py.eval(c"1", None, None).unwrap().unbind();
        assert!(matches!(read_host(&one, 1), HostTree::Int(1)));
        let text = py.eval(c"'ab'", None, None).unwrap().unbind();
        assert!(matches!(read_host(&text, 1), HostTree::Text(s) if s == "ab"));
        let whole = py.eval(c"2.0", None, None).unwrap().unbind();
        assert!(matches!(read_host(&whole, 1), HostTree::Number(_)));
    });
}
