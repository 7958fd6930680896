use lazy_fn::shape::{check_shape, FnShape, ShapeError};

fn plain() -> FnShape {
    FnShape {
        n_inputs: 0,
        variadic: false,
        is_async: false,
        is_const: false,
        n_generic_params: 0,
        n_where_predicates: None,
    }
}

#[test]
fn plain_function_is_accepted() {
    assert_eq!(check_shape(&plain()), Ok(()));
}

#[test]
fn empty_where_clause_is_accepted() {
    let s = FnShape { n_where_predicates: Some(0), ..plain() };
    assert_eq!(check_shape(&s), Ok(()));
}

#[test]
fn inputs_are_rejected() {
    let s = FnShape { n_inputs: 2, ..plain() };
    assert_eq!(check_shape(&s), Err(ShapeError::HasInputs));
}

#[test]
fn variadic_is_rejected_as_inputs() {
    let s = FnShape { variadic: true, ..plain() };
    assert_eq!(check_shape(&s), Err(ShapeError::HasInputs));
}

#[test]
fn async_is_rejected() {
    let s = FnShape { is_async: true, ..plain() };
    assert_eq!(check_shape(&s), Err(ShapeError::IsAsync));
}

#[test]
fn const_is_rejected() {
    let s = FnShape { is_const: true, ..plain() };
    assert_eq!(check_shape(&s), Err(ShapeError::IsConst));
}

#[test]
fn generic_parameters_are_rejected() {
    let s = FnShape { n_generic_params: 1, ..plain() };
    assert_eq!(check_shape(&s), Err(ShapeError::HasGenerics));
}

#[test]
fn where_predicates_are_rejected() {
    let s = FnShape { n_where_predicates: Some(2), ..plain() };
    assert_eq!(check_shape(&s), Err(ShapeError::HasGenerics));
}

#[test]
fn first_broken_rule_is_reported() {
    let all = FnShape {
        n_inputs: 1,
        variadic: true,
        is_async: true,
        is_const: true,
        n_generic_params: 3,
        n_where_predicates: Some(1),
    };
    assert_eq!(check_shape(&all), Err(ShapeError::HasInputs));
    let s = FnShape { n_inputs: 0, variadic: false, ..all };
    assert_eq!(check_shape(&s), Err(ShapeError::IsAsync));
    let s = FnShape { is_async: false, ..s };
    assert_eq!(check_shape(&s), Err(ShapeError::IsConst));
    let s = FnShape { is_const: false, ..s };
    assert_eq!(check_shape(&s), Err(ShapeError::HasGenerics));
}

#[test]
fn messages_name_the_broken_rule() {
    assert_eq!(ShapeError::HasInputs.message(), "a lazy_fn cannot have inputs");
    assert_eq!(ShapeError::IsAsync.message(), "lazy_fn cannot be async");
    assert_eq!(ShapeError::IsConst.message(), "a const fn doesn't need to be a lazy_fn");
    assert_eq!(ShapeError::HasGenerics.message(), "a lazy_fn cannot have generics");
}
