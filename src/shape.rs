use vstd::prelude::*;

verus! {

/// What the rules read of a function's signature.
#[derive(Clone, Copy, Debug, PartialEq, Eq, Structural)]
pub struct FnShape {
    /// Number of declared parameters.
    pub n_inputs: usize,
    /// The parameter list ends in `...`.
    pub variadic: bool,
    /// The function is `async`.
    pub is_async: bool,
    /// The function is `const`.
    pub is_const: bool,
    /// Number of generic parameters (lifetimes, types and constants).
    pub n_generic_params: usize,
    /// Number of predicates of its `where` clause, if it has one.
    pub n_where_predicates: Option<usize>,
}

/// Why a function cannot be made lazy.
#[derive(Clone, Copy, Debug, PartialEq, Eq, Structural)]
pub enum ShapeError {
    HasInputs,
    IsAsync,
    IsConst,
    HasGenerics,
}

impl FnShape {
    pub open spec fn takes_inputs(self) -> bool {
        self.variadic || self.n_inputs > 0
    }

    pub open spec fn is_generic(self) -> bool {
        self.n_generic_params > 0 || (self.n_where_predicates matches Some(n) && n > 0)
    }

    /// The first rule, in the order inputs, async, const, generics, that the
    /// shape breaks.
    pub open spec fn first_violation(self) -> Option<ShapeError> {
        if self.takes_inputs() {
            Some(ShapeError::HasInputs)
        } else if self.is_async {
            Some(ShapeError::IsAsync)
        } else if self.is_const {
            Some(ShapeError::IsConst)
        } else if self.is_generic() {
            Some(ShapeError::HasGenerics)
        } else {
            None
        }
    }
}

/// Decides whether a function of this shape may be made lazy: it must take
/// no inputs, be neither `async` nor `const`, and have no generics.
pub fn check_shape(shape: &FnShape) -> (r: Result<(), ShapeError>)
    ensures
        r is Ok <==> shape.first_violation() is None,
        r matches Err(e) ==> shape.first_violation() == Some(e),
{
    if shape.variadic || shape.n_inputs > 0 {
        return Err(ShapeError::HasInputs);
    }
    if shape.is_async {
        return Err(ShapeError::IsAsync);
    }
    if shape.is_const {
        return Err(ShapeError::IsConst);
    }
    let where_nonempty = match shape.n_where_predicates {
        Some(n) => n > 0,
        None => false,
    };
    if shape.n_generic_params > 0 || where_nonempty {
        return Err(ShapeError::HasGenerics);
    }
    Ok(())
}

impl ShapeError {
    pub open spec fn message_spec(self) -> Seq<char> {
        match self {
            ShapeError::HasInputs => "a lazy_fn cannot have inputs"@,
            ShapeError::IsAsync => "lazy_fn cannot be async"@,
            ShapeError::IsConst => "a const fn doesn't need to be a lazy_fn"@,
            ShapeError::HasGenerics => "a lazy_fn cannot have generics"@,
        }
    }

    /// The text of the compile error reported for this violation.
    pub fn message(&self) -> (r: &'static str)
        ensures
            r@ == self.message_spec(),
    {
        match self {
            ShapeError::HasInputs => "a lazy_fn cannot have inputs",
            ShapeError::IsAsync => "lazy_fn cannot be async",
            ShapeError::IsConst => "a const fn doesn't need to be a lazy_fn",
            ShapeError::HasGenerics => "a lazy_fn cannot have generics",
        }
    }
}

} // verus!
