//! Checks that select which matmul routines can take a problem.

use vstd::prelude::*;
use vstd::string::StringExecFns;
use crate::definition::MatmulProblem;
use crate::error::{append_decimal, decimal, InvalidConfigError, MatmulSetupError};

verus! {

/// The words with which a problem whose `m` is not 1 is refused as a
/// vector-matrix product.
pub open spec fn vecmat_message(m: nat) -> Seq<char> {
    "m must equal 1 to qualify as a vecmat problem, got "@ + decimal(m)
}

/// Accepts exactly the problems with one row on the left (`m == 1`), which a
/// vector-matrix routine can compute.
pub fn validate_vecmat_problem(problem: &MatmulProblem) -> (r: Result<(), MatmulSetupError>)
    ensures
        r is Ok <==> problem.m == 1,
        r is Err ==> r->Err_0.message_view() == vecmat_message(problem.m as nat),
{
    if problem.m != 1 {
        let mut message = String::from_str("m must equal 1 to qualify as a vecmat problem, got ");
        append_decimal(&mut message, problem.m);
        return Err(MatmulSetupError::InvalidConfig(InvalidConfigError { message }));
    }
    Ok(())
}

} // verus!
