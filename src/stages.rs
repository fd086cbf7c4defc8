//! Decisions of the execution pipeline's stages.
//!
//! Each function takes what a stage produced (a supplied value, the errors
//! a check returned, what a hook answered) and decides whether the pipeline
//! goes on, and with which error it stops.

use vstd::prelude::*;
use crate::error::{UdfError, ValidationError};
use crate::parameters::{names_joined, CurveParameter, ParameterValue};
use crate::types::CurveDataType;

verus! {

/// Texts of validation errors, separated by `"; "`.
pub open spec fn texts_joined(es: Seq<ValidationError>) -> Seq<char>
    decreases es.len(),
{
    if es.len() == 0 {
        Seq::empty()
    } else if es.len() == 1 {
        es[0].text()
    } else {
        texts_joined(es.drop_last()) + "; "@ + es.last().text()
    }
}

/// Joins the texts of validation errors with `"; "`.
pub fn join_validation_errors(errors: &Vec<ValidationError>) -> (r: String)
    ensures
        r@ == texts_joined(errors@),
{
    let n = errors.len();
    let mut r = String::new();
    let mut i: usize = 0;
    while i < n
        invariant
            n == errors@.len(),
            i <= n,
            r@ == texts_joined(errors@.subrange(0, i as int)),
        decreases n - i,
    {
        if i > 0 {
            r.append("; ");
        }
        let t = errors[i].to_text();
        r.append(t.as_str());
        proof {
            let s = errors@.subrange(0, i + 1);
            assert(s.drop_last() =~= errors@.subrange(0, i as int));
        }
        i = i + 1;
    }
    proof {
        assert(errors@.subrange(0, n as int) =~= errors@);
    }
    r
}

/// A supplied value is missing when it is absent or `Null`.
pub open spec fn is_missing<N>(supplied: Option<ParameterValue<N>>) -> bool {
    match supplied {
        Some(v) => v is Null,
        None => true,
    }
}

/// Text of the error for a required parameter without a value.
pub open spec fn required_text(label: Seq<char>) -> Seq<char> {
    "'"@ + label + "' is required"@
}

/// Decides the value that a declared parameter is validated with.
///
/// A missing value takes the definition's default, or stays `Null` when there
/// is none; a present value is kept as it is, valid or not. A required
/// parameter that is missing and has no default is an error on its own name.
pub fn resolve_parameter<N>(
    name: &str,
    label: &str,
    required: bool,
    default: Option<ParameterValue<N>>,
    supplied: Option<ParameterValue<N>>,
) -> (r: Result<ParameterValue<N>, ValidationError>)
    ensures
        r.is_err() == (is_missing(supplied) && required && default.is_none()),
        r matches Err(e) ==> e.field@ == name@ && e.message@ == required_text(label@) && e.suggestion.is_none(),
        r matches Ok(v) ==> v == (if is_missing(supplied) {
            match default {
                Some(d) => d,
                None => ParameterValue::Null,
            }
        } else {
            supplied.unwrap()
        }),
{
    let missing = match &supplied {
        Some(v) => v.is_null(),
        None => true,
    };
    if !missing {
        return Ok(supplied.unwrap());
    }
    match default {
        Some(d) => Ok(d),
        None => {
            if required {
                let mut msg = "'".to_owned();
                msg.append(label);
                msg.append("' is required");
                Err(ValidationError::new(name, msg.as_str()))
            } else {
                Ok(ParameterValue::Null)
            }
        },
    }
}

/// Ends a validation stage: no error lets the pipeline go on; otherwise it
/// stops with `ParameterValidation` carrying every error's text.
pub fn validation_outcome(errors: Vec<ValidationError>) -> (r: Result<(), UdfError>)
    ensures
        r.is_ok() == (errors@.len() == 0),
        r matches Err(e) ==> e matches UdfError::ParameterValidation(m) && m@ == texts_joined(errors@),
{
    if errors.len() == 0 {
        Ok(())
    } else {
        Err(UdfError::ParameterValidation(join_validation_errors(&errors)))
    }
}

/// Checks a loaded curve's type against its parameter's allowed types.
pub fn check_curve_type(param: &CurveParameter, curve_type: CurveDataType) -> (r: Result<(), UdfError>)
    ensures
        r.is_ok() == param.allows(curve_type),
        r matches Err(e) ==> e matches UdfError::CurveTypeMismatch { expected, actual }
            && expected@ == names_joined(param.allowed_types@)
            && actual@ == curve_type.spec_display_name(),
{
    if param.is_type_allowed(curve_type) {
        Ok(())
    } else {
        Err(UdfError::CurveTypeMismatch {
            expected: param.allowed_types_display(),
            actual: curve_type.display_name().to_owned(),
        })
    }
}

/// Ends the pre-check stage on what `can_execute` returned.
pub fn can_execute_outcome(can_execute: bool) -> (r: Result<(), UdfError>)
    ensures
        r.is_ok() == can_execute,
        r matches Err(e) ==> e matches UdfError::PreCheckFailed(m) && m@ == "UDF cannot execute in current context"@,
{
    if can_execute {
        Ok(())
    } else {
        Err(UdfError::PreCheckFailed("UDF cannot execute in current context".to_owned()))
    }
}

/// Ends the prepare stage on what `prepare` returned: its error passes on,
/// and a refusal stops the pipeline.
pub fn prepare_outcome(prepared: Result<bool, UdfError>) -> (r: Result<(), UdfError>)
    ensures
        r.is_ok() == (prepared == Ok::<bool, UdfError>(true)),
        prepared matches Err(e0) ==> r == Err::<(), UdfError>(e0),
        prepared == Ok::<bool, UdfError>(false) ==> (r matches Err(e) && e matches UdfError::PreCheckFailed(m)
            && m@ == "Pre-execution check failed"@),
{
    match prepared {
        Ok(true) => Ok(()),
        Ok(false) => Err(UdfError::PreCheckFailed("Pre-execution check failed".to_owned())),
        Err(e) => Err(e),
    }
}

/// Error for a UDF id that the registry does not hold.
pub fn not_found(udf_id: &str) -> (r: UdfError)
    ensures
        r matches UdfError::UdfNotFound(m) && m@ == udf_id@,
{
    UdfError::UdfNotFound(udf_id.to_owned())
}

} // verus!
