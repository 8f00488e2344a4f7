use vstd::prelude::*;

use crate::ids::Oid;

verus! {

/// The closed set of shapes a custom property value may take.
#[derive(Clone, Copy, PartialEq, Eq, Structural, Debug)]
pub enum PropertyType {
    Text,
    Number,
    Date,
    Select,
    MultiSelect,
    Checkbox,
}

/// A typed property value: one variant per `PropertyType`, carrying exactly
/// the payload legal for that tag. Dates are day numbers; numbers are kept
/// as integers.
#[derive(Debug)]
pub enum PropValueType {
    Text(String),
    Number(i64),
    Date(i64),
    Select(String),
    MultiSelect(Vec<String>),
    Checkbox(bool),
}

/// Why a property create or update was rejected.
#[derive(Clone, Copy, PartialEq, Eq, Structural, Debug)]
pub enum ValidationError {
    TypeMismatch,
    ShapeError,
}

/// The type tag a value's variant corresponds to.
pub open spec fn tag_of(v: PropValueType) -> PropertyType {
    match v {
        PropValueType::Text(_) => PropertyType::Text,
        PropValueType::Number(_) => PropertyType::Number,
        PropValueType::Date(_) => PropertyType::Date,
        PropValueType::Select(_) => PropertyType::Select,
        PropValueType::MultiSelect(_) => PropertyType::MultiSelect,
        PropValueType::Checkbox(_) => PropertyType::Checkbox,
    }
}

/// Two values are the same typed value: same variant, same payload
/// (string payloads compared as values, list payloads element by element).
pub open spec fn pv_eq(a: PropValueType, b: PropValueType) -> bool {
    match (a, b) {
        (PropValueType::Text(x), PropValueType::Text(y)) => x == y,
        (PropValueType::Number(x), PropValueType::Number(y)) => x == y,
        (PropValueType::Date(x), PropValueType::Date(y)) => x == y,
        (PropValueType::Select(x), PropValueType::Select(y)) => x == y,
        (PropValueType::MultiSelect(x), PropValueType::MultiSelect(y)) => x@ == y@,
        (PropValueType::Checkbox(x), PropValueType::Checkbox(y)) => x == y,
        _ => false,
    }
}

/// Equality on optional values, `pv_eq` under `Some`.
pub open spec fn pv_opt_eq(a: Option<PropValueType>, b: Option<PropValueType>) -> bool {
    match (a, b) {
        (Option::None, Option::None) => true,
        (Option::Some(x), Option::Some(y)) => pv_eq(x, y),
        _ => false,
    }
}

/// Whether `s` occurs (as a character sequence) in the option list.
pub open spec fn in_options(opts: Seq<String>, s: String) -> bool {
    exists|i: int| 0 <= i < opts.len() && opts[i]@ == s@
}

/// Whether every string of `vs` occurs in the option list.
pub open spec fn all_in_options(opts: Seq<String>, vs: Seq<String>) -> bool {
    forall|i: int| 0 <= i < vs.len() ==> #[trigger] in_options(opts, vs[i])
}

/// Tag-specific payload shape: selection payloads must come from the
/// configured option set, when one is configured; every other payload is
/// well-shaped by construction.
pub open spec fn shape_ok(v: PropValueType, opts: Option<Vec<String>>) -> bool {
    match v {
        PropValueType::Select(s) => match opts {
            Option::None => true,
            Option::Some(o) => in_options(o@, s),
        },
        PropValueType::MultiSelect(vs) => match opts {
            Option::None => true,
            Option::Some(o) => all_in_options(o@, vs@),
        },
        _ => true,
    }
}

impl Clone for PropValueType {
    /// Cloning preserves the typed value.
    fn clone(&self) -> (r: Self)
        ensures
            pv_eq(*self, r),
    {
        match self {
            PropValueType::Text(s) => PropValueType::Text(s.clone()),
            PropValueType::Number(n) => PropValueType::Number(*n),
            PropValueType::Date(d) => PropValueType::Date(*d),
            PropValueType::Select(s) => PropValueType::Select(s.clone()),
            PropValueType::MultiSelect(vs) => {
                let c = vs.clone();
                proof {
                    assert(c@ =~= vs@);
                }
                PropValueType::MultiSelect(c)
            },
            PropValueType::Checkbox(b) => PropValueType::Checkbox(*b),
        }
    }
}

/// Checks that a value's variant matches the declared type tag; a mismatch
/// is `TypeMismatch`, never a silent coercion. No option set is consulted.
pub fn validate(prop_type: PropertyType, value: &PropValueType) -> (r: Result<
    (),
    ValidationError,
>)
    ensures
        r matches Ok(_) <==> tag_of(*value) == prop_type,
        tag_of(*value) != prop_type ==> r == Err::<(), ValidationError>(
            ValidationError::TypeMismatch,
        ),
{
    if tag_matches(prop_type, value) {
        Ok(())
    } else {
        Err(ValidationError::TypeMismatch)
    }
}

/// Whether the value's variant equals the declared tag.
fn tag_matches(prop_type: PropertyType, value: &PropValueType) -> (r: bool)
    ensures
        r == (tag_of(*value) == prop_type),
{
    match (value, prop_type) {
        (PropValueType::Text(_), PropertyType::Text) => true,
        (PropValueType::Number(_), PropertyType::Number) => true,
        (PropValueType::Date(_), PropertyType::Date) => true,
        (PropValueType::Select(_), PropertyType::Select) => true,
        (PropValueType::MultiSelect(_), PropertyType::MultiSelect) => true,
        (PropValueType::Checkbox(_), PropertyType::Checkbox) => true,
        _ => false,
    }
}

/// Whether `s` equals one of the strings in `opts`.
fn contains_str(opts: &Vec<String>, s: &String) -> (r: bool)
    ensures
        r == in_options(opts@, *s),
{
    let mut i: usize = 0;
    while i < opts.len()
        invariant
            0 <= i <= opts@.len(),
            forall|k: int| 0 <= k < i ==> opts@[k]@ != s@,
        decreases opts@.len() - i,
    {
        if opts[i].eq(s) {
            return true;
        }
        i += 1;
    }
    false
}

/// Checks the tag and then the payload shape against a configured option
/// set: a mismatched tag is `TypeMismatch`; a selection outside the set is
/// `ShapeError`.
pub fn validate_against(
    prop_type: PropertyType,
    value: &PropValueType,
    opts: &Option<Vec<String>>,
) -> (r: Result<(), ValidationError>)
    ensures
        r matches Ok(_) <==> tag_of(*value) == prop_type && shape_ok(*value, *opts),
        tag_of(*value) != prop_type ==> r == Err::<(), ValidationError>(
            ValidationError::TypeMismatch,
        ),
        tag_of(*value) == prop_type && !shape_ok(*value, *opts) ==> r == Err::<
            (),
            ValidationError,
        >(ValidationError::ShapeError),
{
    if !tag_matches(prop_type, value) {
        return Err(ValidationError::TypeMismatch);
    }
    match value {
        PropValueType::Select(s) => match opts {
            Option::Some(o) => {
                if contains_str(o, s) {
                    Ok(())
                } else {
                    Err(ValidationError::ShapeError)
                }
            },
            Option::None => Ok(()),
        },
        PropValueType::MultiSelect(vs) => match opts {
            Option::Some(o) => {
                let mut i: usize = 0;
                while i < vs.len()
                    invariant
                        0 <= i <= vs@.len(),
                        *value == PropValueType::MultiSelect(*vs),
                        *opts == (Option::Some(*o)),
                        tag_of(*value) == prop_type,
                        forall|k: int| 0 <= k < i ==> in_options(o@, vs@[k]),
                    decreases vs@.len() - i,
                {
                    if !contains_str(o, &vs[i]) {
                        proof {
                            assert(!in_options(o@, vs@[i as int]));
                            assert(!all_in_options(o@, vs@));
                        }
                        return Err(ValidationError::ShapeError);
                    }
                    i += 1;
                }
                Ok(())
            },
            Option::None => Ok(()),
        },
        _ => Ok(()),
    }
}

} // verus!
