//! The pure functions the model can call: integer addition and subtraction,
//! with their arguments read from the call's JSON text.

use std::str::FromStr;
use vstd::prelude::*;
use crate::text::{concat, i64_to_string, int_text, str_equal};

verus! {

/// The sum of two integers.
pub fn add(a: i64, b: i64) -> (r: i64)
    requires
        i64::MIN <= a + b <= i64::MAX,
    ensures
        r == a + b,
{
    a + b
}

/// The difference of two integers.
pub fn sub(a: i64, b: i64) -> (r: i64)
    requires
        i64::MIN <= a - b <= i64::MAX,
    ensures
        r == a - b,
{
    a - b
}

/// What the JSON text of a call's arguments holds under one key: the text
/// does not parse (with the parser's message), or the member, read as an
/// `i64` where it is one, and its `Debug` text.
pub enum JsonMember {
    Invalid(String),
    Field { as_i64: Option<i64>, debug: String },
}

/// The mathematical value of a [`JsonMember`].
pub enum JsonMemberModel {
    Invalid(Seq<char>),
    Field { as_i64: Option<i64>, debug: Seq<char> },
}

impl View for JsonMember {
    type V = JsonMemberModel;

    open spec fn view(&self) -> JsonMemberModel {
        match self {
            JsonMember::Invalid(e) => JsonMemberModel::Invalid(e@),
            JsonMember::Field { as_i64, debug } => JsonMemberModel::Field {
                as_i64: *as_i64,
                debug: debug@,
            },
        }
    }
}

/// What serde_json makes of the member `key` of the JSON text `text`.
pub uninterp spec fn json_member_of(text: Seq<char>, key: Seq<char>) -> JsonMemberModel;

/// Parses `text` with serde_json (`Value::from_str`) and reads its member
/// `key` (indexing a `Value` by a key gives `null` where the member is
/// missing or the value is no object) with `Value::as_i64` and with
/// `Debug`. Nothing is claimed of the outcome beyond that it is a function
/// of the two texts.
#[verifier::external_body]
fn json_member(text: &str, key: &str) -> (r: JsonMember)
    ensures
        r@ == json_member_of(text@, key@),
{
    match serde_json::Value::from_str(text) {
        Ok(value) => JsonMember::Field { as_i64: value[key].as_i64(), debug: format!("{:?}", value[key]) },
        Err(error) => JsonMember::Invalid(error.to_string()),
    }
}

/// Whether `name` is one of the pure functions.
pub open spec fn is_pure_function(name: Seq<char>) -> bool {
    name == "add"@ || name == "sub"@
}

/// The value of a pure function on two integers.
pub open spec fn pure_value(name: Seq<char>, a: i64, b: i64) -> int {
    if name == "add"@ {
        a + b
    } else {
        a - b
    }
}

/// Whether the function's value on the members fits in an `i64` wherever it
/// is computed.
pub open spec fn pure_function_fits(name: Seq<char>, a: JsonMemberModel, b: JsonMemberModel) -> bool {
    is_pure_function(name) ==> match (a, b) {
        (
            JsonMemberModel::Field { as_i64: Some(x), .. },
            JsonMemberModel::Field { as_i64: Some(y), .. },
        ) => i64::MIN <= pure_value(name, x, y) <= i64::MAX,
        _ => true,
    }
}

/// The outcome of a pure function call: a parse error first, then an
/// unknown name, then the first argument that is not an `i64`, then the
/// value as decimal text.
pub open spec fn pure_function_outcome(
    name: Seq<char>,
    a: JsonMemberModel,
    b: JsonMemberModel,
) -> Result<Seq<char>, Seq<char>> {
    match a {
        JsonMemberModel::Invalid(e) => Err(e),
        JsonMemberModel::Field { as_i64: xa, debug: da } => if !is_pure_function(name) {
            Err("unknown tool: "@ + name)
        } else {
            match xa {
                None => Err("a should be i64: "@ + da),
                Some(x) => match b {
                    JsonMemberModel::Invalid(e) => Err(e),
                    JsonMemberModel::Field { as_i64: xb, debug: db } => match xb {
                        None => Err("b should be i64: "@ + db),
                        Some(y) => Ok(int_text(pure_value(name, x, y))),
                    },
                },
            }
        },
    }
}

/// Whether a result agrees with the model of an outcome.
pub open spec fn outcome_matches(r: Result<String, String>, o: Result<Seq<char>, Seq<char>>) -> bool {
    match o {
        Ok(v) => r matches Ok(s) && s@ == v,
        Err(e) => r matches Err(s) && s@ == e,
    }
}

/// Evaluates a pure function on the members that its call's arguments hold.
pub fn evaluate_pure_function(name: &str, a: &JsonMember, b: &JsonMember) -> (r: Result<
    String,
    String,
>)
    requires
        pure_function_fits(name@, a@, b@),
    ensures
        outcome_matches(r, pure_function_outcome(name@, a@, b@)),
{
    let (x, da) = match a {
        JsonMember::Invalid(e) => {
            return Err(e.clone());
        },
        JsonMember::Field { as_i64, debug } => (*as_i64, debug),
    };
    let is_add = str_equal(name, "add");
    let is_sub = str_equal(name, "sub");
    if !is_add && !is_sub {
        return Err(concat("unknown tool: ", name));
    }
    let x = match x {
        None => {
            return Err(concat("a should be i64: ", da.as_str()));
        },
        Some(x) => x,
    };
    let y = match b {
        JsonMember::Invalid(e) => {
            return Err(e.clone());
        },
        JsonMember::Field { as_i64: None, debug } => {
            return Err(concat("b should be i64: ", debug.as_str()));
        },
        JsonMember::Field { as_i64: Some(y), .. } => *y,
    };
    let value = if is_add {
        self::add(x, y)
    } else {
        self::sub(x, y)
    };
    Ok(i64_to_string(value))
}

/// Runs the pure function `name` on the JSON text of its arguments.
pub fn run_pure_function(name: &str, arguments: &str) -> (r: Result<String, String>)
    requires
        pure_function_fits(
            name@,
            json_member_of(arguments@, "a"@),
            json_member_of(arguments@, "b"@),
        ),
    ensures
        outcome_matches(
            r,
            pure_function_outcome(
                name@,
                json_member_of(arguments@, "a"@),
                json_member_of(arguments@, "b"@),
            ),
        ),
{
    let a = json_member(arguments, "a");
    let b = json_member(arguments, "b");
    evaluate_pure_function(name, &a, &b)
}

/// Runs the pure function `name` on its arguments where its value fits in
/// an `i64`; `None` where it would overflow.
pub fn try_run_pure_function(name: &str, arguments: &str) -> (r: Option<Result<String, String>>)
    ensures
        match r {
            None => !pure_function_fits(
                name@,
                json_member_of(arguments@, "a"@),
                json_member_of(arguments@, "b"@),
            ),
            Some(o) => pure_function_fits(
                name@,
                json_member_of(arguments@, "a"@),
                json_member_of(arguments@, "b"@),
            ) && outcome_matches(
                o,
                pure_function_outcome(
                    name@,
                    json_member_of(arguments@, "a"@),
                    json_member_of(arguments@, "b"@),
                ),
            ),
        },
{
    let a = json_member(arguments, "a");
    let b = json_member(arguments, "b");
    let fits = match (&a, &b) {
        (JsonMember::Field { as_i64: Some(x), .. }, JsonMember::Field { as_i64: Some(y), .. }) => {
            if str_equal(name, "add") {
                x.checked_add(*y).is_some()
            } else if str_equal(name, "sub") {
                x.checked_sub(*y).is_some()
            } else {
                true
            }
        },
        _ => true,
    };
    if fits {
        Some(run_pure_function(name, arguments))
    } else {
        None
    }
}

} // verus!
