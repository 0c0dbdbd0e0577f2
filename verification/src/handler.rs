//! The rules for declaring an event handler.
//!
//! The event is identified by the type of a parameter, not by the name of the function. A
//! handler is an asynchronous free function that is not generic, returns a result, takes at
//! least one parameter, and names the bot's data type in a `Context<D>` or `State<D>`
//! parameter.
use crate::text::{
    after_prefix, concat, decimal_text, decimal_u64, law_a_prefix_is_taken_off, str_eq,
    strip_prefix,
};
use vstd::prelude::*;
use vstd::string::*;

verus! {

/// The type of a parameter, as far as the rules look at it.
#[derive(Debug, Clone, PartialEq, Eq)]
pub struct PathType {
    /// The last segment of the path.
    pub segment: String,
    /// Whether its arguments stand in angle brackets and the first of them is a type.
    pub first_argument_is_type: bool,
}

/// A parameter of a function.
#[derive(Debug, Clone, PartialEq, Eq)]
pub enum Parameter {
    /// `self` in any form.
    Receiver,
    /// A parameter whose type is a path.
    Path(PathType),
    /// A parameter of any other type.
    Other,
}

/// What the rules look at of a function.
#[derive(Debug, Clone, PartialEq, Eq)]
pub struct Signature {
    /// Whether the function is asynchronous.
    pub is_async: bool,
    /// Whether it has generic parameters.
    pub is_generic: bool,
    /// Whether it declares a return type.
    pub returns: bool,
    /// Its parameters.
    pub parameters: Vec<Parameter>,
}

/// Why a function is not a handler.
#[derive(Debug, Clone, Copy, PartialEq, Eq, Structural)]
pub enum Refusal {
    /// The attribute was given arguments.
    AttributeArguments,
    /// The function is not asynchronous.
    NotAsync,
    /// The function is generic.
    Generic,
    /// The function returns nothing.
    NoResult,
    /// The parameter at this position is a receiver.
    Method(usize),
    /// The function has no parameters.
    NoParameters,
    /// No parameter names the bot's data type.
    NoDataType,
}

impl Refusal {
    /// The message of the compile error.
    pub fn message(&self) -> (r: &'static str)
        ensures
            r@ == (match *self {
                Refusal::AttributeArguments =>
                    "`#[event]` takes no arguments; the event is identified by the handler's parameter type"@,
                Refusal::NotAsync => "an event handler must be `async`"@,
                Refusal::Generic =>
                    "an event handler cannot be generic: it is stored as a value, so its type must be known at registration"@,
                Refusal::NoResult =>
                    "an event handler must return `Result<(), E>`, so a failure is reported rather than swallowed"@,
                Refusal::Method(_) => "an event handler is a free function, not a method"@,
                Refusal::NoParameters =>
                    "an event handler needs at least one parameter: the event it handles"@,
                Refusal::NoDataType =>
                    "an event handler must take a `Context<D>` or `State<D>` parameter, so the macro can name the bot's data type in the handler it returns"@,
            }),
    {
        match self {
            Refusal::AttributeArguments =>
                "`#[event]` takes no arguments; the event is identified by the handler's parameter type",
            Refusal::NotAsync => "an event handler must be `async`",
            Refusal::Generic =>
                "an event handler cannot be generic: it is stored as a value, so its type must be known at registration",
            Refusal::NoResult =>
                "an event handler must return `Result<(), E>`, so a failure is reported rather than swallowed",
            Refusal::Method(_) => "an event handler is a free function, not a method",
            Refusal::NoParameters =>
                "an event handler needs at least one parameter: the event it handles",
            Refusal::NoDataType =>
                "an event handler must take a `Context<D>` or `State<D>` parameter, so the macro can name the bot's data type in the handler it returns",
        }
    }
}

/// Whether a parameter names the bot's data type.
pub open spec fn names_data(p: Parameter) -> bool {
    p matches Parameter::Path(path) && (path.segment@ == "Context"@ || path.segment@ == "State"@)
        && path.first_argument_is_type
}

/// Position of the first receiver from `from` on, or the number of parameters.
pub open spec fn first_receiver(parameters: Seq<Parameter>, from: int) -> int
    decreases parameters.len() - from,
{
    if from < 0 || from >= parameters.len() {
        parameters.len() as int
    } else if parameters[from] is Receiver {
        from
    } else {
        first_receiver(parameters, from + 1)
    }
}

/// Position of the first parameter from `from` on that names the bot's data type, or the number
/// of parameters.
pub open spec fn first_data(parameters: Seq<Parameter>, from: int) -> int
    decreases parameters.len() - from,
{
    if from < 0 || from >= parameters.len() {
        parameters.len() as int
    } else if names_data(parameters[from]) {
        from
    } else {
        first_data(parameters, from + 1)
    }
}

/// Where a handler names its data type, or why it is not one. The first rule that is broken
/// counts.
pub open spec fn judged(has_arguments: bool, s: Signature) -> Result<int, Refusal> {
    let receiver = first_receiver(s.parameters@, 0);
    let data = first_data(s.parameters@, 0);
    if has_arguments {
        Err(Refusal::AttributeArguments)
    } else if !s.is_async {
        Err(Refusal::NotAsync)
    } else if s.is_generic {
        Err(Refusal::Generic)
    } else if !s.returns {
        Err(Refusal::NoResult)
    } else if receiver < s.parameters@.len() {
        Err(Refusal::Method(receiver as usize))
    } else if s.parameters@.len() == 0 {
        Err(Refusal::NoParameters)
    } else if data >= s.parameters@.len() {
        Err(Refusal::NoDataType)
    } else {
        Ok(data)
    }
}

/// The position of the parameter that names the bot's data type, or why the function is not a
/// handler.
pub fn check_handler(has_arguments: bool, signature: &Signature) -> (r: Result<usize, Refusal>)
    ensures
        match judged(has_arguments, *signature) {
            Ok(at) => r is Ok && r->Ok_0 == at && at < signature.parameters@.len(),
            Err(refusal) => r == Err::<usize, Refusal>(refusal),
        },
{
    if has_arguments {
        return Err(Refusal::AttributeArguments);
    }
    if !signature.is_async {
        return Err(Refusal::NotAsync);
    }
    if signature.is_generic {
        return Err(Refusal::Generic);
    }
    if !signature.returns {
        return Err(Refusal::NoResult);
    }
    match collect_parameters(&signature.parameters) {
        Some(at) => {
            return Err(Refusal::Method(at));
        },
        None => {},
    }
    if signature.parameters.len() == 0 {
        return Err(Refusal::NoParameters);
    }
    match infer_data_type(&signature.parameters) {
        Some(at) => Ok(at),
        None => Err(Refusal::NoDataType),
    }
}

/// The position of the first receiver, if any.
pub fn collect_parameters(parameters: &Vec<Parameter>) -> (r: Option<usize>)
    ensures
        match r {
            Some(at) => at == first_receiver(parameters@, 0) && at < parameters@.len(),
            None => first_receiver(parameters@, 0) == parameters@.len(),
        },
{
    let mut i: usize = 0;
    while i < parameters.len()
        invariant
            i <= parameters@.len(),
            first_receiver(parameters@, 0) == first_receiver(parameters@, i as int),
        decreases parameters@.len() - i,
    {
        match &parameters[i] {
            Parameter::Receiver => {
                return Some(i);
            },
            _ => {},
        }
        i += 1;
    }
    None
}

/// The position of the first parameter that names the bot's data type, if any.
pub fn infer_data_type(parameters: &Vec<Parameter>) -> (r: Option<usize>)
    ensures
        match r {
            Some(at) => at == first_data(parameters@, 0) && at < parameters@.len(),
            None => first_data(parameters@, 0) == parameters@.len(),
        },
{
    let mut i: usize = 0;
    while i < parameters.len()
        invariant
            i <= parameters@.len(),
            first_data(parameters@, 0) == first_data(parameters@, i as int),
        decreases parameters@.len() - i,
    {
        let names = match &parameters[i] {
            Parameter::Path(path) => (str_eq(path.segment.as_str(), "Context") || str_eq(
                path.segment.as_str(),
                "State",
            )) && path.first_argument_is_type,
            _ => false,
        };
        if names {
            return Some(i);
        }
        i += 1;
    }
    None
}

/// An identifier without the prefix that lets it be a keyword.
pub open spec fn plain_name(name: Seq<char>) -> Seq<char> {
    match after_prefix(name, "r#"@) {
        Some(rest) => rest,
        None => name,
    }
}

/// The name of the inner function that the body moves into.
pub fn inner_name(name: &str) -> (r: String)
    ensures
        r@ == "__rocketsocket_inner_"@ + plain_name(name@),
{
    let plain = match strip_prefix(name, "r#") {
        Some(rest) => rest,
        None => name,
    };
    concat("__rocketsocket_inner_", plain)
}

/// The name that the extracted parameter at a position is bound to.
pub fn binding_name(index: u64) -> (r: String)
    ensures
        r@ == "__arg"@ + decimal_text(index as int),
{
    concat("__arg", decimal_u64(index).as_str())
}

proof fn lemma_first_receiver(parameters: Seq<Parameter>, from: int)
    requires
        0 <= from <= parameters.len(),
    ensures
        from <= first_receiver(parameters, from) <= parameters.len(),
        first_receiver(parameters, from) < parameters.len() ==> parameters[first_receiver(
            parameters,
            from,
        )] is Receiver,
        forall|i: int|
            from <= i < first_receiver(parameters, from) ==> !((#[trigger] parameters[i]) is Receiver),
    decreases parameters.len() - from,
{
    if from < parameters.len() && !(parameters[from] is Receiver) {
        lemma_first_receiver(parameters, from + 1);
    }
}

proof fn lemma_first_data(parameters: Seq<Parameter>, from: int)
    requires
        0 <= from <= parameters.len(),
    ensures
        from <= first_data(parameters, from) <= parameters.len(),
        first_data(parameters, from) < parameters.len() ==> names_data(
            parameters[first_data(parameters, from)],
        ),
        forall|i: int|
            from <= i < first_data(parameters, from) ==> !names_data(#[trigger] parameters[i]),
    decreases parameters.len() - from,
{
    if from < parameters.len() && !names_data(parameters[from]) {
        lemma_first_data(parameters, from + 1);
    }
}

/// A parameter names the bot's data type where it is a `Context` or a `State` whose first argument
/// is a type.
pub proof fn law_what_names_the_data_type(p: Parameter)
    ensures
        names_data(p) <==> match p {
            Parameter::Path(path) => path.first_argument_is_type && (path.segment@ == "Context"@
                || path.segment@ == "State"@),
            _ => false,
        },
{
}

/// A function is a handler where the attribute has no arguments, and the function is asynchronous,
/// not generic, returns something, is no method and names the bot's data type; the first parameter
/// that does so counts. Otherwise the first of these that fails is the reason.
pub proof fn law_what_a_handler_is(has_arguments: bool, s: Signature)
    ensures
        judged(has_arguments, s) matches Ok(at) ==> !has_arguments && s.is_async && !s.is_generic
            && s.returns && 0 <= at < s.parameters@.len() && names_data(s.parameters@[at]) && (
        forall|i: int| 0 <= i < at ==> !names_data(#[trigger] s.parameters@[i])) && (forall|i: int|
            0 <= i < s.parameters@.len() ==> !((#[trigger] s.parameters@[i]) is Receiver)),
        has_arguments <==> judged(has_arguments, s) == Err::<int, Refusal>(
            Refusal::AttributeArguments,
        ),
        !has_arguments && !s.is_async <==> judged(has_arguments, s) == Err::<int, Refusal>(
            Refusal::NotAsync,
        ),
        !has_arguments && s.is_async && s.is_generic <==> judged(has_arguments, s) == Err::<
            int,
            Refusal,
        >(Refusal::Generic),
        !has_arguments && s.is_async && !s.is_generic && !s.returns <==> judged(has_arguments, s)
            == Err::<int, Refusal>(Refusal::NoResult),
        judged(has_arguments, s) matches Err(Refusal::Method(at)) ==> at < s.parameters@.len()
            && s.parameters@[at as int] is Receiver && forall|i: int|
            0 <= i < at ==> !((#[trigger] s.parameters@[i]) is Receiver),
        judged(has_arguments, s) == Err::<int, Refusal>(Refusal::NoParameters)
            ==> s.parameters@.len() == 0,
        judged(has_arguments, s) == Err::<int, Refusal>(Refusal::NoDataType) ==> s.parameters@.len()
            > 0 && forall|i: int|
            0 <= i < s.parameters@.len() ==> !names_data(#[trigger] s.parameters@[i]),
        !has_arguments && s.is_async && !s.is_generic && s.returns && (exists|i: int|
            0 <= i < s.parameters@.len() && names_data(#[trigger] s.parameters@[i])) && (forall|
            i: int,
        | 0 <= i < s.parameters@.len() ==> !((#[trigger] s.parameters@[i]) is Receiver))
            ==> judged(has_arguments, s) is Ok,
{
    lemma_first_receiver(s.parameters@, 0);
    lemma_first_data(s.parameters@, 0);
    let at = first_receiver(s.parameters@, 0);
    assert(s.parameters@.len() == s.parameters.len());
    if at < s.parameters@.len() {
        assert(s.parameters@[at] is Receiver);
    }
}

/// The inner function is named after the handler.
pub proof fn law_a_raw_name_is_made_plain(name: Seq<char>)
    ensures
        plain_name("r#"@ + name) == name,
        plain_name(name) == name || "r#"@ + plain_name(name) == name,
{
    law_a_prefix_is_taken_off("r#"@, name, name);
}

} // verus!
