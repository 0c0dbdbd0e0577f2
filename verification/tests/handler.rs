//! What may be declared as an event handler.
use rocketsocket::handler::{
    binding_name, check_handler, inner_name, Parameter, PathType, Refusal, Signature,
};

fn path(segment: &str, first_argument_is_type: bool) -> Parameter {
    Parameter::Path(PathType { segment: segment.to_owned(), first_argument_is_type })
}

fn signature(parameters: Vec<Parameter>) -> Signature {
    Signature { is_async: true, is_generic: false, returns: true, parameters }
}

#[test]
fn the_data_type_comes_from_the_first_context_or_state() {
    let handler =
        signature(vec![path("RoomMessage", false), path("State", true), path("Context", true)]);
    assert_eq!(check_handler(false, &handler), Ok(1));
    // A bare `Context` names no data type.
    let bare = signature(vec![path("Context", false), path("Context", true)]);
    assert_eq!(check_handler(false, &bare), Ok(1));
}

#[test]
fn each_rule_has_its_message() {
    let good = signature(vec![path("Context", true)]);
    let cases = [
        (true, good.clone(), Refusal::AttributeArguments, "takes no arguments"),
        (false, Signature { is_async: false, ..good.clone() }, Refusal::NotAsync, "must be `async`"),
        (false, Signature { is_generic: true, ..good.clone() }, Refusal::Generic, "cannot be generic"),
        (false, Signature { returns: false, ..good.clone() }, Refusal::NoResult, "must return"),
        (
            false,
            signature(vec![path("Context", true), Parameter::Receiver]),
            Refusal::Method(1),
            "free function",
        ),
        (false, signature(vec![]), Refusal::NoParameters, "at least one parameter"),
        (
            false,
            signature(vec![Parameter::Other, path("RoomMessage", true)]),
            Refusal::NoDataType,
            "`Context<D>` or `State<D>`",
        ),
    ];
    for (arguments, handler, refusal, text) in cases {
        assert_eq!(check_handler(arguments, &handler), Err(refusal));
        assert!(refusal.message().contains(text), "{}", refusal.message());
    }
}

#[test]
fn the_first_broken_rule_counts() {
    let bad = Signature {
        is_async: false,
        is_generic: true,
        returns: false,
        parameters: vec![Parameter::Receiver],
    };
    assert_eq!(check_handler(true, &bad), Err(Refusal::AttributeArguments));
    assert_eq!(check_handler(false, &bad), Err(Refusal::NotAsync));
}

#[test]
fn the_names_are_derived_from_the_handler() {
    assert_eq!(inner_name("on_message"), "__rocketsocket_inner_on_message");
    assert_eq!(inner_name("r#move"), "__rocketsocket_inner_move");
    assert_eq!(binding_name(0), "__arg0");
    assert_eq!(binding_name(12), "__arg12");
}
