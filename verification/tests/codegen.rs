//! Reading stream declarations and writing the catalog.
use rocketsocket::codegen::parse::{parse, Catalog, KeyPattern};
use rocketsocket::codegen::render::{quote, render_catalog, splice, BEGIN_MARKER, END_MARKER};
use rocketsocket::codegen::report::{parse_options, report, verdict, Options, Verdict};
use rocketsocket::model::catalog;

fn interface(body: &str) -> String {
    format!("export interface StreamerEvents {{\n{body}\n}}\n")
}

/// The declarations that the catalog records, with the comments that upstream has.
fn declarations() -> String {
    let mut body = String::new();
    for stream in catalog::streams() {
        body.push_str(&format!("'{}': [\n", stream.name));
        for event in &stream.events {
            let key = match event.key {
                catalog::KeyPattern::Literal(key) => format!("'{key}'"),
                catalog::KeyPattern::Suffix(suffix) => format!("`${{string}}/{suffix}`"),
                catalog::KeyPattern::Prefix(prefix) => format!("`{prefix}/${{string}}`"),
                catalog::KeyPattern::Any => "string".to_owned(),
            };
            body.push_str(&format!("\t{{ key: {key}; args: {} }}, /* live */\n", event.args));
        }
        body.push_str("\t// { key: `${string}/gone`; args: [] },\n];\n");
    }
    interface(&body)
}

fn catalog() -> Catalog {
    parse(&declarations()).expect("the declarations parse")
}

#[test]
fn the_vendored_catalog_parses_completely() {
    let catalog = catalog();
    assert_eq!(catalog.streams.len(), 17);
    assert_eq!(catalog.event_count(), 80);
    // Both ends of the interface, so a truncated read would be caught.
    assert_eq!(catalog.streams[0].name, "roles");
    assert_eq!(catalog.streams[16].name, "local");
}

#[test]
fn the_catalog_reads_back_from_its_own_declarations() {
    let parsed = catalog();
    for (declared, read) in catalog::streams().iter().zip(&parsed.streams) {
        assert_eq!(declared.name, read.name);
        assert_eq!(declared.events.len(), read.events.len());
        for (entry, event) in declared.events.iter().zip(&read.events) {
            let key = match entry.key {
                catalog::KeyPattern::Literal(key) => KeyPattern::Literal(key.to_owned()),
                catalog::KeyPattern::Suffix(key) => KeyPattern::Suffix(key.to_owned()),
                catalog::KeyPattern::Prefix(key) => KeyPattern::Prefix(key.to_owned()),
                catalog::KeyPattern::Any => KeyPattern::Any,
            };
            assert_eq!(key, event.key);
            assert_eq!(entry.arities, event.args.arities, "{}", entry.args);
            assert_eq!(entry.variadic, event.args.variadic);
            assert_eq!(entry.args, event.args.source);
        }
    }
}

#[test]
fn composite_keys_are_recognised_as_templates() {
    let notify_room = catalog().stream("notify-room").expect("declared").clone();
    assert_eq!(notify_room.events.len(), 8);
    assert_eq!(notify_room.events[0].key, KeyPattern::Suffix("user-activity".to_owned()));
    assert_eq!(notify_room.events[1].key, KeyPattern::Suffix("typing".to_owned()));

    let queue = catalog().stream("livechat-inquiry-queue-observer").expect("declared").clone();
    assert_eq!(queue.events[0].key, KeyPattern::Literal("public".to_owned()));
    assert_eq!(queue.events[1].key, KeyPattern::Prefix("department".to_owned()));
    assert_eq!(queue.events[3].key, KeyPattern::Any, "a bare `${{string}}` is a free key");

    let messages = catalog().stream("room-messages").expect("declared").clone();
    assert_eq!(messages.events[0].key, KeyPattern::Literal("__my_messages__".to_owned()));
    assert_eq!(messages.events[1].key, KeyPattern::Any, "bare `string` is a free key");

    let free = parse(&interface("'s': [{ key: `${string}`; args: [A] }];")).expect("parses");
    assert_eq!(free.streams[0].events[0].key, KeyPattern::Any);
}

/// The commas inside `Pick<IUser, '_id' | 'name'>` belong to the generic argument list,
/// not to the tuple. Counting them would report arity 2 for a one-element tuple.
#[test]
fn generic_arguments_do_not_inflate_the_arity() {
    let logged = catalog().stream("notify-logged").expect("declared").clone();
    let name_changed = logged
        .events
        .iter()
        .find(|event| event.key == KeyPattern::Literal("Users:NameChanged".to_owned()))
        .expect("declared");
    assert_eq!(name_changed.args.arities, vec![1]);
    assert_eq!(name_changed.args.source, "[Pick<IUser, '_id' | 'name' | 'username'>]");
}

#[test]
fn a_union_of_tuples_reports_every_arity_it_can_have() {
    let all = catalog().stream("notify-all").expect("declared").clone();
    let license = all
        .events
        .iter()
        .find(|event| event.key == KeyPattern::Literal("license".to_owned()))
        .expect("declared");
    assert_eq!(license.args.arities, vec![0, 1]);
    assert!(!license.args.variadic);

    let local = catalog().stream("local").expect("declared").clone();
    assert!(local.events[0].args.variadic, "`any[]` has no fixed arity");
    assert!(local.events[0].args.arities.is_empty());
}

#[test]
fn comments_do_not_reach_the_parser() {
    assert_eq!(catalog().stream("notify-room").expect("declared").events.len(), 8);
    assert_eq!(catalog().stream("notify-logged").expect("declared").events.len(), 14);
}

#[test]
fn a_shape_the_parser_does_not_understand_is_an_error_not_a_skip() {
    let cases = [
        // An entry member that is neither `key` nor `args`.
        "'s': [{ key: 'k'; args: []; deprecated: true }];",
        // A value that is not an array of entries.
        "'s': SomeOtherType;",
        // An entry that is not an object.
        "'s': [SomeEntry];",
        // A key form with no fixed part to match on.
        "'s': [{ key: `${string}x${string}`; args: [] }];",
        // A key that is not a string at all.
        "'s': [{ key: 42; args: [] }];",
        // An args type that is neither a tuple nor an array.
        "'s': [{ key: 'k'; args: Foo }];",
        // A missing member.
        "'s': [{ key: 'k' }];",
        "'s': [{ args: [] }];",
        // An unbalanced delimiter.
        "'s': [{ key: 'k'; args: [Foo };",
    ];
    for case in cases {
        let source = interface(case);
        let error = parse(&source).expect_err(&format!("`{case}` must not parse"));
        assert!(!error.message.is_empty());
        assert!(error.line >= 1);
    }
}

#[test]
fn a_stream_declaring_no_events_is_an_error() {
    // Silently accepting this would produce a stream nothing can ever match.
    parse(&interface("'s': [];")).expect_err("an empty stream must not parse");
}

#[test]
fn a_missing_interfaceis_an_error() {
    parse("export type Foo = 1;").expect_err("no StreamerEvents means no catalog");
}

#[test]
fn the_error_points_at_the_offending_line() {
    let source = interface("'a': [{ key: 'k'; args: [] }];\n'b': [{ key: 'k'; oops: [] }];");
    let error = parse(&source).expect_err("must not parse");
    assert_eq!(error.line, 3, "line 1 is the interface header");
    assert!(error.message.contains("oops"), "{}", error.message);
    assert!(error.context.contains("oops"));
}

#[test]
fn a_malformed_string_literal_errors_instead_of_panicking() {
    for case in ["'\\", "\"\\", "`\\", "'\\\u{e9}", "'\\\u{e9}' ", "'unterminated"] {
        let error = parse(case).expect_err("no interface, so this must be an error");
        assert!(!error.message.is_empty(), "{case:?}");
    }
    // …and the same byte sequences inside an otherwise well-formed interface: an escape
    // is rejected by `parse_key`, but the scanner must reach that check without slicing
    // through the middle of the `\u{e9}`.
    let source = interface("'s': [{ key: 'a\\\u{e9}b'; args: [A] }];");
    let error = parse(&source).expect_err("an escaped key is not a plain literal");
    assert!(error.message.contains("plain literal"), "{}", error.message);
}

#[test]
fn optional_tuple_elements_widen_the_arity_instead_of_being_counted_as_required() {
    let messages = parse(&interface(
        "'room-messages': [{ key: '__my_messages__'; args: [IMessage] }, { key: string; args: [message: IMessage, user?: IUser, room?: IRoom] }];",
    ))
    .expect("parses");
    assert_eq!(messages.streams[0].events[1].args.arities, vec![1, 2, 3]);

    let parsed =
        parse(&interface("'s': [{ key: 'k'; args: [a: A, b?: B, c?: C] }];")).expect("parses");
    assert_eq!(parsed.streams[0].events[0].args.arities, vec![1, 2, 3]);

    // A bare optional element with no label, and an all-optional tuple.
    let bare = parse(&interface("'s': [{ key: 'k'; args: [A, B?] }];")).expect("parses");
    assert_eq!(bare.streams[0].events[0].args.arities, vec![1, 2]);
    let all = parse(&interface("'s': [{ key: 'k'; args: [A?] }];")).expect("parses");
    assert_eq!(all.streams[0].events[0].args.arities, vec![0, 1]);

    // A `?` belonging to an object member is not the tuple's.
    let nested =
        parse(&interface("'s': [{ key: 'k'; args: [{ until: Date; tmid?: string }] }];"))
            .expect("parses");
    assert_eq!(nested.streams[0].events[0].args.arities, vec![1]);
}

#[test]
fn a_rest_element_is_an_error_not_a_slot() {
    parse(&interface("'s': [{ key: 'k'; args: [a: A, ...rest: B[]] }];"))
        .expect_err("a rest element has no fixed arity");
}

#[test]
fn an_arrow_type_inside_a_generic_does_not_inflate_the_arity() {
    let parsed = parse(&interface("'s': [{ key: 'k'; args: [Foo<() => void, Bar>] }];"))
        .expect("parses");
    assert_eq!(parsed.streams[0].events[0].args.arities, vec![1]);

    // A plain nested generic still closes normally.
    let plain =
        parse(&interface("'s': [{ key: 'k'; args: [Map<K, Set<V>>, X] }];")).expect("parses");
    assert_eq!(plain.streams[0].events[0].args.arities, vec![2]);
}

#[test]
fn strings_containing_delimiters_do_not_confuse_the_scanner() {
    let catalog = parse(&interface(
        "'s': [{ key: 'a/b}]'; args: [{ x: 'y;z' }] }, { key: 'c'; args: [A, B] }];",
    ))
    .expect("parses");
    let stream = &catalog.streams[0];
    assert_eq!(stream.events.len(), 2);
    assert_eq!(stream.events[0].key, KeyPattern::Literal("a/b}]".to_owned()));
    assert_eq!(stream.events[1].args.arities, vec![2]);
}

#[test]
fn an_error_prints_its_place() {
    let error = parse("export type Foo = 1;").expect_err("no interface");
    assert_eq!(error.line, 1);
    assert!(error.to_text().contains(&error.message));
}

#[test]
fn splicing_replaces_what_stands_between_the_markers() {
    let existing = format!("head\n{BEGIN_MARKER}\nold\n{END_MARKER}\ntail\n");
    let updated = splice(&existing, "new\n").expect("both markers");
    assert!(updated.starts_with("head\n"));
    assert!(updated.ends_with("\ntail\n"));
    assert!(updated.contains("new\n"));
    assert!(!updated.contains("old\n"));
    // Splicing the same text again changes nothing.
    assert_eq!(splice(&updated, "new\n").expect("both markers"), updated);
    // Of two texts the later counts, whatever the first was.
    assert_eq!(
        splice(&updated, "newer\n").expect("both markers"),
        splice(&existing, "newer\n").expect("both markers")
    );
}

#[test]
fn splicing_needs_both_markers_in_order() {
    for text in ["nothing", BEGIN_MARKER, END_MARKER] {
        assert!(!splice(text, "new").expect_err("no region").to_text().is_empty());
    }
    let backwards = format!("{END_MARKER}\n{BEGIN_MARKER}\n");
    splice(&backwards, "new").expect_err("the end comes first");
}

#[test]
fn a_rendered_catalog_states_its_counts_and_entries() {
    let text = render_catalog(&catalog());
    assert!(text.contains("pub const STREAM_COUNT: usize = 17;"));
    assert!(text.contains("pub const EVENT_COUNT: usize = 80;"));
    assert!(text.contains("__my_messages__"));
    assert!(text.contains("[message: IMessage, user?: IUser, room?: IRoom]"));
}

#[test]
fn a_quoted_text_escapes_quotes_and_backslashes() {
    assert_eq!(quote("plain"), "\"plain\"");
    assert_eq!(quote("a\"b\\c"), "\"a\\\"b\\\\c\"");
}

#[test]
fn options_are_read_and_others_refused() {
    let none = parse_options(&vec![]).unwrap();
    assert_eq!((none.check, none.report_only), (false, false));
    let both: Options =
        parse_options(&vec!["--report-only".to_owned(), "--check".to_owned()]).unwrap();
    assert_eq!((both.check, both.report_only), (true, true));
    let refused = parse_options(&vec!["--check".to_owned(), "--bogus".to_owned()]).unwrap_err();
    assert!(refused.contains("--bogus"), "{refused}");
}

#[test]
fn a_verdict_depends_on_the_difference_and_on_the_mode() {
    assert!(matches!(verdict("same", "same", false), Verdict::Fresh));
    assert!(matches!(verdict("same", "same", true), Verdict::Fresh));
    assert!(matches!(verdict("old", "new", true), Verdict::Stale));
    assert!(matches!(verdict("old", "new", false), Verdict::Write));
}

#[test]
fn a_report_counts_streams_and_events() {
    let text = report(&catalog());
    assert!(text.contains("17"), "{text}");
    assert!(text.contains("80"), "{text}");
}

#[test]
fn a_missing_interface_is_an_error() {
    parse("export type Foo = 1;").expect_err("no StreamerEvents means no catalog");
}

#[test]
fn comments_do_not_move_an_error() {
    let source = interface("/* one\n two */ 'a': [{ key: 'k'; args: [] }]; // x\n'b': [{ key: 'k'; oops: [] }];");
    let error = parse(&source).expect_err("must not parse");
    assert_eq!(error.line, 4);
    assert!(source[error.offset..].starts_with("oops"), "{}", &source[error.offset..]);
    let text = error.to_text();
    assert!(text.contains('4') && text.contains("oops"), "{text}");
}

#[test]
fn arities_of_a_union_ascend_and_occur_once() {
    let parsed = parse(&interface("'s': [{ key: 'k'; args: [A, B] | [A] | [B, C?] }];")).expect("parses");
    assert_eq!(parsed.streams[0].events[0].args.arities, vec![1, 2]);
}
