use ohos_ffrt::ffrt_macro::args::{ArgToken, ErrorSite, MacroArgs};
use ohos_ffrt::ffrt_macro::expand::{
    build_attr_setup, convert, extract_result_inner_type, is_napi_ohos_path, is_result_type,
    join_segments, AttrStep, FunctionShape, InnerReturn, ReturnShape, TypePath, TypeShape,
};
use ohos_ffrt::{Qos, TaskPriority};

fn ident(s: &str) -> ArgToken {
    ArgToken::Ident(s.to_string())
}

fn string(s: &str) -> ArgToken {
    ArgToken::Str(s.to_string())
}

fn int_lit(s: &str) -> ArgToken {
    ArgToken::Int(s.to_string())
}

fn eq() -> ArgToken {
    ArgToken::Punct('=')
}

fn comma() -> ArgToken {
    ArgToken::Punct(',')
}

fn path(segments: &[&str], first_arg_is_type: bool) -> TypePath {
    TypePath { segments: segments.iter().map(|s| s.to_string()).collect(), first_arg_is_type }
}

fn async_fn(output: ReturnShape) -> FunctionShape {
    FunctionShape { is_async: true, output }
}

#[test]
fn empty_arguments() {
    let args = MacroArgs::parse(&vec![]).ok().unwrap();
    assert!(!args.has_any_attr());
    assert!(build_attr_setup(&args).ok().unwrap().is_empty());
}

#[test]
fn all_arguments_in_order() {
    let toks = vec![
        ident("stack_size"), eq(), int_lit("1024"), comma(),
        ident("delay"), eq(), int_lit("1000"), comma(),
        ident("name"), eq(), string("example_k"), comma(),
        ident("priority"), eq(), string("High"), comma(),
        ident("qos"), eq(), string("Inherit"),
    ];
    let args = MacroArgs::parse(&toks).ok().unwrap();
    assert!(args.has_any_attr());
    assert_eq!(args.qos().unwrap(), "Inherit");
    assert_eq!(args.priority().unwrap(), "High");
    assert_eq!(args.name().unwrap(), "example_k");
    assert_eq!(args.delay(), Some(1000));
    assert_eq!(args.stack_size(), Some(1024));
    let steps = build_attr_setup(&args).ok().unwrap();
    assert_eq!(steps.len(), 5);
    assert!(matches!(steps[0], AttrStep::Qos(Qos::Inherit)));
    assert!(matches!(steps[1], AttrStep::Priority(TaskPriority::High)));
    assert!(matches!(&steps[2], AttrStep::Name(n) if n == "example_k"));
    assert!(matches!(steps[3], AttrStep::Delay(1000)));
    assert!(matches!(steps[4], AttrStep::StackSize(1024)));
}

#[test]
fn commas_are_optional_and_last_value_wins() {
    let toks = vec![ident("delay"), eq(), int_lit("1"), ident("delay"), eq(), int_lit("2")];
    let args = MacroArgs::parse(&toks).ok().unwrap();
    assert_eq!(args.delay(), Some(2));
}

#[test]
fn qos_any_case_parses_but_expansion_needs_exact_name() {
    let toks = vec![ident("qos"), eq(), string("inherit")];
    let args = MacroArgs::parse(&toks).ok().unwrap();
    let e = build_attr_setup(&args).err().unwrap();
    assert_eq!(e.site, ErrorSite::CallSite);
    assert_eq!(
        e.message,
        "Invalid QoS value: inherit. Valid values are: Inherit, Background, Utility, Default, UserInitiated"
    );
}

#[test]
fn lower_case_priority_expansion_error() {
    let toks = vec![ident("priority"), eq(), string("idle")];
    let args = MacroArgs::parse(&toks).ok().unwrap();
    let e = build_attr_setup(&args).err().unwrap();
    assert_eq!(e.message, "Invalid priority value: idle. Valid values are: Immediate, High, Low, Idle");
}

#[test]
fn invalid_qos_is_refused() {
    let toks = vec![ident("qos"), eq(), string("fast")];
    let e = MacroArgs::parse(&toks).err().unwrap();
    assert_eq!(e.site, ErrorSite::Token(2));
    assert_eq!(
        e.message,
        "qos value must be one of: Inherit, Background, Utility, Default, UserInitiated"
    );
}

#[test]
fn invalid_priority_is_refused() {
    let toks = vec![ident("priority"), eq(), string("urgent")];
    let e = MacroArgs::parse(&toks).err().unwrap();
    assert_eq!(e.message, "priority value must be one of: Immediate, High, Low, Idle");
}

#[test]
fn unknown_key_is_refused() {
    let toks = vec![ident("speed"), eq(), int_lit("3")];
    let e = MacroArgs::parse(&toks).err().unwrap();
    assert_eq!(e.site, ErrorSite::Token(0));
    assert_eq!(e.message, "unknown attribute: speed");
}

#[test]
fn missing_equals() {
    let e = MacroArgs::parse(&vec![ident("qos"), string("High")]).err().unwrap();
    assert_eq!(e.site, ErrorSite::Token(1));
    assert_eq!(e.message, "expected `=`");
    let e = MacroArgs::parse(&vec![ident("qos")]).err().unwrap();
    assert_eq!(e.site, ErrorSite::EndOfInput);
    assert_eq!(e.message, "expected `=`");
}

#[test]
fn keyword_and_non_identifier_keys() {
    let e = MacroArgs::parse(&vec![ArgToken::Keyword("fn".to_string()), eq(), int_lit("1")]).err().unwrap();
    assert_eq!(e.message, "expected identifier, found keyword `fn`");
    let e = MacroArgs::parse(&vec![int_lit("1")]).err().unwrap();
    assert_eq!(e.message, "expected identifier");
}

#[test]
fn wrong_literal_kinds() {
    let e = MacroArgs::parse(&vec![ident("name"), eq(), int_lit("1")]).err().unwrap();
    assert_eq!(e.message, "expected string literal");
    let e = MacroArgs::parse(&vec![ident("delay"), eq(), string("1")]).err().unwrap();
    assert_eq!(e.message, "expected integer literal");
    let e = MacroArgs::parse(&vec![ident("delay"), eq()]).err().unwrap();
    assert_eq!(e.site, ErrorSite::EndOfInput);
    assert_eq!(e.message, "unexpected end of input, expected integer literal");
    let e = MacroArgs::parse(&vec![ident("name"), eq()]).err().unwrap();
    assert_eq!(e.message, "unexpected end of input, expected string literal");
}

#[test]
fn integer_range() {
    let args = MacroArgs::parse(&vec![ident("delay"), eq(), int_lit("18446744073709551615")]).ok().unwrap();
    assert_eq!(args.delay(), Some(u64::MAX));
    let e = MacroArgs::parse(&vec![ident("delay"), eq(), int_lit("18446744073709551616")]).err().unwrap();
    assert_eq!(e.site, ErrorSite::Token(2));
    assert_eq!(e.message, "number too large to fit in target type");
    let e = MacroArgs::parse(&vec![ident("stack_size"), eq(), ArgToken::Punct('-'), int_lit("5")])
        .err()
        .unwrap();
    assert_eq!(e.message, "invalid digit found in string");
}

#[test]
fn napi_paths() {
    assert!(is_napi_ohos_path(&path(&["napi_ohos", "Result"], true)));
    assert!(is_napi_ohos_path(&path(&["Result"], true)));
    assert!(!is_napi_ohos_path(&path(&["std", "result", "Result"], true)));
    assert_eq!(join_segments(&path(&["std", "result", "Result"], true)), "std::result::Result");
    assert!(is_result_type(&TypeShape::Path(path(&["Result"], true))));
    assert!(!is_result_type(&TypeShape::Path(path(&["String"], false))));
    assert!(!is_result_type(&TypeShape::Other));
    assert_eq!(
        extract_result_inner_type(&TypeShape::Path(path(&["napi_ohos", "Result"], true))),
        Some(InnerReturn::FirstTypeArgument)
    );
    assert_eq!(extract_result_inner_type(&TypeShape::Path(path(&["Result"], false))), None);
}

#[test]
fn convert_plans() {
    let no_args = MacroArgs::parse(&vec![]).ok().unwrap();
    let plan = convert(&no_args, &async_fn(ReturnShape::Type(TypeShape::Path(path(&["napi_ohos", "Result"], true)))))
        .ok()
        .unwrap();
    assert!(plan.returns_result);
    assert_eq!(plan.inner_return, InnerReturn::FirstTypeArgument);
    assert!(!plan.spawn_with_attr);

    let plan = convert(&no_args, &async_fn(ReturnShape::Type(TypeShape::Path(path(&["String"], false)))))
        .ok()
        .unwrap();
    assert!(!plan.returns_result);
    assert_eq!(plan.inner_return, InnerReturn::AsDeclared);

    let plan = convert(&no_args, &async_fn(ReturnShape::Default)).ok().unwrap();
    assert!(!plan.returns_result);
    assert_eq!(plan.inner_return, InnerReturn::Unit);

    let with_attr = MacroArgs::parse(&vec![ident("priority"), eq(), string("High")]).ok().unwrap();
    let plan = convert(&with_attr, &async_fn(ReturnShape::Default)).ok().unwrap();
    assert!(plan.spawn_with_attr);
    assert_eq!(plan.attr_steps.len(), 1);
}

#[test]
fn convert_errors() {
    let no_args = MacroArgs::parse(&vec![]).ok().unwrap();
    let e = convert(&no_args, &FunctionShape { is_async: false, output: ReturnShape::Default })
        .err()
        .unwrap();
    assert_eq!(e.site, ErrorSite::Function);
    assert_eq!(e.message, "ffrt macro only supports async functions");
    let e = convert(
        &no_args,
        &async_fn(ReturnShape::Type(TypeShape::Path(path(&["std", "result", "Result"], true)))),
    )
    .err()
    .unwrap();
    assert_eq!(e.site, ErrorSite::ReturnType);
    assert_eq!(
        e.message,
        "ffrt macro requires napi_ohos::Result, not std::result::Result or other Result types"
    );
}
