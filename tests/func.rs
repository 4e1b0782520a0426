use func_args::{drain_args, expect_no_body, Feedback, FuncArgs, Level, OptionExt, Pair, Problem, Span, Spanned};

fn sp(start: usize, end: usize) -> Span {
    Span::new(0, start, end)
}

fn keyed(name: &str, name_span: Span, value: i64, value_span: Span) -> Spanned<Pair<i64>> {
    let whole = Span::new(0, name_span.start, value_span.end);
    Spanned::new(
        Pair { key: Spanned::new(name.to_string(), name_span), value: Spanned::new(value, value_span) },
        whole,
    )
}

fn is_unexpected_argument(p: &Problem) -> bool {
    matches!(p, Problem::UnexpectedArgument)
}

// `pad(left: 2, 3, extra: 1)`
fn pad_with_extras() -> FuncArgs<i64> {
    let mut args = FuncArgs::new();
    args.key.push(keyed("left", sp(4, 8), 2, sp(10, 11)));
    args.pos.push(Spanned::new(3, sp(13, 14)));
    args.key.push(keyed("extra", sp(16, 21), 1, sp(23, 24)));
    args
}

#[test]
fn pad_claims_amount_and_flags_unclaimed_keys() {
    let call = sp(0, 25);
    let mut f = Feedback::new();
    let mut args = pad_with_extras();
    let amount = args.take_pos().or_missing(call, "amount", &mut f);
    assert_eq!(amount.map(|a| a.v), Some(3));
    assert_eq!(f.len(), 0);
    drain_args(args, &mut f);
    assert_eq!(f.len(), 2);
    assert_eq!(f.diagnostics[0].span, sp(4, 11));
    assert_eq!(f.diagnostics[1].span, sp(16, 24));
    assert!(f.diagnostics.iter().all(|d| d.level == Level::Error && is_unexpected_argument(&d.problem)));
    expect_no_body(None::<Spanned<String>>, &mut f);
    assert_eq!(f.len(), 2);
}

#[test]
fn pad_without_arguments_reports_missing_amount() {
    let call = sp(0, 5);
    let mut f = Feedback::new();
    let mut args: FuncArgs<i64> = FuncArgs::new();
    let amount = args.take_pos().or_missing(call, "amount", &mut f);
    assert!(amount.is_none());
    assert_eq!(f.len(), 1);
    assert_eq!(f.diagnostics[0].span, call);
    assert_eq!(f.diagnostics[0].level, Level::Error);
    match &f.diagnostics[0].problem {
        Problem::MissingArgument(name) => assert_eq!(name, "amount"),
        _ => panic!("expected a missing argument"),
    }
    assert_eq!(f.diagnostics[0].message(), "missing argument: amount");
    drain_args(args, &mut f);
    assert_eq!(f.len(), 1);
    expect_no_body(None::<Spanned<String>>, &mut f);
    assert_eq!(f.len(), 1);
}

#[test]
fn pad_with_body_reports_the_body() {
    let call = sp(0, 6);
    let body = sp(7, 15);
    let mut f = Feedback::new();
    let mut args = FuncArgs::new();
    args.pos.push(Spanned::new(3i64, sp(4, 5)));
    let amount = args.take_pos().or_missing(call, "amount", &mut f);
    assert_eq!(amount.map(|a| a.v), Some(3));
    drain_args(args, &mut f);
    assert_eq!(f.len(), 0);
    expect_no_body(Some(Spanned::new("text".to_string(), body)), &mut f);
    assert_eq!(f.len(), 1);
    assert_eq!(f.diagnostics[0].span, body);
    assert!(matches!(f.diagnostics[0].problem, Problem::UnexpectedBody));
    assert_eq!(f.diagnostics[0].message(), "unexpected body");
}

#[test]
fn with_calls_back_only_when_present() {
    let mut seen: Vec<i32> = Vec::new();
    None::<i32>.with(|x| seen.push(x));
    assert!(seen.is_empty());
    Some(7).with(|x| seen.push(x));
    assert_eq!(seen, vec![7]);
}

#[test]
fn or_missing_reports_every_absent_lookup() {
    let mut f = Feedback::new();
    let span = sp(3, 9);
    let first = None::<u8>.or_missing(span, "width", &mut f);
    let second = None::<u8>.or_missing(span, "width", &mut f);
    assert!(first.is_none() && second.is_none());
    assert_eq!(f.len(), 2);
    for d in &f.diagnostics {
        assert_eq!(d.span, span);
        assert!(d.message().contains("width"));
    }
}

#[test]
fn or_missing_keeps_present_value_silently() {
    let mut f = Feedback::new();
    let kept = Some(42u8).or_missing(sp(0, 1), "width", &mut f);
    assert_eq!(kept, Some(42));
    assert_eq!(f.len(), 0);
}

#[test]
fn drain_reports_positional_then_keyed_at_own_spans() {
    let mut f = Feedback::new();
    f.error(sp(0, 1), Problem::UnexpectedBody);
    let mut args = FuncArgs::new();
    args.pos.push(Spanned::new(1i64, sp(2, 3)));
    args.pos.push(Spanned::new(2i64, sp(5, 6)));
    args.key.push(keyed("x", sp(8, 9), 3, sp(11, 12)));
    drain_args(args, &mut f);
    assert_eq!(f.len(), 4);
    assert_eq!(f.diagnostics[1].span, sp(2, 3));
    assert_eq!(f.diagnostics[2].span, sp(5, 6));
    assert_eq!(f.diagnostics[3].span, sp(8, 12));
    assert!(f.diagnostics[1..].iter().all(|d| is_unexpected_argument(&d.problem)));
    assert_eq!(f.diagnostics[3].message(), "unexpected argument");
}

#[test]
fn drain_of_empty_bag_reports_nothing() {
    let mut f = Feedback::new();
    drain_args(FuncArgs::<i64>::new(), &mut f);
    assert_eq!(f.len(), 0);
}

#[test]
fn body_check_reports_only_a_present_body() {
    let mut f = Feedback::new();
    expect_no_body(None::<Spanned<u8>>, &mut f);
    assert_eq!(f.len(), 0);
    expect_no_body(Some(Spanned::new(0u8, sp(20, 30))), &mut f);
    assert_eq!(f.len(), 1);
    assert_eq!(f.diagnostics[0].span, sp(20, 30));
    assert_eq!(f.diagnostics[0].level, Level::Error);
}

#[test]
fn take_key_claims_first_entry_with_that_name() {
    let mut args = FuncArgs::new();
    args.key.push(keyed("a", sp(0, 1), 1, sp(3, 4)));
    args.key.push(keyed("b", sp(6, 7), 2, sp(9, 10)));
    args.key.push(keyed("a", sp(12, 13), 3, sp(15, 16)));
    let got = args.take_key("a");
    assert_eq!(got.map(|v| (v.v, v.span)), Some((1, sp(3, 4))));
    assert_eq!(args.key.len(), 2);
    assert_eq!(args.key[0].v.key.v, "b");
    assert_eq!(args.key[1].v.value.v, 3);
    assert!(args.take_key("c").is_none());
    assert_eq!(args.key.len(), 2);
}

#[test]
fn take_pos_claims_in_call_order() {
    let mut args = FuncArgs::new();
    args.pos.push(Spanned::new(10i64, sp(0, 2)));
    args.pos.push(Spanned::new(20i64, sp(4, 6)));
    assert_eq!(args.take_pos().map(|a| a.v), Some(10));
    assert_eq!(args.take_pos().map(|a| a.v), Some(20));
    assert!(args.take_pos().is_none());
}
