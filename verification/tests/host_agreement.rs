use std::ops::Bound;

use chart2d::value::{Data, RangeEnd, Span, Value};
use chart2d::DecodeError;
use chart2d::{Double, Range};
use nu_protocol::ast::RangeInclusion;
use nu_protocol::{FloatRange, FromValue, Record, ShellError};

fn d(x: f64) -> Double {
    Double::from_bits(x.to_bits())
}

/// What this library reads of a value of the host.
fn read(v: &nu_protocol::Value) -> Value {
    let data = match v {
        nu_protocol::Value::Int { val, .. } => Data::Number(d(*val as f64)),
        nu_protocol::Value::Float { val, .. } => Data::Number(d(*val)),
        nu_protocol::Value::Range { val, .. } => {
            let range = FloatRange::from(**val);
            Data::Range {
                start: d(range.start()),
                end: match range.end() {
                    Bound::Included(end) => RangeEnd::Included(d(end)),
                    Bound::Excluded(end) => RangeEnd::Excluded(d(end)),
                    Bound::Unbounded => RangeEnd::Unbounded,
                },
            }
        }
        nu_protocol::Value::List { vals, .. } => Data::List(vals.iter().map(read).collect()),
        nu_protocol::Value::Record { val, .. } => {
            Data::Record(val.iter().map(|(name, v)| (name.clone(), read(v))).collect())
        }
        _ => Data::Other,
    };
    Value {
        data,
        type_label: v.get_type().to_string(),
        span: Span { start: v.span().start, end: v.span().end },
    }
}

/// The decoding of a range as the host's own decoders do it.
fn host_decode(v: nu_protocol::Value) -> Result<(f64, f64), ShellError> {
    match v {
        nu_protocol::Value::Range { val, internal_span, .. } => {
            let range = FloatRange::from(*val);
            let min = range.start();
            let max = match range.end() {
                Bound::Included(max) => max,
                Bound::Excluded(max) => max,
                Bound::Unbounded => {
                    return Err(ShellError::CantConvert {
                        to_type: nu_protocol::Type::List(Box::new(nu_protocol::Type::Number))
                            .to_string(),
                        from_type: nu_protocol::Type::Range.to_string(),
                        span: internal_span,
                        help: Some("Try a bounded range instead.".to_string()),
                    })
                }
            };
            Ok((min, max))
        }
        v @ nu_protocol::Value::List { .. } => {
            let [min, max] = <[f64; 2]>::from_value(v)?;
            Ok((min, max))
        }
        v @ nu_protocol::Value::Record { .. } => {
            let span = v.span();
            let mut record = v.into_record()?;
            let min = f64::from_value(record.remove("min").ok_or_else(|| {
                ShellError::CantFindColumn { col_name: "min".to_string(), span: None, src_span: span }
            })?)?;
            let max = f64::from_value(record.remove("max").ok_or_else(|| {
                ShellError::CantFindColumn { col_name: "max".to_string(), span: None, src_span: span }
            })?)?;
            Ok((min, max))
        }
        v => Err(ShellError::CantConvert {
            to_type: nu_protocol::Type::List(Box::new(nu_protocol::Type::Number)).to_string(),
            from_type: v.get_type().to_string(),
            span: v.span(),
            help: None,
        }),
    }
}

fn agree(v: nu_protocol::Value) {
    let ours = Range::from_value(read(&v));
    let shown = format!("{v:?}");
    match (ours, host_decode(v)) {
        (Ok(range), Ok((min, max))) => {
            assert_eq!(range.min.to_bits(), min.to_bits(), "{shown}");
            assert_eq!(range.max.to_bits(), max.to_bits(), "{shown}");
        }
        (
            Err(DecodeError::CantConvert { to_type, from_type, span, help }),
            Err(ShellError::CantConvert {
                to_type: host_to,
                from_type: host_from,
                span: host_span,
                help: host_help,
            }),
        ) => {
            assert_eq!(to_type, host_to, "{shown}");
            assert_eq!(from_type, host_from, "{shown}");
            assert_eq!((span.start, span.end), (host_span.start, host_span.end), "{shown}");
            assert_eq!(help, host_help, "{shown}");
        }
        (
            Err(DecodeError::WrongLength { to_type, from_type, span, wanted, found }),
            Err(ShellError::CantConvert {
                to_type: host_to,
                from_type: host_from,
                span: host_span,
                help: Some(host_help),
            }),
        ) => {
            assert_eq!(wanted, 2, "{shown}");
            assert_eq!(to_type, host_to, "{shown}");
            assert_eq!(to_type, <[f64; 2] as FromValue>::expected_type().to_string(), "{shown}");
            assert_eq!(from_type, host_from, "{shown}");
            assert_eq!((span.start, span.end), (host_span.start, host_span.end), "{shown}");
            assert!(host_help.contains(&format!("({found})")), "{shown}: {host_help}");
            assert!(host_help.contains(&format!("expected length of {wanted}")), "{shown}: {host_help}");
        }
        (
            Err(DecodeError::CantFindColumn { col_name, src_span }),
            Err(ShellError::CantFindColumn { col_name: host_name, span: None, src_span: host_span }),
        ) => {
            assert_eq!(col_name, host_name, "{shown}");
            assert_eq!((src_span.start, src_span.end), (host_span.start, host_span.end), "{shown}");
        }
        (ours, theirs) => panic!("{shown}: {ours:?} against {theirs:?}"),
    }
}

fn at(start: usize, end: usize) -> nu_protocol::Span {
    nu_protocol::Span::new(start, end)
}

fn whole(x: i64, start: usize) -> nu_protocol::Value {
    nu_protocol::Value::int(x, at(start, start + 1))
}

fn frac(x: f64, start: usize) -> nu_protocol::Value {
    nu_protocol::Value::float(x, at(start, start + 3))
}

fn text(s: &str, start: usize) -> nu_protocol::Value {
    nu_protocol::Value::string(s, at(start, start + 2))
}

fn list(items: Vec<nu_protocol::Value>) -> nu_protocol::Value {
    nu_protocol::Value::list(items, at(100, 200))
}

fn record(fields: Vec<(&str, nu_protocol::Value)>) -> nu_protocol::Value {
    let mut r = Record::new();
    for (name, v) in fields {
        r.push(name, v);
    }
    nu_protocol::Value::record(r, at(300, 400))
}

fn interval(
    start: nu_protocol::Value,
    end: nu_protocol::Value,
    inclusion: RangeInclusion,
) -> nu_protocol::Value {
    let nothing = nu_protocol::Value::nothing(at(0, 0));
    let range = nu_protocol::Range::new(start, nothing, end, inclusion, at(7, 12));
    nu_protocol::Value::range(range.expect("a range of the host"), at(7, 12))
}

#[test]
fn ranges_of_the_host_are_read_as_the_host_reads_them() {
    let nothing = || nu_protocol::Value::nothing(at(0, 0));
    agree(interval(whole(1, 0), whole(5, 0), RangeInclusion::Inclusive));
    agree(interval(whole(1, 0), whole(5, 0), RangeInclusion::RightExclusive));
    agree(interval(whole(5, 0), whole(1, 0), RangeInclusion::Inclusive));
    agree(interval(frac(0.5, 0), frac(2.25, 0), RangeInclusion::Inclusive));
    agree(interval(frac(0.5, 0), whole(3, 0), RangeInclusion::RightExclusive));
    agree(interval(whole(1, 0), nothing(), RangeInclusion::Inclusive));
    agree(interval(frac(1.5, 0), nothing(), RangeInclusion::Inclusive));
    agree(interval(frac(1.5, 0), frac(f64::INFINITY, 0), RangeInclusion::Inclusive));
    agree(interval(whole(i64::MAX, 0), whole(i64::MIN, 0), RangeInclusion::Inclusive));
    agree(interval(whole(9_007_199_254_740_993, 0), nothing(), RangeInclusion::Inclusive));
}

#[test]
fn a_bounded_range_of_the_host_decodes_to_its_ends() {
    let v = interval(whole(1, 0), whole(5, 0), RangeInclusion::Inclusive);
    assert_eq!(Range::from_value(read(&v)), Ok(Range::new(d(1.0), d(5.0))));
}

#[test]
fn lists_of_the_host_are_read_as_the_host_reads_them() {
    agree(list(vec![whole(1, 0), whole(5, 2)]));
    agree(list(vec![frac(1.5, 0), whole(5, 4)]));
    agree(list(vec![frac(-0.0, 0), frac(f64::NAN, 4)]));
    agree(list(vec![]));
    agree(list(vec![whole(1, 0)]));
    agree(list(vec![whole(1, 0), whole(2, 2), whole(3, 4)]));
    agree(list(vec![frac(1.0, 0), whole(2, 4), whole(3, 6), frac(4.0, 8)]));
    agree(list(vec![whole(1, 0), text("a", 2)]));
    agree(list(vec![text("a", 0), text("b", 3)]));
    agree(list(vec![whole(1, 0), whole(2, 2), text("a", 4)]));
    agree(list(vec![list(vec![whole(1, 0), whole(2, 2)])]));
    agree(list(vec![record(vec![("min", whole(1, 0))]), whole(2, 2)]));
    agree(list(vec![nu_protocol::Value::nothing(at(1, 2)), whole(2, 2)]));
}

#[test]
fn records_of_the_host_are_read_as_the_host_reads_them() {
    agree(record(vec![("min", whole(1, 0)), ("max", whole(5, 2))]));
    agree(record(vec![("max", frac(5.5, 0)), ("min", frac(1.5, 4))]));
    agree(record(vec![("min", whole(1, 0)), ("max", whole(5, 2)), ("step", whole(9, 4))]));
    agree(record(vec![("min", whole(1, 0))]));
    agree(record(vec![("max", whole(1, 0))]));
    agree(record(vec![]));
    agree(record(vec![("min", text("a", 0)), ("max", whole(5, 3))]));
    agree(record(vec![("min", whole(1, 0)), ("max", text("b", 2))]));
    agree(record(vec![("min", text("a", 0))]));
    agree(record(vec![("Min", whole(1, 0)), ("MAX", whole(5, 2))]));
    agree(record(vec![("min", whole(1, 0)), ("max", whole(5, 2)), ("min", whole(2, 4))]));
    agree(record(vec![("max", whole(1, 0)), ("max", text("b", 2)), ("min", whole(2, 4))]));
}

#[test]
fn other_values_of_the_host_are_refused_as_the_host_refuses_them() {
    agree(whole(1, 0));
    agree(frac(1.5, 0));
    agree(text("1..5", 0));
    agree(nu_protocol::Value::nothing(at(3, 4)));
    agree(nu_protocol::Value::bool(true, at(3, 7)));
    agree(nu_protocol::Value::binary(vec![1u8, 5u8], at(0, 9)));
    agree(nu_protocol::Value::duration(5, at(0, 3)));
}

#[test]
fn the_types_named_in_errors_are_those_of_the_host() {
    let unbounded = interval(whole(1, 0), nu_protocol::Value::nothing(at(0, 0)), RangeInclusion::Inclusive);
    match Range::from_value(read(&unbounded)) {
        Err(DecodeError::CantConvert { to_type, from_type, .. }) => {
            assert_eq!(to_type, Range::expected_type().to_string());
            assert_eq!(from_type, nu_protocol::Type::Range.to_string());
            assert_eq!(from_type, unbounded.get_type().to_string());
        }
        other => panic!("{other:?}"),
    }
    match read(&text("a", 0)).as_number() {
        Err(DecodeError::CantConvert { to_type, .. }) => {
            assert_eq!(to_type, nu_protocol::Type::Float.to_string());
            assert_eq!(to_type, <f64 as FromValue>::expected_type().to_string());
        }
        other => panic!("{other:?}"),
    }
    match read(&whole(1, 0)).as_number_pair() {
        Err(DecodeError::CantConvert { to_type, .. }) => {
            assert_eq!(to_type, <Vec<f64> as FromValue>::expected_type().to_string());
        }
        other => panic!("{other:?}"),
    }
}

#[test]
fn values_that_are_no_handles_are_refused_as_the_host_refuses_them() {
    for v in [
        whole(1, 0),
        frac(1.5, 0),
        text("chart", 0),
        list(vec![whole(1, 0), whole(5, 2)]),
        record(vec![("width", whole(600, 0)), ("height", whole(400, 4))]),
        interval(whole(1, 0), whole(5, 0), RangeInclusion::Inclusive),
        nu_protocol::Value::nothing(at(3, 4)),
    ] {
        let ours = chart2d::Chart2d::from_value(read(&v));
        let shown = format!("{v:?}");
        match (ours, v.into_custom_value()) {
            (
                Err(DecodeError::CantConvert { to_type, from_type, span, help }),
                Err(ShellError::CantConvert {
                    to_type: host_to,
                    from_type: host_from,
                    span: host_span,
                    help: host_help,
                }),
            ) => {
                assert_eq!(to_type, host_to, "{shown}");
                assert_eq!(from_type, host_from, "{shown}");
                assert_eq!((span.start, span.end), (host_span.start, host_span.end), "{shown}");
                assert_eq!(help, host_help, "{shown}");
            }
            (ours, theirs) => panic!("{shown}: {ours:?} against {:?}", theirs.map(|_| ())),
        }
    }
}
