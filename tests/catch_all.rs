use clap_value_enum_catchall::{
    possible_values, select_unit, typed_value_parser_plan, AttrShape, FieldsShape, ParserPlan,
    TypeShape, VariantShape,
};
use uuid::Uuid;

fn unit(ident: &str) -> VariantShape {
    VariantShape { ident: ident.to_string(), attrs: Vec::new(), fields: FieldsShape::Unit }
}

fn catchall(ident: &str, path: &[&str]) -> VariantShape {
    VariantShape {
        ident: ident.to_string(),
        attrs: Vec::new(),
        fields: FieldsShape::Unnamed(vec![TypeShape::Path(
            path.iter().map(|s| s.to_string()).collect(),
        )]),
    }
}

/// The plan for `enum E { One, Two(T) }` where `T` is the path given.
fn one_two(path: &[&str]) -> ParserPlan {
    let variants = vec![unit("One"), catchall("Two", path)];
    let attrs: Vec<AttrShape> = Vec::new();
    typed_value_parser_plan(&variants, &attrs).unwrap()
}

#[derive(Debug, PartialEq)]
enum Parsed<T> {
    One,
    Two(T),
}

/// Parses the value of `--arg2` as the generated parser does, panicking with
/// the possible values where the value is missing or rejected.
fn parse_arg2<T>(plan: &ParserPlan, value: Option<&str>, inner: fn(&str) -> Option<T>) -> Parsed<T> {
    let offered = possible_values(&plan.layout.units, &plan.placeholder).join(", ");
    let value = match value {
        Some(v) => v,
        None => panic!("a value is required for '--arg2' [possible values: {offered}]"),
    };
    let names: Vec<String> = plan.layout.units.iter().map(|u| u.name.clone()).collect();
    if let Some(k) = select_unit(&names, value) {
        assert_eq!(plan.layout.units[k].index, 0);
        return Parsed::One;
    }
    match inner(value) {
        Some(v) => Parsed::Two(v),
        None => panic!("invalid value '{value}' for '--arg2' [possible values: {offered}]"),
    }
}

/// The value that follows `--arg2` among the arguments.
fn arg2<'a>(args: &[&'a str]) -> Option<&'a str> {
    let at = args.iter().position(|a| *a == "--arg2")?;
    args.get(at + 1).copied()
}

#[test]
fn uuid_arg() {
    let plan = one_two(&["uuid", "Uuid"]);
    let args = ["", "arg1", "--arg2", "36fb2016-e6b6-473a-9166-f9a63d2b72c2"];
    let got = parse_arg2(&plan, arg2(&args), |s| Uuid::parse_str(s).ok());
    assert_eq!(
        got,
        Parsed::Two(Uuid::parse_str("36fb2016-e6b6-473a-9166-f9a63d2b72c2").unwrap())
    );
}

#[test]
#[should_panic = "<uuid>"]
fn uuid_panic() {
    let plan = one_two(&["Uuid"]);
    let args = ["", "arg1", "--arg2", "junk"];
    parse_arg2(&plan, arg2(&args), |s| Uuid::parse_str(s).ok());
}

#[test]
fn string_arg() {
    let plan = one_two(&["String"]);
    let args = ["", "arg1", "--arg2", "36fb2016-e6b6-473a-9166-f9a63d2b72c2"];
    let got = parse_arg2(&plan, arg2(&args), |s| Some(s.to_string()));
    assert_eq!(got, Parsed::Two("36fb2016-e6b6-473a-9166-f9a63d2b72c2".to_string()));
}

#[test]
#[should_panic = "<string>"]
fn string_panic() {
    let plan = one_two(&["String"]);
    let args = ["", "arg1", "--arg2"];
    parse_arg2(&plan, arg2(&args), |s| Some(s.to_string()));
}

#[test]
fn u32_arg() {
    let plan = one_two(&["u32"]);
    let args = ["", "arg1", "--arg2", "1"];
    let got = parse_arg2(&plan, arg2(&args), |s| s.parse::<u32>().ok());
    assert_eq!(got, Parsed::Two(1));
}

#[test]
#[should_panic = "<u32>"]
fn u32_panic() {
    let plan = one_two(&["u32"]);
    let args = ["", "arg1", "--arg2"];
    parse_arg2(&plan, arg2(&args), |s| s.parse::<u32>().ok());
}

#[test]
fn unit_name_wins_over_catchall() {
    let plan = one_two(&["String"]);
    let got = parse_arg2(&plan, Some("One"), |s| Some(s.to_string()));
    assert_eq!(got, Parsed::One);
}
