use std::str::FromStr;

use cmdstack::logic::config::Config;
use cmdstack::logic::parameters::blank::BlankParameter;
use cmdstack::logic::parameters::boolean::BooleanParameter;
use cmdstack::logic::parameters::integer::IntParameter;
use cmdstack::logic::parameters::parser::SerializableParameter;
use cmdstack::logic::parameters::string::StringParameter;
use cmdstack::logic::parameters::uuid::UuidParameter;
use cmdstack::logic::parameters::FromStrWithConfig;
use cmdstack::logic::Logic;

#[test]
fn blank_test_from_str() {
    let ret = BlankParameter::from_str("@{}");
    assert!(ret.is_ok());

    let ret = BlankParameter::from_str("@{         }");
    assert!(ret.is_ok());
}

#[test]
fn blank_test_from_str_errors() {
    // Wrong type
    let ret = BlankParameter::from_str("@{int}");
    assert!(ret.is_err());
}

#[test]
fn boolean_test_from_str() {
    let ret = BooleanParameter::from_str("@{boolean}");
    assert!(ret.is_ok());
}

#[test]
fn boolean_test_from_str_errors() {
    // Parameters provided
    let ret = BooleanParameter::from_str("@{boolean[0, 1]}");
    assert!(ret.is_err());

    // Wrong type
    let ret = BooleanParameter::from_str("@{int}");
    assert!(ret.is_err());
}

#[test]
fn int_test_from_str_no_params() {
    let ret = IntParameter::from_str("@{int}", &Config::default());
    assert!(ret.is_ok());
    let param = ret.unwrap();
    assert_eq!(param.min, 5);
    assert_eq!(param.max, 10);
}

#[test]
fn int_test_from_str_params() {
    let ret = IntParameter::from_str("@{int[-100, -99]}", &Config::default());
    assert!(ret.is_ok());
    let param = ret.unwrap();
    assert_eq!(param.min, -100);
    assert_eq!(param.max, -99);

    let ret = IntParameter::from_str("@{int[-100, 100]}", &Config::default());
    assert!(ret.is_ok());
    let param = ret.unwrap();
    assert_eq!(param.min, -100);
    assert_eq!(param.max, 100);

    let ret = IntParameter::from_str("@{int[99, 100]}", &Config::default());
    assert!(ret.is_ok());
    let param = ret.unwrap();
    assert_eq!(param.min, 99);
    assert_eq!(param.max, 100);

    let ret = IntParameter::from_str("@{int[0, 0]}", &Config::default());
    assert!(ret.is_ok());
    let param = ret.unwrap();
    assert_eq!(param.min, 0);
    assert_eq!(param.max, 0);
}

#[test]
fn int_test_from_str_errors() {
    // Min and max swapped
    let ret = IntParameter::from_str("@{int[1, 0]}", &Config::default());
    assert!(ret.is_err());

    // Max missing
    let ret = IntParameter::from_str("@{int[1, ]}", &Config::default());
    assert!(ret.is_err());

    // Min missing
    let ret = IntParameter::from_str("@{int[, 1]}", &Config::default());
    assert!(ret.is_err());

    // Min and max missing
    let ret = IntParameter::from_str("@{int[, ]}", &Config::default());
    assert!(ret.is_err());

    // Bracket missing
    let ret = IntParameter::from_str("@{int[0, 1}", &Config::default());
    assert!(ret.is_err());

    // Wrong type
    let ret = IntParameter::from_str("@{string[0, 1]}", &Config::default());
    assert!(ret.is_err());
}

#[test]
fn string_test_from_str_no_params() {
    let ret = StringParameter::from_str("@{string}", &Config::default());
    assert!(ret.is_ok());
    let param = ret.unwrap();
    assert_eq!(param.min, 5);
    assert_eq!(param.max, 10);
}

#[test]
fn string_test_from_str_params() {
    let ret = StringParameter::from_str("@{string[99, 100]}", &Config::default());
    assert!(ret.is_ok());
    let param = ret.unwrap();
    assert_eq!(param.min, 99);
    assert_eq!(param.max, 100);

    let ret = StringParameter::from_str("@{string[0, 0]}", &Config::default());
    assert!(ret.is_ok());
    let param = ret.unwrap();
    assert_eq!(param.min, 0);
    assert_eq!(param.max, 0);
}

#[test]
fn string_test_from_str_errors() {
    // Min and max swapped
    let ret = StringParameter::from_str("@{string[1, 0]}", &Config::default());
    assert!(ret.is_err());

    // Max missing
    let ret = StringParameter::from_str("@{string[1, ]}", &Config::default());
    assert!(ret.is_err());

    // Min missing
    let ret = StringParameter::from_str("@{string[, 1]}", &Config::default());
    assert!(ret.is_err());

    // Min and max missing
    let ret = StringParameter::from_str("@{string[, ]}", &Config::default());
    assert!(ret.is_err());

    // Bracket missing
    let ret = StringParameter::from_str("@{string[0, 1}", &Config::default());
    assert!(ret.is_err());

    // Incorrect type
    let ret = StringParameter::from_str("@{int[0, 1]}", &Config::default());
    assert!(ret.is_err());
}

#[test]
fn test_parse_uuid() {
    let result = UuidParameter::from_str("@{uuid}");
    assert!(result.is_ok());
}

#[test]
fn test_invalid_uuid() {
    // This should fail because the format doesn't match exactly.
    let result = UuidParameter::from_str("@{uuid[3,4]}");
    assert!(result.is_err());
}

#[test]
fn test_parse_parameters_no_parameter() {
    let logic = Logic::new(Config::default());

    let ret = logic.parse_parameters("cmd @ @email @wadsf @test {} @".to_string());
    assert!(ret.is_ok());
    let (non_parameter_strings, parameters) = ret.unwrap();
    assert_eq!(parameters.len(), 0);
    assert_eq!(
        non_parameter_strings,
        vec!["cmd @ @email @wadsf @test {} @".to_string()]
    );
}

#[test]
fn test_parse_parameters() {
    let logic = Logic::new(Config::default());

    let ret = logic.parse_parameters("cmd @{boolean} @{int} @{string}".to_string());
    assert!(ret.is_ok());
    let (non_parameter_strings, parameters) = ret.unwrap();
    assert_eq!(parameters.len(), 3);
    assert!(matches!(
        parameters.get(0).unwrap(),
        SerializableParameter::Boolean(_)
    ));
    assert!(matches!(parameters.get(1).unwrap(), SerializableParameter::Int(_)));
    assert!(matches!(parameters.get(2).unwrap(), SerializableParameter::String(_)));
    assert_eq!(
        non_parameter_strings,
        vec![
            "cmd ".to_string(),
            " ".to_string(),
            " ".to_string(),
            "".to_string()
        ]
    );
}

#[test]
fn test_parse_parameter_int() {
    let logic = Logic::new(Config::default());

    let ret = logic.parse_parameter("@{int}".to_string());
    assert!(ret.is_ok());
    assert!(matches!(ret.unwrap(), SerializableParameter::Int(_)));
}

#[test]
fn test_parse_parameter_string() {
    let logic = Logic::new(Config::default());

    let ret = logic.parse_parameter("@{string}".to_string());
    assert!(ret.is_ok());
    assert!(matches!(ret.unwrap(), SerializableParameter::String(_)));
}

#[test]
fn test_parse_parameter_boolean() {
    let logic = Logic::new(Config::default());

    let ret = logic.parse_parameter("@{boolean}".to_string());
    assert!(ret.is_ok());
    assert!(matches!(ret.unwrap(), SerializableParameter::Boolean(_)));
}

#[test]
fn int_bound_in_other_script_digits_is_a_parsing_error() {
    // ARABIC-INDIC DIGIT ONE: a decimal digit that `str::parse` does not read.
    let ret = IntParameter::from_str("@{int[\u{661}, 5]}", &Config::default());
    match ret {
        Err(cmdstack::logic::parameters::ParameterError::TypeParsing(ty, text)) => {
            assert_eq!("i32", ty);
            assert_eq!("\u{661}", text);
        }
        _ => panic!("expected a parsing error"),
    }
    let ret = IntParameter::from_str("@{int[1, -\u{966}\u{967}]}", &Config::default());
    match ret {
        Err(cmdstack::logic::parameters::ParameterError::TypeParsing(ty, text)) => {
            assert_eq!("i32", ty);
            assert_eq!("-\u{966}\u{967}", text);
        }
        _ => panic!("expected a parsing error"),
    }
}

#[test]
fn string_bound_in_fullwidth_digits_is_a_parsing_error() {
    let ret = StringParameter::from_str("@{string[2, \u{ff13}]}", &Config::default());
    match ret {
        Err(cmdstack::logic::parameters::ParameterError::TypeParsing(ty, text)) => {
            assert_eq!("u32", ty);
            assert_eq!("\u{ff13}", text);
        }
        _ => panic!("expected a parsing error"),
    }
}
