use cmdstack::logic::param::{MockRng, ParameterHandler};

#[test]
fn test_zero_parameters() {
    let mut ph = ParameterHandler::new(Box::new(MockRng::new(vec![0, 2])));
    let ret = ph.replace_parameters("fasd @ @email @wadsf @test {} @".to_string());
    assert!(ret.is_ok());
    let (generated_string, _generated_parameters) = ret.unwrap();
    assert_eq!("fasd @ @email @wadsf @test {} @", generated_string);
}

#[test]
fn test_replace_parameters() {
    let mut ph = ParameterHandler::new(Box::new(MockRng::new(vec![0, 1, 2, 4])));
    let ret = ph.replace_parameters("red-@{int} @nothing @{string} @{int}".to_string());
    assert!(ret.is_ok());
    let (generated_string, _generated_parameters) = ret.unwrap();
    assert_eq!("red-5 @nothing CEABCE 5", generated_string);

    let mut ph = ParameterHandler::new(Box::new(MockRng::new(vec![0, 2, 0, 2])));
    let ret = ph.replace_parameters("red-@{int} @nothing @{string} @{int}".to_string());
    assert!(ret.is_ok());
    let (generated_string, _generated_parameters) = ret.unwrap();
    assert_eq!("red-5 @nothing ACACACA 7", generated_string);

    let mut ph = ParameterHandler::new(Box::new(MockRng::new(vec![2, 3, 4, 7])));
    let ret = ph.replace_parameters("ls @{int} @{int} @{string} @{string}".to_string());
    assert!(ret.is_ok());
    let (generated_string, _generated_parameters) = ret.unwrap();
    assert_eq!("ls 7 8 HCDEHCDEH DEHCDEH", generated_string);

    let mut ph = ParameterHandler::new(Box::new(MockRng::new(vec![2, 2, 2, 2])));
    let ret = ph.replace_parameters("ls @{string[7,7]} @{string[3,3]}".to_string());
    assert!(ret.is_ok());
    let (generated_string, _generated_parameters) = ret.unwrap();
    assert_eq!("ls CCCCCCC CCC", generated_string);

    let mut ph = ParameterHandler::new(Box::new(MockRng::new(vec![1, 2, 3])));
    let ret = ph.replace_parameters("ls @{boolean} @{boolean} @{boolean}".to_string());
    assert!(ret.is_ok());
    let (generated_string, _generated_parameters) = ret.unwrap();
    assert_eq!("ls true false true", generated_string);

    let mut ph = ParameterHandler::new(Box::new(MockRng::new(vec![1, 2, 3])));
    let ret = ph.replace_parameters("@{string}".to_string());
    assert!(ret.is_ok());
    let (generated_string, _generated_parameters) = ret.unwrap();
    assert_eq!("CDBCDB", generated_string);
}

#[test]
fn test_validate_parameters() {
    let mut ph = ParameterHandler::new(Box::new(MockRng::new(vec![])));
    let ret = ph.validate_parameters("fasd @{bad-command}".to_string());
    assert!(ret.is_err());

    let mut ph = ParameterHandler::new(Box::new(MockRng::new(vec![])));
    let ret = ph.validate_parameters("fasd @{string[cat, dog]}".to_string());
    assert!(ret.is_err());

    let mut ph = ParameterHandler::new(Box::new(MockRng::new(vec![])));
    let ret = ph.validate_parameters("fasd @{string[3]}".to_string());
    assert!(ret.is_err());

    let mut ph = ParameterHandler::new(Box::new(MockRng::new(vec![])));
    let ret = ph.validate_parameters("fasd @{string[,]}".to_string());
    assert!(ret.is_err());

    let mut ph = ParameterHandler::new(Box::new(MockRng::new(vec![])));
    let ret = ph.validate_parameters("fasd @{string[-1,5]}".to_string());
    assert!(ret.is_err());

    let mut ph = ParameterHandler::new(Box::new(MockRng::new(vec![])));
    let ret = ph.validate_parameters("fasd @{string[-1,5]}".to_string());
    assert!(ret.is_err());

    let mut ph = ParameterHandler::new(Box::new(MockRng::new(vec![])));
    let ret = ph.validate_parameters("fasd @{string[7,5]}".to_string());
    assert!(ret.is_err());
}

#[test]
fn test_default_random() {
    let mut ph = ParameterHandler::<rand::rngs::ThreadRng>::default();
    let ret = ph.validate_parameters("asdfjkf  @{string[1, 1]}".to_string());
    assert!(!ret.is_err());

    let ret = ph.validate_parameters("asdfjkf  @{string[1, 0]}".to_string());
    assert!(ret.is_err());
}

#[test]
fn mock_value_above_i32_max_is_read_as_negative() {
    // 4294967295 read as an i32 is -1, and -1 % 6 is -1: the number is 5 - 1.
    let mut ph = ParameterHandler::new(Box::new(MockRng::new(vec![4294967295])));
    let (out, values) = ph.replace_parameters("n=@{int}".to_string()).unwrap();
    assert_eq!("n=4", out);
    assert_eq!(vec!["4".to_string()], values);

    let mut ph = ParameterHandler::new(Box::new(MockRng::new(vec![4294967295, 4294967294])));
    let (out, _) = ph.replace_parameters("@{boolean} @{boolean}".to_string()).unwrap();
    assert_eq!("true false", out);
}

#[test]
fn mock_hands_out_values_in_a_cycle() {
    let mut ph = ParameterHandler::new(Box::new(MockRng::new(vec![1, 2, 3])));
    let (out, _) = ph
        .replace_parameters("@{int} @{int} @{int} @{int} @{int}".to_string())
        .unwrap();
    assert_eq!("6 7 8 6 7", out);
}

#[test]
fn string_bound_in_other_script_digits_fails_to_parse() {
    let ret = cmdstack::logic::param::StringParameter::parse("@{string[\u{663}, 5]}");
    assert!(matches!(ret, Err(cmdstack::logic::param::ParameterError::Parsing)));
}
