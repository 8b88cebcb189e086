use cmdstack::logic::config::Config;
use cmdstack::logic::param::MockRng;
use cmdstack::logic::parameters::boolean::BooleanParameter;
use cmdstack::logic::parameters::integer::IntParameter;
use cmdstack::logic::parameters::parser::SerializableParameter;
use cmdstack::logic::parameters::string::StringParameter;
use cmdstack::logic::Logic;

#[test]
fn test_populate_parameters_1() {
    let logic = Logic::new(Config::default());

    let rng = Box::new(MockRng::new(vec![0, 1, 2, 4]));

    let non_parameter_strs = vec![
        "red-".to_string(),
        " @nothing ".to_string(),
        " ".to_string(),
        "".to_string(),
    ];
    let parameters = vec![
        SerializableParameter::Int(IntParameter::default()),
        SerializableParameter::String(StringParameter::default()),
        SerializableParameter::Int(IntParameter::default()),
    ];

    let ret = logic.populate_parameters(non_parameter_strs, parameters, vec![], Some(rng));
    assert!(ret.is_ok());

    let (generated_string, generated_parameters) = ret.unwrap();
    assert_eq!(
        vec!["5".to_string(), "CEABCE".to_string(), "5".to_string()],
        generated_parameters
    );
    assert_eq!("red-5 @nothing CEABCE 5", generated_string);
}

#[test]
fn test_populate_parameters_2() {
    let logic = Logic::new(Config::default());

    let rng = Box::new(MockRng::new(vec![2, 3, 4, 7]));

    let non_parameter_strs = vec![
        "ls ".to_string(),
        " ".to_string(),
        " ".to_string(),
        " ".to_string(),
        "".to_string(),
    ];
    let parameters = vec![
        SerializableParameter::Int(IntParameter::default()),
        SerializableParameter::Int(IntParameter::default()),
        SerializableParameter::String(StringParameter::default()),
        SerializableParameter::Boolean(BooleanParameter {}),
    ];

    let ret = logic.populate_parameters(non_parameter_strs, parameters, vec![], Some(rng));
    assert!(ret.is_ok());

    let (generated_string, generated_parameters) = ret.unwrap();
    assert_eq!(
        vec![
            "7".to_string(),
            "8".to_string(),
            "HCDEHCDEH".to_string(),
            "false".to_string()
        ],
        generated_parameters
    );
    assert_eq!("ls 7 8 HCDEHCDEH false", generated_string);
}

#[test]
fn test_populate_parameters_blank_1() {
    let logic = Logic::new(Config::default());

    let rng = Box::new(MockRng::new(vec![2, 0]));

    let non_parameter_strs = vec![
        "ls ".to_string(),
        " ".to_string(),
        " ".to_string(),
        " ".to_string(),
        " ".to_string(),
        "".to_string(),
    ];
    let parameters = vec![
        SerializableParameter::Blank,
        SerializableParameter::Int(IntParameter::default()),
        SerializableParameter::Blank,
        SerializableParameter::Boolean(BooleanParameter {}),
        SerializableParameter::Blank,
    ];
    let blank_params_values = vec![
        "value1".to_string(),
        "value2".to_string(),
        "value3".to_string(),
    ];

    let ret = logic.populate_parameters(
        non_parameter_strs,
        parameters,
        blank_params_values,
        Some(rng),
    );
    assert!(ret.is_ok());

    let (generated_string, generated_parameters) = ret.unwrap();
    assert_eq!(
        vec![
            "value1".to_string(),
            "7".to_string(),
            "value2".to_string(),
            "false".to_string(),
            "value3".to_string(),
        ],
        generated_parameters
    );
    assert_eq!("ls value1 7 value2 false value3", generated_string);
}

#[test]
fn test_populate_parameters_no_parameters() {
    let logic = Logic::new(Config::default());

    let rng = Box::new(MockRng::new(vec![0, 1, 2, 4]));

    let non_parameter_strs = vec!["some string".to_string()];
    let parameters = vec![];

    let ret = logic.populate_parameters(non_parameter_strs, parameters, vec![], Some(rng));
    assert!(ret.is_ok());

    let (generated_string, generated_parameters) = ret.unwrap();
    assert_eq!(generated_parameters.len(), 0);
    assert_eq!("some string", generated_string);
}

#[test]
fn test_populate_parameters_empty() {
    let logic = Logic::new(Config::default());

    let rng = Box::new(MockRng::new(vec![0, 1, 2, 4]));

    let non_parameter_strs = vec![];
    let parameters = vec![];

    let ret = logic.populate_parameters(non_parameter_strs, parameters, vec![], Some(rng));
    assert!(ret.is_ok());

    let (generated_string, generated_parameters) = ret.unwrap();
    assert_eq!(generated_parameters.len(), 0);
    assert_eq!("", generated_string);
}

#[test]
fn test_populate_parameters_blank_missing() {
    let logic = Logic::new(Config::default());

    let rng = Box::new(MockRng::new(vec![2, 0]));

    let non_parameter_strs = vec!["ls ".to_string(), "".to_string()];
    let parameters = vec![SerializableParameter::Blank];
    let blank_params_values = vec![];

    let ret = logic.populate_parameters(
        non_parameter_strs,
        parameters,
        blank_params_values,
        Some(rng),
    );
    assert!(ret.is_err());
}

#[test]
fn populate_with_mock_value_above_i32_max() {
    let logic = Logic::new(Config::default());
    let rng = Box::new(MockRng::new(vec![4294967295]));
    let ret = logic.populate_parameters(
        vec!["a ".to_string(), " b ".to_string(), "".to_string()],
        vec![
            SerializableParameter::Int(IntParameter::default()),
            SerializableParameter::Boolean(BooleanParameter {}),
        ],
        vec![],
        Some(rng),
    );
    let (out, values) = ret.unwrap();
    assert_eq!(vec!["4".to_string(), "true".to_string()], values);
    assert_eq!("a 4 b true", out);
}
