use mypl::cli::{eq_any, parse, same_text, usage};

fn words(list: &[&str]) -> Vec<String> {
    list.iter().map(|w| w.to_string()).collect()
}

#[test]
fn no_flags_ask_for_nothing() {
    let arguments = parse(&words(&["program", "out"]));
    assert!(!arguments.abort);
    assert!(!arguments.help);
    assert!(arguments.inputs.is_empty());
    assert_eq!(None, arguments.error);
}

#[test]
fn help_aborts_without_a_fault() {
    for flag in ["-h", "--help"] {
        let arguments = parse(&words(&["program", flag]));
        assert!(arguments.abort);
        assert!(arguments.help);
        assert_eq!(None, arguments.error);
    }
}

#[test]
fn inputs_are_collected_in_order() {
    let arguments = parse(&words(&["program", "-i", "src/main.pl", "--input", "src/calc.pl", "./out"]));
    assert_eq!(vec!["src/main.pl".to_string(), "src/calc.pl".to_string()], arguments.inputs);
    assert!(!arguments.abort);
    assert_eq!(None, arguments.error);
}

#[test]
fn the_word_behind_an_input_flag_is_a_file_whatever_it_is() {
    let arguments = parse(&words(&["program", "-i", "-h"]));
    assert_eq!(vec!["-h".to_string()], arguments.inputs);
    assert!(!arguments.help);
}

#[test]
fn an_input_flag_without_a_value_is_a_fault() {
    let arguments = parse(&words(&["program", "-i", "a", "-i"]));
    assert_eq!(vec!["a".to_string()], arguments.inputs);
    assert!(arguments.abort);
    assert!(arguments.help);
    assert_eq!(Some("missing value for input".to_string()), arguments.error);
}

#[test]
fn usage_names_the_flags() {
    let text = usage();
    assert!(text.starts_with("\nusage: program [OPTIONS] {output}\n"));
    assert!(text.contains("-i,--input      list; input files"));
    assert!(text.ends_with("program -i src/main.pl -i src/calc.pl ./out\n    "));
}

#[test]
fn texts_are_compared_as_wholes() {
    assert!(same_text("-h", "-h"));
    assert!(!same_text("-h", "-help"));
    assert!(!same_text("-help", "-h"));
    assert!(same_text("", ""));
    assert!(eq_any(&"--help".to_string(), "-h", "--help"));
    assert!(!eq_any(&"--he".to_string(), "-h", "--help"));
}
