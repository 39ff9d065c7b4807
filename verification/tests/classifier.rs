use qwiki::{get_flags, get_params, QueryError};

fn strings(items: &[&str]) -> Vec<String> {
    items.iter().map(|s| String::from(*s)).collect()
}

#[test]
fn check_flags() {
    let args = vec![String::from("cow"), String::from("-s"), String::from("-e"), String::from("--moose")];
    let result = get_flags(&args);
    let check = vec![String::from("s"), String::from("e"), String::from("moose")];
    let matching = result.iter().zip(check.iter()).filter(|&(a, b)| a == b).count();
    assert!(matching == result.len() && matching == check.len());
}

#[test]
fn check_flags_long() {
    let args = vec![String::from("cow"), String::from("-s"), String::from("-pe")];
    let result = get_flags(&args);
    let check = vec![String::from("s"), String::from("p"), String::from("e")];
    let matching = result.iter().zip(check.iter()).filter(|&(a, b)| a == b).count();
    assert!(matching == result.len() && matching == check.len());
}

#[test]
fn check_params_ok() {
    let args = vec![String::from("co-w"), String::from("moose"), String::from("-s"), String::from("-e")];
    let result = get_params(&args);
    let check = vec![String::from("moose")];
    assert!(result.is_ok());
    let matching = result.as_ref().unwrap().iter().zip(check.iter()).filter(|&(a, b)| a == b).count();
    assert!(matching == result.unwrap().len() && matching == check.len());
}

#[test]
fn check_params_too_many() {
    let args = vec![String::from("-s"), String::from("cow"), String::from("moose"), String::from("geese"), String::from("jackrabbit"), String::from("-e")];
    let result = get_params(&args);
    assert!(if result.is_err() && result.unwrap_err().message() == "Error: too many arguments provided" {true} else {false});
}

#[test]
fn cluster_then_long_flag_keeps_order() {
    let flags = get_flags(&strings(&["-se", "--moose"]));
    assert_eq!(flags, strings(&["s", "e", "moose"]));
}

#[test]
fn flags_between_parameters_keep_order() {
    let flags = get_flags(&strings(&["qwiki", "--toc", "cats", "-rc", "history", "-l"]));
    assert_eq!(flags, strings(&["toc", "r", "c", "l"]));
}

#[test]
fn no_dash_argument_gives_the_empty_flag() {
    assert_eq!(get_flags(&strings(&["qwiki", "cats", "history"])), strings(&[""]));
    assert_eq!(get_flags(&strings(&[])), strings(&[""]));
}

#[test]
fn lone_dash_gives_no_flag() {
    assert_eq!(get_flags(&strings(&["qwiki", "-"])), strings(&[]));
    assert_eq!(get_flags(&strings(&["qwiki", "-", "-s"])), strings(&["s"]));
    assert_eq!(get_flags(&strings(&["qwiki", "-t", "-", "-s"])), strings(&["t", "s"]));
}

#[test]
fn dashes_inside_a_cluster_are_left_out() {
    assert_eq!(get_flags(&strings(&["-s-e"])), strings(&["s", "e"]));
}

#[test]
fn long_flag_keeps_what_follows_its_two_dashes() {
    assert_eq!(get_flags(&strings(&["--summary"])), strings(&["summary"]));
    assert_eq!(get_flags(&strings(&["--a--b"])), strings(&["a--b"]));
    assert_eq!(get_flags(&strings(&["----"])), strings(&["--"]));
}

#[test]
fn two_dashes_alone_give_the_empty_flag() {
    assert_eq!(get_flags(&strings(&["qwiki", "--"])), strings(&[""]));
}

#[test]
fn three_dashes_give_no_flag() {
    assert_eq!(get_flags(&strings(&["qwiki", "---"])), strings(&[]));
}

#[test]
fn cluster_of_letters_beyond_ascii() {
    assert_eq!(get_flags(&strings(&["-s\u{e9}\u{4e2d}"])), strings(&["s", "\u{e9}", "\u{4e2d}"]));
    assert_eq!(get_flags(&strings(&["--\u{e9}t\u{e9}"])), strings(&["\u{e9}t\u{e9}"]));
}

#[test]
fn params_drop_exactly_the_first_positional() {
    assert_eq!(get_params(&strings(&["qwiki", "cats"])).unwrap(), strings(&["cats"]));
    assert_eq!(
        get_params(&strings(&["-s", "qwiki", "-t", "cats", "--toc", "history"])).unwrap(),
        strings(&["cats", "history"])
    );
    assert_eq!(get_params(&strings(&["qwiki"])).unwrap(), strings(&[]));
}

#[test]
fn params_without_positional_are_empty() {
    assert_eq!(get_params(&strings(&["-v"])).unwrap(), strings(&[]));
    assert_eq!(get_params(&strings(&[])).unwrap(), strings(&[]));
}

#[test]
fn empty_argument_is_a_parameter() {
    assert_eq!(get_params(&strings(&["qwiki", "", "x"])).unwrap(), strings(&["", "x"]));
    assert_eq!(get_flags(&strings(&["qwiki", "", "x"])), strings(&[""]));
}

#[test]
fn five_parameters_are_too_many() {
    let result = get_params(&strings(&["qwiki", "a", "b", "c", "d", "e"]));
    assert_eq!(result, Err(QueryError::TooManyArguments));
}

#[test]
fn three_parameters_are_too_many_two_are_not() {
    assert_eq!(
        get_params(&strings(&["qwiki", "a", "b", "c"])),
        Err(QueryError::TooManyArguments)
    );
    assert_eq!(get_params(&strings(&["qwiki", "a", "b"])).unwrap(), strings(&["a", "b"]));
}
