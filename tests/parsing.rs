use syntax_bootstrapper::directives::{parse_invocation, split_key_value, split_segments, strip_scheme};

#[test]
fn colons_after_the_first_stay_in_the_value() {
    let d = parse_invocation("scheme://launchmode:play+gameinfo:ABC:123+clientyear:2018");
    assert_eq!(d.launch_mode, "play");
    assert_eq!(d.ticket, "ABC:123");
    assert_eq!(d.client_year, "2018");
    assert_eq!(d.join_script, "");
}

#[test]
fn unknown_key_is_ignored() {
    let d = parse_invocation("scheme://launchmode:play+foo:bar+gameinfo:T");
    assert_eq!(d.launch_mode, "play");
    assert_eq!(d.ticket, "T");
    assert_eq!(d.join_script, "");
    assert_eq!(d.client_year, "");
}

#[test]
fn join_url_with_scheme_is_kept_whole() {
    let d = parse_invocation(
        "scheme://launchmode:play+gameinfo:T1+placelauncherurl:https://host/join?t=T1+clientyear:2020",
    );
    assert_eq!(d.launch_mode, "play");
    assert_eq!(d.ticket, "T1");
    assert_eq!(d.join_script, "https://host/join?t=T1");
    assert_eq!(d.client_year, "2020");
}

#[test]
fn leading_bare_segment_and_later_keys_win() {
    let d = parse_invocation("syntax-player://1+launchmode:edit+launchmode:play+clientyear");
    assert_eq!(d.launch_mode, "play");
    assert_eq!(d.client_year, "");
}

#[test]
fn invocation_without_scheme() {
    let d = parse_invocation("launchmode:play+gameinfo:X");
    assert_eq!(d.launch_mode, "play");
    assert_eq!(d.ticket, "X");
}

#[test]
fn empty_invocation_sets_nothing() {
    let d = parse_invocation("");
    assert_eq!(d.launch_mode, "");
    assert_eq!(d.ticket, "");
    assert_eq!(d.join_script, "");
    assert_eq!(d.client_year, "");
}

#[test]
fn scheme_is_stripped_once() {
    assert_eq!(strip_scheme("a://b:c://d"), "b:c://d");
    assert_eq!(strip_scheme("a:b"), "a:b");
    assert_eq!(strip_scheme("a:/"), "a:/");
}

#[test]
fn segments_split_on_plus() {
    assert_eq!(split_segments("a+b++c"), vec!["a", "b", "", "c"]);
    assert_eq!(split_segments(""), vec![""]);
    assert_eq!(split_segments("+"), vec!["", ""]);
}

#[test]
fn key_and_value_split_on_first_colon() {
    assert_eq!(split_key_value("k:v:w"), ("k".to_string(), "v:w".to_string()));
    assert_eq!(split_key_value("k"), ("k".to_string(), "".to_string()));
    assert_eq!(split_key_value(":v"), ("".to_string(), "v".to_string()));
}
