use darkproto::cli_parser::{
    arg_presence, parse_arg, parse_u32, ArgMatches, ClientArgs, MatchedArg, MatchesError, RxTxArgs,
    ServerArgs,
};

fn arg(id: &str, value: Option<&str>) -> MatchedArg {
    MatchedArg { id: id.to_string(), value: value.map(|v| v.to_string()), present: value.is_some() }
}

fn matches(args: Vec<MatchedArg>) -> ArgMatches {
    ArgMatches { args }
}

#[test]
fn parse_u32_accepts_digits_with_optional_plus() {
    assert_eq!(parse_u32("5005"), Some(5005));
    assert_eq!(parse_u32("0"), Some(0));
    assert_eq!(parse_u32("+7"), Some(7));
    assert_eq!(parse_u32("007"), Some(7));
    assert_eq!(parse_u32("4294967295"), Some(u32::MAX));
}

#[test]
fn parse_u32_rejects_everything_else() {
    for s in ["", "+", "-1", "-0", "4294967296", "99999999999999999999", "12a", " 1", "1 ", "1_000", "++1", "٣"] {
        assert_eq!(parse_u32(s), None, "input {:?}", s);
    }
}

#[test]
fn parse_u32_agrees_with_std() {
    for s in ["", "+", "+0", "0", "42", "-42", "4294967295", "4294967296", "0x10", "1e3", "00000000004294967295", "+4294967295"] {
        assert_eq!(parse_u32(s), s.parse::<u32>().ok(), "input {:?}", s);
    }
}

#[test]
fn parse_arg_reads_a_number() {
    let m = matches(vec![arg("port", Some("5005"))]);
    assert_eq!(parse_arg("port", &m), Ok(5005));
}

#[test]
fn parse_arg_missing_value() {
    let m = matches(vec![arg("port", None)]);
    assert_eq!(parse_arg("port", &m), Err("Could not find --port argument".to_string()));
}

#[test]
fn parse_arg_not_a_number() {
    let m = matches(vec![arg("cid", Some("three"))]);
    assert_eq!(parse_arg("cid", &m), Err("--cid is not containing a number".to_string()));
}

#[test]
fn first_entry_of_an_id_counts() {
    let m = matches(vec![arg("port", Some("1")), arg("port", Some("2"))]);
    assert_eq!(parse_arg("port", &m), Ok(1));
    assert_eq!(m.get_one("port").map(|s| s.as_str()), Some("1"));
}

#[test]
fn presence_of_a_flag() {
    let m = matches(vec![
        MatchedArg { id: "re-enc".to_string(), value: None, present: true },
        MatchedArg { id: "quiet".to_string(), value: None, present: false },
    ]);
    assert_eq!(arg_presence("re-enc", &m), Ok(true));
    assert_eq!(arg_presence("quiet", &m), Ok(false));
    assert_eq!(m.try_contains_id("other"), Err(MatchesError::UnknownArgument));
}

#[test]
fn presence_of_an_unknown_argument() {
    let m = matches(vec![]);
    assert_eq!(
        arg_presence("re-enc", &m),
        Err("--re-enc is not a valid argument. Failed while matching an argument with error: UnknownArgument".to_string())
    );
}

#[test]
fn server_args_from_matches() {
    let m = matches(vec![arg("port", Some("5005"))]);
    assert_eq!(ServerArgs::new_with(&m), Ok(ServerArgs { port: 5005 }));
    let m = matches(vec![arg("port", Some("-5"))]);
    assert_eq!(ServerArgs::new_with(&m), Err("--port is not containing a number".to_string()));
}

#[test]
fn client_args_from_matches() {
    let m = matches(vec![arg("cid", Some("16")), arg("port", Some("5005"))]);
    assert_eq!(ClientArgs::new_with(&m), Ok(ClientArgs { cid: 16, port: 5005 }));
}

#[test]
fn client_args_report_the_first_failing_argument() {
    let m = matches(vec![arg("cid", None), arg("port", Some("x"))]);
    assert_eq!(ClientArgs::new_with(&m), Err("Could not find --cid argument".to_string()));
    let m = matches(vec![arg("cid", Some("3")), arg("port", Some("x"))]);
    assert_eq!(ClientArgs::new_with(&m), Err("--port is not containing a number".to_string()));
}

#[test]
fn rxtx_args_from_matches() {
    let m = matches(vec![
        arg("rx-port", Some("5005")),
        arg("tx-port", Some("5006")),
        arg("cid", Some("3")),
        MatchedArg { id: "re-enc".to_string(), value: None, present: true },
    ]);
    assert_eq!(RxTxArgs::new_with(&m), Ok(RxTxArgs { rx_port: 5005, tx_port: 5006, cid: 3, re_enc: true }));
}

#[test]
fn rxtx_args_without_a_re_enc_argument() {
    let m = matches(vec![arg("rx-port", Some("5005")), arg("tx-port", Some("5006")), arg("cid", Some("3"))]);
    assert_eq!(
        RxTxArgs::new_with(&m),
        Err("--re-enc is not a valid argument. Failed while matching an argument with error: UnknownArgument".to_string())
    );
    let m = matches(vec![arg("rx-port", Some("5005")), arg("tx-port", None), arg("cid", Some("x"))]);
    assert_eq!(RxTxArgs::new_with(&m), Err("Could not find --tx-port argument".to_string()));
}
