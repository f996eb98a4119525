use launcher_config::{ItwLibSearch, ParseItwLibSearch};
use std::str::FromStr;

#[test]
fn itw_libsearch_to_enum_test() {
    assert!(ItwLibSearch::from_str("BUNDLED") == Ok(ItwLibSearch::BUNDLED));
    assert!(ItwLibSearch::from_str("BOTH") == Ok(ItwLibSearch::BOTH));
    assert!(ItwLibSearch::from_str("DISTRIBUTION") == Ok(ItwLibSearch::DISTRIBUTION));
    assert!(ItwLibSearch::from_str("") == Err(ParseItwLibSearch::new()));
}

#[test]
fn every_token_parses_to_its_mode() {
    assert_eq!(ItwLibSearch::from_str("BUNDLED"), Ok(ItwLibSearch::BUNDLED));
    assert_eq!(ItwLibSearch::from_str("DISTRIBUTION"), Ok(ItwLibSearch::DISTRIBUTION));
    assert_eq!(ItwLibSearch::from_str("BOTH"), Ok(ItwLibSearch::BOTH));
}

#[test]
fn empty_string_is_rejected() {
    assert_eq!(ItwLibSearch::from_str(""), Err(ParseItwLibSearch::new()));
}

#[test]
fn lower_case_is_rejected() {
    assert_eq!(ItwLibSearch::from_str("bundled"), Err(ParseItwLibSearch::new()));
    assert_eq!(ItwLibSearch::from_str("distribution"), Err(ParseItwLibSearch::new()));
    assert_eq!(ItwLibSearch::from_str("both"), Err(ParseItwLibSearch::new()));
    assert_eq!(ItwLibSearch::from_str("Both"), Err(ParseItwLibSearch::new()));
}

#[test]
fn padding_is_rejected() {
    assert_eq!(ItwLibSearch::from_str(" BOTH"), Err(ParseItwLibSearch::new()));
    assert_eq!(ItwLibSearch::from_str("BOTH "), Err(ParseItwLibSearch::new()));
    assert_eq!(ItwLibSearch::from_str("BUNDLED\n"), Err(ParseItwLibSearch::new()));
    assert_eq!(ItwLibSearch::from_str("\tDISTRIBUTION"), Err(ParseItwLibSearch::new()));
}

#[test]
fn near_misses_are_rejected() {
    assert_eq!(ItwLibSearch::from_str("MAYBE"), Err(ParseItwLibSearch::new()));
    assert_eq!(ItwLibSearch::from_str("BOT"), Err(ParseItwLibSearch::new()));
    assert_eq!(ItwLibSearch::from_str("BOTHH"), Err(ParseItwLibSearch::new()));
    assert_eq!(ItwLibSearch::from_str("BUNDLEX"), Err(ParseItwLibSearch::new()));
    assert_eq!(ItwLibSearch::from_str("BOTH,BUNDLED"), Err(ParseItwLibSearch::new()));
    assert_eq!(ItwLibSearch::from_str("DISTRIBUTIONS"), Err(ParseItwLibSearch::new()));
    assert_eq!(ItwLibSearch::from_str("ITW_LIBS-dev-unspecified"), Err(ParseItwLibSearch::new()));
    assert_eq!(ItwLibSearch::from_str("B\u{d6}TH"), Err(ParseItwLibSearch::new()));
}

#[test]
fn tokens_are_the_canonical_spellings() {
    assert_eq!(ItwLibSearch::BUNDLED.token(), "BUNDLED");
    assert_eq!(ItwLibSearch::DISTRIBUTION.token(), "DISTRIBUTION");
    assert_eq!(ItwLibSearch::BOTH.token(), "BOTH");
}

#[test]
fn token_round_trip() {
    let modes = vec![ItwLibSearch::BUNDLED, ItwLibSearch::DISTRIBUTION, ItwLibSearch::BOTH];
    for mode in modes {
        assert_eq!(ItwLibSearch::from_str(mode.token()), Ok(mode));
    }
}

#[test]
fn str_parse_goes_through_the_same_parser() {
    assert_eq!("BOTH".parse::<ItwLibSearch>(), Ok(ItwLibSearch::BOTH));
    assert_eq!("BUNDLED".parse::<ItwLibSearch>(), Ok(ItwLibSearch::BUNDLED));
    assert_eq!("DISTRIBUTION".parse::<ItwLibSearch>(), Ok(ItwLibSearch::DISTRIBUTION));
    assert_eq!("both".parse::<ItwLibSearch>(), Err(ParseItwLibSearch::new()));
    assert_eq!(<ItwLibSearch as FromStr>::from_str(" BOTH"), Err(ParseItwLibSearch::new()));
}

#[test]
fn parse_failures_are_all_alike() {
    let first = ItwLibSearch::from_str("x").unwrap_err();
    let second = ItwLibSearch::from_str("").unwrap_err();
    assert_eq!(first, second);
    assert_eq!(first, ParseItwLibSearch::new());
}
