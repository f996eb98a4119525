use launcher_config::{
    format_invalid_override, get_libsearch, CapturingLogger, ConstantBank, FatalMisconfiguration,
    ItwLibSearch, Logger,
};

fn bank_with(itw_libs: Option<&'static str>) -> ConstantBank {
    let mut bank = ConstantBank::development();
    bank.itw_libs = itw_libs;
    bank
}

#[test]
fn valid_override_wins_over_valid_fallback() {
    let mut logger = CapturingLogger::new();
    let bank = bank_with(Some("DISTRIBUTION"));
    assert_eq!(get_libsearch(&mut logger, Some("BUNDLED"), &bank), Ok(ItwLibSearch::BUNDLED));
    assert_eq!(logger.count(), 0);
}

#[test]
fn valid_override_wins_over_invalid_fallback() {
    let mut logger = CapturingLogger::new();
    let bank = bank_with(Some("nonsense"));
    assert_eq!(get_libsearch(&mut logger, Some("BOTH"), &bank), Ok(ItwLibSearch::BOTH));
    assert_eq!(logger.count(), 0);
    let unset = bank_with(None);
    assert_eq!(get_libsearch(&mut logger, Some("DISTRIBUTION"), &unset), Ok(ItwLibSearch::DISTRIBUTION));
    assert_eq!(logger.count(), 0);
}

#[test]
fn invalid_override_falls_back_and_is_reported_once() {
    let mut logger = CapturingLogger::new();
    let bank = bank_with(Some("DISTRIBUTION"));
    assert_eq!(get_libsearch(&mut logger, Some("MAYBE"), &bank), Ok(ItwLibSearch::DISTRIBUTION));
    assert_eq!(logger.count(), 1);
    let line = logger.line(0).unwrap();
    assert!(line.contains("MAYBE"));
    assert_eq!(
        line,
        "ITW-LIBS provided, but have invalid value of MAYBE. Use BUNDLED, DISTRIBUTION or BOTH"
    );
    assert_eq!(logger.line(1), None);
}

#[test]
fn empty_override_is_invalid() {
    let mut logger = CapturingLogger::new();
    let bank = bank_with(Some("BOTH"));
    assert_eq!(get_libsearch(&mut logger, Some(""), &bank), Ok(ItwLibSearch::BOTH));
    assert_eq!(logger.count(), 1);
    assert_eq!(
        logger.line(0),
        Some("ITW-LIBS provided, but have invalid value of . Use BUNDLED, DISTRIBUTION or BOTH")
    );
}

#[test]
fn override_is_not_normalised() {
    let mut logger = CapturingLogger::new();
    let bank = bank_with(Some("BUNDLED"));
    assert_eq!(get_libsearch(&mut logger, Some("both"), &bank), Ok(ItwLibSearch::BUNDLED));
    assert_eq!(get_libsearch(&mut logger, Some(" BOTH"), &bank), Ok(ItwLibSearch::BUNDLED));
    assert_eq!(logger.count(), 2);
    assert_eq!(
        logger.line(0),
        Some("ITW-LIBS provided, but have invalid value of both. Use BUNDLED, DISTRIBUTION or BOTH")
    );
    assert_eq!(
        logger.line(1),
        Some("ITW-LIBS provided, but have invalid value of  BOTH. Use BUNDLED, DISTRIBUTION or BOTH")
    );
}

#[test]
fn no_override_uses_the_fallback_silently() {
    let mut logger = CapturingLogger::new();
    assert_eq!(get_libsearch(&mut logger, None, &bank_with(Some("BUNDLED"))), Ok(ItwLibSearch::BUNDLED));
    assert_eq!(get_libsearch(&mut logger, None, &bank_with(Some("DISTRIBUTION"))), Ok(ItwLibSearch::DISTRIBUTION));
    assert_eq!(get_libsearch(&mut logger, None, &bank_with(Some("BOTH"))), Ok(ItwLibSearch::BOTH));
    assert_eq!(logger.count(), 0);
}

#[test]
fn no_override_and_invalid_fallback_is_fatal() {
    let mut logger = CapturingLogger::new();
    let bank = bank_with(Some("EVERYWHERE"));
    assert_eq!(get_libsearch(&mut logger, None, &bank), Err(FatalMisconfiguration::new()));
    assert_eq!(logger.count(), 0);
}

#[test]
fn development_build_without_override_is_fatal() {
    let mut logger = CapturingLogger::new();
    let bank = ConstantBank::development();
    assert_eq!(get_libsearch(&mut logger, None, &bank), Err(FatalMisconfiguration::new()));
    assert_eq!(get_libsearch(&mut logger, None, &bank_with(Some(""))), Err(FatalMisconfiguration::new()));
    assert_eq!(logger.count(), 0);
}

#[test]
fn invalid_override_and_invalid_fallback_reports_then_fails() {
    let mut logger = CapturingLogger::new();
    let bank = bank_with(Some("bundled"));
    assert_eq!(get_libsearch(&mut logger, Some("MAYBE"), &bank), Err(FatalMisconfiguration::new()));
    assert_eq!(logger.count(), 1);
    assert_eq!(
        logger.line(0),
        Some("ITW-LIBS provided, but have invalid value of MAYBE. Use BUNDLED, DISTRIBUTION or BOTH")
    );
}

#[test]
fn fatal_misconfiguration_describes_itself() {
    assert_eq!(FatalMisconfiguration::new().describe(), "itw-lib search out of range");
}

#[test]
fn invalid_override_line_names_value_and_tokens() {
    let line = format_invalid_override("MAYBE");
    assert_eq!(
        line,
        "ITW-LIBS provided, but have invalid value of MAYBE. Use BUNDLED, DISTRIBUTION or BOTH"
    );
    assert!(line.contains("MAYBE"));
    assert!(line.contains("BUNDLED"));
    assert!(line.contains("DISTRIBUTION"));
    assert!(line.contains("BOTH"));
    assert_eq!(
        format_invalid_override(""),
        "ITW-LIBS provided, but have invalid value of . Use BUNDLED, DISTRIBUTION or BOTH"
    );
}

#[test]
fn capturing_logger_keeps_lines_in_order() {
    let mut logger = CapturingLogger::new();
    assert_eq!(logger.count(), 0);
    assert_eq!(logger.line(0), None);
    logger.info("first");
    logger.info("second");
    assert_eq!(logger.count(), 2);
    assert_eq!(logger.line(0), Some("first"));
    assert_eq!(logger.line(1), Some("second"));
    assert_eq!(logger.line(2), None);
}
