//! The override resolver: which library-search mode is in force.
//!
//! The environment may name a mode; the build names one too. A legal override
//! wins. An illegal one is reported to the logger, once, and the build's value
//! is used. A build whose own value is illegal is broken beyond repair: the
//! resolver reports that to its caller, who ends the program.

use vstd::prelude::*;
use vstd::string::StringExecFns;
use crate::constants::{get_itwlibsearch, required_value, ConstantBank, ConstantName};
use crate::mode::{lemma_token_characters, ItwLibSearch};
use crate::text::text_of;

verus! {

/// Marks a build whose library-search constant is none of the three legal
/// tokens. Nothing can be resolved from it.
#[derive(Clone, Copy, Debug, PartialEq, Eq)]
pub struct FatalMisconfiguration {
    _priv: (),
}

impl FatalMisconfiguration {
    /// The one value of this type.
    pub closed spec fn marker() -> FatalMisconfiguration {
        FatalMisconfiguration { _priv: () }
    }

    /// The fatal misconfiguration.
    pub fn new() -> (fault: FatalMisconfiguration)
        ensures
            fault == Self::marker(),
    {
        FatalMisconfiguration { _priv: () }
    }

    /// The words with which the program ends.
    pub fn describe(&self) -> (words: &'static str)
        ensures
            words@ == "itw-lib search out of range"@,
    {
        "itw-lib search out of range"
    }
}

/// Takes diagnostics for a human reader, one line at a time.
pub trait Logger {
    /// Every line handed over so far, oldest first.
    spec fn messages(&self) -> Seq<Seq<char>>;

    /// Hands over one line.
    fn info(&mut self, message: &str)
        ensures
            final(self).messages() == old(self).messages().push(message@),
    ;
}

/// The line that reports an illegal override.
pub open spec fn invalid_override_message(value: Seq<char>) -> Seq<char> {
    "ITW-LIBS provided, but have invalid value of "@ + value
        + ". Use BUNDLED, DISTRIBUTION or BOTH"@
}

/// The mode that an override and the build's value resolve to: the override
/// where it is a legal token, else the build's value where that is one, else
/// the fatal misconfiguration.
pub open spec fn spec_resolve(override_value: Option<Seq<char>>, fallback: Seq<char>) -> Result<
    ItwLibSearch,
    FatalMisconfiguration,
> {
    if override_value is Some && ItwLibSearch::spec_from_str(override_value->0) is Ok {
        Ok(ItwLibSearch::spec_from_str(override_value->0)->Ok_0)
    } else if ItwLibSearch::spec_from_str(fallback) is Ok {
        Ok(ItwLibSearch::spec_from_str(fallback)->Ok_0)
    } else {
        Err(FatalMisconfiguration::marker())
    }
}

/// The lines that resolving an override sends to the logger: one for an
/// override that is no legal token, none otherwise.
pub open spec fn spec_diagnostics(override_value: Option<Seq<char>>) -> Seq<Seq<char>> {
    if override_value is Some && ItwLibSearch::spec_from_str(override_value->0) is Err {
        seq![invalid_override_message(override_value->0)]
    } else {
        Seq::empty()
    }
}

/// Builds the line that reports an illegal override.
pub fn format_invalid_override(value: &str) -> (line: String)
    ensures
        line@ == invalid_override_message(value@),
{
    let mut line = String::from_str("ITW-LIBS provided, but have invalid value of ");
    line.append(value);
    line.append(". Use BUNDLED, DISTRIBUTION or BOTH");
    line
}

/// Resolves the library-search mode from the override, if there is one, and
/// the build's value in the bank, reporting an illegal override to the
/// logger.
pub fn get_libsearch<L: Logger>(
    logger: &mut L,
    override_value: Option<&str>,
    bank: &ConstantBank,
) -> (resolved: Result<ItwLibSearch, FatalMisconfiguration>)
    ensures
        resolved == spec_resolve(
            text_of(override_value),
            required_value(bank@, ConstantName::ItwLibs),
        ),
        final(logger).messages() == old(logger).messages() + spec_diagnostics(
            text_of(override_value),
        ),
{
    match override_value {
        Some(candidate) => match ItwLibSearch::from_str(candidate) {
            Ok(mode) => {
                return Ok(mode);
            },
            Err(_) => {
                let line = format_invalid_override(candidate);
                logger.info(line.as_str());
            },
        },
        None => {},
    }
    match ItwLibSearch::from_str(get_itwlibsearch(bank)) {
        Ok(mode) => Ok(mode),
        Err(_) => Err(FatalMisconfiguration::new()),
    }
}

/// A logger that keeps every line it is handed, for a caller that wants to
/// read them back.
pub struct CapturingLogger {
    lines: Vec<String>,
}

impl View for CapturingLogger {
    type V = Seq<Seq<char>>;

    /// The lines kept, oldest first.
    closed spec fn view(&self) -> Seq<Seq<char>> {
        Seq::new(self.lines@.len(), |i: int| self.lines@[i]@)
    }
}

impl Logger for CapturingLogger {
    open spec fn messages(&self) -> Seq<Seq<char>> {
        self@
    }

    fn info(&mut self, message: &str) {
        self.lines.push(String::from_str(message));
        assert(self@ =~= old(self)@.push(message@));
    }
}

impl CapturingLogger {
    /// A logger that has kept nothing yet.
    pub fn new() -> (logger: CapturingLogger)
        ensures
            logger@ == Seq::<Seq<char>>::empty(),
    {
        let logger = CapturingLogger { lines: Vec::new() };
        assert(logger@ =~= Seq::<Seq<char>>::empty());
        logger
    }

    /// How many lines were kept.
    pub fn count(&self) -> (n: usize)
        ensures
            n == self@.len(),
    {
        self.lines.len()
    }

    /// The line kept at a position, counted from the oldest, if there is one.
    pub fn line(&self, position: usize) -> (kept: Option<&str>)
        ensures
            text_of(kept) == if position < self@.len() {
                Some(self@[position as int])
            } else {
                None
            },
    {
        if position < self.lines.len() {
            Some(self.lines[position].as_str())
        } else {
            None
        }
    }
}

/// Whether a line holds a text somewhere in it, character for character.
pub open spec fn mentions(line: Seq<char>, text: Seq<char>) -> bool {
    exists|start: int|
        0 <= start && start + text.len() <= line.len() && #[trigger] line.subrange(
            start,
            start + text.len(),
        ) == text
}

/// The line that reports an illegal override holds the override, as it was
/// given, and each of the three legal tokens.
pub proof fn lemma_invalid_override_message_mentions(value: Seq<char>)
    ensures
        mentions(invalid_override_message(value), value),
        forall|mode: ItwLibSearch|
            mentions(invalid_override_message(value), #[trigger] mode.spec_token()),
{
    reveal_strlit("ITW-LIBS provided, but have invalid value of ");
    reveal_strlit(". Use BUNDLED, DISTRIBUTION or BOTH");
    lemma_token_characters();
    let line = invalid_override_message(value);
    let after: int = 45int + value.len();
    assert(line.subrange(45, after) == value);
    assert(line.subrange(after + 6, after + 6 + 7) == ItwLibSearch::BUNDLED.spec_token());
    assert(line.subrange(after + 15, after + 15 + 12) == ItwLibSearch::DISTRIBUTION.spec_token());
    assert(line.subrange(after + 31, after + 31 + 4) == ItwLibSearch::BOTH.spec_token());
    assert forall|mode: ItwLibSearch|
        mentions(invalid_override_message(value), #[trigger] mode.spec_token()) by {
        match mode {
            ItwLibSearch::BUNDLED => {},
            ItwLibSearch::DISTRIBUTION => {},
            ItwLibSearch::BOTH => {},
        }
    }
}

/// A legal override decides. Whatever the build's value is, legal or not, the
/// override's mode is resolved and the logger hears nothing.
pub proof fn lemma_legal_override_takes_precedence(value: Seq<char>, fallback: Seq<char>)
    requires
        ItwLibSearch::spec_from_str(value) is Ok,
    ensures
        spec_resolve(Some(value), fallback) == Ok::<ItwLibSearch, FatalMisconfiguration>(
            ItwLibSearch::spec_from_str(value)->Ok_0,
        ),
        spec_diagnostics(Some(value)) == Seq::<Seq<char>>::empty(),
{
}

/// An illegal override beside a legal build's value: the build's mode is
/// resolved, and the logger hears exactly one line, which holds the override.
pub proof fn lemma_illegal_override_falls_back(value: Seq<char>, fallback: Seq<char>)
    requires
        ItwLibSearch::spec_from_str(value) is Err,
        ItwLibSearch::spec_from_str(fallback) is Ok,
    ensures
        spec_resolve(Some(value), fallback) == Ok::<ItwLibSearch, FatalMisconfiguration>(
            ItwLibSearch::spec_from_str(fallback)->Ok_0,
        ),
        spec_diagnostics(Some(value)) == seq![invalid_override_message(value)],
        spec_diagnostics(Some(value)).len() == 1,
        mentions(spec_diagnostics(Some(value))[0], value),
{
    lemma_invalid_override_message_mentions(value);
}

/// No override beside an illegal build's value: nothing is resolved, the
/// outcome is the fatal misconfiguration, and the logger hears nothing.
pub proof fn lemma_illegal_fallback_is_fatal(fallback: Seq<char>)
    requires
        ItwLibSearch::spec_from_str(fallback) is Err,
    ensures
        spec_resolve(None, fallback) == Err::<ItwLibSearch, FatalMisconfiguration>(
            FatalMisconfiguration::marker(),
        ),
        spec_diagnostics(None) == Seq::<Seq<char>>::empty(),
{
}

/// Resolution fails exactly when the build's value is illegal and no legal
/// override stands in for it.
pub proof fn lemma_resolution_fails_exactly_without_a_legal_source(
    override_value: Option<Seq<char>>,
    fallback: Seq<char>,
)
    ensures
        spec_resolve(override_value, fallback) is Err <==> ItwLibSearch::spec_from_str(fallback)
            is Err && !(override_value is Some && ItwLibSearch::spec_from_str(override_value->0)
            is Ok),
{
}

} // verus!
