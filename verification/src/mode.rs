//! The library-search mode and its parser.

use vstd::prelude::*;
use crate::text::str_eq;

verus! {

/// Where the launcher looks for a supporting native library.
#[allow(non_camel_case_types)]
#[derive(Clone, Copy, Debug, PartialEq, Eq, Structural)]
pub enum ItwLibSearch {
    /// Only the copies shipped with the launcher.
    BUNDLED,
    /// Only the copies that the host distribution provides.
    DISTRIBUTION,
    /// Both of them.
    BOTH,
}

/// Marks a string that is none of the three legal tokens. It carries nothing
/// but its identity.
#[derive(Clone, Copy, Debug, PartialEq, Eq)]
pub struct ParseItwLibSearch {
    _priv: (),
}

impl ParseItwLibSearch {
    /// The one value of this type.
    pub closed spec fn marker() -> ParseItwLibSearch {
        ParseItwLibSearch { _priv: () }
    }

    /// The parse failure.
    pub fn new() -> (failure: ParseItwLibSearch)
        ensures
            failure == Self::marker(),
    {
        ParseItwLibSearch { _priv: () }
    }

    /// Any two parse failures are the same value.
    pub proof fn lemma_unique(self, other: ParseItwLibSearch)
        ensures
            self == other,
            self == Self::marker(),
    {
    }
}

impl ItwLibSearch {
    /// The canonical token of a mode: the exact text that parses to it.
    pub open spec fn spec_token(self) -> Seq<char> {
        match self {
            ItwLibSearch::BUNDLED => "BUNDLED"@,
            ItwLibSearch::DISTRIBUTION => "DISTRIBUTION"@,
            ItwLibSearch::BOTH => "BOTH"@,
        }
    }

    /// What parsing makes of a string: the mode whose token the string is,
    /// compared character by character, with no trimming and no folding of
    /// case; a failure for every other string.
    pub open spec fn spec_from_str(s: Seq<char>) -> Result<ItwLibSearch, ParseItwLibSearch> {
        if s == ItwLibSearch::BOTH.spec_token() {
            Ok(ItwLibSearch::BOTH)
        } else if s == ItwLibSearch::BUNDLED.spec_token() {
            Ok(ItwLibSearch::BUNDLED)
        } else if s == ItwLibSearch::DISTRIBUTION.spec_token() {
            Ok(ItwLibSearch::DISTRIBUTION)
        } else {
            Err(ParseItwLibSearch::marker())
        }
    }

    /// The canonical token of this mode.
    pub fn token(self) -> (t: &'static str)
        ensures
            t@ == self.spec_token(),
    {
        match self {
            ItwLibSearch::BUNDLED => "BUNDLED",
            ItwLibSearch::DISTRIBUTION => "DISTRIBUTION",
            ItwLibSearch::BOTH => "BOTH",
        }
    }

    /// Parses a mode from its token: the mode whose token the string is, a
    /// failure where it is no mode's token.
    pub fn from_str(sstr: &str) -> (parsed: Result<ItwLibSearch, ParseItwLibSearch>)
        ensures
            parsed == Self::spec_from_str(sstr@),
            parsed matches Ok(mode) ==> sstr@ == mode.spec_token(),
            parsed is Err ==> forall|mode: ItwLibSearch| sstr@ != #[trigger] mode.spec_token(),
    {
        proof {
            lemma_parse_accepts_exactly_the_tokens(sstr@);
        }
        if str_eq(sstr, "BOTH") {
            return Ok(ItwLibSearch::BOTH);
        }
        if str_eq(sstr, "BUNDLED") {
            return Ok(ItwLibSearch::BUNDLED);
        }
        if str_eq(sstr, "DISTRIBUTION") {
            return Ok(ItwLibSearch::DISTRIBUTION);
        }
        Err(ParseItwLibSearch::new())
    }
}

impl core::str::FromStr for ItwLibSearch {
    type Err = ParseItwLibSearch;

    /// Parses a mode from its token, as `ItwLibSearch::from_str` does.
    fn from_str(sstr: &str) -> (parsed: Result<ItwLibSearch, ParseItwLibSearch>)
        ensures
            parsed == ItwLibSearch::spec_from_str(sstr@),
    {
        ItwLibSearch::from_str(sstr)
    }
}

/// The characters of each token, spelled out.
pub proof fn lemma_token_characters()
    ensures
        ItwLibSearch::BUNDLED.spec_token() == seq!['B', 'U', 'N', 'D', 'L', 'E', 'D'],
        ItwLibSearch::DISTRIBUTION.spec_token() == seq![
            'D', 'I', 'S', 'T', 'R', 'I', 'B', 'U', 'T', 'I', 'O', 'N',
        ],
        ItwLibSearch::BOTH.spec_token() == seq!['B', 'O', 'T', 'H'],
{
    reveal_strlit("BUNDLED");
    reveal_strlit("DISTRIBUTION");
    reveal_strlit("BOTH");
    assert(ItwLibSearch::BUNDLED.spec_token() =~= seq!['B', 'U', 'N', 'D', 'L', 'E', 'D']);
    assert(ItwLibSearch::DISTRIBUTION.spec_token() =~= seq![
        'D', 'I', 'S', 'T', 'R', 'I', 'B', 'U', 'T', 'I', 'O', 'N',
    ]);
    assert(ItwLibSearch::BOTH.spec_token() =~= seq!['B', 'O', 'T', 'H']);
}

/// No two modes share a token.
pub proof fn lemma_tokens_are_distinct(a: ItwLibSearch, b: ItwLibSearch)
    ensures
        a.spec_token() == b.spec_token() <==> a == b,
{
    lemma_token_characters();
}

/// Writing a mode as its token and parsing the token gives the mode back.
pub proof fn lemma_token_round_trip(mode: ItwLibSearch)
    ensures
        ItwLibSearch::spec_from_str(mode.spec_token()) == Ok::<ItwLibSearch, ParseItwLibSearch>(
            mode,
        ),
{
    lemma_tokens_are_distinct(mode, ItwLibSearch::BOTH);
    lemma_tokens_are_distinct(mode, ItwLibSearch::BUNDLED);
    lemma_tokens_are_distinct(mode, ItwLibSearch::DISTRIBUTION);
}

/// Parsing yields a mode exactly for that mode's token, and fails on every
/// string that is no mode's token.
pub proof fn lemma_parse_accepts_exactly_the_tokens(s: Seq<char>)
    ensures
        forall|mode: ItwLibSearch|
            ItwLibSearch::spec_from_str(s) == Ok::<ItwLibSearch, ParseItwLibSearch>(mode) <==> s
                == #[trigger] mode.spec_token(),
        ItwLibSearch::spec_from_str(s) is Err <==> forall|mode: ItwLibSearch|
            s != #[trigger] mode.spec_token(),
{
    assert forall|mode: ItwLibSearch|
        ItwLibSearch::spec_from_str(s) == Ok::<ItwLibSearch, ParseItwLibSearch>(mode) <==> s
            == #[trigger] mode.spec_token() by {
        lemma_token_round_trip(mode);
    }
    if ItwLibSearch::spec_from_str(s) is Err {
        assert forall|mode: ItwLibSearch| s != #[trigger] mode.spec_token() by {
            lemma_token_round_trip(mode);
        }
    } else {
        let found = ItwLibSearch::spec_from_str(s)->Ok_0;
        assert(s == found.spec_token());
    }
}

} // verus!
