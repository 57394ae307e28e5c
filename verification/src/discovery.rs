//! Finding the tests and the runtime's symbols in an image's symbol table.

use crate::error::ImageError;
use crate::error::MandatorySymbol;
use crate::image::symbol_views;
use crate::image::Symbol;
use crate::image::SymbolView;
use regex::Regex;
use vstd::prelude::*;
use vstd::string::StringExecFns;

verus! {

/// The pattern of a test's entry point: a suite name and a test name, both
/// as short as the pattern allows.
pub const TEST_SYMBOL_PATTERN: &'static str =
    "^target_test_test_(?P<suite_name>.*?)__target_test__(?P<test_name>.*?)$";

/// The pattern's group that captures the suite name.
pub const SUITE_GROUP: &'static str = "suite_name";

/// The pattern's group that captures the test name.
pub const TEST_GROUP: &'static str = "test_name";

/// One test, found by the name of its entry point.
#[derive(Debug, PartialEq, Eq)]
pub struct TestCase {
    pub suite_name: String,
    pub test_name: String,
    pub addr: u32,
}

/// A `TestCase` with its names as sequences of characters.
pub struct TestCaseView {
    pub suite_name: Seq<char>,
    pub test_name: Seq<char>,
    pub addr: u32,
}

impl View for TestCase {
    type V = TestCaseView;

    open spec fn view(&self) -> TestCaseView {
        TestCaseView { suite_name: self.suite_name@, test_name: self.test_name@, addr: self.addr }
    }
}

impl Clone for TestCase {
    fn clone(&self) -> (copy: TestCase)
        ensures
            copy@ == self@,
    {
        TestCase {
            suite_name: self.suite_name.clone(),
            test_name: self.test_name.clone(),
            addr: self.addr,
        }
    }
}

/// The texts that the groups `first` and `second` of `pattern` capture in the
/// leftmost match in `text`, as the `regex` crate finds it. There is none
/// where `pattern` is no regular expression, where it matches nowhere in
/// `text`, or where one of the groups took no part in the match.
pub uninterp spec fn regex_captures(
    pattern: Seq<char>,
    first: Seq<char>,
    second: Seq<char>,
    text: Seq<char>,
) -> Option<(Seq<char>, Seq<char>)>;

/// Compiles `pattern` with `regex::Regex::new`, searches `text` with
/// `Regex::captures`, and hands out what the two named groups captured. The
/// contract gives this result its name and claims nothing else of it.
#[verifier::external_body]
fn capture_pair(pattern: &str, first: &str, second: &str, text: &str) -> (pair: Option<
    (String, String),
>)
    ensures
        captured(pair) == regex_captures(pattern@, first@, second@, text@),
{
    let re = Regex::new(pattern).ok()?;
    let captures = re.captures(text)?;
    let first_text = captures.name(first)?.as_str().to_string();
    let second_text = captures.name(second)?.as_str().to_string();
    Some((first_text, second_text))
}

/// A captured pair of texts as sequences of characters.
pub open spec fn captured(pair: Option<(String, String)>) -> Option<(Seq<char>, Seq<char>)> {
    match pair {
        Some(texts) => Some((texts.0@, texts.1@)),
        None => None,
    }
}

/// The test that a symbol stands for, given what the test pattern captured in
/// its name: suite and test name as captured, at the symbol's address cut to
/// 32 bits.
pub open spec fn test_from(names: Option<(Seq<char>, Seq<char>)>, address: u64) -> Option<
    TestCaseView,
> {
    match names {
        Some(pair) => Some(
            TestCaseView { suite_name: pair.0, test_name: pair.1, addr: address as u32 },
        ),
        None => None,
    }
}

/// The test that `symbol` stands for, if its name matches the test pattern.
pub open spec fn test_of(symbol: SymbolView) -> Option<TestCaseView> {
    test_from(
        regex_captures(TEST_SYMBOL_PATTERN@, SUITE_GROUP@, TEST_GROUP@, symbol.name),
        symbol.address,
    )
}

/// The tests among `symbols`, in table order.
pub open spec fn tests_of(symbols: Seq<SymbolView>) -> Seq<TestCaseView>
    decreases symbols.len(),
{
    if symbols.len() == 0 {
        Seq::empty()
    } else {
        match test_of(symbols.last()) {
            Some(test) => tests_of(symbols.drop_last()).push(test),
            None => tests_of(symbols.drop_last()),
        }
    }
}

/// The address, cut to 32 bits, of the last symbol in `symbols` named `name`.
pub open spec fn address_of(symbols: Seq<SymbolView>, name: Seq<char>) -> Option<u32>
    decreases symbols.len(),
{
    if symbols.len() == 0 {
        None
    } else if symbols.last().name == name {
        Some(symbols.last().address as u32)
    } else {
        address_of(symbols.drop_last(), name)
    }
}

/// The views of a list of tests, in the same order.
pub open spec fn test_views(tests: Seq<TestCase>) -> Seq<TestCaseView> {
    tests.map_values(|t: TestCase| t@)
}

/// Where the test runtime keeps a mandatory symbol, or the error that
/// reports it as missing.
pub open spec fn located(symbols: Seq<SymbolView>, symbol: MandatorySymbol) -> Result<
    u32,
    ImageError,
> {
    match address_of(symbols, symbol.text()) {
        Some(addr) => Ok(addr),
        None => Err(ImageError::MissingSymbol(symbol)),
    }
}

impl TestCase {
    /// The test that a symbol at `address` stands for, given what the test
    /// pattern captured in its name.
    pub fn from_captures(names: Option<(String, String)>, address: u64) -> (test: Option<
        TestCase,
    >)
        ensures
            test_case_view(test) == test_from(captured(names), address),
    {
        match names {
            Some((suite_name, test_name)) => Some(
                TestCase { suite_name, test_name, addr: #[verifier::truncate] (address as u32) },
            ),
            None => None,
        }
    }

    /// The name of the test as the test runtime registers it.
    pub fn symbol_name(&self) -> (name: String)
        ensures
            name@ == "__test_"@ + self.suite_name@ + "__target_test__"@ + self.test_name@,
    {
        let mut name = String::from_str("__test_");
        name.append(self.suite_name.as_str());
        name.append("__target_test__");
        name.append(self.test_name.as_str());
        name
    }
}

/// A test, if there is one, as its view.
pub open spec fn test_case_view(test: Option<TestCase>) -> Option<TestCaseView> {
    match test {
        Some(t) => Some(t@),
        None => None,
    }
}

/// Lists the tests of a symbol table: one for each symbol whose name matches
/// the test pattern, in table order.
pub fn enumerate_tests(symbols: &Vec<Symbol>) -> (tests: Vec<TestCase>)
    ensures
        test_views(tests@) == tests_of(symbol_views(symbols@)),
{
    let ghost all = symbol_views(symbols@);
    let mut tests: Vec<TestCase> = Vec::new();
    let mut i: usize = 0;
    assert(all.take(0) =~= Seq::empty());
    assert(test_views(tests@) =~= Seq::empty());
    while i < symbols.len()
        invariant
            i <= symbols@.len(),
            all == symbol_views(symbols@),
            test_views(tests@) == tests_of(all.take(i as int)),
        decreases symbols@.len() - i,
    {
        let symbol: &Symbol = &symbols[i];
        assert(all.take(i + 1).drop_last() =~= all.take(i as int));
        assert(all.take(i + 1).last() == symbol@);
        let names = capture_pair(
            TEST_SYMBOL_PATTERN,
            SUITE_GROUP,
            TEST_GROUP,
            symbol.name.as_str(),
        );
        match TestCase::from_captures(names, symbol.address) {
            Some(test) => {
                let ghost before = test_views(tests@);
                tests.push(test);
                assert(test_views(tests@) =~= before.push(test@));
            },
            None => {},
        }
        i = i + 1;
    }
    assert(all.take(i as int) =~= all);
    tests
}

/// Looks up a symbol that the test runtime must export. Of several symbols
/// with its name the last one counts.
pub fn retrieve_symbol(symbols: &Vec<Symbol>, symbol: MandatorySymbol) -> (addr: Result<
    u32,
    ImageError,
>)
    ensures
        addr == located(symbol_views(symbols@), symbol),
{
    let name: String = String::from_str(symbol.name());
    let ghost all = symbol_views(symbols@);
    let mut i: usize = symbols.len();
    assert(all.take(i as int) =~= all);
    while i > 0
        invariant
            i <= symbols@.len(),
            all == symbol_views(symbols@),
            name@ == symbol.text(),
            address_of(all, name@) == address_of(all.take(i as int), name@),
        decreases i,
    {
        i = i - 1;
        let candidate: &Symbol = &symbols[i];
        assert(all.take(i + 1).drop_last() =~= all.take(i as int));
        assert(all.take(i + 1).last() == candidate@);
        if candidate.name == name {
            return Ok(#[verifier::truncate] (candidate.address as u32));
        }
    }
    Err(ImageError::MissingSymbol(symbol))
}

} // verus!
