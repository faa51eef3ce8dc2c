//! The decisions behind typed in-memory queries: ordering and text
//! comparisons, case folding, regular-expression patterns, and the
//! diagnostic descriptions of composed expressions.

use vstd::prelude::*;
use std::cmp::Ordering;
use crate::error::{Error, ErrorView};
use crate::text::{append_str, chars_of, owned};

verus! {

/// An ordered comparison operation.
#[derive(Clone, Copy, Debug, Eq, Hash, PartialEq, Structural)]
pub enum Comparison {
    /// Less than.
    Less,
    /// Less than or equal.
    LessOrEqual,
    /// Greater than.
    Greater,
    /// Greater than or equal.
    GreaterOrEqual,
}

/// Whether a comparison accepts the ordering of an actual value against the
/// expected one.
pub open spec fn comparison_accepts(comparison: Comparison, ordering: Ordering) -> bool {
    match comparison {
        Comparison::Less => ordering == Ordering::Less,
        Comparison::LessOrEqual => ordering != Ordering::Greater,
        Comparison::Greater => ordering == Ordering::Greater,
        Comparison::GreaterOrEqual => ordering != Ordering::Less,
    }
}

/// The operator symbol of a comparison.
pub open spec fn comparison_symbol(comparison: Comparison) -> Seq<char> {
    match comparison {
        Comparison::Less => "<"@,
        Comparison::LessOrEqual => "<="@,
        Comparison::Greater => ">"@,
        Comparison::GreaterOrEqual => ">="@,
    }
}

impl Comparison {
    /// Whether this comparison accepts an ordering.
    pub fn accepts_ordering(self, ordering: Ordering) -> (r: bool)
        ensures
            r == comparison_accepts(self, ordering),
    {
        match self {
            Comparison::Less => match ordering {
                Ordering::Less => true,
                _ => false,
            },
            Comparison::LessOrEqual => match ordering {
                Ordering::Greater => false,
                _ => true,
            },
            Comparison::Greater => match ordering {
                Ordering::Greater => true,
                _ => false,
            },
            Comparison::GreaterOrEqual => match ordering {
                Ordering::Less => false,
                _ => true,
            },
        }
    }

    /// Whether this comparison accepts a partial ordering; incomparable values
    /// are never accepted.
    pub fn accepts_partial(self, ordering: Option<Ordering>) -> (r: bool)
        ensures
            r == match ordering {
                Some(o) => comparison_accepts(self, o),
                None => false,
            },
    {
        match ordering {
            Some(o) => self.accepts_ordering(o),
            None => false,
        }
    }

    /// The operator symbol, as diagnostics print it.
    pub fn symbol(self) -> (r: &'static str)
        ensures
            r@ == comparison_symbol(self),
    {
        proof {
            reveal_strlit("<");
            reveal_strlit("<=");
            reveal_strlit(">");
            reveal_strlit(">=");
        }
        match self {
            Comparison::Less => "<",
            Comparison::LessOrEqual => "<=",
            Comparison::Greater => ">",
            Comparison::GreaterOrEqual => ">=",
        }
    }
}

/// A string comparison operation.
#[derive(Clone, Copy, Debug, Eq, Hash, PartialEq, Structural)]
pub enum TextComparison {
    /// Exact equality.
    Exact,
    /// Substring containment.
    Contains,
    /// Prefix match.
    StartsWith,
    /// Suffix match.
    EndsWith,
}

/// `expected` occurs in `actual` starting at position `i`.
pub open spec fn occurs_at(actual: Seq<char>, expected: Seq<char>, i: int) -> bool {
    0 <= i && i + expected.len() <= actual.len() && actual.subrange(i, i + expected.len()) == expected
}

/// Whether a text comparison accepts `actual` against `expected`.
pub open spec fn text_accepts(comparison: TextComparison, actual: Seq<char>, expected: Seq<char>) -> bool {
    match comparison {
        TextComparison::Exact => actual == expected,
        TextComparison::Contains => exists|i: int| #[trigger] occurs_at(actual, expected, i),
        TextComparison::StartsWith => occurs_at(actual, expected, 0),
        TextComparison::EndsWith => occurs_at(actual, expected, actual.len() - expected.len()),
    }
}

/// The keyword of a text comparison.
pub open spec fn text_keyword(comparison: TextComparison) -> Seq<char> {
    match comparison {
        TextComparison::Exact => "EXACT"@,
        TextComparison::Contains => "CONTAINS"@,
        TextComparison::StartsWith => "STARTS WITH"@,
        TextComparison::EndsWith => "ENDS WITH"@,
    }
}

fn occurs_at_exec(actual: &[char], expected: &[char], i: usize) -> (r: bool)
    ensures
        r == occurs_at(actual@, expected@, i as int),
{
    if i > actual.len() || expected.len() > actual.len() - i {
        return false;
    }
    let mut j: usize = 0;
    while j < expected.len()
        invariant
            j <= expected@.len(),
            i + expected@.len() <= actual@.len(),
            i + expected.len() <= actual.len(),
            forall|k: int| 0 <= k < j ==> actual@[i + k] == expected@[k],
        decreases expected.len() - j,
    {
        if actual[i + j] != expected[j] {
            assert(actual@.subrange(i as int, i + expected@.len())[j as int] != expected@[j as int]);
            return false;
        }
        j = j + 1;
    }
    assert(actual@.subrange(i as int, i + expected@.len()) =~= expected@);
    true
}

impl TextComparison {
    /// Whether this comparison accepts `actual` against `expected`.
    pub fn accepts(self, actual: &str, expected: &str) -> (r: bool)
        ensures
            r == text_accepts(self, actual@, expected@),
    {
        let a = chars_of(actual);
        let e = chars_of(expected);
        match self {
            TextComparison::Exact => {
                if a.len() != e.len() {
                    return false;
                }
                let r = occurs_at_exec(a.as_slice(), e.as_slice(), 0);
                assert(r ==> a@ =~= a@.subrange(0, e@.len() as int));
                assert(a@ == e@ ==> a@.subrange(0, e@.len() as int) =~= e@);
                r
            },
            TextComparison::Contains => {
                if e.len() > a.len() {
                    assert forall|i: int| !#[trigger] occurs_at(a@, e@, i) by {}
                    return false;
                }
                let last = a.len() - e.len();
                let mut i: usize = 0;
                loop
                    invariant
                        a@ == actual@,
                        e@ == expected@,
                        self == TextComparison::Contains,
                        e@.len() <= a@.len(),
                        last == a@.len() - e@.len(),
                        i <= last,
                        forall|k: int| 0 <= k < i ==> !#[trigger] occurs_at(a@, e@, k),
                    decreases last - i,
                {
                    if occurs_at_exec(a.as_slice(), e.as_slice(), i) {
                        assert(occurs_at(a@, e@, i as int));
                        return true;
                    }
                    if i == last {
                        assert forall|k: int| !#[trigger] occurs_at(a@, e@, k) by {}
                        return false;
                    }
                    i = i + 1;
                }
            },
            TextComparison::StartsWith => occurs_at_exec(a.as_slice(), e.as_slice(), 0),
            TextComparison::EndsWith => {
                if e.len() > a.len() {
                    return false;
                }
                occurs_at_exec(a.as_slice(), e.as_slice(), a.len() - e.len())
            },
        }
    }

    /// The keyword, as diagnostics print it.
    pub fn keyword(self) -> (r: &'static str)
        ensures
            r@ == text_keyword(self),
    {
        proof {
            reveal_strlit("EXACT");
            reveal_strlit("CONTAINS");
            reveal_strlit("STARTS WITH");
            reveal_strlit("ENDS WITH");
        }
        match self {
            TextComparison::Exact => "EXACT",
            TextComparison::Contains => "CONTAINS",
            TextComparison::StartsWith => "STARTS WITH",
            TextComparison::EndsWith => "ENDS WITH",
        }
    }
}

/// The characters that `str::to_lowercase` produces, by Unicode's full
/// lowercase mapping.
pub uninterp spec fn lowercase_chars(s: Seq<char>) -> Seq<char>;

/// Calls `str::to_lowercase`.
#[verifier::external_body]
fn lowercase(s: &str) -> (r: String)
    ensures
        r@ == lowercase_chars(s@),
{
    s.to_lowercase()
}

/// Text as a comparison sees it: lowercased when case-insensitive.
pub open spec fn folded(s: Seq<char>, case_insensitive: bool) -> Seq<char> {
    if case_insensitive {
        lowercase_chars(s)
    } else {
        s
    }
}

/// Folds text for a comparison.
pub fn fold_case(s: &str, case_insensitive: bool) -> (r: String)
    ensures
        r@ == folded(s@, case_insensitive),
{
    if case_insensitive {
        lowercase(s)
    } else {
        owned(s)
    }
}

/// Applies a text comparison, optionally folding both sides to lowercase.
pub fn text_matches(actual: &str, expected: &str, comparison: TextComparison, case_insensitive: bool) -> (r: bool)
    ensures
        r == text_accepts(comparison, folded(actual@, case_insensitive), folded(expected@, case_insensitive)),
{
    let a = fold_case(actual, case_insensitive);
    let e = fold_case(expected, case_insensitive);
    comparison.accepts(a.as_str(), e.as_str())
}

/// `(left) AND (right)`.
pub open spec fn and_text(left: Seq<char>, right: Seq<char>) -> Seq<char> {
    "("@ + left + ") AND ("@ + right + ")"@
}

/// `(left) OR (right)`.
pub open spec fn or_text(left: Seq<char>, right: Seq<char>) -> Seq<char> {
    "("@ + left + ") OR ("@ + right + ")"@
}

/// `NOT (inner)`.
pub open spec fn not_text(inner: Seq<char>) -> Seq<char> {
    "NOT ("@ + inner + ")"@
}

fn join3(a: &str, b: &str, c: &str) -> (r: String)
    ensures
        r@ == a@ + b@ + c@,
{
    let mut s = owned(a);
    append_str(&mut s, b);
    append_str(&mut s, c);
    s
}

fn join5(a: &str, b: &str, c: &str, d: &str, e: &str) -> (r: String)
    ensures
        r@ == a@ + b@ + c@ + d@ + e@,
{
    let mut s = join3(a, b, c);
    append_str(&mut s, d);
    append_str(&mut s, e);
    s
}

/// Describes the conjunction of two expressions.
pub fn and_description(left: &str, right: &str) -> (r: String)
    ensures
        r@ == and_text(left@, right@),
{
    join5("(", left, ") AND (", right, ")")
}

/// Describes the disjunction of two expressions.
pub fn or_description(left: &str, right: &str) -> (r: String)
    ensures
        r@ == or_text(left@, right@),
{
    join5("(", left, ") OR (", right, ")")
}

/// Describes the negation of an expression.
pub fn not_description(inner: &str) -> (r: String)
    ensures
        r@ == not_text(inner@),
{
    join3("NOT (", inner, ")")
}

fn join2(a: &str, b: &str) -> (r: String)
    ensures
        r@ == a@ + b@,
{
    let mut s = owned(a);
    append_str(&mut s, b);
    s
}

/// Describes an equality test of a field.
pub fn equal_description(field: &str) -> (r: String)
    ensures
        r@ == field@ + " == <value>"@,
{
    join2(field, " == <value>")
}

/// Describes an inequality test of a field.
pub fn not_equal_description(field: &str) -> (r: String)
    ensures
        r@ == field@ + " != <value>"@,
{
    join2(field, " != <value>")
}

/// Describes an ordered comparison of a field.
pub fn compare_description(field: &str, comparison: Comparison) -> (r: String)
    ensures
        r@ == field@ + " "@ + comparison_symbol(comparison) + " <value>"@,
{
    join2(join3(field, " ", comparison.symbol()).as_str(), " <value>")
}

/// Describes a membership test of a field.
pub fn in_description(field: &str) -> (r: String)
    ensures
        r@ == field@ + " IN <values>"@,
{
    join2(field, " IN <values>")
}

/// Describes a text comparison of a field.
pub fn text_description(field: &str, comparison: TextComparison) -> (r: String)
    ensures
        r@ == field@ + " "@ + text_keyword(comparison) + " <text>"@,
{
    join2(join3(field, " ", comparison.keyword()).as_str(), " <text>")
}

/// Describes a regular-expression match of a field.
pub fn regex_description(field: &str, expression: &str) -> (r: String)
    ensures
        r@ == field@ + " ~= /"@ + expression@ + "/"@,
{
    join2(join3(field, " ~= /", expression).as_str(), "/")
}

/// Describes an equality test of a catalog field's raw value.
pub fn format_equal_description(token: &str) -> (r: String)
    ensures
        r@ == token@ + " == <format-value>"@,
{
    join2(token, " == <format-value>")
}

/// The regex crate's compiled pattern type.
#[verifier::external_type_specification]
#[verifier::external_body]
pub struct ExRegex(regex::Regex);

/// What building a pattern with `regex::RegexBuilder` reports: `None` when
/// it compiles, else the error's display text.
pub uninterp spec fn regex_build_error(pattern: Seq<char>, case_insensitive: bool) -> Option<Seq<char>>;

/// Whether a compiled pattern matches somewhere in a haystack, as
/// `regex::Regex::is_match` answers.
pub uninterp spec fn regex_is_match(pattern: Seq<char>, case_insensitive: bool, haystack: Seq<char>) -> bool;

/// Calls `RegexBuilder::new(pattern).case_insensitive(..).build()`, turning a
/// failure into its display text.
#[verifier::external_body]
fn build_regex(pattern: &str, case_insensitive: bool) -> (r: Result<regex::Regex, String>)
    ensures
        match regex_build_error(pattern@, case_insensitive) {
            None => r is Ok,
            Some(m) => r matches Err(x) && x@ == m,
        },
{
    match regex::RegexBuilder::new(pattern).case_insensitive(case_insensitive).build() {
        Ok(compiled) => Ok(compiled),
        Err(error) => Err(error.to_string()),
    }
}

/// A compiled regular expression together with the source it was built from.
#[derive(Debug)]
pub struct Pattern {
    compiled: regex::Regex,
    source: String,
    case_insensitive: bool,
}

/// The mathematical content of a [`Pattern`].
pub struct PatternView {
    pub source: Seq<char>,
    pub case_insensitive: bool,
}

impl View for Pattern {
    type V = PatternView;

    closed spec fn view(&self) -> PatternView {
        PatternView { source: self.source@, case_insensitive: self.case_insensitive }
    }
}

/// Calls `regex::Regex::is_match` on the compiled field; `Pattern::new` is the
/// only constructor, so that field was built from the pattern's source and
/// case setting.
#[verifier::external_body]
fn pattern_is_match(pattern: &Pattern, haystack: &str) -> (r: bool)
    ensures
        r == regex_is_match(pattern@.source, pattern@.case_insensitive, haystack@),
{
    pattern.compiled.is_match(haystack)
}

impl Pattern {
    /// Compiles a regular expression; a failure is an invalid argument whose
    /// message is the regex crate's description.
    pub fn new(expression: &str, case_insensitive: bool) -> (r: Result<Self, Error>)
        ensures
            match regex_build_error(expression@, case_insensitive) {
                None => r matches Ok(p) && p@ == (PatternView { source: expression@, case_insensitive }),
                Some(m) => r matches Err(e)
                    && e@ == (ErrorView::InvalidArgument { argument: "regular expression"@, message: m }),
            },
    {
        match build_regex(expression, case_insensitive) {
            Ok(compiled) => Ok(Pattern { compiled, source: owned(expression), case_insensitive }),
            Err(message) => Err(Error::InvalidArgument { argument: "regular expression", message }),
        }
    }

    /// Whether the pattern matches somewhere in `haystack`.
    pub fn is_match(&self, haystack: &str) -> (r: bool)
        ensures
            r == regex_is_match(self@.source, self@.case_insensitive, haystack@),
    {
        pattern_is_match(self, haystack)
    }

    /// The source expression.
    pub fn source(&self) -> (r: &str)
        ensures
            r@ == self@.source,
    {
        self.source.as_str()
    }
}


/// `<` and `>=` accept complementary orderings, as do `>` and `<=`; `<=` is `<`
/// or equal, and `>=` is `>` or equal.
pub proof fn law_comparison_complements(ordering: Ordering)
    ensures
        comparison_accepts(Comparison::Less, ordering) != comparison_accepts(Comparison::GreaterOrEqual, ordering),
        comparison_accepts(Comparison::Greater, ordering) != comparison_accepts(Comparison::LessOrEqual, ordering),
        comparison_accepts(Comparison::LessOrEqual, ordering)
            == (comparison_accepts(Comparison::Less, ordering) || ordering == Ordering::Equal),
        comparison_accepts(Comparison::GreaterOrEqual, ordering)
            == (comparison_accepts(Comparison::Greater, ordering) || ordering == Ordering::Equal),
{
}

/// Exact text also starts with, ends with and contains the expected text, and
/// a prefix or a suffix is contained.
pub proof fn law_text_comparisons_nest(actual: Seq<char>, expected: Seq<char>)
    ensures
        text_accepts(TextComparison::Exact, actual, expected) ==> text_accepts(TextComparison::StartsWith, actual, expected),
        text_accepts(TextComparison::Exact, actual, expected) ==> text_accepts(TextComparison::EndsWith, actual, expected),
        text_accepts(TextComparison::StartsWith, actual, expected) ==> text_accepts(TextComparison::Contains, actual, expected),
        text_accepts(TextComparison::EndsWith, actual, expected) ==> text_accepts(TextComparison::Contains, actual, expected),
{
    if actual == expected {
        assert(actual.subrange(0, expected.len() as int) =~= expected);
    }
    if occurs_at(actual, expected, 0) {
        assert(occurs_at(actual, expected, 0));
    }
    if occurs_at(actual, expected, actual.len() - expected.len()) {
        assert(occurs_at(actual, expected, actual.len() - expected.len()));
    }
}

} // verus!
