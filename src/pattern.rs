use vstd::prelude::*;

verus! {

/// A compiled expression of the `regex` crate, carried through opaquely.
#[verifier::external_type_specification]
#[verifier::external_body]
pub struct ExRegex(regex::Regex);

/// The error of `regex::Regex::new`, only told apart from success.
#[verifier::external_type_specification]
#[verifier::external_body]
pub struct ExRegexError(regex::Error);

/// Whether `pattern` is accepted by the `regex` crate as an expression.
pub uninterp spec fn regex_compiles(pattern: Seq<char>) -> bool;

/// Whether the expression `pattern` matches somewhere within `text`
/// (unanchored search, case-sensitive unless the pattern says otherwise).
pub uninterp spec fn regex_finds(pattern: Seq<char>, text: Seq<char>) -> bool;

/// Relies on regex::Regex::new: it returns `Ok` exactly when the pattern
/// parses and fits the crate's default size limits, which depends on the
/// pattern text alone.
#[verifier::external_body]
fn compile_regex(pattern: &str) -> (r: Result<regex::Regex, regex::Error>)
    ensures
        r is Ok <==> regex_compiles(pattern@),
{
    regex::Regex::new(pattern)
}

/// Relies on regex::Regex::is_match: whether the expression finds a match
/// anywhere in `text`. The private field `compiled` is only ever set, by
/// `IgnorePattern::new`, to the compilation of the field `source`.
#[verifier::external_body]
fn search(p: &IgnorePattern, text: &str) -> (r: bool)
    ensures
        r == regex_finds(p.source@, text@),
{
    p.compiled.is_match(text)
}

/// A name is ignored when at least one of the patterns matches within it.
pub open spec fn ignored_by(patterns: Seq<Seq<char>>, name: Seq<char>) -> bool {
    exists|i: int| 0 <= i < patterns.len() && regex_finds(#[trigger] patterns[i], name)
}

/// The lines that hold a pattern: all but the empty ones, in order.
pub open spec fn pattern_lines(lines: Seq<Seq<char>>) -> Seq<Seq<char>>
    decreases lines.len(),
{
    if lines.len() == 0 {
        Seq::empty()
    } else if lines.last().len() == 0 {
        pattern_lines(lines.drop_last())
    } else {
        pattern_lines(lines.drop_last()).push(lines.last())
    }
}

/// Index of the first pattern that does not compile, if any.
pub open spec fn first_invalid(patterns: Seq<Seq<char>>) -> Option<int>
    decreases patterns.len(),
{
    if patterns.len() == 0 {
        None
    } else {
        match first_invalid(patterns.drop_last()) {
            Some(i) => Some(i),
            None => if regex_compiles(patterns.last()) {
                None
            } else {
                Some(patterns.len() - 1)
            },
        }
    }
}

proof fn lemma_first_invalid(patterns: Seq<Seq<char>>)
    ensures
        first_invalid(patterns) is None <==> forall|i: int|
            0 <= i < patterns.len() ==> regex_compiles(#[trigger] patterns[i]),
        first_invalid(patterns) matches Some(k) ==> 0 <= k < patterns.len() && !regex_compiles(
            patterns[k],
        ) && forall|i: int| 0 <= i < k ==> regex_compiles(#[trigger] patterns[i]),
    decreases patterns.len(),
{
    if patterns.len() > 0 {
        let init = patterns.drop_last();
        lemma_first_invalid(init);
        assert forall|i: int| 0 <= i < init.len() implies init[i] == patterns[i] by {}
    }
}

proof fn lemma_first_invalid_extends(patterns: Seq<Seq<char>>, j: int)
    requires
        0 <= j <= patterns.len(),
        first_invalid(patterns.take(j)) is Some,
    ensures
        first_invalid(patterns) == first_invalid(patterns.take(j)),
    decreases patterns.len() - j,
{
    if j < patterns.len() {
        assert(patterns.take(j + 1).drop_last() == patterns.take(j));
        lemma_first_invalid_extends(patterns, j + 1);
    } else {
        assert(patterns.take(j) == patterns);
    }
}

/// One compiled ignore pattern, together with the text it was compiled from.
pub struct IgnorePattern {
    source: String,
    compiled: regex::Regex,
}

impl IgnorePattern {
    /// The pattern text.
    pub closed spec fn view(&self) -> Seq<char> {
        self.source@
    }

    /// Compiles `source`; `None` when it is not a valid expression.
    pub fn new(source: &str) -> (r: Option<IgnorePattern>)
        ensures
            r is Some <==> regex_compiles(source@),
            r matches Some(p) ==> p@ == source@,
    {
        match compile_regex(source) {
            Ok(compiled) => Some(IgnorePattern { source: source.to_owned(), compiled }),
            Err(_) => None,
        }
    }

    /// The pattern text.
    pub fn as_str(&self) -> (r: &str)
        ensures
            r@ == self@,
    {
        self.source.as_str()
    }

    /// Whether the pattern matches anywhere within `name`.
    pub fn is_match(&self, name: &str) -> (r: bool)
        ensures
            r == regex_finds(self@, name@),
    {
        search(self, name)
    }
}

/// The pattern at `index` of the list given to `IgnoreSet::new` is not a
/// valid regular expression.
#[derive(Clone, Copy, Debug, PartialEq, Eq, Structural)]
pub struct InvalidPattern {
    pub index: usize,
}

/// The ordered list of ignore patterns of one run.
pub struct IgnoreSet {
    patterns: Vec<IgnorePattern>,
}

impl IgnoreSet {
    /// The pattern texts, in order.
    pub closed spec fn view(&self) -> Seq<Seq<char>> {
        self.patterns@.map_values(|p: IgnorePattern| p@)
    }

    /// Compiles every pattern; fails on the first one that does not compile.
    pub fn new(sources: &Vec<String>) -> (r: Result<IgnoreSet, InvalidPattern>)
        ensures
            match r {
                Ok(set) => first_invalid(sources@.map_values(|s: String| s@)) is None && set@
                    == sources@.map_values(|s: String| s@),
                Err(e) => first_invalid(sources@.map_values(|s: String| s@)) == Some(
                    e.index as int,
                ),
            },
            r is Ok <==> forall|i: int|
                0 <= i < sources@.len() ==> regex_compiles(#[trigger] sources@[i]@),
            r matches Err(e) ==> e.index < sources@.len() && !regex_compiles(
                sources@[e.index as int]@,
            ) && forall|i: int| 0 <= i < e.index ==> regex_compiles(#[trigger] sources@[i]@),
    {
        let ghost texts = sources@.map_values(|s: String| s@);
        let mut patterns: Vec<IgnorePattern> = Vec::new();
        let mut i: usize = 0;
        while i < sources.len()
            invariant
                i <= sources.len(),
                texts == sources@.map_values(|s: String| s@),
                first_invalid(texts.take(i as int)) is None,
                patterns@.map_values(|p: IgnorePattern| p@) == texts.take(i as int),
            decreases sources.len() - i,
        {
            assert(texts.take(i as int + 1).drop_last() == texts.take(i as int));
            match IgnorePattern::new(sources[i].as_str()) {
                Some(p) => {
                    patterns.push(p);
                    assert(patterns@.map_values(|p: IgnorePattern| p@) == texts.take(
                        i as int + 1,
                    ));
                },
                None => {
                    proof {
                        assert(texts.take(i as int + 1).last() == texts[i as int]);
                        lemma_first_invalid_extends(texts, i as int + 1);
                        lemma_first_invalid(texts);
                        assert forall|k: int| 0 <= k < i implies regex_compiles(
                            #[trigger] sources@[k]@,
                        ) by {
                            assert(texts[k] == sources@[k]@);
                        }
                        assert(texts[i as int] == sources@[i as int]@);
                    }
                    return Err(InvalidPattern { index: i });
                },
            }
            i = i + 1;
        }
        assert(texts.take(i as int) == texts);
        proof {
            lemma_first_invalid(texts);
            assert forall|k: int| 0 <= k < sources@.len() implies regex_compiles(
                #[trigger] sources@[k]@,
            ) by {
                assert(texts[k] == sources@[k]@);
            }
        }
        Ok(IgnoreSet { patterns })
    }

    /// Reads a pattern list with one expression per line; empty lines are
    /// skipped, every other line is a pattern.
    pub fn from_lines(lines: &Vec<String>) -> (r: Result<IgnoreSet, InvalidPattern>)
        ensures
            match r {
                Ok(set) => first_invalid(pattern_lines(lines@.map_values(|s: String| s@)))
                    is None && set@ == pattern_lines(lines@.map_values(|s: String| s@)),
                Err(e) => first_invalid(pattern_lines(lines@.map_values(|s: String| s@)))
                    == Some(e.index as int),
            },
    {
        let ghost texts = lines@.map_values(|s: String| s@);
        let mut kept: Vec<String> = Vec::new();
        let mut i: usize = 0;
        while i < lines.len()
            invariant
                i <= lines.len(),
                texts == lines@.map_values(|s: String| s@),
                kept@.map_values(|s: String| s@) == pattern_lines(texts.take(i as int)),
            decreases lines.len() - i,
        {
            assert(texts.take(i as int + 1).drop_last() == texts.take(i as int));
            if !lines[i].as_str().is_empty() {
                kept.push(lines[i].clone());
                assert(kept@.map_values(|s: String| s@) == pattern_lines(
                    texts.take(i as int + 1),
                ));
            }
            i = i + 1;
        }
        assert(texts.take(i as int) == texts);
        IgnoreSet::new(&kept)
    }

    /// Whether any pattern matches anywhere within the bare name `name`.
    pub fn is_ignored(&self, name: &str) -> (r: bool)
        ensures
            r == ignored_by(self@, name@),
    {
        let mut i: usize = 0;
        while i < self.patterns.len()
            invariant
                i <= self.patterns@.len(),
                forall|k: int| 0 <= k < i ==> !regex_finds(#[trigger] self@[k], name@),
            decreases self.patterns@.len() - i,
        {
            if self.patterns[i].is_match(name) {
                assert(self@[i as int] == self.patterns@[i as int]@);
                return true;
            }
            i = i + 1;
        }
        false
    }

    /// The number of patterns.
    pub fn len(&self) -> (r: usize)
        ensures
            r == self@.len(),
    {
        self.patterns.len()
    }
}

} // verus!
