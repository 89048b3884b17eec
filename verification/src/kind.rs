//! The vocabulary of target kinds.

use vstd::prelude::*;

verus! {

/// The mathematical value of a target kind.
pub enum KindModel {
    Library,
    Binary,
    Example,
    Test,
    Benchmark,
    Other(Seq<char>),
}

/// What a target compiles to. A word that the toolchain reports and that is
/// none of the five known ones is kept as it came.
#[derive(Debug, Clone, PartialEq, Eq)]
pub enum TargetKind {
    Library,
    Binary,
    Example,
    Test,
    Benchmark,
    Other(String),
}

impl View for TargetKind {
    type V = KindModel;

    open spec fn view(&self) -> KindModel {
        match self {
            TargetKind::Library => KindModel::Library,
            TargetKind::Binary => KindModel::Binary,
            TargetKind::Example => KindModel::Example,
            TargetKind::Test => KindModel::Test,
            TargetKind::Benchmark => KindModel::Benchmark,
            TargetKind::Other(word) => KindModel::Other(word@),
        }
    }
}

/// The kind that a word of the toolchain stands for.
pub open spec fn kind_of(word: Seq<char>) -> KindModel {
    if word == "lib"@ {
        KindModel::Library
    } else if word == "bin"@ {
        KindModel::Binary
    } else if word == "example"@ {
        KindModel::Example
    } else if word == "test"@ {
        KindModel::Test
    } else if word == "bench"@ {
        KindModel::Benchmark
    } else {
        KindModel::Other(word)
    }
}

/// The word by which the toolchain names a kind.
pub open spec fn kind_word(kind: KindModel) -> Seq<char> {
    match kind {
        KindModel::Library => "lib"@,
        KindModel::Binary => "bin"@,
        KindModel::Example => "example"@,
        KindModel::Test => "test"@,
        KindModel::Benchmark => "bench"@,
        KindModel::Other(word) => word,
    }
}

/// Whether a kind is the one that `kind_of` gives for its own word: every
/// kind but an `Other` that holds one of the five known words.
pub open spec fn is_canonical(kind: KindModel) -> bool {
    kind matches KindModel::Other(word) ==> kind_of(word) == kind
}

/// Whether a word is the given literal.
fn is_word(word: &str, literal: &str) -> (same: bool)
    ensures
        same == (word@ == literal@),
{
    let left: String = word.to_owned();
    let right: String = literal.to_owned();
    left == right
}

impl TargetKind {
    /// Maps a word of the toolchain into the vocabulary.
    pub fn classify(word: &str) -> (kind: TargetKind)
        ensures
            kind@ == kind_of(word@),
    {
        if is_word(word, "lib") {
            TargetKind::Library
        } else if is_word(word, "bin") {
            TargetKind::Binary
        } else if is_word(word, "example") {
            TargetKind::Example
        } else if is_word(word, "test") {
            TargetKind::Test
        } else if is_word(word, "bench") {
            TargetKind::Benchmark
        } else {
            TargetKind::Other(word.to_owned())
        }
    }

    /// The word of the toolchain for this kind.
    pub fn description(&self) -> (word: String)
        ensures
            word@ == kind_word(self@),
    {
        match self {
            TargetKind::Library => "lib".to_owned(),
            TargetKind::Binary => "bin".to_owned(),
            TargetKind::Example => "example".to_owned(),
            TargetKind::Test => "test".to_owned(),
            TargetKind::Benchmark => "bench".to_owned(),
            TargetKind::Other(word) => word.clone(),
        }
    }

    /// Whether this is the kind of a sample program.
    pub fn is_example(&self) -> (yes: bool)
        ensures
            yes == (self@ == KindModel::Example),
    {
        match self {
            TargetKind::Example => true,
            _ => false,
        }
    }

    /// A copy with the same value.
    pub fn duplicate(&self) -> (copy: TargetKind)
        ensures
            copy@ == self@,
    {
        match self {
            TargetKind::Library => TargetKind::Library,
            TargetKind::Binary => TargetKind::Binary,
            TargetKind::Example => TargetKind::Example,
            TargetKind::Test => TargetKind::Test,
            TargetKind::Benchmark => TargetKind::Benchmark,
            TargetKind::Other(word) => TargetKind::Other(word.clone()),
        }
    }
}

/// The five known words differ from one another.
pub proof fn lemma_known_words_differ()
    ensures
        kind_of("lib"@) == KindModel::Library,
        kind_of("bin"@) == KindModel::Binary,
        kind_of("example"@) == KindModel::Example,
        kind_of("test"@) == KindModel::Test,
        kind_of("bench"@) == KindModel::Benchmark,
{
    reveal_strlit("lib");
    reveal_strlit("bin");
    reveal_strlit("example");
    reveal_strlit("test");
    reveal_strlit("bench");
    assert("lib"@.len() == 3 && "bin"@.len() == 3 && "example"@.len() == 7);
    assert("test"@.len() == 4 && "bench"@.len() == 5);
    assert("bin"@[0] != "lib"@[0]);
}

/// Every word is the word of the kind it stands for: classifying loses
/// nothing.
pub proof fn lemma_word_survives(word: Seq<char>)
    ensures
        kind_word(kind_of(word)) == word,
{
}

/// A canonical kind is the kind that its word stands for.
pub proof fn lemma_kind_survives(kind: KindModel)
    requires
        is_canonical(kind),
    ensures
        kind_of(kind_word(kind)) == kind,
{
    lemma_known_words_differ();
}

/// Whatever `kind_of` gives is canonical.
pub proof fn lemma_kind_of_is_canonical(word: Seq<char>)
    ensures
        is_canonical(kind_of(word)),
{
}

} // verus!
