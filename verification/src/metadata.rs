//! Inline tags: how a phrase is split into a bundle of fields and a name.
//!
//! A word that starts with `!` sets the priority (`!low`, `!medium`, `!high`,
//! `!critical`), one that starts with `+` names the project, one that starts
//! with `^` declares a dependency on the task with that identifier. Every
//! other word belongs to the task's name.

use crate::uid::UID;
use vstd::prelude::*;
use vstd::string::*;

verus! {

/// How urgent a task is, from the least to the most urgent.
#[derive(Clone, Copy, Debug, PartialEq, Eq, Structural, PartialOrd, Ord, Hash)]
pub enum Priority {
    Low,
    Medium,
    High,
    Critical,
}

impl Priority {
    /// The place of the level in the order `Low < Medium < High < Critical`.
    pub open spec fn rank(self) -> nat {
        match self {
            Priority::Low => 0,
            Priority::Medium => 1,
            Priority::High => 2,
            Priority::Critical => 3,
        }
    }

    /// The place of the level in the order, from 0 for `Low` to 3 for `Critical`.
    pub fn level(self) -> (r: u8)
        ensures
            r == self.rank(),
    {
        match self {
            Priority::Low => 0,
            Priority::Medium => 1,
            Priority::High => 2,
            Priority::Critical => 3,
        }
    }

    /// Whether this level is strictly less urgent than the other.
    pub fn is_below(self, other: Priority) -> (r: bool)
        ensures
            r == (self.rank() < other.rank()),
    {
        self.level() < other.level()
    }
}

/// What a word of the phrase is.
#[derive(Clone, Copy, Debug, PartialEq, Eq, Structural)]
pub enum TokenKind {
    /// Part of the name.
    Word,
    /// A priority tag with a known level.
    Priority(Priority),
    /// A project tag; the label is the word without its marker.
    Project,
    /// A dependency tag on the given task.
    Dependency(UID),
    /// A tag whose value is not acceptable.
    Invalid,
}

/// Why a bundle is refused.
#[derive(Debug)]
pub enum ValidationError {
    /// A tag carries a value that its kind does not admit; the word is given.
    InvalidValue(String),
    /// The bundle makes the task depend on itself.
    SelfDependency(UID),
    /// The phrase leaves no name for a new task.
    EmptyName,
}

/// What an error says.
pub enum ValidationErrorView {
    InvalidValue(Seq<char>),
    SelfDependency(UID),
    EmptyName,
}

impl View for ValidationError {
    type V = ValidationErrorView;

    open spec fn view(&self) -> ValidationErrorView {
        match self {
            ValidationError::InvalidValue(word) => ValidationErrorView::InvalidValue(word@),
            ValidationError::SelfDependency(uid) => ValidationErrorView::SelfDependency(*uid),
            ValidationError::EmptyName => ValidationErrorView::EmptyName,
        }
    }
}

/// The level that a priority tag's value names.
pub open spec fn priority_named(value: Seq<char>) -> Option<Priority> {
    if value == "low"@ {
        Some(Priority::Low)
    } else if value == "medium"@ {
        Some(Priority::Medium)
    } else if value == "high"@ {
        Some(Priority::High)
    } else if value == "critical"@ {
        Some(Priority::Critical)
    } else {
        None
    }
}

/// Whether the character is a decimal digit.
pub open spec fn is_digit(c: char) -> bool {
    '0' as u32 <= c as u32 <= '9' as u32
}

/// The number that a digit stands for.
pub open spec fn digit_value(c: char) -> nat {
    (c as u32 - '0' as u32) as nat
}

/// Whether the text holds decimal digits only.
pub open spec fn all_digits(s: Seq<char>) -> bool {
    forall|i: int| 0 <= i < s.len() ==> is_digit(#[trigger] s[i])
}

/// The number that a text of digits writes in decimal.
pub open spec fn number_of(s: Seq<char>) -> nat
    decreases s.len(),
{
    if s.len() == 0 {
        0
    } else {
        number_of(s.drop_last()) * 10 + digit_value(s.last())
    }
}

/// The identifier that a dependency tag's value names: a positive decimal
/// number that fits the identifier's range.
pub open spec fn uid_named(value: Seq<char>) -> Option<UID> {
    if value.len() > 0 && all_digits(value) && 1 <= number_of(value) <= u64::MAX {
        Some(UID(number_of(value) as u64))
    } else {
        None
    }
}

/// What a word is, decided by the word alone.
pub open spec fn classify(word: Seq<char>) -> TokenKind {
    if word.len() == 0 {
        TokenKind::Word
    } else if word[0] == '!' {
        match priority_named(word.skip(1)) {
            Some(p) => TokenKind::Priority(p),
            None => TokenKind::Invalid,
        }
    } else if word[0] == '+' {
        if word.len() > 1 {
            TokenKind::Project
        } else {
            TokenKind::Invalid
        }
    } else if word[0] == '^' {
        match uid_named(word.skip(1)) {
            Some(uid) => TokenKind::Dependency(uid),
            None => TokenKind::Invalid,
        }
    } else {
        TokenKind::Word
    }
}

/// The priority that the phrase sets: that of its last priority tag.
pub open spec fn parsed_priority(words: Seq<Seq<char>>) -> Option<Priority>
    decreases words.len(),
{
    if words.len() == 0 {
        None
    } else {
        match classify(words.last()) {
            TokenKind::Priority(p) => Some(p),
            _ => parsed_priority(words.drop_last()),
        }
    }
}

/// The project that the phrase names: that of its last project tag.
pub open spec fn parsed_project(words: Seq<Seq<char>>) -> Option<Seq<char>>
    decreases words.len(),
{
    if words.len() == 0 {
        None
    } else {
        match classify(words.last()) {
            TokenKind::Project => Some(words.last().skip(1)),
            _ => parsed_project(words.drop_last()),
        }
    }
}

/// The dependencies that the phrase declares, each once, in the order in
/// which they first occur.
pub open spec fn parsed_dependencies(words: Seq<Seq<char>>) -> Seq<UID>
    decreases words.len(),
{
    if words.len() == 0 {
        Seq::empty()
    } else {
        let before = parsed_dependencies(words.drop_last());
        match classify(words.last()) {
            TokenKind::Dependency(uid) => if before.contains(uid) {
                before
            } else {
                before.push(uid)
            },
            _ => before,
        }
    }
}

/// The first word of the phrase that is a tag with an unacceptable value.
pub open spec fn parsed_rejected(words: Seq<Seq<char>>) -> Option<Seq<char>>
    decreases words.len(),
{
    if words.len() == 0 {
        None
    } else {
        match parsed_rejected(words.drop_last()) {
            Some(word) => Some(word),
            None => if classify(words.last()) == TokenKind::Invalid {
                Some(words.last())
            } else {
                None
            },
        }
    }
}

/// The words of the phrase that are no tags, in their order.
pub open spec fn plain_words(words: Seq<Seq<char>>) -> Seq<Seq<char>>
    decreases words.len(),
{
    if words.len() == 0 {
        Seq::empty()
    } else {
        let before = plain_words(words.drop_last());
        if classify(words.last()) == TokenKind::Word {
            before.push(words.last())
        } else {
            before
        }
    }
}

/// The words, with one space between each two.
pub open spec fn joined(words: Seq<Seq<char>>) -> Seq<char>
    decreases words.len(),
{
    if words.len() == 0 {
        Seq::empty()
    } else if words.len() == 1 {
        words[0]
    } else {
        joined(words.drop_last()) + seq![' '] + words.last()
    }
}

/// The name that the phrase leaves once its tags are taken out.
pub open spec fn parsed_name(words: Seq<Seq<char>>) -> Seq<char> {
    joined(plain_words(words))
}

/// The texts of a list of strings.
pub open spec fn texts(words: Seq<String>) -> Seq<Seq<char>> {
    Seq::new(words.len(), |i: int| words[i]@)
}

/// A bundle of fields, each set or not, as a phrase gives them.
pub struct Metadata {
    priority: Option<Priority>,
    project: Option<String>,
    dependencies: Vec<UID>,
    rejected: Option<String>,
}

/// What a bundle holds.
pub struct MetadataView {
    pub priority: Option<Priority>,
    pub project: Option<Seq<char>>,
    pub dependencies: Seq<UID>,
    pub rejected: Option<Seq<char>>,
}

/// The text of an optional string.
pub open spec fn text_of(s: Option<String>) -> Option<Seq<char>> {
    match s {
        Some(s) => Some(s@),
        None => None,
    }
}

/// The bundle that sets nothing.
pub open spec fn empty_bundle() -> MetadataView {
    MetadataView { priority: None, project: None, dependencies: Seq::empty(), rejected: None }
}

/// The bundle that a phrase gives.
pub open spec fn parsed_bundle(words: Seq<Seq<char>>) -> MetadataView {
    MetadataView {
        priority: parsed_priority(words),
        project: parsed_project(words),
        dependencies: parsed_dependencies(words),
        rejected: parsed_rejected(words),
    }
}

impl MetadataView {
    /// Whether the bundle may be applied at all: no tag of it was refused.
    pub open spec fn valid(self) -> bool {
        self.rejected is None
    }

    /// Whether the bundle may be applied to the task with this identifier.
    pub open spec fn valid_for(self, target: UID) -> bool {
        self.valid() && !self.dependencies.contains(target)
    }

    /// What is wrong with the bundle by itself, if anything: the first word
    /// that was refused.
    pub open spec fn fault(self) -> Option<ValidationErrorView> {
        match self.rejected {
            Some(word) => Some(ValidationErrorView::InvalidValue(word)),
            None => None,
        }
    }

    /// What is wrong with the bundle for the task with this identifier, if
    /// anything: a refused word first, then a dependency of the task on itself.
    pub open spec fn fault_for(self, target: UID) -> Option<ValidationErrorView> {
        match self.rejected {
            Some(word) => Some(ValidationErrorView::InvalidValue(word)),
            None => if self.dependencies.contains(target) {
                Some(ValidationErrorView::SelfDependency(target))
            } else {
                None
            },
        }
    }
}

impl View for Metadata {
    type V = MetadataView;

    closed spec fn view(&self) -> MetadataView {
        MetadataView {
            priority: self.priority,
            project: text_of(self.project),
            dependencies: self.dependencies@,
            rejected: text_of(self.rejected),
        }
    }
}

/// Whether two texts are the same.
pub fn same_text(a: &str, b: &str) -> (r: bool)
    ensures
        r == (a@ == b@),
{
    let left = String::from_str(a);
    let right = String::from_str(b);
    left.eq(&right)
}

/// Whether the identifier occurs in the list.
pub fn contains_uid(list: &Vec<UID>, uid: UID) -> (r: bool)
    ensures
        r == list@.contains(uid),
{
    let mut i: usize = 0;
    while i < list.len()
        invariant
            i <= list.len(),
            forall|j: int| 0 <= j < i ==> list@[j] != uid,
        decreases list.len() - i,
    {
        if list[i] == uid {
            return true;
        }
        i = i + 1;
    }
    false
}

/// The number of a prefix of digits never exceeds that of the whole text.
pub proof fn lemma_number_of_prefix(s: Seq<char>, k: int)
    requires
        0 <= k <= s.len(),
    ensures
        number_of(s.take(k)) <= number_of(s),
    decreases s.len(),
{
    if k == s.len() {
        assert(s.take(k) =~= s);
    } else {
        assert(s.drop_last().take(k) =~= s.take(k));
        lemma_number_of_prefix(s.drop_last(), k);
    }
}

/// Reads the value of a priority tag.
pub fn parse_priority(value: &str) -> (r: Option<Priority>)
    ensures
        r == priority_named(value@),
{
    if same_text(value, "low") {
        Some(Priority::Low)
    } else if same_text(value, "medium") {
        Some(Priority::Medium)
    } else if same_text(value, "high") {
        Some(Priority::High)
    } else if same_text(value, "critical") {
        Some(Priority::Critical)
    } else {
        None
    }
}

/// Reads the value of a dependency tag.
pub fn parse_uid(value: &str) -> (r: Option<UID>)
    ensures
        r == uid_named(value@),
{
    let len: usize = value.unicode_len();
    if len == 0 {
        return None;
    }
    let mut acc: u64 = 0;
    let mut i: usize = 0;
    while i < len
        invariant
            i <= len,
            len == value@.len(),
            all_digits(value@.take(i as int)),
            acc == number_of(value@.take(i as int)),
        decreases len - i,
    {
        let c = value.get_char(i);
        let code: u32 = c as u32;
        proof {
            assert(value@.take(i + 1).drop_last() =~= value@.take(i as int));
            assert(value@.take(i + 1).last() == c);
        }
        if code < '0' as u32 || code > '9' as u32 {
            assert(!is_digit(value@[i as int]));
            return None;
        }
        let d: u64 = (code - '0' as u32) as u64;
        if acc > (u64::MAX - d) / 10 {
            proof {
                lemma_number_of_prefix(value@, i + 1);
            }
            return None;
        }
        acc = acc * 10 + d;
        proof {
            assert forall|j: int| 0 <= j < i + 1 implies is_digit(
                #[trigger] value@.take(i + 1)[j],
            ) by {
                if j < i {
                    assert(value@.take(i + 1)[j] == value@.take(i as int)[j]);
                }
            }
        }
        i = i + 1;
    }
    assert(value@.take(len as int) =~= value@);
    if acc == 0 {
        None
    } else {
        Some(UID(acc))
    }
}

/// Decides what a word is.
pub fn classify_token(word: &str) -> (kind: TokenKind)
    ensures
        kind == classify(word@),
{
    let len: usize = word.unicode_len();
    if len == 0 {
        return TokenKind::Word;
    }
    let marker = word.get_char(0);
    if marker == '!' {
        let value = word.substring_char(1, len);
        assert(value@ =~= word@.skip(1));
        match parse_priority(value) {
            Some(p) => TokenKind::Priority(p),
            None => TokenKind::Invalid,
        }
    } else if marker == '+' {
        if len > 1 {
            TokenKind::Project
        } else {
            TokenKind::Invalid
        }
    } else if marker == '^' {
        let value = word.substring_char(1, len);
        assert(value@ =~= word@.skip(1));
        match parse_uid(value) {
            Some(uid) => TokenKind::Dependency(uid),
            None => TokenKind::Invalid,
        }
    } else {
        TokenKind::Word
    }
}

impl Metadata {
    /// The bundle that sets nothing.
    pub fn empty() -> (m: Metadata)
        ensures
            m@ == empty_bundle(),
    {
        Metadata { priority: None, project: None, dependencies: Vec::new(), rejected: None }
    }

    /// Splits a phrase into the bundle of its tags and the name that its
    /// other words spell.
    pub fn from_words(words: &Vec<String>) -> (r: (Metadata, String))
        ensures
            r.0@ == parsed_bundle(texts(words@)),
            r.1@ == parsed_name(texts(words@)),
    {
        let ghost all = texts(words@);
        let mut bundle = Metadata::empty();
        let mut name = String::new();
        let mut any_word = false;
        let mut i: usize = 0;
        proof {
            reveal_strlit(" ");
            assert(" "@ =~= seq![' ']);
        }
        while i < words.len()
            invariant
                i <= words.len(),
                all == texts(words@),
                " "@ == seq![' '],
                bundle@ == parsed_bundle(all.take(i as int)),
                name@ == parsed_name(all.take(i as int)),
                any_word == (plain_words(all.take(i as int)).len() > 0),
            decreases words.len() - i,
        {
            let word = words[i].as_str();
            let ghost before = all.take(i as int);
            let ghost now = all.take(i + 1);
            proof {
                assert(now.drop_last() =~= before);
                assert(now.last() == word@);
            }
            match classify_token(word) {
                TokenKind::Word => {
                    proof {
                        assert(plain_words(now) == plain_words(before).push(word@));
                        assert(plain_words(now).drop_last() =~= plain_words(before));
                    }
                    if any_word {
                        name.append(" ");
                    }
                    name.append(word);
                    assert(name@ =~= parsed_name(now));
                    any_word = true;
                },
                TokenKind::Priority(p) => {
                    bundle.priority = Some(p);
                },
                TokenKind::Project => {
                    let label = word.substring_char(1, word.unicode_len());
                    assert(label@ =~= word@.skip(1));
                    bundle.project = Some(String::from_str(label));
                },
                TokenKind::Dependency(uid) => {
                    if !contains_uid(&bundle.dependencies, uid) {
                        bundle.dependencies.push(uid);
                    }
                },
                TokenKind::Invalid => {
                    if bundle.rejected.is_none() {
                        bundle.rejected = Some(String::from_str(word));
                    }
                },
            }
            i = i + 1;
        }
        assert(all.take(words.len() as int) =~= all);
        (bundle, name)
    }

    /// Checks that no tag of the bundle carries an unacceptable value. The
    /// error names the first word that does.
    pub fn validate(&self) -> (r: Result<(), ValidationError>)
        ensures
            r is Ok <==> self@.valid(),
            r is Err ==> Some(r->Err_0@) == self@.fault(),
    {
        match &self.rejected {
            Some(word) => Err(ValidationError::InvalidValue(word.clone())),
            None => Ok(()),
        }
    }

    /// Checks the bundle for the task with identifier `target`: no tag carries
    /// an unacceptable value, and the task is not among its own dependencies.
    pub fn validate_for(&self, target: UID) -> (r: Result<(), ValidationError>)
        ensures
            r is Ok <==> self@.valid_for(target),
            r is Err ==> Some(r->Err_0@) == self@.fault_for(target),
    {
        match &self.rejected {
            Some(word) => Err(ValidationError::InvalidValue(word.clone())),
            None => {
                if contains_uid(&self.dependencies, target) {
                    Err(ValidationError::SelfDependency(target))
                } else {
                    Ok(())
                }
            },
        }
    }

    /// The priority that the bundle sets, if any.
    pub fn priority(&self) -> (r: Option<Priority>)
        ensures
            r == self@.priority,
    {
        self.priority
    }

    /// The project that the bundle sets, if any.
    pub fn project(&self) -> (r: Option<&str>)
        ensures
            r is Some == self@.project is Some,
            r is Some ==> r->Some_0@ == self@.project->Some_0,
    {
        match &self.project {
            Some(s) => Some(s.as_str()),
            None => None,
        }
    }

    /// The dependencies that the bundle adds.
    pub fn dependencies(&self) -> (r: &Vec<UID>)
        ensures
            r@ == self@.dependencies,
    {
        &self.dependencies
    }
}

/// Whether some word of the phrase is a dependency tag on the task.
pub open spec fn declares(words: Seq<Seq<char>>, uid: UID) -> bool {
    exists|i: int|
        0 <= i < words.len() && classify(#[trigger] words[i]) == TokenKind::Dependency(uid)
}

/// A phrase without tags gives the empty bundle, and its name is the phrase
/// itself, the words joined by single spaces.
pub proof fn lemma_plain_phrase(words: Seq<Seq<char>>)
    requires
        forall|i: int| 0 <= i < words.len() ==> classify(#[trigger] words[i]) == TokenKind::Word,
    ensures
        parsed_bundle(words) == empty_bundle(),
        plain_words(words) == words,
        parsed_name(words) == joined(words),
    decreases words.len(),
{
    if words.len() > 0 {
        let init = words.drop_last();
        assert forall|i: int| 0 <= i < init.len() implies classify(#[trigger] init[i])
            == TokenKind::Word by {
            assert(init[i] == words[i]);
        }
        lemma_plain_phrase(init);
        assert(classify(words.last()) == TokenKind::Word);
        assert(init.push(words.last()) =~= words);
    } else {
        assert(plain_words(words) =~= words);
    }
}

/// The dependencies of a phrase are a set: no task occurs twice among them,
/// and a task is among them if and only if some word of the phrase is a
/// dependency tag on it.
pub proof fn lemma_dependencies_accumulate(words: Seq<Seq<char>>)
    ensures
        parsed_dependencies(words).no_duplicates(),
        forall|uid: UID| parsed_dependencies(words).contains(uid) <==> declares(words, uid),
    decreases words.len(),
{
    if words.len() > 0 {
        let init = words.drop_last();
        let before = parsed_dependencies(init);
        let after = parsed_dependencies(words);
        lemma_dependencies_accumulate(init);
        assert forall|uid: UID| after.contains(uid) <==> declares(words, uid) by {
            let added = classify(words.last()) == TokenKind::Dependency(uid);
            if declares(init, uid) {
                let i = choose|i: int|
                    0 <= i < init.len() && classify(#[trigger] init[i]) == TokenKind::Dependency(
                        uid,
                    );
                assert(words[i] == init[i]);
                assert(declares(words, uid));
            }
            if added {
                assert(words[words.len() - 1] == words.last());
                assert(declares(words, uid));
            }
            if declares(words, uid) {
                let i = choose|i: int|
                    0 <= i < words.len() && classify(#[trigger] words[i])
                        == TokenKind::Dependency(uid);
                if i < init.len() {
                    assert(init[i] == words[i]);
                    assert(declares(init, uid));
                } else {
                    assert(added);
                }
            }
            assert(declares(words, uid) <==> declares(init, uid) || added);
            if before.contains(uid) {
                let k = choose|k: int| 0 <= k < before.len() && before[k] == uid;
                if after.len() > before.len() {
                    assert(after[k] == uid);
                }
                assert(after.contains(uid));
            }
            if added {
                if !before.contains(uid) {
                    assert(after[after.len() - 1] == uid);
                }
                assert(after.contains(uid));
            }
            if after.contains(uid) {
                let k = choose|k: int| 0 <= k < after.len() && after[k] == uid;
                if k < before.len() {
                    assert(before[k] == uid);
                    assert(before.contains(uid));
                } else {
                    assert(added);
                }
            }
        }
    }
}

} // verus!
