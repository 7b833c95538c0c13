//! Game versions and the patterns that select among them.

use vstd::prelude::*;
use crate::text::{str_chars, str_eq, string_from_chars};

verus! {

/// A version of the game.
#[derive(Debug, PartialEq, Eq)]
pub enum MinecraftVersion {
    /// A version that is known by its name only.
    Unknown(String),
}

impl MinecraftVersion {
    /// The name of the version.
    pub open spec fn name(self) -> Seq<char> {
        match self {
            MinecraftVersion::Unknown(name) => name@,
        }
    }

    /// The version of the given name.
    pub fn from(string: &str) -> (r: Self)
        ensures
            r.name() == string@,
    {
        Self::Unknown(string.to_owned())
    }

    /// The name of the version.
    pub fn as_string(&self) -> (r: &String)
        ensures
            r@ == self.name(),
    {
        match self {
            Self::Unknown(string) => string,
        }
    }
}

impl Clone for MinecraftVersion {
    fn clone(&self) -> (r: Self)
        ensures
            r == *self,
    {
        match self {
            Self::Unknown(string) => Self::Unknown(string.clone()),
        }
    }
}

/// The error for a version that is not among the known ones.
#[derive(Debug)]
pub struct VersionNotFoundError {
    pub version: MinecraftVersion,
}

impl VersionNotFoundError {
    /// The message of the error.
    pub open spec fn message(self) -> Seq<char> {
        "Version not found: "@ + self.version.name()
    }

    /// The error for a version that was not found.
    pub fn new(version: &MinecraftVersion) -> (r: VersionNotFoundError)
        ensures
            r.version == *version,
    {
        VersionNotFoundError { version: version.clone() }
    }

    /// The message of the error.
    pub fn to_string(&self) -> (r: String)
        ensures
            r@ == self.message(),
    {
        let mut out = "Version not found: ".to_owned();
        out.append(self.version.as_string().as_str());
        out
    }
}

/// The first index at which `list` holds `item`.
pub open spec fn first_index(list: Seq<Seq<char>>, item: Seq<char>) -> Option<int>
    decreases list.len(),
{
    if list.len() == 0 {
        None
    } else if list[0] == item {
        Some(0)
    } else {
        match first_index(list.drop_first(), item) {
            Some(i) => Some(i + 1),
            None => None,
        }
    }
}

/// The first index of an item is an index of the list that holds the item,
/// and no earlier index does; there is none exactly when the list lacks the
/// item.
pub proof fn lemma_first_index(list: Seq<Seq<char>>, item: Seq<char>)
    ensures
        match first_index(list, item) {
            Some(i) => 0 <= i < list.len() && list[i] == item && forall|j: int|
                0 <= j < i ==> list[j] != item,
            None => !list.contains(item),
        },
    decreases list.len(),
{
    if list.len() > 0 && list[0] != item {
        let rest = list.drop_first();
        lemma_first_index(rest, item);
        match first_index(rest, item) {
            Some(i) => {
                assert(list[i + 1] == rest[i]);
                assert forall|j: int| 0 <= j < i + 1 implies list[j] != item by {
                    if j > 0 {
                        assert(list[j] == rest[j - 1]);
                    }
                }
            },
            None => {
                if list.contains(item) {
                    let j = choose|j: int| 0 <= j < list.len() && list[j] == item;
                    assert(rest[j - 1] == item);
                    assert(rest.contains(item));
                }
            },
        }
    }
}

/// Finds the first index at which `list` holds `item`.
pub fn index_of(list: &Vec<String>, item: &str) -> (r: Option<usize>)
    ensures
        match r {
            Some(i) => first_index(list.deep_view(), item@) == Some(i as int),
            None => first_index(list.deep_view(), item@) is None,
        },
{
    let ghost all = list.deep_view();
    let mut i: usize = 0;
    assert(all.skip(0) =~= all);
    while i < list.len()
        invariant
            i <= list.len(),
            all == list.deep_view(),
            first_index(all, item@) == match first_index(all.skip(i as int), item@) {
                Some(k) => Some(k + i),
                None => None,
            },
        decreases list.len() - i,
    {
        proof {
            assert(all.skip(i as int).drop_first() =~= all.skip(i + 1));
            assert(all.skip(i as int)[0] == list[i as int]@);
        }
        if str_eq(list[i].as_str(), item) {
            return Some(i);
        }
        i += 1;
    }
    None
}

/// Whether `list` holds `item`.
pub fn contains(list: &Vec<String>, item: &str) -> (r: bool)
    ensures
        r == list.deep_view().contains(item@),
{
    proof {
        lemma_first_index(list.deep_view(), item@);
    }
    index_of(list, item).is_some()
}

/// A pattern that selects versions from the ordered list of all versions.
#[derive(Debug, PartialEq, Eq)]
pub enum VersionPattern {
    /// Exactly this version.
    Single(String),
    /// The last version of the list.
    Latest,
    /// This version and all that come before it in the list.
    Before(String),
    /// This version and all that come after it in the list.
    After(String),
    /// Every version of the list.
    Any,
}

/// The mathematical value of a [`VersionPattern`].
pub enum VersionPatternView {
    Single(Seq<char>),
    Latest,
    Before(Seq<char>),
    After(Seq<char>),
    Any,
}

impl View for VersionPattern {
    type V = VersionPatternView;

    open spec fn view(&self) -> VersionPatternView {
        match *self {
            VersionPattern::Single(version) => VersionPatternView::Single(version@),
            VersionPattern::Latest => VersionPatternView::Latest,
            VersionPattern::Before(version) => VersionPatternView::Before(version@),
            VersionPattern::After(version) => VersionPatternView::After(version@),
            VersionPattern::Any => VersionPatternView::Any,
        }
    }
}

impl DeepView for VersionPattern {
    type V = VersionPatternView;

    open spec fn deep_view(&self) -> VersionPatternView {
        self@
    }
}

impl VersionPatternView {
    /// The pattern that a text writes: `latest`, `*`, a version followed by
    /// `-` or `+` for all versions up to or from it, or a single version.
    pub open spec fn from_text(text: Seq<char>) -> VersionPatternView {
        if text == "latest"@ {
            VersionPatternView::Latest
        } else if text == "*"@ {
            VersionPatternView::Any
        } else if text.len() > 0 && text.last() == '-' {
            VersionPatternView::Before(text.drop_last())
        } else if text.len() > 0 && text.last() == '+' {
            VersionPatternView::After(text.drop_last())
        } else {
            VersionPatternView::Single(text)
        }
    }

    /// Whether the pattern selects `version`, given the ordered list of all
    /// versions.
    pub open spec fn admits(self, version: Seq<char>, versions: Seq<Seq<char>>) -> bool {
        match self {
            VersionPatternView::Single(single) => version == single,
            VersionPatternView::Latest => versions.len() > 0 && version == versions.last(),
            VersionPatternView::Before(bound) => match (
                first_index(versions, bound),
                first_index(versions, version),
            ) {
                (Some(bound_pos), Some(pos)) => pos <= bound_pos,
                _ => false,
            },
            VersionPatternView::After(bound) => match (
                first_index(versions, bound),
                first_index(versions, version),
            ) {
                (Some(bound_pos), Some(pos)) => pos >= bound_pos,
                _ => false,
            },
            VersionPatternView::Any => versions.contains(version),
        }
    }

    /// Whether `i` is the index of the last version of the list that the
    /// pattern selects.
    pub open spec fn last_match(self, versions: Seq<Seq<char>>, i: int) -> bool {
        &&& 0 <= i < versions.len()
        &&& self.admits(versions[i], versions)
        &&& forall|j: int| i < j < versions.len() ==> !self.admits(#[trigger] versions[j], versions)
    }
}

impl VersionPattern {
    /// Reads a pattern from the text that writes it.
    pub fn from(text: &str) -> (r: Self)
        ensures
            r@ == VersionPatternView::from_text(text@),
    {
        if str_eq(text, "latest") {
            return Self::Latest;
        }
        if str_eq(text, "*") {
            return Self::Any;
        }
        let chars = str_chars(text);
        let n = chars.len();
        if n > 0 && chars[n - 1] == '-' {
            let bound = string_from_chars(&chars, 0, n - 1);
            assert(bound@ =~= text@.drop_last());
            Self::Before(bound)
        } else if n > 0 && chars[n - 1] == '+' {
            let bound = string_from_chars(&chars, 0, n - 1);
            assert(bound@ =~= text@.drop_last());
            Self::After(bound)
        } else {
            Self::Single(text.to_owned())
        }
    }

    /// Checks whether the pattern selects a single version.
    pub fn matches_single(&self, version: &str, versions: &Vec<String>) -> (r: bool)
        ensures
            r == self@.admits(version@, versions.deep_view()),
    {
        match self {
            Self::Single(single) => str_eq(version, single.as_str()),
            Self::Latest => {
                let n = versions.len();
                n > 0 && str_eq(version, versions[n - 1].as_str())
            },
            Self::Before(bound) => match index_of(versions, bound.as_str()) {
                Some(bound_pos) => match index_of(versions, version) {
                    Some(pos) => pos <= bound_pos,
                    None => false,
                },
                None => false,
            },
            Self::After(bound) => match index_of(versions, bound.as_str()) {
                Some(bound_pos) => match index_of(versions, version) {
                    Some(pos) => pos >= bound_pos,
                    None => false,
                },
                None => false,
            },
            Self::Any => contains(versions, version),
        }
    }

    /// The last version of the list that the pattern selects.
    pub fn matches(&self, versions: &Vec<String>) -> (r: Option<String>)
        ensures
            match r {
                Some(version) => exists|i: int|
                    self@.last_match(versions.deep_view(), i) && version@
                        == #[trigger] versions.deep_view()[i],
                None => forall|i: int|
                    0 <= i < versions.len() ==> !self@.admits(
                        #[trigger] versions.deep_view()[i],
                        versions.deep_view(),
                    ),
            },
    {
        let ghost all = versions.deep_view();
        let mut i = versions.len();
        while i > 0
            invariant
                i <= versions.len(),
                all == versions.deep_view(),
                forall|j: int| i <= j < versions.len() ==> !self@.admits(#[trigger] all[j], all),
            decreases i,
        {
            i -= 1;
            assert(all[i as int] == versions[i as int]@);
            if self.matches_single(versions[i].as_str(), versions) {
                assert(self@.last_match(all, i as int));
                return Some(versions[i].clone());
            }
        }
        None
    }
}

} // verus!
