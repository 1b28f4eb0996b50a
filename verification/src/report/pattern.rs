//! Searching text with a regular expression.
//!
//! The search itself is the `regex` crate's. What it finds is named here
//! and taken as given; what the report makes of it is decided in verified
//! code.

use vstd::prelude::*;
use vstd::string::*;

verus! {

/// The error with which the `regex` crate refuses a pattern; carried,
/// never inspected.
#[verifier::external_type_specification]
#[verifier::external_body]
pub struct ExRegexError(regex::Error);

/// Whether `regex::Regex::new` accepts `pattern`.
pub uninterp spec fn pattern_compiles(pattern: Seq<char>) -> bool;

/// What `regex::Regex::captures` finds for `pattern` in `text`: nothing
/// where the pattern matches nowhere, else the groups of the leftmost
/// match, the whole match being group 0. A group that took no part in
/// the match is absent.
pub uninterp spec fn captures_of(pattern: Seq<char>, text: Seq<char>) -> Option<
    Seq<Option<Seq<char>>>,
>;

/// Compiles `pattern` with `regex::Regex::new` and searches each of
/// `texts` with `Regex::captures`. A pattern that the crate refuses gives
/// its error; otherwise the result holds, for each text in order, the
/// text of every group of the leftmost match, if there is a match.
#[verifier::external_body]
fn search_each(pattern: &str, texts: &Vec<&str>) -> (found: Result<Vec<Found>, regex::Error>)
    ensures
        found is Ok <==> pattern_compiles(pattern@),
        found matches Ok(all) ==> all@.len() == texts@.len() && forall|i: int|
            0 <= i < all@.len() ==> (#[trigger] all@[i]).deep_view() == captures_of(
                pattern@,
                texts@[i]@,
            ),
{
    match regex::Regex::new(pattern) {
        Ok(compiled) => Ok(
            texts.iter().map(
                |text|
                    compiled.captures(text).map(
                        |groups|
                            groups.iter().map(
                                |group| group.map(|part| part.as_str().to_string()),
                            ).collect(),
                    ),
            ).collect(),
        ),
        Err(refusal) => Err(refusal),
    }
}

/// A pattern is not a regular expression, or one too large to compile.
#[derive(Clone, Copy, Debug, PartialEq, Eq, Structural)]
pub enum PatternError {
    /// The pattern was refused.
    Refused,
}

/// What a search found: the groups of the leftmost match, if any.
pub type Found = Option<Vec<Option<String>>>;

/// What `pattern` finds in each of `texts`.
pub open spec fn captures_in_each(pattern: Seq<char>, texts: Seq<Seq<char>>) -> Seq<
    Option<Seq<Option<Seq<char>>>>,
> {
    Seq::new(texts.len(), |i: int| captures_of(pattern, texts[i]))
}

/// What was found in each text, by its characters.
pub open spec fn found_views(all: Seq<Found>) -> Seq<Option<Seq<Option<Seq<char>>>>> {
    Seq::new(all.len(), |i: int| all[i].deep_view())
}

/// The texts by their characters.
pub open spec fn text_views(texts: Seq<&str>) -> Seq<Seq<char>> {
    Seq::new(texts.len(), |i: int| texts[i]@)
}

/// The groups of the leftmost match of `pattern` in each of `texts`.
pub fn find_groups_in_each(pattern: &str, texts: &Vec<&str>) -> (found: Result<
    Vec<Found>,
    PatternError,
>)
    ensures
        found is Ok <==> pattern_compiles(pattern@),
        found matches Ok(all) ==> found_views(all@) == captures_in_each(
            pattern@,
            text_views(texts@),
        ),
{
    match search_each(pattern, texts) {
        Ok(all) => {
            assert(found_views(all@) =~= captures_in_each(pattern@, text_views(texts@)));
            Ok(all)
        },
        Err(_) => Err(PatternError::Refused),
    }
}

/// The groups of the leftmost match of `pattern` in `text`.
pub fn find_groups(pattern: &str, text: &str) -> (found: Result<Found, PatternError>)
    ensures
        found is Ok <==> pattern_compiles(pattern@),
        found matches Ok(groups) ==> groups.deep_view() == captures_of(pattern@, text@),
{
    let mut texts: Vec<&str> = Vec::new();
    texts.push(text);
    match find_groups_in_each(pattern, &texts) {
        Ok(mut all) => {
            assert(found_views(all@).len() == all@.len());
            assert(text_views(texts@).len() == 1);
            assert(all@.len() == 1);
            assert(found_views(all@)[0] == all@[0].deep_view());
            assert(captures_in_each(pattern@, text_views(texts@))[0] == captures_of(
                pattern@,
                text@,
            ));
            match all.pop() {
                Some(groups) => Ok(groups),
                None => Ok(None),
            }
        },
        Err(refused) => Err(refused),
    }
}

/// The text of group `index` of what was found; none where nothing was
/// found, where there is no such group, or where the group took no part.
pub open spec fn group_text(found: Option<Seq<Option<Seq<char>>>>, index: int) -> Option<
    Seq<char>,
> {
    match found {
        Some(groups) => if 0 <= index < groups.len() {
            groups[index]
        } else {
            None
        },
        None => None,
    }
}

/// The text of group `index` of what was found, if that group took part.
pub fn group(found: &Found, index: usize) -> (text: Option<&String>)
    ensures
        text.deep_view() == group_text(found.deep_view(), index as int),
{
    match found {
        Some(groups) => if index < groups.len() {
            groups[index].as_ref()
        } else {
            None
        },
        None => None,
    }
}

/// What a report shows for a value looked up with a pattern: the text of
/// the first group, or `N/A` where there is none.
pub open spec fn info_text(found: Option<Seq<Option<Seq<char>>>>) -> Seq<char> {
    match group_text(found, 1) {
        Some(text) => text,
        None => "N/A"@,
    }
}

/// The text of the first group of what was found, or `N/A`.
pub fn first_group_or_na(found: &Found) -> (text: String)
    ensures
        text@ == info_text(found.deep_view()),
{
    match group(found, 1) {
        Some(text) => text.clone(),
        None => String::from_str("N/A"),
    }
}

/// Looks `pattern` up in `info`: the text that the first group of its
/// leftmost match captured, or `N/A` where the pattern does not match or
/// the group took no part.
pub fn extract_info(info: &str, pattern: &str) -> (text: Result<String, PatternError>)
    ensures
        text is Ok <==> pattern_compiles(pattern@),
        text matches Ok(value) ==> value@ == info_text(captures_of(pattern@, info@)),
{
    match find_groups(pattern, info) {
        Ok(found) => Ok(first_group_or_na(&found)),
        Err(refused) => Err(refused),
    }
}

} // verus!
