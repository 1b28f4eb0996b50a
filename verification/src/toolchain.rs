//! The toolchain that builds the agent for a device: where it is looked
//! for, what is done when it is not found, and how the build is set up.
//!
//! Looking into directories, downloading and building are the caller's
//! part. This module decides from what the caller found.

use vstd::prelude::*;
use vstd::string::*;
use crate::report::text::{chars_of, replace_char, replaced, views_of};

verus! {

/// Whether `char::is_numeric` of `std` holds of `ch`: whether Unicode
/// counts the character among the numbers.
pub uninterp spec fn is_numeric_char(ch: char) -> bool;

/// `char::is_numeric` of `std`. The ten digits `0` to `9` are numeric;
/// which other characters are is `is_numeric_char`.
pub assume_specification[ char::is_numeric ](ch: char) -> (numeric: bool)
    ensures
        numeric == is_numeric_char(ch),
        '0' <= ch <= '9' ==> numeric,
;

/// The address from which the toolchain is downloaded.
pub const NDK_URL: &'static str =
    "https://dl.google.com/android/repository/android-ndk-r21e-windows-x86_64.zip";

/// The linker of the toolchain that the build uses.
pub const LINKER_NAME: &'static str = "x86_64-linux-android21-clang.cmd";

/// Where the tools lie below the directory of the toolchain.
pub const TOOLS_DIR: &'static str = "toolchains/llvm/prebuilt/windows-x86_64/bin";

/// One entry of a directory.
#[derive(Clone, Debug, PartialEq, Eq)]
pub struct Entry {
    /// The name of the entry; empty where the name is not text.
    pub name: String,
    /// Whether the entry is a directory.
    pub is_dir: bool,
}

/// The character that decides whether a name is that of a version: its
/// first one, or `0` for an empty name.
pub open spec fn leading_char(name: Seq<char>) -> char {
    if name.len() > 0 {
        name[0]
    } else {
        '0'
    }
}

/// An entry that holds one version of the toolchain: a directory whose
/// name begins with a number.
pub open spec fn is_version_dir(entry: Entry) -> bool {
    entry.is_dir && is_numeric_char(leading_char(entry.name@))
}

/// The version that is taken among `entries`: the last entry, in the order
/// listed, that holds a version.
pub open spec fn highest_version(entries: Seq<Entry>) -> Option<int>
    decreases entries.len(),
{
    if entries.len() == 0 {
        None
    } else if is_version_dir(entries.last()) {
        Some(entries.len() - 1)
    } else {
        highest_version(entries.drop_last())
    }
}

/// Whether `entry` holds one version of the toolchain.
fn holds_version(entry: &Entry) -> (holds: bool)
    ensures
        holds == is_version_dir(*entry),
{
    if !entry.is_dir {
        return false;
    }
    let chars = chars_of(entry.name.as_str());
    let first = if chars.len() > 0 {
        chars[0]
    } else {
        '0'
    };
    first.is_numeric()
}

/// Picks the version of the toolchain among the entries of its directory:
/// the index of the last entry that holds a version.
pub fn find_highest_version(entries: &Vec<Entry>) -> (found: Option<usize>)
    ensures
        match found {
            Some(index) => highest_version(entries@) == Some(index as int),
            None => highest_version(entries@) is None,
        },
{
    let mut at = entries.len();
    assert(entries@.take(at as int) == entries@);
    while at > 0
        invariant
            at <= entries@.len(),
            highest_version(entries@) == highest_version(entries@.take(at as int)),
        decreases at,
    {
        let ghost shorter = entries@.take(at as int);
        assert(shorter.last() == entries@[at - 1]);
        assert(shorter.drop_last() == entries@.take(at - 1));
        if holds_version(&entries[at - 1]) {
            return Some(at - 1);
        }
        at -= 1;
    }
    None
}

/// The directories in which the toolchain is looked for, for the user
/// called `username`, in the order in which they are tried.
pub open spec fn candidate_dirs(username: Seq<char>) -> Seq<Seq<char>> {
    seq![
        "C:\\Users\\"@ + username + "\\AppData\\Local\\Android\\Sdk\\ndk"@,
        "C:\\Program Files\\Android\\Android Studio\\ndk"@,
        "C:\\Android\\Sdk\\ndk"@,
        "C:\\Users\\"@ + username + "\\AppData\\Local\\Android\\Sdk\\ndk-bundle"@,
    ]
}

/// The directories in which the toolchain is looked for.
pub fn ndk_candidates(username: &str) -> (dirs: Vec<String>)
    ensures
        views_of(dirs@) == candidate_dirs(username@),
{
    let mut first = String::from_str("C:\\Users\\");
    first.append(username);
    first.append("\\AppData\\Local\\Android\\Sdk\\ndk");
    let mut last = String::from_str("C:\\Users\\");
    last.append(username);
    last.append("\\AppData\\Local\\Android\\Sdk\\ndk-bundle");
    let mut dirs: Vec<String> = Vec::new();
    dirs.push(first);
    dirs.push(String::from_str("C:\\Program Files\\Android\\Android Studio\\ndk"));
    dirs.push(String::from_str("C:\\Android\\Sdk\\ndk"));
    dirs.push(last);
    assert(views_of(dirs@) =~= candidate_dirs(username@));
    dirs
}

/// What was found of one candidate directory: its entries, or nothing
/// where it does not exist or cannot be read.
pub type Listing = Option<Vec<Entry>>;

/// The version that `listing` offers, if any.
pub open spec fn offered(listing: Listing) -> Option<int> {
    match listing {
        Some(entries) => highest_version(entries@),
        None => None,
    }
}

/// Where the toolchain is found among the candidates: the first
/// candidate, in order, that offers a version, and that version.
pub open spec fn ndk_location(listings: Seq<Listing>) -> Option<(int, int)>
    decreases listings.len(),
{
    if listings.len() == 0 {
        None
    } else if ndk_location(listings.drop_last()) is Some {
        ndk_location(listings.drop_last())
    } else {
        match offered(listings.last()) {
            Some(entry) => Some((listings.len() - 1, entry)),
            None => None,
        }
    }
}

/// Finds the toolchain from the listings of the candidate directories:
/// the index of the first candidate that offers a version, and the index
/// of that version among its entries.
pub fn find_ndk_path(listings: &Vec<Listing>) -> (found: Option<(usize, usize)>)
    ensures
        match found {
            Some((dir, entry)) => ndk_location(listings@) == Some((dir as int, entry as int)),
            None => ndk_location(listings@) is None,
        },
{
    let mut at: usize = 0;
    while at < listings.len()
        invariant
            at <= listings@.len(),
            ndk_location(listings@.take(at as int)) is None,
        decreases listings@.len() - at,
    {
        let ghost longer = listings@.take(at as int + 1);
        assert(longer.drop_last() == listings@.take(at as int));
        assert(longer.last() == listings@[at as int]);
        match &listings[at] {
            Some(entries) => match find_highest_version(entries) {
                Some(entry) => {
                    proof {
                        lemma_location_stays(listings@, at as int + 1);
                    }
                    return Some((at, entry));
                },
                None => {},
            },
            None => {},
        }
        at += 1;
    }
    assert(listings@.take(at as int) == listings@);
    None
}

/// A place found among the first candidates is the place found among all.
proof fn lemma_location_stays(listings: Seq<Listing>, shorter: int)
    requires
        0 <= shorter <= listings.len(),
        ndk_location(listings.take(shorter)) is Some,
    ensures
        ndk_location(listings) == ndk_location(listings.take(shorter)),
    decreases listings.len() - shorter,
{
    if shorter < listings.len() {
        assert(listings.take(shorter + 1).drop_last() == listings.take(shorter));
        lemma_location_stays(listings, shorter + 1);
    } else {
        assert(listings.take(shorter) == listings);
    }
}

/// What to do about the toolchain once it was looked for.
#[derive(Clone, Debug, PartialEq, Eq)]
pub enum NdkStep {
    /// The toolchain lies at `path`: use it.
    Use { path: String },
    /// The toolchain was not found: say so, download it from `url`, unpack
    /// it, and use what was unpacked.
    Download { notice: String, url: String },
}

/// That step by its mathematical content.
pub enum NdkStepView {
    Use { path: Seq<char> },
    Download { notice: Seq<char>, url: Seq<char> },
}

impl View for NdkStep {
    type V = NdkStepView;

    open spec fn view(&self) -> NdkStepView {
        match self {
            NdkStep::Use { path } => NdkStepView::Use { path: path@ },
            NdkStep::Download { notice, url } => NdkStepView::Download {
                notice: notice@,
                url: url@,
            },
        }
    }
}

/// Decides what to do about the toolchain: the one that was found is
/// used; where none was found, one is downloaded.
pub fn find_or_download_ndk(found: Option<String>) -> (step: NdkStep)
    ensures
        step@ == match found {
            Some(path) => NdkStepView::Use { path: path@ },
            None => NdkStepView::Download {
                notice: "NDK not found. Attempting to download..."@,
                url: NDK_URL@,
            },
        },
{
    match found {
        Some(path) => NdkStep::Use { path },
        None => NdkStep::Download {
            notice: String::from_str("NDK not found. Attempting to download..."),
            url: String::from_str(NDK_URL),
        },
    }
}

/// The linker as the build names it: below `tools_dir`, with forward
/// slashes only.
pub fn linker_command(tools_dir: &str) -> (linker: String)
    ensures
        linker@ == replaced(tools_dir@, '\\', '/') + "/"@ + LINKER_NAME@,
{
    let mut linker = replace_char(tools_dir, '\\', '/');
    linker.append("/");
    linker.append(LINKER_NAME);
    linker
}

/// The build configuration that names the archiver and the linker.
pub fn cargo_config(linker: &str) -> (config: String)
    ensures
        config@
            == "[target.x86_64-linux-android]\nar = \"x86_64-linux-android-ar\"\nlinker = \""@
            + linker@ + "\"\n"@,
{
    let mut config = String::from_str(
        "[target.x86_64-linux-android]\nar = \"x86_64-linux-android-ar\"\nlinker = \"",
    );
    config.append(linker);
    config.append("\"\n");
    config
}

/// The search path for the build: the tools first, then what it was.
pub fn tool_path(tools_dir: &str, path: &str) -> (extended: String)
    ensures
        extended@ == tools_dir@ + ";"@ + path@,
{
    let mut extended = String::from_str(tools_dir);
    extended.append(";");
    extended.append(path);
    extended
}

/// A line of the operator's log that informs.
pub fn log_message(message: &str) -> (line: String)
    ensures
        line@ == "[INFO] "@ + message@,
{
    let mut line = String::from_str("[INFO] ");
    line.append(message);
    line
}

/// A line of the operator's log that reports an error.
pub fn log_error(message: &str) -> (line: String)
    ensures
        line@ == "[ERROR] "@ + message@,
{
    let mut line = String::from_str("[ERROR] ");
    line.append(message);
    line
}

} // verus!
