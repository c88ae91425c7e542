//! Paths as text: expanding a leading `~/` to the home directory, and the
//! location of the configuration file.
//!
//! Joining follows `Path::join`, whose separator depends on the platform:
//! what is stated of a join holds on every platform.

use vstd::prelude::*;
use vstd::string::*;

verus! {

/// `rest` joins onto a path without replacing it on any platform: it does not
/// start with a separator and has no drive prefix (`C:`).
pub open spec fn plain_relative(rest: Seq<char>) -> bool {
    &&& !(rest.len() > 0 && (rest[0] == '/' || rest[0] == '\\'))
    &&& !(rest.len() >= 2 && rest[1] == ':')
}

/// The verbatim prefix `\\?\` of Windows paths.
pub open spec fn verbatim_prefix() -> Seq<char> {
    seq!['\\', '\\', '?', '\\']
}

/// `path` starts with the verbatim prefix `\\?\`.
pub open spec fn starts_verbatim(path: Seq<char>) -> bool {
    path.len() >= 4 && path.subrange(0, 4) == verbatim_prefix()
}

/// `base` is not a verbatim Windows path, so joining onto it never
/// normalizes it.
pub open spec fn plain_base(base: Seq<char>) -> bool {
    !starts_verbatim(base)
}

/// `joined` is `base` extended by `rest`: directly where `base` is empty or
/// already ends with a separator or a drive colon, or else through a `/` or
/// `\` separator.
pub open spec fn is_join_of(base: Seq<char>, rest: Seq<char>, joined: Seq<char>) -> bool {
    ||| (base.len() == 0 || base.last() == '/' || base.last() == '\\' || base.last() == ':')
        && joined == base + rest
    ||| base.len() > 0 && joined == base + seq!['/'] + rest
    ||| base.len() > 0 && joined == base + seq!['\\'] + rest
}

/// `base` may begin with a Windows path prefix: a drive (`C:`), or two
/// separators (UNC, device and verbatim prefixes).
pub open spec fn may_have_prefix(base: Seq<char>) -> bool {
    base.len() >= 2 && (base[1] == ':' || ((base[0] == '/' || base[0] == '\\') && (base[1] == '/'
        || base[1] == '\\')))
}

/// `joined` is `rest` replacing `base`: all of it, or, where `base` may have
/// a Windows prefix, all of it after a leading part.
pub open spec fn replaces_within(base: Seq<char>, rest: Seq<char>, joined: Seq<char>) -> bool {
    ||| joined == rest
    ||| may_have_prefix(base) && exists|k: int|
        0 < k <= base.len() && joined == #[trigger] base.subrange(0, k) + rest
}

/// `dirs::home_dir`, as text (`to_string_lossy`): the current user's home
/// directory, read from the environment; nothing is stated of what it
/// returns.
#[verifier::external_body]
fn home_dir_text() -> Option<String> {
    dirs::home_dir().map(|home| home.to_string_lossy().into_owned())
}

/// `Path::join` of two texts, as text, as `PathBuf::push` documents it.
/// Onto a base that is not verbatim, a pure relative `rest` is appended, with
/// a separator where `base` does not end in one; otherwise `rest` replaces
/// `base` (an absolute or prefixed `rest`) or all of `base` after its prefix
/// (a rooted `rest` on Windows), so the result is `rest` after a leading part
/// of `base` (its Windows prefix, where it has one). Onto a verbatim base,
/// `rest` either replaces it (an absolute or prefixed `rest`) or gives a
/// normalized path that keeps the verbatim prefix. Which separator is used,
/// and the normalized form, are not stated: they depend on the platform.
#[verifier::external_body]
pub(crate) fn join_text(base: &str, rest: &str) -> (joined: String)
    ensures
        plain_relative(rest@) && plain_base(base@) ==> is_join_of(base@, rest@, joined@),
        plain_base(base@) ==> is_join_of(base@, rest@, joined@) || replaces_within(base@, rest@, joined@),
        plain_relative(rest@) && !plain_base(base@) ==> starts_verbatim(joined@),
        !plain_base(base@) ==> joined@ == rest@ || starts_verbatim(joined@),
{
    std::path::Path::new(base).join(rest).to_string_lossy().into_owned()
}

/// The part of `path` after a leading `~/`, if it has one.
pub open spec fn home_relative(path: Seq<char>) -> Option<Seq<char>> {
    if path.len() >= 2 && path[0] == '~' && path[1] == '/' {
        Some(path.subrange(2, path.len() as int))
    } else {
        None
    }
}

/// The part of `path` after a leading `~/`, if it has one.
pub fn tilde_rest(path: &str) -> (rest: Option<&str>)
    ensures
        match home_relative(path@) {
            Some(r) => rest matches Some(s) && s@ == r,
            None => rest is None,
        },
{
    let n = path.unicode_len();
    if n >= 2 && path.get_char(0) == '~' && path.get_char(1) == '/' {
        Some(path.substring_char(2, n))
    } else {
        None
    }
}

/// What `expand_with_home` gives for `path` and the home directory `home`.
pub open spec fn expands_to(path: Seq<char>, home: Option<Seq<char>>, expanded: Seq<char>) -> bool {
    match (home_relative(path), home) {
        (Some(rest), Some(h)) => {
            &&& plain_relative(rest) && plain_base(h) ==> is_join_of(h, rest, expanded)
            &&& plain_base(h) ==> is_join_of(h, rest, expanded) || replaces_within(h, rest, expanded)
            &&& plain_relative(rest) && !plain_base(h) ==> starts_verbatim(expanded)
            &&& !plain_base(h) ==> expanded == rest || starts_verbatim(expanded)
        },
        _ => expanded == path,
    }
}

/// Expands a leading `~/` to `home`, joined with the rest of the path. A
/// path without that prefix, or any path when `home` is `None`, comes back
/// unchanged.
pub fn expand_with_home(path: &str, home: Option<String>) -> (expanded: String)
    ensures
        expands_to(path@, match home { Some(h) => Some(h@), None => None }, expanded@),
        home_relative(path@) is None || home is None ==> expanded@ == path@,
{
    if let Some(rest) = tilde_rest(path) {
        if let Some(home) = home {
            return join_text(home.as_str(), rest);
        }
    }
    String::from_str(path)
}

/// Expands a leading `~/` to the current user's home directory. A path
/// without that prefix comes back unchanged. With it, whatever the home
/// lookup gives, the result is what `expand_with_home` gives for some home
/// directory, or for none.
pub fn shellexpand_path(path: &str) -> (expanded: String)
    ensures
        home_relative(path@) is None ==> expanded@ == path@,
        exists|home: Option<Seq<char>>| #[trigger] expands_to(path@, home, expanded@),
{
    if tilde_rest(path).is_some() {
        let home = home_dir_text();
        let ghost home_text = match &home {
            Some(h) => Some(h@),
            None => None,
        };
        let expanded = expand_with_home(path, home);
        assert(expands_to(path@, home_text, expanded@));
        expanded
    } else {
        let expanded = String::from_str(path);
        assert(expands_to(path@, None, expanded@));
        expanded
    }
}

/// Expanding twice gives what expanding once gives, for the same home
/// directory: none, or one that is not empty, not `~` and does not itself
/// start with `~/` (and, where the rest of the path replaces part of the
/// home directory, does not start with `~` followed by a prefix). An empty
/// home is left out: `~/~/x` expands to `~/x`, which expands again.
pub proof fn lemma_expansion_settles(
    path: Seq<char>,
    home: Option<Seq<char>>,
    once: Seq<char>,
    twice: Seq<char>,
)
    requires
        home matches Some(h) ==> {
            &&& h.len() > 0
            &&& home_relative(h) is None
            &&& h != seq!['~']
            &&& (home_relative(path) matches Some(rest) && !plain_relative(rest))
                ==> !(h[0] == '~' && may_have_prefix(h))
        },
        expands_to(path, home, once),
        expands_to(once, home, twice),
    ensures
        twice == once,
{
    if let (Some(rest), Some(h)) = (home_relative(path), home) {
        if !plain_base(h) {
            if once != rest {
                assert(starts_verbatim(once));
                assert(once[0] == once.subrange(0, 4)[0]);
            }
        } else if is_join_of(h, rest, once) {
            assert(once[0] == h[0]);
            if h.len() >= 2 {
                assert(once[1] == h[1]);
            } else {
                assert(h[0] != '~') by {
                    if h[0] == '~' {
                        assert(h == seq!['~']);
                    }
                }
            }
        } else if once != rest {
            let k = choose|k: int| 0 < k <= h.len() && once == #[trigger] h.subrange(0, k) + rest;
            assert(once[0] == h[0]);
        }
        assert(home_relative(once) is None);
    }
}

} // verus!
