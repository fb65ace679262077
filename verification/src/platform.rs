//! Host classification: the identity record (a line-oriented `key=value`
//! text) is searched for the `ID` key, its value is cleaned, and the raw
//! identifier is mapped through a fixed table to a supported platform.
//! Unrecognized identifiers never produce a platform: they are rejected.

use vstd::prelude::*;
use vstd::string::*;

use crate::text::{strip_quotes, strip_quotes_str, trim_seq, trim_str, str_equal};

verus! {

/// The fixed, closed set of supported platforms. Everything downstream
/// (command tables, the redhat-family refresh quirk, the Amazon variant
/// probe) dispatches on this enumeration, so every case is forced to be
/// handled.
#[derive(Clone, Copy, Debug, PartialEq, Eq, Structural)]
pub enum Distro {
    Ubuntu,
    Debian,
    Fedora,
    Rhel,
    Amzn,
    Ol,
    Arch,
}

/// Why a host could not be classified. Both cases are fatal: provisioning
/// must not proceed on an unclassified host.
#[derive(Debug)]
pub enum ClassificationError {
    /// The identity record could not be read, or it holds no `ID` line.
    UnreadableIdentitySource,
    /// The record names a distribution outside the supported set; the raw
    /// identifier is carried for diagnostics.
    UnsupportedDistro(String),
}

/// Position `i` starts a line whose first three characters are `ID=`.
pub open spec fn is_id_line_at(s: Seq<char>, i: int) -> bool {
    &&& 0 <= i
    &&& i + 3 <= s.len()
    &&& (i == 0 || s[i - 1] == '\n')
    &&& s.subrange(i, i + 3) == "ID="@
}

/// The least position at or after `i` that starts an `ID=` line.
pub open spec fn find_id_from(s: Seq<char>, i: int) -> Option<int>
    decreases s.len() - i,
{
    if i + 3 > s.len() {
        None
    } else if is_id_line_at(s, i) {
        Some(i)
    } else {
        find_id_from(s, i + 1)
    }
}

/// The position of the first line break at or after `i`, or the record's
/// length when there is none.
pub open spec fn find_newline_from(s: Seq<char>, i: int) -> int
    decreases s.len() - i,
{
    if i >= s.len() {
        s.len() as int
    } else if s[i] == '\n' {
        i
    } else {
        find_newline_from(s, i + 1)
    }
}

/// The cleaned value of the first `ID=` line of the record: the text after
/// `ID=` up to the line break, trimmed of surrounding whitespace, with
/// every double quote removed. `None` when no `ID=` line exists.
pub open spec fn extract_id(s: Seq<char>) -> Option<Seq<char>> {
    match find_id_from(s, 0) {
        None => None,
        Some(i) => Some(strip_quotes(trim_seq(s.subrange(i + 3, find_newline_from(s, i + 3))))),
    }
}

/// The fixed raw-identifier table. Exactly these seven identifiers are
/// supported; everything else is rejected.
pub open spec fn distro_of_id(id: Seq<char>) -> Option<Distro> {
    if id == "ubuntu"@ {
        Some(Distro::Ubuntu)
    } else if id == "debian"@ {
        Some(Distro::Debian)
    } else if id == "fedora"@ {
        Some(Distro::Fedora)
    } else if id == "rhel"@ {
        Some(Distro::Rhel)
    } else if id == "amzn"@ {
        Some(Distro::Amzn)
    } else if id == "ol"@ {
        Some(Distro::Ol)
    } else if id == "arch"@ {
        Some(Distro::Arch)
    } else {
        None
    }
}

/// What classification must return for a given identity record (`None`
/// when the record could not be read at all).
pub open spec fn classification_of(contents: Option<Seq<char>>) -> Result<Distro, ()> {
    match contents {
        None => Err(()),
        Some(s) => match extract_id(s) {
            None => Err(()),
            Some(id) => match distro_of_id(id) {
                Some(d) => Ok(d),
                None => Err(()),
            },
        },
    }
}

proof fn lemma_find_id_skip(s: Seq<char>, i: int, j: int)
    requires
        i <= j,
        forall|t: int| i <= t < j ==> !is_id_line_at(s, t),
    ensures
        find_id_from(s, i) == find_id_from(s, j),
    decreases j - i,
{
    if i < j {
        if i + 3 > s.len() {
            assert(j + 3 > s.len());
        } else {
            lemma_find_id_skip(s, i + 1, j);
        }
    }
}

proof fn lemma_find_newline_skip(s: Seq<char>, i: int, j: int)
    requires
        0 <= i <= j <= s.len(),
        forall|t: int| i <= t < j ==> s[t] != '\n',
    ensures
        find_newline_from(s, i) == find_newline_from(s, j),
    decreases j - i,
{
    if i < j {
        lemma_find_newline_skip(s, i + 1, j);
    }
}

/// Whether position `i` starts an `ID=` line; `i` must leave room for the
/// three-character key.
fn id_line_starts_at(s: &str, i: usize) -> (r: bool)
    requires
        i + 3 <= s@.len(),
        s@.len() <= usize::MAX,
    ensures
        r == is_id_line_at(s@, i as int),
{
    proof {
        reveal_strlit("ID=");
    }
    if i > 0 && s.get_char(i - 1) != '\n' {
        assert(!is_id_line_at(s@, i as int));
        return false;
    }
    let r = s.get_char(i) == 'I' && s.get_char(i + 1) == 'D' && s.get_char(i + 2) == '=';
    proof {
        if r {
            assert(s@.subrange(i as int, i + 3) =~= "ID="@);
        } else {
            let sub = s@.subrange(i as int, i + 3);
            assert(sub[0] == s@[i as int] && sub[1] == s@[i + 1] && sub[2] == s@[i + 2]);
        }
    }
    r
}

/// Extracts the cleaned value of the first `ID=` line; the executable
/// counterpart of [`extract_id`].
pub fn extract_id_value(s: &str) -> (r: Option<String>)
    ensures
        match r {
            Some(v) => extract_id(s@) == Some(v@),
            None => extract_id(s@) == None::<Seq<char>>,
        },
{
    let n = s.unicode_len();
    let mut i: usize = 0;
    loop
        invariant
            n == s@.len(),
            0 <= i,
            i <= n || i <= 3,
            forall|t: int| 0 <= t < i ==> !is_id_line_at(s@, t),
        decreases n + 3 - i,
    {
        if n < 3 || i > n - 3 {
            proof {
                assert(forall|t: int| i <= t ==> !is_id_line_at(s@, t));
                lemma_find_id_skip(s@, 0, i as int);
            }
            return None;
        }
        if id_line_starts_at(s, i) {
            proof {
                lemma_find_id_skip(s@, 0, i as int);
            }
            let mut j: usize = i + 3;
            while j < n && s.get_char(j) != '\n'
                invariant
                    n == s@.len(),
                    i + 3 <= j <= n,
                    forall|t: int| i + 3 <= t < j ==> s@[t] != '\n',
                decreases n - j,
            {
                j += 1;
            }
            proof {
                lemma_find_newline_skip(s@, i + 3, j as int);
            }
            let raw = s.substring_char(i + 3, j);
            let trimmed = trim_str(raw);
            let cleaned = strip_quotes_str(trimmed.as_str());
            return Some(cleaned);
        }
        i += 1;
    }
}

/// Maps a cleaned raw identifier through the fixed table; the executable
/// counterpart of [`distro_of_id`].
pub fn lookup_distro(id: &str) -> (r: Option<Distro>)
    ensures
        r == distro_of_id(id@),
{
    if str_equal(id, "ubuntu") {
        Some(Distro::Ubuntu)
    } else if str_equal(id, "debian") {
        Some(Distro::Debian)
    } else if str_equal(id, "fedora") {
        Some(Distro::Fedora)
    } else if str_equal(id, "rhel") {
        Some(Distro::Rhel)
    } else if str_equal(id, "amzn") {
        Some(Distro::Amzn)
    } else if str_equal(id, "ol") {
        Some(Distro::Ol)
    } else if str_equal(id, "arch") {
        Some(Distro::Arch)
    } else {
        None
    }
}

/// Classifies the host from the contents of its identity record (`None`
/// when the record could not be read). Returns the platform exactly for
/// the seven supported raw identifiers; an unreadable or `ID`-less record
/// is `UnreadableIdentitySource`, and any other identifier comes back as
/// `UnsupportedDistro` carrying the cleaned raw value.
pub fn classify_host(contents: Option<&str>) -> (r: Result<Distro, ClassificationError>)
    ensures
        match r {
            Ok(d) => classification_of(view_contents(contents)) == Ok::<Distro, ()>(d),
            Err(e) => classification_of(view_contents(contents)) == Err::<Distro, ()>(())
                && match e {
                ClassificationError::UnreadableIdentitySource => contents matches None
                    || extract_id(contents->0@) matches None,
                ClassificationError::UnsupportedDistro(raw) => contents matches Some(s)
                    && extract_id(s@) == Some(raw@) && distro_of_id(raw@) matches None,
            },
        },
{
    match contents {
        None => Err(ClassificationError::UnreadableIdentitySource),
        Some(s) => match extract_id_value(s) {
            None => Err(ClassificationError::UnreadableIdentitySource),
            Some(id) => match lookup_distro(id.as_str()) {
                Some(d) => Ok(d),
                None => Err(ClassificationError::UnsupportedDistro(id)),
            },
        },
    }
}

/// The identity record as the specification sees it.
pub open spec fn view_contents(contents: Option<&str>) -> Option<Seq<char>> {
    match contents {
        None => None,
        Some(s) => Some(s@),
    }
}

/// The classification table is exact: a raw identifier maps to a platform
/// precisely when it is one of the seven supported identifiers, and each
/// of those maps to its own platform. Every other identifier is rejected.
pub proof fn lemma_classification_exact(id: Seq<char>)
    ensures
        (distro_of_id(id) is Some) <==> (id == "ubuntu"@ || id == "debian"@ || id == "fedora"@
            || id == "rhel"@ || id == "amzn"@ || id == "ol"@ || id == "arch"@),
        distro_of_id("ubuntu"@) == Some(Distro::Ubuntu),
        distro_of_id("debian"@) == Some(Distro::Debian),
        distro_of_id("fedora"@) == Some(Distro::Fedora),
        distro_of_id("rhel"@) == Some(Distro::Rhel),
        distro_of_id("amzn"@) == Some(Distro::Amzn),
        distro_of_id("ol"@) == Some(Distro::Ol),
        distro_of_id("arch"@) == Some(Distro::Arch),
{
    reveal_strlit("ubuntu");
    reveal_strlit("debian");
    reveal_strlit("fedora");
    reveal_strlit("rhel");
    reveal_strlit("amzn");
    reveal_strlit("ol");
    reveal_strlit("arch");
    // The three six-character identifiers are told apart by their first
    // character.
    assert("ubuntu"@[0] == 'u' && "debian"@[0] == 'd' && "fedora"@[0] == 'f');
    // So are the four-character ones, except for the pair amzn/arch,
    // which differ in their second character.
    assert("rhel"@[0] == 'r' && "amzn"@[0] == 'a' && "arch"@[0] == 'a');
    assert("amzn"@[1] == 'm' && "arch"@[1] == 'r');
}

} // verus!
