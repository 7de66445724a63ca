//! The names of teams and the directories that stand for them.

use std::path::PathBuf;
use vstd::prelude::*;
use vstd::string::*;

use crate::text::alphanumeric;
use crate::text::ascii_alphanumeric;
use crate::text::blank;
use crate::text::whitespace;

verus! {

/// The paths of the operating system.
#[verifier::external_type_specification]
#[verifier::external_body]
pub struct ExPathBuf(PathBuf);

/// The path that `Path::join` makes of a path and a further part.
pub uninterp spec fn path_join(base: PathBuf, part: Seq<char>) -> PathBuf;

/// The text that `Path::to_string_lossy` makes of a path.
pub uninterp spec fn path_text(path: PathBuf) -> Seq<char>;

/// The text that `Path::display` makes of a path.
pub uninterp spec fn path_display(path: PathBuf) -> Seq<char>;

/// `Path::join` makes a new path out of a path and a further part. The result is a function of
/// the two. A part that is a single safe component is appended as it is, so that no other such
/// part gives the same path, and the path is a new one where the part is not empty.
#[verifier::external_body]
pub(crate) fn join_path(base: &PathBuf, part: &str) -> (path: PathBuf)
    ensures
        path == path_join(*base, part@),
        safe_component(part@) ==> forall|other: Seq<char>|
            safe_component(other) && #[trigger] path_join(*base, other) == path ==> other == part@,
        safe_component(part@) && part@.len() > 0 ==> path != *base,
{
    base.join(part)
}

/// `Path::to_string_lossy` gives the path as text, with replacement characters for what is not
/// Unicode in it. The text is a function of the path.
#[verifier::external_body]
pub(crate) fn lossy_path_text(path: &PathBuf) -> (text: String)
    ensures
        text@ == path_text(*path),
{
    path.to_string_lossy().to_string()
}

/// `Path::display` gives the path as text for printing. The text is a function of the path.
#[verifier::external_body]
pub(crate) fn displayed_path(path: &PathBuf) -> (text: String)
    ensures
        text@ == path_display(*path),
{
    path.display().to_string()
}

/// `dirs::home_dir` looks up the home directory of the current user in the environment and in
/// the user database. Nothing is claimed of what it finds, or that it finds anything.
pub assume_specification[ dirs::home_dir ]() -> Option<PathBuf>;

/// `uuid::Uuid::new_v4` makes a uuid out of random bytes of the operating system; it panics where
/// the system has none to give. The result is given as the sixteen bytes of the uuid. The bits
/// that mark the version and the variant are fixed; nothing is claimed of the others.
#[verifier::external_body]
pub(crate) fn random_id() -> (id: [u8; 16])
    ensures
        id@[6] / 16 == 4,
        id@[8] / 64 == 2,
{
    uuid::Uuid::new_v4().into_bytes()
}

/// `uuid::Uuid::to_string` writes the sixteen bytes of a uuid in lower-case hexadecimal, in five
/// groups with hyphens between them.
#[verifier::external_body]
pub(crate) fn id_text(id: &[u8; 16]) -> (text: String)
    ensures
        text@ == hyphenated(id@),
{
    uuid::Uuid::from_bytes(*id).to_string()
}

/// The hexadecimal digit of a number below sixteen.
pub open spec fn hex_digit(n: int) -> char {
    seq!['0', '1', '2', '3', '4', '5', '6', '7', '8', '9', 'a', 'b', 'c', 'd', 'e', 'f'][n]
}

/// Bytes in hexadecimal, two digits for each.
pub open spec fn hex_text(bytes: Seq<u8>) -> Seq<char> {
    Seq::new(
        2 * bytes.len(),
        |i: int|
            hex_digit(
                if i % 2 == 0 {
                    bytes[i / 2] as int / 16
                } else {
                    bytes[i / 2] as int % 16
                },
            ),
    )
}

/// The sixteen bytes of a uuid in groups of four, two, two, two and six bytes.
pub open spec fn hyphenated(id: Seq<u8>) -> Seq<char> {
    hex_text(id.subrange(0, 4)) + seq!['-'] + hex_text(id.subrange(4, 6)) + seq!['-'] + hex_text(
        id.subrange(6, 8),
    ) + seq!['-'] + hex_text(id.subrange(8, 10)) + seq!['-'] + hex_text(id.subrange(10, 16))
}

/// Whether a character may stand in the name of a directory.
pub open spec fn kept_char(c: char) -> bool {
    alphanumeric(c) || c == '-' || c == '_'
}

/// What stands in the name of a directory for a character of the name of a team.
pub open spec fn safe_char(c: char) -> char {
    if kept_char(c) {
        c
    } else {
        '-'
    }
}

/// The name of the directory of a team: every character that may not stand there gives way to a
/// hyphen.
pub open spec fn sanitized(name: Seq<char>) -> Seq<char> {
    name.map_values(|c: char| safe_char(c))
}

/// Whether every ASCII character of a text is a letter, a digit, a hyphen or an underscore. A
/// text without any other ASCII character holds no separator of directories, no dot, no colon
/// and no control character.
pub open spec fn safe_component(text: Seq<char>) -> bool {
    forall|i: int|
        0 <= i < text.len() && #[trigger] text[i] <= '\x7f' ==> ascii_alphanumeric(text[i])
            || text[i] == '-' || text[i] == '_'
}

/// The directory that holds the directories of all teams of a user.
pub open spec fn teams_base(home: PathBuf) -> PathBuf {
    path_join(path_join(home, ".claurst"@), "teams"@)
}

/// The directory of a team.
pub open spec fn team_path(home: PathBuf, team_name: Seq<char>) -> PathBuf {
    path_join(teams_base(home), sanitized(team_name))
}

/// Whether the directory of a team is that of no team with another sanitized name, nor the one
/// that holds the directories of all teams.
pub open spec fn directory_of_its_own(home: PathBuf, team_name: Seq<char>) -> bool {
    &&& team_name.len() > 0 ==> team_path(home, team_name) != teams_base(home)
    &&& forall|other: Seq<char>|
        sanitized(other) == sanitized(team_name) <==> #[trigger] team_path(home, other)
            == team_path(home, team_name)
}

/// Whether a uuid is one that was drawn at random.
pub closed spec fn drawn_at_random(id: [u8; 16]) -> bool {
    call_ensures(random_id, (), id)
}

/// What the name of a team is told apart by when its directory is taken: the first six
/// characters of a uuid.
pub open spec fn suffix_of(id: Seq<u8>) -> Seq<char> {
    hyphenated(id).take(6)
}

/// The name of a team whose directory is taken.
pub open spec fn distinct_name(safe_name: Seq<char>, id: Seq<u8>) -> Seq<char> {
    safe_name + "-"@ + suffix_of(id)
}

/// The name of a directory that stands for the name of a team.
pub fn sanitize_name(name: &str) -> (safe: String)
    ensures
        safe@ == sanitized(name@),
{
    let mut safe = String::new();
    for c in it: name.chars()
        invariant
            it.seq() == name@,
            safe@ == sanitized(name@.take(it.index() as int)),
    {
        let ghost done = name@.take(it.index() as int);
        assert(name@.take(it.index() + 1) == done.push(c));
        assert(sanitized(done.push(c)) == sanitized(done).push(safe_char(c)));
        if c.is_alphanumeric() || c == '-' || c == '_' {
            safe.push(c);
        } else {
            safe.push('-');
        }
    }
    assert(name@.take(name@.len() as int) == name@);
    safe
}

/// The directory that holds the directories of all teams, below a home directory.
pub fn teams_base_dir_in(home: Option<PathBuf>) -> (dir: Option<PathBuf>)
    ensures
        dir == (match home {
            Some(h) => Some(teams_base(h)),
            None => None::<PathBuf>,
        }),
{
    match home {
        Some(h) => {
            let hidden = join_path(&h, ".claurst");
            Some(join_path(&hidden, "teams"))
        },
        None => None,
    }
}

/// The directory that holds the directories of all teams of the current user, if the user has a
/// home directory: there is one exactly where `dirs::home_dir` finds a home directory.
pub fn teams_base_dir() -> (dir: Option<PathBuf>)
    ensures
        exists|home: Option<PathBuf>|
            call_ensures(dirs::home_dir, (), home) && dir == (match home {
                Some(h) => Some(teams_base(h)),
                None => None::<PathBuf>,
            }),
{
    teams_base_dir_in(dirs::home_dir())
}

/// The directory of a team, below a home directory.
pub fn team_dir_in(home: Option<PathBuf>, team_name: &str) -> (dir: Option<PathBuf>)
    ensures
        dir == (match home {
            Some(h) => Some(team_path(h, team_name@)),
            None => None::<PathBuf>,
        }),
        home matches Some(h) ==> directory_of_its_own(h, team_name@),
{
    match teams_base_dir_in(home) {
        Some(base) => {
            let safe = sanitize_name(team_name);
            proof {
                assert forall|other: Seq<char>| safe_component(#[trigger] sanitized(other)) by {
                    law_sanitized_is_safe(other);
                }
            }
            Some(join_path(&base, safe.as_str()))
        },
        None => None,
    }
}

/// The directory of a team of the current user, if the user has a home directory: there is one
/// exactly where `dirs::home_dir` finds a home directory.
pub fn team_dir(team_name: &str) -> (dir: Option<PathBuf>)
    ensures
        exists|home: Option<PathBuf>|
            call_ensures(dirs::home_dir, (), home) && dir == (match home {
                Some(h) => Some(team_path(h, team_name@)),
                None => None::<PathBuf>,
            }) && (home matches Some(h) ==> directory_of_its_own(h, team_name@)),
{
    team_dir_in(dirs::home_dir(), team_name)
}

/// A uuid that is drawn at random.
pub fn draw_id() -> (id: [u8; 16])
    ensures
        drawn_at_random(id),
        id@[6] / 16 == 4,
        id@[8] / 64 == 2,
{
    random_id()
}

/// What the name of a team is told apart by when its directory is taken.
pub fn name_suffix(id: &[u8; 16]) -> (suffix: String)
    ensures
        suffix@ == suffix_of(id@),
{
    let text = id_text(id);
    text.as_str().substring_char(0, 6).to_owned()
}

/// A name that is the name of a directory already is left alone, so that sanitizing a name twice
/// gives what sanitizing it once gives. The name of a directory is as long as the name of the
/// team that it stands for.
pub proof fn law_sanitizing_is_stable(name: Seq<char>)
    ensures
        sanitized(sanitized(name)) == sanitized(name),
        sanitized(name).len() == name.len(),
{
    assert(sanitized(sanitized(name)) =~= sanitized(name));
}

/// A team and the sanitized name of the team have the same directory, and so have any two teams
/// whose sanitized names are the same.
pub proof fn law_sanitized_name_has_the_same_directory(
    home: PathBuf,
    name: Seq<char>,
    other: Seq<char>,
)
    ensures
        team_path(home, sanitized(name)) == team_path(home, name),
        sanitized(name) == sanitized(other) ==> team_path(home, name) == team_path(home, other),
{
    law_sanitizing_is_stable(name);
}

/// Sanitizing makes the name of any team a single, safe component of a path: no separator, no
/// dot, no colon, no control character is left in it.
pub proof fn law_sanitized_is_safe(name: Seq<char>)
    ensures
        safe_component(sanitized(name)),
        !sanitized(name).contains('/'),
        !sanitized(name).contains('\\'),
        !sanitized(name).contains('.'),
        !sanitized(name).contains(':'),
        !sanitized(name).contains('\0'),
{
}

/// A name that is not blank stays so when it is sanitized.
pub proof fn law_sanitized_is_not_blank(name: Seq<char>)
    requires
        !blank(name),
    ensures
        !blank(sanitized(name)),
{
    let i = choose|i: int| 0 <= i < name.len() && !whitespace(#[trigger] name[i]);
    assert(!whitespace(sanitized(name)[i]));
}

/// What teams are told apart by is the hexadecimal notation of the first three bytes of a uuid.
pub proof fn law_suffix(id: Seq<u8>)
    requires
        id.len() == 16,
    ensures
        suffix_of(id) == hex_text(id.subrange(0, 3)),
        suffix_of(id).len() == 6,
        forall|i: int| 0 <= i < 6 ==> ascii_alphanumeric(#[trigger] suffix_of(id)[i]),
{
    assert(suffix_of(id) =~= hex_text(id.subrange(0, 3)));
}

/// The name that a team gets when its directory is taken is another name, and the name of a
/// directory again: sanitizing leaves it alone.
pub proof fn law_distinct_name(team_name: Seq<char>, id: Seq<u8>)
    requires
        id.len() == 16,
    ensures
        distinct_name(sanitized(team_name), id) != sanitized(team_name),
        sanitized(distinct_name(sanitized(team_name), id)) == distinct_name(
            sanitized(team_name),
            id,
        ),
        !blank(distinct_name(sanitized(team_name), id)),
{
    let safe = sanitized(team_name);
    let name = distinct_name(safe, id);
    let n = safe.len();
    reveal_strlit("-");
    law_suffix(id);
    law_sanitizing_is_stable(team_name);
    assert(name.len() == n + 7);
    assert forall|i: int| 0 <= i < name.len() implies sanitized(name)[i] == name[i] by {
        if i < n {
            assert(sanitized(safe)[i] == safe[i]);
        } else if i > n {
            assert(name[i] == suffix_of(id)[i - n - 1]);
        }
    }
    assert(sanitized(name) =~= name);
    assert(!whitespace(name[n as int]));
}

} // verus!
