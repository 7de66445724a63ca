//! What holds of the names of directories, of the directories themselves and of the clock.

use std::path::PathBuf;
use vstd::prelude::*;

use crate::clock::clock_reads;
use crate::clock::millis_in;
use crate::clock::millis_of;
use crate::clock::now_millis;
use crate::names::hex_digit;
use crate::names::name_suffix;
use crate::names::path_join;
use crate::names::sanitize_name;
use crate::names::sanitized;
use crate::names::suffix_of;
use crate::names::team_dir;
use crate::names::team_dir_in;
use crate::names::teams_base_dir;
use crate::names::teams_base_dir_in;
use crate::text::alphanumeric;

verus! {

/// Whether one text is another one with a hyphen in place of every character that is neither a
/// letter nor a digit, nor a hyphen or an underscore.
pub open spec fn made_safe(name: Seq<char>, safe: Seq<char>) -> bool {
    &&& safe.len() == name.len()
    &&& forall|i: int|
        0 <= i < name.len() ==> {
            let c = #[trigger] name[i];
            &&& alphanumeric(c) || c == '-' || c == '_' ==> safe[i] == c
            &&& !(alphanumeric(c) || c == '-' || c == '_') ==> safe[i] == '-'
        }
}

/// Sanitizing a name replaces, one for one, the characters that may not stand in the name of a
/// directory, and leaves the others where they are.
pub proof fn law_sanitized_letter_by_letter(name: Seq<char>)
    ensures
        made_safe(name, sanitized(name)),
{
}

/// The name of the directory of a team is the name of the team with the same replacements.
pub proof fn law_sanitize_name(name: &str, safe: String)
    requires
        call_ensures(sanitize_name, (name,), safe),
    ensures
        made_safe(name@, safe@),
        safe@ == sanitized(name@),
{
    law_sanitized_letter_by_letter(name@);
}

/// The directories of all teams stand in `.claurst/teams` below the home directory, and each of
/// them is named like its team, sanitized. Without a home directory there are none.
pub proof fn law_directories_of_teams(
    home: Option<PathBuf>,
    team_name: &str,
    base: Option<PathBuf>,
    dir: Option<PathBuf>,
)
    requires
        call_ensures(teams_base_dir_in, (home,), base),
        call_ensures(team_dir_in, (home, team_name), dir),
    ensures
        match home {
            Some(h) => {
                let all = path_join(path_join(h, ".claurst"@), "teams"@);
                &&& base == Some(all)
                &&& dir == Some(path_join(all, sanitized(team_name@)))
            },
            None => base is None && dir is None,
        },
{
}

/// The directories of the teams of the current user are those below the home directory that is
/// found for the user.
pub proof fn law_directories_of_the_user(
    team_name: &str,
    base: Option<PathBuf>,
    dir: Option<PathBuf>,
)
    requires
        call_ensures(teams_base_dir, (), base),
        call_ensures(team_dir, (team_name,), dir),
    ensures
        exists|home: Option<PathBuf>| #[trigger]
            call_ensures(dirs::home_dir, (), home) && base == (match home {
                Some(h) => Some(path_join(path_join(h, ".claurst"@), "teams"@)),
                None => None,
            }),
        exists|home: Option<PathBuf>| #[trigger]
            call_ensures(dirs::home_dir, (), home) && dir == (match home {
                Some(h) => Some(
                    path_join(
                        path_join(path_join(h, ".claurst"@), "teams"@),
                        sanitized(team_name@),
                    ),
                ),
                None => None,
            }),
{
}

/// The number that a lower-case hexadecimal digit stands for.
pub open spec fn nibble(c: char) -> int {
    if '0' <= c && c <= '9' {
        c as int - '0' as int
    } else {
        c as int - 'a' as int + 10
    }
}

/// Whether a character is a lower-case hexadecimal digit.
pub open spec fn is_nibble(c: char) -> bool {
    ('0' <= c && c <= '9') || ('a' <= c && c <= 'f')
}

/// Whether a text is the lower-case hexadecimal notation of the first three of a row of bytes.
pub open spec fn begins_of(id: Seq<u8>, text: Seq<char>) -> bool {
    &&& text.len() == 6
    &&& forall|i: int| 0 <= i < 6 ==> is_nibble(#[trigger] text[i])
    &&& id[0] == 16 * nibble(text[0]) + nibble(text[1])
    &&& id[1] == 16 * nibble(text[2]) + nibble(text[3])
    &&& id[2] == 16 * nibble(text[4]) + nibble(text[5])
}

/// What the name of a team is told apart by stands for the first three bytes of a uuid, in
/// hexadecimal.
pub proof fn law_suffix_spells_three_bytes(id: Seq<u8>)
    requires
        id.len() == 16,
    ensures
        begins_of(id, suffix_of(id)),
{
    assert(forall|n: int| 0 <= n < 16 ==> is_nibble(#[trigger] hex_digit(n)));
    assert(forall|n: int| 0 <= n < 16 ==> nibble(#[trigger] hex_digit(n)) == n);
    let text = suffix_of(id);
    assert forall|k: int| 0 <= k < 3 implies text[2 * k] == hex_digit(#[trigger] id[k] as int / 16)
        && text[2 * k + 1] == hex_digit(id[k] as int % 16) by {
        assert((2 * k) / 2 == k && (2 * k) % 2 == 0);
        assert((2 * k + 1) / 2 == k && (2 * k + 1) % 2 == 1);
    }
    assert(text[0] == hex_digit(id[0] as int / 16) && text[1] == hex_digit(id[0] as int % 16));
    assert(text[2] == hex_digit(id[1] as int / 16) && text[3] == hex_digit(id[1] as int % 16));
    assert(text[4] == hex_digit(id[2] as int / 16) && text[5] == hex_digit(id[2] as int % 16));
}

/// The suffix that is made of a uuid stands for its first three bytes.
pub proof fn law_name_suffix(id: &[u8; 16], suffix: String)
    requires
        call_ensures(name_suffix, (id,), suffix),
    ensures
        begins_of(id@, suffix@),
{
    law_suffix_spells_three_bytes(id@);
}

/// Whether a count of milliseconds is the whole number of them in a span of time.
pub open spec fn whole_millis(millis: int, secs: int, nanos: int) -> bool {
    millis * 1_000_000 <= secs * 1_000_000_000 + nanos < (millis + 1) * 1_000_000
}

/// A reading of the clock is counted in whole milliseconds. Only a count beyond sixty-four bits
/// starts again, and a clock that stands before the epoch counts nothing.
pub proof fn law_millis_of(reading: Option<(u64, u32)>, millis: u64)
    requires
        call_ensures(millis_of, (reading,), millis),
    ensures
        match reading {
            Some((secs, nanos)) => exists|turns: nat| #[trigger]
                whole_millis(millis + turns * 0x1_0000_0000_0000_0000, secs as int, nanos as int),
            None => millis == 0,
        },
        reading matches Some((secs, nanos)) ==> secs < 0x10_0000_0000_0000 ==> whole_millis(
            millis as int,
            secs as int,
            nanos as int,
        ),
{
    if let Some((secs, nanos)) = reading {
        let total = secs * 1000 + nanos as int / 1_000_000;
        let turns = (total / 0x1_0000_0000_0000_0000) as nat;
        assert(total == millis + turns * 0x1_0000_0000_0000_0000);
        assert(whole_millis(
            millis + turns * 0x1_0000_0000_0000_0000,
            secs as int,
            nanos as int,
        ));
    }
}

/// The time that is taken down is counted from what the clock shows when it is read.
pub proof fn law_now_millis(millis: u64)
    requires
        call_ensures(now_millis, (), millis),
    ensures
        exists|reading: Option<(u64, u32)>| #[trigger]
            clock_reads(reading) && (match reading {
                Some((secs, nanos)) => exists|turns: nat| #[trigger]
                    whole_millis(
                        millis + turns * 0x1_0000_0000_0000_0000,
                        secs as int,
                        nanos as int,
                    ),
                None => millis == 0,
            }),
{
    let reading = choose|reading: Option<(u64, u32)>| #[trigger]
        clock_reads(reading) && millis == millis_in(reading);
    if let Some((secs, nanos)) = reading {
        let total = secs * 1000 + nanos as int / 1_000_000;
        let turns = (total / 0x1_0000_0000_0000_0000) as nat;
        assert(total == millis + turns * 0x1_0000_0000_0000_0000);
        assert(whole_millis(
            millis + turns * 0x1_0000_0000_0000_0000,
            secs as int,
            nanos as int,
        ));
    }
}

} // verus!
