use vstd::prelude::*;
use vstd::pervasive::unreached;
use vstd::string::StringExecFns;
use crate::search::{
    Pattern, RunAndSearchError, group_views, groups_complete, run_and_search, rust_version_match,
};
use crate::text::{decimal, decimal_string, parse_u32, u32_of};

verus! {

/// Groups of the version line pattern: the whole version, its three numbers,
/// the pre-release flavor and candidate, the build hash, the whole date and
/// its three numbers.
pub const GROUP_VERSION: usize = 1;
pub const GROUP_MAJOR: usize = 2;
pub const GROUP_MINOR: usize = 3;
pub const GROUP_PATCH: usize = 4;
pub const GROUP_FLAVOR: usize = 6;
pub const GROUP_CANDIDATE: usize = 8;
pub const GROUP_HASH: usize = 9;
pub const GROUP_DATE: usize = 10;
pub const GROUP_YEAR: usize = 11;
pub const GROUP_MONTH: usize = 12;
pub const GROUP_DAY: usize = 13;

/// A compiler version: `major.minor.patch`, an optional pre-release flavor
/// with an optional candidate number, the build hash and the release date
/// as (year, month, day).
#[derive(Debug)]
pub struct RustVersion {
    pub triple: (u32, u32, u32),
    pub flavor: Option<(String, Option<String>)>,
    pub hash: String,
    pub date: (u32, u32, u32),
}

/// Why the compiler's version could not be read. Each number that fails to
/// parse has its own variant, with the text of the version or of the date.
#[derive(Debug)]
pub enum RustVersionError {
    CommandFailed(RunAndSearchError),
    MajorInvalid { version: String, source: std::num::ParseIntError },
    MinorInvalid { version: String, source: std::num::ParseIntError },
    PatchInvalid { version: String, source: std::num::ParseIntError },
    YearInvalid { date: String, source: std::num::ParseIntError },
    MonthInvalid { date: String, source: std::num::ParseIntError },
    DayInvalid { date: String, source: std::num::ParseIntError },
}

/// The operating system that a version is checked for.
#[derive(Clone, Copy, Debug, PartialEq, Eq, Structural)]
pub enum HostOs {
    /// macOS, where some compiler versions are known to be broken.
    MacOs,
    /// Any other operating system.
    Other,
}

/// The text of group `i`, empty where the group took no part in the match.
pub open spec fn group_text(gs: Seq<Option<Seq<char>>>, i: int) -> Seq<char> {
    match gs[i] {
        Some(t) => t,
        None => Seq::empty(),
    }
}

/// The pre-release part as plain text.
pub open spec fn flavor_view(
    f: Option<(String, Option<String>)>,
) -> Option<(Seq<char>, Option<Seq<char>>)> {
    match f {
        Some((fl, c)) => Some((fl@, match c {
            Some(c) => Some(c@),
            None => None,
        })),
        None => None,
    }
}

/// What a match of the version line gives: the first number that does not
/// parse, in the order major, minor, patch, year, month, day, decides the
/// error; where all parse, the version.
pub open spec fn version_from_match(
    gs: Seq<Option<Seq<char>>>,
    r: Result<RustVersion, RustVersionError>,
) -> bool {
    let version = group_text(gs, GROUP_VERSION as int);
    let date = group_text(gs, GROUP_DATE as int);
    let major = u32_of(group_text(gs, GROUP_MAJOR as int));
    let minor = u32_of(group_text(gs, GROUP_MINOR as int));
    let patch = u32_of(group_text(gs, GROUP_PATCH as int));
    let year = u32_of(group_text(gs, GROUP_YEAR as int));
    let month = u32_of(group_text(gs, GROUP_MONTH as int));
    let day = u32_of(group_text(gs, GROUP_DAY as int));
    if major is None {
        r matches Err(RustVersionError::MajorInvalid { version: v, .. }) && v@ == version
    } else if minor is None {
        r matches Err(RustVersionError::MinorInvalid { version: v, .. }) && v@ == version
    } else if patch is None {
        r matches Err(RustVersionError::PatchInvalid { version: v, .. }) && v@ == version
    } else if year is None {
        r matches Err(RustVersionError::YearInvalid { date: d, .. }) && d@ == date
    } else if month is None {
        r matches Err(RustVersionError::MonthInvalid { date: d, .. }) && d@ == date
    } else if day is None {
        r matches Err(RustVersionError::DayInvalid { date: d, .. }) && d@ == date
    } else {
        r matches Ok(v) && v.triple == (major->Some_0, minor->Some_0, patch->Some_0)
            && v.date == (year->Some_0, month->Some_0, day->Some_0)
            && v.hash@ == group_text(gs, GROUP_HASH as int)
            && flavor_view(v.flavor) == match gs[GROUP_FLAVOR as int] {
                Some(f) => Some((f, gs[GROUP_CANDIDATE as int])),
                None => None,
            }
    }
}

/// `a <= b` in the order of tuples: by the first number, then the second, then the third.
pub open spec fn triple_le(a: (u32, u32, u32), b: (u32, u32, u32)) -> bool {
    a.0 < b.0 || (a.0 == b.0 && (a.1 < b.1 || (a.1 == b.1 && a.2 <= b.2)))
}

/// The last stable release before the broken ones on macOS.
pub open spec fn last_good_stable() -> (u32, u32, u32) {
    (1, 45, 2)
}

/// The first stable release after the broken ones on macOS.
pub open spec fn next_good_stable() -> (u32, u32, u32) {
    (1, 49, 0)
}

/// The date of the first nightly build with the fix.
pub open spec fn first_good_nightly() -> (u32, u32, u32) {
    (2020, 10, 24)
}

/// A range of compiler versions known to be broken on some platform: releases
/// after `last_good_stable` are broken, unless they are `next_good_stable` or
/// later and were also built on or after `first_good_nightly`.
#[derive(Clone, Copy, Debug, PartialEq, Eq)]
pub struct CompatibilityWindow {
    pub last_good_stable: (u32, u32, u32),
    pub next_good_stable: (u32, u32, u32),
    pub first_good_nightly: (u32, u32, u32),
}

/// The known regression window of each platform, if it has one.
pub open spec fn window_of(os: HostOs) -> Option<CompatibilityWindow> {
    match os {
        HostOs::MacOs => Some(
            CompatibilityWindow {
                last_good_stable: last_good_stable(),
                next_good_stable: next_good_stable(),
                first_good_nightly: first_good_nightly(),
            },
        ),
        HostOs::Other => None,
    }
}

/// Whether a version and release date lies outside a regression window: up
/// to its last good stable release, or from its next good stable release on
/// when also dated on or after its first good nightly.
pub open spec fn outside_window(
    w: CompatibilityWindow,
    triple: (u32, u32, u32),
    date: (u32, u32, u32),
) -> bool {
    triple_le(triple, w.last_good_stable) || (triple_le(w.next_good_stable, triple)
        && triple_le(w.first_good_nightly, date))
}

/// Whether a compiler of this version and release date can be used on `os`:
/// always where the platform has no regression window, else only outside it.
pub open spec fn version_valid(
    triple: (u32, u32, u32),
    date: (u32, u32, u32),
    os: HostOs,
) -> bool {
    match window_of(os) {
        Some(w) => outside_window(w, triple, date),
        None => true,
    }
}

/// The known regression window of `os`, if it has one.
pub fn compatibility_window(os: HostOs) -> (r: Option<CompatibilityWindow>)
    ensures
        r == window_of(os),
{
    match os {
        HostOs::MacOs => Some(
            CompatibilityWindow {
                last_good_stable: (1, 45, 2),
                next_good_stable: (1, 49, 0),
                first_good_nightly: (2020, 10, 24),
            },
        ),
        HostOs::Other => None,
    }
}

fn triple_le_exec(a: (u32, u32, u32), b: (u32, u32, u32)) -> (r: bool)
    ensures
        r == triple_le(a, b),
{
    a.0 < b.0 || (a.0 == b.0 && (a.1 < b.1 || (a.1 == b.1 && a.2 <= b.2)))
}

/// The text of the pre-release part: `-flavor`, then `.candidate` if there is one.
pub open spec fn flavor_text(f: Option<(Seq<char>, Option<Seq<char>>)>) -> Seq<char> {
    match f {
        Some((fl, c)) => seq!['-'] + fl + match c {
            Some(c) => seq!['.'] + c,
            None => Seq::empty(),
        },
        None => Seq::empty(),
    }
}

/// `major.minor.patch[-flavor[.candidate]] (hash year-month-day)`, numbers in
/// decimal without padding.
pub open spec fn version_text(v: RustVersion) -> Seq<char> {
    decimal(v.triple.0 as nat) + seq!['.'] + decimal(v.triple.1 as nat) + seq!['.'] + decimal(
        v.triple.2 as nat,
    ) + flavor_text(flavor_view(v.flavor)) + seq![' ', '('] + v.hash@ + seq![' '] + decimal(
        v.date.0 as nat,
    ) + seq!['-'] + decimal(v.date.1 as nat) + seq!['-'] + decimal(v.date.2 as nat) + seq![')']
}

fn group_str(g: &Vec<Option<String>>, i: usize) -> (r: &str)
    requires
        i < g@.len(),
        g@[i as int] is Some,
    ensures
        r@ == g@[i as int]->Some_0@,
{
    match &g[i] {
        Some(s) => s.as_str(),
        None => unreached(),
    }
}

fn clone_group(o: &Option<String>) -> (r: Option<String>)
    ensures
        match r {
            Some(s) => *o matches Some(t) && s@ == t@,
            None => o is None,
        },
{
    match o {
        Some(s) => Some(s.clone()),
        None => None,
    }
}

impl RustVersion {
    /// Reads a version out of the groups of a match of the version line.
    pub fn from_groups(g: &Vec<Option<String>>) -> (r: Result<RustVersion, RustVersionError>)
        requires
            groups_complete(Pattern::RustVersion, g@),
        ensures
            version_from_match(group_views(g@), r),
    {
        let version = group_str(g, GROUP_VERSION);
        let date = group_str(g, GROUP_DATE);
        let major = match parse_u32(group_str(g, GROUP_MAJOR)) {
            Ok(n) => n,
            Err(source) => {
                return Err(RustVersionError::MajorInvalid { version: String::from_str(version), source });
            },
        };
        let minor = match parse_u32(group_str(g, GROUP_MINOR)) {
            Ok(n) => n,
            Err(source) => {
                return Err(RustVersionError::MinorInvalid { version: String::from_str(version), source });
            },
        };
        let patch = match parse_u32(group_str(g, GROUP_PATCH)) {
            Ok(n) => n,
            Err(source) => {
                return Err(RustVersionError::PatchInvalid { version: String::from_str(version), source });
            },
        };
        let year = match parse_u32(group_str(g, GROUP_YEAR)) {
            Ok(n) => n,
            Err(source) => {
                return Err(RustVersionError::YearInvalid { date: String::from_str(date), source });
            },
        };
        let month = match parse_u32(group_str(g, GROUP_MONTH)) {
            Ok(n) => n,
            Err(source) => {
                return Err(RustVersionError::MonthInvalid { date: String::from_str(date), source });
            },
        };
        let day = match parse_u32(group_str(g, GROUP_DAY)) {
            Ok(n) => n,
            Err(source) => {
                return Err(RustVersionError::DayInvalid { date: String::from_str(date), source });
            },
        };
        let flavor = match clone_group(&g[GROUP_FLAVOR]) {
            Some(f) => Some((f, clone_group(&g[GROUP_CANDIDATE]))),
            None => None,
        };
        let hash = String::from_str(group_str(g, GROUP_HASH));
        Ok(RustVersion { triple: (major, minor, patch), flavor, hash, date: (year, month, day) })
    }

    /// Whether this compiler can be used on `os` (see [`version_valid`]).
    pub fn valid(&self, os: HostOs) -> (r: bool)
        ensures
            r == version_valid(self.triple, self.date, os),
            os == HostOs::Other ==> r,
            os == HostOs::MacOs && self.triple == last_good_stable() ==> r,
            os == HostOs::MacOs && self.triple == (1u32, 45u32, 3u32) ==> !r,
            os == HostOs::MacOs && self.triple == next_good_stable() ==> (r <==> triple_le(
                first_good_nightly(),
                self.date,
            )),
    {
        match compatibility_window(os) {
            Some(w) => {
                let old_good = triple_le_exec(self.triple, w.last_good_stable);
                let new_good = triple_le_exec(w.next_good_stable, self.triple) && triple_le_exec(
                    w.first_good_nightly,
                    self.date,
                );
                old_good || new_good
            },
            None => true,
        }
    }

    /// The version as text, as [`version_text`] lays it out.
    pub fn to_string(&self) -> (r: String)
        ensures
            r@ == version_text(*self),
    {
        proof {
            reveal_strlit(".");
            reveal_strlit("-");
            reveal_strlit(" (");
            reveal_strlit(" ");
            reveal_strlit(")");
        }
        let mut r = decimal_string(self.triple.0);
        r.append(".");
        r.append(decimal_string(self.triple.1).as_str());
        r.append(".");
        r.append(decimal_string(self.triple.2).as_str());
        let ghost head = r@;
        match &self.flavor {
            Some((flavor, candidate)) => {
                r.append("-");
                r.append(flavor.as_str());
                match candidate {
                    Some(c) => {
                        r.append(".");
                        r.append(c.as_str());
                    },
                    None => {},
                }
            },
            None => {},
        }
        proof {
            assert(r@ =~= head + flavor_text(flavor_view(self.flavor)));
        }
        r.append(" (");
        r.append(self.hash.as_str());
        r.append(" ");
        r.append(decimal_string(self.date.0).as_str());
        r.append("-");
        r.append(decimal_string(self.date.1).as_str());
        r.append("-");
        r.append(decimal_string(self.date.2).as_str());
        r.append(")");
        r
    }

    /// Takes the outcome of running the compiler's version command (`command`
    /// is its text form) and reads the version from its output.
    pub fn check(
        command: String,
        outcome: Result<String, bossy::Error>,
    ) -> (r: Result<RustVersion, RustVersionError>)
        ensures
            match outcome {
                Err(e) => r matches Err(RustVersionError::CommandFailed(
                    RunAndSearchError::CommandFailed(e2),
                )) && e2 == e,
                Ok(output) => match rust_version_match(output@) {
                    None => r matches Err(RustVersionError::CommandFailed(
                        RunAndSearchError::SearchFailed { command: c, output: o },
                    )) && c == command && o == output,
                    Some(gs) => version_from_match(gs, r),
                },
            },
    {
        match run_and_search(command, outcome, Pattern::RustVersion) {
            Err(e) => Err(RustVersionError::CommandFailed(e)),
            Ok(g) => RustVersion::from_groups(&g),
        }
    }
}

} // verus!
