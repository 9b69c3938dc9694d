//! Selection of the file argument among the invocation arguments.
//!
//! The invocation arguments are the strings the process was launched with, the
//! executable path first. The file argument is the first of the others that is
//! not a flag and names an existing file-system entry.
//!
//! Whether a path exists is known only to the operating system. The model
//! therefore takes the outcome of the existence checks as a sequence `on_disk`,
//! one entry per argument position; a position without an entry counts as not
//! existing.

use vstd::prelude::*;
use vstd::string::*;

verus! {

/// The character that marks an argument as a flag.
pub const FLAG_PREFIX: char = '-';

/// An argument is a flag when it begins with the flag prefix.
pub open spec fn is_flag(arg: Seq<char>) -> bool {
    arg.len() > 0 && arg[0] == FLAG_PREFIX
}

/// Position `i` may hold a path: it lies after the executable path and its
/// argument is not a flag.
pub open spec fn is_path_position(args: Seq<Seq<char>>, i: int) -> bool {
    1 <= i < args.len() && !is_flag(args[i])
}

/// Position `i` may hold a path, and that path was found to exist.
pub open spec fn is_match(args: Seq<Seq<char>>, on_disk: Seq<bool>, i: int) -> bool {
    is_path_position(args, i) && i < on_disk.len() && on_disk[i]
}

/// Position `i` is a match and no earlier position is.
pub open spec fn is_first_match(args: Seq<Seq<char>>, on_disk: Seq<bool>, i: int) -> bool {
    &&& is_match(args, on_disk, i)
    &&& forall|j: int| 0 <= j < i ==> !is_match(args, on_disk, j)
}

/// The file argument: the argument at the first match, if there is a match.
pub open spec fn file_arg(args: Seq<Seq<char>>, on_disk: Seq<bool>) -> Option<Seq<char>> {
    if exists|i: int| is_first_match(args, on_disk, i) {
        Some(args[choose|i: int| is_first_match(args, on_disk, i)])
    } else {
        None
    }
}

/// Two first matches are the same position.
proof fn lemma_first_match_unique(args: Seq<Seq<char>>, on_disk: Seq<bool>, i: int, j: int)
    requires
        is_first_match(args, on_disk, i),
        is_first_match(args, on_disk, j),
    ensures
        i == j,
{
    if i < j {
        assert(!is_match(args, on_disk, i));
    } else if j < i {
        assert(!is_match(args, on_disk, j));
    }
}

/// Below any match lies a first match.
proof fn lemma_match_has_first(args: Seq<Seq<char>>, on_disk: Seq<bool>, k: int)
    requires
        is_match(args, on_disk, k),
    ensures
        exists|i: int| i <= k && is_first_match(args, on_disk, i),
    decreases k,
{
    if exists|j: int| 0 <= j < k && is_match(args, on_disk, j) {
        let j = choose|j: int| 0 <= j < k && is_match(args, on_disk, j);
        lemma_match_has_first(args, on_disk, j);
    } else {
        assert(is_first_match(args, on_disk, k));
    }
}

/// The file argument is the argument at the first match.
pub proof fn lemma_file_arg_at_first_match(args: Seq<Seq<char>>, on_disk: Seq<bool>, i: int)
    requires
        is_first_match(args, on_disk, i),
    ensures
        file_arg(args, on_disk) == Some(args[i]),
{
    let c = choose|c: int| is_first_match(args, on_disk, c);
    lemma_first_match_unique(args, on_disk, i, c);
}

/// There is a file argument exactly when some position is a match. When there
/// is one, it stands at a first match: it is one of the arguments after the
/// executable path and it is not a flag.
pub proof fn lemma_file_arg_characterization(args: Seq<Seq<char>>, on_disk: Seq<bool>)
    ensures
        file_arg(args, on_disk) is Some <==> exists|i: int| is_match(args, on_disk, i),
        file_arg(args, on_disk) matches Some(arg) ==> !is_flag(arg) && exists|i: int|
            is_first_match(args, on_disk, i) && args[i] == arg,
{
    if exists|i: int| is_match(args, on_disk, i) {
        let k = choose|i: int| is_match(args, on_disk, i);
        lemma_match_has_first(args, on_disk, k);
    }
}

/// When the first argument after the executable path that is not a flag names
/// an existing entry, the file argument is exactly that argument.
pub proof fn lemma_first_path_that_exists_is_selected(
    args: Seq<Seq<char>>,
    on_disk: Seq<bool>,
    k: int,
)
    requires
        is_path_position(args, k),
        forall|j: int| 1 <= j < k ==> is_flag(args[j]),
        k < on_disk.len() && on_disk[k],
    ensures
        file_arg(args, on_disk) == Some(args[k]),
{
    assert(is_first_match(args, on_disk, k));
    lemma_file_arg_at_first_match(args, on_disk, k);
}

/// When every argument after the executable path is a flag or names nothing
/// that exists, there is no file argument.
pub proof fn lemma_only_flags_and_missing_paths_select_nothing(
    args: Seq<Seq<char>>,
    on_disk: Seq<bool>,
)
    requires
        forall|i: int|
            1 <= i < args.len() ==> is_flag(#[trigger] args[i]) || !(i < on_disk.len() && on_disk[i]),
    ensures
        file_arg(args, on_disk) is None,
{
    lemma_file_arg_characterization(args, on_disk);
}

/// Tells whether `arg` is a flag.
pub fn has_flag_prefix(arg: &str) -> (flag: bool)
    ensures
        flag == is_flag(arg@),
{
    !arg.is_empty() && arg.get_char(0) == FLAG_PREFIX
}

/// Finds the first position at or after `from` that may hold a path.
pub fn next_path_position(args: &Vec<String>, from: usize) -> (next: Option<usize>)
    ensures
        match next {
            Some(k) => {
                &&& from <= k
                &&& is_path_position(args.deep_view(), k as int)
                &&& forall|j: int| from <= j < k ==> !is_path_position(args.deep_view(), j)
            },
            None => forall|j: int| from <= j ==> !is_path_position(args.deep_view(), j),
        },
{
    let mut i: usize = if from == 0 { 1 } else { from };
    while i < args.len()
        invariant
            from <= i,
            1 <= i,
            forall|j: int| from <= j < i ==> !is_path_position(args.deep_view(), j),
        decreases args.len() - i,
    {
        if !has_flag_prefix(args[i].as_str()) {
            return Some(i);
        }
        i = i + 1;
    }
    None
}

/// Selects the file argument, given the outcome of the existence checks.
///
/// `on_disk[i]` tells whether `args[i]` names an existing entry; positions that
/// `on_disk` does not reach count as not existing.
pub fn select_file_arg(args: &Vec<String>, on_disk: &Vec<bool>) -> (found: Option<String>)
    ensures
        found.deep_view() == file_arg(args.deep_view(), on_disk@),
{
    let mut from: usize = 1;
    while from < args.len()
        invariant
            1 <= from,
            forall|j: int| 0 <= j < from ==> !is_match(args.deep_view(), on_disk@, j),
        decreases args.len() - from,
    {
        match next_path_position(args, from) {
            Some(k) => {
                if k < on_disk.len() && on_disk[k] {
                    proof {
                        lemma_file_arg_at_first_match(args.deep_view(), on_disk@, k as int);
                    }
                    return Some(args[k].clone());
                }
                from = k + 1;
            },
            None => {
                proof {
                    lemma_file_arg_characterization(args.deep_view(), on_disk@);
                }
                return None;
            },
        }
    }
    proof {
        lemma_file_arg_characterization(args.deep_view(), on_disk@);
    }
    None
}

/// Asks the operating system whether `path` names an existing file-system
/// entry, by `std::path::Path::exists`.
///
/// The answer depends on what the file system holds at the moment of the call,
/// so nothing is claimed of it: callers are verified for either answer.
#[verifier::external_body]
fn path_exists(path: &str) -> (found: bool) {
    std::path::Path::new(path).exists()
}

/// What a scan of `args` can have learned from the file system. The scan asks
/// in argument order and only about positions that may hold a path, and it
/// stops at the first entry that exists: so `on_disk` is true at most at its
/// last position, only where a path may stand, and it ends before the last
/// argument only on such a hit.
pub open spec fn is_scan_outcome(args: Seq<Seq<char>>, on_disk: Seq<bool>) -> bool {
    &&& on_disk.len() <= args.len()
    &&& forall|i: int|
        0 <= i < on_disk.len() && on_disk[i] ==> i == on_disk.len() - 1 && is_path_position(
            args,
            i,
        )
    &&& on_disk.len() == args.len() || (on_disk.len() > 0 && on_disk.last())
}

/// Under the outcome of a scan the file argument is the argument the scan
/// stopped at, and there is none when the scan reached the end without a hit.
pub proof fn lemma_scan_outcome_selects_last_probed(args: Seq<Seq<char>>, on_disk: Seq<bool>)
    requires
        is_scan_outcome(args, on_disk),
    ensures
        file_arg(args, on_disk) == if on_disk.len() > 0 && on_disk.last() {
            Some(args[on_disk.len() - 1])
        } else {
            None
        },
{
    if on_disk.len() > 0 && on_disk.last() {
        assert(is_first_match(args, on_disk, on_disk.len() - 1));
        lemma_file_arg_at_first_match(args, on_disk, on_disk.len() - 1);
    } else {
        lemma_file_arg_characterization(args, on_disk);
    }
}

/// Asks the file system about the arguments in order, up to the first that may
/// hold a path and exists. Entry `i` of the result is the answer for `args[i]`;
/// the executable path and flags are not asked about and count as missing.
pub fn probe_candidates(args: &Vec<String>) -> (on_disk: Vec<bool>)
    ensures
        is_scan_outcome(args.deep_view(), on_disk@),
{
    let mut on_disk: Vec<bool> = Vec::new();
    let mut i: usize = 0;
    while i < args.len()
        invariant
            i <= args.len(),
            on_disk.len() == i,
            forall|j: int| 0 <= j < i ==> !on_disk@[j],
        decreases args.len() - i,
    {
        if i >= 1 && !has_flag_prefix(args[i].as_str()) && path_exists(args[i].as_str()) {
            on_disk.push(true);
            return on_disk;
        }
        on_disk.push(false);
        i = i + 1;
    }
    on_disk
}

/// Scans the invocation arguments for the file to open: the first argument
/// after the executable path that is not a flag and names an existing entry.
///
/// The file system is asked by `probe_candidates`, and the result is what
/// `select_file_arg` selects under the answers received. Those answers are the
/// file system's own, so the contract speaks of them as some outcome of a scan.
/// Whatever they were: a result is an argument after the executable path that
/// is not a flag, and where no argument is one, there is no result.
pub fn get_file_arg(args: &Vec<String>) -> (found: Option<String>)
    ensures
        exists|on_disk: Seq<bool>| #[trigger]
            is_scan_outcome(args.deep_view(), on_disk) && found.deep_view() == file_arg(
                args.deep_view(),
                on_disk,
            ),
        found matches Some(arg) ==> exists|i: int|
            is_path_position(args.deep_view(), i) && arg@ == args.deep_view()[i],
        (forall|i: int| !is_path_position(args.deep_view(), i)) ==> found is None,
{
    let on_disk = probe_candidates(args);
    let found = select_file_arg(args, &on_disk);
    proof {
        lemma_scan_outcome_selects_last_probed(args.deep_view(), on_disk@);
    }
    found
}

/// The log record that follows a scan: the file argument that was found, or
/// that none was.
pub open spec fn scan_record_text(found: Option<Seq<char>>) -> Seq<char> {
    match found {
        Some(arg) => "Found file arg: "@ + arg,
        None => "No file arg found"@,
    }
}

/// Builds the log record that follows a scan.
pub fn scan_record(found: &Option<String>) -> (record: String)
    ensures
        record@ == scan_record_text(found.deep_view()),
{
    match found {
        Some(arg) => {
            let mut record = String::from_str("Found file arg: ");
            record.append(arg.as_str());
            record
        },
        None => String::from_str("No file arg found"),
    }
}

} // verus!
