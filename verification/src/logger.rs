//! Log files: their names, the lines written to them, and which old ones are deleted.
use vstd::prelude::*;
use vstd::relations::injective_on;
use vstd::set_lib::{lemma_int_range, lemma_len_subset, lemma_map_size, lemma_subset_equality, set_int_range};
use vstd::string::StringExecFns;
use crate::command::path_extension;
use crate::command::extension_of;
use crate::text::{chars_of, decimal, decimal_chars, has_prefix, seq_equal, starts_with, string_of};

verus! {

/// How many log files are kept.
pub const MAXIMUM_LOG_FILES: usize = 10;

/// A file found in the log directory, with its modification time.
#[derive(Clone, Debug)]
pub struct LogFile {
    pub name: String,
    /// Modification time, in nanoseconds since the Unix epoch.
    pub modified: u128,
}

/// A file name that the launcher uses for its logs: `launcher-*.log`.
pub open spec fn spec_is_log_file_name(name: Seq<char>) -> bool {
    has_prefix(name, "launcher-"@) && path_extension(name) == Some("log"@)
}

/// A log file of the launcher.
pub open spec fn is_candidate(files: Seq<LogFile>, i: int) -> bool {
    spec_is_log_file_name(files[i].name@)
}

/// File `j` comes before file `i` when newest files come first and files of the same age keep
/// their order.
pub open spec fn comes_before(files: Seq<LogFile>, j: int, i: int) -> bool {
    files[j].modified > files[i].modified || (files[j].modified == files[i].modified && j < i)
}

/// How many of the first `m` files are log files that come before file `i`.
pub open spec fn rank_below(files: Seq<LogFile>, i: int, m: int) -> nat
    decreases m,
{
    if m <= 0 {
        0
    } else {
        rank_below(files, i, m - 1) + if is_candidate(files, m - 1) && comes_before(files, m - 1, i) {
            1nat
        } else {
            0nat
        }
    }
}

/// The position of file `i` among the log files, newest first.
pub open spec fn rank(files: Seq<LogFile>, i: int) -> nat {
    rank_below(files, i, files.len() as int)
}

/// How many of the first `m` files are log files.
pub open spec fn candidates_below(files: Seq<LogFile>, m: int) -> nat
    decreases m,
{
    if m <= 0 {
        0
    } else {
        candidates_below(files, m - 1) + if is_candidate(files, m - 1) {
            1nat
        } else {
            0nat
        }
    }
}

/// File `i` is deleted: it is a log file and at least `MAXIMUM_LOG_FILES` log files are newer.
pub open spec fn is_deleted(files: Seq<LogFile>, i: int) -> bool {
    is_candidate(files, i) && rank(files, i) >= MAXIMUM_LOG_FILES
}

/// `s` padded with leading zeros to three characters (`{:03}`).
pub open spec fn pad3(s: Seq<char>) -> Seq<char> {
    if s.len() >= 3 {
        s
    } else {
        Seq::new((3 - s.len()) as nat, |i: int| '0') + s
    }
}

/// A line of the log: `<seconds>.<milliseconds> [<level>] <message>`.
pub open spec fn spec_log_line(seconds: u64, millis: u32, level: Seq<char>, message: Seq<char>) -> Seq<
    char,
> {
    decimal(seconds as nat) + "."@ + pad3(decimal(millis as nat)) + " ["@ + level + "] "@ + message
}

/// Whether a file name is that of a launcher log.
pub fn is_log_file_name(name: &str) -> (r: bool)
    ensures
        r == spec_is_log_file_name(name@),
{
    let chars = chars_of(name);
    let prefix = chars_of("launcher-");
    if !starts_with(chars.as_slice(), prefix.as_slice()) {
        return false;
    }
    let log = chars_of("log");
    match extension_of(chars.as_slice()) {
        Some(e) => seq_equal(e.as_slice(), log.as_slice()),
        None => false,
    }
}

/// The name of a new log file.
pub fn log_file_name(stamp_millis: u128) -> (r: String)
    ensures
        r@ == "launcher-"@ + decimal(stamp_millis as nat) + ".log"@,
{
    let digits = decimal_chars(stamp_millis);
    let mut name = String::from_str("launcher-");
    name.append(string_of(digits.as_slice()).as_str());
    name.append(".log");
    name
}

/// A line of the log.
pub fn log_line(seconds: u64, millis: u32, level: &str, message: &str) -> (r: String)
    ensures
        r@ == spec_log_line(seconds, millis, level@, message@),
{
    let secs = decimal_chars(seconds as u128);
    let ms = decimal_chars(millis as u128);
    let mut padded: Vec<char> = Vec::new();
    let mut k: usize = ms.len();
    while k < 3
        invariant
            ms.len() <= k <= 3 || (ms.len() > 3 && k == ms.len()),
            padded@ == Seq::new((k - ms.len()) as nat, |i: int| '0'),
        decreases 3 - k,
    {
        padded.push('0');
        k = k + 1;
        assert(padded@ =~= Seq::new((k - ms.len()) as nat, |i: int| '0'));
    }
    let mut j: usize = 0;
    let ghost zeros = padded@;
    while j < ms.len()
        invariant
            j <= ms.len(),
            padded@ == zeros + ms@.take(j as int),
        decreases ms.len() - j,
    {
        padded.push(ms[j]);
        j = j + 1;
        assert(ms@.take(j as int) =~= ms@.take(j - 1).push(ms@[j - 1]));
    }
    proof {
        assert(ms@.take(ms.len() as int) =~= ms@);
        if ms@.len() >= 3 {
            assert(zeros =~= Seq::<char>::empty());
        }
        assert(padded@ =~= pad3(ms@));
    }
    let mut line = string_of(secs.as_slice());
    line.append(".");
    line.append(string_of(padded.as_slice()).as_str());
    line.append(" [");
    line.append(level);
    line.append("] ");
    line.append(message);
    line
}

fn rank_of(files: &Vec<LogFile>, candidate: &Vec<bool>, i: usize) -> (r: usize)
    requires
        i < files.len(),
        candidate.len() == files.len(),
        forall|k: int| 0 <= k < files.len() ==> candidate@[k] == is_candidate(files@, k),
    ensures
        r == rank(files@, i as int),
{
    let mut count: usize = 0;
    let mut j: usize = 0;
    while j < files.len()
        invariant
            j <= files.len(),
            i < files.len(),
            candidate.len() == files.len(),
            forall|k: int| 0 <= k < files.len() ==> candidate@[k] == is_candidate(files@, k),
            count == rank_below(files@, i as int, j as int),
            count <= j,
        decreases files.len() - j,
    {
        if candidate[j] && (files[j].modified > files[i].modified || (files[j].modified
            == files[i].modified && j < i)) {
            count = count + 1;
        }
        j = j + 1;
    }
    count
}

/// The indices, in increasing order, of the files to delete so that only the
/// `MAXIMUM_LOG_FILES` newest launcher logs remain; files of the same age count in the order
/// given.
pub fn logs_to_delete(files: &Vec<LogFile>) -> (r: Vec<usize>)
    ensures
        forall|k: int| 0 <= k < r.len() ==> r@[k] < files.len() && is_deleted(files@, r@[k] as int),
        forall|k1: int, k2: int| 0 <= k1 < k2 < r.len() ==> r@[k1] < r@[k2],
        forall|i: int| 0 <= i < files.len() && is_deleted(files@, i) ==> r@.contains(i as usize),
{
    let mut candidate: Vec<bool> = Vec::new();
    let mut i: usize = 0;
    while i < files.len()
        invariant
            i <= files.len(),
            candidate.len() == i,
            forall|k: int| 0 <= k < i ==> candidate@[k] == is_candidate(files@, k),
        decreases files.len() - i,
    {
        candidate.push(is_log_file_name(files[i].name.as_str()));
        i = i + 1;
    }
    let mut r: Vec<usize> = Vec::new();
    let mut i: usize = 0;
    while i < files.len()
        invariant
            i <= files.len(),
            candidate.len() == files.len(),
            forall|k: int| 0 <= k < files.len() ==> candidate@[k] == is_candidate(files@, k),
            forall|k: int| 0 <= k < r.len() ==> r@[k] < i && is_deleted(files@, r@[k] as int),
            forall|k1: int, k2: int| 0 <= k1 < k2 < r.len() ==> r@[k1] < r@[k2],
            forall|m: int| 0 <= m < i && is_deleted(files@, m) ==> r@.contains(m as usize),
        decreases files.len() - i,
    {
        if candidate[i] && rank_of(files, &candidate, i) >= MAXIMUM_LOG_FILES {
            let ghost before = r@;
            r.push(i);
            assert forall|m: int| 0 <= m < i + 1 && is_deleted(files@, m) implies r@.contains(
                m as usize,
            ) by {
                if m < i {
                    let k = choose|k: int| 0 <= k < before.len() && before[k] == m as usize;
                    assert(r@[k] == m as usize);
                } else {
                    assert(r@[r.len() - 1] == i);
                }
            }
        } else {
            assert forall|m: int| 0 <= m < i + 1 && is_deleted(files@, m) implies r@.contains(
                m as usize,
            ) by {
                if m == i {
                    assert(!is_deleted(files@, m));
                }
            }
        }
        i = i + 1;
    }
    r
}

proof fn lemma_rank_below_bound(files: Seq<LogFile>, i: int, m: int)
    requires
        0 <= i < files.len(),
        m <= files.len(),
    ensures
        rank_below(files, i, m) + (if 0 <= i < m && is_candidate(files, i) {
            1nat
        } else {
            0nat
        }) <= candidates_below(files, m),
    decreases m,
{
    if m > 0 {
        lemma_rank_below_bound(files, i, m - 1);
    }
}

proof fn lemma_rank_below_monotone(files: Seq<LogFile>, i: int, j: int, m: int)
    requires
        0 <= i < files.len(),
        0 <= j < files.len(),
        files[j].modified < files[i].modified,
        m <= files.len(),
    ensures
        rank_below(files, i, m) <= rank_below(files, j, m),
    decreases m,
{
    if m > 0 {
        lemma_rank_below_monotone(files, i, j, m - 1);
    }
}

/// When there are at most `MAXIMUM_LOG_FILES` launcher logs, none is deleted.
pub proof fn few_logs_are_all_kept(files: Seq<LogFile>, i: int)
    requires
        0 <= i < files.len(),
        candidates_below(files, files.len() as int) <= MAXIMUM_LOG_FILES,
    ensures
        !is_deleted(files, i),
{
    lemma_rank_below_bound(files, i, files.len() as int);
}

/// A log is deleted only after every older log is: deleting a file implies deleting each
/// launcher log that was modified before it.
pub proof fn older_logs_are_deleted_first(files: Seq<LogFile>, i: int, j: int)
    requires
        0 <= i < files.len(),
        0 <= j < files.len(),
        is_deleted(files, i),
        is_candidate(files, j),
        files[j].modified < files[i].modified,
    ensures
        is_deleted(files, j),
{
    lemma_rank_below_monotone(files, i, j, files.len() as int);
}

/// The launcher logs among the first `m` files.
pub open spec fn log_set(files: Seq<LogFile>, m: int) -> Set<int> {
    Set::new(|i: int| 0 <= i < m && is_candidate(files, i))
}

/// The launcher logs that are kept.
pub open spec fn kept_logs(files: Seq<LogFile>) -> Set<int> {
    Set::new(
        |i: int| 0 <= i < files.len() && is_candidate(files, i) && !is_deleted(files, i),
    )
}

proof fn lemma_comes_before_transitive(files: Seq<LogFile>, a: int, b: int, c: int)
    requires
        comes_before(files, a, b),
        comes_before(files, b, c),
    ensures
        comes_before(files, a, c),
{
}

proof fn lemma_rank_strict(files: Seq<LogFile>, i: int, j: int, m: int)
    requires
        0 <= i < files.len(),
        0 <= j < files.len(),
        is_candidate(files, j),
        comes_before(files, j, i),
        0 <= m <= files.len(),
    ensures
        rank_below(files, i, m) >= rank_below(files, j, m) + (if j < m {
            1nat
        } else {
            0nat
        }),
    decreases m,
{
    if m > 0 {
        lemma_rank_strict(files, i, j, m - 1);
        let k = m - 1;
        if is_candidate(files, k) && comes_before(files, k, j) {
            lemma_comes_before_transitive(files, k, j, i);
        }
    }
}

proof fn lemma_ranks_differ(files: Seq<LogFile>, i: int, j: int)
    requires
        0 <= i < files.len(),
        0 <= j < files.len(),
        i != j,
        is_candidate(files, i),
        is_candidate(files, j),
    ensures
        rank(files, i) != rank(files, j),
{
    if comes_before(files, j, i) {
        lemma_rank_strict(files, i, j, files.len() as int);
    } else {
        lemma_rank_strict(files, j, i, files.len() as int);
    }
}

proof fn lemma_log_set_len(files: Seq<LogFile>, m: int)
    requires
        0 <= m <= files.len(),
    ensures
        log_set(files, m).finite(),
        log_set(files, m).len() == candidates_below(files, m),
    decreases m,
{
    if m == 0 {
        assert(log_set(files, 0) =~= Set::<int>::empty());
    } else {
        lemma_log_set_len(files, m - 1);
        if is_candidate(files, m - 1) {
            assert(log_set(files, m) =~= log_set(files, m - 1).insert(m - 1));
        } else {
            assert(log_set(files, m) =~= log_set(files, m - 1));
        }
    }
}

/// Exactly the `MAXIMUM_LOG_FILES` newest launcher logs are kept, or all of them when there
/// are fewer.
pub proof fn newest_logs_are_kept(files: Seq<LogFile>)
    ensures
        kept_logs(files).finite(),
        kept_logs(files).len() == (if candidates_below(files, files.len() as int)
            < MAXIMUM_LOG_FILES {
            candidates_below(files, files.len() as int)
        } else {
            MAXIMUM_LOG_FILES as nat
        }),
{
    let len = files.len() as int;
    let c = log_set(files, len);
    let n = candidates_below(files, len);
    lemma_log_set_len(files, len);
    let f = |i: int| rank(files, i) as int;
    assert(injective_on(f, c)) by {
        assert forall|a: int, b: int| c.contains(a) && c.contains(b) && #[trigger] f(a) == #[trigger] f(
            b,
        ) implies a == b by {
            if a != b {
                lemma_ranks_differ(files, a, b);
            }
        }
    }
    let all = set_int_range(0, n as int);
    assert forall|r: int| c.map(f).contains(r) implies all.contains(r) by {
        let a = choose|a: int| c.contains(a) && r == f(a);
        lemma_rank_below_bound(files, a, len);
    }
    lemma_map_size(c, c.map(f), f);
    lemma_int_range(0, n as int);
    lemma_subset_equality(c.map(f), all);
    let k = kept_logs(files);
    let bound: int = if n < MAXIMUM_LOG_FILES {
        n as int
    } else {
        MAXIMUM_LOG_FILES as int
    };
    assert(k.subset_of(c));
    lemma_len_subset(k, c);
    assert(injective_on(f, k));
    let shown = set_int_range(0, bound);
    assert(k.map(f) =~= shown) by {
        assert forall|r: int| k.map(f).contains(r) implies shown.contains(r) by {
            let a = choose|a: int| k.contains(a) && r == f(a);
            lemma_rank_below_bound(files, a, len);
        }
        assert forall|r: int| shown.contains(r) implies k.map(f).contains(r) by {
            assert(all.contains(r));
            assert(c.map(f).contains(r));
            let a = choose|a: int| c.contains(a) && r == f(a);
            assert(k.contains(a));
        }
    }
    lemma_map_size(k, k.map(f), f);
    lemma_int_range(0, bound);
}

} // verus!
