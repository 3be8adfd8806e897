//! Quiz persistence planning: which folder a subject belongs in, what the
//! file is called, and what is written into it. The host performs the
//! directory scan and the writes; the decisions are made here.

use vstd::prelude::*;
use vstd::string::StringExecFns;
use crate::digits::{int_rep, i64_to_string, lemma_int_rep_injective};
use crate::strops::{lower_of, spec_contains, str_contains, to_lowercase};

verus! {

/// The grouping heuristic on an already-lowercased subject: an existing
/// folder name matches when, ignoring case, either contains the other.
pub open spec fn dir_matches_lowered(dir: Seq<char>, subject_lower: Seq<char>) -> bool {
    spec_contains(subject_lower, lower_of(dir)) || spec_contains(lower_of(dir), subject_lower)
}

/// The grouping heuristic: an existing folder name matches a subject when,
/// ignoring case, either contains the other.
pub open spec fn dir_matches(dir: Seq<char>, subject: Seq<char>) -> bool {
    dir_matches_lowered(dir, lower_of(subject))
}

/// The folder a subject is filed under, given the existing folder names in
/// scan order: the first matching name, or the subject itself when none
/// matches.
pub open spec fn chosen_dir(dirs: Seq<String>, subject: Seq<char>) -> Seq<char>
    decreases dirs.len(),
{
    if dirs.len() == 0 {
        subject
    } else if dir_matches(dirs[0]@, subject) {
        dirs[0]@
    } else {
        chosen_dir(dirs.drop_first(), subject)
    }
}

/// Whether an existing folder name matches the already-lowercased subject,
/// ignoring case, in either direction.
fn name_matches(dir: &str, subject_lower: &str) -> (r: bool)
    ensures
        r == dir_matches_lowered(dir@, subject_lower@),
{
    let dir_lower = to_lowercase(dir);
    str_contains(subject_lower, dir_lower.as_str()) || str_contains(
        dir_lower.as_str(),
        subject_lower,
    )
}

/// Picks the folder for a subject out of the existing folder names, taken
/// in scan order: the first name that matches the grouping heuristic wins,
/// and with no match the subject names a new folder.
pub fn choose_target_directory(existing: &Vec<String>, subject: &str) -> (r: String)
    ensures
        r@ == chosen_dir(existing@, subject@),
        (forall|j: int| 0 <= j < existing@.len() ==> !dir_matches(existing@[j]@, subject@)) ==> r@
            == subject@,
        (exists|j: int| 0 <= j < existing@.len() && dir_matches(existing@[j]@, subject@))
            ==> exists|j: int|
            {
                &&& 0 <= j < existing@.len()
                &&& r@ == existing@[j]@
                &&& dir_matches(existing@[j]@, subject@)
                &&& forall|k: int| 0 <= k < j ==> !dir_matches(existing@[k]@, subject@)
            },
{
    let subject_lower = to_lowercase(subject);
    assert(existing@.skip(0) =~= existing@);
    let mut i: usize = 0;
    while i < existing.len()
        invariant
            0 <= i <= existing@.len(),
            subject_lower@ == lower_of(subject@),
            forall|k: int| 0 <= k < i ==> !dir_matches(existing@[k]@, subject@),
            chosen_dir(existing@.skip(i as int), subject@) == chosen_dir(existing@, subject@),
        decreases existing@.len() - i,
    {
        if name_matches(existing[i].as_str(), subject_lower.as_str()) {
            assert(existing@.skip(i as int)[0] == existing@[i as int]);
            return existing[i].clone();
        }
        assert(existing@.skip(i as int).drop_first() =~= existing@.skip(i as int + 1));
        i = i + 1;
    }
    assert(existing@.skip(i as int).len() == 0);
    subject.to_owned()
}

/// The name of a saved quiz file: the subject, an underscore, the save time
/// in seconds since the Unix epoch, and the `.json` ending.
pub open spec fn file_name_text(subject: Seq<char>, ts: int) -> Seq<char> {
    subject + "_"@ + int_rep(ts) + ".json"@
}

/// Builds the file name for a quiz saved at the given time.
pub fn file_name_for(subject: &str, ts: i64) -> (r: String)
    ensures
        r@ == file_name_text(subject@, ts as int),
{
    let mut s = subject.to_owned();
    s.append("_");
    let num = i64_to_string(ts);
    s.append(num.as_str());
    s.append(".json");
    assert(s@ =~= file_name_text(subject@, ts as int));
    s
}

/// Two saves of the same subject get the same file name exactly when they
/// fall in the same timestamp second — so distinct seconds give distinct
/// files, and within one second the later save overwrites the earlier.
pub proof fn lemma_file_names_distinct(subject: Seq<char>, ts1: int, ts2: int)
    ensures
        file_name_text(subject, ts1) == file_name_text(subject, ts2) <==> ts1 == ts2,
{
    if file_name_text(subject, ts1) == file_name_text(subject, ts2) {
        let a = int_rep(ts1);
        let b = int_rep(ts2);
        let n1 = file_name_text(subject, ts1);
        let n2 = file_name_text(subject, ts2);
        let pre = subject.len() as int + "_"@.len() as int;
        assert(n1.len() == pre + a.len() + ".json"@.len());
        assert(n2.len() == pre + b.len() + ".json"@.len());
        assert(a.len() == b.len());
        assert(a =~= n1.subrange(pre, pre + a.len() as int));
        assert(b =~= n2.subrange(pre, pre + b.len() as int));
        lemma_int_rep_injective(ts1, ts2);
    }
}

/// Everything the host needs to persist one quiz: the folder under the
/// storage root, the file name inside it, and the exact text to write.
pub struct SavePlan {
    pub directory: String,
    pub file_name: String,
    pub contents: String,
}

/// Plans a save as of a given moment: the payload is carried through
/// verbatim, the folder follows the grouping heuristic over the existing
/// folder names in scan order, and the file name carries the timestamp.
pub fn plan_save_at(subject: &str, payload: String, existing: &Vec<String>, ts: i64) -> (r:
    SavePlan)
    ensures
        r.directory@ == chosen_dir(existing@, subject@),
        r.file_name@ == file_name_text(subject@, ts as int),
        r.contents == payload,
{
    let directory = choose_target_directory(existing, subject);
    let file_name = file_name_for(subject, ts);
    SavePlan { directory, file_name, contents: payload }
}

/// Relies on chrono's `Utc::now().timestamp()`: the current time as whole
/// seconds since the Unix epoch. Nothing is assumed of the clock's reading.
#[verifier::external_body]
fn now_unix_seconds() -> i64 {
    chrono::Utc::now().timestamp()
}

/// Plans a save as of now: as `plan_save_at`, with the clock supplying the
/// timestamp second that ends up in the file name.
pub fn plan_save(subject: &str, payload: String, existing: &Vec<String>) -> (r: SavePlan)
    ensures
        r.directory@ == chosen_dir(existing@, subject@),
        exists|ts: int|
            i64::MIN <= ts <= i64::MAX && r.file_name@ == #[trigger] file_name_text(subject@, ts),
        r.contents == payload,
{
    let ts = now_unix_seconds();
    let plan = plan_save_at(subject, payload, existing, ts);
    assert(plan.file_name@ == file_name_text(subject@, ts as int));
    plan
}

} // verus!
