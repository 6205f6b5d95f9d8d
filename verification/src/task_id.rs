//! Task identifier extraction: the identifier is the substring of the task's
//! full resource name after the last path separator. It is extracted once and
//! reused verbatim for both polling and log-stream naming.

use vstd::prelude::*;
use vstd::string::StrSliceExecFns;
use vstd::string::StringExecFns;

use crate::errors::RunError;
use crate::model::Task;

verus! {

/// The character index just after the last path separator of `s`: `s.len()`
/// when the last character is a separator, 0 when `s` holds none.
pub open spec fn suffix_start(s: Seq<char>) -> int
    decreases s.len(),
{
    if s.len() == 0 {
        0
    } else if s[s.len() - 1] == '/' {
        s.len() as int
    } else {
        suffix_start(s.drop_last())
    }
}

/// The task identifier carried by a task resource name: the substring after
/// the last path separator, or the whole name if it has none.
pub open spec fn spec_task_id(s: Seq<char>) -> Seq<char> {
    s.subrange(suffix_start(s), s.len() as int)
}

proof fn lemma_suffix_start_bounds(s: Seq<char>)
    ensures
        0 <= suffix_start(s) <= s.len(),
    decreases s.len(),
{
    if s.len() != 0 && s[s.len() - 1] != '/' {
        lemma_suffix_start_bounds(s.drop_last());
    }
}

proof fn lemma_suffix_start_push(s: Seq<char>, c: char)
    ensures
        suffix_start(s.push(c)) == if c == '/' {
            s.len() + 1int
        } else {
            suffix_start(s)
        },
{
    let t = s.push(c);
    assert(t[t.len() - 1] == c);
    if c != '/' {
        assert(t.drop_last() =~= s);
    }
}

proof fn lemma_no_separator_after_suffix_start(s: Seq<char>)
    ensures
        forall|k: int| suffix_start(s) <= k < s.len() ==> s[k] != '/',
    decreases s.len(),
{
    if s.len() != 0 && s[s.len() - 1] != '/' {
        lemma_no_separator_after_suffix_start(s.drop_last());
        lemma_suffix_start_bounds(s.drop_last());
        assert forall|k: int| suffix_start(s) <= k < s.len() implies s[k] != '/' by {
            if k < s.len() - 1 {
                assert(s.drop_last()[k] == s[k]);
            }
        }
    }
}

proof fn lemma_suffix_start_without_separator(s: Seq<char>)
    requires
        forall|k: int| 0 <= k < s.len() ==> s[k] != '/',
    ensures
        suffix_start(s) == 0,
    decreases s.len(),
{
    if s.len() != 0 {
        assert(forall|k: int| 0 <= k < s.drop_last().len() ==> s.drop_last()[k] == s[k]);
        lemma_suffix_start_without_separator(s.drop_last());
    }
}

/// Law: the extracted identifier holds no path separator.
pub proof fn lemma_task_id_no_separator(s: Seq<char>)
    ensures
        forall|k: int| 0 <= k < spec_task_id(s).len() ==> spec_task_id(s)[k] != '/',
{
    lemma_suffix_start_bounds(s);
    lemma_no_separator_after_suffix_start(s);
}

proof fn lemma_suffix_start_at_last_separator(s: Seq<char>, i: int)
    requires
        0 <= i < s.len(),
        s[i] == '/',
        forall|j: int| i < j < s.len() ==> s[j] != '/',
    ensures
        suffix_start(s) == i + 1,
    decreases s.len(),
{
    if i < s.len() - 1 {
        assert(s[s.len() - 1] != '/');
        assert(forall|k: int| 0 <= k < s.drop_last().len() ==> s.drop_last()[k] == s[k]);
        lemma_suffix_start_at_last_separator(s.drop_last(), i);
    }
}

/// Law: for a resource name whose last separator stands at position `i`, the
/// extracted identifier is exactly the substring after that position.
pub proof fn lemma_task_id_after_last_separator(s: Seq<char>, i: int)
    requires
        0 <= i < s.len(),
        s[i] == '/',
        forall|j: int| i < j < s.len() ==> s[j] != '/',
    ensures
        spec_task_id(s) == s.subrange(i + 1, s.len() as int),
{
    lemma_suffix_start_at_last_separator(s, i);
}

/// Law: extraction is idempotent: extracting again from an extracted
/// identifier returns it unchanged.
pub proof fn lemma_task_id_idempotent(s: Seq<char>)
    ensures
        spec_task_id(spec_task_id(s)) == spec_task_id(s),
{
    let t = spec_task_id(s);
    lemma_task_id_no_separator(s);
    lemma_suffix_start_without_separator(t);
    assert(t.subrange(0, t.len() as int) =~= t);
}

/// Extracts the task identifier from a task resource name: the substring
/// after the last `/`, or the whole name if it holds none.
pub fn extract_task_id(arn: &str) -> (r: String)
    ensures
        r@ == spec_task_id(arn@),
{
    let len = arn.unicode_len();
    let mut start: usize = 0;
    let mut i: usize = 0;
    while i < len
        invariant
            i <= len,
            len == arn@.len(),
            start <= i,
            start == suffix_start(arn@.subrange(0, i as int)),
        decreases len - i,
    {
        let c = arn.get_char(i);
        proof {
            let prefix = arn@.subrange(0, i as int);
            assert(arn@.subrange(0, i as int + 1) =~= prefix.push(arn@[i as int]));
            lemma_suffix_start_push(prefix, arn@[i as int]);
            lemma_suffix_start_bounds(prefix);
        }
        if c == '/' {
            start = i + 1;
        }
        i += 1;
    }
    proof {
        assert(arn@.subrange(0, len as int) =~= arn@);
    }
    String::from_str(arn.substring_char(start, len))
}

/// The identifier of a started task, from its full resource name. A task
/// handed back without a resource name is an unexpected upstream answer.
pub fn task_id_of(task: &Task) -> (r: Result<String, RunError>)
    ensures
        match r {
            Result::Ok(id) => task.task_arn matches Option::Some(arn) && id@ == spec_task_id(
                arn@,
            ),
            Result::Err(e) => task.task_arn is None && (e matches RunError::UnexpectedEmptyResult {
                what,
            } && what@ == "task resource name"@),
        },
{
    match &task.task_arn {
        Option::Some(arn) => Result::Ok(extract_task_id(arn.as_str())),
        Option::None => Result::Err(
            RunError::UnexpectedEmptyResult { what: String::from_str("task resource name") },
        ),
    }
}

} // verus!
