//! The health check (`doctor`): the verdict of each check, the tamper
//! detection of model files by their SHA-256 digest, and the exit code.

use vstd::prelude::*;
use crate::json::{JsonValue, get_spec, as_str_spec};
use crate::export::{path_buf_from, path_from_text};

verus! {

/// The verdict of one check.
#[derive(Debug, Clone, Copy, PartialEq, Eq, Structural)]
pub enum CheckStatus {
    Pass,
    Warn,
    Fail,
}

/// The model file that a registry entry's capabilities name for tamper
/// detection: the text members `weights_path` and `sha256`, where both are there.
pub open spec fn configured_model_file_spec(capabilities: JsonValue) -> Option<(Seq<char>, Seq<char>)> {
    let path = as_str_spec(get_spec(capabilities, "weights_path"@));
    let sha = as_str_spec(get_spec(capabilities, "sha256"@));
    if path is Some && sha is Some {
        Some((path.unwrap(), sha.unwrap()))
    } else {
        None
    }
}

/// The weights file and its expected SHA-256 hex digest that a model's
/// capabilities configure; `None` where either member is missing or is no
/// string, and such a model is not checked.
pub fn configured_model_file(capabilities: &JsonValue) -> (res: Option<(std::path::PathBuf, String)>)
    ensures
        match configured_model_file_spec(*capabilities) {
            Some((path, sha)) => res matches Some((p, s)) && p == path_from_text(path) && s@ == sha,
            None => res is None,
        },
{
    let path = capabilities.get("weights_path")?.as_str()?;
    let sha = capabilities.get("sha256")?.as_str()?;
    Some((path_buf_from(path.to_owned()), sha.to_owned()))
}

/// SQLite's `PRAGMA quick_check`: passes only where it returned the text `ok`
/// (`None` where the query itself failed).
pub fn quick_check_status(result: Option<&str>) -> (status: CheckStatus)
    ensures
        (status == CheckStatus::Pass) == (result matches Some(s) && s@ == "ok"@),
        status != CheckStatus::Pass ==> status == CheckStatus::Fail,
{
    match result {
        Some(s) => {
            let got = s.to_owned();
            let ok = "ok".to_owned();
            proof {
                reveal_strlit("ok");
            }
            if got == ok {
                CheckStatus::Pass
            } else {
                CheckStatus::Fail
            }
        },
        None => CheckStatus::Fail,
    }
}

/// The keystore check: initialized passes, missing warns, an error fails.
pub fn keystore_status(initialized: Option<bool>) -> (status: CheckStatus)
    ensures
        status == match initialized {
            Some(true) => CheckStatus::Pass,
            Some(false) => CheckStatus::Warn,
            None => CheckStatus::Fail,
        },
{
    match initialized {
        Some(true) => CheckStatus::Pass,
        Some(false) => CheckStatus::Warn,
        None => CheckStatus::Fail,
    }
}

/// Tamper detection of a configured model file: it passes only where the file
/// exists and its SHA-256 hex digest (`None` where it could not be read)
/// equals the expected one; anything else fails.
pub fn model_file_status(file_exists: bool, actual_sha256: Option<&str>, expected_sha256: &str) -> (status: CheckStatus)
    ensures
        (status == CheckStatus::Pass) == (file_exists && (actual_sha256 matches Some(a) && a@ == expected_sha256@)),
        status != CheckStatus::Pass ==> status == CheckStatus::Fail,
{
    if !file_exists {
        return CheckStatus::Fail;
    }
    match actual_sha256 {
        Some(a) => {
            let actual = a.to_owned();
            let expected = expected_sha256.to_owned();
            if actual == expected {
                CheckStatus::Pass
            } else {
                CheckStatus::Fail
            }
        },
        None => CheckStatus::Fail,
    }
}

/// How many of the checks did not pass.
pub open spec fn problems_spec(statuses: Seq<CheckStatus>) -> nat
    decreases statuses.len(),
{
    if statuses.len() == 0 {
        0
    } else {
        problems_spec(statuses.drop_last()) + if statuses.last() == CheckStatus::Pass {
            0nat
        } else {
            1nat
        }
    }
}

/// The number of problems among the check verdicts (a warning counts as one).
pub fn count_problems(statuses: &Vec<CheckStatus>) -> (n: usize)
    ensures
        n == problems_spec(statuses@),
        n == statuses@.filter(|c: CheckStatus| c != CheckStatus::Pass).len(),
        n <= statuses@.len(),
{
    let len = statuses.len();
    let mut n: usize = 0;
    let mut i: usize = 0;
    while i < len
        invariant
            len == statuses@.len(),
            i <= len,
            n <= i,
            n == problems_spec(statuses@.take(i as int)),
        decreases len - i,
    {
        assert(statuses@.take(i + 1).drop_last() =~= statuses@.take(i as int));
        if statuses[i] != CheckStatus::Pass {
            n = n + 1;
        }
        i = i + 1;
    }
    assert(statuses@.take(len as int) =~= statuses@);
    proof {
        lemma_problems_are_the_failed_checks(statuses@);
    }
    n
}

/// Every check that does not pass is one problem, wherever it stands and
/// whatever stands next to it: no problems among no checks, and one more
/// check adds one problem exactly when it does not pass.
pub proof fn lemma_each_failed_check_counts(statuses: Seq<CheckStatus>, next: CheckStatus)
    ensures
        problems_spec(Seq::<CheckStatus>::empty()) == 0,
        problems_spec(statuses.push(next)) == problems_spec(statuses) + if next == CheckStatus::Pass {
            0int
        } else {
            1int
        },
{
    assert(statuses.push(next).drop_last() =~= statuses);
}

/// The number of problems is the number of checks that did not pass.
pub proof fn lemma_problems_are_the_failed_checks(statuses: Seq<CheckStatus>)
    ensures
        problems_spec(statuses) == statuses.filter(|c: CheckStatus| c != CheckStatus::Pass).len(),
        problems_spec(statuses) <= statuses.len(),
    decreases statuses.len(),
{
    reveal_with_fuel(Seq::<CheckStatus>::filter, 1);
    if statuses.len() > 0 {
        lemma_problems_are_the_failed_checks(statuses.drop_last());
    }
}

/// The exit code of the health check: 1 where there were problems, else 0.
pub fn doctor_exit_code(problems: usize) -> (code: i32)
    ensures
        code == if problems > 0 { 1i32 } else { 0i32 },
{
    if problems > 0 {
        1
    } else {
        0
    }
}

/// The health check succeeds exactly when every check passed.
pub proof fn lemma_doctor_succeeds_iff_all_pass(statuses: Seq<CheckStatus>)
    ensures
        (problems_spec(statuses) == 0) <==> (forall|i: int| 0 <= i < statuses.len() ==> #[trigger] statuses[i] == CheckStatus::Pass),
    decreases statuses.len(),
{
    if statuses.len() > 0 {
        let init = statuses.drop_last();
        lemma_doctor_succeeds_iff_all_pass(init);
        if problems_spec(statuses) == 0 {
            assert forall|i: int| 0 <= i < statuses.len() implies #[trigger] statuses[i] == CheckStatus::Pass by {
                if i < statuses.len() - 1 {
                    assert(init[i] == statuses[i]);
                }
            }
        } else if forall|i: int| 0 <= i < statuses.len() ==> #[trigger] statuses[i] == CheckStatus::Pass {
            assert(statuses[statuses.len() - 1] == CheckStatus::Pass);
            assert forall|i: int| 0 <= i < init.len() implies #[trigger] init[i] == CheckStatus::Pass by {
                assert(statuses[i] == CheckStatus::Pass);
            }
        }
    }
}

} // verus!
