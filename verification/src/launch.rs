use vstd::prelude::*;

use crate::errors::TaskError;
use crate::jsonio::str_eq;
use crate::numfmt::dec_int;
use crate::numfmt::i32_to_dec;

verus! {

/// The names of the bundled worker executables.
pub open spec fn registered_workers() -> Set<Seq<char>> {
    set!["seasonality"@, "cot_data"@]
}

/// An immutable descriptor of one worker invocation: which bundled
/// executable to launch and the ordered argument list to hand it.
#[derive(Debug)]
pub struct WorkerSpec {
    pub name: String,
    pub args: Vec<String>,
}

/// Everything one invocation asks of the process layer: first make the
/// parent directory of the destination file exist, if there is one (creating
/// it is idempotent; a pre-existing directory is not an error), then start
/// the described worker.
#[derive(Debug)]
pub struct TaskPlan {
    pub ensure_parent_of: Option<String>,
    pub command: WorkerSpec,
}

/// Whether a worker name resolves to a bundled executable.
pub fn worker_registered(name: &str) -> (r: bool)
    ensures
        r == registered_workers().contains(name@),
{
    str_eq(name, "seasonality") || str_eq(name, "cot_data")
}

/// The Process Launcher's resolution step: a name outside the registry fails
/// with `WorkerNotFound`, and no process is to be started for it.
pub fn resolve_worker(name: &str) -> (r: Result<(), TaskError>)
    ensures
        r is Ok <==> registered_workers().contains(name@),
        r matches Err(e) ==> e matches TaskError::WorkerNotFound { name: n } && n@ == name@,
{
    if worker_registered(name) {
        Ok(())
    } else {
        Err(TaskError::WorkerNotFound { name: name.to_owned() })
    }
}

/// The argument vector of a `fetch` run.
pub open spec fn fetch_args(symbol: Seq<char>, file: Seq<char>) -> Seq<Seq<char>> {
    seq!["fetch"@, "--symbol"@, symbol, "--file"@, file]
}

/// The argument vector of a `calculate` run; `flag` names the year argument.
pub open spec fn calculate_args(file: Seq<char>, flag: Seq<char>, value: int) -> Seq<Seq<char>> {
    seq!["calculate"@, "--file"@, file, flag, dec_int(value)]
}

/// The plan of a time-series fetch: run the seasonality worker with
/// `fetch --symbol <symbol> --file <file_path>`, after making sure the
/// destination file's parent directory exists.
pub fn fetch_data_plan(symbol: &str, file_path: &str) -> (p: TaskPlan)
    ensures
        p.command.name@ == "seasonality"@,
        registered_workers().contains(p.command.name@),
        p.command.args.deep_view() == fetch_args(symbol@, file_path@),
        p.ensure_parent_of matches Some(f) && f@ == file_path@,
{
    let mut args: Vec<String> = Vec::new();
    args.push("fetch".to_owned());
    args.push("--symbol".to_owned());
    args.push(symbol.to_owned());
    args.push("--file".to_owned());
    args.push(file_path.to_owned());
    assert(args.deep_view() =~~= fetch_args(symbol@, file_path@));
    TaskPlan {
        ensure_parent_of: Some(file_path.to_owned()),
        command: WorkerSpec { name: "seasonality".to_owned(), args },
    }
}

/// The plan of a seasonality calculation: run the seasonality worker with
/// `calculate --file <file_path> --year <year>`. No file is written at a new
/// path, so no directory needs creating.
pub fn calculate_seasonality_plan(file_path: &str, year: i32) -> (p: TaskPlan)
    ensures
        p.command.name@ == "seasonality"@,
        registered_workers().contains(p.command.name@),
        p.command.args.deep_view() == calculate_args(file_path@, "--year"@, year as int),
        p.ensure_parent_of is None,
{
    let mut args: Vec<String> = Vec::new();
    args.push("calculate".to_owned());
    args.push("--file".to_owned());
    args.push(file_path.to_owned());
    args.push("--year".to_owned());
    args.push(i32_to_dec(year));
    assert(args.deep_view() =~~= calculate_args(file_path@, "--year"@, year as int));
    TaskPlan {
        ensure_parent_of: None,
        command: WorkerSpec { name: "seasonality".to_owned(), args },
    }
}

/// The plan of a Commitment-of-Traders fetch: run the cot_data worker with
/// `fetch --symbol <symbol> --file <file_path>`, after making sure the
/// destination file's parent directory exists.
pub fn fetch_cot_data_plan(symbol: &str, file_path: &str) -> (p: TaskPlan)
    ensures
        p.command.name@ == "cot_data"@,
        registered_workers().contains(p.command.name@),
        p.command.args.deep_view() == fetch_args(symbol@, file_path@),
        p.ensure_parent_of matches Some(f) && f@ == file_path@,
{
    let mut args: Vec<String> = Vec::new();
    args.push("fetch".to_owned());
    args.push("--symbol".to_owned());
    args.push(symbol.to_owned());
    args.push("--file".to_owned());
    args.push(file_path.to_owned());
    assert(args.deep_view() =~~= fetch_args(symbol@, file_path@));
    TaskPlan {
        ensure_parent_of: Some(file_path.to_owned()),
        command: WorkerSpec { name: "cot_data".to_owned(), args },
    }
}

/// The plan of a Commitment-of-Traders calculation: run the cot_data worker
/// with `calculate --file <file_path> --years <years>`.
pub fn calculate_cot_metrics_plan(file_path: &str, years: i32) -> (p: TaskPlan)
    ensures
        p.command.name@ == "cot_data"@,
        registered_workers().contains(p.command.name@),
        p.command.args.deep_view() == calculate_args(file_path@, "--years"@, years as int),
        p.ensure_parent_of is None,
{
    let mut args: Vec<String> = Vec::new();
    args.push("calculate".to_owned());
    args.push("--file".to_owned());
    args.push(file_path.to_owned());
    args.push("--years".to_owned());
    args.push(i32_to_dec(years));
    assert(args.deep_view() =~~= calculate_args(file_path@, "--years"@, years as int));
    TaskPlan {
        ensure_parent_of: None,
        command: WorkerSpec { name: "cot_data".to_owned(), args },
    }
}

} // verus!
