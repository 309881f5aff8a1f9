use vstd::prelude::*;
use vstd::string::StringExecFns;

use crate::chars::{chars_eq_str, str_to_chars};

verus! {

/// How the asynchronous runtime is to be built.
#[derive(Debug, PartialEq, Eq)]
pub enum RuntimePlan {
    /// A runtime running everything on the current thread.
    CurrentThread,
    /// A runtime with a pool of worker threads.
    MultiThread {
        /// The stack size of each thread, in bytes.
        stack_bytes: usize,
        /// The number of worker threads, where one is asked for.
        worker_threads: Option<usize>,
        /// The limit of the blocking pool, where one is asked for.
        max_blocking_threads: Option<usize>,
        /// The number of worker threads reported: the one asked for, or the machine's
        /// parallelism, or 4 where that is unknown.
        reported_workers: usize,
        /// The blocking pool limit reported: the one asked for, or 512.
        reported_blocking: usize,
    },
}

/// Decides how to build the runtime from the command line's settings; `available` is the
/// machine's parallelism, where known.
pub fn build_runtime_plan(
    current_thread: bool,
    worker_threads: Option<usize>,
    max_blocking_threads: Option<usize>,
    thread_stack_mb: usize,
    available: Option<usize>,
) -> (r: RuntimePlan)
    requires
        !current_thread ==> thread_stack_mb * 1024 * 1024 <= usize::MAX,
    ensures
        current_thread ==> r == RuntimePlan::CurrentThread,
        !current_thread ==> r == (RuntimePlan::MultiThread {
            stack_bytes: (thread_stack_mb * 1024 * 1024) as usize,
            worker_threads,
            max_blocking_threads,
            reported_workers: match worker_threads {
                Some(n) => n,
                None => match available {
                    Some(a) => a,
                    None => 4,
                },
            },
            reported_blocking: match max_blocking_threads {
                Some(n) => n,
                None => 512,
            },
        }),
{
    if current_thread {
        return RuntimePlan::CurrentThread;
    }
    let workers = match worker_threads {
        Some(n) => n,
        None => match available {
            Some(a) => a,
            None => 4,
        },
    };
    let blocking = match max_blocking_threads {
        Some(n) => n,
        None => 512,
    };
    RuntimePlan::MultiThread {
        stack_bytes: thread_stack_mb * 1024 * 1024,
        worker_threads,
        max_blocking_threads,
        reported_workers: workers,
        reported_blocking: blocking,
    }
}

/// Where processed images go.
#[derive(Debug, PartialEq, Eq)]
pub enum UploaderPlan {
    /// Into an S3 bucket in `region`, through `endpoint` (path-style addressing) where one is
    /// given.
    S3 { region: String, endpoint: Option<String> },
    /// Into the directory `base_path`.
    Fs { base_path: String },
}

/// The directory for output files: the setting, or the current directory.
pub fn output_dir(setting: Option<String>) -> (r: String)
    ensures
        match setting {
            Some(s) => r@ == s@,
            None => r@ == "."@,
        },
{
    match setting {
        Some(s) => s,
        None => String::from_str("."),
    }
}

/// Chooses the uploader from the settings `MYME_UPLOADER`, `S3_REGION`, `S3_ENDPOINT` and
/// `MYME_FILES_PATH`: S3 exactly when the uploader setting is `s3` (region `us-east-1`
/// unless set), the file system otherwise.
pub fn build_uploader_plan(
    uploader: Option<String>,
    region: Option<String>,
    endpoint: Option<String>,
    files_path: Option<String>,
) -> (r: UploaderPlan)
    ensures
        (uploader matches Some(u) && u@ == "s3"@) ==> (r matches UploaderPlan::S3 { region: g, endpoint: e }
            && e == endpoint && match region {
            Some(x) => g@ == x@,
            None => g@ == "us-east-1"@,
        }),
        !(uploader matches Some(u) && u@ == "s3"@) ==> (r matches UploaderPlan::Fs { base_path: b }
            && match files_path {
            Some(x) => b@ == x@,
            None => b@ == "."@,
        }),
{
    let is_s3 = match &uploader {
        Some(u) => chars_eq_str(&str_to_chars(u.as_str()), "s3"),
        None => false,
    };
    if is_s3 {
        let region = match region {
            Some(x) => x,
            None => String::from_str("us-east-1"),
        };
        UploaderPlan::S3 { region, endpoint }
    } else {
        UploaderPlan::Fs { base_path: output_dir(files_path) }
    }
}

} // verus!
