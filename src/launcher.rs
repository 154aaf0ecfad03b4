use vstd::prelude::*;

verus! {

/// The path `part` joined onto `base`.
pub uninterp spec fn path_joined(base: Seq<char>, part: Seq<char>) -> Seq<char>;

/// Relies on `std::path::Path::join`: `part` joined onto `base` as a further
/// path component. Both are UTF-8, so the joined path is too and reads back
/// unchanged.
#[verifier::external_body]
fn join_path(base: &str, part: &str) -> (r: String)
    ensures
        r@ == path_joined(base@, part@),
{
    std::path::Path::new(base).join(part).to_string_lossy().into_owned()
}

/// How long the launch task waits after trying to start the server, in
/// milliseconds, whatever came of the attempt. It is a fixed pause, not a
/// readiness check.
pub const WARM_UP_MILLIS: u64 = 2000;

/// The server's entry file within the resource directory `dir`:
/// `<dir>/dist/index.js`.
pub open spec fn server_entry(dir: Seq<char>) -> Seq<char> {
    path_joined(path_joined(dir, "dist"@), "index.js"@)
}

/// The process that hosts the bundled server: `program entry`, run in
/// `working_dir`.
#[derive(Debug)]
pub struct ServerLaunch {
    /// The runtime that executes the entry file.
    pub program: String,
    /// The path of the entry file, the runtime's one argument.
    pub entry: String,
    /// The working directory of the process.
    pub working_dir: String,
}

/// The server process for the bundled resources in `resource_dir`.
pub fn server_launch(resource_dir: &str) -> (r: ServerLaunch)
    ensures
        r.program@ == "node"@,
        r.entry@ == server_entry(resource_dir@),
        r.working_dir@ == resource_dir@,
{
    let dist = join_path(resource_dir, "dist");
    let entry = join_path(dist.as_str(), "index.js");
    ServerLaunch {
        program: String::from_str("node"),
        entry,
        working_dir: String::from_str(resource_dir),
    }
}

/// What the launch task does once it has tried to start the server.
#[derive(Debug)]
pub enum LaunchStep {
    /// The server started: report `notice`, then wait `millis` milliseconds
    /// before the task ends.
    WarmUp { notice: String, millis: u64 },
    /// The server did not start: report `lines` as errors, then wait `millis`
    /// milliseconds before the task ends. Nothing else follows; the
    /// application runs on without its server.
    GiveUp { lines: Vec<String>, millis: u64 },
}

/// How long the launch task waits once `step` has been reported.
pub open spec fn pause_millis(step: LaunchStep) -> u64 {
    match step {
        LaunchStep::WarmUp { millis, .. } => millis,
        LaunchStep::GiveUp { millis, .. } => millis,
    }
}

/// The text reported when the server process started.
pub open spec fn started_notice() -> Seq<char> {
    "Server started successfully"@
}

/// The lines reported when starting the server failed with `why`.
pub open spec fn is_failure_report(lines: Seq<String>, why: Seq<char>) -> bool {
    &&& lines.len() == 2
    &&& lines[0]@ == "Failed to start server: "@ + why
    &&& lines[1]@ == "Make sure Node.js is installed and in your PATH"@
}

/// The next step of the launch task, given whether the server process
/// started, or why it did not. A failure is reported and goes no further
/// than the report; either way the full warm-up pause follows.
pub fn after_spawn(spawned: Result<(), String>) -> (r: LaunchStep)
    ensures
        pause_millis(r) == WARM_UP_MILLIS,
        match spawned {
            Ok(()) => match r {
                LaunchStep::WarmUp { notice, millis } => notice@ == started_notice() && millis
                    == WARM_UP_MILLIS,
                LaunchStep::GiveUp { .. } => false,
            },
            Err(why) => match r {
                LaunchStep::GiveUp { lines, millis } => is_failure_report(lines@, why@)
                    && millis == WARM_UP_MILLIS,
                LaunchStep::WarmUp { .. } => false,
            },
        },
{
    match spawned {
        Ok(()) => LaunchStep::WarmUp {
            notice: String::from_str("Server started successfully"),
            millis: WARM_UP_MILLIS,
        },
        Err(why) => {
            let mut first = String::from_str("Failed to start server: ");
            first.append(why.as_str());
            let second = String::from_str("Make sure Node.js is installed and in your PATH");
            let lines = vec![first, second];
            LaunchStep::GiveUp { lines, millis: WARM_UP_MILLIS }
        },
    }
}

} // verus!
