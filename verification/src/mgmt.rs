//! Managing the kernel driver's service: the service-control commands the
//! agent runs, how it reads their output, and where it finds the driver.

use vstd::prelude::*;

use crate::client_view::{contains_text, text_contains};
use crate::text::{chars_of, string_from_chars};

verus! {

/// The name of the driver's service.
pub const DRIVER_SERVICE_NAME: &'static str = "Galatea";

/// The driver file, relative to the agent's directory.
pub const DRIVER_FILE_NAME: &'static str = "driver.sys";

/// `sc`, a verb and a service name, separated by spaces.
pub open spec fn sc_command(verb: Seq<char>, name: Seq<char>) -> Seq<char> {
    "sc "@ + verb + " "@ + name
}

/// Concatenates texts.
fn concat(parts: &Vec<&str>) -> (r: String)
    ensures
        r@ == parts@.fold_left(Seq::<char>::empty(), |acc: Seq<char>, p: &str| acc + p@),
{
    let mut out: Vec<char> = Vec::new();
    let mut i: usize = 0;
    while i < parts.len()
        invariant
            0 <= i <= parts@.len(),
            out@ == parts@.subrange(0, i as int).fold_left(
                Seq::<char>::empty(),
                |acc: Seq<char>, p: &str| acc + p@,
            ),
        decreases parts@.len() - i,
    {
        let mut piece = chars_of(parts[i]);
        let ghost before = parts@.subrange(0, i as int);
        let ghost after = parts@.subrange(0, i + 1);
        assert(after.drop_last() =~= before);
        out.append(&mut piece);
        i = i + 1;
    }
    assert(parts@.subrange(0, parts@.len() as int) =~= parts@);
    string_from_chars(&out)
}

/// The command that queries a service.
pub fn query_command(name: &str) -> (r: String)
    ensures
        r@ == sc_command("query"@, name@),
{
    let parts: Vec<&str> = vec!["sc ", "query", " ", name];
    let r = concat(&parts);
    assert(r@ =~= sc_command("query"@, name@)) by {
        reveal_with_fuel(Seq::fold_left, 5);
    }
    r
}

/// The command that starts a service.
pub fn start_command(name: &str) -> (r: String)
    ensures
        r@ == sc_command("start"@, name@),
{
    let parts: Vec<&str> = vec!["sc ", "start", " ", name];
    let r = concat(&parts);
    assert(r@ =~= sc_command("start"@, name@)) by {
        reveal_with_fuel(Seq::fold_left, 5);
    }
    r
}

/// The command that stops a service.
pub fn stop_command(name: &str) -> (r: String)
    ensures
        r@ == sc_command("stop"@, name@),
{
    let parts: Vec<&str> = vec!["sc ", "stop", " ", name];
    let r = concat(&parts);
    assert(r@ =~= sc_command("stop"@, name@)) by {
        reveal_with_fuel(Seq::fold_left, 5);
    }
    r
}

/// The command that deletes a service.
pub fn delete_command(name: &str) -> (r: String)
    ensures
        r@ == sc_command("delete"@, name@),
{
    let parts: Vec<&str> = vec!["sc ", "delete", " ", name];
    let r = concat(&parts);
    assert(r@ =~= sc_command("delete"@, name@)) by {
        reveal_with_fuel(Seq::fold_left, 5);
    }
    r
}

/// The command that installs a kernel driver as a service.
pub open spec fn create_command_text(name: Seq<char>, path: Seq<char>) -> Seq<char> {
    "sc create "@ + name + " type= kernel binPath= \""@ + path + "\""@
}

/// The command that installs a kernel driver as a service.
pub fn create_command(name: &str, path: &str) -> (r: String)
    ensures
        r@ == create_command_text(name@, path@),
{
    let parts: Vec<&str> = vec!["sc create ", name, " type= kernel binPath= \"", path, "\""];
    let r = concat(&parts);
    assert(r@ =~= create_command_text(name@, path@)) by {
        reveal_with_fuel(Seq::fold_left, 6);
    }
    r
}

/// Whether the output of a service query says the service runs.
pub fn is_running_output(output: &str) -> (r: bool)
    ensures
        r == contains_text(output@, "RUNNING"@),
{
    text_contains(&chars_of(output), &chars_of("RUNNING"))
}

/// The commands that take the driver down when the agent stops: stop its
/// service, then delete it. Their failures are ignored.
pub fn cleanup() -> (r: Vec<String>)
    ensures
        r@.len() == 2,
        r@[0]@ == sc_command("stop"@, DRIVER_SERVICE_NAME@),
        r@[1]@ == sc_command("delete"@, DRIVER_SERVICE_NAME@),
{
    let mut r: Vec<String> = Vec::new();
    r.push(stop_command(DRIVER_SERVICE_NAME));
    r.push(delete_command(DRIVER_SERVICE_NAME));
    r
}

/// The error given when the driver file is missing.
pub open spec fn missing_driver_text() -> Seq<char> {
    "Could not locate '"@ + DRIVER_FILE_NAME@ + "'. Checked local dir and target/dist."@
}

/// The driver file to load: the candidate in the agent's directory when it
/// exists, else an error naming the missing file.
pub fn resolve_driver_path(candidate: String, exists: bool) -> (r: Result<String, String>)
    ensures
        match r {
            Ok(p) => exists && p@ == candidate@,
            Err(e) => !exists && e@ == missing_driver_text(),
        },
{
    if exists {
        return Ok(candidate);
    }
    let parts: Vec<&str> = vec!["Could not locate '", DRIVER_FILE_NAME, "'. Checked local dir and target/dist."];
    let e = concat(&parts);
    assert(e@ =~= missing_driver_text()) by {
        reveal_with_fuel(Seq::fold_left, 4);
    }
    Err(e)
}

/// The address at which the agent registers with the management server.
pub fn registration_url(server_uri: &str) -> (r: String)
    ensures
        r@ == server_uri@ + "/api/v1/agents/register"@,
{
    let parts: Vec<&str> = vec![server_uri, "/api/v1/agents/register"];
    let r = concat(&parts);
    assert(r@ =~= server_uri@ + "/api/v1/agents/register"@) by {
        reveal_with_fuel(Seq::fold_left, 3);
    }
    r
}

} // verus!
