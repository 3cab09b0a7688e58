use vstd::prelude::*;

verus! {

/// The error text reported for a process that ended unsuccessfully.
pub open spec fn command_failure_text(status: Seq<char>, stderr: Seq<char>) -> Seq<char> {
    "Command failed with exit code "@ + status + ": "@ + stderr
}

/// Decides what running a command amounts to once the process has ended:
/// on success the captured standard output, otherwise an error built from
/// the exit status text and the captured standard error. The caller runs the
/// process and hands the pieces in as plain values.
pub fn command_outcome(success: bool, status_text: &str, stdout: String, stderr: &str) -> (r:
    Result<String, String>)
    ensures
        success ==> (r matches Ok(s) && s@ == stdout@),
        !success ==> (r matches Err(e) && e@ == command_failure_text(status_text@, stderr@)),
{
    if success {
        Ok(stdout)
    } else {
        let mut m = String::new();
        m.append("Command failed with exit code ");
        m.append(status_text);
        m.append(": ");
        m.append(stderr);
        proof {
            let a = "Command failed with exit code "@;
            assert((Seq::<char>::empty() + a) =~= a);
            assert(((a + status_text@) + ": "@) + stderr@ =~= command_failure_text(
                status_text@,
                stderr@,
            ));
        }
        Err(m)
    }
}

} // verus!
