use vstd::prelude::*;

verus! {

/// Script that starts the local transcription service, among the bundled resources.
pub const SIDECAR_SCRIPT: &'static str = "run_stt_service.bat";

/// Directory, relative to the project root, in which the service script runs.
pub const SIDECAR_WORKING_DIR: &'static str = "packages/stt/src";

/// Why the transcription service was not started.
pub enum LaunchError {
    WorkingDirMissing,
    WorkingDirNotDirectory,
    SpawnFailed { detail: String },
}

/// The launch goes ahead only in a working directory that exists and is a
/// directory.
pub fn check_working_dir(exists: bool, is_dir: bool) -> (r: Result<(), LaunchError>)
    ensures
        !exists ==> r matches Err(LaunchError::WorkingDirMissing),
        exists && !is_dir ==> r matches Err(LaunchError::WorkingDirNotDirectory),
        exists && is_dir ==> r is Ok,
{
    if !exists {
        Err(LaunchError::WorkingDirMissing)
    } else if !is_dir {
        Err(LaunchError::WorkingDirNotDirectory)
    } else {
        Ok(())
    }
}

/// The extended-length prefix that Windows puts before canonical paths.
pub open spec fn extended_prefix() -> Seq<char> {
    seq!['\\', '\\', '?', '\\']
}

/// `path` with every leading extended-length prefix removed, so that a command
/// shell accepts it.
pub open spec fn shell_form(path: Seq<char>) -> Seq<char>
    decreases path.len(),
{
    if path.len() >= 4 && path.take(4) == extended_prefix() {
        shell_form(path.skip(4))
    } else {
        path
    }
}

/// Whether `s` holds the extended-length prefix at position `i`.
fn prefix_at(s: &str, i: usize, n: usize) -> (r: bool)
    requires
        n == s@.len(),
        i <= n,
    ensures
        r == (n - i >= 4 && s@.skip(i as int).take(4) == extended_prefix()),
{
    if n - i < 4 {
        return false;
    }
    let r = s.get_char(i) == '\\' && s.get_char(i + 1) == '\\' && s.get_char(i + 2) == '?'
        && s.get_char(i + 3) == '\\';
    proof {
        if r {
            assert(s@.skip(i as int).take(4) =~= extended_prefix());
        } else {
            if s@.skip(i as int).take(4) == extended_prefix() {
                assert(s@.skip(i as int).take(4)[0] == s@[i as int]);
                assert(s@.skip(i as int).take(4)[1] == s@[i + 1]);
                assert(s@.skip(i as int).take(4)[2] == s@[i + 2]);
                assert(s@.skip(i as int).take(4)[3] == s@[i + 3]);
            }
        }
    }
    r
}

/// The form of `path` that is handed to the command shell: leading
/// extended-length prefixes removed, the rest unchanged.
pub fn shell_path(path: &str) -> (r: String)
    ensures
        r@ == shell_form(path@),
{
    let n = path.unicode_len();
    let mut i: usize = 0;
    proof {
        assert(path@.skip(0) =~= path@);
    }
    while prefix_at(path, i, n)
        invariant
            n == path@.len(),
            i <= n,
            shell_form(path@) == shell_form(path@.skip(i as int)),
        decreases n - i,
    {
        proof {
            assert(path@.skip(i as int).skip(4) =~= path@.skip(i + 4));
        }
        i = i + 4;
    }
    proof {
        assert(path@.skip(i as int) =~= path@.subrange(i as int, n as int));
    }
    String::from_str(path.substring_char(i, n))
}

} // verus!
