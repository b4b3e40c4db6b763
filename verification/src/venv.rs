//! Python virtual-environment activation for newly created terminals: the
//! pure part of finding and running an activation script. Which candidate
//! paths to probe and what command to type are computed and specified here;
//! probing the file system and feeding the command to the terminal belong
//! to the surrounding platform code.

use vstd::prelude::*;
use crate::bytes::{append_bytes, clone_bytes};

verus! {

/// Which activation script flavour the configured shell needs.
#[derive(Debug, Clone, Copy, PartialEq, Eq, Structural)]
pub enum ActivateScript {
    /// The plain `activate` script of POSIX shells.
    Sh,
    /// `activate.csh`.
    Csh,
    /// `activate.fish`.
    Fish,
    /// `activate.nu`.
    Nushell,
}

/// Virtual-environment detection settings: which directory names may hold
/// an environment, and which script flavour to source.
#[derive(Debug, Clone, PartialEq, Eq)]
pub struct VenvSettings {
    pub activate_script: ActivateScript,
    pub directories: Vec<Vec<u8>>,
}

/// The file name of the activation script for each flavour.
pub open spec fn script_file_name(s: ActivateScript) -> Seq<u8> {
    // ASCII "activate"
    let base: Seq<u8> = seq![97, 99, 116, 105, 118, 97, 116, 101];
    match s {
        ActivateScript::Sh => base,
        ActivateScript::Csh => base + seq![46, 99, 115, 104],  // ".csh"
        ActivateScript::Fish => base + seq![46, 102, 105, 115, 104],  // ".fish"
        ActivateScript::Nushell => base + seq![46, 110, 117],  // ".nu"
    }
}

/// A terminal whose working directory could not be resolved starts in the
/// file-system root, so candidate paths are anchored there too.
pub open spec fn resolved_working_directory(wd: Option<Seq<u8>>) -> Seq<u8> {
    match wd {
        Some(w) => w,
        None => seq![47],  // "/"
    }
}

/// The path probed for one candidate environment directory:
/// `<working directory>/<directory>/bin/<script file name>`.
pub open spec fn candidate_path(wd: Seq<u8>, dir: Seq<u8>, s: ActivateScript) -> Seq<u8> {
    wd + seq![47] + dir + seq![47, 98, 105, 110, 47] + script_file_name(s)  // "/", "/bin/"
}

/// The bytes typed into the terminal to activate an environment:
/// `source <script path>` followed by a newline. Paths are not strings, so
/// the command is assembled byte by byte.
pub open spec fn activation_command_bytes(script: Seq<u8>) -> Seq<u8> {
    seq![115, 111, 117, 114, 99, 101, 32] + script + seq![10]  // "source ", "\n"
}

/// The activation script's file name for the configured flavour.
pub fn activate_script_name(s: ActivateScript) -> (r: Vec<u8>)
    ensures
        r@ == script_file_name(s),
{
    // ASCII "activate"
    let mut r: Vec<u8> = vec![97, 99, 116, 105, 118, 97, 116, 101];
    match s {
        ActivateScript::Sh => {},
        ActivateScript::Csh => {
            append_bytes(&mut r, &[46, 99, 115, 104]);
        },
        ActivateScript::Fish => {
            append_bytes(&mut r, &[46, 102, 105, 115, 104]);
        },
        ActivateScript::Nushell => {
            append_bytes(&mut r, &[46, 110, 117]);
        },
    }
    proof {
        assert(r@ =~= script_file_name(s));
    }
    r
}

/// Every path worth probing for an activation script, one per configured
/// environment directory, in the configured order. The caller checks which
/// of them exists; that is the only part of the search this crate cannot
/// decide.
pub fn activate_script_candidates(
    settings: &VenvSettings,
    working_directory: Option<&Vec<u8>>,
) -> (r: Vec<Vec<u8>>)
    ensures
        r@.len() == settings.directories@.len(),
        forall|i: int|
            #![trigger r@[i]]
            0 <= i < r@.len() ==> r@[i]@ == candidate_path(
                resolved_working_directory(
                    match working_directory {
                        Some(w) => Some(w@),
                        None => None,
                    },
                ),
                settings.directories@[i]@,
                settings.activate_script,
            ),
{
    let wd: Vec<u8> = match working_directory {
        Some(w) => clone_bytes(w),
        None => vec![47],
    };
    let name = activate_script_name(settings.activate_script);
    let n: usize = settings.directories.len();
    let mut r: Vec<Vec<u8>> = Vec::new();
    let mut i: usize = 0;
    while i < n
        invariant
            n == settings.directories@.len(),
            i <= n,
            r@.len() == i as int,
            wd@ == resolved_working_directory(
                match working_directory {
                    Some(w) => Some(w@),
                    None => None,
                },
            ),
            name@ == script_file_name(settings.activate_script),
            forall|m: int|
                #![trigger r@[m]]
                0 <= m < i ==> r@[m]@ == candidate_path(
                    wd@,
                    settings.directories@[m]@,
                    settings.activate_script,
                ),
        decreases n - i,
    {
        let mut path = clone_bytes(&wd);
        path.push(47);
        append_bytes(&mut path, settings.directories[i].as_slice());
        append_bytes(&mut path, &[47, 98, 105, 110, 47]);
        append_bytes(&mut path, name.as_slice());
        proof {
            assert(path@ =~= candidate_path(
                wd@,
                settings.directories@[i as int]@,
                settings.activate_script,
            ));
        }
        r.push(path);
        i = i + 1;
    }
    r
}

/// The command fed to a terminal to source one activation script.
pub fn activation_command(activate_script: &Vec<u8>) -> (r: Vec<u8>)
    ensures
        r@ == activation_command_bytes(activate_script@),
{
    // ASCII "source "
    let mut r: Vec<u8> = vec![115, 111, 117, 114, 99, 101, 32];
    append_bytes(&mut r, activate_script.as_slice());
    r.push(10);
    proof {
        assert(r@ =~= activation_command_bytes(activate_script@));
    }
    r
}

} // verus!
