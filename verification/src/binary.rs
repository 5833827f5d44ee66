//! The program file of the host: where it is launched from, and whether a
//! newer one has taken its place.

use vstd::prelude::*;

use vstd::utf8::encode_utf8;

use crate::notebook::lemma_normal_names;
use crate::path::{
    LocalPath, components, law_root_paths, normal_names_of, plain_names, root_path, same_bytes,
    text_bytes,
};
use crate::text::concat;

verus! {

/// What a program file is told apart by.
#[derive(Clone, Copy, Debug, PartialEq, Eq, Structural)]
pub struct BinaryFingerprint {
    pub length_bytes: u64,
    pub modified_unix_nanos: u128,
}

/// The program file of a running host.
pub struct BinaryRuntime {
    pub path: LocalPath,
    /// What the file was told apart by when the host started.
    pub startup_fingerprint: BinaryFingerprint,
    pub launch_path_stable: bool,
}

/// No directory in the path is one that builds are written to.
pub open spec fn stable_launch_path(path: Seq<u8>) -> bool {
    !normal_names_of(components(path)).contains(encode_utf8("target"@))
}

/// The fingerprint of a file of this length, from the time since the Unix
/// epoch at which it was last written, or from why that is not known.
pub fn fingerprint_binary(length_bytes: u64, modified: Result<u128, String>) -> (fingerprint: Result<
    BinaryFingerprint,
    String,
>)
    ensures
        match modified {
            Ok(nanos) => fingerprint == Ok::<BinaryFingerprint, String>(
                BinaryFingerprint { length_bytes, modified_unix_nanos: nanos },
            ),
            Err(detail) => fingerprint matches Err(error) && error@ == "invalid binary mtime: "@
                + detail@,
        },
{
    match modified {
        Ok(nanos) => Ok(BinaryFingerprint { length_bytes, modified_unix_nanos: nanos }),
        Err(detail) => Err(concat("invalid binary mtime: ", detail.as_str())),
    }
}

impl BinaryRuntime {
    /// The program file of a host that starts now.
    pub fn new(path: LocalPath, fingerprint: Result<BinaryFingerprint, String>) -> (runtime: Result<
        Self,
        String,
    >)
        ensures
            match fingerprint {
                Ok(fingerprint) => runtime matches Ok(runtime) && runtime.path@ == path@
                    && runtime.launch_path_stable == stable_launch_path(path@)
                    && runtime.startup_fingerprint == fingerprint,
                Err(detail) => runtime == Err::<Self, String>(detail),
            },
    {
        match fingerprint {
            Err(detail) => Err(detail),
            Ok(startup_fingerprint) => {
                let launch_path_stable = !names_build_directory(&path);
                Ok(BinaryRuntime { path, startup_fingerprint, launch_path_stable })
            },
        }
    }

    /// Whether another file has taken the place of the program file.
    pub fn rollout_pending(&self, fingerprint: Result<BinaryFingerprint, String>) -> (pending: Result<
        bool,
        String,
    >)
        ensures
            match fingerprint {
                Ok(fingerprint) => pending == Ok::<bool, String>(fingerprint != self.startup_fingerprint),
                Err(detail) => pending == Err::<bool, String>(detail),
            },
    {
        match fingerprint {
            Err(detail) => Err(detail),
            Ok(fingerprint) => Ok(fingerprint != self.startup_fingerprint),
        }
    }
}

fn names_build_directory(path: &LocalPath) -> (yes: bool)
    ensures
        yes == !stable_launch_path(path@),
{
    let wanted = text_bytes("target");
    let names = path.normal_names();
    let ghost all = normal_names_of(components(path@));
    assert(all.len() == names@.len());
    let mut at: usize = 0;
    while at < names.len()
        invariant
            at <= names.len(),
            all.len() == names@.len(),
            names@.map_values(|name: Vec<u8>| name@) == all,
            all == normal_names_of(components(path@)),
            wanted@ == encode_utf8("target"@),
            forall|i: int| 0 <= i < at ==> #[trigger] all[i] != wanted@,
        decreases names.len() - at,
    {
        assert(all[at as int] == names@[at as int]@);
        if same_bytes(&names[at], &wanted) {
            assert(all[at as int] == encode_utf8("target"@));
            return true;
        }
        at = at + 1;
    }
    false
}

/// A program file is launched from where it stays unless a directory on the
/// way to it is called `target`. A newer one has taken its place exactly where
/// its length or its time is another.
pub proof fn law_program_files(
    path: LocalPath,
    names: Seq<Seq<u8>>,
    fingerprint: BinaryFingerprint,
    runtime: Result<BinaryRuntime, String>,
    found: BinaryFingerprint,
    pending: Result<bool, String>,
)
    requires
        plain_names(names),
        path@ == root_path(names),
        call_ensures(
            BinaryRuntime::new,
            (path, Ok::<BinaryFingerprint, String>(fingerprint)),
            runtime,
        ),
        runtime matches Ok(runtime) ==> call_ensures(
            BinaryRuntime::rollout_pending,
            (&runtime, Ok::<BinaryFingerprint, String>(found)),
            pending,
        ),
    ensures
        runtime matches Ok(runtime) && runtime.path@ == path@ && (runtime.launch_path_stable
            <==> forall|i: int|
            0 <= i < names.len() ==> #[trigger] names[i] != encode_utf8("target"@)),
        pending matches Ok(pending) && (pending <==> found.length_bytes != fingerprint.length_bytes
            || found.modified_unix_nanos != fingerprint.modified_unix_nanos),
{
    law_root_paths(names);
    lemma_normal_names(names);
    if names.contains(encode_utf8("target"@)) {
        let i = choose|i: int| 0 <= i < names.len() && names[i] == encode_utf8("target"@);
        assert(names[i] == encode_utf8("target"@));
    }
}

} // verus!
