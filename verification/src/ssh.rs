//! SSH key provisioning: where the key pair lives and the exact key
//! generation call. Whether the public key already exists is probed by the
//! caller; an existing key makes the whole step a no-op.

use vstd::prelude::*;
use crate::cmd::Command;
use crate::strutil::str_concat;

verus! {

/// The public half of the provisioned key.
pub fn ssh_public_key_path(home: &str) -> (r: String)
    ensures
        r@ == home@ + "/.ssh/id_ed25519.pub"@,
{
    str_concat(home, "/.ssh/id_ed25519.pub")
}

/// The private half, which the key generator is pointed at.
pub fn ssh_private_key_path(home: &str) -> (r: String)
    ensures
        r@ == home@ + "/.ssh/id_ed25519"@,
{
    str_concat(home, "/.ssh/id_ed25519")
}

/// The argument list of the key generation call: the key type, the file,
/// and, only when asked to skip the passphrase, an empty passphrase.
pub open spec fn spec_ssh_keygen_args(home: Seq<char>, no_passphrase: bool) -> Seq<Seq<char>> {
    let base = seq!["-t"@, "ed25519"@, "-f"@, home + "/.ssh/id_ed25519"@];
    if no_passphrase {
        base + seq!["-N"@, ""@]
    } else {
        base
    }
}

/// The key generation invocation.
pub fn ssh_keygen_command(home: &str, no_passphrase: bool) -> (r: Command)
    ensures
        r@.program == "ssh-keygen"@,
        r@.args == spec_ssh_keygen_args(home@, no_passphrase),
        r@.cwd is None,
{
    let key_path = ssh_private_key_path(home);
    let base = Command::new("ssh-keygen").arg("-t").arg("ed25519").arg("-f").arg_string(key_path);
    let r = if no_passphrase {
        base.arg("-N").arg("")
    } else {
        base
    };
    assert(r@.args =~= spec_ssh_keygen_args(home@, no_passphrase));
    r
}

} // verus!
