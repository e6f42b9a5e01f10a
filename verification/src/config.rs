//! The configuration record the pipeline runs from, and the validation of
//! its command vector, which must happen before any socket is created.

use vstd::prelude::*;
use crate::error::Error;

verus! {

/// A bind address held as plain integers: four octets for IPv4, eight
/// 16-bit segments for IPv6.
#[derive(Clone, Copy, PartialEq, Eq, Structural, Debug)]
pub enum IpAddr {
    V4(u8, u8, u8, u8),
    V6(u16, u16, u16, u16, u16, u16, u16, u16),
}

/// The resolved configuration: bind address and port, protocol name as
/// given, path of the target network-namespace reference, and the target
/// command vector (program path first, then its arguments).
#[derive(Debug)]
pub struct Config {
    pub address: IpAddr,
    pub port: u16,
    pub protocol: String,
    pub target_ns: String,
    pub cmd: Vec<String>,
}

/// A command vector is acceptable when it is non-empty and no element
/// holds an embedded null character, so that every element can become a
/// null-terminated string for the process-image replacement.
pub open spec fn cmd_ok(cmd: Seq<Seq<char>>) -> bool {
    cmd.len() > 0 && forall|i: int| 0 <= i < cmd.len() ==> !cmd[i].contains('\0')
}

/// Whether `s` holds an embedded null character.
fn str_has_nul(s: &str) -> (r: bool)
    ensures
        r == s@.contains('\0'),
{
    let n = s.unicode_len();
    let mut i: usize = 0;
    while i < n
        invariant
            n == s@.len(),
            i <= n,
            forall|j: int| 0 <= j < i ==> s@[j] != '\0',
        decreases n - i,
    {
        if s.get_char(i) == '\0' {
            assert(s@.contains('\0'));
            return true;
        }
        i += 1;
    }
    assert(forall|j: int| 0 <= j < s@.len() ==> s@[j] != '\0');
    false
}

/// Reject an empty command vector, and any command element with an
/// embedded null character. Runs before any socket is created.
pub fn validate_command(cmd: &Vec<String>) -> (r: Result<(), Error>)
    ensures
        r is Ok <==> cmd_ok(cmd.deep_view()),
        cmd@.len() == 0 ==> (r matches Err(e) && e.msg@ == "command vector is empty"@
            && e.cause is None),
        cmd@.len() > 0 && !cmd_ok(cmd.deep_view()) ==> (r matches Err(e)
            && e.msg@ == "command argument contains a null byte"@ && e.cause is None),
{
    if cmd.len() == 0 {
        return Err(Error::new(String::from_str("command vector is empty")));
    }
    let mut i: usize = 0;
    while i < cmd.len()
        invariant
            i <= cmd@.len(),
            cmd@.len() > 0,
            forall|j: int| 0 <= j < i ==> !cmd.deep_view()[j].contains('\0'),
        decreases cmd@.len() - i,
    {
        if str_has_nul(cmd[i].as_str()) {
            assert(cmd.deep_view()[i as int].contains('\0'));
            return Err(Error::new(String::from_str("command argument contains a null byte")));
        }
        assert(cmd.deep_view()[i as int] == cmd@[i as int]@);
        i += 1;
    }
    Ok(())
}

} // verus!
