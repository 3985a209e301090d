//! Credential handling for the authentication callback: the default
//! credential substituted when user authentication logic fails, and the
//! bounded, always-null-terminated filling of the native layer's fixed-size
//! answer buffers.

use vstd::prelude::*;

verus! {

/// The bytes of the default workgroup, `WORKGROUP`.
pub open spec fn default_workgroup_bytes() -> Seq<u8> {
    seq![87u8, 79u8, 82u8, 75u8, 71u8, 82u8, 79u8, 85u8, 80u8]
}

/// The bytes of the default username, `guest`.
pub open spec fn default_username_bytes() -> Seq<u8> {
    seq![103u8, 117u8, 101u8, 115u8, 116u8]
}

/// The bytes of the default password: empty.
pub open spec fn default_password_bytes() -> Seq<u8> {
    seq![]
}

/// One authentication answer: workgroup, username and password, as the byte
/// strings to be copied into the native layer's answer buffers. The wrapper
/// only forwards these values; it never stores them.
#[derive(Clone, Debug)]
pub struct Credentials {
    pub workgroup: Vec<u8>,
    pub username: Vec<u8>,
    pub password: Vec<u8>,
}

impl Credentials {
    /// Whether this is the default (dummy) credential
    /// `WORKGROUP\guest` with an empty password.
    pub open spec fn is_default(self) -> bool {
        &&& self.workgroup@ == default_workgroup_bytes()
        &&& self.username@ == default_username_bytes()
        &&& self.password@ == default_password_bytes()
    }
}

/// The default (dummy) credential `WORKGROUP\guest` with an empty password.
pub fn default_credentials() -> (c: Credentials)
    ensures
        c.is_default(),
{
    let mut workgroup: Vec<u8> = Vec::new();
    workgroup.push(87u8);
    workgroup.push(79u8);
    workgroup.push(82u8);
    workgroup.push(75u8);
    workgroup.push(71u8);
    workgroup.push(82u8);
    workgroup.push(79u8);
    workgroup.push(85u8);
    workgroup.push(80u8);
    let mut username: Vec<u8> = Vec::new();
    username.push(103u8);
    username.push(117u8);
    username.push(101u8);
    username.push(115u8);
    username.push(116u8);
    let password: Vec<u8> = Vec::new();
    assert(workgroup@ =~= default_workgroup_bytes());
    assert(username@ =~= default_username_bytes());
    assert(password@ =~= default_password_bytes());
    Credentials { workgroup, username, password }
}

/// The credential an authentication request is answered with: the answer the
/// user's authentication function returned, or, where that function failed
/// (and its failure was caught at the callback boundary rather than allowed
/// to cross it), exactly the default credential.
pub fn resolve_auth(outcome: Option<Credentials>) -> (c: Credentials)
    ensures
        match outcome {
            Some(given) => c == given,
            None => c.is_default(),
        },
{
    match outcome {
        Some(given) => given,
        None => default_credentials(),
    }
}

/// The bytes written into one answer buffer of the given capacity: the
/// source truncated to leave room for a terminating NUL, then the NUL. The
/// native layer's buffers are never overrun and, whenever there is any room
/// at all, the answer is null-terminated within bounds — also when the
/// source is longer than the buffer.
pub fn fill_answer_buffer(src: &[u8], capacity: usize) -> (out: Vec<u8>)
    ensures
        out@.len() <= capacity,
        capacity == 0 ==> out@.len() == 0,
        capacity > 0 ==> {
            let copied = if src@.len() < capacity { src@.len() as int } else { capacity - 1 };
            &&& out@.len() == copied + 1
            &&& out@ == src@.take(copied).push(0u8)
            &&& out@[out@.len() - 1] == 0u8
        },
{
    let mut out: Vec<u8> = Vec::new();
    if capacity == 0 {
        return out;
    }
    let copied: usize = if src.len() < capacity {
        src.len()
    } else {
        capacity - 1
    };
    let mut i: usize = 0;
    while i < copied
        invariant
            copied <= src@.len(),
            0 <= i <= copied,
            out@ == src@.take(i as int),
        decreases copied - i,
    {
        out.push(src[i]);
        i += 1;
    }
    out.push(0u8);
    out
}

} // verus!
