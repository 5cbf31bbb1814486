//! The scripting handle of a multiplexer domain and the decisions behind
//! its scripting methods.
use vstd::prelude::*;
use vstd::string::*;
use crate::forward::{PortForward, PortForwardView};
use crate::text::{decimal_string, decimal_text, signed_decimal_string, signed_decimal_text};

verus! {

/// The identifier of a multiplexer domain.
pub type DomainId = usize;

/// A scripting handle that names a multiplexer domain by its id.
#[derive(Clone, Copy, Debug, PartialEq, Eq, Structural)]
pub struct MuxDomain(pub DomainId);

/// Whether a domain is attached.
#[derive(Clone, Copy, Debug, PartialEq, Eq, Structural)]
pub enum DomainState {
    Attached,
    Detached,
}

/// The kinds of port forward a script can ask for.
#[derive(Clone, Copy, Debug, PartialEq, Eq, Structural)]
pub enum ForwardKind {
    Local,
    Remote,
}

/// The message of a lookup of an id that the multiplexer does not know.
pub open spec fn domain_not_found_text(id: DomainId) -> Seq<char> {
    "domain id "@ + decimal_text(id as nat) + " not found in mux"@
}

/// The text a domain handle shows in scripts.
pub open spec fn domain_handle_text(id: DomainId, pid: i32) -> Seq<char> {
    "MuxDomain(pane_id:"@ + decimal_text(id as nat) + ", pid:"@ + signed_decimal_text(pid as int)
        + ")"@
}

impl MuxDomain {
    /// The id of the domain this handle names.
    pub fn domain_id(&self) -> (id: DomainId)
        ensures
            id == self.0,
    {
        self.0
    }

    /// The domain that the multiplexer found for this handle's id, or the
    /// message that it has none.
    pub fn resolve<T>(&self, found: Option<T>) -> (r: Result<T, String>)
        ensures
            match found {
                Some(d) => r == Ok::<T, String>(d),
                None => r matches Err(e) && e@ == domain_not_found_text(self.0),
            },
    {
        match found {
            Some(d) => Ok(d),
            None => {
                let id = decimal_string(self.0 as u64);
                let msg = String::from_str("domain id ").concat(id.as_str()).concat(
                    " not found in mux",
                );
                Err(msg)
            },
        }
    }

    /// The text of this handle in scripts, for the process `pid`.
    pub fn to_lua_string(&self, pid: i32) -> (s: String)
        ensures
            s@ == domain_handle_text(self.0, pid),
    {
        let id = decimal_string(self.0 as u64);
        let pid_text = signed_decimal_string(pid as i64);
        String::from_str("MuxDomain(pane_id:").concat(id.as_str()).concat(", pid:").concat(
            pid_text.as_str(),
        ).concat(")")
    }
}

/// The name of a domain state in scripts.
pub fn domain_state_name(state: DomainState) -> (name: &'static str)
    ensures
        name@ == match state {
            DomainState::Attached => "Attached"@,
            DomainState::Detached => "Detached"@,
        },
{
    match state {
        DomainState::Attached => "Attached",
        DomainState::Detached => "Detached",
    }
}

/// Whether any pane, given by the domain it belongs to, is in `domain_id`.
pub fn any_pane_in_domain(domain_id: DomainId, pane_domains: &[DomainId]) -> (found: bool)
    ensures
        found == exists|i: int| 0 <= i < pane_domains@.len() && pane_domains@[i] == domain_id,
{
    let mut i: usize = 0;
    while i < pane_domains.len()
        invariant
            i <= pane_domains@.len(),
            forall|j: int| 0 <= j < i ==> pane_domains@[j] != domain_id,
        decreases pane_domains@.len() - i,
    {
        if pane_domains[i] == domain_id {
            return true;
        }
        i = i + 1;
    }
    false
}

/// `a` and `b` hold the same characters.
fn text_equals(a: &str, b: &str) -> (same: bool)
    ensures
        same == (a@ == b@),
{
    let n = a.unicode_len();
    if n != b.unicode_len() {
        return false;
    }
    let mut i: usize = 0;
    while i < n
        invariant
            i <= n,
            n == a@.len(),
            n == b@.len(),
            forall|j: int| 0 <= j < i ==> a@[j] == b@[j],
        decreases n - i,
    {
        if a.get_char(i) != b.get_char(i) {
            return false;
        }
        i = i + 1;
    }
    assert(a@ =~= b@);
    true
}

/// The kind of port forward named by a script's `type` field.
pub fn forward_kind(typ: &str) -> (kind: Result<ForwardKind, String>)
    ensures
        kind matches Ok(ForwardKind::Local) <==> typ@ == "local"@,
        kind matches Ok(ForwardKind::Remote) <==> typ@ == "remote"@,
        kind matches Err(e) ==> e@ == "Invalid forward type"@,
{
    proof {
        reveal_strlit("local");
        reveal_strlit("remote");
        assert("local"@.len() != "remote"@.len());
    }
    if text_equals(typ, "local") {
        Ok(ForwardKind::Local)
    } else if text_equals(typ, "remote") {
        Ok(ForwardKind::Remote)
    } else {
        Err(String::from_str("Invalid forward type"))
    }
}


/// The port forward that a script's request builds from the fields of its
/// table, when the domain is an SSH domain.
pub open spec fn requested_forward_view(
    kind: ForwardKind,
    local_host: Seq<char>,
    local_port: u16,
    remote_host: Option<Seq<char>>,
    remote_port: u16,
) -> PortForwardView {
    match kind {
        ForwardKind::Local => PortForwardView::Local {
            local_host,
            local_port,
            remote_host: remote_host.unwrap(),
            remote_port,
        },
        ForwardKind::Remote => PortForwardView::Remote {
            remote_host,
            remote_port,
            local_host,
            local_port,
        },
    }
}

/// The port forward a script asks for on a domain, from the kind named by
/// its `type` field (see `forward_kind`) and the fields read for that kind
/// (a local forward always names its remote host); only an SSH domain can
/// forward ports.
pub fn requested_port_forward(
    kind: ForwardKind,
    local_host: String,
    local_port: u16,
    remote_host: Option<String>,
    remote_port: u16,
    is_ssh_domain: bool,
) -> (r: Result<PortForward, String>)
    requires
        kind == ForwardKind::Local ==> remote_host is Some,
    ensures
        !is_ssh_domain ==> (r matches Err(e) && e@ == "Domain is not an SSH domain"@),
        is_ssh_domain ==> (r matches Ok(pf) && pf@ == requested_forward_view(
            kind,
            local_host@,
            local_port,
            match remote_host {
                Some(h) => Some(h@),
                None => None,
            },
            remote_port,
        )),
{
    let pf = match kind {
        ForwardKind::Local => {
            let remote_host = match remote_host {
                Some(h) => h,
                None => {
                    proof {
                        assert(false);
                    }
                    return Err(String::from_str("Domain is not an SSH domain"));
                },
            };
            PortForward::Local { local_host, local_port, remote_host, remote_port }
        },
        ForwardKind::Remote => PortForward::Remote {
            remote_host,
            remote_port,
            local_host,
            local_port,
        },
    };
    if is_ssh_domain {
        Ok(pf)
    } else {
        Err(String::from_str("Domain is not an SSH domain"))
    }
}

} // verus!
