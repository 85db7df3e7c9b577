//! Decisions of the HTTP bridge that runs inside the sandbox: which
//! endpoint a request names, and which headers each endpoint demands. The
//! bridge's framing is the frame codec; its transport belongs to the host.

use vstd::prelude::*;

use crate::module::GetTicket;

verus! {

/// The endpoints the bridge serves.
#[derive(Debug, Clone, Copy, PartialEq, Eq, Structural)]
pub enum BridgePath {
    LoadData,
    SaveData,
    /// Any other path is answered with an empty not-found response.
    NotFound,
}

/// A bridge request that cannot be served.
#[derive(Debug, Clone, PartialEq, Eq, Structural)]
pub enum BridgeError {
    /// `X-Yak-Target` is absent or empty.
    MissingTarget,
    /// `X-Yak-Column-Name` is absent or empty.
    MissingColumn,
    /// `X-Yak-Policy` is absent or empty.
    MissingPolicy,
}

/// The path with one leading slash removed, as the bridge reads it.
pub open spec fn stripped_path(path: Seq<char>) -> Seq<char> {
    if path.len() > 0 && path[0] == '/' {
        path.skip(1)
    } else {
        path
    }
}

/// Which endpoint a request path names.
pub fn route_path(path: &str) -> (r: BridgePath)
    ensures
        r == (if stripped_path(path@) == "load_data"@ {
            BridgePath::LoadData
        } else if stripped_path(path@) == "save_data"@ {
            BridgePath::SaveData
        } else {
            BridgePath::NotFound
        }),
{
    let n: usize = path.unicode_len();
    let stripped = if n > 0 && path.get_char(0) == '/' {
        path.substring_char(1, n)
    } else {
        path
    };
    proof {
        assert(stripped@ =~= stripped_path(path@));
    }
    if crate::util::str_eq(stripped, "load_data") {
        BridgePath::LoadData
    } else if crate::util::str_eq(stripped, "save_data") {
        BridgePath::SaveData
    } else {
        BridgePath::NotFound
    }
}

/// The ticket a load request carries: both headers must be present and
/// non-empty, and become the ticket's target and column.
pub fn load_request(target: Option<&String>, column_name: Option<&String>) -> (r: Result<
    GetTicket,
    BridgeError,
>)
    ensures
        match target {
            None => r matches Err(BridgeError::MissingTarget),
            Some(t) => {
                if t@.len() == 0 {
                    r matches Err(BridgeError::MissingTarget)
                } else {
                    match column_name {
                        None => r matches Err(BridgeError::MissingColumn),
                        Some(c) => {
                            if c@.len() == 0 {
                                r matches Err(BridgeError::MissingColumn)
                            } else {
                                r matches Ok(ticket) && ticket.target@ == t@
                                    && ticket.column_name@ == c@
                            }
                        },
                    }
                }
            },
        },
{
    let target = match target {
        Some(t) if t.as_str().unicode_len() > 0 => t,
        _ => {
            return Err(BridgeError::MissingTarget);
        },
    };
    let column_name = match column_name {
        Some(c) if c.as_str().unicode_len() > 0 => c,
        _ => {
            return Err(BridgeError::MissingColumn);
        },
    };
    Ok(GetTicket { target: target.clone(), column_name: column_name.clone() })
}

/// The policy a save request carries: the header must be present and
/// non-empty; it is attached to the first outbound frame only.
pub fn save_request(policy: Option<&String>) -> (r: Result<String, BridgeError>)
    ensures
        match policy {
            None => r matches Err(BridgeError::MissingPolicy),
            Some(p) => {
                if p@.len() == 0 {
                    r matches Err(BridgeError::MissingPolicy)
                } else {
                    r matches Ok(out) && out@ == p@
                }
            },
        },
{
    match policy {
        Some(p) if p.as_str().unicode_len() > 0 => Ok(p.clone()),
        _ => Err(BridgeError::MissingPolicy),
    }
}

/// Remembers the first non-empty `app_metadata` observed while a load
/// streams; later metadata does not replace it.
pub fn observe_metadata(held: &mut Option<String>, metadata: Option<String>)
    ensures
        *final(held) == (if *old(held) is Some {
            *old(held)
        } else {
            metadata
        }),
{
    if held.is_none() {
        match metadata {
            Some(m) => {
                *held = Some(m);
            },
            None => {},
        }
    }
}

/// The `X-Yak-Policy` header of a load response: the first observed
/// metadata, or the empty document when the stream carried none.
pub fn policy_header(held: Option<String>) -> (r: String)
    ensures
        r@ == (match held {
            Some(m) => m@,
            None => "{}"@,
        }),
{
    match held {
        Some(m) => m,
        None => {
            proof {
                reveal_strlit("{}");
            }
            "{}".to_owned()
        },
    }
}

/// Hands the save policy out for at most one frame: the first call yields
/// it, every later call yields nothing, so it rides on the first outbound
/// frame only.
pub fn attach_policy_once(policy: &mut Option<String>) -> (r: Option<String>)
    ensures
        r == *old(policy),
        *final(policy) is None,
{
    let mut out: Option<String> = None;
    core::mem::swap(policy, &mut out);
    out
}

} // verus!
