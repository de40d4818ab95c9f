//! Supervision of the local API sidecar: the state that one child process
//! and its auth token live in, and what the child is launched with.
use vstd::prelude::*;

use crate::json::pairs_view;
use crate::paths::{node_path, sanitize_path_for_node};
use crate::secrets::{opt_view, store_entries, SecretStore};
use crate::text::{hex_digits, join2, lemma_hex_digits_len, push_hex};

verus! {

/// The TCP port that the sidecar listens on.
pub const LOCAL_API_PORT: &'static str = "46123";

/// The mode that the sidecar is told it runs in.
pub const LOCAL_API_MODE: &'static str = "tauri-sidecar";

/// The sidecar's child process, if one runs, and the token that the webview
/// and the sidecar share, once one has been issued.
pub struct LocalApiState<C> {
    pub child: Option<C>,
    pub token: Option<String>,
}

impl<C> LocalApiState<C> {
    /// No child and no token.
    pub fn new() -> (r: Self)
        ensures
            r.child is None,
            r.token is None,
    {
        LocalApiState { child: None, token: None }
    }

    /// Whether a child has been started and not stopped since.
    pub fn is_running(&self) -> (r: bool)
        ensures
            r == self.child is Some,
    {
        self.child.is_some()
    }

    /// The token, issued now from `fresh` if none was issued before. A token
    /// once issued is kept for the rest of the session.
    pub fn issue_token(&mut self, fresh: String) -> (r: String)
        ensures
            final(self).child == old(self).child,
            final(self).token == (match old(self).token {
                Some(t) => Some(t),
                None => Some(fresh),
            }),
            r@ == final(self).token->0@,
    {
        if self.token.is_none() {
            self.token = Some(fresh);
        }
        match &self.token {
            Some(t) => t.clone(),
            None => String::new(),
        }
    }

    /// The token that was issued, or an error before the first.
    pub fn local_api_token(&self) -> (r: Result<String, String>)
        ensures
            match self.token {
                Some(t) => r matches Ok(s) && s@ == t@,
                None => r matches Err(e) && e@ == "Token not generated"@,
            },
    {
        match &self.token {
            Some(t) => Ok(t.clone()),
            None => Err(String::from_str("Token not generated")),
        }
    }

    /// Records a child that was just started.
    pub fn attach(&mut self, child: C)
        requires
            old(self).child is None,
        ensures
            final(self).child == Some(child),
            final(self).token == old(self).token,
    {
        self.child = Some(child);
    }

    /// Hands back the running child, if any, for it to be stopped; after
    /// this, none runs. The token stays.
    pub fn detach(&mut self) -> (r: Option<C>)
        ensures
            r == old(self).child,
            final(self).child is None,
            final(self).token == old(self).token,
    {
        self.child.take()
    }
}

/// The auth token's text: the two 64-bit halves as 16 lower-case
/// hexadecimal digits each, with leading zeros.
pub fn local_token_text(a: u64, b: u64) -> (r: String)
    ensures
        r@ == hex_digits(a as nat, 16) + hex_digits(b as nat, 16),
        r@.len() == 32,
{
    let mut r = String::new();
    push_hex(&mut r, a, 16);
    push_hex(&mut r, b, 16);
    proof {
        lemma_hex_digits_len(a as nat, 16);
        lemma_hex_digits_len(b as nat, 16);
        assert(r@ =~= hex_digits(a as nat, 16) + hex_digits(b as nat, 16));
    }
    r
}

/// The error when the sidecar script is not where it should be.
pub open spec fn missing_script_message(script: Seq<char>) -> Seq<char> {
    "Local API sidecar script missing at "@ + script
}

/// The error when no Node.js executable was found.
pub open spec fn missing_node_message() -> Seq<char> {
    "Node.js executable not found. Install Node 18+ or set LOCAL_API_NODE_BIN"@
}

/// Succeeds when the sidecar script exists; else the error that names it.
pub fn require_script(script: &str, script_exists: bool) -> (r: Result<(), String>)
    ensures
        script_exists ==> r is Ok,
        !script_exists ==> (r matches Err(e) && e@ == missing_script_message(script@)),
{
    if script_exists {
        Ok(())
    } else {
        Err(join2("Local API sidecar script missing at ", script))
    }
}

/// The Node.js executable that was found, or the error that says none was.
pub fn require_node(node: Option<String>) -> (r: Result<String, String>)
    ensures
        match node {
            Some(n) => r == Ok::<String, String>(n),
            None => r matches Err(e) && e@ == missing_node_message(),
        },
{
    match node {
        Some(n) => Ok(n),
        None => Err(
            String::from_str(
                "Node.js executable not found. Install Node 18+ or set LOCAL_API_NODE_BIN",
            ),
        ),
    }
}

/// What the sidecar's process is started with: the script that Node.js runs,
/// and the environment variables that are set for it, in order.
pub struct SidecarLaunch {
    pub script_arg: String,
    pub env: Vec<(String, String)>,
    /// How many of the variables are stored secrets.
    pub secret_count: usize,
}

/// The sidecar's own settings: its port, resource directory, mode and token.
pub open spec fn base_env(resource_dir: Seq<char>, token: Seq<char>) -> Seq<
    (Seq<char>, Seq<char>),
> {
    seq![
        ("LOCAL_API_PORT"@, "46123"@),
        ("LOCAL_API_RESOURCE_DIR"@, resource_dir),
        ("LOCAL_API_MODE"@, "tauri-sidecar"@),
        ("LOCAL_API_TOKEN"@, token),
    ]
}

/// The Convex deployment URL's variable, when there is a URL.
pub open spec fn convex_env(url: Option<Seq<char>>) -> Seq<(Seq<char>, Seq<char>)> {
    match url {
        Some(u) => seq![("CONVEX_URL"@, u)],
        None => seq![],
    }
}

fn push_pair(env: &mut Vec<(String, String)>, k: &str, v: &str)
    ensures
        pairs_view(final(env)@) == pairs_view(old(env)@).push((k@, v@)),
{
    env.push((String::from_str(k), String::from_str(v)));
    assert(pairs_view(final(env)@) =~= pairs_view(old(env)@).push((k@, v@)));
}

/// The launch of the sidecar script `script` with resources under
/// `resource_root`: both paths as Node.js takes them, the sidecar's own
/// settings, then every stored secret under its key, then the Convex URL if
/// one is given.
pub fn launch_plan(
    script: &str,
    resource_root: &str,
    token: &str,
    secrets: &SecretStore,
    convex_url: Option<String>,
) -> (r: SidecarLaunch)
    requires
        secrets.wf(),
    ensures
        r.script_arg@ == node_path(script@),
        pairs_view(r.env@) == base_env(node_path(resource_root@), token@) + store_entries(
            secrets@,
        ) + convex_env(opt_view(convex_url)),
        r.secret_count == store_entries(secrets@).len(),
{
    let script_arg = sanitize_path_for_node(script);
    let resource_dir = sanitize_path_for_node(resource_root);
    let mut env: Vec<(String, String)> = Vec::new();
    push_pair(&mut env, "LOCAL_API_PORT", LOCAL_API_PORT);
    push_pair(&mut env, "LOCAL_API_RESOURCE_DIR", resource_dir.as_str());
    push_pair(&mut env, "LOCAL_API_MODE", LOCAL_API_MODE);
    push_pair(&mut env, "LOCAL_API_TOKEN", token);
    assert(pairs_view(env@) =~= base_env(node_path(resource_root@), token@));
    let ghost head = pairs_view(env@);
    let entries = secrets.entries();
    let mut i: usize = 0;
    while i < entries.len()
        invariant
            i <= entries@.len(),
            pairs_view(entries@) == store_entries(secrets@),
            pairs_view(env@) == head + pairs_view(entries@).take(i as int),
        decreases entries@.len() - i,
    {
        push_pair(&mut env, entries[i].0.as_str(), entries[i].1.as_str());
        assert(pairs_view(entries@).take(i + 1) =~= pairs_view(entries@).take(i as int).push(
            pairs_view(entries@)[i as int],
        ));
        i = i + 1;
    }
    assert(pairs_view(entries@).take(i as int) =~= pairs_view(entries@));
    match &convex_url {
        Some(u) => push_pair(&mut env, "CONVEX_URL", u.as_str()),
        None => {},
    }
    assert(pairs_view(env@) =~= base_env(node_path(resource_root@), token@) + store_entries(
        secrets@,
    ) + convex_env(opt_view(convex_url)));
    SidecarLaunch { script_arg, env, secret_count: entries.len() }
}

} // verus!
