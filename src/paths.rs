//! Filesystem paths as the sidecar sees them.
use vstd::prelude::*;

use crate::secrets::opt_view;
use crate::text::{has_prefix, join2, same_text, starts_with, suffix_from};

verus! {

/// The extended-length prefix that `canonicalize()` puts before a UNC path.
pub open spec fn extended_unc_prefix() -> Seq<char> {
    seq!['\\', '\\', '?', '\\', 'U', 'N', 'C', '\\']
}

/// The extended-length prefix that `canonicalize()` puts before a drive path.
pub open spec fn extended_prefix() -> Seq<char> {
    seq!['\\', '\\', '?', '\\']
}

/// The root of a plain UNC path.
pub open spec fn unc_root() -> Seq<char> {
    seq!['\\', '\\']
}

/// A path with its extended-length prefix removed; a UNC path keeps its
/// leading double backslash.
pub open spec fn node_path(s: Seq<char>) -> Seq<char> {
    if starts_with(s, extended_unc_prefix()) {
        unc_root() + s.skip(extended_unc_prefix().len() as int)
    } else if starts_with(s, extended_prefix()) {
        s.skip(extended_prefix().len() as int)
    } else {
        s
    }
}

/// Strips the Windows extended-length prefix (`\\?\`) that `canonicalize()`
/// adds, so that Node.js resolves modules under the path. `\\?\UNC\server\share`
/// becomes `\\server\share`, not `UNC\server\share`; any other path is
/// returned as it is.
pub fn sanitize_path_for_node(p: &str) -> (r: String)
    ensures
        r@ == node_path(p@),
{
    let unc_prefix = "\\\\?\\UNC\\";
    let prefix = "\\\\?\\";
    proof {
        reveal_strlit("\\\\?\\UNC\\");
        reveal_strlit("\\\\?\\");
        reveal_strlit("\\\\");
        assert(unc_prefix@ =~= extended_unc_prefix());
        assert(prefix@ =~= extended_prefix());
    }
    if has_prefix(p, unc_prefix) {
        let rest = suffix_from(p, 8);
        let r = join2("\\\\", rest.as_str());
        assert("\\\\"@ =~= unc_root());
        r
    } else if has_prefix(p, prefix) {
        suffix_from(p, 4)
    } else {
        String::from_str(p)
    }
}

/// The sidecar script, relative to the directory that holds the bundle's
/// resources (or, in a development build, the shell's own crate).
pub const SIDECAR_SCRIPT: &'static str = "sidecar/local-api-server.mjs";

/// The directory of API handlers, under the resource root.
pub const API_DIR: &'static str = "api";

/// The directory that some packaging layouts lift the resources into.
pub const LIFTED_DIR: &'static str = "_up_";

/// Where the API handlers' root lies in a packaged build.
pub enum ApiRoot {
    /// The resource directory itself.
    ResourceDir,
    /// Its lifted subdirectory.
    LiftedDir,
}

/// The API root of a packaged build: the resource directory when it holds
/// the API directory; else the lifted directory when that one does; else the
/// resource directory.
pub fn choose_api_root(direct_api_exists: bool, lifted_api_exists: bool) -> (r: ApiRoot)
    ensures
        r is LiftedDir <==> (!direct_api_exists && lifted_api_exists),
{
    if direct_api_exists {
        ApiRoot::ResourceDir
    } else if lifted_api_exists {
        ApiRoot::LiftedDir
    } else {
        ApiRoot::ResourceDir
    }
}

/// The file name of the Node.js executable.
pub open spec fn node_file_name(windows: bool) -> Seq<char> {
    if windows {
        "node.exe"@
    } else {
        "node"@
    }
}

/// The file name of the Node.js executable on Windows or elsewhere.
pub fn node_binary_name(windows: bool) -> (r: &'static str)
    ensures
        r@ == node_file_name(windows),
{
    if windows {
        "node.exe"
    } else {
        "node"
    }
}

/// The places where Node.js is commonly installed, in the order in which
/// they are tried.
pub open spec fn common_node_paths(windows: bool) -> Seq<Seq<char>> {
    if windows {
        seq!["C:\\Program Files\\nodejs\\node.exe"@, "C:\\Program Files (x86)\\nodejs\\node.exe"@]
    } else {
        seq![
            "/opt/homebrew/bin/node"@,
            "/usr/local/bin/node"@,
            "/usr/bin/node"@,
            "/opt/local/bin/node"@,
        ]
    }
}

/// The views of a list of strings.
pub open spec fn texts_view(v: Seq<String>) -> Seq<Seq<char>> {
    v.map_values(|s: String| s@)
}

/// An optional string as a list of none or one.
pub open spec fn opt_seq(o: Option<Seq<char>>) -> Seq<Seq<char>> {
    match o {
        Some(s) => seq![s],
        None => seq![],
    }
}

fn push_text(v: &mut Vec<String>, s: &str)
    ensures
        texts_view(final(v)@) == texts_view(old(v)@).push(s@),
{
    v.push(String::from_str(s));
    assert(texts_view(final(v)@) =~= texts_view(old(v)@).push(s@));
}

/// The places where Node.js is commonly installed.
pub fn common_node_locations(windows: bool) -> (r: Vec<String>)
    ensures
        texts_view(r@) == common_node_paths(windows),
{
    let mut r: Vec<String> = Vec::new();
    if windows {
        push_text(&mut r, "C:\\Program Files\\nodejs\\node.exe");
        push_text(&mut r, "C:\\Program Files (x86)\\nodejs\\node.exe");
    } else {
        push_text(&mut r, "/opt/homebrew/bin/node");
        push_text(&mut r, "/usr/local/bin/node");
        push_text(&mut r, "/usr/bin/node");
        push_text(&mut r, "/opt/local/bin/node");
    }
    assert(texts_view(r@) =~= common_node_paths(windows));
    r
}

/// The candidates for the Node.js executable, in the order in which they
/// are tried, the first that is a file winning: the one that the user named
/// explicitly, the one bundled with a packaged build, one in each directory
/// of the search path, then the common install locations.
pub fn node_search_order(
    explicit: Option<String>,
    bundled: Option<String>,
    on_path: Vec<String>,
    windows: bool,
) -> (r: Vec<String>)
    ensures
        texts_view(r@) == opt_seq(opt_view(explicit)) + opt_seq(opt_view(bundled)) + texts_view(
            on_path@,
        ) + common_node_paths(windows),
{
    let mut r: Vec<String> = Vec::new();
    match explicit {
        Some(e) => r.push(e),
        None => {},
    }
    match bundled {
        Some(b) => r.push(b),
        None => {},
    }
    let ghost head = texts_view(r@);
    assert(head =~= opt_seq(opt_view(explicit)) + opt_seq(opt_view(bundled)));
    let mut on_path = on_path;
    let ghost path_view = texts_view(on_path@);
    let mut common = common_node_locations(windows);
    r.append(&mut on_path);
    assert(texts_view(r@) =~= head + path_view);
    r.append(&mut common);
    assert(texts_view(r@) =~= opt_seq(opt_view(explicit)) + opt_seq(opt_view(bundled))
        + path_view + common_node_paths(windows));
    r
}

/// The program that opens a file, directory or URL with the desktop's
/// default handler on the given operating system.
pub open spec fn shell_opener(os: Seq<char>) -> Seq<char> {
    if os == "macos"@ {
        "open"@
    } else if os == "windows"@ {
        "explorer"@
    } else {
        "xdg-open"@
    }
}

/// A program to run with one argument.
pub struct ShellCommand {
    pub program: String,
    pub arg: String,
}

/// The command that opens `target` (a file, a directory or a URL) with the
/// desktop's default handler on the operating system `os`, as
/// `std::env::consts::OS` names it.
pub fn open_in_shell(os: &str, target: &str) -> (r: ShellCommand)
    ensures
        r.program@ == shell_opener(os@),
        r.arg@ == target@,
{
    let program = if same_text(os, "macos") {
        "open"
    } else if same_text(os, "windows") {
        "explorer"
    } else {
        "xdg-open"
    };
    ShellCommand { program: String::from_str(program), arg: String::from_str(target) }
}

/// The command that opens the file or directory at `path` with the
/// desktop's default handler on `os`.
pub fn open_path_in_shell(os: &str, path: &str) -> (r: ShellCommand)
    ensures
        r.program@ == shell_opener(os@),
        r.arg@ == path@,
{
    open_in_shell(os, path)
}

} // verus!
