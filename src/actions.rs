//! Pure parts of the post-selection actions: the command lines handed to the
//! orchestration CLI, the guards on each action, the delete confirmation, the
//! port prompt, where the preview-mode files live, and the preview mode.
use vstd::prelude::*;
use vstd::string::*;
use crate::items::{kind_name, ItemView, K8sItem, ResourceKind};
use crate::text::{nat_text, push_nat, same_text, text_of};

verus! {

/// `file` inside directory `dir`, joined with `/` unless `dir` is empty or
/// already ends with one.
pub open spec fn join_path(dir: Seq<char>, file: Seq<char>) -> Seq<char> {
    if dir.len() == 0 || dir.last() == '/' {
        dir + file
    } else {
        dir + "/"@ + file
    }
}

fn join(dir: &str, file: &str) -> (r: String)
    ensures
        r@ == join_path(dir@, file@),
{
    let mut out = text_of(dir);
    let n = dir.unicode_len();
    if n > 0 && dir.get_char(n - 1) != '/' {
        out.append("/");
    }
    out.append(file);
    out
}

/// The file holding the current preview mode, inside the runtime directory.
pub fn preview_mode_path(runtime_dir: &str) -> (r: String)
    ensures
        r@ == join_path(runtime_dir@, "preview-mode"@),
{
    join(runtime_dir, "preview-mode")
}

/// The script that cycles the preview mode, inside the runtime directory.
pub fn preview_toggle_path(runtime_dir: &str) -> (r: String)
    ensures
        r@ == join_path(runtime_dir@, "preview-toggle"@),
{
    join(runtime_dir, "preview-toggle")
}

/// The shell script that advances the mode stored at `mode_path` to the next
/// of the three modes.
pub open spec fn toggle_script_text(mode_path: Seq<char>) -> Seq<char> {
    "#!/bin/sh\nn=$(cat \""@ + mode_path + "\" 2>/dev/null || echo 0)\nprintf $(( (n + 1) % 3 )) > \""@
        + mode_path + "\"\n"@
}

/// The text of the preview-toggle script for the mode file at `mode_path`.
pub fn toggle_script(mode_path: &str) -> (r: String)
    ensures
        r@ == toggle_script_text(mode_path@),
{
    let mut out = text_of("#!/bin/sh\nn=$(cat \"");
    out.append(mode_path);
    out.append("\" 2>/dev/null || echo 0)\nprintf $(( (n + 1) % 3 )) > \"");
    out.append(mode_path);
    out.append("\"\n");
    out
}

/// The characters with the Unicode `White_Space` property.
pub open spec fn is_white_space(c: char) -> bool {
    ('\u{9}' <= c && c <= '\u{d}') || c == ' ' || c == '\u{85}' || c == '\u{a0}' || c == '\u{1680}'
        || ('\u{2000}' <= c && c <= '\u{200a}') || c == '\u{2028}' || c == '\u{2029}'
        || c == '\u{202f}' || c == '\u{205f}' || c == '\u{3000}'
}

/// `s` without its leading white space.
pub open spec fn trim_front(s: Seq<char>) -> Seq<char>
    decreases s.len(),
{
    if s.len() > 0 && is_white_space(s[0]) { trim_front(s.drop_first()) } else { s }
}

/// `s` without its trailing white space.
pub open spec fn trim_back(s: Seq<char>) -> Seq<char>
    decreases s.len(),
{
    if s.len() > 0 && is_white_space(s.last()) { trim_back(s.drop_last()) } else { s }
}

/// `s` without leading and trailing white space.
pub open spec fn trimmed(s: Seq<char>) -> Seq<char> {
    trim_back(trim_front(s))
}

/// Relies on `str::trim`: the string with leading and trailing whitespace
/// removed, whitespace being the characters of Unicode's `White_Space`
/// property.
#[verifier::external_body]
fn trim_text(s: &str) -> (r: &str)
    ensures
        r@ == trimmed(s@),
{
    s.trim()
}

/// The value of a decimal digit character, if it is one.
pub open spec fn digit_value(c: char) -> Option<nat> {
    if '0' <= c && c <= '9' { Some((c as nat - '0' as nat) as nat) } else { None }
}

/// The value of a nonempty run of decimal digits, if `s` is one.
pub open spec fn digits_value(s: Seq<char>) -> Option<nat>
    decreases s.len(),
{
    if s.len() == 0 {
        None
    } else if s.len() == 1 {
        digit_value(s[0])
    } else {
        match (digits_value(s.drop_last()), digit_value(s.last())) {
            (Some(a), Some(d)) => Some(a * 10 + d),
            _ => None,
        }
    }
}

/// What `u8::from_str` accepts: digits with an optional leading `+`, of value below 256.
pub open spec fn u8_of_text(s: Seq<char>) -> Option<u8> {
    let digits = if s.len() > 0 && s[0] == '+' { s.drop_first() } else { s };
    match digits_value(digits) {
        Some(v) => if v < 256 { Some(v as u8) } else { None },
        None => None,
    }
}

/// Relies on `str::parse::<u8>`: an optional `+` and decimal digits whose
/// value fits in a byte; anything else is an error.
#[verifier::external_body]
fn parse_u8(s: &str) -> (r: Option<u8>)
    ensures
        r == u8_of_text(s@),
{
    s.parse::<u8>().ok()
}

/// The preview mode that the (already trimmed) text `t` names: the number it
/// holds modulo 3, or 0 (describe) when it is not a byte-sized number.
pub open spec fn preview_mode_of(t: Seq<char>) -> u8 {
    match u8_of_text(t) {
        Some(v) => v % 3,
        None => 0,
    }
}

/// Reads the preview mode from text without surrounding whitespace.
pub fn preview_mode_of_trimmed(t: &str) -> (r: u8)
    ensures
        r == preview_mode_of(t@),
        r < 3,
{
    match parse_u8(t) {
        Some(v) => v % 3,
        None => 0,
    }
}

/// The preview mode stored as `text`, surrounding whitespace ignored.
pub fn preview_mode_from(text: &str) -> (r: u8)
    ensures
        r == preview_mode_of(trimmed(text@)),
        r < 3,
{
    preview_mode_of_trimmed(trim_text(text))
}

// ── Command lines ───────────────────────────────────────────────────────────

/// The texts of a list of arguments.
pub open spec fn texts(v: Seq<String>) -> Seq<Seq<char>> {
    v.map_values(|s: String| s@)
}

fn push_arg(v: &mut Vec<String>, s: &str)
    ensures
        texts(final(v)@) == texts(old(v)@).push(s@),
{
    v.push(text_of(s));
    assert(texts(final(v)@) =~= texts(old(v)@).push(s@));
}

/// `--context <ctx>` for an item of a named cluster context, else nothing.
pub open spec fn context_args(v: ItemView) -> Seq<Seq<char>> {
    if v.context.len() == 0 { seq![] } else { seq!["--context"@, v.context] }
}

/// `-n <namespace>` for a namespaced item, else nothing.
pub open spec fn namespace_args(v: ItemView) -> Seq<Seq<char>> {
    if v.namespace.len() == 0 { seq![] } else { seq!["-n"@, v.namespace] }
}

/// `<kind>/<name>`, the target form of the orchestration CLI.
pub open spec fn target_text(v: ItemView) -> Seq<char> {
    kind_name(v.kind) + "/"@ + v.name
}

fn push_context(args: &mut Vec<String>, item: &K8sItem)
    ensures
        texts(final(args)@) == texts(old(args)@) + context_args(item@),
{
    if !item.context().is_empty() {
        push_arg(args, "--context");
        push_arg(args, item.context());
    }
    assert(texts(final(args)@) =~= texts(old(args)@) + context_args(item@));
}

fn push_namespace(args: &mut Vec<String>, item: &K8sItem)
    ensures
        texts(final(args)@) == texts(old(args)@) + namespace_args(item@),
{
    if !item.namespace().is_empty() {
        push_arg(args, "-n");
        push_arg(args, item.namespace());
    }
    assert(texts(final(args)@) =~= texts(old(args)@) + namespace_args(item@));
}

fn target(item: &K8sItem) -> (r: String)
    ensures
        r@ == target_text(item@),
{
    let mut t = text_of(item.kind().as_str());
    t.append("/");
    t.append(item.name());
    t
}

/// Arguments that show the last 200 log lines of a pod; `None` for other kinds.
pub fn logs_args(item: &K8sItem) -> (r: Option<Vec<String>>)
    ensures
        item@.kind != ResourceKind::Pod ==> r is None,
        item@.kind == ResourceKind::Pod ==> (r matches Some(v) && texts(v@) == context_args(item@)
            + seq!["logs"@, "--tail=200"@] + namespace_args(item@) + seq!["--"@, item@.name]),
{
    if item.kind() != ResourceKind::Pod {
        return None;
    }
    let mut args: Vec<String> = Vec::new();
    push_context(&mut args, item);
    push_arg(&mut args, "logs");
    push_arg(&mut args, "--tail=200");
    push_namespace(&mut args, item);
    push_arg(&mut args, "--");
    push_arg(&mut args, item.name());
    assert(texts(args@) =~= context_args(item@) + seq!["logs"@, "--tail=200"@] + namespace_args(item@)
        + seq!["--"@, item@.name]);
    Some(args)
}

/// Arguments that open an interactive `shell` in a pod; `None` for other kinds.
pub fn exec_args(item: &K8sItem, shell: &str) -> (r: Option<Vec<String>>)
    ensures
        item@.kind != ResourceKind::Pod ==> r is None,
        item@.kind == ResourceKind::Pod ==> (r matches Some(v) && texts(v@) == context_args(item@)
            + seq!["exec"@, "-it"@, item@.name] + namespace_args(item@) + seq!["--"@, shell@]),
{
    if item.kind() != ResourceKind::Pod {
        return None;
    }
    let mut args: Vec<String> = Vec::new();
    push_context(&mut args, item);
    push_arg(&mut args, "exec");
    push_arg(&mut args, "-it");
    push_arg(&mut args, item.name());
    push_namespace(&mut args, item);
    push_arg(&mut args, "--");
    push_arg(&mut args, shell);
    assert(texts(args@) =~= context_args(item@) + seq!["exec"@, "-it"@, item@.name]
        + namespace_args(item@) + seq!["--"@, shell@]);
    Some(args)
}

/// Arguments that delete an item.
pub fn delete_args(item: &K8sItem) -> (r: Vec<String>)
    ensures
        texts(r@) == context_args(item@) + seq!["delete"@, kind_name(item@.kind)]
            + namespace_args(item@) + seq!["--"@, item@.name],
{
    let mut args: Vec<String> = Vec::new();
    push_context(&mut args, item);
    push_arg(&mut args, "delete");
    push_arg(&mut args, item.kind().as_str());
    push_namespace(&mut args, item);
    push_arg(&mut args, "--");
    push_arg(&mut args, item.name());
    assert(texts(args@) =~= context_args(item@) + seq!["delete"@, kind_name(item@.kind)]
        + namespace_args(item@) + seq!["--"@, item@.name]);
    args
}

/// Arguments that print an item as YAML.
pub fn yaml_args(item: &K8sItem) -> (r: Vec<String>)
    ensures
        texts(r@) == context_args(item@) + seq!["get"@, kind_name(item@.kind), "-o"@, "yaml"@]
            + namespace_args(item@) + seq!["--"@, item@.name],
{
    let mut args: Vec<String> = Vec::new();
    push_context(&mut args, item);
    push_arg(&mut args, "get");
    push_arg(&mut args, item.kind().as_str());
    push_arg(&mut args, "-o");
    push_arg(&mut args, "yaml");
    push_namespace(&mut args, item);
    push_arg(&mut args, "--");
    push_arg(&mut args, item.name());
    assert(texts(args@) =~= context_args(item@) + seq!["get"@, kind_name(item@.kind), "-o"@, "yaml"@]
        + namespace_args(item@) + seq!["--"@, item@.name]);
    args
}

/// Arguments that describe an item.
pub fn describe_args(item: &K8sItem) -> (r: Vec<String>)
    ensures
        texts(r@) == context_args(item@) + seq!["describe"@, kind_name(item@.kind)]
            + namespace_args(item@) + seq!["--"@, item@.name],
{
    let mut args: Vec<String> = Vec::new();
    push_context(&mut args, item);
    push_arg(&mut args, "describe");
    push_arg(&mut args, item.kind().as_str());
    push_namespace(&mut args, item);
    push_arg(&mut args, "--");
    push_arg(&mut args, item.name());
    assert(texts(args@) =~= context_args(item@) + seq!["describe"@, kind_name(item@.kind)]
        + namespace_args(item@) + seq!["--"@, item@.name]);
    args
}

/// Kinds whose rollout can be restarted.
pub open spec fn restartable(k: ResourceKind) -> bool {
    k == ResourceKind::Deployment || k == ResourceKind::StatefulSet || k == ResourceKind::DaemonSet
}

/// Arguments for `rollout <verb>` (`restart`, `status`) on a workload;
/// `None` for kinds without rollouts.
pub fn rollout_args(item: &K8sItem, verb: &str) -> (r: Option<Vec<String>>)
    ensures
        !restartable(item@.kind) ==> r is None,
        restartable(item@.kind) ==> (r matches Some(v) && texts(v@) == context_args(item@)
            + seq!["rollout"@, verb@, target_text(item@)] + namespace_args(item@)),
{
    let k = item.kind();
    if !(k == ResourceKind::Deployment || k == ResourceKind::StatefulSet || k == ResourceKind::DaemonSet) {
        return None;
    }
    let mut args: Vec<String> = Vec::new();
    push_context(&mut args, item);
    push_arg(&mut args, "rollout");
    push_arg(&mut args, verb);
    let t = target(item);
    push_arg(&mut args, t.as_str());
    push_namespace(&mut args, item);
    assert(texts(args@) =~= context_args(item@) + seq!["rollout"@, verb@, target_text(item@)]
        + namespace_args(item@));
    Some(args)
}

/// Kinds that can be port-forwarded.
pub open spec fn forwardable(k: ResourceKind) -> bool {
    k == ResourceKind::Pod || k == ResourceKind::Service
}

/// Arguments that forward local port `local` to port `remote` of a pod or
/// service; `None` for other kinds.
pub fn portforward_args(item: &K8sItem, local: u16, remote: u16) -> (r: Option<Vec<String>>)
    ensures
        !forwardable(item@.kind) ==> r is None,
        forwardable(item@.kind) ==> (r matches Some(v) && texts(v@) == context_args(item@)
            + seq!["port-forward"@, target_text(item@), nat_text(local as nat) + ":"@ + nat_text(remote as nat)]
            + namespace_args(item@)),
{
    let k = item.kind();
    if !(k == ResourceKind::Pod || k == ResourceKind::Service) {
        return None;
    }
    let mut args: Vec<String> = Vec::new();
    push_context(&mut args, item);
    push_arg(&mut args, "port-forward");
    let t = target(item);
    push_arg(&mut args, t.as_str());
    let mut ports = String::new();
    push_nat(&mut ports, local as u64);
    ports.append(":");
    push_nat(&mut ports, remote as u64);
    push_arg(&mut args, ports.as_str());
    push_namespace(&mut args, item);
    proof {
        reveal_strlit("");
    }
    assert(ports@ =~= nat_text(local as nat) + ":"@ + nat_text(remote as nat));
    assert(texts(args@) =~= context_args(item@) + seq!["port-forward"@, target_text(item@),
        nat_text(local as nat) + ":"@ + nat_text(remote as nat)] + namespace_args(item@));
    Some(args)
}

/// Arguments for the preview pane in preview mode `mode` (0 describe, 1
/// YAML, 2 logs for pods; other kinds describe in mode 2), then the
/// namespace and context flags.
pub open spec fn preview_args_text(v: ItemView, mode: u8) -> Seq<Seq<char>> {
    let head = if mode == 2 && v.kind == ResourceKind::Pod {
        seq!["logs"@, "--tail=100"@, "--"@, v.name]
    } else if mode == 1 {
        seq!["get"@, kind_name(v.kind), "--"@, v.name, "-o"@, "yaml"@]
    } else {
        seq!["describe"@, kind_name(v.kind), "--"@, v.name]
    };
    head + namespace_args(v) + context_args(v)
}

/// The command-line arguments of the preview of an item.
pub fn preview_args(item: &K8sItem, mode: u8) -> (r: Vec<String>)
    ensures
        texts(r@) == preview_args_text(item@, mode),
{
    let mut args: Vec<String> = Vec::new();
    if mode == 2 && item.kind() == ResourceKind::Pod {
        push_arg(&mut args, "logs");
        push_arg(&mut args, "--tail=100");
        push_arg(&mut args, "--");
        push_arg(&mut args, item.name());
    } else if mode == 1 {
        push_arg(&mut args, "get");
        push_arg(&mut args, item.kind().as_str());
        push_arg(&mut args, "--");
        push_arg(&mut args, item.name());
        push_arg(&mut args, "-o");
        push_arg(&mut args, "yaml");
    } else {
        push_arg(&mut args, "describe");
        push_arg(&mut args, item.kind().as_str());
        push_arg(&mut args, "--");
        push_arg(&mut args, item.name());
    }
    push_namespace(&mut args, item);
    push_context(&mut args, item);
    assert(texts(args@) =~= preview_args_text(item@, mode));
    args
}

// ── Delete confirmation and port prompt ────────────────────────────────────

/// More selected items than this ask for a typed `yes` before deleting.
pub const BULK_DELETE_THRESHOLD: usize = 10;

/// Whether a trimmed answer confirms deleting `count` items: a bulk delete
/// needs `yes` exactly, a small one `y` or `Y`.
pub open spec fn confirms(count: nat, a: Seq<char>) -> bool {
    if count > 10 { a == "yes"@ } else { a == "y"@ || a == "Y"@ }
}

/// Checks a confirmation without surrounding whitespace.
pub fn confirms_delete(count: usize, a: &str) -> (r: bool)
    ensures
        r == confirms(count as nat, a@),
{
    if count > BULK_DELETE_THRESHOLD {
        same_text(a, "yes")
    } else {
        same_text(a, "y") || same_text(a, "Y")
    }
}

/// Checks the confirmation typed for deleting `count` items; surrounding
/// whitespace is ignored.
pub fn delete_confirmed(count: usize, answer: &str) -> (r: bool)
    ensures
        r == confirms(count as nat, trimmed(answer@)),
{
    confirms_delete(count, trim_text(answer))
}

/// What was typed at a port prompt.
#[derive(Debug, Clone, Copy, PartialEq, Eq, Structural)]
pub enum PortAnswer {
    /// Nothing typed: take the default, if the prompt has one.
    Empty,
    /// A usable port.
    Port(u16),
    /// Port 0, which cannot be used.
    Zero,
    /// Not a port number.
    Invalid,
}

/// What `u16::from_str` accepts: digits with an optional leading `+`, of value below 65536.
pub open spec fn u16_of_text(s: Seq<char>) -> Option<u16> {
    let digits = if s.len() > 0 && s[0] == '+' { s.drop_first() } else { s };
    match digits_value(digits) {
        Some(v) => if v < 65536 { Some(v as u16) } else { None },
        None => None,
    }
}

/// Relies on `str::parse::<u16>`: an optional `+` and decimal digits whose
/// value fits in 16 bits; anything else is an error.
#[verifier::external_body]
fn parse_u16(s: &str) -> (r: Option<u16>)
    ensures
        r == u16_of_text(s@),
{
    s.parse::<u16>().ok()
}

/// What a trimmed answer at a port prompt means.
pub open spec fn port_answer_of(t: Seq<char>) -> PortAnswer {
    if t.len() == 0 {
        PortAnswer::Empty
    } else {
        match u16_of_text(t) {
            Some(p) => if p == 0 { PortAnswer::Zero } else { PortAnswer::Port(p) },
            None => PortAnswer::Invalid,
        }
    }
}

/// Reads a line typed at a port prompt; surrounding whitespace is ignored.
pub fn port_answer(input: &str) -> (r: PortAnswer)
    ensures
        r == port_answer_of(trimmed(input@)),
{
    port_answer_of_trimmed(trim_text(input))
}

/// Reads a port answer without surrounding whitespace.
pub fn port_answer_of_trimmed(t: &str) -> (r: PortAnswer)
    ensures
        r == port_answer_of(t@),
{
    if t.is_empty() {
        return PortAnswer::Empty;
    }
    match parse_u16(t) {
        Some(p) => if p == 0 { PortAnswer::Zero } else { PortAnswer::Port(p) },
        None => PortAnswer::Invalid,
    }
}

} // verus!
