//! Reaching the remote host: ssh and rsync commands, targets and quoting.
use vstd::prelude::*;

use crate::config::types::{RemoteConfig, RemoteView, Text};
use crate::process::{command_of, single_quote, single_quoted, with_arg, CommandView,
    ProcessCommand};
use crate::text::{
    char_is_ascii_alnum, decimal, is_ascii_alnum, join_strings, join_with, replace_char,
    str_contains_char, str_ends_with_char, str_replace_char, str_starts_with_char,
    str_trim_end_char, str_trim_start_char, strings_view, to_string, trim_end_char,
    trim_start_char, u64_to_decimal,
};

verus! {

// ---------------------------------------------------------------------------
// Quoting and paths
// ---------------------------------------------------------------------------

pub open spec fn shell_safe_char(c: char) -> bool {
    is_ascii_alnum(c) || c == '_' || c == '-' || c == '.' || c == '/' || c == ':' || c == '@'
}

/// A word as a POSIX shell reads it back: `''` when empty, unchanged when
/// made of safe characters, single-quoted otherwise.
pub open spec fn sh_quote_of(v: Text) -> Text {
    if v.len() == 0 {
        "''"@
    } else if forall|i: int| 0 <= i < v.len() ==> shell_safe_char(#[trigger] v[i]) {
        v
    } else {
        single_quoted(v)
    }
}

pub fn sh_quote(value: &str) -> (r: String)
    ensures
        r@ == sh_quote_of(value@),
{
    let n = value.unicode_len();
    if n == 0 {
        return to_string("''");
    }
    let mut i: usize = 0;
    while i < n
        invariant
            n == value@.len(),
            i <= n,
            forall|j: int| 0 <= j < i ==> shell_safe_char(#[trigger] value@[j]),
        decreases n - i,
    {
        let c = value.get_char(i);
        if !(char_is_ascii_alnum(c) || c == '_' || c == '-' || c == '.' || c == '/' || c == ':'
            || c == '@') {
            assert(!shell_safe_char(value@[i as int]));
            return single_quote(value);
        }
        i = i + 1;
    }
    to_string(value)
}

/// `parent/child` with exactly one `/` between them.
pub open spec fn remote_child_of(parent: Text, child: Text) -> Text {
    trim_end_char(parent, '/') + "/"@ + trim_start_char(child, '/')
}

pub fn remote_child(parent: &str, child: &str) -> (r: String)
    ensures
        r@ == remote_child_of(parent@, child@),
{
    let mut r = str_trim_end_char(parent, '/');
    r.append("/");
    r.append(str_trim_start_char(child, '/').as_str());
    r
}

/// How rsync is told about a local source: backslashes become slashes, and a
/// directory gets a trailing `/` so that its contents are copied.
pub open spec fn rsync_source_of(path: Text, is_dir: bool) -> Text {
    let s = replace_char(path, '\\', "/"@);
    if is_dir && !(s.len() > 0 && s.last() == '/') {
        s + "/"@
    } else {
        s
    }
}

pub fn rsync_source(path: &str, source_is_dir: bool) -> (r: String)
    ensures
        r@ == rsync_source_of(path@, source_is_dir),
{
    let mut s = str_replace_char(path, '\\', "/");
    if source_is_dir && !str_ends_with_char(s.as_str(), '/') {
        s.append("/");
    }
    s
}

// ---------------------------------------------------------------------------
// Targets
// ---------------------------------------------------------------------------

pub open spec fn missing_host_message() -> Text {
    "remote.host is required for plan/deploy; set it in services.local.toml or use an SSH config host alias"@
}

/// `user@host`, or the host alone.
pub open spec fn remote_target_of(r: RemoteView, host: Text) -> Text {
    match r.user {
        Some(u) => u + "@"@ + host,
        None => host,
    }
}

/// rsync reads `host:path`, so an IPv6 address is put in brackets unless it already is.
pub open spec fn rsync_host_of(host: Text) -> Text {
    if host.contains(':') && !(host.len() > 0 && host[0] == '[' && host.last() == ']') {
        "["@ + host + "]"@
    } else {
        host
    }
}

pub open spec fn ssh_target_of(r: RemoteView) -> Result<Text, Text> {
    match r.host {
        Some(h) => Ok(remote_target_of(r, h)),
        None => Err(missing_host_message()),
    }
}

pub open spec fn rsync_target_of(r: RemoteView) -> Result<Text, Text> {
    match r.host {
        Some(h) => Ok(remote_target_of(r, rsync_host_of(h))),
        None => Err(missing_host_message()),
    }
}

fn remote_target(remote: &RemoteConfig, host: &str) -> (r: String)
    ensures
        r@ == remote_target_of(remote@, host@),
{
    match &remote.user {
        Some(user) => {
            let mut r = to_string(user.as_str());
            r.append("@");
            r.append(host);
            r
        },
        None => to_string(host),
    }
}

pub fn rsync_host(host: &str) -> (r: String)
    ensures
        r@ == rsync_host_of(host@),
{
    if str_contains_char(host, ':') && !(str_starts_with_char(host, '[') && str_ends_with_char(
        host,
        ']',
    )) {
        let mut r = to_string("[");
        r.append(host);
        r.append("]");
        return r;
    }
    to_string(host)
}

pub fn remote_ssh_target(remote: &RemoteConfig) -> (r: Result<String, String>)
    ensures
        match r {
            Ok(t) => ssh_target_of(remote@) == Ok::<Text, Text>(t@),
            Err(e) => ssh_target_of(remote@) == Err::<Text, Text>(e@),
        },
{
    match &remote.host {
        Some(host) => Ok(remote_target(remote, host.as_str())),
        None => Err(
            to_string(
                "remote.host is required for plan/deploy; set it in services.local.toml or use an SSH config host alias",
            ),
        ),
    }
}

pub fn remote_rsync_target(remote: &RemoteConfig) -> (r: Result<String, String>)
    ensures
        match r {
            Ok(t) => rsync_target_of(remote@) == Ok::<Text, Text>(t@),
            Err(e) => rsync_target_of(remote@) == Err::<Text, Text>(e@),
        },
{
    match &remote.host {
        Some(host) => {
            let h = rsync_host(host.as_str());
            Ok(remote_target(remote, h.as_str()))
        },
        None => Err(
            to_string(
                "remote.host is required for plan/deploy; set it in services.local.toml or use an SSH config host alias",
            ),
        ),
    }
}

// ---------------------------------------------------------------------------
// ssh and rsync
// ---------------------------------------------------------------------------

/// `-p <port>`, then `-i <identity file>` when one is set, then the extra arguments.
pub open spec fn ssh_args_of(r: RemoteView) -> Seq<Text> {
    let base = seq!["-p"@, decimal(r.port as nat)];
    let with_identity = match r.identity_file {
        Some(f) => base + seq!["-i"@, f],
        None => base,
    };
    with_identity + r.extra_ssh_args
}

/// The ssh program and its arguments as one shell-quoted string, as rsync's `-e` wants it.
pub open spec fn ssh_transport_of(r: RemoteView) -> Text {
    join_with(
        seq![sh_quote_of(r.ssh_program)] + ssh_args_of(r).map_values(|a: Text| sh_quote_of(a)),
        " "@,
    )
}

pub fn ssh_args(remote: &RemoteConfig) -> (r: Vec<String>)
    ensures
        strings_view(r@) == ssh_args_of(remote@),
{
    let mut args = vec![to_string("-p"), u64_to_decimal(remote.port as u64)];
    if let Some(identity_file) = &remote.identity_file {
        args.push(to_string("-i"));
        args.push(to_string(identity_file.as_str()));
    }
    let ghost base = strings_view(args@);
    let mut i: usize = 0;
    while i < remote.extra_ssh_args.len()
        invariant
            i <= remote.extra_ssh_args@.len(),
            strings_view(args@) =~= base + strings_view(remote.extra_ssh_args@).take(i as int),
        decreases remote.extra_ssh_args@.len() - i,
    {
        let a = to_string(remote.extra_ssh_args[i].as_str());
        let ghost prev = args@;
        args.push(a);
        assert(strings_view(args@) =~= strings_view(prev).push(a@));
        assert(strings_view(remote.extra_ssh_args@).take(i + 1) =~= strings_view(
            remote.extra_ssh_args@,
        ).take(i as int).push(a@));
        i = i + 1;
    }
    assert(strings_view(remote.extra_ssh_args@).take(i as int) =~= strings_view(
        remote.extra_ssh_args@,
    ));
    assert(base =~= match remote@.identity_file {
        Some(f) => seq!["-p"@, decimal(remote@.port as nat)] + seq!["-i"@, f],
        None => seq!["-p"@, decimal(remote@.port as nat)],
    });
    args
}

pub fn ssh_transport(remote: &RemoteConfig) -> (r: String)
    ensures
        r@ == ssh_transport_of(remote@),
{
    let args = ssh_args(remote);
    let ghost av = strings_view(args@);
    let mut parts = vec![sh_quote(remote.ssh_program.as_str())];
    let mut i: usize = 0;
    while i < args.len()
        invariant
            i <= args@.len(),
            av == strings_view(args@),
            av == ssh_args_of(remote@),
            strings_view(parts@) =~= seq![sh_quote_of(remote@.ssh_program)] + av.take(
                i as int,
            ).map_values(|a: Text| sh_quote_of(a)),
        decreases args@.len() - i,
    {
        let q = sh_quote(args[i].as_str());
        let ghost prev = parts@;
        parts.push(q);
        assert(strings_view(parts@) =~= strings_view(prev).push(q@));
        assert(av[i as int] == args@[i as int]@);
        assert(av.take(i + 1).map_values(|a: Text| sh_quote_of(a)) =~= av.take(
            i as int,
        ).map_values(|a: Text| sh_quote_of(a)).push(sh_quote_of(av[i as int])));
        i = i + 1;
    }
    assert(av.take(i as int) =~= av);
    join_strings(&parts, " ")
}

/// `ssh <args> <target> <script>`.
pub open spec fn ssh_command_of(r: RemoteView, target: Text, script: Text) -> CommandView {
    CommandView {
        args: ssh_args_of(r) + seq![target, script],
        ..command_of(r.ssh_program)
    }
}

pub fn ssh_command(remote: &RemoteConfig, remote_target: &str, script: &str) -> (r: ProcessCommand)
    ensures
        r@ == ssh_command_of(remote@, remote_target@, script@),
{
    let args = ssh_args(remote);
    let c = ProcessCommand::new(remote.ssh_program.as_str()).args(&args).arg(remote_target).arg(
        script,
    );
    assert(c@.args =~= ssh_args_of(remote@) + seq![remote_target@, script@]);
    c
}

/// `rsync -az -e <transport> [--delete] <source> <target>:<destination>`.
pub open spec fn rsync_command_of(
    r: RemoteView,
    target: Text,
    source: Text,
    destination: Text,
    delete: bool,
    source_is_dir: bool,
) -> CommandView {
    let base = seq!["-az"@, "-e"@, ssh_transport_of(r)];
    let flags = if delete {
        base + seq!["--delete"@]
    } else {
        base
    };
    CommandView {
        args: flags + seq![rsync_source_of(source, source_is_dir), target + ":"@ + destination],
        ..command_of(r.rsync_program)
    }
}

pub fn rsync_command(
    remote: &RemoteConfig,
    remote_target: &str,
    source: &str,
    remote_destination: &str,
    delete: bool,
    source_is_dir: bool,
) -> (r: ProcessCommand)
    ensures
        r@ == rsync_command_of(
            remote@,
            remote_target@,
            source@,
            remote_destination@,
            delete,
            source_is_dir,
        ),
{
    let transport = ssh_transport(remote);
    let mut command = ProcessCommand::new(remote.rsync_program.as_str()).arg("-az").arg("-e").arg(
        transport.as_str(),
    );
    if delete {
        command = command.arg("--delete");
    }
    let src = rsync_source(source, source_is_dir);
    let mut dest = to_string(remote_target);
    dest.append(":");
    dest.append(remote_destination);
    let c = command.arg(src.as_str()).arg(dest.as_str());
    proof {
        let spec = rsync_command_of(
            remote@,
            remote_target@,
            source@,
            remote_destination@,
            delete,
            source_is_dir,
        );
        assert(c@.args =~= spec.args);
    }
    c
}

/// The PocketBase rsync: like `rsync_command`, deleting stale files but never
/// touching `pb_data/`.
pub open spec fn pocketbase_rsync_command_of(
    r: RemoteView,
    target: Text,
    source_path: Text,
    destination: Text,
) -> CommandView {
    CommandView {
        args: seq![
            "-az"@,
            "--delete"@,
            "--exclude"@,
            "pb_data/"@,
            "-e"@,
            ssh_transport_of(r),
            rsync_source_of(source_path, true),
            target + ":"@ + destination,
        ],
        ..command_of(r.rsync_program)
    }
}

/// PocketBase's upload mirrors its source directory but leaves its live data
/// alone: rsync gets `--delete` together with `--exclude pb_data/`, then the
/// source directory and `<target>:<destination>`.
pub proof fn law_pocketbase_upload_excludes_data(r: RemoteView, target: Text, source_path: Text, destination: Text)
    ensures
        ({
            let c = pocketbase_rsync_command_of(r, target, source_path, destination);
            let n = c.args.len();
            &&& c.program == r.rsync_program
            &&& c.args.contains("--delete"@)
            &&& c.args[2] == "--exclude"@ && c.args[3] == "pb_data/"@
            &&& c.args[n - 2] == rsync_source_of(source_path, true)
            &&& c.args[n - 1] == target + ":"@ + destination
        }),
{
    let c = pocketbase_rsync_command_of(r, target, source_path, destination);
    assert(c.args[1] == "--delete"@);
}

pub fn pocketbase_rsync_command(
    remote: &RemoteConfig,
    remote_target: &str,
    source_path: &str,
    remote_destination: &str,
) -> (r: ProcessCommand)
    ensures
        r@ == pocketbase_rsync_command_of(
            remote@,
            remote_target@,
            source_path@,
            remote_destination@,
        ),
{
    let transport = ssh_transport(remote);
    let src = rsync_source(source_path, true);
    let mut dest = to_string(remote_target);
    dest.append(":");
    dest.append(remote_destination);
    let c = ProcessCommand::new(remote.rsync_program.as_str()).arg("-az").arg("--delete").arg(
        "--exclude",
    ).arg("pb_data/").arg("-e").arg(transport.as_str()).arg(src.as_str()).arg(dest.as_str());
    proof {
        let spec = pocketbase_rsync_command_of(
            remote@,
            remote_target@,
            source_path@,
            remote_destination@,
        );
        assert(c@.args =~= spec.args);
    }
    c
}

// ---------------------------------------------------------------------------
// Laws
// ---------------------------------------------------------------------------

/// An upload deletes on the remote side what its source no longer holds
/// exactly when asked to: with `delete` rsync gets `-az`, `-e`, the ssh
/// transport, `--delete`, the source and `<target>:<destination>`; without it,
/// the same five arguments and no room for `--delete`. The configured rsync
/// program runs it.
pub proof fn law_rsync_deletes_only_when_asked(
    r: RemoteView,
    target: Text,
    source: Text,
    destination: Text,
    delete: bool,
    source_is_dir: bool,
)
    ensures
        ({
            let c = rsync_command_of(r, target, source, destination, delete, source_is_dir);
            let n = c.args.len();
            &&& c.program == r.rsync_program
            &&& n == (if delete { 6int } else { 5int })
            &&& c.args[0] == "-az"@
            &&& c.args[1] == "-e"@
            &&& c.args[2] == ssh_transport_of(r)
            &&& delete ==> c.args[3] == "--delete"@ && c.args.contains("--delete"@)
            &&& c.args[n - 2] == rsync_source_of(source, source_is_dir)
            &&& c.args[n - 1] == target + ":"@ + destination
        }),
{
    let c = rsync_command_of(r, target, source, destination, delete, source_is_dir);
    if delete {
        assert(c.args[3] == "--delete"@);
    }
}

/// Bracketing a host for rsync twice changes nothing more than bracketing it once.
pub proof fn law_rsync_host_idempotent(host: Text)
    ensures
        rsync_host_of(rsync_host_of(host)) == rsync_host_of(host),
{
    reveal_strlit("[");
    reveal_strlit("]");
    let b = rsync_host_of(host);
    if b != host {
        assert(b[0] == '[');
        assert(b.last() == ']');
    }
}

/// Only hosts with a `:` (IPv6 addresses) are bracketed, and bracketing keeps the host inside.
pub proof fn law_rsync_host_brackets_only_ipv6(host: Text)
    ensures
        !host.contains(':') ==> rsync_host_of(host) == host,
        rsync_host_of(host) == host || rsync_host_of(host) == "["@ + host + "]"@,
{
}

/// A remote child path joins parent and child with exactly one `/`: the
/// parent part never ends in `/` and the child part never starts with one.
pub proof fn law_remote_child_single_separator(parent: Text, child: Text)
    ensures
        ({
            let p = trim_end_char(parent, '/');
            let c = trim_start_char(child, '/');
            &&& remote_child_of(parent, child) == p + "/"@ + c
            &&& p.len() == 0 || p.last() != '/'
            &&& c.len() == 0 || c[0] != '/'
        }),
    decreases parent.len() + child.len(),
{
    if parent.len() > 0 && parent.last() == '/' {
        law_remote_child_single_separator(parent.drop_last(), child);
    } else if child.len() > 0 && child[0] == '/' {
        law_remote_child_single_separator(parent, child.drop_first());
    }
}

// ---------------------------------------------------------------------------
// How a POSIX shell reads a quoted word
// ---------------------------------------------------------------------------

pub open spec fn prepend_char(c: char, o: Option<Text>) -> Option<Text> {
    match o {
        Some(v) => Some(seq![c] + v),
        None => None,
    }
}

/// The value a POSIX shell reads from the word `w`, outside quotes: a
/// character that `sh_quote` leaves bare stands for itself, a backslash
/// quotes the next character (a backslash and a newline continue the line),
/// and `'` opens a single-quoted part. Any other character (a blank, an
/// operator, an expansion) is outside this reading, which gives `None`.
pub open spec fn shell_word_value(w: Text) -> Option<Text>
    decreases w.len(),
{
    if w.len() == 0 {
        Some(seq![])
    } else if w[0] == '\'' {
        shell_quoted_value(w.drop_first())
    } else if w[0] == '\\' {
        if w.len() < 2 {
            None
        } else if w[1] == '\n' {
            shell_word_value(w.subrange(2, w.len() as int))
        } else {
            prepend_char(w[1], shell_word_value(w.subrange(2, w.len() as int)))
        }
    } else if shell_safe_char(w[0]) {
        prepend_char(w[0], shell_word_value(w.drop_first()))
    } else {
        None
    }
}

/// The value read from `w` inside a single-quoted part: every character
/// stands for itself up to the next `'`, after which the word goes on
/// outside quotes; an unclosed quote gives `None`.
pub open spec fn shell_quoted_value(w: Text) -> Option<Text>
    decreases w.len(),
{
    if w.len() == 0 {
        None
    } else if w[0] == '\'' {
        shell_word_value(w.drop_first())
    } else {
        prepend_char(w[0], shell_quoted_value(w.drop_first()))
    }
}

proof fn lemma_safe_word_reads_itself(w: Text)
    requires
        forall|i: int| 0 <= i < w.len() ==> shell_safe_char(#[trigger] w[i]),
    ensures
        shell_word_value(w) == Some(w),
    decreases w.len(),
{
    if w.len() > 0 {
        assert(shell_safe_char(w[0]));
        assert forall|i: int| 0 <= i < w.drop_first().len() implies shell_safe_char(#[trigger] w.drop_first()[i]) by {
            assert(w.drop_first()[i] == w[i + 1]);
        }
        lemma_safe_word_reads_itself(w.drop_first());
        assert(seq![w[0]] + w.drop_first() =~= w);
    } else {
        assert(w =~= Seq::<char>::empty());
    }
}

proof fn lemma_replace_concat(a: Text, b: Text, c: char, rep: Text)
    ensures
        replace_char(a + b, c, rep) == replace_char(a, c, rep) + replace_char(b, c, rep),
    decreases b.len(),
{
    if b.len() == 0 {
        assert(a + b =~= a);
        assert(replace_char(a, c, rep) + replace_char(b, c, rep) =~= replace_char(a, c, rep));
    } else {
        assert((a + b).drop_last() =~= a + b.drop_last());
        assert((a + b).last() == b.last());
        lemma_replace_concat(a, b.drop_last(), c, rep);
    }
}

proof fn lemma_quoted_reads_back(v: Text, t: Text)
    ensures
        shell_quoted_value(replace_char(v, '\'', "'\\''"@) + seq!['\''] + t) == match shell_word_value(t) {
            Some(x) => Some(v + x),
            None => None::<Text>,
        },
    decreases v.len(),
{
    reveal_strlit("'\\''");
    let q = "'\\''"@;
    assert(q =~= seq!['\'', '\\', '\'', '\'']);
    if v.len() == 0 {
        assert(replace_char(v, '\'', q) =~= Seq::<char>::empty());
        let w = replace_char(v, '\'', q) + seq!['\''] + t;
        assert(w.drop_first() =~= t);
        assert(v + Seq::<char>::empty() =~= v);
        if let Some(x) = shell_word_value(t) {
            assert(v + x =~= x);
        }
    } else {
        let rest = v.drop_first();
        assert(v =~= seq![v[0]] + rest);
        lemma_replace_concat(seq![v[0]], rest, '\'', q);
        assert(seq![v[0]].drop_last() =~= Seq::<char>::empty());
        let piece = if v[0] == '\'' { q } else { seq![v[0]] };
        assert(replace_char(Seq::<char>::empty(), '\'', q) =~= Seq::<char>::empty());
        assert(seq![v[0]].last() == v[0]);
        assert(replace_char(seq![v[0]], '\'', q) =~= piece);
        let r = replace_char(rest, '\'', q) + seq!['\''] + t;
        lemma_quoted_reads_back(rest, t);
        let w = replace_char(v, '\'', q) + seq!['\''] + t;
        assert(w =~= piece + r);
        if v[0] == '\'' {
            let w1 = w.drop_first();
            assert(w1 =~= seq!['\\', '\'', '\''] + r);
            let w2 = w1.subrange(2, w1.len() as int);
            assert(w2 =~= seq!['\''] + r);
            assert(w2.drop_first() =~= r);
            assert(shell_word_value(w2) == shell_quoted_value(r));
            assert(shell_word_value(w1) == prepend_char('\'', shell_word_value(w2)));
            assert(shell_quoted_value(w) == shell_word_value(w1));
        } else {
            assert(w.drop_first() =~= r);
            assert(shell_quoted_value(w) == prepend_char(v[0], shell_quoted_value(r)));
        }
        if let Some(x) = shell_word_value(t) {
            assert(seq![v[0]] + (rest + x) =~= v + x);
        }
    }
}

/// A POSIX shell reads `sh_quote(v)` back as the one word `v`.
pub proof fn law_sh_quote_reads_back(v: Text)
    ensures
        shell_word_value(sh_quote_of(v)) == Some(v),
{
    reveal_strlit("''");
    if v.len() == 0 {
        let w = "''"@;
        assert(w =~= seq!['\'', '\'']);
        assert(w.drop_first() =~= seq!['\'']);
        assert(w.drop_first().drop_first() =~= Seq::<char>::empty());
        assert(v =~= Seq::<char>::empty());
    } else if forall|i: int| 0 <= i < v.len() ==> shell_safe_char(#[trigger] v[i]) {
        lemma_safe_word_reads_itself(v);
    } else {
        let w = single_quoted(v);
        lemma_quoted_reads_back(v, Seq::<char>::empty());
        assert(w.drop_first() =~= replace_char(v, '\'', "'\\''"@) + seq!['\''] + Seq::<char>::empty());
        assert(v + Seq::<char>::empty() =~= v);
    }
}

} // verus!
