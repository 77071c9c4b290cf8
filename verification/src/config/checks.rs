//! The individual rules that a configuration value must satisfy.
//!
//! Each rule is a spec function giving the error message it reports (`None`
//! when the value is accepted) and an executable check proved to report it.
use vstd::prelude::*;

use crate::config::types::{BuildView, Text};
use crate::paths::{ComponentKind, path_components, path_components_of};
use crate::text::{char_is_ascii_alnum, char_is_ascii_alpha, char_is_ascii_digit,
    char_is_ascii_lower, has_substring, has_white_space, is_ascii_alnum, is_ascii_alpha,
    is_ascii_digit, is_ascii_lower, is_blank, push_range, str_contains, str_contains_char,
    str_ends_with, str_has_white_space, str_is_blank, str_starts_with, str_starts_with_char,
    str_trim_end_char, strings_view, to_string, trim_end_char};

verus! {

// ---------------------------------------------------------------------------
// Message building
// ---------------------------------------------------------------------------

pub fn concat2(a: &str, b: &str) -> (r: String)
    ensures
        r@ == a@ + b@,
{
    let mut r = to_string(a);
    r.append(b);
    r
}

pub fn concat3(a: &str, b: &str, c: &str) -> (r: String)
    ensures
        r@ == a@ + b@ + c@,
{
    let mut r = to_string(a);
    r.append(b);
    r.append(c);
    r
}

pub fn concat4(a: &str, b: &str, c: &str, d: &str) -> (r: String)
    ensures
        r@ == a@ + b@ + c@ + d@,
{
    let mut r = to_string(a);
    r.append(b);
    r.append(c);
    r.append(d);
    r
}

pub fn concat5(a: &str, b: &str, c: &str, d: &str, e: &str) -> (r: String)
    ensures
        r@ == a@ + b@ + c@ + d@ + e@,
{
    let mut r = to_string(a);
    r.append(b);
    r.append(c);
    r.append(d);
    r.append(e);
    r
}

// ---------------------------------------------------------------------------
// Names
// ---------------------------------------------------------------------------

pub open spec fn service_name_char_ok(c: char, i: int) -> bool {
    is_ascii_lower(c) || is_ascii_digit(c) || ((c == '-' || c == '_' || c == '.') && i > 0)
}

/// Lower-case ASCII letters and digits, with `-`, `_` and `.` allowed after the first character.
pub open spec fn is_valid_service_name(n: Text) -> bool {
    n.len() > 0 && forall|i: int| 0 <= i < n.len() ==> service_name_char_ok(#[trigger] n[i], i)
}

pub open spec fn service_name_error(n: Text) -> Option<Text> {
    if is_valid_service_name(n) {
        None
    } else {
        Some(
            "service name `"@ + n
                + "` must use lowercase ASCII letters, digits, dots, dashes, or underscores"@,
        )
    }
}

pub fn validate_service_name(name: &str) -> (r: Result<(), String>)
    ensures
        r is Ok <==> service_name_error(name@) is None,
        r matches Err(e) ==> Some(e@) == service_name_error(name@),
{
    let n = name.unicode_len();
    let mut valid = n > 0;
    let mut i: usize = 0;
    while valid && i < n
        invariant
            n == name@.len(),
            i <= n,
            valid ==> n > 0,
            valid ==> forall|j: int| 0 <= j < i ==> service_name_char_ok(#[trigger] name@[j], j),
            !valid ==> !is_valid_service_name(name@),
        decreases n - i,
    {
        let c = name.get_char(i);
        if !(char_is_ascii_lower(c) || char_is_ascii_digit(c) || ((c == '-' || c == '_' || c
            == '.') && i > 0)) {
            valid = false;
            assert(!service_name_char_ok(name@[i as int], i as int));
        }
        i = i + 1;
    }
    if !valid {
        return Err(
            concat3(
                "service name `",
                name,
                "` must use lowercase ASCII letters, digits, dots, dashes, or underscores",
            ),
        );
    }
    Ok(())
}

pub open spec fn host_error(label: Text, host: Text) -> Option<Text> {
    if is_blank(host) || host.contains('/') || has_white_space(host) {
        Some(label + " is not a valid host name"@)
    } else {
        None
    }
}

pub fn validate_host(label: &str, host: &str) -> (r: Result<(), String>)
    ensures
        r is Ok <==> host_error(label@, host@) is None,
        r matches Err(e) ==> Some(e@) == host_error(label@, host@),
{
    if str_is_blank(host) || str_contains_char(host, '/') || str_has_white_space(host) {
        return Err(concat2(label, " is not a valid host name"));
    }
    Ok(())
}

pub open spec fn remote_path_error(label: Text, path: Text) -> Option<Text> {
    if !(path.len() > 0 && path[0] == '/') || has_substring(path, "/../"@) || "/.."@.is_suffix_of(
        path,
    ) {
        Some(label + " remote path `"@ + path + "` must be an absolute path without `..`"@)
    } else {
        None
    }
}

pub fn validate_remote_path(label: &str, path: &str) -> (r: Result<(), String>)
    ensures
        r is Ok <==> remote_path_error(label@, path@) is None,
        r matches Err(e) ==> Some(e@) == remote_path_error(label@, path@),
{
    if !str_starts_with_char(path, '/') || str_contains(path, "/../") || str_ends_with(path, "/..") {
        return Err(concat4(label, " remote path `", path, "` must be an absolute path without `..`"));
    }
    Ok(())
}

pub open spec fn entrypoint_error(service: Text, entrypoint: Text) -> Option<Text> {
    if is_blank(entrypoint) || entrypoint.contains('\0') || has_substring(entrypoint, ".."@) {
        Some("deno_app `"@ + service + "` entrypoint is invalid"@)
    } else {
        None
    }
}

pub fn validate_entrypoint(service_name: &str, entrypoint: &str) -> (r: Result<(), String>)
    ensures
        r is Ok <==> entrypoint_error(service_name@, entrypoint@) is None,
        r matches Err(e) ==> Some(e@) == entrypoint_error(service_name@, entrypoint@),
{
    if str_is_blank(entrypoint) || str_contains_char(entrypoint, '\0') || str_contains(
        entrypoint,
        "..",
    ) {
        return Err(concat3("deno_app `", service_name, "` entrypoint is invalid"));
    }
    Ok(())
}

/// Only a blank host, one holding `/` or one holding white space is refused.
pub proof fn law_host_refused_only_when_blank_slash_or_space(label: Text, host: Text)
    ensures
        !is_blank(host) && !host.contains('/') && !has_white_space(host) ==> host_error(label, host) is None,
        is_blank(host) || host.contains('/') || has_white_space(host) ==> host_error(label, host) == Some(
            label + " is not a valid host name"@,
        ),
{
}

/// A remote path is accepted exactly when it is absolute and has no `..`
/// component: it starts with `/`, holds no `/../` and does not end in `/..`.
pub proof fn law_remote_path_absolute_without_dotdot(label: Text, path: Text)
    ensures
        remote_path_error(label, path) is None <==> (path.len() > 0 && path[0] == '/' && !has_substring(path, "/../"@)
            && !"/.."@.is_suffix_of(path)),
{
}

/// Only a blank value, one holding white space or one holding a NUL character
/// is refused as a token.
pub proof fn law_token_refused_only_when_blank_space_or_nul(label: Text, value: Text)
    ensures
        token_error(label, value) is None <==> (!is_blank(value) && !has_white_space(value) && !value.contains('\0')),
{
}

/// Only a blank entrypoint, one holding a NUL character or one holding `..` is
/// refused; every other entrypoint is accepted, whatever else it holds (a
/// relative path with `/` such as `build/index.js`, a bare file name).
pub proof fn law_entrypoint_refused_only_when_blank_nul_or_dotdot(service: Text, entrypoint: Text)
    ensures
        !is_blank(entrypoint) && !entrypoint.contains('\0') && !has_substring(entrypoint, ".."@)
            ==> entrypoint_error(service, entrypoint) is None,
        is_blank(entrypoint) || entrypoint.contains('\0') || has_substring(entrypoint, ".."@)
            ==> entrypoint_error(service, entrypoint) == Some(
            "deno_app `"@ + service + "` entrypoint is invalid"@,
        ),
{
}

pub open spec fn token_error(label: Text, value: Text) -> Option<Text> {
    if is_blank(value) || has_white_space(value) || value.contains('\0') {
        Some(label + " must be a single non-empty token"@)
    } else {
        None
    }
}

pub fn validate_token(label: &str, value: &str) -> (r: Result<(), String>)
    ensures
        r is Ok <==> token_error(label@, value@) is None,
        r matches Err(e) ==> Some(e@) == token_error(label@, value@),
{
    if str_is_blank(value) || str_has_white_space(value) || str_contains_char(value, '\0') {
        return Err(concat2(label, " must be a single non-empty token"));
    }
    Ok(())
}

/// ASCII letters, digits and `_`, not starting with a digit.
pub open spec fn is_valid_environment_key(v: Text) -> bool {
    &&& v.len() > 0
    &&& forall|i: int| 0 <= i < v.len() ==> is_ascii_alnum(#[trigger] v[i]) || v[i] == '_'
    &&& is_ascii_alpha(v[0]) || v[0] == '_'
}

pub open spec fn environment_key_error(label: Text, v: Text) -> Option<Text> {
    if is_valid_environment_key(v) {
        None
    } else {
        Some(label + " must be a valid environment variable name"@)
    }
}

pub fn validate_environment_key(label: &str, value: &str) -> (r: Result<(), String>)
    ensures
        r is Ok <==> environment_key_error(label@, value@) is None,
        r matches Err(e) ==> Some(e@) == environment_key_error(label@, value@),
{
    let n = value.unicode_len();
    let mut valid = n > 0;
    let mut i: usize = 0;
    while valid && i < n
        invariant
            n == value@.len(),
            i <= n,
            valid ==> n > 0,
            valid ==> forall|j: int| 0 <= j < i ==> is_ascii_alnum(#[trigger] value@[j]) || value@[j] == '_',
            !valid ==> !is_valid_environment_key(value@),
        decreases n - i,
    {
        let c = value.get_char(i);
        if !(char_is_ascii_alnum(c) || c == '_') {
            valid = false;
        }
        i = i + 1;
    }
    if valid {
        let c = value.get_char(0);
        if !(char_is_ascii_alpha(c) || c == '_') {
            valid = false;
        }
    }
    if !valid {
        return Err(concat2(label, " must be a valid environment variable name"));
    }
    Ok(())
}

// ---------------------------------------------------------------------------
// Relative source paths
// ---------------------------------------------------------------------------

/// A component that makes a source leave its checkout: `..`, the root, or a
/// drive prefix.
pub open spec fn is_escaping_component(k: ComponentKind) -> bool {
    k == ComponentKind::ParentDir || k == ComponentKind::RootDir || k == ComponentKind::Prefix
}

/// A sync source must be non-empty, and no component that `Path::components`
/// yields for it may leave the checkout.
pub open spec fn sync_source_error(service: Text, source: Text) -> Option<Text> {
    if source.len() == 0 || exists|i: int|
        0 <= i < path_components_of(source).len() && is_escaping_component(#[trigger] path_components_of(source)[i]) {
        Some("service `"@ + service + "` sync_source must be a relative path without `..`"@)
    } else {
        None
    }
}

/// A sync source is a non-empty relative path with no `..` component; it is
/// kept as written.
pub fn validate_sync_source(service_name: &str, source: &str) -> (r: Result<String, String>)
    ensures
        r is Ok <==> sync_source_error(service_name@, source@) is None,
        r matches Ok(s) ==> s@ == source@,
        r matches Err(e) ==> Some(e@) == sync_source_error(service_name@, source@),
{
    let kinds = path_components(source);
    let mut escapes = false;
    let mut i: usize = 0;
    while i < kinds.len()
        invariant
            i <= kinds@.len(),
            kinds@ == path_components_of(source@),
            escapes == exists|j: int| 0 <= j < i && is_escaping_component(#[trigger] kinds@[j]),
        decreases kinds@.len() - i,
    {
        let k = kinds[i];
        if k == ComponentKind::ParentDir || k == ComponentKind::RootDir || k == ComponentKind::Prefix {
            escapes = true;
        }
        i = i + 1;
    }
    if source.unicode_len() == 0 || escapes {
        return Err(
            concat3("service `", service_name, "` sync_source must be a relative path without `..`"),
        );
    }
    Ok(to_string(source))
}

// ---------------------------------------------------------------------------
// Build commands
// ---------------------------------------------------------------------------

pub open spec fn build_command_error(service: Text, command: Seq<Text>) -> Option<Text> {
    if command.len() == 0 || is_blank(command[0]) {
        Some("service `"@ + service + "` build command must contain a program"@)
    } else if exists|i: int| 0 <= i < command.len() && (#[trigger] command[i]).contains('\0') {
        Some("service `"@ + service + "` build command contains an invalid argument"@)
    } else {
        None
    }
}

/// The error of the first faulty command from index `i` on.
pub open spec fn build_commands_error(service: Text, commands: Seq<Seq<Text>>, i: int) -> Option<
    Text,
>
    decreases commands.len() - i,
{
    if i < 0 || i >= commands.len() {
        None
    } else {
        match build_command_error(service, commands[i]) {
            Some(e) => Some(e),
            None => build_commands_error(service, commands, i + 1),
        }
    }
}

pub open spec fn build_error(service: Text, build: Option<BuildView>) -> Option<Text> {
    match build {
        None => None,
        Some(b) => {
            if b.command is Some && b.commands.len() > 0 {
                Some(
                    "service `"@ + service
                        + "` build must use either command or commands, not both"@,
                )
            } else if crate::config::types::build_commands_of(b).len() == 0 {
                Some("service `"@ + service + "` build must contain at least one command"@)
            } else {
                build_commands_error(service, crate::config::types::build_commands_of(b), 0)
            }
        },
    }
}

fn validate_build_command(service_name: &str, command: &Vec<String>) -> (r: Result<(), String>)
    ensures
        r is Ok <==> build_command_error(service_name@, strings_view(command@)) is None,
        r matches Err(e) ==> Some(e@) == build_command_error(service_name@, strings_view(command@)),
{
    let ghost cv = strings_view(command@);
    if command.len() == 0 || str_is_blank(command[0].as_str()) {
        return Err(concat3("service `", service_name, "` build command must contain a program"));
    }
    assert(cv.len() > 0 && cv[0] == command@[0]@);
    let mut i: usize = 0;
    while i < command.len()
        invariant
            cv == strings_view(command@),
            i <= command@.len(),
            cv.len() > 0 && !is_blank(cv[0]),
            forall|j: int| 0 <= j < i ==> !(#[trigger] cv[j]).contains('\0'),
        decreases command@.len() - i,
    {
        if str_contains_char(command[i].as_str(), '\0') {
            assert(cv[i as int].contains('\0'));
            return Err(
                concat3("service `", service_name, "` build command contains an invalid argument"),
            );
        }
        i = i + 1;
    }
    Ok(())
}

pub fn validate_build(service_name: &str, build: &Option<crate::config::types::BuildConfig>) -> (r:
    Result<(), String>)
    ensures
        r is Ok <==> build_error(service_name@, crate::config::types::opt_build_view(build)) is None,
        r matches Err(e) ==> Some(e@) == build_error(
            service_name@,
            crate::config::types::opt_build_view(build),
        ),
{
    let ghost bv = crate::config::types::opt_build_view(build);
    if let Some(b) = build {
        if b.command.is_some() && b.commands.len() > 0 {
            return Err(
                concat3(
                    "service `",
                    service_name,
                    "` build must use either command or commands, not both",
                ),
            );
        }
        let commands = b.commands();
        let ghost cmds = crate::config::types::build_commands_of(b@);
        assert(commands@.map_values(|c: &Vec<String>| strings_view(c@)) == cmds);
        if commands.len() == 0 {
            assert(cmds.len() == 0);
            return Err(
                concat3("service `", service_name, "` build must contain at least one command"),
            );
        }
        let mut i: usize = 0;
        while i < commands.len()
            invariant
                i <= commands@.len(),
                commands@.map_values(|c: &Vec<String>| strings_view(c@)) == cmds,
                cmds.len() == commands@.len(),
                bv == crate::config::types::opt_build_view(build),
                build_error(service_name@, bv) == build_commands_error(service_name@, cmds, 0),
                build_commands_error(service_name@, cmds, 0) == build_commands_error(
                    service_name@,
                    cmds,
                    i as int,
                ),
            decreases commands@.len() - i,
        {
            assert(cmds[i as int] == strings_view(commands@[i as int]@));
            match validate_build_command(service_name, commands[i]) {
                Ok(()) => {},
                Err(e) => {
                    assert(build_commands_error(service_name@, cmds, i as int) == Some(e@));
                    return Err(e);
                },
            }
            i = i + 1;
        }
    }
    Ok(())
}

// ---------------------------------------------------------------------------
// Systemd unit names and routes
// ---------------------------------------------------------------------------

pub open spec fn unit_char_ok(c: char) -> bool {
    is_ascii_alnum(c) || c == '.' || c == '_' || c == '-' || c == '@'
}

pub open spec fn systemd_name_error(service: Text, prefix: Text, unit: Text) -> Option<Text> {
    if !prefix.is_prefix_of(unit) || !".service"@.is_suffix_of(unit) {
        Some(
            "systemd service for `"@ + service + "` must start with `"@ + prefix
                + "` and end with `.service`"@,
        )
    } else if !(forall|i: int| 0 <= i < unit.len() ==> unit_char_ok(#[trigger] unit[i])) {
        Some("systemd service name `"@ + unit + "` contains invalid characters"@)
    } else {
        None
    }
}

pub fn validate_systemd_service_name(service_name: &str, managed_prefix: &str, systemd_name: &str) -> (r:
    Result<(), String>)
    ensures
        r is Ok <==> systemd_name_error(service_name@, managed_prefix@, systemd_name@) is None,
        r matches Err(e) ==> Some(e@) == systemd_name_error(
            service_name@,
            managed_prefix@,
            systemd_name@,
        ),
{
    if !str_starts_with(systemd_name, managed_prefix) || !str_ends_with(systemd_name, ".service") {
        let e = concat5(
            "systemd service for `",
            service_name,
            "` must start with `",
            managed_prefix,
            "` and end with `.service`",
        );
        return Err(e);
    }
    let n = systemd_name.unicode_len();
    let mut i: usize = 0;
    while i < n
        invariant
            n == systemd_name@.len(),
            i <= n,
            managed_prefix@.is_prefix_of(systemd_name@),
            ".service"@.is_suffix_of(systemd_name@),
            forall|j: int| 0 <= j < i ==> unit_char_ok(#[trigger] systemd_name@[j]),
        decreases n - i,
    {
        let c = systemd_name.get_char(i);
        if !(char_is_ascii_alnum(c) || c == '.' || c == '_' || c == '-' || c == '@') {
            assert(!unit_char_ok(systemd_name@[i as int]));
            assert(!(forall|j: int| 0 <= j < systemd_name@.len() ==> unit_char_ok(
                #[trigger] systemd_name@[j],
            )));
            return Err(
                concat3("systemd service name `", systemd_name, "` contains invalid characters"),
            );
        }
        i = i + 1;
    }
    Ok(())
}

/// Route paths start with `/`, have no `//` and no `..`; trailing slashes are
/// dropped, leaving `/` for the root route.
pub open spec fn normalize_route_path_spec(path: Text) -> Result<Text, Text> {
    if !(path.len() > 0 && path[0] == '/') || has_substring(path, "//"@) || has_substring(
        path,
        ".."@,
    ) {
        Err("route_path `"@ + path + "` must start with `/` and must not contain `..`"@)
    } else if trim_end_char(path, '/').len() == 0 {
        Ok("/"@)
    } else {
        Ok(trim_end_char(path, '/'))
    }
}

pub fn normalize_route_path(path: &str) -> (r: Result<String, String>)
    ensures
        match r {
            Ok(p) => normalize_route_path_spec(path@) == Ok::<Text, Text>(p@),
            Err(e) => normalize_route_path_spec(path@) == Err::<Text, Text>(e@),
        },
{
    if !str_starts_with_char(path, '/') || str_contains(path, "//") || str_contains(path, "..") {
        return Err(
            concat3("route_path `", path, "` must start with `/` and must not contain `..`"),
        );
    }
    let normalized = str_trim_end_char(path, '/');
    if normalized.unicode_len() == 0 {
        Ok(to_string("/"))
    } else {
        Ok(normalized)
    }
}

/// Every character that is not an ASCII letter or digit becomes `-`.
pub open spec fn sanitize_unit_stem(name: Text) -> Text {
    name.map_values(|c: char| if is_ascii_alnum(c) { c } else { '-' })
}

/// The unit name given to a service that names none: `<prefix><sanitized name>.service`.
pub open spec fn generated_service_name_spec(prefix: Text, name: Text) -> Text {
    prefix + sanitize_unit_stem(name) + ".service"@
}

pub fn generated_service_name(managed_prefix: &str, service_name: &str) -> (r: String)
    ensures
        r@ == generated_service_name_spec(managed_prefix@, service_name@),
{
    proof {
        reveal_strlit("-");
        assert("-"@ =~= seq!['-']);
    }
    let mut sanitized = String::new();
    let n = service_name.unicode_len();
    let mut i: usize = 0;
    while i < n
        invariant
            n == service_name@.len(),
            i <= n,
            "-"@ == seq!['-'],
            sanitized@ =~= sanitize_unit_stem(service_name@.take(i as int)),
        decreases n - i,
    {
        let c = service_name.get_char(i);
        let ghost prev = sanitized@;
        if char_is_ascii_alnum(c) {
            push_range(&mut sanitized, service_name, i, i + 1);
            assert(service_name@.subrange(i as int, i + 1) =~= seq![c]);
        } else {
            sanitized.append("-");
        }
        assert(sanitized@ =~= prev.push(if is_ascii_alnum(c) { c } else { '-' }));
        assert(service_name@.take(i + 1) =~= service_name@.take(i as int).push(c));
        assert(sanitize_unit_stem(service_name@.take(i + 1)) =~= sanitize_unit_stem(
            service_name@.take(i as int),
        ).push(if is_ascii_alnum(c) { c } else { '-' }));
        i = i + 1;
    }
    assert(service_name@.take(n as int) =~= service_name@);
    let mut r = to_string(managed_prefix);
    r.append(sanitized.as_str());
    r.append(".service");
    r
}

} // verus!
