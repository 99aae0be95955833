use vstd::prelude::*;
use crate::entities::{BuildConfig, Command, Conversion, DeploymentConfig, EnvironmentVar, RepoConfig};

verus! {

pub open spec fn command_view(c: Command) -> (Seq<char>, Seq<char>) {
    (c.path@, c.command@)
}

pub open spec fn env_view(s: Seq<EnvironmentVar>) -> Seq<(Seq<char>, Seq<char>)> {
    s.map_values(|e: EnvironmentVar| (e.variable@, e.value@))
}

pub open spec fn conversions_view(s: Seq<Conversion>) -> Seq<(Seq<char>, Seq<char>)> {
    s.map_values(|c: Conversion| (c.local@, c.container@))
}

pub open spec fn strings_view(s: Seq<String>) -> Seq<Seq<char>> {
    s.map_values(|x: String| x@)
}

pub open spec fn opt_view(o: Option<String>) -> Option<Seq<char>> {
    match o {
        Some(s) => Some(s@),
        None => None,
    }
}

pub fn commands_equal(a: &Command, b: &Command) -> (r: bool)
    ensures
        r == (command_view(*a) == command_view(*b)),
{
    a.path == b.path && a.command == b.command
}

pub fn options_equal(a: &Option<String>, b: &Option<String>) -> (r: bool)
    ensures
        r == (opt_view(*a) == opt_view(*b)),
{
    match (a, b) {
        (Some(x), Some(y)) => *x == *y,
        (None, None) => true,
        _ => false,
    }
}

pub fn env_vars_equal(a: &Vec<EnvironmentVar>, b: &Vec<EnvironmentVar>) -> (r: bool)
    ensures
        r == (env_view(a@) == env_view(b@)),
{
    if a.len() != b.len() {
        assert(env_view(a@).len() != env_view(b@).len());
        return false;
    }
    let mut i: usize = 0;
    while i < a.len()
        invariant
            a@.len() == b@.len(),
            i <= a@.len(),
            forall|j: int| 0 <= j < i ==> env_view(a@)[j] == #[trigger] env_view(b@)[j],
        decreases a@.len() - i,
    {
        if !(a[i].variable == b[i].variable && a[i].value == b[i].value) {
            assert(env_view(a@)[i as int] != env_view(b@)[i as int]);
            return false;
        }
        i = i + 1;
    }
    assert(env_view(a@) =~= env_view(b@));
    true
}

pub fn conversions_equal(a: &Vec<Conversion>, b: &Vec<Conversion>) -> (r: bool)
    ensures
        r == (conversions_view(a@) == conversions_view(b@)),
{
    if a.len() != b.len() {
        assert(conversions_view(a@).len() != conversions_view(b@).len());
        return false;
    }
    let mut i: usize = 0;
    while i < a.len()
        invariant
            a@.len() == b@.len(),
            i <= a@.len(),
            forall|j: int| 0 <= j < i ==> conversions_view(a@)[j] == #[trigger] conversions_view(b@)[j],
        decreases a@.len() - i,
    {
        if !(a[i].local == b[i].local && a[i].container == b[i].container) {
            assert(conversions_view(a@)[i as int] != conversions_view(b@)[i as int]);
            return false;
        }
        i = i + 1;
    }
    assert(conversions_view(a@) =~= conversions_view(b@));
    true
}

pub fn strings_equal(a: &Vec<String>, b: &Vec<String>) -> (r: bool)
    ensures
        r == (strings_view(a@) == strings_view(b@)),
{
    if a.len() != b.len() {
        assert(strings_view(a@).len() != strings_view(b@).len());
        return false;
    }
    let mut i: usize = 0;
    while i < a.len()
        invariant
            a@.len() == b@.len(),
            i <= a@.len(),
            forall|j: int| 0 <= j < i ==> strings_view(a@)[j] == #[trigger] strings_view(b@)[j],
        decreases a@.len() - i,
    {
        if !(a[i] == b[i]) {
            assert(strings_view(a@)[i as int] != strings_view(b@)[i as int]);
            return false;
        }
        i = i + 1;
    }
    assert(strings_view(a@) =~= strings_view(b@));
    true
}

/// A build must be recloned when its source changes.
pub open spec fn build_needs_reclone(old: BuildConfig, new: BuildConfig) -> bool {
    ||| old.repo@ != new.repo@
    ||| old.branch@ != new.branch@
    ||| old.github_account@ != new.github_account@
    ||| command_view(old.on_clone) != command_view(new.on_clone)
}

/// A repo must be recloned when its source changes.
pub open spec fn repo_needs_reclone(old: RepoConfig, new: RepoConfig) -> bool {
    ||| old.repo@ != new.repo@
    ||| old.branch@ != new.branch@
    ||| old.github_account@ != new.github_account@
    ||| command_view(old.on_clone) != command_view(new.on_clone)
}

/// A deployment must be redeployed when how its container runs changes.
pub open spec fn deployment_needs_redeploy(old: DeploymentConfig, new: DeploymentConfig) -> bool {
    let (a, b) = (old.docker_run_args, new.docker_run_args);
    ||| opt_view(a.image) != opt_view(b.image)
    ||| conversions_view(a.ports@) != conversions_view(b.ports@)
    ||| conversions_view(a.volumes@) != conversions_view(b.volumes@)
    ||| env_view(a.environment@) != env_view(b.environment@)
    ||| a.network@ != b.network@
    ||| a.restart@ != b.restart@
    ||| opt_view(a.post_image) != opt_view(b.post_image)
    ||| opt_view(a.container_user) != opt_view(b.container_user)
}

pub fn needs_reclone(old: &BuildConfig, new: &BuildConfig) -> (r: bool)
    ensures
        r == build_needs_reclone(*old, *new),
{
    !(old.repo == new.repo) || !(old.branch == new.branch) || !(old.github_account == new.github_account)
        || !commands_equal(&old.on_clone, &new.on_clone)
}

pub fn repo_needs_reclone_exec(old: &RepoConfig, new: &RepoConfig) -> (r: bool)
    ensures
        r == repo_needs_reclone(*old, *new),
{
    !(old.repo == new.repo) || !(old.branch == new.branch) || !(old.github_account == new.github_account)
        || !commands_equal(&old.on_clone, &new.on_clone)
}

pub fn needs_redeploy(old: &DeploymentConfig, new: &DeploymentConfig) -> (r: bool)
    ensures
        r == deployment_needs_redeploy(*old, *new),
{
    let a = &old.docker_run_args;
    let b = &new.docker_run_args;
    !options_equal(&a.image, &b.image) || !conversions_equal(&a.ports, &b.ports)
        || !conversions_equal(&a.volumes, &b.volumes) || !env_vars_equal(&a.environment, &b.environment)
        || !(a.network == b.network) || !(a.restart == b.restart)
        || !options_equal(&a.post_image, &b.post_image)
        || !options_equal(&a.container_user, &b.container_user)
}

/// `name` followed by a newline where `changed`, else nothing.
pub open spec fn diff_line(changed: bool, name: Seq<char>) -> Seq<char> {
    if changed {
        name + "\n"@
    } else {
        Seq::empty()
    }
}

/// One line per changed field of a build configuration, in field order.
pub open spec fn build_diff_text(old: BuildConfig, new: BuildConfig) -> Seq<char> {
    diff_line(old.builder_id@ != new.builder_id@, "builder_id"@)
        + diff_line(old.skip_secret_interp != new.skip_secret_interp, "skip_secret_interp"@)
        + diff_line(old.version != new.version, "version"@)
        + diff_line(old.repo@ != new.repo@, "repo"@)
        + diff_line(old.branch@ != new.branch@, "branch"@)
        + diff_line(old.github_account@ != new.github_account@, "github_account"@)
        + diff_line(old.docker_account@ != new.docker_account@, "docker_account"@)
        + diff_line(old.docker_organization@ != new.docker_organization@, "docker_organization"@)
        + diff_line(command_view(old.on_clone) != command_view(new.on_clone), "on_clone"@)
        + diff_line(command_view(old.pre_build) != command_view(new.pre_build), "pre_build"@)
        + diff_line(old.build_path@ != new.build_path@, "build_path"@)
        + diff_line(old.dockerfile_path@ != new.dockerfile_path@, "dockerfile_path"@)
        + diff_line(env_view(old.build_args@) != env_view(new.build_args@), "build_args"@)
        + diff_line(env_view(old.labels@) != env_view(new.labels@), "labels"@)
        + diff_line(strings_view(old.extra_args@) != strings_view(new.extra_args@), "extra_args"@)
        + diff_line(old.use_buildx != new.use_buildx, "use_buildx"@)
}

fn append_line(out: &mut String, changed: bool, name: &str)
    ensures
        final(out)@ == old(out)@ + diff_line(changed, name@),
{
    if changed {
        out.append(name);
        out.append("\n");
    } else {
        assert(old(out)@ + diff_line(changed, name@) =~= old(out)@);
    }
}

/// Lists the fields that differ between two build configurations.
pub fn build_diff(old: &BuildConfig, new: &BuildConfig) -> (r: String)
    ensures
        r@ == build_diff_text(*old, *new),
{
    let mut out = String::new();
    append_line(&mut out, !(old.builder_id == new.builder_id), "builder_id");
    append_line(&mut out, old.skip_secret_interp != new.skip_secret_interp, "skip_secret_interp");
    append_line(&mut out, old.version != new.version, "version");
    append_line(&mut out, !(old.repo == new.repo), "repo");
    append_line(&mut out, !(old.branch == new.branch), "branch");
    append_line(&mut out, !(old.github_account == new.github_account), "github_account");
    append_line(&mut out, !(old.docker_account == new.docker_account), "docker_account");
    append_line(&mut out, !(old.docker_organization == new.docker_organization), "docker_organization");
    append_line(&mut out, !commands_equal(&old.on_clone, &new.on_clone), "on_clone");
    append_line(&mut out, !commands_equal(&old.pre_build, &new.pre_build), "pre_build");
    append_line(&mut out, !(old.build_path == new.build_path), "build_path");
    append_line(&mut out, !(old.dockerfile_path == new.dockerfile_path), "dockerfile_path");
    append_line(&mut out, !env_vars_equal(&old.build_args, &new.build_args), "build_args");
    append_line(&mut out, !env_vars_equal(&old.labels, &new.labels), "labels");
    append_line(&mut out, !strings_equal(&old.extra_args, &new.extra_args), "extra_args");
    append_line(&mut out, old.use_buildx != new.use_buildx, "use_buildx");
    assert(out@ =~= build_diff_text(*old, *new));
    out
}

/// One line per changed field of a deployment configuration, in field order.
pub open spec fn deployment_diff_text(old: DeploymentConfig, new: DeploymentConfig) -> Seq<char> {
    let (a, b) = (old.docker_run_args, new.docker_run_args);
    diff_line(old.server_id@ != new.server_id@, "server_id"@)
        + diff_line(opt_view(old.build_id) != opt_view(new.build_id), "build_id"@)
        + diff_line(opt_view(a.image) != opt_view(b.image), "image"@)
        + diff_line(conversions_view(a.ports@) != conversions_view(b.ports@), "ports"@)
        + diff_line(conversions_view(a.volumes@) != conversions_view(b.volumes@), "volumes"@)
        + diff_line(env_view(a.environment@) != env_view(b.environment@), "environment"@)
        + diff_line(a.network@ != b.network@, "network"@)
        + diff_line(a.restart@ != b.restart@, "restart"@)
        + diff_line(opt_view(a.post_image) != opt_view(b.post_image), "post_image"@)
        + diff_line(opt_view(a.container_user) != opt_view(b.container_user), "container_user"@)
        + diff_line(opt_view(a.docker_account) != opt_view(b.docker_account), "docker_account"@)
}

/// Lists the fields that differ between two deployment configurations.
pub fn deployment_diff(old: &DeploymentConfig, new: &DeploymentConfig) -> (r: String)
    ensures
        r@ == deployment_diff_text(*old, *new),
{
    let a = &old.docker_run_args;
    let b = &new.docker_run_args;
    let mut out = String::new();
    append_line(&mut out, !(old.server_id == new.server_id), "server_id");
    append_line(&mut out, !options_equal(&old.build_id, &new.build_id), "build_id");
    append_line(&mut out, !options_equal(&a.image, &b.image), "image");
    append_line(&mut out, !conversions_equal(&a.ports, &b.ports), "ports");
    append_line(&mut out, !conversions_equal(&a.volumes, &b.volumes), "volumes");
    append_line(&mut out, !env_vars_equal(&a.environment, &b.environment), "environment");
    append_line(&mut out, !(a.network == b.network), "network");
    append_line(&mut out, !(a.restart == b.restart), "restart");
    append_line(&mut out, !options_equal(&a.post_image, &b.post_image), "post_image");
    append_line(&mut out, !options_equal(&a.container_user, &b.container_user), "container_user");
    append_line(&mut out, !options_equal(&a.docker_account, &b.docker_account), "docker_account");
    assert(out@ =~= deployment_diff_text(*old, *new));
    out
}

} // verus!
