//! The build-descriptor synthesizer: renders the container build recipe as a
//! pure, deterministic function of the specification, the custom-init choice
//! and the injected init download URL.

use vstd::prelude::*;
use crate::container::{ContainerSpec, SpecModel};

verus! {

/// The base image used when the specification declares none.
pub open spec fn default_base() -> Seq<char> {
    "ubuntu:20.04"@
}

/// The base image the descriptor builds on: the declared one, or the default.
pub open spec fn base_of(m: SpecModel) -> Seq<char> {
    match m.base {
        Some(b) => b,
        None => default_base(),
    }
}

/// A base image belongs to the alpine family when its name starts with
/// `"alpine"`; that family installs dependencies with a different verb.
pub open spec fn is_alpine_base(base: Seq<char>) -> bool {
    base.len() >= 6 && base.subrange(0, 6) == "alpine"@
}

/// The fixed comment that opens every descriptor.
pub open spec fn header_text() -> Seq<char> {
    "# Generated by Brane\n"@
}

/// The base-image directive.
pub open spec fn from_line(base: Seq<char>) -> Seq<char> {
    "FROM "@ + base + "\n"@
}

/// One environment-variable directive.
pub open spec fn env_line(e: (Seq<char>, Seq<char>)) -> Seq<char> {
    "ENV "@ + e.0 + "="@ + e.1 + "\n"@
}

/// All environment directives, one per entry, in declared order.
pub open spec fn env_section(env: Seq<(Seq<char>, Seq<char>)>) -> Seq<char>
    decreases env.len(),
{
    if env.len() == 0 {
        Seq::empty()
    } else {
        env_section(env.drop_last()) + env_line(env.last())
    }
}

/// The alpine-family package-install verb.
pub open spec fn apk_verb() -> Seq<char> {
    "RUN apk add --no-cache "@
}

/// The default-family update-then-install verb sequence.
pub open spec fn apt_verb() -> Seq<char> {
    "RUN apt-get update && apt-get install -y "@
}

/// The install verb the base image's family calls for.
pub open spec fn install_verb(base: Seq<char>) -> Seq<char> {
    if is_alpine_base(base) {
        apk_verb()
    } else {
        apt_verb()
    }
}

/// The dependency names, each followed by one space, in declared order.
pub open spec fn deps_args(deps: Seq<Seq<char>>) -> Seq<char>
    decreases deps.len(),
{
    if deps.len() == 0 {
        Seq::empty()
    } else {
        deps_args(deps.drop_last()) + deps.last() + " "@
    }
}

/// The single dependency-install directive: family verb, then every
/// dependency space-joined, emitted even when the list is empty.
pub open spec fn deps_section(m: SpecModel) -> Seq<char> {
    install_verb(base_of(m)) + deps_args(m.dependencies) + "\n"@
}

/// The init-acquisition directives: a local copy of the staged `init` when a
/// custom init binary was supplied, otherwise a fetch of the pinned remote
/// URL followed by marking it executable.
pub open spec fn init_section(override_init: bool, init_url: Seq<char>) -> Seq<char> {
    if override_init {
        "ADD init init\n"@
    } else {
        "ADD "@ + init_url + " init\n"@ + "RUN chmod +x init\n"@
    }
}

/// The fixed directives that stage the manifest and the working-directory
/// archive into the image.
pub open spec fn copy_section() -> Seq<char> {
    "COPY container.yml /container.yml\n"@ + "ADD wd.tar.gz /opt\n"@ + "WORKDIR /opt/wd\n"@
}

/// One install-command directive.
pub open spec fn install_line(l: Seq<char>) -> Seq<char> {
    "RUN "@ + l + "\n"@
}

/// All install directives, one per declared line, in declared order.
pub open spec fn install_section(install: Seq<Seq<char>>) -> Seq<char>
    decreases install.len(),
{
    if install.len() == 0 {
        Seq::empty()
    } else {
        install_section(install.drop_last()) + install_line(install.last())
    }
}

/// The fixed closing directives: reset the working directory and set the
/// uniform entrypoint every produced image shares.
pub open spec fn footer_text() -> Seq<char> {
    "WORKDIR /\n"@ + "ENTRYPOINT [\"./init\"]\n"@
}

/// The whole descriptor text, a pure function of the specification model,
/// the custom-init choice, and the injected init URL.
pub open spec fn dockerfile_text(m: SpecModel, override_init: bool, init_url: Seq<char>) -> Seq<
    char,
> {
    header_text() + from_line(base_of(m)) + env_section(m.environment) + deps_section(m)
        + init_section(override_init, init_url) + copy_section() + install_section(m.install)
        + footer_text()
}

proof fn lemma_env_section_snoc(env: Seq<(Seq<char>, Seq<char>)>, i: int)
    requires
        0 <= i < env.len(),
    ensures
        env_section(env.take(i + 1)) == env_section(env.take(i)) + env_line(env[i]),
{
    assert(env.take(i + 1).drop_last() =~= env.take(i));
    assert(env.take(i + 1).last() == env[i]);
}

proof fn lemma_deps_args_snoc(deps: Seq<Seq<char>>, i: int)
    requires
        0 <= i < deps.len(),
    ensures
        deps_args(deps.take(i + 1)) == deps_args(deps.take(i)) + deps[i] + " "@,
{
    assert(deps.take(i + 1).drop_last() =~= deps.take(i));
    assert(deps.take(i + 1).last() == deps[i]);
}

proof fn lemma_install_section_snoc(install: Seq<Seq<char>>, i: int)
    requires
        0 <= i < install.len(),
    ensures
        install_section(install.take(i + 1)) == install_section(install.take(i)) + install_line(
            install[i],
        ),
{
    assert(install.take(i + 1).drop_last() =~= install.take(i));
    assert(install.take(i + 1).last() == install[i]);
}

/// Law: descriptor synthesis is deterministic. Two specifications with the
/// same model — the same fields, with environment, dependencies and install
/// lines in the same declared order — yield the same descriptor text, for
/// the same custom-init choice and init URL. Together with the contract of
/// [`generate_dockerfile`], two syntheses from byte-identical specifications
/// produce byte-identical descriptors.
pub proof fn lemma_descriptor_deterministic(
    a: &ContainerSpec,
    b: &ContainerSpec,
    override_init: bool,
    init_url: Seq<char>,
)
    requires
        a@ == b@,
    ensures
        dockerfile_text(a@, override_init, init_url) == dockerfile_text(
            b@,
            override_init,
            init_url,
        ),
{
}

/// Law: the dependency-install directive branches on the base family alone.
/// A base with the `"alpine"` prefix yields the `apk` no-cache form, any
/// other base the `apt-get` update-then-install form, and the two verbs are
/// never the same text; the descriptor holds the directive between the
/// environment section and the init section, as [`dockerfile_text`] lays it
/// out.
pub proof fn lemma_base_family_branching(m: SpecModel)
    ensures
        is_alpine_base(base_of(m)) ==> deps_section(m) == apk_verb() + deps_args(m.dependencies)
            + "\n"@,
        !is_alpine_base(base_of(m)) ==> deps_section(m) == apt_verb() + deps_args(m.dependencies)
            + "\n"@,
        apk_verb() != apt_verb(),
{
    reveal_strlit("RUN apk add --no-cache ");
    reveal_strlit("RUN apt-get update && apt-get install -y ");
    assert(apk_verb().len() != apt_verb().len());
}

/// Law: exactly one init-acquisition form appears, governed solely by
/// whether a custom init binary was supplied: the local `ADD init init`
/// directive when one was, the pinned remote fetch plus `chmod` when none
/// was — and the two forms are never the same text, whatever the URL.
pub proof fn lemma_custom_init_exclusivity(init_url: Seq<char>)
    ensures
        init_section(true, init_url) == "ADD init init\n"@,
        init_section(false, init_url) == "ADD "@ + init_url + " init\n"@ + "RUN chmod +x init\n"@,
        init_section(true, init_url) != init_section(false, init_url),
{
    reveal_strlit("ADD init init\n");
    reveal_strlit("ADD ");
    reveal_strlit(" init\n");
    reveal_strlit("RUN chmod +x init\n");
    assert(init_section(false, init_url).len() >= 28);
    assert(init_section(true, init_url).len() == 14);
}

/// Decides whether a base image name has the `"alpine"` family prefix.
fn starts_with_alpine(base: &str) -> (r: bool)
    ensures
        r == is_alpine_base(base@),
{
    proof {
        reveal_strlit("alpine");
    }
    let n = base.unicode_len();
    if n < 6 {
        return false;
    }
    let r = base.get_char(0) == 'a' && base.get_char(1) == 'l' && base.get_char(2) == 'p'
        && base.get_char(3) == 'i' && base.get_char(4) == 'n' && base.get_char(5) == 'e';
    proof {
        let sub = base@.subrange(0, 6);
        assert(sub[0] == base@[0] && sub[1] == base@[1] && sub[2] == base@[2] && sub[3] == base@[3]
            && sub[4] == base@[4] && sub[5] == base@[5]);
        if r {
            assert(sub =~= "alpine"@);
        } else {
            assert(sub != "alpine"@);
        }
    }
    r
}

/// Synthesizes the build-descriptor text for a specification.
///
/// The result is exactly [`dockerfile_text`] of the specification's model:
/// header, base-image line, one `ENV` line per environment entry, the
/// family-dependent dependency-install line, the init acquisition chosen by
/// `override_init`, the fixed staging directives, one `RUN` line per install
/// command, and the fixed footer — all in declared order, so regeneration
/// from an identical specification is byte-identical.
pub fn generate_dockerfile(ecu_document: &ContainerSpec, override_init: bool, init_url: &str) -> (
    contents: String)
    ensures
        contents@ == dockerfile_text(ecu_document@, override_init, init_url@),
{
    let ghost m = ecu_document@;
    let mut contents = String::new();

    // Heading and base image line.
    let base: &str = match &ecu_document.base {
        Some(b) => b.as_str(),
        None => "ubuntu:20.04",
    };
    assert(base@ == base_of(m));
    contents.append("# Generated by Brane\n");
    contents.append("FROM ");
    contents.append(base);
    contents.append("\n");
    assert(contents@ =~= header_text() + from_line(base_of(m)));
    let ghost head = header_text() + from_line(base_of(m));

    // Environment variables, in declared order.
    let env_count = ecu_document.environment.len();
    for i in 0..env_count
        invariant
            env_count == ecu_document.environment.len(),
            m == ecu_document@,
            contents@ == head + env_section(m.environment.take(i as int)),
    {
        let (key, value) = &ecu_document.environment[i];
        contents.append("ENV ");
        contents.append(key.as_str());
        contents.append("=");
        contents.append(value.as_str());
        contents.append("\n");
        proof {
            lemma_env_section_snoc(m.environment, i as int);
            assert(m.environment[i as int] == (key@, value@));
            assert(contents@ =~= head + env_section(m.environment.take(i + 1)));
        }
    }
    assert(m.environment.take(env_count as int) =~= m.environment);
    let ghost with_env = head + env_section(m.environment);
    assert(contents@ == with_env);

    // The dependency-install directive, branching on the base family.
    if starts_with_alpine(base) {
        contents.append("RUN apk add --no-cache ");
    } else {
        contents.append("RUN apt-get update && apt-get install -y ");
    }
    assert(contents@ == with_env + install_verb(base_of(m)));
    let dep_count = ecu_document.dependencies.len();
    for i in 0..dep_count
        invariant
            dep_count == ecu_document.dependencies.len(),
            m == ecu_document@,
            contents@ == with_env + install_verb(base_of(m)) + deps_args(
                m.dependencies.take(i as int),
            ),
    {
        let dependency = &ecu_document.dependencies[i];
        contents.append(dependency.as_str());
        contents.append(" ");
        proof {
            lemma_deps_args_snoc(m.dependencies, i as int);
            assert(m.dependencies[i as int] == dependency@);
            assert(contents@ =~= with_env + install_verb(base_of(m)) + deps_args(
                m.dependencies.take(i + 1),
            ));
        }
    }
    assert(m.dependencies.take(dep_count as int) =~= m.dependencies);
    contents.append("\n");
    assert(contents@ =~= with_env + deps_section(m));
    let ghost with_deps = with_env + deps_section(m);

    // Init acquisition: the staged custom binary, or the pinned remote fetch.
    if override_init {
        contents.append("ADD init init\n");
    } else {
        contents.append("ADD ");
        contents.append(init_url);
        contents.append(" init\n");
        contents.append("RUN chmod +x init\n");
    }
    assert(contents@ =~= with_deps + init_section(override_init, init_url@));

    // Manifest and working-directory staging directives.
    contents.append("COPY container.yml /container.yml\n");
    contents.append("ADD wd.tar.gz /opt\n");
    contents.append("WORKDIR /opt/wd\n");
    assert(contents@ =~= with_deps + init_section(override_init, init_url@) + copy_section());
    let ghost with_copy = with_deps + init_section(override_init, init_url@) + copy_section();

    // Install commands, in declared order.
    let install_count = ecu_document.install.len();
    for i in 0..install_count
        invariant
            install_count == ecu_document.install.len(),
            m == ecu_document@,
            contents@ == with_copy + install_section(m.install.take(i as int)),
    {
        let line = &ecu_document.install[i];
        contents.append("RUN ");
        contents.append(line.as_str());
        contents.append("\n");
        proof {
            lemma_install_section_snoc(m.install, i as int);
            assert(m.install[i as int] == line@);
            assert(contents@ =~= with_copy + install_section(m.install.take(i + 1)));
        }
    }
    assert(m.install.take(install_count as int) =~= m.install);

    // Fixed footer: working directory reset and the uniform entrypoint.
    contents.append("WORKDIR /\n");
    contents.append("ENTRYPOINT [\"./init\"]\n");
    assert(contents@ =~= dockerfile_text(m, override_init, init_url@));

    contents
}

} // verus!
