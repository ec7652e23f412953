use brane_build::actiongroup::{Action, ActionCommand, ActionGroup, Entrypoint};
use brane_build::backend::{build_args, check_build_exit, check_capability, image_tag};
use brane_build::common::Argument;
use brane_build::container::{ContainerAction, ContainerSpec};
use brane_build::dockerfile::generate_dockerfile;
use brane_build::errors::{BackendError, SpecValidationError, StagingError};
use brane_build::package::generate_package_info;
use brane_build::pipeline::plan_build;
use brane_build::staging::{package_address, staging_error, staging_steps, StagingStep};

fn arg(name: &str, data_type: &str) -> Argument {
    Argument { name: name.to_string(), data_type: data_type.to_string() }
}

fn action(input: Vec<Argument>, output: Vec<Argument>, pattern: Option<&str>) -> ContainerAction {
    ContainerAction {
        input,
        output,
        pattern: pattern.map(|p| p.to_string()),
        description: None,
    }
}

fn base_spec() -> ContainerSpec {
    ContainerSpec {
        name: "align".to_string(),
        version: "1.0.0".to_string(),
        description: "aligns sequences".to_string(),
        base: None,
        environment: Vec::new(),
        dependencies: Vec::new(),
        files: Vec::new(),
        install: Vec::new(),
        actions: Vec::new(),
    }
}

#[test]
fn manifest_counts_and_return_types() {
    let mut spec = base_spec();
    spec.actions.push((
        "run".to_string(),
        action(vec![arg("query", "File")], vec![arg("result", "File")], Some("prefix")),
    ));
    spec.actions.push((
        "score".to_string(),
        action(Vec::new(), vec![arg("value", "Integer"), arg("extra", "String")], None),
    ));

    let info = generate_package_info(&spec).unwrap();
    assert_eq!(info.functions.len(), spec.actions.len());
    assert_eq!(info.name, "align");
    assert_eq!(info.version, "1.0.0");
    assert_eq!(info.description, "aligns sequences");
    assert_eq!(info.kind, "ecu");

    let (name0, f0) = &info.functions[0];
    assert_eq!(name0, "run");
    assert_eq!(f0.arguments, vec![arg("query", "File")]);
    assert_eq!(f0.pattern, Some("prefix".to_string()));
    assert_eq!(f0.return_type, "File");

    let (name1, f1) = &info.functions[1];
    assert_eq!(name1, "score");
    assert!(f1.arguments.is_empty());
    assert_eq!(f1.pattern, None);
    assert_eq!(f1.return_type, "Integer");
}

#[test]
fn manifest_rejects_action_without_output() {
    let mut spec = base_spec();
    spec.actions.push(("ok".to_string(), action(Vec::new(), vec![arg("r", "File")], None)));
    spec.actions.push(("broken".to_string(), action(Vec::new(), Vec::new(), None)));
    spec.actions.push(("also_broken".to_string(), action(Vec::new(), Vec::new(), None)));

    let err = generate_package_info(&spec).unwrap_err();
    assert_eq!(err, SpecValidationError { action: "broken".to_string() });
    assert_eq!(err.describe(), "Action 'broken' declares no output arguments.");
}

#[test]
fn descriptor_is_deterministic() {
    let mut spec = base_spec();
    spec.base = Some("alpine:3.14".to_string());
    spec.environment.push(("A".to_string(), "1".to_string()));
    spec.environment.push(("B".to_string(), "2".to_string()));
    spec.dependencies.push("curl".to_string());
    spec.install.push("make install".to_string());

    let url = "https://example.org/releases/v1.2.3/brane-init";
    let first = generate_dockerfile(&spec, false, url);
    let second = generate_dockerfile(&spec, false, url);
    assert_eq!(first, second);
}

#[test]
fn descriptor_branches_on_base_family() {
    let mut spec = base_spec();
    spec.dependencies.push("curl".to_string());
    let url = "https://example.org/releases/v1.2.3/brane-init";

    spec.base = Some("alpine:3.14".to_string());
    let alpine = generate_dockerfile(&spec, false, url);
    assert!(alpine.contains("RUN apk add --no-cache curl \n"));
    assert!(!alpine.contains("apt-get"));

    spec.base = Some("debian:bullseye".to_string());
    let debian = generate_dockerfile(&spec, false, url);
    assert!(debian.contains("RUN apt-get update && apt-get install -y curl \n"));
    assert!(!debian.contains("apk add"));

    spec.base = None;
    let default = generate_dockerfile(&spec, false, url);
    assert!(default.contains("FROM ubuntu:20.04\n"));
    assert!(default.contains("RUN apt-get update && apt-get install -y curl \n"));
}

#[test]
fn descriptor_install_line_present_even_without_dependencies() {
    let spec = base_spec();
    let url = "https://example.org/releases/v1.2.3/brane-init";
    let text = generate_dockerfile(&spec, false, url);
    assert!(text.contains("RUN apt-get update && apt-get install -y \n"));
}

#[test]
fn descriptor_init_forms_are_exclusive() {
    let spec = base_spec();
    let url = "https://example.org/releases/v1.2.3/brane-init";

    let with_custom = generate_dockerfile(&spec, true, url);
    assert!(with_custom.contains("ADD init init\n"));
    assert!(!with_custom.contains("chmod"));
    assert!(!with_custom.contains(url));

    let with_remote = generate_dockerfile(&spec, false, url);
    assert!(!with_remote.contains("ADD init init\n"));
    assert!(with_remote.contains("ADD https://example.org/releases/v1.2.3/brane-init init\n"));
    assert!(with_remote.contains("RUN chmod +x init\n"));
}

#[test]
fn descriptor_end_to_end_scenario() {
    let mut spec = base_spec();
    spec.dependencies.push("curl".to_string());
    spec.actions.push(("run".to_string(), action(Vec::new(), vec![arg("out", "File")], None)));

    let url = "https://example.org/releases/v1.2.3/brane-init";
    let text = generate_dockerfile(&spec, false, url);
    let expected = "# Generated by Brane\nFROM ubuntu:20.04\nRUN apt-get update && apt-get install -y curl \nADD https://example.org/releases/v1.2.3/brane-init init\nRUN chmod +x init\nCOPY container.yml /container.yml\nADD wd.tar.gz /opt\nWORKDIR /opt/wd\nWORKDIR /\nENTRYPOINT [\"./init\"]\n";
    assert_eq!(text, expected);

    let info = generate_package_info(&spec).unwrap();
    assert_eq!(info.functions.len(), 1);
    assert_eq!(info.functions[0].0, "run");
    assert_eq!(info.functions[0].1.return_type, "File");
}

#[test]
fn descriptor_environment_lines_keep_declared_order() {
    let mut spec = base_spec();
    spec.environment.push(("ZULU".to_string(), "9".to_string()));
    spec.environment.push(("ALPHA".to_string(), "1".to_string()));
    let text = generate_dockerfile(&spec, true, "");
    let zulu = text.find("ENV ZULU=9\n").unwrap();
    let alpha = text.find("ENV ALPHA=1\n").unwrap();
    assert!(zulu < alpha);
}

#[test]
fn descriptor_install_lines_follow_working_directory() {
    let mut spec = base_spec();
    spec.install.push("pip install numpy".to_string());
    spec.install.push("make".to_string());
    let text = generate_dockerfile(&spec, true, "");
    let wd = text.find("WORKDIR /opt/wd\n").unwrap();
    let pip = text.find("RUN pip install numpy\n").unwrap();
    let make = text.find("RUN make\n").unwrap();
    assert!(wd < pip && pip < make);
    assert!(text.ends_with("WORKDIR /\nENTRYPOINT [\"./init\"]\n"));
}

#[test]
fn staging_plan_mirrors_declared_files() {
    let mut spec = base_spec();
    spec.files.push("a/b.txt".to_string());
    let steps = staging_steps(&spec, &None);
    let expected = vec![
        StagingStep::CreateStagingDir,
        StagingStep::WriteSpec,
        StagingStep::WriteDescriptor,
        StagingStep::WriteManifest,
        StagingStep::EnsureParent("wd/a".to_string()),
        StagingStep::CopyContext("a/b.txt".to_string(), "wd/a/b.txt".to_string()),
        StagingStep::Archive,
        StagingStep::Cleanup,
    ];
    assert_eq!(steps, expected);
}

#[test]
fn staging_plan_with_custom_init_and_flat_file() {
    let mut spec = base_spec();
    spec.files.push("data.csv".to_string());
    let steps = staging_steps(&spec, &Some("/home/user/init".to_string()));
    let expected = vec![
        StagingStep::CreateStagingDir,
        StagingStep::WriteSpec,
        StagingStep::WriteDescriptor,
        StagingStep::WriteManifest,
        StagingStep::CopyInit("/home/user/init".to_string()),
        StagingStep::EnsureParent("wd".to_string()),
        StagingStep::CopyContext("data.csv".to_string(), "wd/data.csv".to_string()),
        StagingStep::Archive,
        StagingStep::Cleanup,
    ];
    assert_eq!(steps, expected);
}

#[test]
fn staging_missing_context_file_is_named_before_any_archive() {
    let mut spec = base_spec();
    spec.files.push("missing.txt".to_string());
    let steps = staging_steps(&spec, &None);

    let copy_at = steps
        .iter()
        .position(|s| matches!(s, StagingStep::CopyContext(_, _)))
        .unwrap();
    let archive_at = steps.iter().position(|s| matches!(s, StagingStep::Archive)).unwrap();
    assert!(copy_at < archive_at);
    assert_eq!(archive_at, steps.len() - 2);
    assert!(matches!(steps[steps.len() - 1], StagingStep::Cleanup));

    let err = staging_error(&steps[copy_at], false).unwrap();
    assert_eq!(err, StagingError::ContextFileMissing("missing.txt".to_string()));
    assert!(err.is_fatal());
    assert_eq!(err.describe(), "Couldn't find missing.txt within the build context.");
}

#[test]
fn staging_error_classification() {
    assert_eq!(staging_error(&StagingStep::WriteSpec, true), None);
    assert_eq!(staging_error(&StagingStep::WriteSpec, false), Some(StagingError::WriteFailed));
    let init_err = staging_error(&StagingStep::CopyInit("/tmp/init".to_string()), false).unwrap();
    assert_eq!(init_err, StagingError::InitCopyFailed("/tmp/init".to_string()));
    assert_eq!(init_err.describe(), "Couldn't find init binary /tmp/init.");
    assert_eq!(
        StagingError::WriteFailed.describe(),
        "Failed to write package files."
    );
    assert_eq!(
        StagingError::ArchiveFailed.describe(),
        "Failed to prepare working directory archive."
    );
    assert_eq!(staging_error(&StagingStep::Archive, false), Some(StagingError::ArchiveFailed));
    let cleanup = staging_error(&StagingStep::Cleanup, false).unwrap();
    assert_eq!(cleanup, StagingError::CleanupFailed);
    assert!(!cleanup.is_fatal());
    assert_eq!(cleanup.describe(), "Failed to cleanup working directory.");
}

#[test]
fn package_address_is_name_and_version_under_root() {
    let dir = package_address("/data/packages", "align", "1.0.0");
    assert_eq!(dir, "/data/packages/align/1.0.0");
}

#[test]
fn backend_outcomes_are_classified() {
    assert!(check_capability(true).is_ok());
    let missing = check_capability(false).unwrap_err();
    assert_eq!(missing, BackendError::CapabilityMissing);
    assert_eq!(
        missing.describe(),
        "Failed to build ECU image. Is BuildKit enabled (see documentation)?"
    );

    assert!(check_build_exit(true).is_ok());
    let failed = check_build_exit(false).unwrap_err();
    assert_eq!(failed, BackendError::BuildFailed);
    assert_eq!(
        failed.describe(),
        "Failed to build ECU image. See Docker output above for more information."
    );
}

#[test]
fn backend_invocation_arguments() {
    let tag = image_tag("align", "1.0.0");
    assert_eq!(tag, "align:1.0.0");
    let args = build_args(&tag);
    let expected = vec![
        "buildx".to_string(),
        "build".to_string(),
        "--output".to_string(),
        "type=docker,dest=image.tar".to_string(),
        "--tag".to_string(),
        "align:1.0.0".to_string(),
        ".".to_string(),
    ];
    assert_eq!(args, expected);
}

#[test]
fn plan_build_derives_all_artifacts() {
    let mut spec = base_spec();
    spec.dependencies.push("curl".to_string());
    spec.files.push("a/b.txt".to_string());
    spec.actions.push(("run".to_string(), action(Vec::new(), vec![arg("out", "File")], None)));

    let url = "https://example.org/releases/v1.2.3/brane-init";
    let plan = plan_build(&spec, &None, url, "/data/packages").unwrap();
    assert_eq!(plan.package_dir, "/data/packages/align/1.0.0");
    assert_eq!(plan.tag, "align:1.0.0");
    assert_eq!(plan.package_info, generate_package_info(&spec).unwrap());
    assert_eq!(plan.dockerfile, generate_dockerfile(&spec, false, url));
    assert_eq!(plan.steps, staging_steps(&spec, &None));
}

#[test]
fn plan_build_propagates_validation_error() {
    let mut spec = base_spec();
    spec.actions.push(("empty".to_string(), action(Vec::new(), Vec::new(), None)));
    let err = plan_build(&spec, &None, "", "/data/packages").unwrap_err();
    assert_eq!(err.action, "empty");
}

#[test]
fn action_group_document_round_trips_fields() {
    let group = ActionGroup {
        actions: vec![(
            "greet".to_string(),
            Action {
                command: Some(ActionCommand {
                    args: vec!["--verbose".to_string()],
                    capture: Some("stdout".to_string()),
                }),
                description: None,
                endpoint: None,
                notation: None,
                input: vec![arg("name", "String")],
                output: vec![arg("greeting", "String")],
            },
        )],
        base: Some("alpine:3.14".to_string()),
        contributors: None,
        description: Some("greets people".to_string()),
        entrypoint: Entrypoint {
            kind: "task".to_string(),
            exec_target: "greet.sh".to_string(),
            content: None,
            delay: None,
        },
        environment: None,
        dependencies: Some(vec!["curl".to_string()]),
        files: None,
        initialize: None,
        install: None,
        kind: "ecu".to_string(),
        name: "greeter".to_string(),
        types: None,
        version: "2.0.0".to_string(),
    };
    assert_eq!(group.actions[0].0, "greet");
    assert_eq!(group.actions[0].1.output[0], arg("greeting", "String"));
    assert_eq!(group.entrypoint.exec_target, "greet.sh");
    assert_eq!(group.kind, "ecu");
}
