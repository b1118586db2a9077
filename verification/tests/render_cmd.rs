use helm_templexer::config::{Config, Deployment};
use helm_templexer::render_cmd::RenderCmd;
use helm_templexer::RenderCmdOpts;

/// Help function to abstract the construction of `Config` for test cases
/// This is useful once `Config` changes as only this function needs to be changed, not every test case
fn get_config() -> Config {
    Config {
        version: "v2".to_string(),
        helm_version: None,
        enabled: Option::from(true),
        chart: String::new(),
        namespace: None,
        release_name: "".to_string(),
        output_path: String::new(),
        additional_options: None,
        values: None,
        deployments: vec![],
    }
}

/// Help function to abstract the construction of `RenderCmd` for test cases
/// This is useful once `RenderCmd` changes as only this function needs to be changed, not every test case
fn get_cmd() -> RenderCmd {
    RenderCmd::new(RenderCmdOpts {
        input_files: vec![],
        additional_options: None,
        update_dependencies: false,
        filter: None,
        pipe: None,
    })
}

/// Help function to abstract the construction of `Deployment` for test cases
/// This is useful once `Deployment` changes as only this function needs to be changed, not every test case
fn get_deployment() -> Deployment {
    Deployment {
        name: "".to_string(),
        enabled: Option::from(true),
        release_name: None,
        additional_options: None,
        values: None,
    }
}

#[test]
fn disabled_files_are_skipped() {
    let mut cfg = get_config();
    cfg.enabled = Option::from(false);
    let cmd = get_cmd();

    let res = cmd.plan(cfg).unwrap();
    assert_eq!(true, res.skip);
}

#[test]
fn simple_deployment_command() {
    let mut cfg = get_config();
    cfg.chart = String::from("charts/some-chart");
    cfg.namespace = Option::from("default".to_string());
    cfg.release_name = "some-release".to_string();
    cfg.output_path = String::from("manifests");
    cfg.additional_options = Option::from(vec!["--no-hooks".to_string(), "--debug".to_string()]);
    cfg.values = Option::from(vec![String::from("some-base.yaml")]);

    let mut deployment = get_deployment();
    deployment.name = "edge".to_string();
    deployment.additional_options = Option::from(vec!["--set=env=edge".to_string()]);
    deployment.values = Option::from(vec![String::from("edge.yaml")]);
    cfg.deployments = vec![deployment];

    let cmd = get_cmd();
    let res = cmd.plan(cfg).unwrap();
    let expected_helm_cmd = "helm template some-release charts/some-chart --namespace=default \
            --values=some-base.yaml --no-hooks --debug --values=edge.yaml --set=env=edge";
    let expected_helm_cmd: Vec<String> = expected_helm_cmd
        .split_whitespace()
        .map(String::from)
        .collect();

    let got = res.commands.get("edge").unwrap();

    assert_eq!(expected_helm_cmd, got.1)
}

#[test]
fn disabled_deployments_are_not_planned() {
    let mut cfg = get_config();
    cfg.chart = String::from("charts/some-chart");
    cfg.release_name = "some-release".to_string();
    cfg.output_path = String::from("manifests");

    let mut deployment = get_deployment();
    deployment.name = "edge".to_string();
    deployment.enabled = Option::from(false);
    cfg.deployments = vec![deployment];

    let cmd = get_cmd();
    let res = cmd.plan(cfg).unwrap();
    assert_eq!(None, res.commands.get("edge"));
}

#[test]
fn deployment_can_override_release_name() {
    let mut cfg = get_config();
    cfg.chart = String::from("charts/some-chart");
    cfg.release_name = "some-release".to_string();
    cfg.output_path = String::from("manifests");

    let mut deployment = get_deployment();
    deployment.name = "edge".to_string();
    deployment.release_name = Option::from("edge-release".to_string());
    cfg.deployments = vec![deployment];

    let cmd = get_cmd();
    let res = cmd.plan(cfg).unwrap();
    let expected_helm_cmd = "helm template edge-release charts/some-chart";
    let expected_helm_cmd: Vec<String> = expected_helm_cmd
        .split_whitespace()
        .map(String::from)
        .collect();

    let got = res.commands.get("edge").unwrap();

    assert_eq!(expected_helm_cmd, got.1);
}

#[test]
fn render_can_accept_additional_options_via_cli_option() {
    let mut cfg = get_config();
    cfg.chart = String::from("charts/some-chart");
    cfg.namespace = Option::from("default".to_string());
    cfg.release_name = "some-release".to_string();
    cfg.output_path = String::from("manifests");
    cfg.additional_options = Option::from(vec!["--no-hooks".to_string(), "--debug".to_string()]);
    cfg.values = Option::from(vec![String::from("some-base.yaml")]);

    let mut deployment = get_deployment();
    deployment.name = "edge".to_string();
    cfg.deployments = vec![deployment];

    let mut cmd = get_cmd();
    cmd.opts.additional_options = Option::from(vec!["--set-string=image.tag=424242a".to_string()]);

    let res = cmd.plan(cfg).unwrap();
    let expected_helm_cmd = "helm template some-release charts/some-chart --namespace=default \
            --values=some-base.yaml --no-hooks --debug --set-string=image.tag=424242a";
    let expected_helm_cmd: Vec<String> = expected_helm_cmd
        .split_whitespace()
        .map(String::from)
        .collect();

    let got = res.commands.get("edge").unwrap();

    assert_eq!(expected_helm_cmd, got.1);
}

#[test]
fn render_can_update_dependencies() {
    let mut cfg = get_config();
    cfg.chart = String::from("charts/some-chart");
    cfg.output_path = String::from("manifests");

    let mut deployment = get_deployment();
    deployment.name = "edge".to_string();
    cfg.deployments = vec![deployment];

    let mut cmd = get_cmd();
    cmd.opts.update_dependencies = true;

    let res = cmd.plan(cfg).unwrap();
    let expected_helm_cmd = "helm dependencies update charts/some-chart";
    let expected_helm_cmd: Vec<String> = expected_helm_cmd
        .split_whitespace()
        .map(String::from)
        .collect();

    assert_eq!(
        &expected_helm_cmd,
        res.pre_commands.get("helm-dependency-update").unwrap()
    );
}

#[test]
fn filter_only_edge_deployment() {
    let mut cfg = get_config();
    cfg.chart = String::from("charts/some-chart");
    cfg.namespace = Option::from("default".to_string());
    cfg.release_name = "some-release".to_string();
    cfg.output_path = String::from("manifests");

    let mut edge_eu_w4_deployment = get_deployment();
    let mut stage_eu_w4_deployment = get_deployment();
    let mut prod_as_e1_deployment = get_deployment();
    let mut prod_eu_w4_deployment = get_deployment();
    let mut prod_us_c1_deployment = get_deployment();

    edge_eu_w4_deployment.name = "edge_eu_w4_deployment".to_string();
    stage_eu_w4_deployment.name = "stage_eu_w4_deployment".to_string();
    prod_as_e1_deployment.name = "prod_as_e1_deployment".to_string();
    prod_eu_w4_deployment.name = "prod_eu_w4_deployment".to_string();
    prod_us_c1_deployment.name = "prod_us_c1_deployment".to_string();

    cfg.deployments = vec![
        edge_eu_w4_deployment,
        stage_eu_w4_deployment,
        prod_as_e1_deployment,
        prod_eu_w4_deployment,
        prod_us_c1_deployment,
    ];

    let mut cmd = get_cmd();
    cmd.opts.filter = Option::from("edge".to_string());

    let res = cmd.plan(cfg).unwrap();
    let expected_helm_cmd = "helm template some-release charts/some-chart --namespace=default";
    let expected_helm_cmd: Vec<String> = expected_helm_cmd
        .split_whitespace()
        .map(String::from)
        .collect();
    let got = res.commands.get("edge_eu_w4_deployment").unwrap();

    assert_eq!(expected_helm_cmd, got.1);
    assert_eq!(res.commands.len(), 1);
}

#[test]
fn filter_only_prod_deployment() {
    let mut cfg = get_config();
    cfg.chart = String::from("charts/some-chart");
    cfg.namespace = Option::from("default".to_string());
    cfg.release_name = "some-release".to_string();
    cfg.output_path = String::from("manifests");

    let mut edge_eu_w4_deployment = get_deployment();
    let mut stage_eu_w4_deployment = get_deployment();
    let mut prod_as_e1_deployment = get_deployment();
    let mut prod_eu_w4_deployment = get_deployment();
    let mut prod_us_c1_deployment = get_deployment();

    edge_eu_w4_deployment.name = "edge_eu_w4_deployment".to_string();
    stage_eu_w4_deployment.name = "stage_eu_w4_deployment".to_string();
    prod_as_e1_deployment.name = "prod_as_e1_deployment".to_string();
    prod_eu_w4_deployment.name = "prod_eu_w4_deployment".to_string();
    prod_us_c1_deployment.name = "prod_us_c1_deployment".to_string();

    cfg.deployments = vec![
        edge_eu_w4_deployment,
        stage_eu_w4_deployment,
        prod_as_e1_deployment,
        prod_eu_w4_deployment,
        prod_us_c1_deployment,
    ];

    let mut cmd = get_cmd();
    cmd.opts.filter = Option::from("^prod".to_string());

    let res = cmd.plan(cfg).unwrap();
    let prod_as_e1_deployment_expected_helm_cmd =
        "helm template some-release charts/some-chart --namespace=default";
    let prod_eu_w4_deployment_expected_helm_cmd =
        "helm template some-release charts/some-chart --namespace=default";
    let prod_us_c1_deployment_expected_helm_cmd =
        "helm template some-release charts/some-chart --namespace=default";

    let prod_as_e1_deployment_expected_helm_cmd: Vec<String> =
        prod_as_e1_deployment_expected_helm_cmd
            .split_whitespace()
            .map(String::from)
            .collect();

    let prod_eu_w4_deployment_expected_helm_cmd: Vec<String> =
        prod_eu_w4_deployment_expected_helm_cmd
            .split_whitespace()
            .map(String::from)
            .collect();

    let prod_us_c1_deployment_expected_helm_cmd: Vec<String> =
        prod_us_c1_deployment_expected_helm_cmd
            .split_whitespace()
            .map(String::from)
            .collect();

    let got_as_e1 = res.commands.get("prod_as_e1_deployment").unwrap();
    let got_eu_w4 = res.commands.get("prod_eu_w4_deployment").unwrap();
    let got_us_c1 = res.commands.get("prod_us_c1_deployment").unwrap();

    assert_eq!(prod_as_e1_deployment_expected_helm_cmd, got_as_e1.1);
    assert_eq!(prod_eu_w4_deployment_expected_helm_cmd, got_eu_w4.1);
    assert_eq!(prod_us_c1_deployment_expected_helm_cmd, got_us_c1.1);
    assert_eq!(res.commands.len(), 3);
}

#[test]
fn filter_all_eu_w4_deployment() {
    let mut cfg = get_config();
    cfg.chart = String::from("charts/some-chart");
    cfg.namespace = Option::from("default".to_string());
    cfg.release_name = "some-release".to_string();
    cfg.output_path = String::from("manifests");

    let mut edge_eu_w4_deployment = get_deployment();
    let mut stage_eu_w4_deployment = get_deployment();
    let mut prod_as_e1_deployment = get_deployment();
    let mut prod_eu_w4_deployment = get_deployment();
    let mut prod_us_c1_deployment = get_deployment();

    edge_eu_w4_deployment.name = "edge_eu_w4_deployment".to_string();
    stage_eu_w4_deployment.name = "stage_eu_w4_deployment".to_string();
    prod_as_e1_deployment.name = "prod_as_e1_deployment".to_string();
    prod_eu_w4_deployment.name = "prod_eu_w4_deployment".to_string();
    prod_us_c1_deployment.name = "prod_us_c1_deployment".to_string();

    cfg.deployments = vec![
        edge_eu_w4_deployment,
        stage_eu_w4_deployment,
        prod_as_e1_deployment,
        prod_eu_w4_deployment,
        prod_us_c1_deployment,
    ];

    let mut cmd = get_cmd();
    cmd.opts.filter = Option::from("eu_w4".to_string());

    let res = cmd.plan(cfg).unwrap();

    let edge_eu_w4_deployment_expected_helm_cmd =
        "helm template some-release charts/some-chart --namespace=default";
    let prod_eu_w4_deployment_expected_helm_cmd =
        "helm template some-release charts/some-chart --namespace=default";
    let stage_eu_w4_deployment_expected_helm_cmd =
        "helm template some-release charts/some-chart --namespace=default";

    let edge_eu_w4_deployment_expected_helm_cmd: Vec<String> =
        edge_eu_w4_deployment_expected_helm_cmd
            .split_whitespace()
            .map(String::from)
            .collect();

    let prod_eu_w4_deployment_expected_helm_cmd: Vec<String> =
        prod_eu_w4_deployment_expected_helm_cmd
            .split_whitespace()
            .map(String::from)
            .collect();

    let stage_eu_w4_deployment_expected_helm_cmd: Vec<String> =
        stage_eu_w4_deployment_expected_helm_cmd
            .split_whitespace()
            .map(String::from)
            .collect();

    let got_edge = res.commands.get("edge_eu_w4_deployment").unwrap();
    let got_stage = res.commands.get("stage_eu_w4_deployment").unwrap();
    let got_prod = res.commands.get("prod_eu_w4_deployment").unwrap();

    assert_eq!(edge_eu_w4_deployment_expected_helm_cmd, got_edge.1);
    assert_eq!(prod_eu_w4_deployment_expected_helm_cmd, got_prod.1);
    assert_eq!(stage_eu_w4_deployment_expected_helm_cmd, got_stage.1);
    assert_eq!(res.commands.len(), 3);
}

#[test]
fn pipe_output_through_tool() {
    let mut cfg = get_config();
    cfg.chart = String::from("charts/some-chart");
    cfg.namespace = Option::from("default".to_string());
    cfg.release_name = "some-release".to_string();
    cfg.output_path = String::from("manifests");

    let mut edge = get_deployment();
    edge.name = "edge".to_string();

    cfg.deployments = vec![edge];

    let mut cmd = get_cmd();
    let pipe_command = vec!["grep images".to_string()];

    cmd.opts.pipe = Option::from(pipe_command);

    let res = cmd.plan(cfg).unwrap();

    let base_helm_cmd = "helm template some-release charts/some-chart --namespace=default";

    let mut edge_expected_helm_cmd: Vec<String> =
        base_helm_cmd.split_whitespace().map(String::from).collect();

    edge_expected_helm_cmd.push("| grep images".to_owned());

    let got_edge = res.commands.get("edge").unwrap();

    assert_eq!(edge_expected_helm_cmd, got_edge.1);
    assert_eq!(res.commands.len(), 1);
}
